//! What is recorded about a seed, and how it is told.

use crate::json::{failure_line, optional_text_value, success_line, JsonDoc};
use crate::metadata::{
    metadata_list_value, metadata_value, read_metadata, MetadataFile, SeedMetadata,
};
use serde_json::Value;
use vstd::prelude::*;
use vstd::string::*;

verus! {

/// Whether a document has exactly the four members of a seed's metadata, each with its own text.
pub open spec fn tells_the_seed(doc: JsonDoc, seed: SeedMetadata) -> bool {
    doc matches JsonDoc::Object(members) && {
        &&& members.dom() == set!["name"@, "profileDirectory"@, "sourceProfile"@, "createdAt"@]
        &&& members["name"@] == JsonDoc::Text(seed.name@)
        &&& members["profileDirectory"@] == JsonDoc::Text(seed.profile_directory@)
        &&& members["sourceProfile"@] == JsonDoc::Text(seed.source_profile@)
        &&& members["createdAt"@] == JsonDoc::Text(seed.created_at@)
    }
}

/// The document of a seed's metadata tells all of it.
pub proof fn the_document_tells_the_seed(seed: SeedMetadata, value: Value)
    requires
        call_ensures(metadata_value, (&seed,), value),
    ensures
        tells_the_seed(crate::json::json_of(value), seed),
{
    metadata_doc_tells(seed);
}

/// The same, of the document itself.
pub proof fn metadata_doc_tells(seed: SeedMetadata)
    ensures
        tells_the_seed(crate::metadata::metadata_doc(seed@), seed),
{
    reveal_strlit("name");
    reveal_strlit("profileDirectory");
    reveal_strlit("sourceProfile");
    reveal_strlit("createdAt");
    assert("name"@.len() == 4 && "profileDirectory"@.len() == 16);
    assert("sourceProfile"@.len() == 13 && "createdAt"@.len() == 9);
    let doc = crate::metadata::metadata_doc(seed@);
    assert(doc->Object_0.dom() =~= set![
        "name"@,
        "profileDirectory"@,
        "sourceProfile"@,
        "createdAt"@,
    ]);
}

/// Whether a document is the array of the seeds' documents, in their order.
pub open spec fn tells_the_seeds(doc: JsonDoc, seeds: Seq<SeedMetadata>) -> bool {
    doc matches JsonDoc::List(items) && {
        &&& items.len() == seeds.len()
        &&& forall|i: int| 0 <= i < seeds.len() ==> tells_the_seed(items[i], #[trigger] seeds[i])
    }
}

/// The document of a list of seeds tells each of them, in order.
pub proof fn the_list_tells_every_seed(seeds: Vec<SeedMetadata>, value: Value)
    requires
        call_ensures(metadata_list_value, (&seeds,), value),
    ensures
        tells_the_seeds(crate::json::json_of(value), seeds@),
{
    let items = crate::json::json_of(value)->List_0;
    assert forall|i: int| 0 <= i < seeds@.len() implies tells_the_seed(
        items[i],
        #[trigger] seeds@[i],
    ) by {
        metadata_doc_tells(seeds@[i]);
        assert(items[i] == crate::metadata::metadata_doc(seeds@[i]@));
    }
}

/// Reading gives the metadata that the file holds, as it is. A file that cannot be read, or does not hold
/// any, gives an error that says so and why.
pub proof fn reading_gives_what_the_file_holds(
    path: &str,
    file: MetadataFile<String, SeedMetadata>,
    result: Result<SeedMetadata, String>,
)
    requires
        call_ensures(read_metadata, (path, file), result),
    ensures
        match file {
            MetadataFile::Parsed(seed) => result is Ok && crate::laws::listing::fields(
                result->Ok_0,
            ) == crate::laws::listing::fields(seed),
            MetadataFile::Unreadable(error) => result is Err && result->Err_0@
                == "Seed metadata missing at "@ + path@ + ": "@ + error@,
            MetadataFile::Malformed(error) => result is Err && result->Err_0@
                == "Invalid seed metadata: "@ + error@,
        },
{
    match file {
        MetadataFile::Parsed(seed) => {
            assert(result->Ok_0@ == seed@);
        },
        _ => {},
    }
}

/// An optional text is the text itself, or null.
pub proof fn an_optional_text_is_the_text_or_null(text: Option<&str>, value: Value)
    requires
        call_ensures(optional_text_value, (text,), value),
    ensures
        crate::json::json_of(value) == (match text {
            Some(t) => JsonDoc::Text(t@),
            None => JsonDoc::Null,
        }),
{
}

/// Whether a document is an object with exactly two members.
pub open spec fn has_two(
    doc: JsonDoc,
    key1: Seq<char>,
    doc1: JsonDoc,
    key2: Seq<char>,
    doc2: JsonDoc,
) -> bool {
    doc matches JsonDoc::Object(members) && {
        &&& members.dom() == set![key1, key2]
        &&& members[key1] == doc1
        &&& members[key2] == doc2
    }
}

/// A success is told as one line: the text of a document that says so and holds the data.
pub proof fn a_success_is_told_with_its_data(data: Value, line: String) -> (doc: JsonDoc)
    requires
        call_ensures(success_line, (data,), line),
    ensures
        line@ == crate::json::json_text(doc),
        has_two(doc, "success"@, JsonDoc::Bool(true), "data"@, crate::json::json_of(data)),
        !line@.contains('\n'),
{
    success_doc_has_two(crate::json::json_of(data));
    crate::json::success_doc(crate::json::json_of(data))
}

/// The same, of the document itself.
pub proof fn success_doc_has_two(data: JsonDoc)
    ensures
        has_two(
            crate::json::success_doc(data),
            "success"@,
            JsonDoc::Bool(true),
            "data"@,
            data,
        ),
{
    reveal_strlit("success");
    reveal_strlit("data");
    assert("success"@.len() != "data"@.len());
    assert(crate::json::success_doc(data)->Object_0.dom() =~= set!["success"@, "data"@]);
}

/// A failure is told as one line: the text of a document that says so and holds the message.
pub proof fn a_failure_is_told_with_its_message(error: &str, line: String) -> (doc: JsonDoc)
    requires
        call_ensures(failure_line, (error,), line),
    ensures
        line@ == crate::json::json_text(doc),
        has_two(doc, "success"@, JsonDoc::Bool(false), "error"@, JsonDoc::Text(error@)),
        !line@.contains('\n'),
{
    failure_doc_has_two(error@);
    crate::json::failure_doc(error@)
}

/// The same, of the document itself.
pub proof fn failure_doc_has_two(error: Seq<char>)
    ensures
        has_two(
            crate::json::failure_doc(error),
            "success"@,
            JsonDoc::Bool(false),
            "error"@,
            JsonDoc::Text(error),
        ),
{
    reveal_strlit("success");
    reveal_strlit("error");
    assert("success"@.len() != "error"@.len());
    assert(crate::json::failure_doc(error)->Object_0.dom() =~= set!["success"@, "error"@]);
}

} // verus!
