//! What is recorded about a saved seed.

use crate::json::{list_value, object_value, text_value, JsonDoc};
use crate::text::decimal_text;
use serde_json::Value;
use vstd::prelude::*;
use vstd::string::*;

verus! {

/// The file, inside a seed's directory, that holds its metadata.
pub const SEED_METADATA: &'static str = "seed.json";

/// The metadata of a saved seed.
#[derive(Debug, Clone)]
pub struct SeedMetadata {
    pub name: String,
    pub profile_directory: String,
    pub source_profile: String,
    pub created_at: String,
}

/// The text held in a [`SeedMetadata`].
pub struct SeedMetadataView {
    pub name: Seq<char>,
    pub profile_directory: Seq<char>,
    pub source_profile: Seq<char>,
    pub created_at: Seq<char>,
}

impl View for SeedMetadata {
    type V = SeedMetadataView;

    open spec fn view(&self) -> SeedMetadataView {
        SeedMetadataView {
            name: self.name@,
            profile_directory: self.profile_directory@,
            source_profile: self.source_profile@,
            created_at: self.created_at@,
        }
    }
}

/// Metadata or an error, as text.
pub open spec fn metadata_outcome(result: Result<SeedMetadata, String>) -> Result<
    SeedMetadataView,
    Seq<char>,
> {
    match result {
        Ok(seed) => Ok(seed@),
        Err(error) => Err(error@),
    }
}

/// The metadata of each seed in a list.
pub open spec fn metadata_views(seeds: Seq<SeedMetadata>) -> Seq<SeedMetadataView> {
    seeds.map_values(|seed: SeedMetadata| seed@)
}

/// The JSON document of a seed's metadata.
pub open spec fn metadata_doc(seed: SeedMetadataView) -> JsonDoc {
    JsonDoc::Object(
        map![
            "name"@ => JsonDoc::Text(seed.name),
            "profileDirectory"@ => JsonDoc::Text(seed.profile_directory),
            "sourceProfile"@ => JsonDoc::Text(seed.source_profile),
            "createdAt"@ => JsonDoc::Text(seed.created_at),
        ],
    )
}

/// The JSON of a seed's metadata.
pub fn metadata_value(seed: &SeedMetadata) -> (value: Value)
    ensures
        crate::json::json_of(value) == metadata_doc(seed@),
{
    let members: Vec<(String, Value)> = vec![
        ("name".to_string(), text_value(seed.name.as_str())),
        ("profileDirectory".to_string(), text_value(seed.profile_directory.as_str())),
        ("sourceProfile".to_string(), text_value(seed.source_profile.as_str())),
        ("createdAt".to_string(), text_value(seed.created_at.as_str())),
    ];
    proof {
        let docs = seq![
            ("name"@, JsonDoc::Text(seed.name@)),
            ("profileDirectory"@, JsonDoc::Text(seed.profile_directory@)),
            ("sourceProfile"@, JsonDoc::Text(seed.source_profile@)),
            ("createdAt"@, JsonDoc::Text(seed.created_at@)),
        ];
        assert(crate::json::member_docs(members@) =~= docs);
        reveal_strlit("name");
        reveal_strlit("profileDirectory");
        reveal_strlit("sourceProfile");
        reveal_strlit("createdAt");
        assert("name"@.len() == 4 && "profileDirectory"@.len() == 16);
        assert("sourceProfile"@.len() == 13 && "createdAt"@.len() == 9);
        assert(docs.drop_last() =~= docs.take(3));
        assert(docs.take(3).drop_last() =~= docs.take(2));
        assert(docs.take(2).drop_last() =~= docs.take(1));
        assert(docs.take(1).drop_last() =~= docs.take(0));
        reveal_with_fuel(crate::json::object_of, 5);
    }
    object_value(members)
}

/// The JSON of a list of seeds: the array of their documents, in order.
pub fn metadata_list_value(seeds: &Vec<SeedMetadata>) -> (value: Value)
    ensures
        crate::json::json_of(value) == JsonDoc::List(
            metadata_views(seeds@).map_values(|seed: SeedMetadataView| metadata_doc(seed)),
        ),
{
    let mut items: Vec<Value> = Vec::new();
    for i in 0..seeds.len()
        invariant
            items.len() == i,
            forall|j: int|
                0 <= j < i ==> crate::json::json_of(#[trigger] items@[j]) == metadata_doc(seeds@[j]@),
    {
        items.push(metadata_value(&seeds[i]));
    }
    proof {
        assert(items@.map_values(|v: Value| crate::json::json_of(v)) =~= metadata_views(seeds@).map_values(
            |seed: SeedMetadataView| metadata_doc(seed),
        ));
    }
    list_value(items)
}

/// What became of reading a metadata file; `T` is the type of text and `M` that of a seed's metadata.
pub enum MetadataFile<T, M> {
    /// The file could not be read, and why.
    Unreadable(T),
    /// The file's text is not the JSON of a seed's metadata, and why.
    Malformed(T),
    /// The metadata that the file holds.
    Parsed(M),
}

impl View for MetadataFile<String, SeedMetadata> {
    type V = MetadataFile<Seq<char>, SeedMetadataView>;

    open spec fn view(&self) -> MetadataFile<Seq<char>, SeedMetadataView> {
        match *self {
            MetadataFile::Unreadable(error) => MetadataFile::Unreadable(error@),
            MetadataFile::Malformed(error) => MetadataFile::Malformed(error@),
            MetadataFile::Parsed(seed) => MetadataFile::Parsed(seed@),
        }
    }
}

/// What reading a seed's metadata gives, from what became of its file at `path`.
pub open spec fn metadata_read(
    path: Seq<char>,
    file: MetadataFile<Seq<char>, SeedMetadataView>,
) -> Result<SeedMetadataView, Seq<char>> {
    match file {
        MetadataFile::Parsed(seed) => Ok(seed),
        MetadataFile::Unreadable(error) => Err(
            "Seed metadata missing at "@ + path + ": "@ + error,
        ),
        MetadataFile::Malformed(error) => Err("Invalid seed metadata: "@ + error),
    }
}

/// What reading a seed's metadata gives, from what became of its file at `path`.
pub fn read_metadata(path: &str, file: MetadataFile<String, SeedMetadata>) -> (result: Result<
    SeedMetadata,
    String,
>)
    ensures
        metadata_outcome(result) == metadata_read(path@, file@),
{
    match file {
        MetadataFile::Parsed(seed) => Ok(seed),
        MetadataFile::Unreadable(error) => Err(
            "Seed metadata missing at ".to_string().concat(path).concat(": ").concat(error.as_str()),
        ),
        MetadataFile::Malformed(error) => Err(
            "Invalid seed metadata: ".to_string().concat(error.as_str()),
        ),
    }
}

/// The seconds that the clock shows; zero for a clock that stands before the Unix epoch.
pub open spec fn clock_seconds(since_epoch: Option<u64>) -> nat {
    match since_epoch {
        Some(seconds) => seconds as nat,
        None => 0,
    }
}

/// The text in which a seed's creation time is recorded: the seconds since the Unix epoch, or zero
/// where the clock stands before it.
pub fn chrono_now(since_epoch: Option<u64>) -> (text: String)
    ensures
        text@ == crate::text::decimal(clock_seconds(since_epoch)),
{
    match since_epoch {
        Some(seconds) => decimal_text(seconds),
        None => decimal_text(0),
    }
}

} // verus!
