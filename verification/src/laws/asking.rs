//! What the command is asked for.

use crate::command::{parse_command, profile_flag, SeedCommand};
use vstd::prelude::*;
use vstd::string::*;

verus! {

/// Whether an argument is the flag for the profile, on its own or with a value behind an equals sign.
pub open spec fn is_flag(arg: Seq<char>) -> bool {
    arg == "--profile"@ || exists|value: Seq<char>| arg == #[trigger] ("--profile="@ + value)
}

proof fn flags_are_flags(arg: Seq<char>)
    ensures
        is_flag(arg) <==> crate::command::is_profile_flag(arg),
        forall|value: Seq<char>|
            arg == #[trigger] ("--profile="@ + value) ==> arg != "--profile"@ && arg.skip(
                "--profile="@.len() as int,
            ) == value && crate::text::starts_with(arg, "--profile="@),
{
    reveal_strlit("--profile");
    reveal_strlit("--profile=");
    let start = "--profile="@;
    assert(start.len() == 10 && "--profile"@.len() == 9);
    if crate::text::starts_with(arg, start) {
        assert(arg =~= start + arg.skip(start.len() as int));
    }
    assert forall|value: Seq<char>| arg == #[trigger] (start + value) implies arg
        != "--profile"@ && arg.skip(start.len() as int) == value && crate::text::starts_with(
        arg,
        start,
    ) by {
        assert(arg.take(start.len() as int) =~= start);
        assert(arg.skip(start.len() as int) =~= value);
    }
}

/// The first argument that is the flag decides: the profile is what stands behind the equals sign or, for
/// the flag on its own, the next argument, if there is one.
pub proof fn the_first_flag_names_the_profile(args: &[String], profile: Option<String>, i: int)
    requires
        call_ensures(profile_flag, (args,), profile),
        0 <= i < args@.len(),
        is_flag(args@[i]@),
        forall|j: int| 0 <= j < i ==> !is_flag((#[trigger] args@[j])@),
    ensures
        args@[i]@ == "--profile"@ && i + 1 < args@.len() ==> profile is Some && profile->0@ == args@[i
            + 1]@,
        args@[i]@ == "--profile"@ && i + 1 == args@.len() ==> profile is None,
        forall|value: Seq<char>|
            args@[i]@ == #[trigger] ("--profile="@ + value) ==> profile is Some && profile->0@ == value,
{
    let all = crate::text::texts(args@);
    let before = all.take(i);
    let rest = all.skip(i);
    assert forall|j: int| 0 <= j < before.len() implies !crate::command::is_profile_flag(
        #[trigger] before[j],
    ) by {
        assert(before[j] == args@[j]@);
        flags_are_flags(before[j]);
    }
    assert(all =~= before + rest);
    crate::command::first_profile_flag_counts(before, rest);
    assert(rest[0] == args@[i]@);
    if i + 1 < args@.len() {
        assert(rest[1] == args@[i + 1]@);
    }
    flags_are_flags(rest[0]);
}

/// Without the flag there is no profile.
pub proof fn no_flag_names_no_profile(args: &[String], profile: Option<String>)
    requires
        call_ensures(profile_flag, (args,), profile),
        forall|j: int| 0 <= j < args@.len() ==> !is_flag((#[trigger] args@[j])@),
    ensures
        profile is None,
{
    let all = crate::text::texts(args@);
    assert forall|j: int| 0 <= j < all.len() implies !crate::command::is_profile_flag(
        #[trigger] all[j],
    ) by {
        assert(all[j] == args@[j]@);
        flags_are_flags(all[j]);
    }
    crate::command::no_profile_flag_no_profile(all);
}

/// Whether the command is refused with a message.
pub open spec fn refuses(command: SeedCommand<String>, message: Seq<char>) -> bool {
    command is Refuse && command->message@ == message
}

/// Whether the second argument is `word`.
pub open spec fn asks_for(args: &[String], word: Seq<char>) -> bool {
    args@.len() > 1 && args@[1]@ == word
}

/// With no second argument, or with `list`, the seeds are listed; that is all that lists them.
pub proof fn what_lists_the_seeds(
    args: &[String],
    given: Option<&str>,
    command: SeedCommand<String>,
)
    requires
        call_ensures(parse_command, (args, given), command),
    ensures
        command is List <==> args@.len() <= 1 || args@[1]@ == "list"@,
{
    words_differ();
    views_of(args);
}

/// Saving takes the name from the third argument. The profile is the given one or, without that, the one
/// that the arguments name.
pub proof fn what_saves_a_seed(
    args: &[String],
    given: Option<&str>,
    flagged: Option<String>,
    command: SeedCommand<String>,
)
    requires
        call_ensures(parse_command, (args, given), command),
        call_ensures(profile_flag, (args,), flagged),
    ensures
        command is Save ==> asks_for(args, "save"@),
        asks_for(args, "save"@) && args@.len() == 2 ==> refuses(
            command,
            "Usage: agent-browser seed save <name> --profile <chrome-profile>"@,
        ),
        asks_for(args, "save"@) && args@.len() > 2 ==> match (given, flagged) {
            (Some(profile), _) => command is Save && command->Save_name@ == args@[2]@
                && command->profile@ == profile@,
            (None, Some(profile)) => command is Save && command->Save_name@ == args@[2]@
                && command->profile@ == profile@,
            (None, None) => refuses(
                command,
                "seed save requires --profile <name>. Example: agent-browser seed save work --profile Default"@,
            ),
        },
{
    words_differ();
    views_of(args);
}

/// Showing takes the name from the third argument.
pub proof fn what_shows_a_seed(
    args: &[String],
    given: Option<&str>,
    command: SeedCommand<String>,
)
    requires
        call_ensures(parse_command, (args, given), command),
    ensures
        command is Show ==> asks_for(args, "show"@),
        asks_for(args, "show"@) && args@.len() == 2 ==> refuses(
            command,
            "Usage: agent-browser seed show <name>"@,
        ),
        asks_for(args, "show"@) && args@.len() > 2 ==> command is Show && command->Show_name@
            == args@[2]@,
{
    words_differ();
    views_of(args);
}

/// Deleting takes the name from the third argument, and has two words.
pub proof fn what_deletes_a_seed(
    args: &[String],
    given: Option<&str>,
    command: SeedCommand<String>,
)
    requires
        call_ensures(parse_command, (args, given), command),
    ensures
        command is Delete ==> asks_for(args, "delete"@) || asks_for(args, "rm"@),
        (asks_for(args, "delete"@) || asks_for(args, "rm"@)) && args@.len() == 2 ==> refuses(
            command,
            "Usage: agent-browser seed delete <name>"@,
        ),
        (asks_for(args, "delete"@) || asks_for(args, "rm"@)) && args@.len() > 2 ==> command is Delete
            && command->Delete_name@ == args@[2]@,
{
    words_differ();
    views_of(args);
}

/// Any other word is refused, and quoted.
pub proof fn any_other_word_is_refused(
    args: &[String],
    given: Option<&str>,
    command: SeedCommand<String>,
)
    requires
        call_ensures(parse_command, (args, given), command),
        args@.len() > 1,
        args@[1]@ != "list"@,
        args@[1]@ != "save"@,
        args@[1]@ != "show"@,
        args@[1]@ != "delete"@,
        args@[1]@ != "rm"@,
    ensures
        refuses(
            command,
            "Unknown seed subcommand '"@ + args@[1]@ + "'. Use list, save, show, or delete."@,
        ),
{
    views_of(args);
}

proof fn words_differ()
    ensures
        "list"@ != "save"@,
        "list"@ != "show"@,
        "list"@ != "delete"@,
        "list"@ != "rm"@,
        "save"@ != "show"@,
        "save"@ != "delete"@,
        "save"@ != "rm"@,
        "show"@ != "delete"@,
        "show"@ != "rm"@,
{
    reveal_strlit("list");
    reveal_strlit("save");
    reveal_strlit("show");
    reveal_strlit("delete");
    reveal_strlit("rm");
    assert("list"@[0] == 'l' && "save"@[1] == 'a' && "show"@[1] == 'h');
    assert("list"@.len() == 4 && "save"@.len() == 4 && "show"@.len() == 4);
    assert("save"@[0] == 's' && "show"@[0] == 's');
    assert("delete"@.len() == 6 && "rm"@.len() == 2);
}

proof fn views_of(args: &[String])
    ensures
        crate::text::texts(args@).len() == args@.len(),
        forall|i: int| 0 <= i < args@.len() ==> #[trigger] crate::text::texts(args@)[i] == args@[i]@,
{
}

} // verus!
