//! What the dialogue at the installation does.
use vstd::prelude::*;
use vstd::string::*;

use crate::lifecycle;
use crate::lifecycle::NextView;
use crate::paths;
use crate::text;

verus! {

/// The question for a star is kept away by the flag, or by the variable where it says yes.
pub proof fn law_question_is_kept_away(skip: bool, value: Seq<char>, interactive: bool)
    ensures
        ({
            let yes = seq!["1"@, "true"@, "TRUE"@, "yes"@, "YES"@, "on"@, "ON"@];
            let away = skip || yes.contains(value);
            let step = lifecycle::first_step(skip, Some(value), interactive);
            &&& away ==> step.next is Done && step.print
                == "[clawhip] skipping GitHub star prompt (--skip-star-prompt or "@
                + "CLAWHIP_SKIP_STAR_PROMPT"@ + ")\n"@
            &&& !away && interactive ==> step.next == NextView::RunAuth(seq!["auth"@, "status"@])
            &&& !away && !interactive ==> step.next is Done && step.print == ""@
        }),
        ({
            let step = lifecycle::first_step(skip, None, interactive);
            &&& skip ==> step.next is Done
            &&& !skip && interactive ==> step.next == NextView::RunAuth(seq!["auth"@, "status"@])
            &&& !skip && !interactive ==> step.next is Done
        }),
{
    let yes = seq!["1"@, "true"@, "TRUE"@, "yes"@, "YES"@, "on"@, "ON"@];
    assert(yes[0] == "1"@);
    assert(yes[1] == "true"@);
    assert(yes[2] == "TRUE"@);
    assert(yes[3] == "yes"@);
    assert(yes[4] == "YES"@);
    assert(yes[5] == "on"@);
    assert(yes[6] == "ON"@);
}

/// A star is given after an answer that agrees, by one request; after any other nothing is
/// done, and nothing where no answer came.
pub proof fn law_answer_to_the_question(line: Seq<char>)
    ensures
        ({
            let answer = text::trimmed(line);
            let step = lifecycle::answered_step(Some(line));
            let agreed = answer == "y"@ || answer == "Y"@ || answer == "yes"@ || answer == "Yes"@
                || answer == "YES"@;
            &&& agreed ==> step.next == NextView::RunStar(
                seq![
                    "api"@,
                    "--method"@,
                    "PUT"@,
                    "/user/starred/"@ + "Yeachan-Heo/clawhip"@,
                    "--silent"@,
                ],
            )
            &&& !agreed ==> step.next is Done && step.print
                == "[clawhip] skipping GitHub star step\n"@
        }),
        lifecycle::answered_step(None).next is Done,
{
}

/// The configuration lies below the home directory, and the programs of cargo in its own
/// directory, which lies below the home directory unless it is set.
pub proof fn law_directories(home: Seq<char>, cargo_home: Seq<char>)
    ensures
        lifecycle::config_dir_of(Some(home)) == paths::below(home, ".clawhip"@),
        lifecycle::config_dir_of(None) == paths::below("."@, ".clawhip"@),
        lifecycle::bin_dir_of(Some(cargo_home), Some(home)) == paths::below(cargo_home, "bin"@),
        lifecycle::bin_dir_of(None, Some(home)) == paths::below(
            paths::below(home, ".cargo"@),
            "bin"@,
        ),
        lifecycle::bin_dir_of(None, None) == paths::below(paths::below("."@, ".cargo"@), "bin"@),
{
}

/// A program that is a link to the sources is built anew, and any other installed anew.
pub proof fn law_update_of_the_program(repo_root: Seq<char>)
    ensures
        lifecycle::update_words(repo_root, true) == seq!["build"@, "--release"@],
        lifecycle::update_words(repo_root, false) == seq![
            "install"@,
            "--path"@,
            repo_root,
            "--force"@,
        ],
{
}

/// The question names the repository and how to answer.
pub proof fn law_question_for_a_star()
    ensures
        lifecycle::question() == "[clawhip] optional: star "@ + "Yeachan-Heo/clawhip"@
            + " on GitHub to support the project\n"@ + "[clawhip] Would you like to star "@
            + "Yeachan-Heo/clawhip"@ + " on GitHub with gh? [y/N]: "@,
{
}

} // verus!
