//! Installing, updating and removing the program.
use vstd::prelude::*;
use vstd::string::*;

use crate::components;
use crate::components::strip_dir;
use crate::compose::{cat2, cat3, cat6};
use crate::labels;
use crate::labels::text_or;
use crate::paths;
use crate::paths::join_path;
use crate::text;
use crate::text::{copy_opt, same, trim};

verus! {

broadcast use crate::text::views_push;

/// The repository of the project on GitHub.
pub const GITHUB_REPO: &'static str = "Yeachan-Heo/clawhip";

/// The variable of the environment that keeps the question for a star away.
pub const SKIP_STAR_PROMPT_ENV: &'static str = "CLAWHIP_SKIP_STAR_PROMPT";

// ---------------------------------------------------------------------------
// The question for a star
// ---------------------------------------------------------------------------

/// A text says yes.
pub open spec fn says_yes(value: Seq<char>) -> bool {
    value == "1"@ || value == "true"@ || value == "TRUE"@ || value == "yes"@ || value == "YES"@
        || value == "on"@ || value == "ON"@
}

/// Tells whether a text says yes.
pub fn is_truthy(value: &str) -> (r: bool)
    ensures
        r == says_yes(value@),
{
    same(value, "1") || same(value, "true") || same(value, "TRUE") || same(value, "yes") || same(
        value,
        "YES",
    ) || same(value, "on") || same(value, "ON")
}

/// The question for a star is kept away.
pub open spec fn is_disabled(skip: bool, env: Option<Seq<char>>) -> bool {
    skip || (env matches Some(value) && says_yes(value))
}

/// Tells whether the question for a star is kept away.
pub fn star_prompt_disabled(skip_star_prompt: bool, env_skip_star_prompt: Option<&str>) -> (r: bool)
    ensures
        r == is_disabled(skip_star_prompt, text::opt_str(env_skip_star_prompt)),
{
    skip_star_prompt || match env_skip_star_prompt {
        Some(value) => is_truthy(value),
        None => false,
    }
}

/// What is done next: a text is printed, and then the program is done, runs a
/// command of GitHub, or reads an answer.
#[derive(Debug)]
pub struct StarStep {
    pub print: String,
    pub next: StarNext,
}

/// What is done after a text was printed.
#[derive(Debug)]
pub enum StarNext {
    Done,
    /// Asks whether the user is known to GitHub.
    RunAuth(Vec<String>),
    ReadAnswer,
    /// Gives the star.
    RunStar(Vec<String>),
}

/// What is done after a text was printed.
pub enum NextView {
    Done,
    RunAuth(Seq<Seq<char>>),
    ReadAnswer,
    RunStar(Seq<Seq<char>>),
}

impl View for StarNext {
    type V = NextView;

    open spec fn view(&self) -> NextView {
        match self {
            StarNext::Done => NextView::Done,
            StarNext::RunAuth(args) => NextView::RunAuth(text::views(args@)),
            StarNext::ReadAnswer => NextView::ReadAnswer,
            StarNext::RunStar(args) => NextView::RunStar(text::views(args@)),
        }
    }
}

/// What is done next.
pub struct StepView {
    pub print: Seq<char>,
    pub next: NextView,
}

impl View for StarStep {
    type V = StepView;

    open spec fn view(&self) -> StepView {
        StepView { print: self.print@, next: self.next@ }
    }
}

/// The first step: nothing is asked where the question is kept away or nobody can
/// answer.
pub open spec fn first_step(skip: bool, env: Option<Seq<char>>, interactive: bool) -> StepView {
    if is_disabled(skip, env) {
        StepView {
            print: "[clawhip] skipping GitHub star prompt (--skip-star-prompt or "@
                + SKIP_STAR_PROMPT_ENV@ + ")\n"@,
            next: NextView::Done,
        }
    } else if !interactive {
        StepView { print: ""@, next: NextView::Done }
    } else {
        StepView { print: ""@, next: NextView::RunAuth(seq!["auth"@, "status"@]) }
    }
}

fn step(print: &str, next: StarNext) -> (r: StarStep)
    ensures
        r@ == (StepView { print: print@, next: next@ }),
{
    StarStep { print: print.to_owned(), next }
}

/// The first step: nothing is asked where the question is kept away or nobody can
/// answer.
pub fn begin_star_prompt(
    skip_star_prompt: bool,
    env_skip_star_prompt: Option<&str>,
    interactive: bool,
) -> (r: StarStep)
    ensures
        r@ == first_step(skip_star_prompt, text::opt_str(env_skip_star_prompt), interactive),
{
    if star_prompt_disabled(skip_star_prompt, env_skip_star_prompt) {
        let print = cat3(
            "[clawhip] skipping GitHub star prompt (--skip-star-prompt or ",
            SKIP_STAR_PROMPT_ENV,
            ")\n",
        );
        return step(print.as_str(), StarNext::Done);
    }
    if !interactive {
        return step("", StarNext::Done);
    }
    let mut args: Vec<String> = Vec::new();
    args.push("auth".to_owned());
    args.push("status".to_owned());
    assert(text::views(args@) =~= seq!["auth"@, "status"@]);
    step("", StarNext::RunAuth(args))
}

/// The question for a star.
pub open spec fn question() -> Seq<char> {
    "[clawhip] optional: star "@ + GITHUB_REPO@ + " on GitHub to support the project\n"@
        + "[clawhip] Would you like to star "@ + GITHUB_REPO@ + " on GitHub with gh? [y/N]: "@
}

/// The step after it was asked whether the user is known to GitHub.
pub fn after_auth(known: bool) -> (r: StarStep)
    ensures
        r@ == (if known {
            StepView { print: question(), next: NextView::ReadAnswer }
        } else {
            StepView { print: ""@, next: NextView::Done }
        }),
{
    if !known {
        return step("", StarNext::Done);
    }
    let print = cat6(
        "[clawhip] optional: star ",
        GITHUB_REPO,
        " on GitHub to support the project\n",
        "[clawhip] Would you like to star ",
        GITHUB_REPO,
        " on GitHub with gh? [y/N]: ",
    );
    step(print.as_str(), StarNext::ReadAnswer)
}

/// An answer agrees.
pub open spec fn agrees(answer: Seq<char>) -> bool {
    answer == "y"@ || answer == "Y"@ || answer == "yes"@ || answer == "Yes"@ || answer == "YES"@
}

/// The step after an answer, or after none came.
pub open spec fn answered_step(answer: Option<Seq<char>>) -> StepView {
    match answer {
        None => StepView { print: ""@, next: NextView::Done },
        Some(line) => if agrees(text::trimmed(line)) {
            StepView {
                print: ""@,
                next: NextView::RunStar(
                    seq![
                        "api"@,
                        "--method"@,
                        "PUT"@,
                        "/user/starred/"@ + GITHUB_REPO@,
                        "--silent"@,
                    ],
                ),
            }
        } else {
            StepView { print: "[clawhip] skipping GitHub star step\n"@, next: NextView::Done }
        },
    }
}

/// The step after an answer, or after none came.
pub fn after_answer(answer: Option<&str>) -> (r: StarStep)
    ensures
        r@ == answered_step(text::opt_str(answer)),
{
    let line = match answer {
        Some(line) => trim(line),
        None => {
            return step("", StarNext::Done);
        },
    };
    if same(line, "y") || same(line, "Y") || same(line, "yes") || same(line, "Yes") || same(
        line,
        "YES",
    ) {
        let mut args: Vec<String> = Vec::new();
        args.push("api".to_owned());
        args.push("--method".to_owned());
        args.push("PUT".to_owned());
        args.push(cat2("/user/starred/", GITHUB_REPO));
        args.push("--silent".to_owned());
        assert(text::views(args@) =~= seq![
            "api"@,
            "--method"@,
            "PUT"@,
            "/user/starred/"@ + GITHUB_REPO@,
            "--silent"@,
        ]);
        step("", StarNext::RunStar(args))
    } else {
        step("[clawhip] skipping GitHub star step\n", StarNext::Done)
    }
}

/// The step after the star was given, or could not be.
pub fn after_star(given: bool) -> (r: StarStep)
    ensures
        r@ == (StepView {
            print: if given {
                "[clawhip] thanks for starring "@ + GITHUB_REPO@ + "\n"@
            } else {
                "[clawhip] unable to star "@ + GITHUB_REPO@
                    + " with gh; continuing without it\n"@
            },
            next: NextView::Done,
        }),
{
    let print = if given {
        cat3("[clawhip] thanks for starring ", GITHUB_REPO, "\n")
    } else {
        cat3(
            "[clawhip] unable to star ",
            GITHUB_REPO,
            " with gh; continuing without it\n",
        )
    };
    step(print.as_str(), StarNext::Done)
}

// ---------------------------------------------------------------------------
// Directories and commands
// ---------------------------------------------------------------------------

/// The directory of the configuration.
pub open spec fn config_dir_of(home: Option<Seq<char>>) -> Seq<char> {
    paths::below(labels::or_text(home, "."@), ".clawhip"@)
}

/// The directory of the configuration.
pub fn config_dir(home: &Option<String>) -> (r: String)
    ensures
        r@ == config_dir_of(text::opt_text(*home)),
{
    let home = text_or(copy_opt(home), ".");
    join_path(home.as_str(), ".clawhip")
}

/// The directory of the programs that cargo installs.
pub open spec fn bin_dir_of(cargo_home: Option<Seq<char>>, home: Option<Seq<char>>) -> Seq<char> {
    paths::below(
        match cargo_home {
            Some(dir) => dir,
            None => paths::below(labels::or_text(home, "."@), ".cargo"@),
        },
        "bin"@,
    )
}

/// The directory of the programs that cargo installs.
pub fn cargo_bin_dir(cargo_home: &Option<String>, home: &Option<String>) -> (r: String)
    ensures
        r@ == bin_dir_of(text::opt_text(*cargo_home), text::opt_text(*home)),
{
    let dir = match cargo_home {
        Some(dir) => dir.clone(),
        None => {
            let home = text_or(copy_opt(home), ".");
            join_path(home.as_str(), ".cargo")
        },
    };
    join_path(dir.as_str(), "bin")
}

/// Tells whether the program runs in its repository: the manifest and the sources
/// are there.
pub fn check_repo_root(has_manifest: bool, has_sources: bool) -> (r: Result<(), String>)
    ensures
        r is Ok == (has_manifest && has_sources),
        r matches Err(e) ==> e@ == "run this command from the clawhip git clone root"@,
{
    if has_manifest && has_sources {
        Ok(())
    } else {
        Err("run this command from the clawhip git clone root".to_owned())
    }
}

/// Tells whether the installed program is a link into the build directory of the
/// repository.
pub fn is_linked_build(link: Option<&str>, repo_root: &str) -> (r: bool)
    ensures
        r == (link matches Some(target) && components::lies_under(
            target@,
            paths::below(repo_root@, "target"@),
        )),
{
    match link {
        Some(target) => {
            let dir = join_path(repo_root, "target");
            strip_dir(target, dir.as_str()).is_some()
        },
        None => false,
    }
}

/// The words of a cargo command that brings the program up to date: it is built in
/// its place where the installed program is a link to it, and installed where not.
pub open spec fn update_words(repo_root: Seq<char>, linked: bool) -> Seq<Seq<char>> {
    if linked {
        seq!["build"@, "--release"@]
    } else {
        seq!["install"@, "--path"@, repo_root, "--force"@]
    }
}

/// The words of a cargo command that brings the program up to date.
pub fn update_build_args(repo_root: &str, linked: bool) -> (r: Vec<String>)
    ensures
        text::views(r@) == update_words(repo_root@, linked),
{
    let mut args: Vec<String> = Vec::new();
    if linked {
        args.push("build".to_owned());
        args.push("--release".to_owned());
    } else {
        args.push("install".to_owned());
        args.push("--path".to_owned());
        args.push(repo_root.to_owned());
        args.push("--force".to_owned());
    }
    assert(text::views(args@) =~= update_words(repo_root@, linked));
    args
}

// ---------------------------------------------------------------------------
// Laws
// ---------------------------------------------------------------------------

/// A star is given only after an answer that agrees.
pub proof fn law_star_only_after_yes(answer: Option<Seq<char>>)
    ensures
        answered_step(answer).next is RunStar ==> (answer matches Some(line) && agrees(
            text::trimmed(line),
        )),
{
}

/// Where the question is kept away, or nobody can answer, GitHub is not asked.
pub proof fn law_no_question_where_unwanted(
    skip: bool,
    env: Option<Seq<char>>,
    interactive: bool,
)
    requires
        is_disabled(skip, env) || !interactive,
    ensures
        first_step(skip, env, interactive).next is Done,
{
}

} // verus!
