//! Parts of a message that are made from several fields of a payload.
use vstd::prelude::*;
use vstd::string::*;

use crate::compose;
use crate::compose::{cat2, cat3, cat4, join, number};
use crate::json;
use crate::json::{Json, Node};
use crate::paths;
use crate::paths::file_name_of;
use crate::scan;
use crate::scan::replace;
use crate::text;
use crate::text::{same, strip_prefix};
use crate::value::meaningful;

verus! {

broadcast use {crate::json::group_trees, crate::text::views_push};

// ---------------------------------------------------------------------------
// Lists of parts
// ---------------------------------------------------------------------------

/// A list of parts with one more part, where there is one.
pub open spec fn pushed(parts: Seq<Seq<char>>, part: Option<Seq<char>>) -> Seq<Seq<char>> {
    match part {
        Some(s) => parts.push(s),
        None => parts,
    }
}

/// A text with a label before it, where there is one.
pub open spec fn labelled(label: Seq<char>, value: Option<Seq<char>>) -> Option<Seq<char>> {
    match value {
        Some(s) => Some(label + s),
        None => None,
    }
}

/// A number between two labels, where there is one.
pub open spec fn counted(before: Seq<char>, value: Option<u64>, after: Seq<char>) -> Option<
    Seq<char>,
> {
    match value {
        Some(n) => Some(before + compose::decimal(n as nat) + after),
        None => None,
    }
}

/// Parts in brackets, or nothing where there are none.
pub open spec fn bracketed(parts: Seq<Seq<char>>) -> Seq<char> {
    if parts.len() == 0 {
        Seq::empty()
    } else {
        " ("@ + compose::joined(parts, ", "@) + ")"@
    }
}

/// Parts with dots between them, or nothing where there are none.
pub open spec fn dotted(parts: Seq<Seq<char>>) -> Seq<char> {
    if parts.len() == 0 {
        Seq::empty()
    } else {
        " · "@ + compose::joined(parts, " · "@)
    }
}

/// Adds a part to a list, where there is one.
pub fn push_part(parts: &mut Vec<String>, part: Option<String>)
    ensures
        text::views(final(parts)@) == pushed(text::views(old(parts)@), text::opt_text(part)),
{
    match part {
        Some(s) => parts.push(s),
        None => {},
    }
}

/// Puts a label before a text, where there is one.
pub fn label(tag: &str, value: Option<String>) -> (r: Option<String>)
    ensures
        text::opt_text(r) == labelled(tag@, text::opt_text(value)),
{
    match value {
        Some(s) => Some(cat2(tag, s.as_str())),
        None => None,
    }
}

/// Puts a number between two labels, where there is one.
pub fn count_label(before: &str, value: Option<u64>, after: &str) -> (r: Option<String>)
    ensures
        text::opt_text(r) == counted(before@, value, after@),
{
    match value {
        Some(n) => Some(cat3(before, number(n).as_str(), after)),
        None => None,
    }
}

/// Puts parts in brackets.
pub fn in_brackets(parts: &Vec<String>) -> (r: String)
    ensures
        r@ == bracketed(text::views(parts@)),
{
    if parts.len() == 0 {
        String::new()
    } else {
        cat3(" (", join(parts, ", ").as_str(), ")")
    }
}

/// Puts dots between parts.
pub fn with_dots(parts: &Vec<String>) -> (r: String)
    ensures
        r@ == dotted(text::views(parts@)),
{
    if parts.len() == 0 {
        String::new()
    } else {
        cat2(" · ", join(parts, " · ").as_str())
    }
}

/// The first of two texts that is there.
pub fn first_of(a: Option<String>, b: Option<String>) -> (r: Option<String>)
    ensures
        text::opt_text(r) == text::or_else(text::opt_text(a), text::opt_text(b)),
{
    match a {
        Some(s) => Some(s),
        None => b,
    }
}

/// A text, or another where it is missing.
pub open spec fn or_text(a: Option<Seq<char>>, otherwise: Seq<char>) -> Seq<char> {
    match a {
        Some(s) => s,
        None => otherwise,
    }
}

/// A text, or another where it is missing.
pub fn text_or(a: Option<String>, otherwise: &str) -> (r: String)
    ensures
        r@ == or_text(text::opt_text(a), otherwise@),
{
    match a {
        Some(s) => s,
        None => otherwise.to_owned(),
    }
}

// ---------------------------------------------------------------------------
// Repositories
// ---------------------------------------------------------------------------

/// The name under which the worktree of an event is shown: none where it is the
/// repository itself.
pub open spec fn worktree_name(node: Node) -> Option<Seq<char>> {
    match json::field(node, "worktree_path"@) {
        None => None,
        Some(path) => if json::field(node, "repo_path"@) == Some(path) {
            None
        } else {
            text::or_else(text::meaningful_opt(paths::file_name(path)), Some(path))
        },
    }
}

/// The name of a repository, with its worktree where that differs.
pub open spec fn repo_label(node: Node) -> Result<Seq<char>, Seq<char>> {
    match json::required(node, "repo"@) {
        Err(e) => Err(e),
        Ok(repo) => match worktree_name(node) {
            Some(worktree) => Ok(repo + "[wt:"@ + worktree + "]"@),
            None => Ok(repo),
        },
    }
}

/// The name under which the worktree of an event is shown.
pub fn worktree_display_name(payload: &Json) -> (r: Option<String>)
    ensures
        text::opt_text(r) == worktree_name(payload@),
{
    match payload.field("worktree_path") {
        None => None,
        Some(path) => {
            let is_repo = match payload.field("repo_path") {
                Some(repo) => same(repo.as_str(), path.as_str()),
                None => false,
            };
            if is_repo {
                None
            } else {
                let name = match file_name_of(path.as_str()) {
                    Some(name) => meaningful(Some(name.as_str())),
                    None => None,
                };
                first_of(name, Some(path))
            }
        },
    }
}

/// The name of a repository, with its worktree where that differs.
pub fn git_repo_label(payload: &Json) -> (r: Result<String, String>)
    ensures
        text::text_result(r) == repo_label(payload@),
{
    match payload.required("repo") {
        Err(e) => Err(e),
        Ok(repo) => match worktree_display_name(payload) {
            Some(worktree) => Ok(cat4(repo.as_str(), "[wt:", worktree.as_str(), "]")),
            None => Ok(repo),
        },
    }
}

// ---------------------------------------------------------------------------
// Agents
// ---------------------------------------------------------------------------

/// Whom an event mentions, with a space behind.
pub open spec fn mention_prefix(node: Node) -> Seq<char> {
    match json::field(node, "mention"@) {
        Some(mention) => mention + " "@,
        None => Seq::empty(),
    }
}

/// Where an agent works and for how long it has.
pub open spec fn agent_context(node: Node, parts: Seq<Seq<char>>) -> Seq<Seq<char>> {
    let parts = pushed(parts, labelled("project="@, json::field(node, "project"@)));
    let parts = pushed(parts, labelled("session="@, json::field(node, "session_id"@)));
    pushed(parts, counted("elapsed="@, json::count(node, "elapsed_secs"@), "s"@))
}

/// What is known of an agent, in brackets.
pub open spec fn agent_detail(node: Node) -> Seq<char> {
    let status = or_text(json::field(node, "status"@), Seq::empty());
    let parts = agent_context(node, Seq::<Seq<char>>::empty().push(status));
    let parts = pushed(parts, labelled("summary="@, json::field(node, "summary"@)));
    let parts = pushed(parts, labelled("error="@, json::field(node, "error_message"@)));
    bracketed(parts)
}

/// What is known of an agent, with dots.
pub open spec fn agent_inline(node: Node) -> Seq<char> {
    let parts = agent_context(node, Seq::empty());
    let parts = pushed(parts, json::field(node, "summary"@));
    let parts = pushed(parts, labelled("error: "@, json::field(node, "error_message"@)));
    dotted(parts)
}

/// Whom an event mentions, with a space behind.
pub fn agent_optional_mention_prefix(payload: &Json) -> (r: String)
    ensures
        r@ == mention_prefix(payload@),
{
    match payload.field("mention") {
        Some(mention) => cat2(mention.as_str(), " "),
        None => String::new(),
    }
}

fn agent_context_parts(payload: &Json, parts: &mut Vec<String>)
    ensures
        text::views(final(parts)@) == agent_context(payload@, text::views(old(parts)@)),
{
    push_part(parts, label("project=", payload.field("project")));
    push_part(parts, label("session=", payload.field("session_id")));
    push_part(parts, count_label("elapsed=", payload.count("elapsed_secs"), "s"));
}

/// What is known of an agent, in brackets.
pub fn agent_detail_suffix(payload: &Json) -> (r: String)
    ensures
        r@ == agent_detail(payload@),
{
    let mut parts: Vec<String> = Vec::new();
    assert(text::views(parts@) =~= Seq::<Seq<char>>::empty());
    let none = String::new();
    parts.push(text_or(payload.field("status"), none.as_str()));
    agent_context_parts(payload, &mut parts);
    push_part(&mut parts, label("summary=", payload.field("summary")));
    push_part(&mut parts, label("error=", payload.field("error_message")));
    in_brackets(&parts)
}

/// What is known of an agent, with dots.
pub fn agent_inline_suffix(payload: &Json) -> (r: String)
    ensures
        r@ == agent_inline(payload@),
{
    let mut parts: Vec<String> = Vec::new();
    assert(text::views(parts@) =~= Seq::<Seq<char>>::empty());
    agent_context_parts(payload, &mut parts);
    push_part(&mut parts, payload.field("summary"));
    push_part(&mut parts, label("error: ", payload.field("error_message")));
    with_dots(&parts)
}

// ---------------------------------------------------------------------------
// Sessions
// ---------------------------------------------------------------------------

/// The tool of a session and the session's name.
pub open spec fn session_subject(node: Node) -> Seq<char> {
    let tool = or_text(json::field(node, "tool"@), "session"@);
    match text::or_else(json::field(node, "session_name"@), json::field(node, "session_id"@)) {
        Some(session) => tool + " "@ + session,
        None => tool,
    }
}

/// The part of a kind that names what happened to a session.
pub open spec fn session_phase(kind: Seq<char>) -> Seq<char> {
    or_text(text::after_prefix(kind, "session."@), kind)
}

/// The four kinds that report where a session stands in its life.
pub open spec fn is_session_lifecycle(kind: Seq<char>) -> bool {
    kind == "session.started"@ || kind == "session.blocked"@ || kind == "session.finished"@ || kind
        == "session.failed"@
}

/// What happened to a session, in a word.
pub open spec fn session_status(kind: Seq<char>, node: Node) -> Seq<char> {
    if is_session_lifecycle(kind) {
        or_text(
            json::field(node, "status"@),
            scan::replaced(session_phase(kind), "-"@, " "@),
        )
    } else {
        session_phase(kind)
    }
}

/// The repository of a session: its name, or else its project.
pub open spec fn session_repo(node: Node) -> Option<Seq<char>> {
    text::or_else(json::field(node, "repo_name"@), json::field(node, "project"@))
}

/// What is known of a session, in brackets.
pub open spec fn session_detail(node: Node) -> Seq<char> {
    let parts = pushed(Seq::empty(), labelled("repo="@, session_repo(node)));
    let parts = pushed(parts, counted("issue=#"@, json::count(node, "issue_number"@), ""@));
    let parts = pushed(parts, counted("pr=#"@, json::count(node, "pr_number"@), ""@));
    let parts = pushed(parts, labelled("branch="@, json::field(node, "branch"@)));
    let parts = pushed(parts, labelled("runner="@, json::field(node, "test_runner"@)));
    let parts = pushed(parts, counted("elapsed="@, json::count(node, "elapsed_secs"@), "s"@));
    let parts = pushed(parts, labelled("summary="@, json::field(node, "summary"@)));
    let parts = pushed(parts, labelled("error="@, json::field(node, "error_message"@)));
    bracketed(parts)
}

/// What is known of a session, with dots.
pub open spec fn session_inline(node: Node) -> Seq<char> {
    let parts = pushed(Seq::empty(), session_repo(node));
    let parts = pushed(parts, counted("issue #"@, json::count(node, "issue_number"@), ""@));
    let parts = pushed(parts, counted("PR #"@, json::count(node, "pr_number"@), ""@));
    let parts = pushed(parts, json::field(node, "branch"@));
    let parts = pushed(parts, json::field(node, "test_runner"@));
    let parts = pushed(parts, counted(""@, json::count(node, "elapsed_secs"@), "s"@));
    let parts = pushed(parts, json::field(node, "summary"@));
    let parts = pushed(parts, labelled("error: "@, json::field(node, "error_message"@)));
    dotted(parts)
}

/// The tool of a session and the session's name.
pub fn session_subject_text(payload: &Json) -> (r: String)
    ensures
        r@ == session_subject(payload@),
{
    let tool = text_or(payload.field("tool"), "session");
    match first_of(payload.field("session_name"), payload.field("session_id")) {
        Some(session) => cat3(tool.as_str(), " ", session.as_str()),
        None => tool,
    }
}

fn session_phase_text(kind: &str) -> (r: String)
    ensures
        r@ == session_phase(kind@),
{
    match strip_prefix(kind, "session.") {
        Some(rest) => rest.to_owned(),
        None => kind.to_owned(),
    }
}

/// What happened to a session, in a word.
pub fn session_status_label(kind: &str, payload: &Json) -> (r: String)
    ensures
        r@ == session_status(kind@, payload@),
{
    let phase = session_phase_text(kind);
    if same(kind, "session.started") || same(kind, "session.blocked") || same(
        kind,
        "session.finished",
    ) || same(kind, "session.failed") {
        proof {
            reveal_strlit("-");
        }
        let spaced = replace(phase.as_str(), "-", " ");
        text_or(payload.field("status"), spaced.as_str())
    } else {
        phase
    }
}

/// What is known of a session, in brackets.
pub fn session_detail_suffix(payload: &Json) -> (r: String)
    ensures
        r@ == session_detail(payload@),
{
    let mut parts: Vec<String> = Vec::new();
    assert(text::views(parts@) =~= Seq::<Seq<char>>::empty());
    let repo = first_of(payload.field("repo_name"), payload.field("project"));
    push_part(&mut parts, label("repo=", repo));
    push_part(&mut parts, count_label("issue=#", payload.count("issue_number"), ""));
    push_part(&mut parts, count_label("pr=#", payload.count("pr_number"), ""));
    push_part(&mut parts, label("branch=", payload.field("branch")));
    push_part(&mut parts, label("runner=", payload.field("test_runner")));
    push_part(&mut parts, count_label("elapsed=", payload.count("elapsed_secs"), "s"));
    push_part(&mut parts, label("summary=", payload.field("summary")));
    push_part(&mut parts, label("error=", payload.field("error_message")));
    in_brackets(&parts)
}

/// What is known of a session, with dots.
pub fn session_inline_suffix(payload: &Json) -> (r: String)
    ensures
        r@ == session_inline(payload@),
{
    let mut parts: Vec<String> = Vec::new();
    assert(text::views(parts@) =~= Seq::<Seq<char>>::empty());
    let repo = first_of(payload.field("repo_name"), payload.field("project"));
    push_part(&mut parts, repo);
    push_part(&mut parts, count_label("issue #", payload.count("issue_number"), ""));
    push_part(&mut parts, count_label("PR #", payload.count("pr_number"), ""));
    push_part(&mut parts, payload.field("branch"));
    push_part(&mut parts, payload.field("test_runner"));
    push_part(&mut parts, count_label("", payload.count("elapsed_secs"), "s"));
    push_part(&mut parts, payload.field("summary"));
    push_part(&mut parts, label("error: ", payload.field("error_message")));
    with_dots(&parts)
}

} // verus!
