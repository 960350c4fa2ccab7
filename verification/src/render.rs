//! The default renderer: the message of an event in each format.
use vstd::prelude::*;
use vstd::string::*;

use crate::codec;
use crate::codec::{to_pretty_text, to_text};
use crate::compose;
use crate::compose::{cat2, cat3, cat4, cat5, cat7, cat8, join, number};
use crate::default_text;
use crate::events;
use crate::events::{short_sha, EventView, IncomingEvent, MessageFormat};
use crate::json;
use crate::json::{Json, Node};
use crate::labels;
use crate::labels::{
    agent_optional_mention_prefix, first_of, git_repo_label, label, push_part,
    session_detail_suffix, session_inline_suffix, session_status_label, session_subject_text,
    text_or,
};
use crate::pieces;
use crate::pieces::{compose_message, Piece};
use crate::text;
use crate::text::{same, starts_with};

verus! {

broadcast use {crate::json::group_trees, crate::text::views_push};

/// The default renderer.
#[derive(Debug, Clone, Copy)]
pub struct DefaultRenderer;

// ---------------------------------------------------------------------------
// Sessions and workspaces
// ---------------------------------------------------------------------------

/// The message of a session event.
pub open spec fn session_text(kind: Seq<char>, node: Node, format: MessageFormat) -> Seq<char> {
    let subject = labels::session_subject(node);
    let status = labels::session_status(kind, node);
    let prefix = labels::mention_prefix(node);
    match format {
        MessageFormat::Compact => prefix + subject + " "@ + status + labels::session_detail(node),
        MessageFormat::Alert => "🚨 "@ + prefix + subject + " "@ + status + labels::session_detail(
            node,
        ),
        MessageFormat::Inline => prefix + "["@ + subject + "] "@ + status + labels::session_inline(
            node,
        ),
        MessageFormat::Raw => codec::json_pretty(node),
    }
}

fn render_session_event(kind: &str, payload: &Json, format: MessageFormat) -> (r: String)
    ensures
        r@ == session_text(kind@, payload@, format),
{
    let subject = session_subject_text(payload);
    let status = session_status_label(kind, payload);
    let prefix = agent_optional_mention_prefix(payload);
    match format {
        MessageFormat::Compact => {
            let detail = session_detail_suffix(payload);
            cat5(prefix.as_str(), subject.as_str(), " ", status.as_str(), detail.as_str())
        },
        MessageFormat::Alert => {
            let detail = session_detail_suffix(payload);
            crate::compose::cat6(
                "🚨 ",
                prefix.as_str(),
                subject.as_str(),
                " ",
                status.as_str(),
                detail.as_str(),
            )
        },
        MessageFormat::Inline => {
            let inline = session_inline_suffix(payload);
            crate::compose::cat6(
                prefix.as_str(),
                "[",
                subject.as_str(),
                "] ",
                status.as_str(),
                inline.as_str(),
            )
        },
        MessageFormat::Raw => to_pretty_text(payload),
    }
}

/// The session that a workspace event speaks of.
pub open spec fn workspace_session(node: Node) -> Seq<char> {
    labels::or_text(
        labels::labelled(
            " · session="@,
            text::or_else(json::field(node, "session_name"@), json::field(node, "session_id"@)),
        ),
        ""@,
    )
}

/// The message of a workspace event.
pub open spec fn workspace_text(kind: Seq<char>, node: Node, format: MessageFormat) -> Result<
    Seq<char>,
    Seq<char>,
> {
    let workspace = labels::or_text(
        text::or_else(json::field(node, "workspace_name"@), json::field(node, "workspace_root"@)),
        "workspace"@,
    );
    let tool = labels::or_text(
        text::or_else(json::field(node, "tool"@), json::field(node, "state_family"@)),
        "workspace"@,
    );
    let summary = labels::or_text(json::field(node, "summary"@), kind);
    let session = workspace_session(node);
    match json::required(node, "state_file"@) {
        Err(e) => Err(e),
        Ok(state_file) => Ok(
            match format {
                MessageFormat::Compact => tool + ":"@ + workspace + " · "@ + state_file + " · "@
                    + summary + session,
                MessageFormat::Alert => "🚨 "@ + tool + ":"@ + workspace + " · "@ + state_file
                    + " · "@ + summary + session,
                MessageFormat::Inline => "["@ + tool + ":"@ + workspace + "] "@ + state_file
                    + session,
                MessageFormat::Raw => codec::json_pretty(node),
            },
        ),
    }
}

fn render_workspace_event(kind: &str, payload: &Json, format: MessageFormat) -> (r: Result<
    String,
    String,
>)
    ensures
        text::text_result(r) == workspace_text(kind@, payload@, format),
{
    let workspace = text_or(
        first_of(payload.field("workspace_name"), payload.field("workspace_root")),
        "workspace",
    );
    let state_file = match payload.required("state_file") {
        Ok(s) => s,
        Err(e) => return Err(e),
    };
    let tool = text_or(
        first_of(payload.field("tool"), payload.field("state_family")),
        "workspace",
    );
    let summary = text_or(payload.field("summary"), kind);
    let session = text_or(
        label(
            " · session=",
            first_of(payload.field("session_name"), payload.field("session_id")),
        ),
        "",
    );
    Ok(
        match format {
            MessageFormat::Compact => cat8(
                tool.as_str(),
                ":",
                workspace.as_str(),
                " · ",
                state_file.as_str(),
                " · ",
                summary.as_str(),
                session.as_str(),
            ),
            MessageFormat::Alert => crate::compose::cat9(
                "🚨 ",
                tool.as_str(),
                ":",
                workspace.as_str(),
                " · ",
                state_file.as_str(),
                " · ",
                summary.as_str(),
                session.as_str(),
            ),
            MessageFormat::Inline => cat7(
                "[",
                tool.as_str(),
                ":",
                workspace.as_str(),
                "] ",
                state_file.as_str(),
                session.as_str(),
            ),
            MessageFormat::Raw => to_pretty_text(payload),
        },
    )
}

// ---------------------------------------------------------------------------
// Continuous integration
// ---------------------------------------------------------------------------

/// The four kinds of CI events.
pub open spec fn is_ci_kind(kind: Seq<char>) -> bool {
    kind == "github.ci-started"@ || kind == "github.ci-failed"@ || kind == "github.ci-passed"@
        || kind == "github.ci-cancelled"@
}

/// Tells whether a kind is one of the four kinds of CI events.
pub fn is_ci(kind: &str) -> (r: bool)
    ensures
        r == is_ci_kind(kind@),
{
    same(kind, "github.ci-started") || same(kind, "github.ci-failed") || same(
        kind,
        "github.ci-passed",
    ) || same(kind, "github.ci-cancelled")
}

/// What a CI job did.
pub open spec fn ci_action(kind: Seq<char>) -> Seq<char> {
    if kind == "github.ci-started"@ {
        "started"@
    } else if kind == "github.ci-failed"@ {
        "failed"@
    } else if kind == "github.ci-passed"@ {
        "passed"@
    } else if kind == "github.ci-cancelled"@ {
        "cancelled"@
    } else {
        "updated"@
    }
}

/// The repository that CI ran for, with the number of the pull request.
pub open spec fn ci_target(node: Node) -> Result<Seq<char>, Seq<char>> {
    match json::required(node, "repo"@) {
        Err(e) => Err(e),
        Ok(repo) => match json::count(node, "number"@) {
            Some(n) => Ok(repo + "#"@ + compose::decimal(n as nat)),
            None => Ok(repo),
        },
    }
}

/// A list of parts, with the link behind them where it is wanted.
pub open spec fn linked(node: Node, parts: Seq<Seq<char>>, include_url: bool) -> Result<
    Seq<char>,
    Seq<char>,
> {
    if include_url {
        match json::required(node, "url"@) {
            Err(e) => Err(e),
            Ok(url) => Ok(compose::joined(parts.push(url), " · "@)),
        }
    } else {
        Ok(compose::joined(parts, " · "@))
    }
}

/// The names of the workflows of some jobs.
pub open spec fn workflows_in(jobs: Seq<Node>) -> Seq<Seq<char>>
    decreases jobs.len(),
{
    if jobs.len() == 0 {
        Seq::empty()
    } else {
        labels::pushed(
            workflows_in(jobs.drop_last()),
            json::raw_field(jobs.last(), "workflow"@),
        )
    }
}

/// A job that did not end well: its workflow and how it ended.
pub open spec fn unsuccessful(job: Node) -> Option<Seq<char>> {
    match json::raw_field(job, "workflow"@) {
        None => None,
        Some(workflow) => match text::or_else(
            json::raw_field(job, "conclusion"@),
            json::raw_field(job, "status"@),
        ) {
            None => None,
            Some(end) => if end == "success"@ || end == "neutral"@ || end == "skipped"@ {
                None
            } else {
                Some(workflow + ":"@ + end)
            },
        },
    }
}

/// The jobs that did not end well.
pub open spec fn unsuccessful_in(jobs: Seq<Node>) -> Seq<Seq<char>>
    decreases jobs.len(),
{
    if jobs.len() == 0 {
        Seq::empty()
    } else {
        labels::pushed(unsuccessful_in(jobs.drop_last()), unsuccessful(jobs.last()))
    }
}

/// A number, or another where it is missing.
pub open spec fn or_count(o: Option<u64>, otherwise: u64) -> u64 {
    match o {
        Some(n) => n,
        None => otherwise,
    }
}

/// A number with a word behind, where it is not zero.
pub open spec fn positive(n: u64, word: Seq<char>) -> Option<Seq<char>> {
    if n > 0 {
        Some(compose::decimal(n as nat) + word)
    } else {
        None
    }
}

/// A text that is not empty.
pub open spec fn not_empty(s: Seq<char>) -> Option<Seq<char>> {
    if s.len() == 0 {
        None
    } else {
        Some(s)
    }
}

/// The head of a message about a batch of CI jobs.
pub open spec fn batch_head(node: Node, kind: Seq<char>, target: Seq<char>, jobs: nat) -> Seq<char> {
    if kind == "github.ci-passed"@ {
        "✅ CI passed · "@ + target + " · "@ + compose::decimal(
            or_count(json::count(node, "passed_count"@), 0) as nat,
        ) + "/"@ + compose::decimal(
            or_count(json::count(node, "total_count"@), jobs as u64) as nat,
        ) + " passed"@
    } else if kind == "github.ci-failed"@ {
        "❌ CI failed · "@ + target
    } else if kind == "github.ci-cancelled"@ {
        "🟡 CI cancelled · "@ + target
    } else {
        "⏳ CI running · "@ + target
    }
}

/// The parts of a message about a batch of CI jobs, the link left out.
pub open spec fn batch_parts(node: Node, kind: Seq<char>, target: Seq<char>, jobs: Seq<Node>) -> Seq<
    Seq<char>,
> {
    let parts = Seq::<Seq<char>>::empty().push(batch_head(node, kind, target, jobs.len()));
    let parts = labels::pushed(parts, not_empty(compose::joined(workflows_in(jobs), ", "@)));
    if kind == "github.ci-failed"@ {
        if unsuccessful_in(jobs).len() == 0 {
            parts
        } else {
            parts.push(compose::joined(unsuccessful_in(jobs), ", "@))
        }
    } else {
        let parts = labels::pushed(
            parts,
            positive(or_count(json::count(node, "skipped_count"@), 0), " skipped"@),
        );
        let parts = labels::pushed(
            parts,
            positive(or_count(json::count(node, "cancelled_count"@), 0), " cancelled"@),
        );
        labels::pushed(
            parts,
            positive(or_count(json::count(node, "failed_count"@), 0), " failed"@),
        )
    }
}

/// The message of a batch of CI jobs.
pub open spec fn batch_text(node: Node, kind: Seq<char>, include_url: bool) -> Result<
    Seq<char>,
    Seq<char>,
> {
    match json::items(node, "jobs"@) {
        None => Err("missing batched GitHub CI jobs"@),
        Some(jobs) => match ci_target(node) {
            Err(e) => Err(e),
            Ok(target) => linked(node, batch_parts(node, kind, target, jobs), include_url),
        },
    }
}

/// The message of a single CI job.
pub open spec fn job_text(node: Node, kind: Seq<char>, include_url: bool) -> Result<
    Seq<char>,
    Seq<char>,
> {
    match json::required(node, "workflow"@) {
        Err(e) => Err(e),
        Ok(workflow) => match text::or_else(
            json::field(node, "conclusion"@),
            json::field(node, "status"@),
        ) {
            None => Err("missing GitHub CI state"@),
            Some(state) => match json::required(node, "sha"@) {
                Err(e) => Err(e),
                Ok(sha) => match ci_target(node) {
                    Err(e) => Err(e),
                    Ok(target) => linked(
                        node,
                        Seq::<Seq<char>>::empty().push("CI "@ + ci_action(kind)).push(target).push(
                            workflow,
                        ).push(state).push(events::short(sha)),
                        include_url,
                    ),
                },
            },
        },
    }
}

/// The message of a CI event.
pub open spec fn ci_text(node: Node, kind: Seq<char>, include_url: bool) -> Result<
    Seq<char>,
    Seq<char>,
> {
    if json::flag(node, "batched"@) == Some(true) {
        batch_text(node, kind, include_url)
    } else {
        job_text(node, kind, include_url)
    }
}

fn github_ci_action(kind: &str) -> (r: &'static str)
    ensures
        r@ == ci_action(kind@),
{
    if same(kind, "github.ci-started") {
        "started"
    } else if same(kind, "github.ci-failed") {
        "failed"
    } else if same(kind, "github.ci-passed") {
        "passed"
    } else if same(kind, "github.ci-cancelled") {
        "cancelled"
    } else {
        "updated"
    }
}

fn github_ci_target(payload: &Json) -> (r: Result<String, String>)
    ensures
        text::text_result(r) == ci_target(payload@),
{
    match payload.required("repo") {
        Err(e) => Err(e),
        Ok(repo) => match payload.count("number") {
            Some(n) => Ok(cat3(repo.as_str(), "#", number(n).as_str())),
            None => Ok(repo),
        },
    }
}

fn with_link(payload: &Json, parts: Vec<String>, include_url: bool) -> (r: Result<String, String>)
    ensures
        text::text_result(r) == linked(payload@, text::views(parts@), include_url),
{
    let mut parts = parts;
    if include_url {
        match payload.required("url") {
            Err(e) => return Err(e),
            Ok(url) => parts.push(url),
        }
    }
    Ok(join(&parts, " · "))
}

fn workflow_names(jobs: &Vec<Json>) -> (r: Vec<String>)
    ensures
        text::views(r@) == workflows_in(json::nodes(jobs@)),
{
    let mut out: Vec<String> = Vec::new();
    let ghost all = json::nodes(jobs@);
    let mut i: usize = 0;
    assert(text::views(out@) =~= Seq::<Seq<char>>::empty());
    while i < jobs.len()
        invariant
            i <= jobs.len(),
            all == json::nodes(jobs@),
            text::views(out@) == workflows_in(all.take(i as int)),
        decreases jobs.len() - i,
    {
        assert(all.take(i + 1).drop_last() =~= all.take(i as int));
        let name = match jobs[i].raw_field("workflow") {
            Some(s) => Some(s.to_owned()),
            None => None,
        };
        push_part(&mut out, name);
        i = i + 1;
    }
    assert(all.take(i as int) =~= all);
    out
}

fn unsuccessful_job(job: &Json) -> (r: Option<String>)
    ensures
        text::opt_text(r) == unsuccessful(job@),
{
    let workflow = match job.raw_field("workflow") {
        Some(s) => s,
        None => return None,
    };
    let end = match job.raw_field("conclusion") {
        Some(s) => s,
        None => match job.raw_field("status") {
            Some(s) => s,
            None => return None,
        },
    };
    if same(end, "success") || same(end, "neutral") || same(end, "skipped") {
        None
    } else {
        Some(cat3(workflow, ":", end))
    }
}

fn unsuccessful_jobs(jobs: &Vec<Json>) -> (r: Vec<String>)
    ensures
        text::views(r@) == unsuccessful_in(json::nodes(jobs@)),
{
    let mut out: Vec<String> = Vec::new();
    let ghost all = json::nodes(jobs@);
    let mut i: usize = 0;
    assert(text::views(out@) =~= Seq::<Seq<char>>::empty());
    while i < jobs.len()
        invariant
            i <= jobs.len(),
            all == json::nodes(jobs@),
            text::views(out@) == unsuccessful_in(all.take(i as int)),
        decreases jobs.len() - i,
    {
        assert(all.take(i + 1).drop_last() =~= all.take(i as int));
        push_part(&mut out, unsuccessful_job(&jobs[i]));
        i = i + 1;
    }
    assert(all.take(i as int) =~= all);
    out
}

fn count_or(payload: &Json, key: &str, otherwise: u64) -> (r: u64)
    ensures
        r == or_count(json::count(payload@, key@), otherwise),
{
    match payload.count(key) {
        Some(n) => n,
        None => otherwise,
    }
}

fn positive_part(n: u64, word: &str) -> (r: Option<String>)
    ensures
        text::opt_text(r) == positive(n, word@),
{
    if n > 0 {
        Some(cat2(number(n).as_str(), word))
    } else {
        None
    }
}

fn batch_head_text(payload: &Json, kind: &str, target: &str, jobs: usize) -> (r: String)
    ensures
        r@ == batch_head(payload@, kind@, target@, jobs as nat),
{
    if same(kind, "github.ci-passed") {
        let passed = count_or(payload, "passed_count", 0);
        let total = count_or(payload, "total_count", jobs as u64);
        cat7(
            "✅ CI passed · ",
            target,
            " · ",
            number(passed).as_str(),
            "/",
            number(total).as_str(),
            " passed",
        )
    } else if same(kind, "github.ci-failed") {
        cat2("❌ CI failed · ", target)
    } else if same(kind, "github.ci-cancelled") {
        cat2("🟡 CI cancelled · ", target)
    } else {
        cat2("⏳ CI running · ", target)
    }
}

fn render_batched_github_ci(payload: &Json, kind: &str, include_url: bool) -> (r: Result<
    String,
    String,
>)
    ensures
        text::text_result(r) == batch_text(payload@, kind@, include_url),
{
    let jobs = match payload.items("jobs") {
        Some(jobs) => jobs,
        None => return Err("missing batched GitHub CI jobs".to_owned()),
    };
    let target = match github_ci_target(payload) {
        Ok(target) => target,
        Err(e) => return Err(e),
    };
    let mut parts: Vec<String> = Vec::new();
    assert(text::views(parts@) =~= Seq::<Seq<char>>::empty());
    parts.push(batch_head_text(payload, kind, target.as_str(), jobs.len()));
    let workflows = join(&workflow_names(jobs), ", ");
    if !workflows.as_str().is_empty() {
        parts.push(workflows);
    }
    if same(kind, "github.ci-failed") {
        let failed = unsuccessful_jobs(jobs);
        assert(text::views(failed@).len() == failed@.len());
        if failed.len() > 0 {
            parts.push(join(&failed, ", "));
        }
    } else {
        push_part(&mut parts, positive_part(count_or(payload, "skipped_count", 0), " skipped"));
        push_part(
            &mut parts,
            positive_part(count_or(payload, "cancelled_count", 0), " cancelled"),
        );
        push_part(&mut parts, positive_part(count_or(payload, "failed_count", 0), " failed"));
    }
    with_link(payload, parts, include_url)
}

fn render_github_ci(payload: &Json, kind: &str, include_url: bool) -> (r: Result<String, String>)
    ensures
        text::text_result(r) == ci_text(payload@, kind@, include_url),
{
    let batched = match payload.flag("batched") {
        Some(b) => b,
        None => false,
    };
    if batched {
        return render_batched_github_ci(payload, kind, include_url);
    }
    let workflow = match payload.required("workflow") {
        Ok(s) => s,
        Err(e) => return Err(e),
    };
    let state = match first_of(payload.field("conclusion"), payload.field("status")) {
        Some(s) => s,
        None => return Err("missing GitHub CI state".to_owned()),
    };
    let sha = match payload.required("sha") {
        Ok(s) => s,
        Err(e) => return Err(e),
    };
    let target = match github_ci_target(payload) {
        Ok(s) => s,
        Err(e) => return Err(e),
    };
    let mut parts: Vec<String> = Vec::new();
    assert(text::views(parts@) =~= Seq::<Seq<char>>::empty());
    parts.push(cat2("CI ", github_ci_action(kind)));
    parts.push(target);
    parts.push(workflow);
    parts.push(state);
    parts.push(short_sha(sha.as_str()));
    with_link(payload, parts, include_url)
}

// ---------------------------------------------------------------------------
// Lists of commits and of keyword hits
// ---------------------------------------------------------------------------

/// Each text of a list behind a dash.
pub open spec fn bulleted(lines: Seq<Seq<char>>) -> Seq<Seq<char>> {
    Seq::new(lines.len(), |i: int| "- "@ + lines[i])
}

/// The summaries of some commits.
pub open spec fn summaries_in(commits: Seq<Node>) -> Seq<Seq<char>>
    decreases commits.len(),
{
    if commits.len() == 0 {
        Seq::empty()
    } else {
        labels::pushed(
            summaries_in(commits.drop_last()),
            json::field(commits.last(), "summary"@),
        )
    }
}

/// The summaries of a push: all of them up to five, else the first three and
/// the last two with the number of the rest between them.
pub open spec fn summary_lines(summaries: Seq<Seq<char>>, count: u64) -> Seq<Seq<char>> {
    if summaries.len() > 5 {
        bulleted(summaries.subrange(0, 3)) + Seq::<Seq<char>>::empty().push(
            "... and "@ + compose::decimal(
                if count > 5 {
                    (count - 5) as nat
                } else {
                    0
                },
            ) + " more"@,
        ) + bulleted(summaries.subrange(summaries.len() - 2, summaries.len() as int))
    } else {
        bulleted(summaries.subrange(0, summaries.len() as int))
    }
}

/// The message of an event that lists several commits; none for fewer, or in
/// the raw format.
pub open spec fn commits_text(node: Node, format: MessageFormat) -> Result<
    Option<Seq<char>>,
    Seq<char>,
> {
    match json::items(node, "commits"@) {
        None => Ok(None),
        Some(commits) => if commits.len() <= 1 {
            Ok(None)
        } else {
            match labels::repo_label(node) {
                Err(e) => Err(e),
                Ok(repo) => match json::required(node, "branch"@) {
                    Err(e) => Err(e),
                    Ok(branch) => if format == MessageFormat::Raw {
                        Ok(None)
                    } else {
                        let summaries = summaries_in(commits);
                        let count = or_count(
                            json::count(node, "commit_count"@),
                            summaries.len() as u64,
                        );
                        let tag = if format == MessageFormat::Alert {
                            "🚨 git:"@
                        } else {
                            "git:"@
                        };
                        let head = tag + repo + "@"@ + branch + " pushed "@ + compose::decimal(
                            count as nat,
                        ) + " commits:"@;
                        Ok(
                            Some(
                                compose::joined(
                                    Seq::<Seq<char>>::empty().push(head) + summary_lines(
                                        summaries,
                                        count,
                                    ),
                                    "\n"@,
                                ),
                            ),
                        )
                    },
                },
            }
        },
    }
}

/// One keyword hit of a list.
pub open spec fn hit_text(hit: Node) -> Option<Seq<char>> {
    match (json::field(hit, "keyword"@), json::field(hit, "line"@)) {
        (Some(keyword), Some(line)) => Some("'"@ + keyword + "': "@ + line),
        _ => None,
    }
}

/// The keyword hits of a list.
pub open spec fn hits_in(hits: Seq<Node>) -> Seq<Seq<char>>
    decreases hits.len(),
{
    if hits.len() == 0 {
        Seq::empty()
    } else {
        labels::pushed(hits_in(hits.drop_last()), hit_text(hits.last()))
    }
}

/// The message of an event that lists several keyword hits; none for fewer, or
/// in the raw format.
pub open spec fn hits_text(node: Node, format: MessageFormat) -> Result<
    Option<Seq<char>>,
    Seq<char>,
> {
    match json::items(node, "hits"@) {
        None => Ok(None),
        Some(hits) => if hits.len() <= 1 {
            Ok(None)
        } else {
            match json::required(node, "session"@) {
                Err(e) => Err(e),
                Ok(session) => {
                    let lines = hits_in(hits);
                    let count = compose::decimal(
                        or_count(json::count(node, "hit_count"@), hits.len() as u64) as nat,
                    );
                    match format {
                        MessageFormat::Compact => Ok(
                            Some(
                                compose::joined(
                                    Seq::<Seq<char>>::empty().push(
                                        "tmux:"@ + session + " matched "@ + count
                                            + " keyword hits:"@,
                                    ) + bulleted(lines.subrange(0, lines.len() as int)),
                                    "\n"@,
                                ),
                            ),
                        ),
                        MessageFormat::Alert => Ok(
                            Some(
                                compose::joined(
                                    Seq::<Seq<char>>::empty().push(
                                        "🚨 tmux session "@ + session + " hit "@ + count
                                            + " keyword matches:"@,
                                    ) + bulleted(lines.subrange(0, lines.len() as int)),
                                    "\n"@,
                                ),
                            ),
                        ),
                        MessageFormat::Inline => Ok(
                            Some("[tmux:"@ + session + "] "@ + compose::joined(lines, " · "@)),
                        ),
                        MessageFormat::Raw => Ok(None),
                    }
                },
            }
        },
    }
}

/// An optional text or an error, in characters.
pub open spec fn opt_text_result(r: Result<Option<String>, String>) -> Result<
    Option<Seq<char>>,
    Seq<char>,
> {
    match r {
        Ok(o) => Ok(text::opt_text(o)),
        Err(e) => Err(e@),
    }
}

fn push_bullets(lines: &mut Vec<String>, from: &Vec<String>, start: usize, end: usize)
    requires
        start <= end <= from@.len(),
    ensures
        text::views(final(lines)@) == text::views(old(lines)@) + bulleted(
            text::views(from@).subrange(start as int, end as int),
        ),
{
    let ghost before = text::views(lines@);
    let ghost all = text::views(from@);
    let mut i: usize = start;
    assert(before + bulleted(all.subrange(start as int, start as int)) =~= before);
    while i < end
        invariant
            start <= i <= end <= from@.len(),
            all == text::views(from@),
            text::views(lines@) == before + bulleted(all.subrange(start as int, i as int)),
        decreases end - i,
    {
        let line = cat2("- ", from[i].as_str());
        let ghost done = text::views(lines@);
        lines.push(line);
        assert(text::views(lines@) =~= before + bulleted(all.subrange(start as int, i + 1))) by {
            assert(text::views(lines@) == done.push(line@));
            assert(line@ == "- "@ + all[i as int]);
        }
        i = i + 1;
    }
}

fn commit_summaries(commits: &Vec<Json>) -> (r: Vec<String>)
    ensures
        text::views(r@) == summaries_in(json::nodes(commits@)),
{
    let mut out: Vec<String> = Vec::new();
    let ghost all = json::nodes(commits@);
    let mut i: usize = 0;
    assert(text::views(out@) =~= Seq::<Seq<char>>::empty());
    while i < commits.len()
        invariant
            i <= commits.len(),
            all == json::nodes(commits@),
            text::views(out@) == summaries_in(all.take(i as int)),
        decreases commits.len() - i,
    {
        assert(all.take(i + 1).drop_last() =~= all.take(i as int));
        push_part(&mut out, commits[i].field("summary"));
        i = i + 1;
    }
    assert(all.take(i as int) =~= all);
    out
}

fn render_aggregated_git_commit(payload: &Json, format: MessageFormat) -> (r: Result<
    Option<String>,
    String,
>)
    ensures
        opt_text_result(r) == commits_text(payload@, format),
{
    let commits = match payload.items("commits") {
        Some(commits) => commits,
        None => return Ok(None),
    };
    if commits.len() <= 1 {
        return Ok(None);
    }
    let repo = match git_repo_label(payload) {
        Ok(s) => s,
        Err(e) => return Err(e),
    };
    let branch = match payload.required("branch") {
        Ok(s) => s,
        Err(e) => return Err(e),
    };
    let tag = match format {
        MessageFormat::Raw => return Ok(None),
        MessageFormat::Alert => "🚨 git:",
        _ => "git:",
    };
    let summaries = commit_summaries(commits);
    let ghost all = text::views(summaries@);
    assert(all.len() == summaries@.len());
    let n = summaries.len();
    let count: u64 = count_or(payload, "commit_count", n as u64);
    let head = cat7(
        tag,
        repo.as_str(),
        "@",
        branch.as_str(),
        " pushed ",
        number(count).as_str(),
        " commits:",
    );
    let ghost first = Seq::<Seq<char>>::empty().push(head@);
    let mut lines: Vec<String> = Vec::new();
    assert(text::views(lines@) =~= Seq::<Seq<char>>::empty());
    lines.push(head);
    assert(text::views(lines@) =~= first);
    if n > 5 {
        push_bullets(&mut lines, &summaries, 0, 3);
        let rest: u64 = if count > 5 {
            count - 5
        } else {
            0
        };
        let more = cat3("... and ", number(rest).as_str(), " more");
        let ghost middle = more@;
        lines.push(more);
        push_bullets(&mut lines, &summaries, n - 2, n);
        assert(text::views(lines@) =~= first + summary_lines(all, count)) by {
            assert(text::views(lines@) =~= (first + bulleted(all.subrange(0, 3))).push(middle)
                + bulleted(all.subrange(n - 2, n as int)));
        }
    } else {
        push_bullets(&mut lines, &summaries, 0, n);
    }
    Ok(Some(join(&lines, "\n")))
}

fn hit_summary(hit: &Json) -> (r: Option<String>)
    ensures
        text::opt_text(r) == hit_text(hit@),
{
    match (hit.field("keyword"), hit.field("line")) {
        (Some(keyword), Some(line)) => Some(cat4("'", keyword.as_str(), "': ", line.as_str())),
        _ => None,
    }
}

fn hit_summaries(hits: &Vec<Json>) -> (r: Vec<String>)
    ensures
        text::views(r@) == hits_in(json::nodes(hits@)),
{
    let mut out: Vec<String> = Vec::new();
    let ghost all = json::nodes(hits@);
    let mut i: usize = 0;
    assert(text::views(out@) =~= Seq::<Seq<char>>::empty());
    while i < hits.len()
        invariant
            i <= hits.len(),
            all == json::nodes(hits@),
            text::views(out@) == hits_in(all.take(i as int)),
        decreases hits.len() - i,
    {
        assert(all.take(i + 1).drop_last() =~= all.take(i as int));
        push_part(&mut out, hit_summary(&hits[i]));
        i = i + 1;
    }
    assert(all.take(i as int) =~= all);
    out
}

fn render_aggregated_tmux_keyword(payload: &Json, format: MessageFormat) -> (r: Result<
    Option<String>,
    String,
>)
    ensures
        opt_text_result(r) == hits_text(payload@, format),
{
    let hits = match payload.items("hits") {
        Some(hits) => hits,
        None => return Ok(None),
    };
    if hits.len() <= 1 {
        return Ok(None);
    }
    let session = match payload.required("session") {
        Ok(s) => s,
        Err(e) => return Err(e),
    };
    let count = number(count_or(payload, "hit_count", hits.len() as u64));
    let summaries = hit_summaries(hits);
    assert(text::views(summaries@).len() == summaries@.len());
    let head = match format {
        MessageFormat::Raw => return Ok(None),
        MessageFormat::Inline => {
            let all = join(&summaries, " · ");
            return Ok(Some(cat4("[tmux:", session.as_str(), "] ", all.as_str())));
        },
        MessageFormat::Compact => cat5(
            "tmux:",
            session.as_str(),
            " matched ",
            count.as_str(),
            " keyword hits:",
        ),
        MessageFormat::Alert => cat5(
            "🚨 tmux session ",
            session.as_str(),
            " hit ",
            count.as_str(),
            " keyword matches:",
        ),
    };
    let ghost first = Seq::<Seq<char>>::empty().push(head@);
    let mut lines: Vec<String> = Vec::new();
    assert(text::views(lines@) =~= Seq::<Seq<char>>::empty());
    lines.push(head);
    assert(text::views(lines@) =~= first);
    push_bullets(&mut lines, &summaries, 0, summaries.len());
    Ok(Some(join(&lines, "\n")))
}

// ---------------------------------------------------------------------------
// Every kind of event
// ---------------------------------------------------------------------------

/// The pieces of the message for a kind of event that has a message of its own.
pub open spec fn message_pieces(kind: Seq<char>, format: MessageFormat) -> Option<Seq<Piece>> {
    if kind == "custom"@ {
        Some(
            match format {
                MessageFormat::Alert => seq![
                    Piece::Word("🚨 "),
                    Piece::Text("message"),
                ],
                _ => seq![
                    Piece::Text("message"),
                ],
            },
        )
    } else if kind == "agent.started"@ || kind == "agent.blocked"@ || kind == "agent.finished"@ || kind == "agent.failed"@ {
        Some(
            match format {
                MessageFormat::Compact => seq![
                    Piece::Mention,
                    Piece::Word("agent "),
                    Piece::Text("agent_name"),
                    Piece::AgentDetail,
                ],
                MessageFormat::Alert => seq![
                    Piece::Word("🚨 "),
                    Piece::Mention,
                    Piece::Word("agent "),
                    Piece::Text("agent_name"),
                    Piece::AgentDetail,
                ],
                _ => seq![
                    Piece::Mention,
                    Piece::Word("[agent:"),
                    Piece::Text("agent_name"),
                    Piece::Word("] "),
                    Piece::Text("status"),
                    Piece::AgentInline,
                ],
            },
        )
    } else if kind == "github.issue-opened"@ {
        Some(
            match format {
                MessageFormat::Compact => seq![
                    Piece::Text("repo"),
                    Piece::Word("#"),
                    Piece::Number("number"),
                    Piece::Word(" opened: "),
                    Piece::Text("title"),
                ],
                MessageFormat::Alert => seq![
                    Piece::Word("🚨 GitHub issue opened in "),
                    Piece::Text("repo"),
                    Piece::Word(": #"),
                    Piece::Number("number"),
                    Piece::Word(" "),
                    Piece::Text("title"),
                ],
                _ => seq![
                    Piece::Word("[GitHub] "),
                    Piece::Text("repo"),
                    Piece::Word("#"),
                    Piece::Number("number"),
                    Piece::Word(" "),
                    Piece::Text("title"),
                ],
            },
        )
    } else if kind == "github.issue-commented"@ {
        Some(
            match format {
                MessageFormat::Compact => seq![
                    Piece::Text("repo"),
                    Piece::Word("#"),
                    Piece::Number("number"),
                    Piece::Word(" commented ("),
                    Piece::Number("comments"),
                    Piece::Word(" comments): "),
                    Piece::Text("title"),
                ],
                MessageFormat::Alert => seq![
                    Piece::Word("🚨 GitHub issue commented in "),
                    Piece::Text("repo"),
                    Piece::Word(": #"),
                    Piece::Number("number"),
                    Piece::Word(" "),
                    Piece::Text("title"),
                ],
                _ => seq![
                    Piece::Word("[GitHub comment] "),
                    Piece::Text("repo"),
                    Piece::Word("#"),
                    Piece::Number("number"),
                    Piece::Word(" "),
                    Piece::Text("title"),
                ],
            },
        )
    } else if kind == "github.issue-closed"@ {
        Some(
            match format {
                MessageFormat::Compact => seq![
                    Piece::Text("repo"),
                    Piece::Word("#"),
                    Piece::Number("number"),
                    Piece::Word(" closed: "),
                    Piece::Text("title"),
                ],
                MessageFormat::Alert => seq![
                    Piece::Word("🚨 GitHub issue closed in "),
                    Piece::Text("repo"),
                    Piece::Word(": #"),
                    Piece::Number("number"),
                    Piece::Word(" "),
                    Piece::Text("title"),
                ],
                _ => seq![
                    Piece::Word("[GitHub closed] "),
                    Piece::Text("repo"),
                    Piece::Word("#"),
                    Piece::Number("number"),
                    Piece::Word(" "),
                    Piece::Text("title"),
                ],
            },
        )
    } else if kind == "git.commit"@ {
        Some(
            match format {
                MessageFormat::Compact => seq![
                    Piece::Word("git:"),
                    Piece::Repository,
                    Piece::Word("@"),
                    Piece::Text("branch"),
                    Piece::Word(" "),
                    Piece::Text("short_commit"),
                    Piece::Word(" "),
                    Piece::Text("summary"),
                ],
                MessageFormat::Alert => seq![
                    Piece::Word("🚨 new commit in "),
                    Piece::Repository,
                    Piece::Word("@"),
                    Piece::Text("branch"),
                    Piece::Word(": "),
                    Piece::Text("short_commit"),
                    Piece::Word(" "),
                    Piece::Text("summary"),
                ],
                _ => seq![
                    Piece::Word("[git] "),
                    Piece::Repository,
                    Piece::Word(" "),
                    Piece::Text("summary"),
                ],
            },
        )
    } else if kind == "git.branch-changed"@ {
        Some(
            match format {
                MessageFormat::Compact => seq![
                    Piece::Word("git:"),
                    Piece::Repository,
                    Piece::Word(" branch changed "),
                    Piece::Text("old_branch"),
                    Piece::Word(" -> "),
                    Piece::Text("new_branch"),
                ],
                MessageFormat::Alert => seq![
                    Piece::Word("🚨 git repo "),
                    Piece::Repository,
                    Piece::Word(" branch changed "),
                    Piece::Text("old_branch"),
                    Piece::Word(" -> "),
                    Piece::Text("new_branch"),
                ],
                _ => seq![
                    Piece::Word("[git:"),
                    Piece::Repository,
                    Piece::Word("] "),
                    Piece::Text("old_branch"),
                    Piece::Word(" -> "),
                    Piece::Text("new_branch"),
                ],
            },
        )
    } else if kind == "github.pr-status-changed"@ {
        Some(
            match format {
                MessageFormat::Compact => seq![
                    Piece::Word("PR "),
                    Piece::Text("repo"),
                    Piece::Word("#"),
                    Piece::Number("number"),
                    Piece::Word(" "),
                    Piece::Text("old_status"),
                    Piece::Word(" -> "),
                    Piece::Text("new_status"),
                    Piece::Word(": "),
                    Piece::Text("title"),
                ],
                MessageFormat::Alert => seq![
                    Piece::Word("🚨 PR status changed in "),
                    Piece::Text("repo"),
                    Piece::Word(": #"),
                    Piece::Number("number"),
                    Piece::Word(" "),
                    Piece::Text("old_status"),
                    Piece::Word(" -> "),
                    Piece::Text("new_status"),
                    Piece::Word(" ("),
                    Piece::Text("title"),
                    Piece::Word(")"),
                ],
                _ => seq![
                    Piece::Word("[PR "),
                    Piece::Text("repo"),
                    Piece::Word("#"),
                    Piece::Number("number"),
                    Piece::Word("] "),
                    Piece::Text("old_status"),
                    Piece::Word(" -> "),
                    Piece::Text("new_status"),
                ],
            },
        )
    } else if kind == "tmux.keyword"@ {
        Some(
            match format {
                MessageFormat::Compact => seq![
                    Piece::Word("tmux:"),
                    Piece::Text("session"),
                    Piece::Word(" matched '"),
                    Piece::Text("keyword"),
                    Piece::Word("' => "),
                    Piece::Text("line"),
                ],
                MessageFormat::Alert => seq![
                    Piece::Word("🚨 tmux session "),
                    Piece::Text("session"),
                    Piece::Word(" hit keyword '"),
                    Piece::Text("keyword"),
                    Piece::Word("': "),
                    Piece::Text("line"),
                ],
                _ => seq![
                    Piece::Word("[tmux:"),
                    Piece::Text("session"),
                    Piece::Word("] "),
                    Piece::Text("line"),
                ],
            },
        )
    } else if kind == "tmux.stale"@ {
        Some(
            match format {
                MessageFormat::Compact => seq![
                    Piece::Word("tmux:"),
                    Piece::Text("session"),
                    Piece::Word(" pane "),
                    Piece::Text("pane"),
                    Piece::Word(" stale for "),
                    Piece::Number("minutes"),
                    Piece::Word("m (last: "),
                    Piece::Text("last_line"),
                    Piece::Word(")"),
                ],
                MessageFormat::Alert => seq![
                    Piece::Word("🚨 tmux session "),
                    Piece::Text("session"),
                    Piece::Word(" pane "),
                    Piece::Text("pane"),
                    Piece::Word(" stale for "),
                    Piece::Number("minutes"),
                    Piece::Word("m (last: "),
                    Piece::Text("last_line"),
                    Piece::Word(")"),
                ],
                _ => seq![
                    Piece::Word("[tmux stale:"),
                    Piece::Text("session"),
                    Piece::Word(" "),
                    Piece::Text("pane"),
                    Piece::Word("] "),
                    Piece::Number("minutes"),
                    Piece::Word("m"),
                ],
            },
        )
    } else {
        None
    }
}

/// The message of an event that is none of a session or a workspace and lists
/// nothing.
pub open spec fn simple_text(kind: Seq<char>, node: Node, format: MessageFormat) -> Result<
    Seq<char>,
    Seq<char>,
> {
    if format == MessageFormat::Raw {
        Ok(codec::json_pretty(node))
    } else if is_ci_kind(kind) {
        match ci_text(node, kind, format != MessageFormat::Inline) {
            Err(e) => Err(e),
            Ok(s) => if format == MessageFormat::Alert {
                Ok("🚨 "@ + s)
            } else {
                Ok(s)
            },
        }
    } else {
        match message_pieces(kind, format) {
            Some(pieces) => pieces::message(node, pieces),
            None => Ok(codec::json_text(node)),
        }
    }
}

/// The list that an event carries, as a message, where it carries one.
pub open spec fn listed_text(kind: Seq<char>, node: Node, format: MessageFormat) -> Result<
    Option<Seq<char>>,
    Seq<char>,
> {
    if kind == "git.commit"@ {
        commits_text(node, format)
    } else if kind == "tmux.keyword"@ {
        hits_text(node, format)
    } else {
        Ok(None)
    }
}

/// The message of an event.
pub open spec fn rendered(event: EventView, format: MessageFormat) -> Result<Seq<char>, Seq<char>> {
    let kind = events::canonical_kind(event.kind);
    let node = event.payload;
    if text::begins_with(kind, "session."@) {
        Ok(session_text(kind, node, format))
    } else if text::begins_with(kind, "workspace."@) {
        workspace_text(kind, node, format)
    } else {
        match listed_text(kind, node, format) {
            Err(e) => Err(e),
            Ok(Some(s)) => Ok(s),
            Ok(None) => simple_text(kind, node, format),
        }
    }
}

fn pieces_for(kind: &str, format: MessageFormat) -> (r: Option<Vec<Piece>>)
    ensures
        default_text::opt_pieces(r) == message_pieces(kind@, format),
{
    if same(kind, "custom") {
        Some(
            match format {
                MessageFormat::Alert => vec![
                    Piece::Word("🚨 "),
                    Piece::Text("message"),
                ],
                _ => vec![
                    Piece::Text("message"),
                ],
            },
        )
    } else if same(kind, "agent.started") || same(kind, "agent.blocked") || same(kind, "agent.finished") || same(kind, "agent.failed") {
        Some(
            match format {
                MessageFormat::Compact => vec![
                    Piece::Mention,
                    Piece::Word("agent "),
                    Piece::Text("agent_name"),
                    Piece::AgentDetail,
                ],
                MessageFormat::Alert => vec![
                    Piece::Word("🚨 "),
                    Piece::Mention,
                    Piece::Word("agent "),
                    Piece::Text("agent_name"),
                    Piece::AgentDetail,
                ],
                _ => vec![
                    Piece::Mention,
                    Piece::Word("[agent:"),
                    Piece::Text("agent_name"),
                    Piece::Word("] "),
                    Piece::Text("status"),
                    Piece::AgentInline,
                ],
            },
        )
    } else if same(kind, "github.issue-opened") {
        Some(
            match format {
                MessageFormat::Compact => vec![
                    Piece::Text("repo"),
                    Piece::Word("#"),
                    Piece::Number("number"),
                    Piece::Word(" opened: "),
                    Piece::Text("title"),
                ],
                MessageFormat::Alert => vec![
                    Piece::Word("🚨 GitHub issue opened in "),
                    Piece::Text("repo"),
                    Piece::Word(": #"),
                    Piece::Number("number"),
                    Piece::Word(" "),
                    Piece::Text("title"),
                ],
                _ => vec![
                    Piece::Word("[GitHub] "),
                    Piece::Text("repo"),
                    Piece::Word("#"),
                    Piece::Number("number"),
                    Piece::Word(" "),
                    Piece::Text("title"),
                ],
            },
        )
    } else if same(kind, "github.issue-commented") {
        Some(
            match format {
                MessageFormat::Compact => vec![
                    Piece::Text("repo"),
                    Piece::Word("#"),
                    Piece::Number("number"),
                    Piece::Word(" commented ("),
                    Piece::Number("comments"),
                    Piece::Word(" comments): "),
                    Piece::Text("title"),
                ],
                MessageFormat::Alert => vec![
                    Piece::Word("🚨 GitHub issue commented in "),
                    Piece::Text("repo"),
                    Piece::Word(": #"),
                    Piece::Number("number"),
                    Piece::Word(" "),
                    Piece::Text("title"),
                ],
                _ => vec![
                    Piece::Word("[GitHub comment] "),
                    Piece::Text("repo"),
                    Piece::Word("#"),
                    Piece::Number("number"),
                    Piece::Word(" "),
                    Piece::Text("title"),
                ],
            },
        )
    } else if same(kind, "github.issue-closed") {
        Some(
            match format {
                MessageFormat::Compact => vec![
                    Piece::Text("repo"),
                    Piece::Word("#"),
                    Piece::Number("number"),
                    Piece::Word(" closed: "),
                    Piece::Text("title"),
                ],
                MessageFormat::Alert => vec![
                    Piece::Word("🚨 GitHub issue closed in "),
                    Piece::Text("repo"),
                    Piece::Word(": #"),
                    Piece::Number("number"),
                    Piece::Word(" "),
                    Piece::Text("title"),
                ],
                _ => vec![
                    Piece::Word("[GitHub closed] "),
                    Piece::Text("repo"),
                    Piece::Word("#"),
                    Piece::Number("number"),
                    Piece::Word(" "),
                    Piece::Text("title"),
                ],
            },
        )
    } else if same(kind, "git.commit") {
        Some(
            match format {
                MessageFormat::Compact => vec![
                    Piece::Word("git:"),
                    Piece::Repository,
                    Piece::Word("@"),
                    Piece::Text("branch"),
                    Piece::Word(" "),
                    Piece::Text("short_commit"),
                    Piece::Word(" "),
                    Piece::Text("summary"),
                ],
                MessageFormat::Alert => vec![
                    Piece::Word("🚨 new commit in "),
                    Piece::Repository,
                    Piece::Word("@"),
                    Piece::Text("branch"),
                    Piece::Word(": "),
                    Piece::Text("short_commit"),
                    Piece::Word(" "),
                    Piece::Text("summary"),
                ],
                _ => vec![
                    Piece::Word("[git] "),
                    Piece::Repository,
                    Piece::Word(" "),
                    Piece::Text("summary"),
                ],
            },
        )
    } else if same(kind, "git.branch-changed") {
        Some(
            match format {
                MessageFormat::Compact => vec![
                    Piece::Word("git:"),
                    Piece::Repository,
                    Piece::Word(" branch changed "),
                    Piece::Text("old_branch"),
                    Piece::Word(" -> "),
                    Piece::Text("new_branch"),
                ],
                MessageFormat::Alert => vec![
                    Piece::Word("🚨 git repo "),
                    Piece::Repository,
                    Piece::Word(" branch changed "),
                    Piece::Text("old_branch"),
                    Piece::Word(" -> "),
                    Piece::Text("new_branch"),
                ],
                _ => vec![
                    Piece::Word("[git:"),
                    Piece::Repository,
                    Piece::Word("] "),
                    Piece::Text("old_branch"),
                    Piece::Word(" -> "),
                    Piece::Text("new_branch"),
                ],
            },
        )
    } else if same(kind, "github.pr-status-changed") {
        Some(
            match format {
                MessageFormat::Compact => vec![
                    Piece::Word("PR "),
                    Piece::Text("repo"),
                    Piece::Word("#"),
                    Piece::Number("number"),
                    Piece::Word(" "),
                    Piece::Text("old_status"),
                    Piece::Word(" -> "),
                    Piece::Text("new_status"),
                    Piece::Word(": "),
                    Piece::Text("title"),
                ],
                MessageFormat::Alert => vec![
                    Piece::Word("🚨 PR status changed in "),
                    Piece::Text("repo"),
                    Piece::Word(": #"),
                    Piece::Number("number"),
                    Piece::Word(" "),
                    Piece::Text("old_status"),
                    Piece::Word(" -> "),
                    Piece::Text("new_status"),
                    Piece::Word(" ("),
                    Piece::Text("title"),
                    Piece::Word(")"),
                ],
                _ => vec![
                    Piece::Word("[PR "),
                    Piece::Text("repo"),
                    Piece::Word("#"),
                    Piece::Number("number"),
                    Piece::Word("] "),
                    Piece::Text("old_status"),
                    Piece::Word(" -> "),
                    Piece::Text("new_status"),
                ],
            },
        )
    } else if same(kind, "tmux.keyword") {
        Some(
            match format {
                MessageFormat::Compact => vec![
                    Piece::Word("tmux:"),
                    Piece::Text("session"),
                    Piece::Word(" matched '"),
                    Piece::Text("keyword"),
                    Piece::Word("' => "),
                    Piece::Text("line"),
                ],
                MessageFormat::Alert => vec![
                    Piece::Word("🚨 tmux session "),
                    Piece::Text("session"),
                    Piece::Word(" hit keyword '"),
                    Piece::Text("keyword"),
                    Piece::Word("': "),
                    Piece::Text("line"),
                ],
                _ => vec![
                    Piece::Word("[tmux:"),
                    Piece::Text("session"),
                    Piece::Word("] "),
                    Piece::Text("line"),
                ],
            },
        )
    } else if same(kind, "tmux.stale") {
        Some(
            match format {
                MessageFormat::Compact => vec![
                    Piece::Word("tmux:"),
                    Piece::Text("session"),
                    Piece::Word(" pane "),
                    Piece::Text("pane"),
                    Piece::Word(" stale for "),
                    Piece::Number("minutes"),
                    Piece::Word("m (last: "),
                    Piece::Text("last_line"),
                    Piece::Word(")"),
                ],
                MessageFormat::Alert => vec![
                    Piece::Word("🚨 tmux session "),
                    Piece::Text("session"),
                    Piece::Word(" pane "),
                    Piece::Text("pane"),
                    Piece::Word(" stale for "),
                    Piece::Number("minutes"),
                    Piece::Word("m (last: "),
                    Piece::Text("last_line"),
                    Piece::Word(")"),
                ],
                _ => vec![
                    Piece::Word("[tmux stale:"),
                    Piece::Text("session"),
                    Piece::Word(" "),
                    Piece::Text("pane"),
                    Piece::Word("] "),
                    Piece::Number("minutes"),
                    Piece::Word("m"),
                ],
            },
        )
    } else {
        None
    }
}

fn render_simple(kind: &str, payload: &Json, format: MessageFormat) -> (r: Result<String, String>)
    ensures
        text::text_result(r) == simple_text(kind@, payload@, format),
{
    match format {
        MessageFormat::Raw => return Ok(to_pretty_text(payload)),
        _ => {},
    }
    if is_ci(kind) {
        let include_url = match format {
            MessageFormat::Inline => false,
            _ => true,
        };
        match render_github_ci(payload, kind, include_url) {
            Err(e) => Err(e),
            Ok(s) => match format {
                MessageFormat::Alert => Ok(cat2("🚨 ", s.as_str())),
                _ => Ok(s),
            },
        }
    } else {
        match pieces_for(kind, format) {
            Some(pieces) => compose_message(payload, &pieces),
            None => Ok(to_text(payload)),
        }
    }
}

impl DefaultRenderer {
    /// The message of an event in a format.
    pub fn render(&self, event: &IncomingEvent, format: &MessageFormat) -> (r: Result<
        String,
        String,
    >)
        ensures
            text::text_result(r) == rendered(event@, *format),
    {
        let kind = event.canonical_kind();
        let payload = &event.payload;
        if starts_with(kind, "session.") {
            return Ok(render_session_event(kind, payload, *format));
        }
        if starts_with(kind, "workspace.") {
            return render_workspace_event(kind, payload, *format);
        }
        let listed = if same(kind, "git.commit") {
            render_aggregated_git_commit(payload, *format)
        } else if same(kind, "tmux.keyword") {
            render_aggregated_tmux_keyword(payload, *format)
        } else {
            Ok(None)
        };
        match listed {
            Err(e) => Err(e),
            Ok(Some(s)) => Ok(s),
            Ok(None) => render_simple(kind, payload, *format),
        }
    }
}

/// In the raw format an event that lists nothing is shown by its whole payload,
/// whatever its kind.
pub proof fn law_raw_shows_payload(event: EventView)
    requires
        !text::begins_with(events::canonical_kind(event.kind), "workspace."@),
        json::items(event.payload, "commits"@) is None,
        json::items(event.payload, "hits"@) is None,
    ensures
        rendered(event, MessageFormat::Raw) == Ok::<Seq<char>, Seq<char>>(
            codec::json_pretty(event.payload),
        ),
{
}

} // verus!
