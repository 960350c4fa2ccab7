//! What the events of each kind say.
use vstd::prelude::*;
use vstd::string::*;

use crate::events;
use crate::events::RoutingView;
use crate::json;
use crate::json::Node;
use crate::json_laws;
use crate::text;

verus! {

broadcast use {json_laws::group_members, json_laws::group_optional_members};

/// A text of a payload.
pub open spec fn says(p: Node, key: Seq<char>, value: Seq<char>) -> bool {
    json::member(p, key) == Some(Node::Text(value))
}

/// A text of a payload, where there is one; otherwise what another payload has.
pub open spec fn says_or(p: Node, key: Seq<char>, value: Option<Seq<char>>, other: Node) -> bool {
    match value {
        Some(s) => says(p, key, s),
        None => json::member(p, key) == json::member(other, key),
    }
}

/// A short commit is its first seven characters.
pub proof fn law_commit_is_shortened(commit: Seq<char>)
    ensures
        commit.len() > 7 ==> events::short(commit) == commit.take(7),
        commit.len() <= 7 ==> events::short(commit) == commit,
{
}

/// The event of a commit says where it was made, which it is, in full and shortened, and what
/// it does; and so does each entry of a list of commits.
pub proof fn law_commit_is_said(
    repo: Seq<char>,
    branch: Seq<char>,
    commit: Seq<char>,
    summary: Seq<char>,
    commits: Seq<(String, String)>,
    i: int,
)
    requires
        0 <= i < commits.len(),
    ensures
        ({
            let p = events::commit_payload(repo, branch, commit, summary);
            let n = events::commit_nodes(commits);
            &&& says(p, "repo"@, repo)
            &&& says(p, "branch"@, branch)
            &&& says(p, "commit"@, commit)
            &&& says(p, "short_commit"@, text::first_chars(commit, 7))
            &&& says(p, "summary"@, summary)
            &&& n.len() == commits.len()
            &&& says(n[i], "commit"@, commits[i].0@)
            &&& says(n[i], "short_commit"@, text::first_chars(commits[i].0@, 7))
            &&& says(n[i], "summary"@, commits[i].1@)
        }),
{
    reveal_strlit("repo");
    reveal_strlit("branch");
    reveal_strlit("commit");
    reveal_strlit("short_commit");
    reveal_strlit("summary");
    assert("repo"@.len() == 4);
    assert("branch"@.len() == 6);
    assert("branch"@[0] == 'b');
    assert("commit"@.len() == 6);
    assert("commit"@[0] == 'c');
    assert("short_commit"@.len() == 12);
    assert("summary"@.len() == 7);
}

/// The event of a pull request says which it is and its status before and after.
pub proof fn law_pull_request_is_said(
    repo: Seq<char>,
    number: u64,
    title: Seq<char>,
    old_status: Seq<char>,
    new_status: Seq<char>,
    url: Seq<char>,
)
    ensures
        ({
            let p = events::pr_status_payload(repo, number, title, old_status, new_status, url);
            &&& says(p, "repo"@, repo)
            &&& json::member(p, "number"@) == Some(json::whole(number))
            &&& says(p, "title"@, title)
            &&& says(p, "old_status"@, old_status)
            &&& says(p, "new_status"@, new_status)
            &&& says(p, "url"@, url)
        }),
{
    reveal_strlit("repo");
    reveal_strlit("number");
    reveal_strlit("title");
    reveal_strlit("old_status");
    reveal_strlit("new_status");
    reveal_strlit("url");
    assert("repo"@.len() == 4);
    assert("number"@.len() == 6);
    assert("title"@.len() == 5);
    assert("old_status"@.len() == 10);
    assert("old_status"@[0] == 'o');
    assert("new_status"@.len() == 10);
    assert("new_status"@[0] == 'n');
    assert("url"@.len() == 3);
}

/// Each hit of a list says its keyword and its line.
pub proof fn law_hits_are_said(hits: Seq<(String, String)>, i: int)
    requires
        0 <= i < hits.len(),
    ensures
        events::hit_nodes(hits).len() == hits.len(),
        says(events::hit_nodes(hits)[i], "keyword"@, hits[i].0@),
        says(events::hit_nodes(hits)[i], "line"@, hits[i].1@),
{
    reveal_strlit("keyword");
    reveal_strlit("line");
    assert("keyword"@.len() == 7);
    assert("line"@.len() == 4);
}

/// The event of an agent says who it is and how it stands, and the rest where it is known.
pub proof fn law_agent_is_said(
    agent_name: Seq<char>,
    status: Seq<char>,
    session_id: Option<Seq<char>>,
    project: Option<Seq<char>>,
    elapsed_secs: Option<u64>,
    summary: Option<Seq<char>>,
    mention: Option<Seq<char>>,
)
    ensures
        ({
            let p = events::agent_payload(
                agent_name,
                status,
                session_id,
                project,
                elapsed_secs,
                summary,
                mention,
            );
            &&& says(p, "agent_name"@, agent_name)
            &&& says(p, "status"@, status)
            &&& says_or(p, "session_id"@, session_id, json::empty())
            &&& says_or(p, "project"@, project, json::empty())
            &&& says_or(p, "summary"@, summary, json::empty())
            &&& says_or(p, "mention"@, mention, json::empty())
            &&& json::member(p, "elapsed_secs"@) == match elapsed_secs {
                Some(n) => Some(json::whole(n)),
                None => None,
            }
        }),
{
    reveal_strlit("agent_name");
    reveal_strlit("status");
    reveal_strlit("session_id");
    reveal_strlit("project");
    reveal_strlit("elapsed_secs");
    reveal_strlit("summary");
    reveal_strlit("mention");
    assert("agent_name"@.len() == 10);
    assert("agent_name"@[0] == 'a');
    assert("status"@.len() == 6);
    assert("session_id"@.len() == 10);
    assert("session_id"@[0] == 's');
    assert("project"@.len() == 7);
    assert("project"@[0] == 'p');
    assert("elapsed_secs"@.len() == 12);
    assert("summary"@.len() == 7);
    assert("summary"@[0] == 's');
    assert("mention"@.len() == 7);
    assert("mention"@[0] == 'm');
}

/// What is known of the place of an event is added to its payload, and what is not leaves the
/// payload as it was.
pub proof fn law_place_is_said(payload: Node, routing: RoutingView)
    requires
        payload is Object,
    ensures
        ({
            let p = events::with_metadata(payload, routing);
            &&& says_or(p, "project"@, routing.project, payload)
            &&& says_or(p, "repo_name"@, routing.repo_name, payload)
            &&& says_or(p, "repo_path"@, routing.repo_path, payload)
            &&& says_or(p, "worktree_path"@, routing.worktree_path, payload)
            &&& says_or(p, "session_id"@, routing.session_id, payload)
        }),
{
    reveal_strlit("project");
    reveal_strlit("repo_name");
    reveal_strlit("repo_path");
    reveal_strlit("worktree_path");
    reveal_strlit("session_id");
    assert("project"@.len() == 7);
    assert("repo_name"@.len() == 9);
    assert("repo_name"@[5] == 'n');
    assert("repo_path"@.len() == 9);
    assert("repo_path"@[5] == 'p');
    assert("worktree_path"@.len() == 13);
    assert("session_id"@.len() == 10);
}

/// An issue event goes under its present name; every other kind under its own.
pub proof fn law_name_of_a_kind(kind: Seq<char>)
    ensures
        events::canonical_kind("issue-opened"@) == "github.issue-opened"@,
        kind != "issue-opened"@ ==> events::canonical_kind(kind) == kind,
{
}

/// The labels of the formats.
pub proof fn law_labels_of_formats()
    ensures
        events::label_of(events::MessageFormat::Compact) == "compact"@,
        events::label_of(events::MessageFormat::Alert) == "alert"@,
        events::label_of(events::MessageFormat::Inline) == "inline"@,
        events::label_of(events::MessageFormat::Raw) == "raw"@,
{
}

/// Each format has its label, and a label of no format is refused.
pub proof fn law_format_of_a_label(label: Seq<char>)
    ensures
        match events::format_of(label) {
            Ok(format) => label == events::label_of(format),
            Err(e) => {
                &&& label != "compact"@ && label != "alert"@ && label != "inline"@ && label
                    != "raw"@
                &&& e == "unsupported message format: "@ + label
            },
        },
{
}

} // verus!
