//! What an envelope tells, kind by kind.
use vstd::prelude::*;
use vstd::string::*;

use crate::compat;
use crate::compat::{
    AgentView, EnvelopeView, EventBodyView, GitBranchChangedView, GitCommitView, GitHubCIView,
    GitHubIssueView, GitHubPRStatusView, GitHubPRView, TmuxKeywordView, TmuxStaleView,
    WorkspaceView,
};
use crate::events::EventView;
use crate::json;
use crate::json::Node;
use crate::scan_laws;

verus! {

/// An envelope tells what it should, or there is none for the reason that it should.
pub open spec fn tells(
    envelope: Result<EnvelopeView, Seq<char>>,
    body: Result<EventBodyView, Seq<char>>,
) -> bool {
    match envelope {
        Ok(e) => body == Ok::<EventBodyView, Seq<char>>(e.body),
        Err(e) => body == Err::<EventBodyView, Seq<char>>(e),
    }
}

/// The first of two texts that is there.
pub open spec fn first_of(a: Option<Seq<char>>, b: Option<Seq<char>>) -> Option<Seq<char>> {
    if a is Some {
        a
    } else {
        b
    }
}

/// What is said where a text is missing.
pub open spec fn no_text(key: Seq<char>) -> Result<EventBodyView, Seq<char>> {
    Err("missing string field '"@ + key + "'"@)
}

/// What is said where a number is missing.
pub open spec fn no_number(key: Seq<char>) -> Result<EventBodyView, Seq<char>> {
    Err("missing u64 field '"@ + key + "'"@)
}

/// A change of the branch tells the repository and both branches.
pub proof fn law_branch_change_is_told(event: EventView, id: Seq<char>, now: Seq<char>)
    requires
        event.kind == "git.branch-changed"@,
    ensures
        ({
            let p = event.payload;
            tells(
                compat::envelope_of(event, id, now),
                if json::field(p, "repo"@) is None {
                    no_text("repo"@)
                } else {
                    if json::field(p, "old_branch"@) is None {
                        no_text("old_branch"@)
                    } else {
                        if json::field(p, "new_branch"@) is None {
                            no_text("new_branch"@)
                        } else {
                            let repo = json::field(p, "repo"@)->0;
                            let old_branch = json::field(p, "old_branch"@)->0;
                            let new_branch = json::field(p, "new_branch"@)->0;
                            Ok(
                                EventBodyView::GitBranchChanged(
                                    GitBranchChangedView { repo, old_branch, new_branch },
                                ),
                            )
                        }
                    }
                },
            )
        }),
{
    reveal_strlit("git.branch-changed");
    reveal_strlit("git.commit");
    reveal_strlit("issue-opened");
    assert("git.branch-changed"@.len() == 18);
    assert("git.commit"@.len() == 10);
    assert("issue-opened"@.len() == 12);
}

/// An opened issue tells its repository, number and title, and how many comments
/// it has where that is known.
pub proof fn law_opened_issue_is_told(event: EventView, id: Seq<char>, now: Seq<char>)
    requires
        event.kind == "github.issue-opened"@,
    ensures
        ({
            let p = event.payload;
            tells(
                compat::envelope_of(event, id, now),
                if json::field(p, "repo"@) is None {
                    no_text("repo"@)
                } else {
                    if json::count(p, "number"@) is None {
                        no_number("number"@)
                    } else {
                        if json::field(p, "title"@) is None {
                            no_text("title"@)
                        } else {
                            let repo = json::field(p, "repo"@)->0;
                            let number = json::count(p, "number"@)->0;
                            let title = json::field(p, "title"@)->0;
                            Ok(
                                EventBodyView::GitHubIssueOpened(
                                    GitHubIssueView {
                                        repo,
                                        number,
                                        title,
                                        comments: json::count(p, "comments"@),
                                    },
                                ),
                            )
                        }
                    }
                },
            )
        }),
{
    reveal_strlit("github.issue-opened");
    reveal_strlit("git.commit");
    reveal_strlit("git.branch-changed");
    reveal_strlit("issue-opened");
    assert("github.issue-opened"@.len() == 19);
    assert("git.commit"@.len() == 10);
    assert("git.branch-changed"@.len() == 18);
    assert("issue-opened"@.len() == 12);
}

/// A commented issue tells its repository, number and title, and how many comments
/// it has where that is known.
pub proof fn law_commented_issue_is_told(event: EventView, id: Seq<char>, now: Seq<char>)
    requires
        event.kind == "github.issue-commented"@,
    ensures
        ({
            let p = event.payload;
            tells(
                compat::envelope_of(event, id, now),
                if json::field(p, "repo"@) is None {
                    no_text("repo"@)
                } else {
                    if json::count(p, "number"@) is None {
                        no_number("number"@)
                    } else {
                        if json::field(p, "title"@) is None {
                            no_text("title"@)
                        } else {
                            let repo = json::field(p, "repo"@)->0;
                            let number = json::count(p, "number"@)->0;
                            let title = json::field(p, "title"@)->0;
                            Ok(
                                EventBodyView::GitHubIssueCommented(
                                    GitHubIssueView {
                                        repo,
                                        number,
                                        title,
                                        comments: json::count(p, "comments"@),
                                    },
                                ),
                            )
                        }
                    }
                },
            )
        }),
{
    reveal_strlit("github.issue-commented");
    reveal_strlit("git.commit");
    reveal_strlit("git.branch-changed");
    reveal_strlit("github.issue-opened");
    reveal_strlit("issue-opened");
    assert("github.issue-commented"@.len() == 22);
    assert("git.commit"@.len() == 10);
    assert("git.branch-changed"@.len() == 18);
    assert("github.issue-opened"@.len() == 19);
    assert("issue-opened"@.len() == 12);
}

/// A closed issue tells its repository, number and title, and how many comments
/// it has where that is known.
pub proof fn law_closed_issue_is_told(event: EventView, id: Seq<char>, now: Seq<char>)
    requires
        event.kind == "github.issue-closed"@,
    ensures
        ({
            let p = event.payload;
            tells(
                compat::envelope_of(event, id, now),
                if json::field(p, "repo"@) is None {
                    no_text("repo"@)
                } else {
                    if json::count(p, "number"@) is None {
                        no_number("number"@)
                    } else {
                        if json::field(p, "title"@) is None {
                            no_text("title"@)
                        } else {
                            let repo = json::field(p, "repo"@)->0;
                            let number = json::count(p, "number"@)->0;
                            let title = json::field(p, "title"@)->0;
                            Ok(
                                EventBodyView::GitHubIssueClosed(
                                    GitHubIssueView {
                                        repo,
                                        number,
                                        title,
                                        comments: json::count(p, "comments"@),
                                    },
                                ),
                            )
                        }
                    }
                },
            )
        }),
{
    reveal_strlit("github.issue-closed");
    reveal_strlit("git.commit");
    reveal_strlit("git.branch-changed");
    reveal_strlit("github.issue-opened");
    reveal_strlit("github.issue-commented");
    reveal_strlit("issue-opened");
    assert("github.issue-closed"@.len() == 19);
    assert("github.issue-closed"@[13] == 'c');
    assert("git.commit"@.len() == 10);
    assert("git.branch-changed"@.len() == 18);
    assert("github.issue-opened"@.len() == 19);
    assert("github.issue-opened"@[13] == 'o');
    assert("github.issue-commented"@.len() == 22);
    assert("issue-opened"@.len() == 12);
}

/// A pull request that is new or open again is told as opened, one that is merged as
/// merged, and any other change with the status before and after it.
pub proof fn law_pull_request_is_told(event: EventView, id: Seq<char>, now: Seq<char>)
    requires
        event.kind == "github.pr-status-changed"@,
    ensures
        ({
            let p = event.payload;
            tells(
                compat::envelope_of(event, id, now),
                if json::field(p, "repo"@) is None {
                    no_text("repo"@)
                } else {
                    if json::count(p, "number"@) is None {
                        no_number("number"@)
                    } else {
                        if json::field(p, "title"@) is None {
                            no_text("title"@)
                        } else {
                            if json::field(p, "url"@) is None {
                                no_text("url"@)
                            } else {
                                if json::field(p, "old_status"@) is None {
                                    no_text("old_status"@)
                                } else {
                                    if json::field(p, "new_status"@) is None {
                                        no_text("new_status"@)
                                    } else {
                                        let repo = json::field(p, "repo"@)->0;
                                        let number = json::count(p, "number"@)->0;
                                        let title = json::field(p, "title"@)->0;
                                        let url = json::field(p, "url"@)->0;
                                        let old_status = json::field(p, "old_status"@)->0;
                                        let new_status = json::field(p, "new_status"@)->0;
                                        if new_status == "open"@ && (old_status == "<new>"@ || old_status == "closed"@) {
                                            Ok(
                                                EventBodyView::GitHubPROpened(
                                                    GitHubPRView { repo, number, title, url },
                                                ),
                                            )
                                        } else if new_status == "merged"@ {
                                            Ok(
                                                EventBodyView::GitHubPRMerged(
                                                    GitHubPRView { repo, number, title, url },
                                                ),
                                            )
                                        } else {
                                            Ok(
                                                EventBodyView::GitHubPRStatusChanged(
                                                    GitHubPRStatusView {
                                                        repo,
                                                        number,
                                                        title,
                                                        old_status,
                                                        new_status,
                                                        url,
                                                    },
                                                ),
                                            )
                                        }
                                    }
                                }
                            }
                        }
                    }
                },
            )
        }),
{
    reveal_strlit("github.pr-status-changed");
    reveal_strlit("git.commit");
    reveal_strlit("git.branch-changed");
    reveal_strlit("github.issue-opened");
    reveal_strlit("github.issue-commented");
    reveal_strlit("github.issue-closed");
    reveal_strlit("issue-opened");
    assert("github.pr-status-changed"@.len() == 24);
    assert("git.commit"@.len() == 10);
    assert("git.branch-changed"@.len() == 18);
    assert("github.issue-opened"@.len() == 19);
    assert("github.issue-commented"@.len() == 22);
    assert("github.issue-closed"@.len() == 19);
    assert("issue-opened"@.len() == 12);
}

/// A failure of CI tells its repository and what else the payload says.
pub proof fn law_failed_ci_is_told(event: EventView, id: Seq<char>, now: Seq<char>)
    requires
        event.kind == "github.ci-failed"@,
    ensures
        ({
            let p = event.payload;
            tells(
                compat::envelope_of(event, id, now),
                if json::field(p, "repo"@) is None {
                    no_text("repo"@)
                } else {
                    let repo = json::field(p, "repo"@)->0;
                    Ok(EventBodyView::GitHubCIFailed(GitHubCIView { repo, number: json::count(p, "number"@),
                        branch: json::field(p, "branch"@),
                        sha: json::field(p, "sha"@),
                        status: json::field(p, "status"@),
                        conclusion: json::field(p, "conclusion"@),
                        url: json::field(p, "url"@),
                        workflow: json::field(p, "workflow"@),
                        message: json::field(p, "message"@),
                    }))
                },
            )
        }),
{
    reveal_strlit("github.ci-failed");
    reveal_strlit("git.commit");
    reveal_strlit("git.branch-changed");
    reveal_strlit("github.issue-opened");
    reveal_strlit("github.issue-commented");
    reveal_strlit("github.issue-closed");
    reveal_strlit("github.pr-status-changed");
    reveal_strlit("issue-opened");
    assert("github.ci-failed"@.len() == 16);
    assert("git.commit"@.len() == 10);
    assert("git.branch-changed"@.len() == 18);
    assert("github.issue-opened"@.len() == 19);
    assert("github.issue-commented"@.len() == 22);
    assert("github.issue-closed"@.len() == 19);
    assert("github.pr-status-changed"@.len() == 24);
    assert("issue-opened"@.len() == 12);
}

/// A stale pane tells its session, the minutes and its last line.
pub proof fn law_stale_pane_is_told(event: EventView, id: Seq<char>, now: Seq<char>)
    requires
        event.kind == "tmux.stale"@,
    ensures
        ({
            let p = event.payload;
            tells(
                compat::envelope_of(event, id, now),
                if json::field(p, "session"@) is None {
                    no_text("session"@)
                } else {
                    if json::field(p, "pane"@) is None {
                        no_text("pane"@)
                    } else {
                        if json::count(p, "minutes"@) is None {
                            no_number("minutes"@)
                        } else {
                            if json::field(p, "last_line"@) is None {
                                no_text("last_line"@)
                            } else {
                                let session = json::field(p, "session"@)->0;
                                let pane = json::field(p, "pane"@)->0;
                                let minutes = json::count(p, "minutes"@)->0;
                                let last_line = json::field(p, "last_line"@)->0;
                                Ok(
                                    EventBodyView::TmuxStale(
                                        TmuxStaleView { session, pane, minutes, last_line },
                                    ),
                                )
                            }
                        }
                    }
                },
            )
        }),
{
    reveal_strlit("tmux.stale");
    reveal_strlit("git.commit");
    reveal_strlit("git.branch-changed");
    reveal_strlit("github.issue-opened");
    reveal_strlit("github.issue-commented");
    reveal_strlit("github.issue-closed");
    reveal_strlit("github.pr-status-changed");
    reveal_strlit("github.ci-failed");
    reveal_strlit("tmux.keyword");
    reveal_strlit("issue-opened");
    assert("tmux.stale"@.len() == 10);
    assert("tmux.stale"@[0] == 't');
    assert("git.commit"@.len() == 10);
    assert("git.commit"@[0] == 'g');
    assert("git.branch-changed"@.len() == 18);
    assert("github.issue-opened"@.len() == 19);
    assert("github.issue-commented"@.len() == 22);
    assert("github.issue-closed"@.len() == 19);
    assert("github.pr-status-changed"@.len() == 24);
    assert("github.ci-failed"@.len() == 16);
    assert("tmux.keyword"@.len() == 12);
    assert("issue-opened"@.len() == 12);
}

proof fn lemma_commits(repo: Seq<char>, branch: Seq<char>, nodes: Seq<Node>)
    ensures
        match compat::commits_of(repo, branch, nodes) {
            Ok(commits) => {
                &&& commits.len() == nodes.len()
                &&& forall|i: int|
                    0 <= i < nodes.len() ==> {
                        &&& (#[trigger] commits[i]).repo == repo
                        &&& commits[i].branch == branch
                        &&& json::field(nodes[i], "commit"@) == Some(commits[i].sha)
                        &&& json::field(nodes[i], "short_commit"@) == Some(commits[i].short_sha)
                        &&& json::field(nodes[i], "summary"@) == Some(commits[i].summary)
                    }
            },
            Err(_) => exists|i: int|
                0 <= i < nodes.len() && (json::field(#[trigger] nodes[i], "commit"@) is None
                    || json::field(nodes[i], "short_commit"@) is None || json::field(
                    nodes[i],
                    "summary"@,
                ) is None),
        },
    decreases nodes.len(),
{
    if nodes.len() > 0 {
        let front = nodes.drop_last();
        lemma_commits(repo, branch, front);
        match compat::commits_of(repo, branch, front) {
            Err(_) => {
                let i = choose|i: int|
                    0 <= i < front.len() && (json::field(#[trigger] front[i], "commit"@) is None
                        || json::field(front[i], "short_commit"@) is None || json::field(
                        front[i],
                        "summary"@,
                    ) is None);
                assert(nodes[i] == front[i]);
            },
            Ok(before) => match compat::commit_of(repo, branch, nodes.last()) {
                Err(_) => {
                    assert(nodes[nodes.len() - 1] == nodes.last());
                },
                Ok(commit) => {
                    let commits = before.push(commit);
                    assert forall|i: int| 0 <= i < nodes.len() implies {
                        &&& (#[trigger] commits[i]).repo == repo
                        &&& commits[i].branch == branch
                        &&& json::field(nodes[i], "commit"@) == Some(commits[i].sha)
                        &&& json::field(nodes[i], "short_commit"@) == Some(commits[i].short_sha)
                        &&& json::field(nodes[i], "summary"@) == Some(commits[i].summary)
                    } by {
                        if i < front.len() {
                            assert(front[i] == nodes[i]);
                            assert(commits[i] == before[i]);
                        }
                    }
                },
            },
        }
    }
}

/// A payload that lists more than one commit is told as several, each as it is listed; the
/// number is the one that the payload gives, and otherwise that of the list.
pub proof fn law_listed_commits_are_told(
    event: EventView,
    id: Seq<char>,
    now: Seq<char>,
    listed: Seq<Node>,
)
    requires
        event.kind == "git.commit"@,
        json::field(event.payload, "repo"@) is Some,
        json::field(event.payload, "branch"@) is Some,
        json::items(event.payload, "commits"@) == Some(listed),
        1 < listed.len() <= u64::MAX,
        forall|i: int|
            0 <= i < listed.len() ==> {
                &&& json::field(#[trigger] listed[i], "commit"@) is Some
                &&& json::field(listed[i], "short_commit"@) is Some
                &&& json::field(listed[i], "summary"@) is Some
            },
    ensures
        match compat::envelope_of(event, id, now) {
            Ok(e) => match e.body {
                EventBodyView::GitCommitAggregated(a) => {
                    &&& json::field(event.payload, "repo"@) == Some(a.repo)
                    &&& json::field(event.payload, "branch"@) == Some(a.branch)
                    &&& a.commit_count == match json::count(event.payload, "commit_count"@) {
                        Some(n) => n as nat,
                        None => listed.len(),
                    }
                    &&& a.commits.len() == listed.len()
                    &&& forall|i: int|
                        0 <= i < listed.len() ==> {
                            &&& (#[trigger] a.commits[i]).repo == a.repo
                            &&& a.commits[i].branch == a.branch
                            &&& json::field(listed[i], "commit"@) == Some(a.commits[i].sha)
                            &&& json::field(listed[i], "short_commit"@) == Some(
                                a.commits[i].short_sha,
                            )
                            &&& json::field(listed[i], "summary"@) == Some(a.commits[i].summary)
                        }
                },
                _ => false,
            },
            Err(_) => false,
        },
{
    reveal_strlit("git.commit");
    reveal_strlit("issue-opened");
    assert("git.commit"@.len() == 10);
    assert("issue-opened"@.len() == 12);
    lemma_commits(
        json::field(event.payload, "repo"@)->0,
        json::field(event.payload, "branch"@)->0,
        listed,
    );
}

/// A payload that neither lists nor counts more than one commit is told as a single one.
pub proof fn law_single_commit_is_told(event: EventView, id: Seq<char>, now: Seq<char>)
    requires
        event.kind == "git.commit"@,
        json::items(event.payload, "commits"@) is None,
        match json::count(event.payload, "commit_count"@) {
            Some(n) => n <= 1,
            None => true,
        },
    ensures
        ({
            let p = event.payload;
            tells(
                compat::envelope_of(event, id, now),
                if json::field(p, "repo"@) is None {
                    no_text("repo"@)
                } else if json::field(p, "branch"@) is None {
                    no_text("branch"@)
                } else if json::field(p, "commit"@) is None {
                    no_text("commit"@)
                } else if json::field(p, "short_commit"@) is None {
                    no_text("short_commit"@)
                } else if json::field(p, "summary"@) is None {
                    no_text("summary"@)
                } else {
                    Ok(
                        EventBodyView::GitCommit(
                            GitCommitView {
                                repo: json::field(p, "repo"@)->0,
                                branch: json::field(p, "branch"@)->0,
                                sha: json::field(p, "commit"@)->0,
                                short_sha: json::field(p, "short_commit"@)->0,
                                summary: json::field(p, "summary"@)->0,
                            },
                        ),
                    )
                },
            )
        }),
{
    reveal_strlit("git.commit");
    reveal_strlit("issue-opened");
    assert("git.commit"@.len() == 10);
    assert("issue-opened"@.len() == 12);
}

proof fn lemma_keywords(session: Seq<char>, nodes: Seq<Node>)
    ensures
        match compat::keywords_of(session, nodes) {
            Ok(hits) => {
                &&& hits.len() == nodes.len()
                &&& forall|i: int|
                    0 <= i < nodes.len() ==> {
                        &&& (#[trigger] hits[i]).session == session
                        &&& json::field(nodes[i], "keyword"@) == Some(hits[i].keyword)
                        &&& json::field(nodes[i], "line"@) == Some(hits[i].line)
                    }
            },
            Err(_) => exists|i: int|
                0 <= i < nodes.len() && (json::field(#[trigger] nodes[i], "keyword"@) is None
                    || json::field(nodes[i], "line"@) is None),
        },
    decreases nodes.len(),
{
    if nodes.len() > 0 {
        let front = nodes.drop_last();
        lemma_keywords(session, front);
        match compat::keywords_of(session, front) {
            Err(_) => {
                let i = choose|i: int|
                    0 <= i < front.len() && (json::field(#[trigger] front[i], "keyword"@) is None
                        || json::field(front[i], "line"@) is None);
                assert(nodes[i] == front[i]);
            },
            Ok(before) => match compat::keyword_of(session, nodes.last()) {
                Err(_) => {
                    assert(nodes[nodes.len() - 1] == nodes.last());
                },
                Ok(hit) => {
                    let hits = before.push(hit);
                    assert forall|i: int| 0 <= i < nodes.len() implies {
                        &&& (#[trigger] hits[i]).session == session
                        &&& json::field(nodes[i], "keyword"@) == Some(hits[i].keyword)
                        &&& json::field(nodes[i], "line"@) == Some(hits[i].line)
                    } by {
                        if i < front.len() {
                            assert(front[i] == nodes[i]);
                            assert(hits[i] == before[i]);
                        }
                    }
                },
            },
        }
    }
}

/// A payload that lists more than one hit is told as several, each as it is listed.
pub proof fn law_listed_hits_are_told(
    event: EventView,
    id: Seq<char>,
    now: Seq<char>,
    listed: Seq<Node>,
)
    requires
        event.kind == "tmux.keyword"@,
        json::field(event.payload, "session"@) is Some,
        json::items(event.payload, "hits"@) == Some(listed),
        1 < listed.len() <= u64::MAX,
        forall|i: int|
            0 <= i < listed.len() ==> {
                &&& json::field(#[trigger] listed[i], "keyword"@) is Some
                &&& json::field(listed[i], "line"@) is Some
            },
    ensures
        match compat::envelope_of(event, id, now) {
            Ok(e) => match e.body {
                EventBodyView::TmuxKeywordAggregated(a) => {
                    &&& json::field(event.payload, "session"@) == Some(a.session)
                    &&& a.hit_count == match json::count(event.payload, "hit_count"@) {
                        Some(n) => n as nat,
                        None => listed.len(),
                    }
                    &&& a.hits.len() == listed.len()
                    &&& forall|i: int|
                        0 <= i < listed.len() ==> {
                            &&& (#[trigger] a.hits[i]).session == a.session
                            &&& json::field(listed[i], "keyword"@) == Some(a.hits[i].keyword)
                            &&& json::field(listed[i], "line"@) == Some(a.hits[i].line)
                        }
                },
                _ => false,
            },
            Err(_) => false,
        },
{
    reveal_strlit("tmux.keyword");
    reveal_strlit("git.commit");
    reveal_strlit("git.branch-changed");
    reveal_strlit("github.issue-opened");
    reveal_strlit("github.issue-commented");
    reveal_strlit("github.issue-closed");
    reveal_strlit("github.pr-status-changed");
    reveal_strlit("github.ci-failed");
    reveal_strlit("issue-opened");
    assert("tmux.keyword"@.len() == 12);
    assert("tmux.keyword"@[0] == 't');
    assert("git.commit"@.len() == 10);
    assert("git.branch-changed"@.len() == 18);
    assert("github.issue-opened"@.len() == 19);
    assert("github.issue-commented"@.len() == 22);
    assert("github.issue-closed"@.len() == 19);
    assert("github.pr-status-changed"@.len() == 24);
    assert("github.ci-failed"@.len() == 16);
    assert("issue-opened"@.len() == 12);
    assert("issue-opened"@[0] == 'i');
    lemma_keywords(json::field(event.payload, "session"@)->0, listed);
}

/// A payload that neither lists nor counts more than one hit is told as a single one.
pub proof fn law_single_hit_is_told(event: EventView, id: Seq<char>, now: Seq<char>)
    requires
        event.kind == "tmux.keyword"@,
        json::items(event.payload, "hits"@) is None,
        match json::count(event.payload, "hit_count"@) {
            Some(n) => n <= 1,
            None => true,
        },
    ensures
        ({
            let p = event.payload;
            tells(
                compat::envelope_of(event, id, now),
                if json::field(p, "session"@) is None {
                    no_text("session"@)
                } else if json::field(p, "keyword"@) is None {
                    no_text("keyword"@)
                } else if json::field(p, "line"@) is None {
                    no_text("line"@)
                } else {
                    Ok(
                        EventBodyView::TmuxKeyword(
                            TmuxKeywordView {
                                session: json::field(p, "session"@)->0,
                                keyword: json::field(p, "keyword"@)->0,
                                line: json::field(p, "line"@)->0,
                            },
                        ),
                    )
                },
            )
        }),
{
    reveal_strlit("tmux.keyword");
    reveal_strlit("git.commit");
    reveal_strlit("git.branch-changed");
    reveal_strlit("github.issue-opened");
    reveal_strlit("github.issue-commented");
    reveal_strlit("github.issue-closed");
    reveal_strlit("github.pr-status-changed");
    reveal_strlit("github.ci-failed");
    reveal_strlit("issue-opened");
    assert("tmux.keyword"@.len() == 12);
    assert("tmux.keyword"@[0] == 't');
    assert("git.commit"@.len() == 10);
    assert("git.branch-changed"@.len() == 18);
    assert("github.issue-opened"@.len() == 19);
    assert("github.issue-commented"@.len() == 22);
    assert("github.issue-closed"@.len() == 19);
    assert("github.pr-status-changed"@.len() == 24);
    assert("github.ci-failed"@.len() == 16);
    assert("issue-opened"@.len() == 12);
    assert("issue-opened"@[0] == 'i');
}

/// What an event of an agent or a session says of it.
pub open spec fn agent_says(p: Node, e: AgentView) -> bool {
    &&& json::field(p, "agent_name"@) == Some(e.agent_name)
    &&& json::field(p, "status"@) == Some(e.status)
    &&& e.session_name == json::field(p, "session_name"@)
    &&& e.session_id == json::field(p, "session_id"@)
    &&& e.project == json::field(p, "project"@)
    &&& e.repo_path == json::field(p, "repo_path"@)
    &&& e.branch == json::field(p, "branch"@)
    &&& e.pr_url == json::field(p, "pr_url"@)
    &&& e.command == json::field(p, "command"@)
    &&& e.tool_name == json::field(p, "tool_name"@)
    &&& e.summary == json::field(p, "summary"@)
    &&& e.issue_number == json::count(p, "issue_number"@)
    &&& e.pr_number == json::count(p, "pr_number"@)
    &&& e.elapsed_secs == json::count(p, "elapsed_secs"@)
    &&& e.normalized_event == first_of(
        json::field(p, "normalized_event"@),
        json::field_at(p, "/context/normalized_event"@),
    )
    &&& e.error_summary == first_of(
        json::field(p, "error_summary"@),
        json::field(p, "error_message"@),
    )
    &&& e.error_message == first_of(
        json::field(p, "error_message"@),
        json::field(p, "error_summary"@),
    )
    &&& e.mention == first_of(json::field(p, "mention"@), json::field_at(p, "/context/mention"@))
}

/// The body of an event of an agent or a session, for each kind of it.
pub open spec fn body_for_agent(kind: Seq<char>, body: EventBodyView, e: AgentView) -> bool {
    &&& kind == "agent.started"@ ==> body == EventBodyView::AgentStarted(e)
    &&& kind == "session.started"@ ==> body == EventBodyView::AgentStarted(e)
    &&& kind == "agent.blocked"@ ==> body == EventBodyView::AgentBlocked(e)
    &&& kind == "session.blocked"@ ==> body == EventBodyView::AgentBlocked(e)
    &&& kind == "agent.finished"@ ==> body == EventBodyView::AgentFinished(e)
    &&& kind == "session.finished"@ ==> body == EventBodyView::AgentFinished(e)
    &&& kind == "agent.failed"@ ==> body == EventBodyView::AgentFailed(e)
    &&& kind == "session.failed"@ ==> body == EventBodyView::AgentFailed(e)
    &&& kind == "session.retry-needed"@ ==> body == EventBodyView::AgentRetryNeeded(e)
    &&& kind == "session.pr-created"@ ==> body == EventBodyView::AgentPRCreated(e)
    &&& kind == "session.test-started"@ ==> body == EventBodyView::AgentTestStarted(e)
    &&& kind == "session.test-finished"@ ==> body == EventBodyView::AgentTestFinished(e)
    &&& kind == "session.test-failed"@ ==> body == EventBodyView::AgentTestFailed(e)
    &&& kind == "session.handoff-needed"@ ==> body == EventBodyView::AgentHandoffNeeded(e)
}

proof fn lemma_agent_0(node: Node, e: AgentView)
    ensures
        "agent.started"@ != "issue-opened"@,
        compat::body_of("agent.started"@, node) == match compat::agent_of(node) {
            Ok(e) => Ok::<EventBodyView, Seq<char>>(EventBodyView::AgentStarted(e)),
            Err(e) => Err(e),
        },
        body_for_agent("agent.started"@, EventBodyView::AgentStarted(e), e),
{
    reveal_strlit("agent.started");
    reveal_strlit("git.commit");
    reveal_strlit("git.branch-changed");
    reveal_strlit("github.issue-opened");
    reveal_strlit("github.issue-commented");
    reveal_strlit("github.issue-closed");
    reveal_strlit("github.pr-status-changed");
    reveal_strlit("github.ci-failed");
    reveal_strlit("tmux.keyword");
    reveal_strlit("tmux.stale");
    reveal_strlit("issue-opened");
    reveal_strlit("session.started");
    reveal_strlit("agent.blocked");
    reveal_strlit("session.blocked");
    reveal_strlit("agent.finished");
    reveal_strlit("session.finished");
    reveal_strlit("agent.failed");
    reveal_strlit("session.failed");
    reveal_strlit("session.retry-needed");
    reveal_strlit("session.pr-created");
    reveal_strlit("session.test-started");
    reveal_strlit("session.test-finished");
    reveal_strlit("session.test-failed");
    reveal_strlit("session.handoff-needed");
    assert("agent.started"@.len() == 13);
    assert("agent.started"@[6] == 's');
    assert("git.commit"@.len() == 10);
    assert("git.branch-changed"@.len() == 18);
    assert("github.issue-opened"@.len() == 19);
    assert("github.issue-commented"@.len() == 22);
    assert("github.issue-closed"@.len() == 19);
    assert("github.pr-status-changed"@.len() == 24);
    assert("github.ci-failed"@.len() == 16);
    assert("tmux.keyword"@.len() == 12);
    assert("tmux.stale"@.len() == 10);
    assert("issue-opened"@.len() == 12);
    assert("session.started"@.len() == 15);
    assert("agent.blocked"@.len() == 13);
    assert("agent.blocked"@[6] == 'b');
    assert("session.blocked"@.len() == 15);
    assert("agent.finished"@.len() == 14);
    assert("session.finished"@.len() == 16);
    assert("agent.failed"@.len() == 12);
    assert("session.failed"@.len() == 14);
    assert("session.retry-needed"@.len() == 20);
    assert("session.pr-created"@.len() == 18);
    assert("session.test-started"@.len() == 20);
    assert("session.test-finished"@.len() == 21);
    assert("session.test-failed"@.len() == 19);
    assert("session.handoff-needed"@.len() == 22);
}

proof fn lemma_agent_1(node: Node, e: AgentView)
    ensures
        "session.started"@ != "issue-opened"@,
        compat::body_of("session.started"@, node) == match compat::agent_of(node) {
            Ok(e) => Ok::<EventBodyView, Seq<char>>(EventBodyView::AgentStarted(e)),
            Err(e) => Err(e),
        },
        body_for_agent("session.started"@, EventBodyView::AgentStarted(e), e),
{
    reveal_strlit("session.started");
    reveal_strlit("git.commit");
    reveal_strlit("git.branch-changed");
    reveal_strlit("github.issue-opened");
    reveal_strlit("github.issue-commented");
    reveal_strlit("github.issue-closed");
    reveal_strlit("github.pr-status-changed");
    reveal_strlit("github.ci-failed");
    reveal_strlit("tmux.keyword");
    reveal_strlit("tmux.stale");
    reveal_strlit("issue-opened");
    reveal_strlit("agent.started");
    reveal_strlit("agent.blocked");
    reveal_strlit("session.blocked");
    reveal_strlit("agent.finished");
    reveal_strlit("session.finished");
    reveal_strlit("agent.failed");
    reveal_strlit("session.failed");
    reveal_strlit("session.retry-needed");
    reveal_strlit("session.pr-created");
    reveal_strlit("session.test-started");
    reveal_strlit("session.test-finished");
    reveal_strlit("session.test-failed");
    reveal_strlit("session.handoff-needed");
    assert("session.started"@.len() == 15);
    assert("session.started"@[8] == 's');
    assert("git.commit"@.len() == 10);
    assert("git.branch-changed"@.len() == 18);
    assert("github.issue-opened"@.len() == 19);
    assert("github.issue-commented"@.len() == 22);
    assert("github.issue-closed"@.len() == 19);
    assert("github.pr-status-changed"@.len() == 24);
    assert("github.ci-failed"@.len() == 16);
    assert("tmux.keyword"@.len() == 12);
    assert("tmux.stale"@.len() == 10);
    assert("issue-opened"@.len() == 12);
    assert("agent.started"@.len() == 13);
    assert("agent.blocked"@.len() == 13);
    assert("session.blocked"@.len() == 15);
    assert("session.blocked"@[8] == 'b');
    assert("agent.finished"@.len() == 14);
    assert("session.finished"@.len() == 16);
    assert("agent.failed"@.len() == 12);
    assert("session.failed"@.len() == 14);
    assert("session.retry-needed"@.len() == 20);
    assert("session.pr-created"@.len() == 18);
    assert("session.test-started"@.len() == 20);
    assert("session.test-finished"@.len() == 21);
    assert("session.test-failed"@.len() == 19);
    assert("session.handoff-needed"@.len() == 22);
}

proof fn lemma_agent_2(node: Node, e: AgentView)
    ensures
        "agent.blocked"@ != "issue-opened"@,
        compat::body_of("agent.blocked"@, node) == match compat::agent_of(node) {
            Ok(e) => Ok::<EventBodyView, Seq<char>>(EventBodyView::AgentBlocked(e)),
            Err(e) => Err(e),
        },
        body_for_agent("agent.blocked"@, EventBodyView::AgentBlocked(e), e),
{
    reveal_strlit("agent.blocked");
    reveal_strlit("git.commit");
    reveal_strlit("git.branch-changed");
    reveal_strlit("github.issue-opened");
    reveal_strlit("github.issue-commented");
    reveal_strlit("github.issue-closed");
    reveal_strlit("github.pr-status-changed");
    reveal_strlit("github.ci-failed");
    reveal_strlit("tmux.keyword");
    reveal_strlit("tmux.stale");
    reveal_strlit("issue-opened");
    reveal_strlit("agent.started");
    reveal_strlit("session.started");
    reveal_strlit("session.blocked");
    reveal_strlit("agent.finished");
    reveal_strlit("session.finished");
    reveal_strlit("agent.failed");
    reveal_strlit("session.failed");
    reveal_strlit("session.retry-needed");
    reveal_strlit("session.pr-created");
    reveal_strlit("session.test-started");
    reveal_strlit("session.test-finished");
    reveal_strlit("session.test-failed");
    reveal_strlit("session.handoff-needed");
    assert("agent.blocked"@.len() == 13);
    assert("agent.blocked"@[6] == 'b');
    assert("git.commit"@.len() == 10);
    assert("git.branch-changed"@.len() == 18);
    assert("github.issue-opened"@.len() == 19);
    assert("github.issue-commented"@.len() == 22);
    assert("github.issue-closed"@.len() == 19);
    assert("github.pr-status-changed"@.len() == 24);
    assert("github.ci-failed"@.len() == 16);
    assert("tmux.keyword"@.len() == 12);
    assert("tmux.stale"@.len() == 10);
    assert("issue-opened"@.len() == 12);
    assert("agent.started"@.len() == 13);
    assert("agent.started"@[6] == 's');
    assert("session.started"@.len() == 15);
    assert("session.blocked"@.len() == 15);
    assert("agent.finished"@.len() == 14);
    assert("session.finished"@.len() == 16);
    assert("agent.failed"@.len() == 12);
    assert("session.failed"@.len() == 14);
    assert("session.retry-needed"@.len() == 20);
    assert("session.pr-created"@.len() == 18);
    assert("session.test-started"@.len() == 20);
    assert("session.test-finished"@.len() == 21);
    assert("session.test-failed"@.len() == 19);
    assert("session.handoff-needed"@.len() == 22);
}

proof fn lemma_agent_3(node: Node, e: AgentView)
    ensures
        "session.blocked"@ != "issue-opened"@,
        compat::body_of("session.blocked"@, node) == match compat::agent_of(node) {
            Ok(e) => Ok::<EventBodyView, Seq<char>>(EventBodyView::AgentBlocked(e)),
            Err(e) => Err(e),
        },
        body_for_agent("session.blocked"@, EventBodyView::AgentBlocked(e), e),
{
    reveal_strlit("session.blocked");
    reveal_strlit("git.commit");
    reveal_strlit("git.branch-changed");
    reveal_strlit("github.issue-opened");
    reveal_strlit("github.issue-commented");
    reveal_strlit("github.issue-closed");
    reveal_strlit("github.pr-status-changed");
    reveal_strlit("github.ci-failed");
    reveal_strlit("tmux.keyword");
    reveal_strlit("tmux.stale");
    reveal_strlit("issue-opened");
    reveal_strlit("agent.started");
    reveal_strlit("session.started");
    reveal_strlit("agent.blocked");
    reveal_strlit("agent.finished");
    reveal_strlit("session.finished");
    reveal_strlit("agent.failed");
    reveal_strlit("session.failed");
    reveal_strlit("session.retry-needed");
    reveal_strlit("session.pr-created");
    reveal_strlit("session.test-started");
    reveal_strlit("session.test-finished");
    reveal_strlit("session.test-failed");
    reveal_strlit("session.handoff-needed");
    assert("session.blocked"@.len() == 15);
    assert("session.blocked"@[8] == 'b');
    assert("git.commit"@.len() == 10);
    assert("git.branch-changed"@.len() == 18);
    assert("github.issue-opened"@.len() == 19);
    assert("github.issue-commented"@.len() == 22);
    assert("github.issue-closed"@.len() == 19);
    assert("github.pr-status-changed"@.len() == 24);
    assert("github.ci-failed"@.len() == 16);
    assert("tmux.keyword"@.len() == 12);
    assert("tmux.stale"@.len() == 10);
    assert("issue-opened"@.len() == 12);
    assert("agent.started"@.len() == 13);
    assert("session.started"@.len() == 15);
    assert("session.started"@[8] == 's');
    assert("agent.blocked"@.len() == 13);
    assert("agent.finished"@.len() == 14);
    assert("session.finished"@.len() == 16);
    assert("agent.failed"@.len() == 12);
    assert("session.failed"@.len() == 14);
    assert("session.retry-needed"@.len() == 20);
    assert("session.pr-created"@.len() == 18);
    assert("session.test-started"@.len() == 20);
    assert("session.test-finished"@.len() == 21);
    assert("session.test-failed"@.len() == 19);
    assert("session.handoff-needed"@.len() == 22);
}

proof fn lemma_agent_4(node: Node, e: AgentView)
    ensures
        "agent.finished"@ != "issue-opened"@,
        compat::body_of("agent.finished"@, node) == match compat::agent_of(node) {
            Ok(e) => Ok::<EventBodyView, Seq<char>>(EventBodyView::AgentFinished(e)),
            Err(e) => Err(e),
        },
        body_for_agent("agent.finished"@, EventBodyView::AgentFinished(e), e),
{
    reveal_strlit("agent.finished");
    reveal_strlit("git.commit");
    reveal_strlit("git.branch-changed");
    reveal_strlit("github.issue-opened");
    reveal_strlit("github.issue-commented");
    reveal_strlit("github.issue-closed");
    reveal_strlit("github.pr-status-changed");
    reveal_strlit("github.ci-failed");
    reveal_strlit("tmux.keyword");
    reveal_strlit("tmux.stale");
    reveal_strlit("issue-opened");
    reveal_strlit("agent.started");
    reveal_strlit("session.started");
    reveal_strlit("agent.blocked");
    reveal_strlit("session.blocked");
    reveal_strlit("session.finished");
    reveal_strlit("agent.failed");
    reveal_strlit("session.failed");
    reveal_strlit("session.retry-needed");
    reveal_strlit("session.pr-created");
    reveal_strlit("session.test-started");
    reveal_strlit("session.test-finished");
    reveal_strlit("session.test-failed");
    reveal_strlit("session.handoff-needed");
    assert("agent.finished"@.len() == 14);
    assert("agent.finished"@[0] == 'a');
    assert("git.commit"@.len() == 10);
    assert("git.branch-changed"@.len() == 18);
    assert("github.issue-opened"@.len() == 19);
    assert("github.issue-commented"@.len() == 22);
    assert("github.issue-closed"@.len() == 19);
    assert("github.pr-status-changed"@.len() == 24);
    assert("github.ci-failed"@.len() == 16);
    assert("tmux.keyword"@.len() == 12);
    assert("tmux.stale"@.len() == 10);
    assert("issue-opened"@.len() == 12);
    assert("agent.started"@.len() == 13);
    assert("session.started"@.len() == 15);
    assert("agent.blocked"@.len() == 13);
    assert("session.blocked"@.len() == 15);
    assert("session.finished"@.len() == 16);
    assert("agent.failed"@.len() == 12);
    assert("session.failed"@.len() == 14);
    assert("session.failed"@[0] == 's');
    assert("session.retry-needed"@.len() == 20);
    assert("session.pr-created"@.len() == 18);
    assert("session.test-started"@.len() == 20);
    assert("session.test-finished"@.len() == 21);
    assert("session.test-failed"@.len() == 19);
    assert("session.handoff-needed"@.len() == 22);
}

proof fn lemma_agent_5(node: Node, e: AgentView)
    ensures
        "session.finished"@ != "issue-opened"@,
        compat::body_of("session.finished"@, node) == match compat::agent_of(node) {
            Ok(e) => Ok::<EventBodyView, Seq<char>>(EventBodyView::AgentFinished(e)),
            Err(e) => Err(e),
        },
        body_for_agent("session.finished"@, EventBodyView::AgentFinished(e), e),
{
    reveal_strlit("session.finished");
    reveal_strlit("git.commit");
    reveal_strlit("git.branch-changed");
    reveal_strlit("github.issue-opened");
    reveal_strlit("github.issue-commented");
    reveal_strlit("github.issue-closed");
    reveal_strlit("github.pr-status-changed");
    reveal_strlit("github.ci-failed");
    reveal_strlit("tmux.keyword");
    reveal_strlit("tmux.stale");
    reveal_strlit("issue-opened");
    reveal_strlit("agent.started");
    reveal_strlit("session.started");
    reveal_strlit("agent.blocked");
    reveal_strlit("session.blocked");
    reveal_strlit("agent.finished");
    reveal_strlit("agent.failed");
    reveal_strlit("session.failed");
    reveal_strlit("session.retry-needed");
    reveal_strlit("session.pr-created");
    reveal_strlit("session.test-started");
    reveal_strlit("session.test-finished");
    reveal_strlit("session.test-failed");
    reveal_strlit("session.handoff-needed");
    assert("session.finished"@.len() == 16);
    assert("session.finished"@[0] == 's');
    assert("git.commit"@.len() == 10);
    assert("git.branch-changed"@.len() == 18);
    assert("github.issue-opened"@.len() == 19);
    assert("github.issue-commented"@.len() == 22);
    assert("github.issue-closed"@.len() == 19);
    assert("github.pr-status-changed"@.len() == 24);
    assert("github.ci-failed"@.len() == 16);
    assert("github.ci-failed"@[0] == 'g');
    assert("tmux.keyword"@.len() == 12);
    assert("tmux.stale"@.len() == 10);
    assert("issue-opened"@.len() == 12);
    assert("agent.started"@.len() == 13);
    assert("session.started"@.len() == 15);
    assert("agent.blocked"@.len() == 13);
    assert("session.blocked"@.len() == 15);
    assert("agent.finished"@.len() == 14);
    assert("agent.failed"@.len() == 12);
    assert("session.failed"@.len() == 14);
    assert("session.retry-needed"@.len() == 20);
    assert("session.pr-created"@.len() == 18);
    assert("session.test-started"@.len() == 20);
    assert("session.test-finished"@.len() == 21);
    assert("session.test-failed"@.len() == 19);
    assert("session.handoff-needed"@.len() == 22);
}

proof fn lemma_agent_6(node: Node, e: AgentView)
    ensures
        "agent.failed"@ != "issue-opened"@,
        compat::body_of("agent.failed"@, node) == match compat::agent_of(node) {
            Ok(e) => Ok::<EventBodyView, Seq<char>>(EventBodyView::AgentFailed(e)),
            Err(e) => Err(e),
        },
        body_for_agent("agent.failed"@, EventBodyView::AgentFailed(e), e),
{
    reveal_strlit("agent.failed");
    reveal_strlit("git.commit");
    reveal_strlit("git.branch-changed");
    reveal_strlit("github.issue-opened");
    reveal_strlit("github.issue-commented");
    reveal_strlit("github.issue-closed");
    reveal_strlit("github.pr-status-changed");
    reveal_strlit("github.ci-failed");
    reveal_strlit("tmux.keyword");
    reveal_strlit("tmux.stale");
    reveal_strlit("issue-opened");
    reveal_strlit("agent.started");
    reveal_strlit("session.started");
    reveal_strlit("agent.blocked");
    reveal_strlit("session.blocked");
    reveal_strlit("agent.finished");
    reveal_strlit("session.finished");
    reveal_strlit("session.failed");
    reveal_strlit("session.retry-needed");
    reveal_strlit("session.pr-created");
    reveal_strlit("session.test-started");
    reveal_strlit("session.test-finished");
    reveal_strlit("session.test-failed");
    reveal_strlit("session.handoff-needed");
    assert("agent.failed"@.len() == 12);
    assert("agent.failed"@[0] == 'a');
    assert("git.commit"@.len() == 10);
    assert("git.branch-changed"@.len() == 18);
    assert("github.issue-opened"@.len() == 19);
    assert("github.issue-commented"@.len() == 22);
    assert("github.issue-closed"@.len() == 19);
    assert("github.pr-status-changed"@.len() == 24);
    assert("github.ci-failed"@.len() == 16);
    assert("tmux.keyword"@.len() == 12);
    assert("tmux.keyword"@[0] == 't');
    assert("tmux.stale"@.len() == 10);
    assert("issue-opened"@.len() == 12);
    assert("issue-opened"@[0] == 'i');
    assert("agent.started"@.len() == 13);
    assert("session.started"@.len() == 15);
    assert("agent.blocked"@.len() == 13);
    assert("session.blocked"@.len() == 15);
    assert("agent.finished"@.len() == 14);
    assert("session.finished"@.len() == 16);
    assert("session.failed"@.len() == 14);
    assert("session.retry-needed"@.len() == 20);
    assert("session.pr-created"@.len() == 18);
    assert("session.test-started"@.len() == 20);
    assert("session.test-finished"@.len() == 21);
    assert("session.test-failed"@.len() == 19);
    assert("session.handoff-needed"@.len() == 22);
}

proof fn lemma_agent_7(node: Node, e: AgentView)
    ensures
        "session.failed"@ != "issue-opened"@,
        compat::body_of("session.failed"@, node) == match compat::agent_of(node) {
            Ok(e) => Ok::<EventBodyView, Seq<char>>(EventBodyView::AgentFailed(e)),
            Err(e) => Err(e),
        },
        body_for_agent("session.failed"@, EventBodyView::AgentFailed(e), e),
{
    reveal_strlit("session.failed");
    reveal_strlit("git.commit");
    reveal_strlit("git.branch-changed");
    reveal_strlit("github.issue-opened");
    reveal_strlit("github.issue-commented");
    reveal_strlit("github.issue-closed");
    reveal_strlit("github.pr-status-changed");
    reveal_strlit("github.ci-failed");
    reveal_strlit("tmux.keyword");
    reveal_strlit("tmux.stale");
    reveal_strlit("issue-opened");
    reveal_strlit("agent.started");
    reveal_strlit("session.started");
    reveal_strlit("agent.blocked");
    reveal_strlit("session.blocked");
    reveal_strlit("agent.finished");
    reveal_strlit("session.finished");
    reveal_strlit("agent.failed");
    reveal_strlit("session.retry-needed");
    reveal_strlit("session.pr-created");
    reveal_strlit("session.test-started");
    reveal_strlit("session.test-finished");
    reveal_strlit("session.test-failed");
    reveal_strlit("session.handoff-needed");
    assert("session.failed"@.len() == 14);
    assert("session.failed"@[0] == 's');
    assert("git.commit"@.len() == 10);
    assert("git.branch-changed"@.len() == 18);
    assert("github.issue-opened"@.len() == 19);
    assert("github.issue-commented"@.len() == 22);
    assert("github.issue-closed"@.len() == 19);
    assert("github.pr-status-changed"@.len() == 24);
    assert("github.ci-failed"@.len() == 16);
    assert("tmux.keyword"@.len() == 12);
    assert("tmux.stale"@.len() == 10);
    assert("issue-opened"@.len() == 12);
    assert("agent.started"@.len() == 13);
    assert("session.started"@.len() == 15);
    assert("agent.blocked"@.len() == 13);
    assert("session.blocked"@.len() == 15);
    assert("agent.finished"@.len() == 14);
    assert("agent.finished"@[0] == 'a');
    assert("session.finished"@.len() == 16);
    assert("agent.failed"@.len() == 12);
    assert("session.retry-needed"@.len() == 20);
    assert("session.pr-created"@.len() == 18);
    assert("session.test-started"@.len() == 20);
    assert("session.test-finished"@.len() == 21);
    assert("session.test-failed"@.len() == 19);
    assert("session.handoff-needed"@.len() == 22);
}

proof fn lemma_agent_8(node: Node, e: AgentView)
    ensures
        "session.retry-needed"@ != "issue-opened"@,
        compat::body_of("session.retry-needed"@, node) == match compat::agent_of(node) {
            Ok(e) => Ok::<EventBodyView, Seq<char>>(EventBodyView::AgentRetryNeeded(e)),
            Err(e) => Err(e),
        },
        body_for_agent("session.retry-needed"@, EventBodyView::AgentRetryNeeded(e), e),
{
    reveal_strlit("session.retry-needed");
    reveal_strlit("git.commit");
    reveal_strlit("git.branch-changed");
    reveal_strlit("github.issue-opened");
    reveal_strlit("github.issue-commented");
    reveal_strlit("github.issue-closed");
    reveal_strlit("github.pr-status-changed");
    reveal_strlit("github.ci-failed");
    reveal_strlit("tmux.keyword");
    reveal_strlit("tmux.stale");
    reveal_strlit("issue-opened");
    reveal_strlit("agent.started");
    reveal_strlit("session.started");
    reveal_strlit("agent.blocked");
    reveal_strlit("session.blocked");
    reveal_strlit("agent.finished");
    reveal_strlit("session.finished");
    reveal_strlit("agent.failed");
    reveal_strlit("session.failed");
    reveal_strlit("session.pr-created");
    reveal_strlit("session.test-started");
    reveal_strlit("session.test-finished");
    reveal_strlit("session.test-failed");
    reveal_strlit("session.handoff-needed");
    assert("session.retry-needed"@.len() == 20);
    assert("session.retry-needed"@[8] == 'r');
    assert("git.commit"@.len() == 10);
    assert("git.branch-changed"@.len() == 18);
    assert("github.issue-opened"@.len() == 19);
    assert("github.issue-commented"@.len() == 22);
    assert("github.issue-closed"@.len() == 19);
    assert("github.pr-status-changed"@.len() == 24);
    assert("github.ci-failed"@.len() == 16);
    assert("tmux.keyword"@.len() == 12);
    assert("tmux.stale"@.len() == 10);
    assert("issue-opened"@.len() == 12);
    assert("agent.started"@.len() == 13);
    assert("session.started"@.len() == 15);
    assert("agent.blocked"@.len() == 13);
    assert("session.blocked"@.len() == 15);
    assert("agent.finished"@.len() == 14);
    assert("session.finished"@.len() == 16);
    assert("agent.failed"@.len() == 12);
    assert("session.failed"@.len() == 14);
    assert("session.pr-created"@.len() == 18);
    assert("session.test-started"@.len() == 20);
    assert("session.test-started"@[8] == 't');
    assert("session.test-finished"@.len() == 21);
    assert("session.test-failed"@.len() == 19);
    assert("session.handoff-needed"@.len() == 22);
}

proof fn lemma_agent_9(node: Node, e: AgentView)
    ensures
        "session.pr-created"@ != "issue-opened"@,
        compat::body_of("session.pr-created"@, node) == match compat::agent_of(node) {
            Ok(e) => Ok::<EventBodyView, Seq<char>>(EventBodyView::AgentPRCreated(e)),
            Err(e) => Err(e),
        },
        body_for_agent("session.pr-created"@, EventBodyView::AgentPRCreated(e), e),
{
    reveal_strlit("session.pr-created");
    reveal_strlit("git.commit");
    reveal_strlit("git.branch-changed");
    reveal_strlit("github.issue-opened");
    reveal_strlit("github.issue-commented");
    reveal_strlit("github.issue-closed");
    reveal_strlit("github.pr-status-changed");
    reveal_strlit("github.ci-failed");
    reveal_strlit("tmux.keyword");
    reveal_strlit("tmux.stale");
    reveal_strlit("issue-opened");
    reveal_strlit("agent.started");
    reveal_strlit("session.started");
    reveal_strlit("agent.blocked");
    reveal_strlit("session.blocked");
    reveal_strlit("agent.finished");
    reveal_strlit("session.finished");
    reveal_strlit("agent.failed");
    reveal_strlit("session.failed");
    reveal_strlit("session.retry-needed");
    reveal_strlit("session.test-started");
    reveal_strlit("session.test-finished");
    reveal_strlit("session.test-failed");
    reveal_strlit("session.handoff-needed");
    assert("session.pr-created"@.len() == 18);
    assert("session.pr-created"@[0] == 's');
    assert("git.commit"@.len() == 10);
    assert("git.branch-changed"@.len() == 18);
    assert("git.branch-changed"@[0] == 'g');
    assert("github.issue-opened"@.len() == 19);
    assert("github.issue-commented"@.len() == 22);
    assert("github.issue-closed"@.len() == 19);
    assert("github.pr-status-changed"@.len() == 24);
    assert("github.ci-failed"@.len() == 16);
    assert("tmux.keyword"@.len() == 12);
    assert("tmux.stale"@.len() == 10);
    assert("issue-opened"@.len() == 12);
    assert("agent.started"@.len() == 13);
    assert("session.started"@.len() == 15);
    assert("agent.blocked"@.len() == 13);
    assert("session.blocked"@.len() == 15);
    assert("agent.finished"@.len() == 14);
    assert("session.finished"@.len() == 16);
    assert("agent.failed"@.len() == 12);
    assert("session.failed"@.len() == 14);
    assert("session.retry-needed"@.len() == 20);
    assert("session.test-started"@.len() == 20);
    assert("session.test-finished"@.len() == 21);
    assert("session.test-failed"@.len() == 19);
    assert("session.handoff-needed"@.len() == 22);
}

proof fn lemma_agent_10(node: Node, e: AgentView)
    ensures
        "session.test-started"@ != "issue-opened"@,
        compat::body_of("session.test-started"@, node) == match compat::agent_of(node) {
            Ok(e) => Ok::<EventBodyView, Seq<char>>(EventBodyView::AgentTestStarted(e)),
            Err(e) => Err(e),
        },
        body_for_agent("session.test-started"@, EventBodyView::AgentTestStarted(e), e),
{
    reveal_strlit("session.test-started");
    reveal_strlit("git.commit");
    reveal_strlit("git.branch-changed");
    reveal_strlit("github.issue-opened");
    reveal_strlit("github.issue-commented");
    reveal_strlit("github.issue-closed");
    reveal_strlit("github.pr-status-changed");
    reveal_strlit("github.ci-failed");
    reveal_strlit("tmux.keyword");
    reveal_strlit("tmux.stale");
    reveal_strlit("issue-opened");
    reveal_strlit("agent.started");
    reveal_strlit("session.started");
    reveal_strlit("agent.blocked");
    reveal_strlit("session.blocked");
    reveal_strlit("agent.finished");
    reveal_strlit("session.finished");
    reveal_strlit("agent.failed");
    reveal_strlit("session.failed");
    reveal_strlit("session.retry-needed");
    reveal_strlit("session.pr-created");
    reveal_strlit("session.test-finished");
    reveal_strlit("session.test-failed");
    reveal_strlit("session.handoff-needed");
    assert("session.test-started"@.len() == 20);
    assert("session.test-started"@[8] == 't');
    assert("git.commit"@.len() == 10);
    assert("git.branch-changed"@.len() == 18);
    assert("github.issue-opened"@.len() == 19);
    assert("github.issue-commented"@.len() == 22);
    assert("github.issue-closed"@.len() == 19);
    assert("github.pr-status-changed"@.len() == 24);
    assert("github.ci-failed"@.len() == 16);
    assert("tmux.keyword"@.len() == 12);
    assert("tmux.stale"@.len() == 10);
    assert("issue-opened"@.len() == 12);
    assert("agent.started"@.len() == 13);
    assert("session.started"@.len() == 15);
    assert("agent.blocked"@.len() == 13);
    assert("session.blocked"@.len() == 15);
    assert("agent.finished"@.len() == 14);
    assert("session.finished"@.len() == 16);
    assert("agent.failed"@.len() == 12);
    assert("session.failed"@.len() == 14);
    assert("session.retry-needed"@.len() == 20);
    assert("session.retry-needed"@[8] == 'r');
    assert("session.pr-created"@.len() == 18);
    assert("session.test-finished"@.len() == 21);
    assert("session.test-failed"@.len() == 19);
    assert("session.handoff-needed"@.len() == 22);
}

proof fn lemma_agent_11(node: Node, e: AgentView)
    ensures
        "session.test-finished"@ != "issue-opened"@,
        compat::body_of("session.test-finished"@, node) == match compat::agent_of(node) {
            Ok(e) => Ok::<EventBodyView, Seq<char>>(EventBodyView::AgentTestFinished(e)),
            Err(e) => Err(e),
        },
        body_for_agent("session.test-finished"@, EventBodyView::AgentTestFinished(e), e),
{
    reveal_strlit("session.test-finished");
    reveal_strlit("git.commit");
    reveal_strlit("git.branch-changed");
    reveal_strlit("github.issue-opened");
    reveal_strlit("github.issue-commented");
    reveal_strlit("github.issue-closed");
    reveal_strlit("github.pr-status-changed");
    reveal_strlit("github.ci-failed");
    reveal_strlit("tmux.keyword");
    reveal_strlit("tmux.stale");
    reveal_strlit("issue-opened");
    reveal_strlit("agent.started");
    reveal_strlit("session.started");
    reveal_strlit("agent.blocked");
    reveal_strlit("session.blocked");
    reveal_strlit("agent.finished");
    reveal_strlit("session.finished");
    reveal_strlit("agent.failed");
    reveal_strlit("session.failed");
    reveal_strlit("session.retry-needed");
    reveal_strlit("session.pr-created");
    reveal_strlit("session.test-started");
    reveal_strlit("session.test-failed");
    reveal_strlit("session.handoff-needed");
    assert("session.test-finished"@.len() == 21);
    assert("git.commit"@.len() == 10);
    assert("git.branch-changed"@.len() == 18);
    assert("github.issue-opened"@.len() == 19);
    assert("github.issue-commented"@.len() == 22);
    assert("github.issue-closed"@.len() == 19);
    assert("github.pr-status-changed"@.len() == 24);
    assert("github.ci-failed"@.len() == 16);
    assert("tmux.keyword"@.len() == 12);
    assert("tmux.stale"@.len() == 10);
    assert("issue-opened"@.len() == 12);
    assert("agent.started"@.len() == 13);
    assert("session.started"@.len() == 15);
    assert("agent.blocked"@.len() == 13);
    assert("session.blocked"@.len() == 15);
    assert("agent.finished"@.len() == 14);
    assert("session.finished"@.len() == 16);
    assert("agent.failed"@.len() == 12);
    assert("session.failed"@.len() == 14);
    assert("session.retry-needed"@.len() == 20);
    assert("session.pr-created"@.len() == 18);
    assert("session.test-started"@.len() == 20);
    assert("session.test-failed"@.len() == 19);
    assert("session.handoff-needed"@.len() == 22);
}

proof fn lemma_agent_12(node: Node, e: AgentView)
    ensures
        "session.test-failed"@ != "issue-opened"@,
        compat::body_of("session.test-failed"@, node) == match compat::agent_of(node) {
            Ok(e) => Ok::<EventBodyView, Seq<char>>(EventBodyView::AgentTestFailed(e)),
            Err(e) => Err(e),
        },
        body_for_agent("session.test-failed"@, EventBodyView::AgentTestFailed(e), e),
{
    reveal_strlit("session.test-failed");
    reveal_strlit("git.commit");
    reveal_strlit("git.branch-changed");
    reveal_strlit("github.issue-opened");
    reveal_strlit("github.issue-commented");
    reveal_strlit("github.issue-closed");
    reveal_strlit("github.pr-status-changed");
    reveal_strlit("github.ci-failed");
    reveal_strlit("tmux.keyword");
    reveal_strlit("tmux.stale");
    reveal_strlit("issue-opened");
    reveal_strlit("agent.started");
    reveal_strlit("session.started");
    reveal_strlit("agent.blocked");
    reveal_strlit("session.blocked");
    reveal_strlit("agent.finished");
    reveal_strlit("session.finished");
    reveal_strlit("agent.failed");
    reveal_strlit("session.failed");
    reveal_strlit("session.retry-needed");
    reveal_strlit("session.pr-created");
    reveal_strlit("session.test-started");
    reveal_strlit("session.test-finished");
    reveal_strlit("session.handoff-needed");
    assert("session.test-failed"@.len() == 19);
    assert("session.test-failed"@[0] == 's');
    assert("git.commit"@.len() == 10);
    assert("git.branch-changed"@.len() == 18);
    assert("github.issue-opened"@.len() == 19);
    assert("github.issue-opened"@[0] == 'g');
    assert("github.issue-commented"@.len() == 22);
    assert("github.issue-closed"@.len() == 19);
    assert("github.issue-closed"@[0] == 'g');
    assert("github.pr-status-changed"@.len() == 24);
    assert("github.ci-failed"@.len() == 16);
    assert("tmux.keyword"@.len() == 12);
    assert("tmux.stale"@.len() == 10);
    assert("issue-opened"@.len() == 12);
    assert("agent.started"@.len() == 13);
    assert("session.started"@.len() == 15);
    assert("agent.blocked"@.len() == 13);
    assert("session.blocked"@.len() == 15);
    assert("agent.finished"@.len() == 14);
    assert("session.finished"@.len() == 16);
    assert("agent.failed"@.len() == 12);
    assert("session.failed"@.len() == 14);
    assert("session.retry-needed"@.len() == 20);
    assert("session.pr-created"@.len() == 18);
    assert("session.test-started"@.len() == 20);
    assert("session.test-finished"@.len() == 21);
    assert("session.handoff-needed"@.len() == 22);
}

proof fn lemma_agent_13(node: Node, e: AgentView)
    ensures
        "session.handoff-needed"@ != "issue-opened"@,
        compat::body_of("session.handoff-needed"@, node) == match compat::agent_of(node) {
            Ok(e) => Ok::<EventBodyView, Seq<char>>(EventBodyView::AgentHandoffNeeded(e)),
            Err(e) => Err(e),
        },
        body_for_agent("session.handoff-needed"@, EventBodyView::AgentHandoffNeeded(e), e),
{
    reveal_strlit("session.handoff-needed");
    reveal_strlit("git.commit");
    reveal_strlit("git.branch-changed");
    reveal_strlit("github.issue-opened");
    reveal_strlit("github.issue-commented");
    reveal_strlit("github.issue-closed");
    reveal_strlit("github.pr-status-changed");
    reveal_strlit("github.ci-failed");
    reveal_strlit("tmux.keyword");
    reveal_strlit("tmux.stale");
    reveal_strlit("issue-opened");
    reveal_strlit("agent.started");
    reveal_strlit("session.started");
    reveal_strlit("agent.blocked");
    reveal_strlit("session.blocked");
    reveal_strlit("agent.finished");
    reveal_strlit("session.finished");
    reveal_strlit("agent.failed");
    reveal_strlit("session.failed");
    reveal_strlit("session.retry-needed");
    reveal_strlit("session.pr-created");
    reveal_strlit("session.test-started");
    reveal_strlit("session.test-finished");
    reveal_strlit("session.test-failed");
    assert("session.handoff-needed"@.len() == 22);
    assert("session.handoff-needed"@[0] == 's');
    assert("git.commit"@.len() == 10);
    assert("git.branch-changed"@.len() == 18);
    assert("github.issue-opened"@.len() == 19);
    assert("github.issue-commented"@.len() == 22);
    assert("github.issue-commented"@[0] == 'g');
    assert("github.issue-closed"@.len() == 19);
    assert("github.pr-status-changed"@.len() == 24);
    assert("github.ci-failed"@.len() == 16);
    assert("tmux.keyword"@.len() == 12);
    assert("tmux.stale"@.len() == 10);
    assert("issue-opened"@.len() == 12);
    assert("agent.started"@.len() == 13);
    assert("session.started"@.len() == 15);
    assert("agent.blocked"@.len() == 13);
    assert("session.blocked"@.len() == 15);
    assert("agent.finished"@.len() == 14);
    assert("session.finished"@.len() == 16);
    assert("agent.failed"@.len() == 12);
    assert("session.failed"@.len() == 14);
    assert("session.retry-needed"@.len() == 20);
    assert("session.pr-created"@.len() == 18);
    assert("session.test-started"@.len() == 20);
    assert("session.test-finished"@.len() == 21);
    assert("session.test-failed"@.len() == 19);
}

/// An event of an agent or a session is told as what its kind says, with what the payload
/// says of the agent; its name and its status have to be there.
pub proof fn law_agent_is_told(event: EventView, id: Seq<char>, now: Seq<char>)
    requires
        event.kind == "agent.started"@
            || event.kind == "session.started"@
            || event.kind == "agent.blocked"@
            || event.kind == "session.blocked"@
            || event.kind == "agent.finished"@
            || event.kind == "session.finished"@
            || event.kind == "agent.failed"@
            || event.kind == "session.failed"@
            || event.kind == "session.retry-needed"@
            || event.kind == "session.pr-created"@
            || event.kind == "session.test-started"@
            || event.kind == "session.test-finished"@
            || event.kind == "session.test-failed"@
            || event.kind == "session.handoff-needed"@,
    ensures
        ({
            let p = event.payload;
            match compat::envelope_of(event, id, now) {
                Ok(envelope) => exists|e: AgentView|
                    #[trigger] agent_says(p, e) && body_for_agent(event.kind, envelope.body, e),
                Err(e) => {
                    ||| json::field(p, "agent_name"@) is None && no_text("agent_name"@) == Err::<
                        EventBodyView,
                        Seq<char>,
                    >(e)
                    ||| json::field(p, "agent_name"@) is Some && json::field(p, "status"@) is None
                        && no_text("status"@) == Err::<EventBodyView, Seq<char>>(e)
                },
            }
        }),
{
    let p = event.payload;
    let told = match compat::agent_of(p) {
        Ok(e) => e,
        Err(_) => arbitrary(),
    };
    if compat::agent_of(p) is Ok {
        assert(agent_says(p, told));
    }
    if event.kind == "agent.started"@ {
        lemma_agent_0(p, told);
    }
    if event.kind == "session.started"@ {
        lemma_agent_1(p, told);
    }
    if event.kind == "agent.blocked"@ {
        lemma_agent_2(p, told);
    }
    if event.kind == "session.blocked"@ {
        lemma_agent_3(p, told);
    }
    if event.kind == "agent.finished"@ {
        lemma_agent_4(p, told);
    }
    if event.kind == "session.finished"@ {
        lemma_agent_5(p, told);
    }
    if event.kind == "agent.failed"@ {
        lemma_agent_6(p, told);
    }
    if event.kind == "session.failed"@ {
        lemma_agent_7(p, told);
    }
    if event.kind == "session.retry-needed"@ {
        lemma_agent_8(p, told);
    }
    if event.kind == "session.pr-created"@ {
        lemma_agent_9(p, told);
    }
    if event.kind == "session.test-started"@ {
        lemma_agent_10(p, told);
    }
    if event.kind == "session.test-finished"@ {
        lemma_agent_11(p, told);
    }
    if event.kind == "session.test-failed"@ {
        lemma_agent_12(p, told);
    }
    if event.kind == "session.handoff-needed"@ {
        lemma_agent_13(p, told);
    }
    match compat::envelope_of(event, id, now) {
        Ok(envelope) => {
            assert(agent_says(p, told) && body_for_agent(event.kind, envelope.body, told));
        },
        Err(_) => {},
    }
}

/// The keys of some members that tell of a change, in their order.
pub open spec fn keys_of_changes(m: Seq<(Seq<char>, Node)>) -> Seq<Seq<char>> {
    m.map_values(|e: (Seq<char>, Node)| e.0).filter(
        |key: Seq<char>|
            key != "tool"@
                && key != "workspace_root"@
                && key != "workspace_name"@
                && key != "monitor_path"@
                && key != "state_family"@
                && key != "state_dir"@
                && key != "state_file"@
                && key != "summary"@
                && key != "contract_event"@
                && key != "event_id"@
                && key != "correlation_id"@
                && key != "first_seen_at"@
                && key != "source"@
                && key != "route_key"@,
    )
}

proof fn lemma_changed_keys(m: Seq<(Seq<char>, Node)>)
    ensures
        compat::changed_keys(m) == keys_of_changes(m),
    decreases m.len(),
{
    reveal(Seq::filter);
    let keys = m.map_values(|e: (Seq<char>, Node)| e.0);
    if m.len() > 0 {
        let front = m.drop_last();
        lemma_changed_keys(front);
        assert(keys.drop_last() =~= front.map_values(|e: (Seq<char>, Node)| e.0));
        assert(keys.last() == m.last().0);
    } else {
        assert(compat::changed_keys(m) =~= keys_of_changes(m));
    }
}

/// What an event of a workspace says of it.
pub open spec fn workspace_says(p: Node, e: WorkspaceView) -> bool {
    &&& first_of(
        json::field(p, "workspace_root"@),
        first_of(json::field(p, "monitor_path"@), json::field(p, "workspace_name"@)),
    ) == Some(e.workspace_path)
    &&& first_of(
        json::field(p, "tool"@),
        first_of(json::field(p, "state_family"@), Some("workspace"@)),
    ) == Some(e.source_tool)
    &&& first_of(
        json::field(p, "state_file"@),
        first_of(json::field(p, "contract_event"@), Some("workspace-state"@)),
    ) == Some(e.state_file)
    &&& e.session_name == first_of(json::field(p, "session_name"@), json::field(p, "session_id"@))
    &&& e.summary == json::field(p, "summary"@)
    &&& match p {
        Node::Object(m) => e.diff_fields == keys_of_changes(m),
        _ => e.diff_fields.len() == 0,
    }
}

/// The body of an event of a workspace, for each kind of it.
pub open spec fn body_for_workspace(kind: Seq<char>, body: EventBodyView, e: WorkspaceView) -> bool {
    &&& kind == "workspace.session.started"@ ==> body == EventBodyView::WorkspaceSessionStarted(e)
    &&& kind == "workspace.session.ended"@ ==> body == EventBodyView::WorkspaceSessionStarted(e)
    &&& kind == "workspace.turn.complete"@ ==> body == EventBodyView::WorkspaceTurnComplete(e)
    &&& kind == "workspace.agent.turn"@ ==> body == EventBodyView::WorkspaceTurnComplete(e)
    &&& kind == "workspace.mission.updated"@ ==> body == EventBodyView::WorkspaceTurnComplete(e)
    &&& kind == "workspace.skill.activated"@ ==> body == EventBodyView::WorkspaceSkillActivated(e)
    &&& kind == "workspace.skill.deactivated"@ ==> body == EventBodyView::WorkspaceSkillActivated(e)
    &&& kind == "workspace.skill.phase-changed"@ ==> body == EventBodyView::WorkspaceSkillActivated(
        e,
    )
    &&& kind == "workspace.session.blocked"@ ==> body == EventBodyView::WorkspaceSessionBlocked(e)
    &&& kind == "workspace.session.checkpointed"@ ==> body == EventBodyView::WorkspaceSessionBlocked(
        e,
    )
    &&& kind == "workspace.team.nudged"@ ==> body == EventBodyView::WorkspaceSessionBlocked(e)
    &&& kind == "workspace.team.updated"@ ==> body == EventBodyView::WorkspaceSessionBlocked(e)
    &&& kind == "workspace.tmux.injection"@ ==> body == EventBodyView::WorkspaceSessionBlocked(e)
    &&& kind == "workspace.metrics.updated"@ ==> body == EventBodyView::WorkspaceMetricsUpdate(e)
}

proof fn lemma_workspace_0(node: Node, e: WorkspaceView)
    ensures
        "workspace.session.started"@ != "issue-opened"@,
        compat::body_of("workspace.session.started"@, node) == match compat::workspace_of(node) {
            Ok(e) => Ok::<EventBodyView, Seq<char>>(EventBodyView::WorkspaceSessionStarted(e)),
            Err(e) => Err(e),
        },
        body_for_workspace(
            "workspace.session.started"@,
            EventBodyView::WorkspaceSessionStarted(e),
            e,
        ),
{
    reveal_strlit("workspace.session.started");
    reveal_strlit("git.commit");
    reveal_strlit("git.branch-changed");
    reveal_strlit("github.issue-opened");
    reveal_strlit("github.issue-commented");
    reveal_strlit("github.issue-closed");
    reveal_strlit("github.pr-status-changed");
    reveal_strlit("github.ci-failed");
    reveal_strlit("tmux.keyword");
    reveal_strlit("tmux.stale");
    reveal_strlit("issue-opened");
    reveal_strlit("agent.started");
    reveal_strlit("session.started");
    reveal_strlit("agent.blocked");
    reveal_strlit("session.blocked");
    reveal_strlit("agent.finished");
    reveal_strlit("session.finished");
    reveal_strlit("agent.failed");
    reveal_strlit("session.failed");
    reveal_strlit("session.retry-needed");
    reveal_strlit("session.pr-created");
    reveal_strlit("session.test-started");
    reveal_strlit("session.test-finished");
    reveal_strlit("session.test-failed");
    reveal_strlit("session.handoff-needed");
    reveal_strlit("workspace.session.ended");
    reveal_strlit("workspace.turn.complete");
    reveal_strlit("workspace.agent.turn");
    reveal_strlit("workspace.mission.updated");
    reveal_strlit("workspace.skill.activated");
    reveal_strlit("workspace.skill.deactivated");
    reveal_strlit("workspace.skill.phase-changed");
    reveal_strlit("workspace.session.blocked");
    reveal_strlit("workspace.session.checkpointed");
    reveal_strlit("workspace.team.nudged");
    reveal_strlit("workspace.team.updated");
    reveal_strlit("workspace.tmux.injection");
    reveal_strlit("workspace.metrics.updated");
    assert("workspace.session.started"@.len() == 25);
    assert("workspace.session.started"@[10] == 's');
    assert("workspace.session.started"@[11] == 'e');
    assert("workspace.session.started"@[18] == 's');
    assert("git.commit"@.len() == 10);
    assert("git.branch-changed"@.len() == 18);
    assert("github.issue-opened"@.len() == 19);
    assert("github.issue-commented"@.len() == 22);
    assert("github.issue-closed"@.len() == 19);
    assert("github.pr-status-changed"@.len() == 24);
    assert("github.ci-failed"@.len() == 16);
    assert("tmux.keyword"@.len() == 12);
    assert("tmux.stale"@.len() == 10);
    assert("issue-opened"@.len() == 12);
    assert("agent.started"@.len() == 13);
    assert("session.started"@.len() == 15);
    assert("agent.blocked"@.len() == 13);
    assert("session.blocked"@.len() == 15);
    assert("agent.finished"@.len() == 14);
    assert("session.finished"@.len() == 16);
    assert("agent.failed"@.len() == 12);
    assert("session.failed"@.len() == 14);
    assert("session.retry-needed"@.len() == 20);
    assert("session.pr-created"@.len() == 18);
    assert("session.test-started"@.len() == 20);
    assert("session.test-finished"@.len() == 21);
    assert("session.test-failed"@.len() == 19);
    assert("session.handoff-needed"@.len() == 22);
    assert("workspace.session.ended"@.len() == 23);
    assert("workspace.turn.complete"@.len() == 23);
    assert("workspace.agent.turn"@.len() == 20);
    assert("workspace.mission.updated"@.len() == 25);
    assert("workspace.mission.updated"@[10] == 'm');
    assert("workspace.skill.activated"@.len() == 25);
    assert("workspace.skill.activated"@[11] == 'k');
    assert("workspace.skill.deactivated"@.len() == 27);
    assert("workspace.skill.phase-changed"@.len() == 29);
    assert("workspace.session.blocked"@.len() == 25);
    assert("workspace.session.blocked"@[18] == 'b');
    assert("workspace.session.checkpointed"@.len() == 30);
    assert("workspace.team.nudged"@.len() == 21);
    assert("workspace.team.updated"@.len() == 22);
    assert("workspace.tmux.injection"@.len() == 24);
    assert("workspace.metrics.updated"@.len() == 25);
    assert("workspace.metrics.updated"@[10] == 'm');
}

proof fn lemma_workspace_1(node: Node, e: WorkspaceView)
    ensures
        "workspace.session.ended"@ != "issue-opened"@,
        compat::body_of("workspace.session.ended"@, node) == match compat::workspace_of(node) {
            Ok(e) => Ok::<EventBodyView, Seq<char>>(EventBodyView::WorkspaceSessionStarted(e)),
            Err(e) => Err(e),
        },
        body_for_workspace(
            "workspace.session.ended"@,
            EventBodyView::WorkspaceSessionStarted(e),
            e,
        ),
{
    reveal_strlit("workspace.session.ended");
    reveal_strlit("git.commit");
    reveal_strlit("git.branch-changed");
    reveal_strlit("github.issue-opened");
    reveal_strlit("github.issue-commented");
    reveal_strlit("github.issue-closed");
    reveal_strlit("github.pr-status-changed");
    reveal_strlit("github.ci-failed");
    reveal_strlit("tmux.keyword");
    reveal_strlit("tmux.stale");
    reveal_strlit("issue-opened");
    reveal_strlit("agent.started");
    reveal_strlit("session.started");
    reveal_strlit("agent.blocked");
    reveal_strlit("session.blocked");
    reveal_strlit("agent.finished");
    reveal_strlit("session.finished");
    reveal_strlit("agent.failed");
    reveal_strlit("session.failed");
    reveal_strlit("session.retry-needed");
    reveal_strlit("session.pr-created");
    reveal_strlit("session.test-started");
    reveal_strlit("session.test-finished");
    reveal_strlit("session.test-failed");
    reveal_strlit("session.handoff-needed");
    reveal_strlit("workspace.session.started");
    reveal_strlit("workspace.turn.complete");
    reveal_strlit("workspace.agent.turn");
    reveal_strlit("workspace.mission.updated");
    reveal_strlit("workspace.skill.activated");
    reveal_strlit("workspace.skill.deactivated");
    reveal_strlit("workspace.skill.phase-changed");
    reveal_strlit("workspace.session.blocked");
    reveal_strlit("workspace.session.checkpointed");
    reveal_strlit("workspace.team.nudged");
    reveal_strlit("workspace.team.updated");
    reveal_strlit("workspace.tmux.injection");
    reveal_strlit("workspace.metrics.updated");
    assert("workspace.session.ended"@.len() == 23);
    assert("workspace.session.ended"@[10] == 's');
    assert("git.commit"@.len() == 10);
    assert("git.branch-changed"@.len() == 18);
    assert("github.issue-opened"@.len() == 19);
    assert("github.issue-commented"@.len() == 22);
    assert("github.issue-closed"@.len() == 19);
    assert("github.pr-status-changed"@.len() == 24);
    assert("github.ci-failed"@.len() == 16);
    assert("tmux.keyword"@.len() == 12);
    assert("tmux.stale"@.len() == 10);
    assert("issue-opened"@.len() == 12);
    assert("agent.started"@.len() == 13);
    assert("session.started"@.len() == 15);
    assert("agent.blocked"@.len() == 13);
    assert("session.blocked"@.len() == 15);
    assert("agent.finished"@.len() == 14);
    assert("session.finished"@.len() == 16);
    assert("agent.failed"@.len() == 12);
    assert("session.failed"@.len() == 14);
    assert("session.retry-needed"@.len() == 20);
    assert("session.pr-created"@.len() == 18);
    assert("session.test-started"@.len() == 20);
    assert("session.test-finished"@.len() == 21);
    assert("session.test-failed"@.len() == 19);
    assert("session.handoff-needed"@.len() == 22);
    assert("workspace.session.started"@.len() == 25);
    assert("workspace.turn.complete"@.len() == 23);
    assert("workspace.turn.complete"@[10] == 't');
    assert("workspace.agent.turn"@.len() == 20);
    assert("workspace.mission.updated"@.len() == 25);
    assert("workspace.skill.activated"@.len() == 25);
    assert("workspace.skill.deactivated"@.len() == 27);
    assert("workspace.skill.phase-changed"@.len() == 29);
    assert("workspace.session.blocked"@.len() == 25);
    assert("workspace.session.checkpointed"@.len() == 30);
    assert("workspace.team.nudged"@.len() == 21);
    assert("workspace.team.updated"@.len() == 22);
    assert("workspace.tmux.injection"@.len() == 24);
    assert("workspace.metrics.updated"@.len() == 25);
}

proof fn lemma_workspace_2(node: Node, e: WorkspaceView)
    ensures
        "workspace.turn.complete"@ != "issue-opened"@,
        compat::body_of("workspace.turn.complete"@, node) == match compat::workspace_of(node) {
            Ok(e) => Ok::<EventBodyView, Seq<char>>(EventBodyView::WorkspaceTurnComplete(e)),
            Err(e) => Err(e),
        },
        body_for_workspace("workspace.turn.complete"@, EventBodyView::WorkspaceTurnComplete(e), e),
{
    reveal_strlit("workspace.turn.complete");
    reveal_strlit("git.commit");
    reveal_strlit("git.branch-changed");
    reveal_strlit("github.issue-opened");
    reveal_strlit("github.issue-commented");
    reveal_strlit("github.issue-closed");
    reveal_strlit("github.pr-status-changed");
    reveal_strlit("github.ci-failed");
    reveal_strlit("tmux.keyword");
    reveal_strlit("tmux.stale");
    reveal_strlit("issue-opened");
    reveal_strlit("agent.started");
    reveal_strlit("session.started");
    reveal_strlit("agent.blocked");
    reveal_strlit("session.blocked");
    reveal_strlit("agent.finished");
    reveal_strlit("session.finished");
    reveal_strlit("agent.failed");
    reveal_strlit("session.failed");
    reveal_strlit("session.retry-needed");
    reveal_strlit("session.pr-created");
    reveal_strlit("session.test-started");
    reveal_strlit("session.test-finished");
    reveal_strlit("session.test-failed");
    reveal_strlit("session.handoff-needed");
    reveal_strlit("workspace.session.started");
    reveal_strlit("workspace.session.ended");
    reveal_strlit("workspace.agent.turn");
    reveal_strlit("workspace.mission.updated");
    reveal_strlit("workspace.skill.activated");
    reveal_strlit("workspace.skill.deactivated");
    reveal_strlit("workspace.skill.phase-changed");
    reveal_strlit("workspace.session.blocked");
    reveal_strlit("workspace.session.checkpointed");
    reveal_strlit("workspace.team.nudged");
    reveal_strlit("workspace.team.updated");
    reveal_strlit("workspace.tmux.injection");
    reveal_strlit("workspace.metrics.updated");
    assert("workspace.turn.complete"@.len() == 23);
    assert("workspace.turn.complete"@[10] == 't');
    assert("git.commit"@.len() == 10);
    assert("git.branch-changed"@.len() == 18);
    assert("github.issue-opened"@.len() == 19);
    assert("github.issue-commented"@.len() == 22);
    assert("github.issue-closed"@.len() == 19);
    assert("github.pr-status-changed"@.len() == 24);
    assert("github.ci-failed"@.len() == 16);
    assert("tmux.keyword"@.len() == 12);
    assert("tmux.stale"@.len() == 10);
    assert("issue-opened"@.len() == 12);
    assert("agent.started"@.len() == 13);
    assert("session.started"@.len() == 15);
    assert("agent.blocked"@.len() == 13);
    assert("session.blocked"@.len() == 15);
    assert("agent.finished"@.len() == 14);
    assert("session.finished"@.len() == 16);
    assert("agent.failed"@.len() == 12);
    assert("session.failed"@.len() == 14);
    assert("session.retry-needed"@.len() == 20);
    assert("session.pr-created"@.len() == 18);
    assert("session.test-started"@.len() == 20);
    assert("session.test-finished"@.len() == 21);
    assert("session.test-failed"@.len() == 19);
    assert("session.handoff-needed"@.len() == 22);
    assert("workspace.session.started"@.len() == 25);
    assert("workspace.session.ended"@.len() == 23);
    assert("workspace.session.ended"@[10] == 's');
    assert("workspace.agent.turn"@.len() == 20);
    assert("workspace.mission.updated"@.len() == 25);
    assert("workspace.skill.activated"@.len() == 25);
    assert("workspace.skill.deactivated"@.len() == 27);
    assert("workspace.skill.phase-changed"@.len() == 29);
    assert("workspace.session.blocked"@.len() == 25);
    assert("workspace.session.checkpointed"@.len() == 30);
    assert("workspace.team.nudged"@.len() == 21);
    assert("workspace.team.updated"@.len() == 22);
    assert("workspace.tmux.injection"@.len() == 24);
    assert("workspace.metrics.updated"@.len() == 25);
}

proof fn lemma_workspace_3(node: Node, e: WorkspaceView)
    ensures
        "workspace.agent.turn"@ != "issue-opened"@,
        compat::body_of("workspace.agent.turn"@, node) == match compat::workspace_of(node) {
            Ok(e) => Ok::<EventBodyView, Seq<char>>(EventBodyView::WorkspaceTurnComplete(e)),
            Err(e) => Err(e),
        },
        body_for_workspace("workspace.agent.turn"@, EventBodyView::WorkspaceTurnComplete(e), e),
{
    reveal_strlit("workspace.agent.turn");
    reveal_strlit("git.commit");
    reveal_strlit("git.branch-changed");
    reveal_strlit("github.issue-opened");
    reveal_strlit("github.issue-commented");
    reveal_strlit("github.issue-closed");
    reveal_strlit("github.pr-status-changed");
    reveal_strlit("github.ci-failed");
    reveal_strlit("tmux.keyword");
    reveal_strlit("tmux.stale");
    reveal_strlit("issue-opened");
    reveal_strlit("agent.started");
    reveal_strlit("session.started");
    reveal_strlit("agent.blocked");
    reveal_strlit("session.blocked");
    reveal_strlit("agent.finished");
    reveal_strlit("session.finished");
    reveal_strlit("agent.failed");
    reveal_strlit("session.failed");
    reveal_strlit("session.retry-needed");
    reveal_strlit("session.pr-created");
    reveal_strlit("session.test-started");
    reveal_strlit("session.test-finished");
    reveal_strlit("session.test-failed");
    reveal_strlit("session.handoff-needed");
    reveal_strlit("workspace.session.started");
    reveal_strlit("workspace.session.ended");
    reveal_strlit("workspace.turn.complete");
    reveal_strlit("workspace.mission.updated");
    reveal_strlit("workspace.skill.activated");
    reveal_strlit("workspace.skill.deactivated");
    reveal_strlit("workspace.skill.phase-changed");
    reveal_strlit("workspace.session.blocked");
    reveal_strlit("workspace.session.checkpointed");
    reveal_strlit("workspace.team.nudged");
    reveal_strlit("workspace.team.updated");
    reveal_strlit("workspace.tmux.injection");
    reveal_strlit("workspace.metrics.updated");
    assert("workspace.agent.turn"@.len() == 20);
    assert("workspace.agent.turn"@[0] == 'w');
    assert("git.commit"@.len() == 10);
    assert("git.branch-changed"@.len() == 18);
    assert("github.issue-opened"@.len() == 19);
    assert("github.issue-commented"@.len() == 22);
    assert("github.issue-closed"@.len() == 19);
    assert("github.pr-status-changed"@.len() == 24);
    assert("github.ci-failed"@.len() == 16);
    assert("tmux.keyword"@.len() == 12);
    assert("tmux.stale"@.len() == 10);
    assert("issue-opened"@.len() == 12);
    assert("agent.started"@.len() == 13);
    assert("session.started"@.len() == 15);
    assert("agent.blocked"@.len() == 13);
    assert("session.blocked"@.len() == 15);
    assert("agent.finished"@.len() == 14);
    assert("session.finished"@.len() == 16);
    assert("agent.failed"@.len() == 12);
    assert("session.failed"@.len() == 14);
    assert("session.retry-needed"@.len() == 20);
    assert("session.retry-needed"@[0] == 's');
    assert("session.pr-created"@.len() == 18);
    assert("session.test-started"@.len() == 20);
    assert("session.test-started"@[0] == 's');
    assert("session.test-finished"@.len() == 21);
    assert("session.test-failed"@.len() == 19);
    assert("session.handoff-needed"@.len() == 22);
    assert("workspace.session.started"@.len() == 25);
    assert("workspace.session.ended"@.len() == 23);
    assert("workspace.turn.complete"@.len() == 23);
    assert("workspace.mission.updated"@.len() == 25);
    assert("workspace.skill.activated"@.len() == 25);
    assert("workspace.skill.deactivated"@.len() == 27);
    assert("workspace.skill.phase-changed"@.len() == 29);
    assert("workspace.session.blocked"@.len() == 25);
    assert("workspace.session.checkpointed"@.len() == 30);
    assert("workspace.team.nudged"@.len() == 21);
    assert("workspace.team.updated"@.len() == 22);
    assert("workspace.tmux.injection"@.len() == 24);
    assert("workspace.metrics.updated"@.len() == 25);
}

proof fn lemma_workspace_4(node: Node, e: WorkspaceView)
    ensures
        "workspace.mission.updated"@ != "issue-opened"@,
        compat::body_of("workspace.mission.updated"@, node) == match compat::workspace_of(node) {
            Ok(e) => Ok::<EventBodyView, Seq<char>>(EventBodyView::WorkspaceTurnComplete(e)),
            Err(e) => Err(e),
        },
        body_for_workspace(
            "workspace.mission.updated"@,
            EventBodyView::WorkspaceTurnComplete(e),
            e,
        ),
{
    reveal_strlit("workspace.mission.updated");
    reveal_strlit("git.commit");
    reveal_strlit("git.branch-changed");
    reveal_strlit("github.issue-opened");
    reveal_strlit("github.issue-commented");
    reveal_strlit("github.issue-closed");
    reveal_strlit("github.pr-status-changed");
    reveal_strlit("github.ci-failed");
    reveal_strlit("tmux.keyword");
    reveal_strlit("tmux.stale");
    reveal_strlit("issue-opened");
    reveal_strlit("agent.started");
    reveal_strlit("session.started");
    reveal_strlit("agent.blocked");
    reveal_strlit("session.blocked");
    reveal_strlit("agent.finished");
    reveal_strlit("session.finished");
    reveal_strlit("agent.failed");
    reveal_strlit("session.failed");
    reveal_strlit("session.retry-needed");
    reveal_strlit("session.pr-created");
    reveal_strlit("session.test-started");
    reveal_strlit("session.test-finished");
    reveal_strlit("session.test-failed");
    reveal_strlit("session.handoff-needed");
    reveal_strlit("workspace.session.started");
    reveal_strlit("workspace.session.ended");
    reveal_strlit("workspace.turn.complete");
    reveal_strlit("workspace.agent.turn");
    reveal_strlit("workspace.skill.activated");
    reveal_strlit("workspace.skill.deactivated");
    reveal_strlit("workspace.skill.phase-changed");
    reveal_strlit("workspace.session.blocked");
    reveal_strlit("workspace.session.checkpointed");
    reveal_strlit("workspace.team.nudged");
    reveal_strlit("workspace.team.updated");
    reveal_strlit("workspace.tmux.injection");
    reveal_strlit("workspace.metrics.updated");
    assert("workspace.mission.updated"@.len() == 25);
    assert("workspace.mission.updated"@[10] == 'm');
    assert("workspace.mission.updated"@[11] == 'i');
    assert("git.commit"@.len() == 10);
    assert("git.branch-changed"@.len() == 18);
    assert("github.issue-opened"@.len() == 19);
    assert("github.issue-commented"@.len() == 22);
    assert("github.issue-closed"@.len() == 19);
    assert("github.pr-status-changed"@.len() == 24);
    assert("github.ci-failed"@.len() == 16);
    assert("tmux.keyword"@.len() == 12);
    assert("tmux.stale"@.len() == 10);
    assert("issue-opened"@.len() == 12);
    assert("agent.started"@.len() == 13);
    assert("session.started"@.len() == 15);
    assert("agent.blocked"@.len() == 13);
    assert("session.blocked"@.len() == 15);
    assert("agent.finished"@.len() == 14);
    assert("session.finished"@.len() == 16);
    assert("agent.failed"@.len() == 12);
    assert("session.failed"@.len() == 14);
    assert("session.retry-needed"@.len() == 20);
    assert("session.pr-created"@.len() == 18);
    assert("session.test-started"@.len() == 20);
    assert("session.test-finished"@.len() == 21);
    assert("session.test-failed"@.len() == 19);
    assert("session.handoff-needed"@.len() == 22);
    assert("workspace.session.started"@.len() == 25);
    assert("workspace.session.started"@[10] == 's');
    assert("workspace.session.ended"@.len() == 23);
    assert("workspace.turn.complete"@.len() == 23);
    assert("workspace.agent.turn"@.len() == 20);
    assert("workspace.skill.activated"@.len() == 25);
    assert("workspace.skill.activated"@[10] == 's');
    assert("workspace.skill.deactivated"@.len() == 27);
    assert("workspace.skill.phase-changed"@.len() == 29);
    assert("workspace.session.blocked"@.len() == 25);
    assert("workspace.session.blocked"@[10] == 's');
    assert("workspace.session.checkpointed"@.len() == 30);
    assert("workspace.team.nudged"@.len() == 21);
    assert("workspace.team.updated"@.len() == 22);
    assert("workspace.tmux.injection"@.len() == 24);
    assert("workspace.metrics.updated"@.len() == 25);
    assert("workspace.metrics.updated"@[11] == 'e');
}

proof fn lemma_workspace_5(node: Node, e: WorkspaceView)
    ensures
        "workspace.skill.activated"@ != "issue-opened"@,
        compat::body_of("workspace.skill.activated"@, node) == match compat::workspace_of(node) {
            Ok(e) => Ok::<EventBodyView, Seq<char>>(EventBodyView::WorkspaceSkillActivated(e)),
            Err(e) => Err(e),
        },
        body_for_workspace(
            "workspace.skill.activated"@,
            EventBodyView::WorkspaceSkillActivated(e),
            e,
        ),
{
    reveal_strlit("workspace.skill.activated");
    reveal_strlit("git.commit");
    reveal_strlit("git.branch-changed");
    reveal_strlit("github.issue-opened");
    reveal_strlit("github.issue-commented");
    reveal_strlit("github.issue-closed");
    reveal_strlit("github.pr-status-changed");
    reveal_strlit("github.ci-failed");
    reveal_strlit("tmux.keyword");
    reveal_strlit("tmux.stale");
    reveal_strlit("issue-opened");
    reveal_strlit("agent.started");
    reveal_strlit("session.started");
    reveal_strlit("agent.blocked");
    reveal_strlit("session.blocked");
    reveal_strlit("agent.finished");
    reveal_strlit("session.finished");
    reveal_strlit("agent.failed");
    reveal_strlit("session.failed");
    reveal_strlit("session.retry-needed");
    reveal_strlit("session.pr-created");
    reveal_strlit("session.test-started");
    reveal_strlit("session.test-finished");
    reveal_strlit("session.test-failed");
    reveal_strlit("session.handoff-needed");
    reveal_strlit("workspace.session.started");
    reveal_strlit("workspace.session.ended");
    reveal_strlit("workspace.turn.complete");
    reveal_strlit("workspace.agent.turn");
    reveal_strlit("workspace.mission.updated");
    reveal_strlit("workspace.skill.deactivated");
    reveal_strlit("workspace.skill.phase-changed");
    reveal_strlit("workspace.session.blocked");
    reveal_strlit("workspace.session.checkpointed");
    reveal_strlit("workspace.team.nudged");
    reveal_strlit("workspace.team.updated");
    reveal_strlit("workspace.tmux.injection");
    reveal_strlit("workspace.metrics.updated");
    assert("workspace.skill.activated"@.len() == 25);
    assert("workspace.skill.activated"@[10] == 's');
    assert("workspace.skill.activated"@[11] == 'k');
    assert("git.commit"@.len() == 10);
    assert("git.branch-changed"@.len() == 18);
    assert("github.issue-opened"@.len() == 19);
    assert("github.issue-commented"@.len() == 22);
    assert("github.issue-closed"@.len() == 19);
    assert("github.pr-status-changed"@.len() == 24);
    assert("github.ci-failed"@.len() == 16);
    assert("tmux.keyword"@.len() == 12);
    assert("tmux.stale"@.len() == 10);
    assert("issue-opened"@.len() == 12);
    assert("agent.started"@.len() == 13);
    assert("session.started"@.len() == 15);
    assert("agent.blocked"@.len() == 13);
    assert("session.blocked"@.len() == 15);
    assert("agent.finished"@.len() == 14);
    assert("session.finished"@.len() == 16);
    assert("agent.failed"@.len() == 12);
    assert("session.failed"@.len() == 14);
    assert("session.retry-needed"@.len() == 20);
    assert("session.pr-created"@.len() == 18);
    assert("session.test-started"@.len() == 20);
    assert("session.test-finished"@.len() == 21);
    assert("session.test-failed"@.len() == 19);
    assert("session.handoff-needed"@.len() == 22);
    assert("workspace.session.started"@.len() == 25);
    assert("workspace.session.started"@[11] == 'e');
    assert("workspace.session.ended"@.len() == 23);
    assert("workspace.turn.complete"@.len() == 23);
    assert("workspace.agent.turn"@.len() == 20);
    assert("workspace.mission.updated"@.len() == 25);
    assert("workspace.mission.updated"@[10] == 'm');
    assert("workspace.skill.deactivated"@.len() == 27);
    assert("workspace.skill.phase-changed"@.len() == 29);
    assert("workspace.session.blocked"@.len() == 25);
    assert("workspace.session.blocked"@[11] == 'e');
    assert("workspace.session.checkpointed"@.len() == 30);
    assert("workspace.team.nudged"@.len() == 21);
    assert("workspace.team.updated"@.len() == 22);
    assert("workspace.tmux.injection"@.len() == 24);
    assert("workspace.metrics.updated"@.len() == 25);
    assert("workspace.metrics.updated"@[10] == 'm');
}

proof fn lemma_workspace_6(node: Node, e: WorkspaceView)
    ensures
        "workspace.skill.deactivated"@ != "issue-opened"@,
        compat::body_of("workspace.skill.deactivated"@, node) == match compat::workspace_of(node) {
            Ok(e) => Ok::<EventBodyView, Seq<char>>(EventBodyView::WorkspaceSkillActivated(e)),
            Err(e) => Err(e),
        },
        body_for_workspace(
            "workspace.skill.deactivated"@,
            EventBodyView::WorkspaceSkillActivated(e),
            e,
        ),
{
    reveal_strlit("workspace.skill.deactivated");
    reveal_strlit("git.commit");
    reveal_strlit("git.branch-changed");
    reveal_strlit("github.issue-opened");
    reveal_strlit("github.issue-commented");
    reveal_strlit("github.issue-closed");
    reveal_strlit("github.pr-status-changed");
    reveal_strlit("github.ci-failed");
    reveal_strlit("tmux.keyword");
    reveal_strlit("tmux.stale");
    reveal_strlit("issue-opened");
    reveal_strlit("agent.started");
    reveal_strlit("session.started");
    reveal_strlit("agent.blocked");
    reveal_strlit("session.blocked");
    reveal_strlit("agent.finished");
    reveal_strlit("session.finished");
    reveal_strlit("agent.failed");
    reveal_strlit("session.failed");
    reveal_strlit("session.retry-needed");
    reveal_strlit("session.pr-created");
    reveal_strlit("session.test-started");
    reveal_strlit("session.test-finished");
    reveal_strlit("session.test-failed");
    reveal_strlit("session.handoff-needed");
    reveal_strlit("workspace.session.started");
    reveal_strlit("workspace.session.ended");
    reveal_strlit("workspace.turn.complete");
    reveal_strlit("workspace.agent.turn");
    reveal_strlit("workspace.mission.updated");
    reveal_strlit("workspace.skill.activated");
    reveal_strlit("workspace.skill.phase-changed");
    reveal_strlit("workspace.session.blocked");
    reveal_strlit("workspace.session.checkpointed");
    reveal_strlit("workspace.team.nudged");
    reveal_strlit("workspace.team.updated");
    reveal_strlit("workspace.tmux.injection");
    reveal_strlit("workspace.metrics.updated");
    assert("workspace.skill.deactivated"@.len() == 27);
    assert("git.commit"@.len() == 10);
    assert("git.branch-changed"@.len() == 18);
    assert("github.issue-opened"@.len() == 19);
    assert("github.issue-commented"@.len() == 22);
    assert("github.issue-closed"@.len() == 19);
    assert("github.pr-status-changed"@.len() == 24);
    assert("github.ci-failed"@.len() == 16);
    assert("tmux.keyword"@.len() == 12);
    assert("tmux.stale"@.len() == 10);
    assert("issue-opened"@.len() == 12);
    assert("agent.started"@.len() == 13);
    assert("session.started"@.len() == 15);
    assert("agent.blocked"@.len() == 13);
    assert("session.blocked"@.len() == 15);
    assert("agent.finished"@.len() == 14);
    assert("session.finished"@.len() == 16);
    assert("agent.failed"@.len() == 12);
    assert("session.failed"@.len() == 14);
    assert("session.retry-needed"@.len() == 20);
    assert("session.pr-created"@.len() == 18);
    assert("session.test-started"@.len() == 20);
    assert("session.test-finished"@.len() == 21);
    assert("session.test-failed"@.len() == 19);
    assert("session.handoff-needed"@.len() == 22);
    assert("workspace.session.started"@.len() == 25);
    assert("workspace.session.ended"@.len() == 23);
    assert("workspace.turn.complete"@.len() == 23);
    assert("workspace.agent.turn"@.len() == 20);
    assert("workspace.mission.updated"@.len() == 25);
    assert("workspace.skill.activated"@.len() == 25);
    assert("workspace.skill.phase-changed"@.len() == 29);
    assert("workspace.session.blocked"@.len() == 25);
    assert("workspace.session.checkpointed"@.len() == 30);
    assert("workspace.team.nudged"@.len() == 21);
    assert("workspace.team.updated"@.len() == 22);
    assert("workspace.tmux.injection"@.len() == 24);
    assert("workspace.metrics.updated"@.len() == 25);
}

proof fn lemma_workspace_7(node: Node, e: WorkspaceView)
    ensures
        "workspace.skill.phase-changed"@ != "issue-opened"@,
        compat::body_of("workspace.skill.phase-changed"@, node) == match compat::workspace_of(node) {
            Ok(e) => Ok::<EventBodyView, Seq<char>>(EventBodyView::WorkspaceSkillActivated(e)),
            Err(e) => Err(e),
        },
        body_for_workspace(
            "workspace.skill.phase-changed"@,
            EventBodyView::WorkspaceSkillActivated(e),
            e,
        ),
{
    reveal_strlit("workspace.skill.phase-changed");
    reveal_strlit("git.commit");
    reveal_strlit("git.branch-changed");
    reveal_strlit("github.issue-opened");
    reveal_strlit("github.issue-commented");
    reveal_strlit("github.issue-closed");
    reveal_strlit("github.pr-status-changed");
    reveal_strlit("github.ci-failed");
    reveal_strlit("tmux.keyword");
    reveal_strlit("tmux.stale");
    reveal_strlit("issue-opened");
    reveal_strlit("agent.started");
    reveal_strlit("session.started");
    reveal_strlit("agent.blocked");
    reveal_strlit("session.blocked");
    reveal_strlit("agent.finished");
    reveal_strlit("session.finished");
    reveal_strlit("agent.failed");
    reveal_strlit("session.failed");
    reveal_strlit("session.retry-needed");
    reveal_strlit("session.pr-created");
    reveal_strlit("session.test-started");
    reveal_strlit("session.test-finished");
    reveal_strlit("session.test-failed");
    reveal_strlit("session.handoff-needed");
    reveal_strlit("workspace.session.started");
    reveal_strlit("workspace.session.ended");
    reveal_strlit("workspace.turn.complete");
    reveal_strlit("workspace.agent.turn");
    reveal_strlit("workspace.mission.updated");
    reveal_strlit("workspace.skill.activated");
    reveal_strlit("workspace.skill.deactivated");
    reveal_strlit("workspace.session.blocked");
    reveal_strlit("workspace.session.checkpointed");
    reveal_strlit("workspace.team.nudged");
    reveal_strlit("workspace.team.updated");
    reveal_strlit("workspace.tmux.injection");
    reveal_strlit("workspace.metrics.updated");
    assert("workspace.skill.phase-changed"@.len() == 29);
    assert("git.commit"@.len() == 10);
    assert("git.branch-changed"@.len() == 18);
    assert("github.issue-opened"@.len() == 19);
    assert("github.issue-commented"@.len() == 22);
    assert("github.issue-closed"@.len() == 19);
    assert("github.pr-status-changed"@.len() == 24);
    assert("github.ci-failed"@.len() == 16);
    assert("tmux.keyword"@.len() == 12);
    assert("tmux.stale"@.len() == 10);
    assert("issue-opened"@.len() == 12);
    assert("agent.started"@.len() == 13);
    assert("session.started"@.len() == 15);
    assert("agent.blocked"@.len() == 13);
    assert("session.blocked"@.len() == 15);
    assert("agent.finished"@.len() == 14);
    assert("session.finished"@.len() == 16);
    assert("agent.failed"@.len() == 12);
    assert("session.failed"@.len() == 14);
    assert("session.retry-needed"@.len() == 20);
    assert("session.pr-created"@.len() == 18);
    assert("session.test-started"@.len() == 20);
    assert("session.test-finished"@.len() == 21);
    assert("session.test-failed"@.len() == 19);
    assert("session.handoff-needed"@.len() == 22);
    assert("workspace.session.started"@.len() == 25);
    assert("workspace.session.ended"@.len() == 23);
    assert("workspace.turn.complete"@.len() == 23);
    assert("workspace.agent.turn"@.len() == 20);
    assert("workspace.mission.updated"@.len() == 25);
    assert("workspace.skill.activated"@.len() == 25);
    assert("workspace.skill.deactivated"@.len() == 27);
    assert("workspace.session.blocked"@.len() == 25);
    assert("workspace.session.checkpointed"@.len() == 30);
    assert("workspace.team.nudged"@.len() == 21);
    assert("workspace.team.updated"@.len() == 22);
    assert("workspace.tmux.injection"@.len() == 24);
    assert("workspace.metrics.updated"@.len() == 25);
}

proof fn lemma_workspace_8(node: Node, e: WorkspaceView)
    ensures
        "workspace.session.blocked"@ != "issue-opened"@,
        compat::body_of("workspace.session.blocked"@, node) == match compat::workspace_of(node) {
            Ok(e) => Ok::<EventBodyView, Seq<char>>(EventBodyView::WorkspaceSessionBlocked(e)),
            Err(e) => Err(e),
        },
        body_for_workspace(
            "workspace.session.blocked"@,
            EventBodyView::WorkspaceSessionBlocked(e),
            e,
        ),
{
    reveal_strlit("workspace.session.blocked");
    reveal_strlit("git.commit");
    reveal_strlit("git.branch-changed");
    reveal_strlit("github.issue-opened");
    reveal_strlit("github.issue-commented");
    reveal_strlit("github.issue-closed");
    reveal_strlit("github.pr-status-changed");
    reveal_strlit("github.ci-failed");
    reveal_strlit("tmux.keyword");
    reveal_strlit("tmux.stale");
    reveal_strlit("issue-opened");
    reveal_strlit("agent.started");
    reveal_strlit("session.started");
    reveal_strlit("agent.blocked");
    reveal_strlit("session.blocked");
    reveal_strlit("agent.finished");
    reveal_strlit("session.finished");
    reveal_strlit("agent.failed");
    reveal_strlit("session.failed");
    reveal_strlit("session.retry-needed");
    reveal_strlit("session.pr-created");
    reveal_strlit("session.test-started");
    reveal_strlit("session.test-finished");
    reveal_strlit("session.test-failed");
    reveal_strlit("session.handoff-needed");
    reveal_strlit("workspace.session.started");
    reveal_strlit("workspace.session.ended");
    reveal_strlit("workspace.turn.complete");
    reveal_strlit("workspace.agent.turn");
    reveal_strlit("workspace.mission.updated");
    reveal_strlit("workspace.skill.activated");
    reveal_strlit("workspace.skill.deactivated");
    reveal_strlit("workspace.skill.phase-changed");
    reveal_strlit("workspace.session.checkpointed");
    reveal_strlit("workspace.team.nudged");
    reveal_strlit("workspace.team.updated");
    reveal_strlit("workspace.tmux.injection");
    reveal_strlit("workspace.metrics.updated");
    assert("workspace.session.blocked"@.len() == 25);
    assert("workspace.session.blocked"@[10] == 's');
    assert("workspace.session.blocked"@[11] == 'e');
    assert("workspace.session.blocked"@[18] == 'b');
    assert("git.commit"@.len() == 10);
    assert("git.branch-changed"@.len() == 18);
    assert("github.issue-opened"@.len() == 19);
    assert("github.issue-commented"@.len() == 22);
    assert("github.issue-closed"@.len() == 19);
    assert("github.pr-status-changed"@.len() == 24);
    assert("github.ci-failed"@.len() == 16);
    assert("tmux.keyword"@.len() == 12);
    assert("tmux.stale"@.len() == 10);
    assert("issue-opened"@.len() == 12);
    assert("agent.started"@.len() == 13);
    assert("session.started"@.len() == 15);
    assert("agent.blocked"@.len() == 13);
    assert("session.blocked"@.len() == 15);
    assert("agent.finished"@.len() == 14);
    assert("session.finished"@.len() == 16);
    assert("agent.failed"@.len() == 12);
    assert("session.failed"@.len() == 14);
    assert("session.retry-needed"@.len() == 20);
    assert("session.pr-created"@.len() == 18);
    assert("session.test-started"@.len() == 20);
    assert("session.test-finished"@.len() == 21);
    assert("session.test-failed"@.len() == 19);
    assert("session.handoff-needed"@.len() == 22);
    assert("workspace.session.started"@.len() == 25);
    assert("workspace.session.started"@[18] == 's');
    assert("workspace.session.ended"@.len() == 23);
    assert("workspace.turn.complete"@.len() == 23);
    assert("workspace.agent.turn"@.len() == 20);
    assert("workspace.mission.updated"@.len() == 25);
    assert("workspace.mission.updated"@[10] == 'm');
    assert("workspace.skill.activated"@.len() == 25);
    assert("workspace.skill.activated"@[11] == 'k');
    assert("workspace.skill.deactivated"@.len() == 27);
    assert("workspace.skill.phase-changed"@.len() == 29);
    assert("workspace.session.checkpointed"@.len() == 30);
    assert("workspace.team.nudged"@.len() == 21);
    assert("workspace.team.updated"@.len() == 22);
    assert("workspace.tmux.injection"@.len() == 24);
    assert("workspace.metrics.updated"@.len() == 25);
    assert("workspace.metrics.updated"@[10] == 'm');
}

proof fn lemma_workspace_9(node: Node, e: WorkspaceView)
    ensures
        "workspace.session.checkpointed"@ != "issue-opened"@,
        compat::body_of("workspace.session.checkpointed"@, node) == match compat::workspace_of(node) {
            Ok(e) => Ok::<EventBodyView, Seq<char>>(EventBodyView::WorkspaceSessionBlocked(e)),
            Err(e) => Err(e),
        },
        body_for_workspace(
            "workspace.session.checkpointed"@,
            EventBodyView::WorkspaceSessionBlocked(e),
            e,
        ),
{
    reveal_strlit("workspace.session.checkpointed");
    reveal_strlit("git.commit");
    reveal_strlit("git.branch-changed");
    reveal_strlit("github.issue-opened");
    reveal_strlit("github.issue-commented");
    reveal_strlit("github.issue-closed");
    reveal_strlit("github.pr-status-changed");
    reveal_strlit("github.ci-failed");
    reveal_strlit("tmux.keyword");
    reveal_strlit("tmux.stale");
    reveal_strlit("issue-opened");
    reveal_strlit("agent.started");
    reveal_strlit("session.started");
    reveal_strlit("agent.blocked");
    reveal_strlit("session.blocked");
    reveal_strlit("agent.finished");
    reveal_strlit("session.finished");
    reveal_strlit("agent.failed");
    reveal_strlit("session.failed");
    reveal_strlit("session.retry-needed");
    reveal_strlit("session.pr-created");
    reveal_strlit("session.test-started");
    reveal_strlit("session.test-finished");
    reveal_strlit("session.test-failed");
    reveal_strlit("session.handoff-needed");
    reveal_strlit("workspace.session.started");
    reveal_strlit("workspace.session.ended");
    reveal_strlit("workspace.turn.complete");
    reveal_strlit("workspace.agent.turn");
    reveal_strlit("workspace.mission.updated");
    reveal_strlit("workspace.skill.activated");
    reveal_strlit("workspace.skill.deactivated");
    reveal_strlit("workspace.skill.phase-changed");
    reveal_strlit("workspace.session.blocked");
    reveal_strlit("workspace.team.nudged");
    reveal_strlit("workspace.team.updated");
    reveal_strlit("workspace.tmux.injection");
    reveal_strlit("workspace.metrics.updated");
    assert("workspace.session.checkpointed"@.len() == 30);
    assert("git.commit"@.len() == 10);
    assert("git.branch-changed"@.len() == 18);
    assert("github.issue-opened"@.len() == 19);
    assert("github.issue-commented"@.len() == 22);
    assert("github.issue-closed"@.len() == 19);
    assert("github.pr-status-changed"@.len() == 24);
    assert("github.ci-failed"@.len() == 16);
    assert("tmux.keyword"@.len() == 12);
    assert("tmux.stale"@.len() == 10);
    assert("issue-opened"@.len() == 12);
    assert("agent.started"@.len() == 13);
    assert("session.started"@.len() == 15);
    assert("agent.blocked"@.len() == 13);
    assert("session.blocked"@.len() == 15);
    assert("agent.finished"@.len() == 14);
    assert("session.finished"@.len() == 16);
    assert("agent.failed"@.len() == 12);
    assert("session.failed"@.len() == 14);
    assert("session.retry-needed"@.len() == 20);
    assert("session.pr-created"@.len() == 18);
    assert("session.test-started"@.len() == 20);
    assert("session.test-finished"@.len() == 21);
    assert("session.test-failed"@.len() == 19);
    assert("session.handoff-needed"@.len() == 22);
    assert("workspace.session.started"@.len() == 25);
    assert("workspace.session.ended"@.len() == 23);
    assert("workspace.turn.complete"@.len() == 23);
    assert("workspace.agent.turn"@.len() == 20);
    assert("workspace.mission.updated"@.len() == 25);
    assert("workspace.skill.activated"@.len() == 25);
    assert("workspace.skill.deactivated"@.len() == 27);
    assert("workspace.skill.phase-changed"@.len() == 29);
    assert("workspace.session.blocked"@.len() == 25);
    assert("workspace.team.nudged"@.len() == 21);
    assert("workspace.team.updated"@.len() == 22);
    assert("workspace.tmux.injection"@.len() == 24);
    assert("workspace.metrics.updated"@.len() == 25);
}

proof fn lemma_workspace_10(node: Node, e: WorkspaceView)
    ensures
        "workspace.team.nudged"@ != "issue-opened"@,
        compat::body_of("workspace.team.nudged"@, node) == match compat::workspace_of(node) {
            Ok(e) => Ok::<EventBodyView, Seq<char>>(EventBodyView::WorkspaceSessionBlocked(e)),
            Err(e) => Err(e),
        },
        body_for_workspace("workspace.team.nudged"@, EventBodyView::WorkspaceSessionBlocked(e), e),
{
    reveal_strlit("workspace.team.nudged");
    reveal_strlit("git.commit");
    reveal_strlit("git.branch-changed");
    reveal_strlit("github.issue-opened");
    reveal_strlit("github.issue-commented");
    reveal_strlit("github.issue-closed");
    reveal_strlit("github.pr-status-changed");
    reveal_strlit("github.ci-failed");
    reveal_strlit("tmux.keyword");
    reveal_strlit("tmux.stale");
    reveal_strlit("issue-opened");
    reveal_strlit("agent.started");
    reveal_strlit("session.started");
    reveal_strlit("agent.blocked");
    reveal_strlit("session.blocked");
    reveal_strlit("agent.finished");
    reveal_strlit("session.finished");
    reveal_strlit("agent.failed");
    reveal_strlit("session.failed");
    reveal_strlit("session.retry-needed");
    reveal_strlit("session.pr-created");
    reveal_strlit("session.test-started");
    reveal_strlit("session.test-finished");
    reveal_strlit("session.test-failed");
    reveal_strlit("session.handoff-needed");
    reveal_strlit("workspace.session.started");
    reveal_strlit("workspace.session.ended");
    reveal_strlit("workspace.turn.complete");
    reveal_strlit("workspace.agent.turn");
    reveal_strlit("workspace.mission.updated");
    reveal_strlit("workspace.skill.activated");
    reveal_strlit("workspace.skill.deactivated");
    reveal_strlit("workspace.skill.phase-changed");
    reveal_strlit("workspace.session.blocked");
    reveal_strlit("workspace.session.checkpointed");
    reveal_strlit("workspace.team.updated");
    reveal_strlit("workspace.tmux.injection");
    reveal_strlit("workspace.metrics.updated");
    assert("workspace.team.nudged"@.len() == 21);
    assert("workspace.team.nudged"@[0] == 'w');
    assert("git.commit"@.len() == 10);
    assert("git.branch-changed"@.len() == 18);
    assert("github.issue-opened"@.len() == 19);
    assert("github.issue-commented"@.len() == 22);
    assert("github.issue-closed"@.len() == 19);
    assert("github.pr-status-changed"@.len() == 24);
    assert("github.ci-failed"@.len() == 16);
    assert("tmux.keyword"@.len() == 12);
    assert("tmux.stale"@.len() == 10);
    assert("issue-opened"@.len() == 12);
    assert("agent.started"@.len() == 13);
    assert("session.started"@.len() == 15);
    assert("agent.blocked"@.len() == 13);
    assert("session.blocked"@.len() == 15);
    assert("agent.finished"@.len() == 14);
    assert("session.finished"@.len() == 16);
    assert("agent.failed"@.len() == 12);
    assert("session.failed"@.len() == 14);
    assert("session.retry-needed"@.len() == 20);
    assert("session.pr-created"@.len() == 18);
    assert("session.test-started"@.len() == 20);
    assert("session.test-finished"@.len() == 21);
    assert("session.test-finished"@[0] == 's');
    assert("session.test-failed"@.len() == 19);
    assert("session.handoff-needed"@.len() == 22);
    assert("workspace.session.started"@.len() == 25);
    assert("workspace.session.ended"@.len() == 23);
    assert("workspace.turn.complete"@.len() == 23);
    assert("workspace.agent.turn"@.len() == 20);
    assert("workspace.mission.updated"@.len() == 25);
    assert("workspace.skill.activated"@.len() == 25);
    assert("workspace.skill.deactivated"@.len() == 27);
    assert("workspace.skill.phase-changed"@.len() == 29);
    assert("workspace.session.blocked"@.len() == 25);
    assert("workspace.session.checkpointed"@.len() == 30);
    assert("workspace.team.updated"@.len() == 22);
    assert("workspace.tmux.injection"@.len() == 24);
    assert("workspace.metrics.updated"@.len() == 25);
}

proof fn lemma_workspace_11(node: Node, e: WorkspaceView)
    ensures
        "workspace.team.updated"@ != "issue-opened"@,
        compat::body_of("workspace.team.updated"@, node) == match compat::workspace_of(node) {
            Ok(e) => Ok::<EventBodyView, Seq<char>>(EventBodyView::WorkspaceSessionBlocked(e)),
            Err(e) => Err(e),
        },
        body_for_workspace("workspace.team.updated"@, EventBodyView::WorkspaceSessionBlocked(e), e),
{
    reveal_strlit("workspace.team.updated");
    reveal_strlit("git.commit");
    reveal_strlit("git.branch-changed");
    reveal_strlit("github.issue-opened");
    reveal_strlit("github.issue-commented");
    reveal_strlit("github.issue-closed");
    reveal_strlit("github.pr-status-changed");
    reveal_strlit("github.ci-failed");
    reveal_strlit("tmux.keyword");
    reveal_strlit("tmux.stale");
    reveal_strlit("issue-opened");
    reveal_strlit("agent.started");
    reveal_strlit("session.started");
    reveal_strlit("agent.blocked");
    reveal_strlit("session.blocked");
    reveal_strlit("agent.finished");
    reveal_strlit("session.finished");
    reveal_strlit("agent.failed");
    reveal_strlit("session.failed");
    reveal_strlit("session.retry-needed");
    reveal_strlit("session.pr-created");
    reveal_strlit("session.test-started");
    reveal_strlit("session.test-finished");
    reveal_strlit("session.test-failed");
    reveal_strlit("session.handoff-needed");
    reveal_strlit("workspace.session.started");
    reveal_strlit("workspace.session.ended");
    reveal_strlit("workspace.turn.complete");
    reveal_strlit("workspace.agent.turn");
    reveal_strlit("workspace.mission.updated");
    reveal_strlit("workspace.skill.activated");
    reveal_strlit("workspace.skill.deactivated");
    reveal_strlit("workspace.skill.phase-changed");
    reveal_strlit("workspace.session.blocked");
    reveal_strlit("workspace.session.checkpointed");
    reveal_strlit("workspace.team.nudged");
    reveal_strlit("workspace.tmux.injection");
    reveal_strlit("workspace.metrics.updated");
    assert("workspace.team.updated"@.len() == 22);
    assert("workspace.team.updated"@[0] == 'w');
    assert("git.commit"@.len() == 10);
    assert("git.branch-changed"@.len() == 18);
    assert("github.issue-opened"@.len() == 19);
    assert("github.issue-commented"@.len() == 22);
    assert("github.issue-commented"@[0] == 'g');
    assert("github.issue-closed"@.len() == 19);
    assert("github.pr-status-changed"@.len() == 24);
    assert("github.ci-failed"@.len() == 16);
    assert("tmux.keyword"@.len() == 12);
    assert("tmux.stale"@.len() == 10);
    assert("issue-opened"@.len() == 12);
    assert("agent.started"@.len() == 13);
    assert("session.started"@.len() == 15);
    assert("agent.blocked"@.len() == 13);
    assert("session.blocked"@.len() == 15);
    assert("agent.finished"@.len() == 14);
    assert("session.finished"@.len() == 16);
    assert("agent.failed"@.len() == 12);
    assert("session.failed"@.len() == 14);
    assert("session.retry-needed"@.len() == 20);
    assert("session.pr-created"@.len() == 18);
    assert("session.test-started"@.len() == 20);
    assert("session.test-finished"@.len() == 21);
    assert("session.test-failed"@.len() == 19);
    assert("session.handoff-needed"@.len() == 22);
    assert("session.handoff-needed"@[0] == 's');
    assert("workspace.session.started"@.len() == 25);
    assert("workspace.session.ended"@.len() == 23);
    assert("workspace.turn.complete"@.len() == 23);
    assert("workspace.agent.turn"@.len() == 20);
    assert("workspace.mission.updated"@.len() == 25);
    assert("workspace.skill.activated"@.len() == 25);
    assert("workspace.skill.deactivated"@.len() == 27);
    assert("workspace.skill.phase-changed"@.len() == 29);
    assert("workspace.session.blocked"@.len() == 25);
    assert("workspace.session.checkpointed"@.len() == 30);
    assert("workspace.team.nudged"@.len() == 21);
    assert("workspace.tmux.injection"@.len() == 24);
    assert("workspace.metrics.updated"@.len() == 25);
}

proof fn lemma_workspace_12(node: Node, e: WorkspaceView)
    ensures
        "workspace.tmux.injection"@ != "issue-opened"@,
        compat::body_of("workspace.tmux.injection"@, node) == match compat::workspace_of(node) {
            Ok(e) => Ok::<EventBodyView, Seq<char>>(EventBodyView::WorkspaceSessionBlocked(e)),
            Err(e) => Err(e),
        },
        body_for_workspace(
            "workspace.tmux.injection"@,
            EventBodyView::WorkspaceSessionBlocked(e),
            e,
        ),
{
    reveal_strlit("workspace.tmux.injection");
    reveal_strlit("git.commit");
    reveal_strlit("git.branch-changed");
    reveal_strlit("github.issue-opened");
    reveal_strlit("github.issue-commented");
    reveal_strlit("github.issue-closed");
    reveal_strlit("github.pr-status-changed");
    reveal_strlit("github.ci-failed");
    reveal_strlit("tmux.keyword");
    reveal_strlit("tmux.stale");
    reveal_strlit("issue-opened");
    reveal_strlit("agent.started");
    reveal_strlit("session.started");
    reveal_strlit("agent.blocked");
    reveal_strlit("session.blocked");
    reveal_strlit("agent.finished");
    reveal_strlit("session.finished");
    reveal_strlit("agent.failed");
    reveal_strlit("session.failed");
    reveal_strlit("session.retry-needed");
    reveal_strlit("session.pr-created");
    reveal_strlit("session.test-started");
    reveal_strlit("session.test-finished");
    reveal_strlit("session.test-failed");
    reveal_strlit("session.handoff-needed");
    reveal_strlit("workspace.session.started");
    reveal_strlit("workspace.session.ended");
    reveal_strlit("workspace.turn.complete");
    reveal_strlit("workspace.agent.turn");
    reveal_strlit("workspace.mission.updated");
    reveal_strlit("workspace.skill.activated");
    reveal_strlit("workspace.skill.deactivated");
    reveal_strlit("workspace.skill.phase-changed");
    reveal_strlit("workspace.session.blocked");
    reveal_strlit("workspace.session.checkpointed");
    reveal_strlit("workspace.team.nudged");
    reveal_strlit("workspace.team.updated");
    reveal_strlit("workspace.metrics.updated");
    assert("workspace.tmux.injection"@.len() == 24);
    assert("workspace.tmux.injection"@[0] == 'w');
    assert("git.commit"@.len() == 10);
    assert("git.branch-changed"@.len() == 18);
    assert("github.issue-opened"@.len() == 19);
    assert("github.issue-commented"@.len() == 22);
    assert("github.issue-closed"@.len() == 19);
    assert("github.pr-status-changed"@.len() == 24);
    assert("github.pr-status-changed"@[0] == 'g');
    assert("github.ci-failed"@.len() == 16);
    assert("tmux.keyword"@.len() == 12);
    assert("tmux.stale"@.len() == 10);
    assert("issue-opened"@.len() == 12);
    assert("agent.started"@.len() == 13);
    assert("session.started"@.len() == 15);
    assert("agent.blocked"@.len() == 13);
    assert("session.blocked"@.len() == 15);
    assert("agent.finished"@.len() == 14);
    assert("session.finished"@.len() == 16);
    assert("agent.failed"@.len() == 12);
    assert("session.failed"@.len() == 14);
    assert("session.retry-needed"@.len() == 20);
    assert("session.pr-created"@.len() == 18);
    assert("session.test-started"@.len() == 20);
    assert("session.test-finished"@.len() == 21);
    assert("session.test-failed"@.len() == 19);
    assert("session.handoff-needed"@.len() == 22);
    assert("workspace.session.started"@.len() == 25);
    assert("workspace.session.ended"@.len() == 23);
    assert("workspace.turn.complete"@.len() == 23);
    assert("workspace.agent.turn"@.len() == 20);
    assert("workspace.mission.updated"@.len() == 25);
    assert("workspace.skill.activated"@.len() == 25);
    assert("workspace.skill.deactivated"@.len() == 27);
    assert("workspace.skill.phase-changed"@.len() == 29);
    assert("workspace.session.blocked"@.len() == 25);
    assert("workspace.session.checkpointed"@.len() == 30);
    assert("workspace.team.nudged"@.len() == 21);
    assert("workspace.team.updated"@.len() == 22);
    assert("workspace.metrics.updated"@.len() == 25);
}

proof fn lemma_workspace_13(node: Node, e: WorkspaceView)
    ensures
        "workspace.metrics.updated"@ != "issue-opened"@,
        compat::body_of("workspace.metrics.updated"@, node) == match compat::workspace_of(node) {
            Ok(e) => Ok::<EventBodyView, Seq<char>>(EventBodyView::WorkspaceMetricsUpdate(e)),
            Err(e) => Err(e),
        },
        body_for_workspace(
            "workspace.metrics.updated"@,
            EventBodyView::WorkspaceMetricsUpdate(e),
            e,
        ),
{
    reveal_strlit("workspace.metrics.updated");
    reveal_strlit("git.commit");
    reveal_strlit("git.branch-changed");
    reveal_strlit("github.issue-opened");
    reveal_strlit("github.issue-commented");
    reveal_strlit("github.issue-closed");
    reveal_strlit("github.pr-status-changed");
    reveal_strlit("github.ci-failed");
    reveal_strlit("tmux.keyword");
    reveal_strlit("tmux.stale");
    reveal_strlit("issue-opened");
    reveal_strlit("agent.started");
    reveal_strlit("session.started");
    reveal_strlit("agent.blocked");
    reveal_strlit("session.blocked");
    reveal_strlit("agent.finished");
    reveal_strlit("session.finished");
    reveal_strlit("agent.failed");
    reveal_strlit("session.failed");
    reveal_strlit("session.retry-needed");
    reveal_strlit("session.pr-created");
    reveal_strlit("session.test-started");
    reveal_strlit("session.test-finished");
    reveal_strlit("session.test-failed");
    reveal_strlit("session.handoff-needed");
    reveal_strlit("workspace.session.started");
    reveal_strlit("workspace.session.ended");
    reveal_strlit("workspace.turn.complete");
    reveal_strlit("workspace.agent.turn");
    reveal_strlit("workspace.mission.updated");
    reveal_strlit("workspace.skill.activated");
    reveal_strlit("workspace.skill.deactivated");
    reveal_strlit("workspace.skill.phase-changed");
    reveal_strlit("workspace.session.blocked");
    reveal_strlit("workspace.session.checkpointed");
    reveal_strlit("workspace.team.nudged");
    reveal_strlit("workspace.team.updated");
    reveal_strlit("workspace.tmux.injection");
    assert("workspace.metrics.updated"@.len() == 25);
    assert("workspace.metrics.updated"@[10] == 'm');
    assert("workspace.metrics.updated"@[11] == 'e');
    assert("git.commit"@.len() == 10);
    assert("git.branch-changed"@.len() == 18);
    assert("github.issue-opened"@.len() == 19);
    assert("github.issue-commented"@.len() == 22);
    assert("github.issue-closed"@.len() == 19);
    assert("github.pr-status-changed"@.len() == 24);
    assert("github.ci-failed"@.len() == 16);
    assert("tmux.keyword"@.len() == 12);
    assert("tmux.stale"@.len() == 10);
    assert("issue-opened"@.len() == 12);
    assert("agent.started"@.len() == 13);
    assert("session.started"@.len() == 15);
    assert("agent.blocked"@.len() == 13);
    assert("session.blocked"@.len() == 15);
    assert("agent.finished"@.len() == 14);
    assert("session.finished"@.len() == 16);
    assert("agent.failed"@.len() == 12);
    assert("session.failed"@.len() == 14);
    assert("session.retry-needed"@.len() == 20);
    assert("session.pr-created"@.len() == 18);
    assert("session.test-started"@.len() == 20);
    assert("session.test-finished"@.len() == 21);
    assert("session.test-failed"@.len() == 19);
    assert("session.handoff-needed"@.len() == 22);
    assert("workspace.session.started"@.len() == 25);
    assert("workspace.session.started"@[10] == 's');
    assert("workspace.session.ended"@.len() == 23);
    assert("workspace.turn.complete"@.len() == 23);
    assert("workspace.agent.turn"@.len() == 20);
    assert("workspace.mission.updated"@.len() == 25);
    assert("workspace.mission.updated"@[11] == 'i');
    assert("workspace.skill.activated"@.len() == 25);
    assert("workspace.skill.activated"@[10] == 's');
    assert("workspace.skill.deactivated"@.len() == 27);
    assert("workspace.skill.phase-changed"@.len() == 29);
    assert("workspace.session.blocked"@.len() == 25);
    assert("workspace.session.blocked"@[10] == 's');
    assert("workspace.session.checkpointed"@.len() == 30);
    assert("workspace.team.nudged"@.len() == 21);
    assert("workspace.team.updated"@.len() == 22);
    assert("workspace.tmux.injection"@.len() == 24);
}

/// An event of a workspace is told as what its kind says, with what the payload says of the
/// workspace; where it lies has to be there.
pub proof fn law_workspace_is_told(event: EventView, id: Seq<char>, now: Seq<char>)
    requires
        event.kind == "workspace.session.started"@
            || event.kind == "workspace.session.ended"@
            || event.kind == "workspace.turn.complete"@
            || event.kind == "workspace.agent.turn"@
            || event.kind == "workspace.mission.updated"@
            || event.kind == "workspace.skill.activated"@
            || event.kind == "workspace.skill.deactivated"@
            || event.kind == "workspace.skill.phase-changed"@
            || event.kind == "workspace.session.blocked"@
            || event.kind == "workspace.session.checkpointed"@
            || event.kind == "workspace.team.nudged"@
            || event.kind == "workspace.team.updated"@
            || event.kind == "workspace.tmux.injection"@
            || event.kind == "workspace.metrics.updated"@,
    ensures
        ({
            let p = event.payload;
            match compat::envelope_of(event, id, now) {
                Ok(envelope) => exists|e: WorkspaceView|
                    #[trigger] workspace_says(p, e) && body_for_workspace(
                        event.kind,
                        envelope.body,
                        e,
                    ),
                Err(e) => {
                    &&& json::field(p, "workspace_root"@) is None
                    &&& json::field(p, "monitor_path"@) is None
                    &&& json::field(p, "workspace_name"@) is None
                    &&& e == "missing workspace path"@
                },
            }
        }),
{
    let p = event.payload;
    let told = match compat::workspace_of(p) {
        Ok(e) => e,
        Err(_) => arbitrary(),
    };
    if compat::workspace_of(p) is Ok {
        match p {
            Node::Object(m) => lemma_changed_keys(m),
            _ => {},
        }
        assert(workspace_says(p, told));
    }
    if event.kind == "workspace.session.started"@ {
        lemma_workspace_0(p, told);
    }
    if event.kind == "workspace.session.ended"@ {
        lemma_workspace_1(p, told);
    }
    if event.kind == "workspace.turn.complete"@ {
        lemma_workspace_2(p, told);
    }
    if event.kind == "workspace.agent.turn"@ {
        lemma_workspace_3(p, told);
    }
    if event.kind == "workspace.mission.updated"@ {
        lemma_workspace_4(p, told);
    }
    if event.kind == "workspace.skill.activated"@ {
        lemma_workspace_5(p, told);
    }
    if event.kind == "workspace.skill.deactivated"@ {
        lemma_workspace_6(p, told);
    }
    if event.kind == "workspace.skill.phase-changed"@ {
        lemma_workspace_7(p, told);
    }
    if event.kind == "workspace.session.blocked"@ {
        lemma_workspace_8(p, told);
    }
    if event.kind == "workspace.session.checkpointed"@ {
        lemma_workspace_9(p, told);
    }
    if event.kind == "workspace.team.nudged"@ {
        lemma_workspace_10(p, told);
    }
    if event.kind == "workspace.team.updated"@ {
        lemma_workspace_11(p, told);
    }
    if event.kind == "workspace.tmux.injection"@ {
        lemma_workspace_12(p, told);
    }
    if event.kind == "workspace.metrics.updated"@ {
        lemma_workspace_13(p, told);
    }
    match compat::envelope_of(event, id, now) {
        Ok(envelope) => {
            assert(workspace_says(p, told) && body_for_workspace(event.kind, envelope.body, told));
        },
        Err(_) => {},
    }
}

/// An event of any other kind is told with its kind, its message, or its kind in place of
/// one, and its payload unless that is null.
pub proof fn law_other_event_is_told(event: EventView, id: Seq<char>, now: Seq<char>)
    requires
        event.kind != "git.commit"@,
        event.kind != "git.branch-changed"@,
        event.kind != "github.issue-opened"@,
        event.kind != "github.issue-commented"@,
        event.kind != "github.issue-closed"@,
        event.kind != "github.pr-status-changed"@,
        event.kind != "github.ci-failed"@,
        event.kind != "tmux.keyword"@,
        event.kind != "tmux.stale"@,
        event.kind != "issue-opened"@,
        event.kind != "agent.started"@,
        event.kind != "session.started"@,
        event.kind != "agent.blocked"@,
        event.kind != "session.blocked"@,
        event.kind != "agent.finished"@,
        event.kind != "session.finished"@,
        event.kind != "agent.failed"@,
        event.kind != "session.failed"@,
        event.kind != "session.retry-needed"@,
        event.kind != "session.pr-created"@,
        event.kind != "session.test-started"@,
        event.kind != "session.test-finished"@,
        event.kind != "session.test-failed"@,
        event.kind != "session.handoff-needed"@,
        event.kind != "workspace.session.started"@,
        event.kind != "workspace.session.ended"@,
        event.kind != "workspace.turn.complete"@,
        event.kind != "workspace.agent.turn"@,
        event.kind != "workspace.mission.updated"@,
        event.kind != "workspace.skill.activated"@,
        event.kind != "workspace.skill.deactivated"@,
        event.kind != "workspace.skill.phase-changed"@,
        event.kind != "workspace.session.blocked"@,
        event.kind != "workspace.session.checkpointed"@,
        event.kind != "workspace.team.nudged"@,
        event.kind != "workspace.team.updated"@,
        event.kind != "workspace.tmux.injection"@,
        event.kind != "workspace.metrics.updated"@,
    ensures
        match compat::envelope_of(event, id, now) {
            Ok(envelope) => match envelope.body {
                EventBodyView::Custom(c) => {
                    &&& c.kind == event.kind
                    &&& first_of(json::field(event.payload, "message"@), Some(event.kind)) == Some(
                        c.message,
                    )
                    &&& event.payload is Null ==> c.payload is None
                    &&& !(event.payload is Null) ==> c.payload == Some(event.payload)
                },
                _ => false,
            },
            Err(_) => false,
        },
{
}

/// An envelope has the channel, the format and the template of its event, its mention or
/// else the one in the payload, and comes from what stands before the first dot of its kind.
pub proof fn law_frame_of_an_envelope(
    event: EventView,
    id: Seq<char>,
    now: Seq<char>,
    family: Seq<char>,
    rest: Seq<char>,
)
    requires
        event.kind == family + "."@ + rest,
        !family.contains('.'),
    ensures
        match compat::envelope_of(event, id, now) {
            Ok(e) => {
                &&& e.timestamp == now
                &&& e.source == family
                &&& e.metadata.channel_hint == event.channel
                &&& e.metadata.mention == first_of(
                    event.mention,
                    json::field(event.payload, "mention"@),
                )
                &&& e.metadata.format == event.format
                &&& e.metadata.template == event.template
                &&& json::member(event.payload, "event_id"@) is None ==> e.id == id
            },
            Err(_) => true,
        },
{
    reveal_strlit(".");
    reveal_strlit("issue-opened");
    assert(event.kind[family.len() as int] == '.');
    assert("issue-opened"@.len() == 12);
    assert(!"issue-opened"@.contains('.'));
    scan_laws::law_first_separator_parts(family, '.', rest);
    assert(event.kind =~= family + seq!['.'] + rest);
}

/// Failures are critical; what waits for someone, and a pull request that came to an end,
/// are high; a custom message is low; the rest is normal.
pub proof fn law_priority_of_an_envelope(event: EventView, id: Seq<char>, now: Seq<char>)
    requires
        event.kind != "issue-opened"@,
    ensures
        match compat::envelope_of(event, id, now) {
            Ok(e) => {
                let kind = event.kind;
                let ended = json::field(event.payload, "new_status"@) == Some("merged"@)
                    || json::field(event.payload, "new_status"@) == Some("closed"@);
                let critical = seq![
                    "agent.failed"@,
                    "session.failed"@,
                    "session.test-failed"@,
                    "github.ci-failed"@,
                ];
                let high = seq![
                    "agent.blocked"@,
                    "session.blocked"@,
                    "session.retry-needed"@,
                    "session.handoff-needed"@,
                    "tmux.stale"@,
                    "workspace.session.blocked"@,
                ];
                &&& (e.metadata.priority is Critical <==> critical.contains(kind))
                &&& (e.metadata.priority is High <==> high.contains(kind) || (kind
                    == "github.pr-status-changed"@ && ended))
                &&& (e.metadata.priority is Low <==> kind == "custom"@)
            },
            Err(_) => true,
        },
{
    let critical = seq![
        "agent.failed"@,
        "session.failed"@,
        "session.test-failed"@,
        "github.ci-failed"@,
    ];
    let high = seq![
        "agent.blocked"@,
        "session.blocked"@,
        "session.retry-needed"@,
        "session.handoff-needed"@,
        "tmux.stale"@,
        "workspace.session.blocked"@,
    ];
    assert(critical[0] == "agent.failed"@ && critical[1] == "session.failed"@ && critical[2]
        == "session.test-failed"@ && critical[3] == "github.ci-failed"@);
    assert(high[0] == "agent.blocked"@ && high[1] == "session.blocked"@ && high[2]
        == "session.retry-needed"@ && high[3] == "session.handoff-needed"@ && high[4]
        == "tmux.stale"@ && high[5] == "workspace.session.blocked"@);
    reveal_strlit("agent.failed");
    reveal_strlit("session.failed");
    reveal_strlit("session.test-failed");
    reveal_strlit("github.ci-failed");
    reveal_strlit("agent.blocked");
    reveal_strlit("session.blocked");
    reveal_strlit("session.retry-needed");
    reveal_strlit("session.handoff-needed");
    reveal_strlit("tmux.stale");
    reveal_strlit("workspace.session.blocked");
    reveal_strlit("github.pr-status-changed");
    reveal_strlit("custom");
    assert("agent.failed"@.len() == 12);
    assert("session.failed"@.len() == 14);
    assert("session.test-failed"@.len() == 19);
    assert("github.ci-failed"@.len() == 16);
    assert("agent.blocked"@.len() == 13);
    assert("session.blocked"@.len() == 15);
    assert("session.retry-needed"@.len() == 20);
    assert("session.handoff-needed"@.len() == 22);
    assert("tmux.stale"@.len() == 10);
    assert("workspace.session.blocked"@.len() == 25);
    assert("github.pr-status-changed"@.len() == 24);
    assert("custom"@.len() == 6);
}

/// The event that an OMX hook sends is refused unless it says that it is of the first version
/// and what happened; otherwise it is of the kind that it names, or else of what happened.
pub proof fn law_event_of_omx(payload: Node)
    ensures
        ({
            let version = json::raw_field(payload, "schema_version"@);
            let happened = json::field_at(payload, "/context/normalized_event"@);
            match compat::omx_event(payload) {
                Ok(e) => {
                    &&& version == Some("1"@)
                    &&& happened is Some
                    &&& first_of(json::raw_field(payload, "event"@), happened) == Some(e.kind)
                    &&& e.channel == json::field(payload, "channel"@)
                    &&& e.mention == first_of(
                        json::field(payload, "mention"@),
                        json::field_at(payload, "/context/mention"@),
                    )
                    &&& e.format is None
                    &&& e.template is None
                    &&& e.payload == payload
                },
                Err(e) => {
                    ||| version is None && e == "missing string field 'schema_version'"@
                    ||| version is Some && version != Some("1"@) && e
                        == "unsupported schema_version '"@ + version->0 + "'"@
                    ||| version == Some("1"@) && happened is None && e
                        == "missing string field 'context.normalized_event'"@
                },
            }
        }),
{
}

} // verus!
