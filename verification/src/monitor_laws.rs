//! What a look at a repository tells.
use vstd::prelude::*;
use vstd::string::*;

use crate::config::GitRepoMonitorView;
use crate::events::EventView;
use crate::json;
use crate::json::Node;
use crate::json_laws;
use crate::monitor;
use crate::monitor::{CommitView, GitHubPullRequest, GitView, Pulls, RepoView};
use crate::scan;
use crate::text;

verus! {

broadcast use json_laws::group_members;

/// An event of a kind that goes where its repository says.
pub open spec fn goes_with(event: EventView, repo: GitRepoMonitorView, kind: Seq<char>) -> bool {
    &&& event.kind == kind
    &&& event.channel == repo.channel
    &&& event.format == repo.format
    &&& event.mention is None
    &&& event.template is None
}

/// The text of a key of an event is a given one.
pub open spec fn has_text(event: EventView, key: Seq<char>, value: Seq<char>) -> bool {
    json::member(event.payload, key) == Some(Node::Text(value))
}

/// A commit is told with its repository, branch, name and summary.
pub open spec fn tells_commit(
    event: EventView,
    repo: GitRepoMonitorView,
    snapshot: GitView,
    commit: CommitView,
) -> bool {
    &&& goes_with(event, repo, "git.commit"@)
    &&& has_text(event, "repo"@, snapshot.repo_name)
    &&& has_text(event, "branch"@, snapshot.branch)
    &&& has_text(event, "commit"@, commit.sha)
    &&& has_text(
        event,
        "short_commit"@,
        if commit.sha.len() > 7 {
            commit.sha.take(7)
        } else {
            commit.sha
        },
    )
    &&& has_text(event, "summary"@, commit.summary)
}

/// A change of branches is told with the old branch and the new one.
pub open spec fn tells_branch(
    event: EventView,
    repo: GitRepoMonitorView,
    snapshot: GitView,
    before: Seq<char>,
) -> bool {
    &&& goes_with(event, repo, "git.branch-changed"@)
    &&& has_text(event, "repo"@, snapshot.repo_name)
    &&& has_text(event, "old_branch"@, before)
    &&& has_text(event, "new_branch"@, snapshot.branch)
}

/// A change of a pull request is told with its number, title and address, and with the old
/// status and the new one.
pub open spec fn tells_pull(
    event: EventView,
    repo: GitRepoMonitorView,
    snapshot: GitView,
    previous: Pulls,
    pull: (u64, monitor::PullView),
) -> bool {
    &&& goes_with(event, repo, "git.pr-status-changed"@)
    &&& has_text(event, "repo"@, snapshot.repo_name)
    &&& json::count(event.payload, "number"@) == Some(pull.0)
    &&& has_text(event, "title"@, pull.1.title)
    &&& has_text(
        event,
        "old_status"@,
        match monitor::pull_of(previous, pull.0) {
            Some(known) => known.status,
            None => "<new>"@,
        },
    )
    &&& has_text(event, "new_status"@, pull.1.status)
    &&& has_text(event, "url"@, pull.1.url)
}

/// The pull requests that are new or whose status is another than it was, in their order.
pub open spec fn changed_pulls(previous: Pulls, pulls: Pulls) -> Pulls {
    pulls.filter(
        |pull: (u64, monitor::PullView)|
            match monitor::pull_of(previous, pull.0) {
                Some(known) => known.status != pull.1.status,
                None => true,
            },
    )
}

proof fn lemma_names()
    ensures
        "repo"@ != "branch"@,
        "repo"@ != "commit"@,
        "repo"@ != "short_commit"@,
        "repo"@ != "summary"@,
        "branch"@ != "commit"@,
        "branch"@ != "short_commit"@,
        "branch"@ != "summary"@,
        "commit"@ != "short_commit"@,
        "commit"@ != "summary"@,
        "short_commit"@ != "summary"@,
        "repo"@ != "old_branch"@,
        "repo"@ != "new_branch"@,
        "old_branch"@ != "new_branch"@,
        "repo"@ != "number"@,
        "repo"@ != "title"@,
        "repo"@ != "old_status"@,
        "repo"@ != "new_status"@,
        "repo"@ != "url"@,
        "number"@ != "title"@,
        "number"@ != "old_status"@,
        "number"@ != "new_status"@,
        "number"@ != "url"@,
        "title"@ != "old_status"@,
        "title"@ != "new_status"@,
        "title"@ != "url"@,
        "old_status"@ != "new_status"@,
        "old_status"@ != "url"@,
        "new_status"@ != "url"@,
{
    reveal_strlit("repo");
    reveal_strlit("branch");
    reveal_strlit("commit");
    reveal_strlit("short_commit");
    reveal_strlit("summary");
    reveal_strlit("old_branch");
    reveal_strlit("new_branch");
    reveal_strlit("number");
    reveal_strlit("title");
    reveal_strlit("old_status");
    reveal_strlit("new_status");
    reveal_strlit("url");
    assert("repo"@.len() == 4);
    assert("branch"@.len() == 6);
    assert("branch"@[0] == 'b');
    assert("commit"@.len() == 6);
    assert("commit"@[0] == 'c');
    assert("short_commit"@.len() == 12);
    assert("summary"@.len() == 7);
    assert("old_branch"@.len() == 10);
    assert("old_branch"@[0] == 'o');
    assert("old_branch"@[4] == 'b');
    assert("new_branch"@.len() == 10);
    assert("new_branch"@[0] == 'n');
    assert("new_branch"@[4] == 'b');
    assert("number"@.len() == 6);
    assert("number"@[0] == 'n');
    assert("title"@.len() == 5);
    assert("old_status"@.len() == 10);
    assert("old_status"@[0] == 'o');
    assert("old_status"@[4] == 's');
    assert("new_status"@.len() == 10);
    assert("new_status"@[0] == 'n');
    assert("new_status"@[4] == 's');
    assert("url"@.len() == 3);
}

proof fn lemma_commit_is_told(
    repo: GitRepoMonitorView,
    snapshot: GitView,
    commits: Seq<CommitView>,
    i: int,
)
    requires
        0 <= i < commits.len(),
    ensures
        tells_commit(
            monitor::commit_events(repo, snapshot, commits)[i],
            repo,
            snapshot,
            commits[i],
        ),
{
    lemma_names();
}

proof fn lemma_pulls_are_told(
    repo: GitRepoMonitorView,
    snapshot: GitView,
    previous: Pulls,
    pulls: Pulls,
)
    ensures
        ({
            let told = monitor::pull_events(repo, snapshot, previous, pulls);
            let changed = changed_pulls(previous, pulls);
            &&& told.len() == changed.len()
            &&& forall|i: int|
                0 <= i < told.len() ==> tells_pull(
                    #[trigger] told[i],
                    repo,
                    snapshot,
                    previous,
                    changed[i],
                )
        }),
    decreases pulls.len(),
{
    reveal(Seq::filter);
    if pulls.len() > 0 {
        lemma_pulls_are_told(repo, snapshot, previous, pulls.drop_last());
        lemma_names();
    }
}

/// The first look at a repository tells nothing, whatever it finds.
pub proof fn law_first_look_at_a_repository(
    repo: GitRepoMonitorView,
    snapshot: GitView,
    listed: Option<Seq<CommitView>>,
    fetched: Option<Pulls>,
)
    ensures
        monitor::git_events(repo, None, snapshot, listed, fetched).len() == 0,
{
}

/// A later look tells, as far as the repository is to tell it, first of a change of
/// branches, then of each new commit in order, and last of each pull request that is new or
/// whose status changed. The new commits of another head are those that were listed, all of
/// them, or where none were the commits of the head itself.
pub proof fn law_look_at_a_repository(
    repo: GitRepoMonitorView,
    before: RepoView,
    snapshot: GitView,
    listed: Option<Seq<CommitView>>,
    fetched: Option<Pulls>,
)
    ensures
        ({
            let told = monitor::git_events(repo, Some(before), snapshot, listed, fetched);
            let commits = if !repo.emit_commits || before.head == snapshot.head {
                Seq::empty()
            } else if listed is Some && listed->Some_0.len() > 0 {
                listed->Some_0
            } else {
                snapshot.commits
            };
            let pulls = if !repo.emit_pr_status || fetched is None {
                Seq::empty()
            } else {
                changed_pulls(before.prs, fetched->Some_0)
            };
            let branches: int = if repo.emit_branch_changes && before.branch != snapshot.branch {
                1
            } else {
                0
            };
            &&& told.len() == branches + commits.len() + pulls.len()
            &&& branches == 1 ==> tells_branch(told[0], repo, snapshot, before.branch)
            &&& forall|i: int|
                0 <= i < commits.len() ==> tells_commit(
                    told[branches + i],
                    repo,
                    snapshot,
                    #[trigger] commits[i],
                )
            &&& forall|i: int|
                0 <= i < pulls.len() ==> tells_pull(
                    told[branches + commits.len() as int + i],
                    repo,
                    snapshot,
                    before.prs,
                    #[trigger] pulls[i],
                )
        }),
{
    let told = monitor::git_events(repo, Some(before), snapshot, listed, fetched);
    let commits = if !repo.emit_commits || before.head == snapshot.head {
        Seq::empty()
    } else if listed is Some && listed->Some_0.len() > 0 {
        listed->Some_0
    } else {
        snapshot.commits
    };
    let pulls = if !repo.emit_pr_status || fetched is None {
        Seq::empty()
    } else {
        changed_pulls(before.prs, fetched->Some_0)
    };
    let branches: int = if repo.emit_branch_changes && before.branch != snapshot.branch {
        1
    } else {
        0
    };
    let first = monitor::branch_events(repo, before, snapshot);
    let second = monitor::commit_events(repo, snapshot, commits);
    let third = if repo.emit_pr_status && fetched is Some {
        monitor::pull_events(repo, snapshot, before.prs, fetched->Some_0)
    } else {
        Seq::empty()
    };
    if fetched is Some {
        lemma_pulls_are_told(repo, snapshot, before.prs, fetched->Some_0);
    }
    assert(told =~= first + second + third);
    if branches == 1 {
        lemma_names();
        assert(told[0] == first[0]);
    }
    assert forall|i: int| 0 <= i < commits.len() implies tells_commit(
        told[branches + i],
        repo,
        snapshot,
        #[trigger] commits[i],
    ) by {
        lemma_commit_is_told(repo, snapshot, commits, i);
        assert(told[branches + i] == second[i]);
    }
    assert forall|i: int| 0 <= i < pulls.len() implies tells_pull(
        told[branches + commits.len() as int + i],
        repo,
        snapshot,
        before.prs,
        #[trigger] pulls[i],
    ) by {
        assert(told[branches + commits.len() as int + i] == third[i]);
    }
}

/// After a look the repository is remembered at the branch and the head that were found, and
/// with the pull requests that were fetched; where none were, or none are wanted, with those
/// that were remembered before.
pub proof fn law_repository_is_remembered(
    repo: GitRepoMonitorView,
    previous: Option<RepoView>,
    snapshot: GitView,
    fetched: Option<Pulls>,
)
    ensures
        ({
            let after = monitor::repo_after(repo, previous, snapshot, fetched);
            &&& after.branch == snapshot.branch
            &&& after.head == snapshot.head
            &&& repo.emit_pr_status && fetched is Some ==> after.prs == fetched->Some_0
            &&& !repo.emit_pr_status || fetched is None ==> (previous matches Some(p) ==> after.prs
                == p.prs) && (previous is None ==> after.prs.len() == 0)
        }),
{
}

/// A change is told once: a second look that finds what the first one found tells nothing.
pub proof fn law_change_is_told_once(
    repo: GitRepoMonitorView,
    previous: Option<RepoView>,
    snapshot: GitView,
    listed: Option<Seq<CommitView>>,
    fetched: Option<Pulls>,
)
    requires
        fetched matches Some(pulls) ==> forall|i: int, j: int|
            #![trigger pulls[i], pulls[j]]
            0 <= i < j < pulls.len() ==> pulls[i].0 != pulls[j].0,
    ensures
        monitor::git_events(
            repo,
            Some(monitor::repo_after(repo, previous, snapshot, fetched)),
            snapshot,
            listed,
            fetched,
        ).len() == 0,
{
    match fetched {
        Some(pulls) => monitor::law_same_pull_requests_are_silent(repo, snapshot, pulls),
        None => {},
    }
}

/// A pull request is found by its number: the last one with that number counts.
pub proof fn law_pull_request_is_found(pulls: Pulls, i: int)
    requires
        0 <= i < pulls.len(),
        forall|j: int| i < j < pulls.len() ==> (#[trigger] pulls[j]).0 != pulls[i].0,
    ensures
        monitor::pull_of(pulls, pulls[i].0) == Some(pulls[i].1),
    decreases pulls.len(),
{
    if i < pulls.len() - 1 {
        let front = pulls.drop_last();
        assert(pulls[pulls.len() - 1].0 != pulls[i].0);
        assert(front[i] == pulls[i]);
        assert forall|j: int| i < j < front.len() implies (#[trigger] front[j]).0 != front[i].0 by {
            assert(pulls[j].0 != pulls[i].0);
        }
        law_pull_request_is_found(front, i);
    }
}

/// A number that no pull request has is not found.
pub proof fn law_unknown_pull_request(pulls: Pulls, number: u64)
    requires
        forall|j: int| 0 <= j < pulls.len() ==> (#[trigger] pulls[j]).0 != number,
    ensures
        monitor::pull_of(pulls, number) is None,
    decreases pulls.len(),
{
    if pulls.len() > 0 {
        let front = pulls.drop_last();
        assert(pulls[pulls.len() - 1].0 != number);
        assert forall|j: int| 0 <= j < front.len() implies (#[trigger] front[j]).0 != number by {
            assert(pulls[j].0 != number);
        }
        law_unknown_pull_request(front, number);
    }
}

proof fn lemma_with_pull(pulls: Pulls, number: u64, pull: monitor::PullView, other: u64)
    ensures
        monitor::pull_of(monitor::with_pull(pulls, number, pull), number) == Some(pull),
        other != number ==> monitor::pull_of(monitor::with_pull(pulls, number, pull), other)
            == monitor::pull_of(pulls, other),
    decreases pulls.len(),
{
    let after = monitor::with_pull(pulls, number, pull);
    if pulls.len() == 0 {
        reveal_with_fuel(monitor::pull_of, 3);
    } else if pulls.last().0 == number {
        assert(after.drop_last() =~= pulls.drop_last());
    } else if monitor::pull_of(pulls, number) is Some {
        lemma_with_pull(pulls.drop_last(), number, pull, other);
        assert(after.drop_last() =~= monitor::with_pull(pulls.drop_last(), number, pull));
    } else {
        assert(after.drop_last() =~= pulls);
    }
}

/// Of the pull requests that GitHub lists each is kept with its title and address, as merged
/// where it has a moment of merging and else with the state that GitHub gives it.
pub proof fn law_listed_pull_request_is_kept(list: Seq<GitHubPullRequest>, i: int)
    requires
        0 <= i < list.len(),
        forall|j: int| i < j < list.len() ==> (#[trigger] list[j]).number != list[i].number,
    ensures
        monitor::pull_of(monitor::pulls_of(list), list[i].number) matches Some(kept)
            && kept.title == list[i].title@ && kept.url == list[i].html_url@ && kept.status == (
        if list[i].merged_at is Some {
            "merged"@
        } else {
            list[i].state@
        }),
    decreases list.len(),
{
    let front = list.drop_last();
    lemma_with_pull(
        monitor::pulls_of(front),
        list.last().number,
        monitor::pull_view(list.last()),
        list[i].number,
    );
    if i < list.len() - 1 {
        assert(list[list.len() - 1].number != list[i].number);
        assert(front[i] == list[i]);
        assert forall|j: int| i < j < front.len() implies (#[trigger] front[j]).number
            != front[i].number by {
            assert(list[j].number != list[i].number);
        }
        law_listed_pull_request_is_kept(front, i);
    }
}

/// A repository is named as it was told to be, and its GitHub repository is the one it was
/// given, or else the one that the address of its remote names.
pub proof fn law_snapshot_says_what_git_says(
    repo: GitRepoMonitorView,
    head: Seq<char>,
    branch: Seq<char>,
    summary: Seq<char>,
    remote_url: Seq<char>,
)
    ensures
        ({
            let s = monitor::snapshot_of(repo, head, branch, summary, remote_url);
            &&& s.head == head
            &&& s.branch == branch
            &&& s.commits.len() == 1
            &&& s.commits[0].sha == head
            &&& s.commits[0].summary == summary
            &&& repo.name matches Some(name) ==> s.repo_name == name
            &&& repo.github_repo matches Some(name) ==> s.github_repo == Some(name)
            &&& repo.github_repo is None ==> s.github_repo == monitor::github_repo_in(remote_url)
        }),
{
}

/// A remote on GitHub names its repository, in each of the three notations of its address.
pub proof fn law_remote_names_its_repository(name: Seq<char>)
    requires
        text::trimmed("git@github.com:"@ + name) == "git@github.com:"@ + name,
        text::trimmed("https://github.com/"@ + name) == "https://github.com/"@ + name,
        text::trimmed("ssh://git@github.com/"@ + name) == "ssh://git@github.com/"@ + name,
        !text::finishes_with("git@github.com:"@ + name, ".git"@),
        !text::finishes_with("https://github.com/"@ + name, ".git"@),
        !text::finishes_with("ssh://git@github.com/"@ + name, ".git"@),
    ensures
        monitor::github_repo_in("git@github.com:"@ + name) == Some(name),
        monitor::github_repo_in("https://github.com/"@ + name) == Some(name),
        monitor::github_repo_in("ssh://git@github.com/"@ + name) == Some(name),
{
    reveal_strlit("git@github.com:");
    reveal_strlit("https://github.com/");
    reveal_strlit("ssh://git@github.com/");
    let a = "git@github.com:"@ + name;
    let b = "https://github.com/"@ + name;
    let c = "ssh://git@github.com/"@ + name;
    assert(a.subrange(0, 15) =~= "git@github.com:"@);
    assert(a.skip(15) =~= name);
    assert(b.subrange(0, 19) =~= "https://github.com/"@);
    assert(b.skip(19) =~= name);
    assert(c.subrange(0, 21) =~= "ssh://git@github.com/"@);
    assert(c.skip(21) =~= name);
    assert(b[0] == 'h' && c[0] == 's');
    if text::begins_with(b, "git@github.com:"@) {
        assert(b.subrange(0, 15)[0] == b[0]);
    }
    if text::begins_with(c, "git@github.com:"@) {
        assert(c.subrange(0, 15)[0] == c[0]);
    }
    if text::begins_with(c, "https://github.com/"@) {
        assert(c.subrange(0, 19)[0] == c[0]);
    }
}

/// The pull requests of a repository are listed below its name.
pub proof fn law_address_of_pull_requests(base: Seq<char>, name: Seq<char>)
    requires
        !text::finishes_with(base, "/"@),
    ensures
        monitor::pulls_address(base, name) == base + "/repos/"@ + name + "/pulls"@,
        monitor::pulls_address(base + "/"@, name) == base + "/repos/"@ + name + "/pulls"@,
{
    reveal_strlit("/");
    let more = base + "/"@;
    assert(more.subrange(more.len() - 1, more.len() as int) =~= "/"@);
    assert(more.take(more.len() - 1) =~= base);
    reveal_with_fuel(monitor::without_endings, 2);
}

/// A line of a log with a unit separator is a commit and its summary.
pub proof fn law_log_lists_its_commits(lines: Seq<Seq<char>>, sha: Seq<char>, summary: Seq<char>)
    requires
        !sha.contains('\u{1f}'),
    ensures
        monitor::commits_in(lines.push(sha.push('\u{1f}') + summary)) == monitor::commits_in(
            lines,
        ).push(CommitView { sha, summary }),
{
    let line = sha.push('\u{1f}') + summary;
    lemma_split_at_separator(sha, summary);
    assert(lines.push(line).drop_last() =~= lines);
}

proof fn lemma_split_at_separator(sha: Seq<char>, summary: Seq<char>)
    requires
        !sha.contains('\u{1f}'),
    ensures
        scan::split_first(sha.push('\u{1f}') + summary, '\u{1f}') == Some((sha, summary)),
    decreases sha.len(),
{
    let line = sha.push('\u{1f}') + summary;
    if sha.len() == 0 {
        assert(line.drop_first() =~= summary);
        assert(sha =~= Seq::empty());
    } else {
        assert(sha[0] != '\u{1f}');
        let rest = sha.drop_first();
        assert(!rest.contains('\u{1f}')) by {
            if rest.contains('\u{1f}') {
                let i = choose|i: int| 0 <= i < rest.len() && rest[i] == '\u{1f}';
                assert(sha[i + 1] == '\u{1f}');
            }
        }
        lemma_split_at_separator(rest, summary);
        assert(line.drop_first() =~= rest.push('\u{1f}') + summary);
        assert(seq![sha[0]] + rest =~= sha);
    }
}

/// The commits of a repository are listed where they are told of and its head is another than
/// the one that is known.
pub proof fn law_when_commits_are_listed(
    repo: GitRepoMonitorView,
    before: RepoView,
    snapshot: GitView,
)
    ensures
        !monitor::lists_commits(repo, None, snapshot),
        monitor::lists_commits(repo, Some(before), snapshot) <==> repo.emit_commits && before.head
            != snapshot.head,
{
}

} // verus!
