//! What happens in the repositories and sessions that the monitor polls.
use vstd::prelude::*;
use vstd::string::*;

use crate::compose::{cat2, cat3, cat4};
use crate::config::{AppConfig, GitRepoMonitor, GitRepoMonitorView};
use crate::events;
use crate::events::{EventView, IncomingEvent};
use crate::json;
use crate::keywords;
use crate::keywords::{collect_keyword_hits, elapsed_ms, last_nonempty_line, HitView, KeywordHit};
use crate::paths;
use crate::paths::file_name_of;
use crate::registry;
use crate::registry::{
    configured_registrations, RegisteredTmuxSession, RegistrationView, Registry,
};
use crate::scan;
use crate::scan::{lines_of, split_once};
use crate::table;
use crate::table::{find_entry, keep_marked, remove_entry, set_entry};
use crate::text;
use crate::text::{copy_opt, ends_with, same, starts_with, strip_prefix, trim};
use crate::tmux;
use crate::tmux::{keep_keys, Panes, PaneView, ProbeView, SessionProbe, SnapshotView, TmuxPaneSnapshot, TmuxPaneState};

verus! {

broadcast use crate::text::views_push;

// ---------------------------------------------------------------------------
// Repositories
// ---------------------------------------------------------------------------

/// A text without the endings of one form that it has, however many.
pub open spec fn without_endings(s: Seq<char>, ending: Seq<char>) -> Seq<char>
    decreases s.len(),
{
    if ending.len() > 0 && text::finishes_with(s, ending) {
        without_endings(s.take(s.len() - ending.len()), ending)
    } else {
        s
    }
}

/// A text without the endings of one form that it has, however many.
pub fn trim_endings<'a>(s: &'a str, ending: &str) -> (r: &'a str)
    ensures
        r@ == without_endings(s@, ending@),
{
    let mut rest = s;
    let n = ending.unicode_len();
    while n > 0 && ends_with(rest, ending)
        invariant
            n == ending@.len(),
            without_endings(s@, ending@) == without_endings(rest@, ending@),
        decreases rest@.len(),
    {
        let len = rest.unicode_len();
        assert(rest@.subrange(0, len - n) =~= rest@.take(len - n));
        rest = rest.substring_char(0, len - n);
    }
    rest
}

/// The GitHub repository that the address of a remote names.
pub open spec fn github_repo_in(remote: Seq<char>) -> Option<Seq<char>> {
    let address = without_endings(text::trimmed(remote), ".git"@);
    text::or_else(
        text::after_prefix(address, "git@github.com:"@),
        text::or_else(
            text::after_prefix(address, "https://github.com/"@),
            text::after_prefix(address, "ssh://git@github.com/"@),
        ),
    )
}

/// The GitHub repository that the address of a remote names.
pub fn parse_github_repo(remote: &str) -> (r: Option<String>)
    ensures
        text::opt_text(r) == github_repo_in(remote@),
{
    let address = trim_endings(trim(remote), ".git");
    match strip_prefix(address, "git@github.com:") {
        Some(rest) => {
            return Some(rest.to_owned());
        },
        None => {},
    }
    match strip_prefix(address, "https://github.com/") {
        Some(rest) => {
            return Some(rest.to_owned());
        },
        None => {},
    }
    match strip_prefix(address, "ssh://git@github.com/") {
        Some(rest) => Some(rest.to_owned()),
        None => None,
    }
}

/// A commit and the first line of its message.
#[derive(Debug)]
pub struct CommitEntry {
    pub sha: String,
    pub summary: String,
}

/// A commit and the first line of its message.
pub struct CommitView {
    pub sha: Seq<char>,
    pub summary: Seq<char>,
}

impl View for CommitEntry {
    type V = CommitView;

    open spec fn view(&self) -> CommitView {
        CommitView { sha: self.sha@, summary: self.summary@ }
    }
}

impl Clone for CommitEntry {
    fn clone(&self) -> (r: Self)
        ensures
            r@ == self@,
    {
        CommitEntry { sha: self.sha.clone(), summary: self.summary.clone() }
    }
}

/// The commits of a log: in each line a unit separator stands between the commit
/// and its message, and a line without one is passed over.
pub open spec fn commits_in(lines: Seq<Seq<char>>) -> Seq<CommitView>
    decreases lines.len(),
{
    if lines.len() == 0 {
        Seq::empty()
    } else {
        match scan::split_first(lines.last(), '\u{1f}') {
            Some((sha, summary)) => commits_in(lines.drop_last()).push(CommitView { sha, summary }),
            None => commits_in(lines.drop_last()),
        }
    }
}

/// Reads the commits of a log.
pub fn parse_commits(output: &str) -> (r: Vec<CommitEntry>)
    ensures
        text::all_views(r@) == commits_in(scan::lines(output@)),
{
    let lines = lines_of(output);
    let ghost all = text::views(lines@);
    let mut out: Vec<CommitEntry> = Vec::new();
    let mut i: usize = 0;
    assert(text::all_views(out@) =~= Seq::<CommitView>::empty());
    while i < lines.len()
        invariant
            i <= lines.len(),
            all == text::views(lines@),
            text::all_views(out@) == commits_in(all.take(i as int)),
        decreases lines.len() - i,
    {
        assert(all.take(i + 1).drop_last() =~= all.take(i as int));
        assert(all.take(i + 1).last() == lines@[i as int]@);
        match split_once(lines[i].as_str(), '\u{1f}') {
            Some((sha, summary)) => {
                let ghost before = text::all_views(out@);
                let entry = CommitEntry { sha: sha.to_owned(), summary: summary.to_owned() };
                let ghost view = entry@;
                out.push(entry);
                assert(text::all_views(out@) =~= before.push(view));
            },
            None => {},
        }
        i = i + 1;
    }
    assert(all.take(i as int) =~= all);
    out
}

/// A repository as it is now.
#[derive(Debug)]
pub struct GitSnapshot {
    pub repo_name: String,
    pub branch: String,
    pub head: String,
    pub commits: Vec<CommitEntry>,
    pub github_repo: Option<String>,
}

/// A repository as it is now.
pub struct GitView {
    pub repo_name: Seq<char>,
    pub branch: Seq<char>,
    pub head: Seq<char>,
    pub commits: Seq<CommitView>,
    pub github_repo: Option<Seq<char>>,
}

impl View for GitSnapshot {
    type V = GitView;

    open spec fn view(&self) -> GitView {
        GitView {
            repo_name: self.repo_name@,
            branch: self.branch@,
            head: self.head@,
            commits: text::all_views(self.commits@),
            github_repo: text::opt_text(self.github_repo),
        }
    }
}

/// The name of a repository: the one it was given, or that of its directory.
pub open spec fn repo_name_of(repo: GitRepoMonitorView) -> Seq<char> {
    match repo.name {
        Some(name) => name,
        None => match paths::file_name(repo.path) {
            Some(name) => name,
            None => repo.path,
        },
    }
}

/// A repository as git describes it.
pub open spec fn snapshot_of(
    repo: GitRepoMonitorView,
    head: Seq<char>,
    branch: Seq<char>,
    summary: Seq<char>,
    remote_url: Seq<char>,
) -> GitView {
    GitView {
        repo_name: repo_name_of(repo),
        branch,
        head,
        commits: seq![CommitView { sha: head, summary }],
        github_repo: text::or_else(repo.github_repo, github_repo_in(remote_url)),
    }
}

/// A repository as git describes it.
pub fn snapshot_git_repo(
    repo: &GitRepoMonitor,
    head: String,
    branch: String,
    summary: String,
    remote_url: &str,
) -> (r: GitSnapshot)
    ensures
        r@ == snapshot_of(repo@, head@, branch@, summary@, remote_url@),
{
    let repo_name = match &repo.name {
        Some(name) => name.clone(),
        None => match file_name_of(repo.path.as_str()) {
            Some(name) => name,
            None => repo.path.clone(),
        },
    };
    let github_repo = match &repo.github_repo {
        Some(name) => Some(name.clone()),
        None => parse_github_repo(remote_url),
    };
    let mut commits: Vec<CommitEntry> = Vec::new();
    let entry = CommitEntry { sha: head.clone(), summary };
    let ghost view = entry@;
    commits.push(entry);
    assert(text::all_views(commits@) =~= seq![view]);
    GitSnapshot { repo_name, branch, head, commits, github_repo }
}

// ---------------------------------------------------------------------------
// Pull requests
// ---------------------------------------------------------------------------

/// A pull request as GitHub lists it.
#[derive(Debug)]
pub struct GitHubPullRequest {
    pub number: u64,
    pub title: String,
    pub state: String,
    pub html_url: String,
    pub merged_at: Option<String>,
}

/// What is kept of a pull request.
#[derive(Debug)]
pub struct PullRequestSnapshot {
    pub title: String,
    pub status: String,
    pub url: String,
}

/// What is kept of a pull request.
pub struct PullView {
    pub title: Seq<char>,
    pub status: Seq<char>,
    pub url: Seq<char>,
}

impl View for PullRequestSnapshot {
    type V = PullView;

    open spec fn view(&self) -> PullView {
        PullView { title: self.title@, status: self.status@, url: self.url@ }
    }
}

impl Clone for PullRequestSnapshot {
    fn clone(&self) -> (r: Self)
        ensures
            r@ == self@,
    {
        PullRequestSnapshot {
            title: self.title.clone(),
            status: self.status.clone(),
            url: self.url.clone(),
        }
    }
}

/// Pull requests by number, each number once.
pub type Pulls = Seq<(u64, PullView)>;

/// The pull requests of a list.
pub open spec fn pulls_in(list: Seq<(u64, PullRequestSnapshot)>) -> Pulls {
    Seq::new(list.len(), |i: int| (list[i].0, list[i].1@))
}

/// The pull request of a number.
pub open spec fn pull_of(pulls: Pulls, number: u64) -> Option<PullView>
    decreases pulls.len(),
{
    if pulls.len() == 0 {
        None
    } else if pulls.last().0 == number {
        Some(pulls.last().1)
    } else {
        pull_of(pulls.drop_last(), number)
    }
}

/// Pull requests with one more, in the place of one with the same number.
pub open spec fn with_pull(pulls: Pulls, number: u64, pull: PullView) -> Pulls
    decreases pulls.len(),
{
    if pulls.len() == 0 {
        seq![(number, pull)]
    } else if pulls.last().0 == number {
        pulls.drop_last().push((number, pull))
    } else if pull_of(pulls, number) is Some {
        with_pull(pulls.drop_last(), number, pull).push(pulls.last())
    } else {
        pulls.push((number, pull))
    }
}

/// What is kept of a pull request that GitHub lists: it is merged where it has a
/// moment of merging.
pub open spec fn pull_view(pull: GitHubPullRequest) -> PullView {
    PullView {
        title: pull.title@,
        status: if pull.merged_at is Some {
            "merged"@
        } else {
            pull.state@
        },
        url: pull.html_url@,
    }
}

/// What is kept of the pull requests that GitHub lists.
pub open spec fn pulls_of(list: Seq<GitHubPullRequest>) -> Pulls
    decreases list.len(),
{
    if list.len() == 0 {
        Seq::empty()
    } else {
        with_pull(pulls_of(list.drop_last()), list.last().number, pull_view(list.last()))
    }
}

fn find_pull<'a>(pulls: &'a Vec<(u64, PullRequestSnapshot)>, number: u64) -> (r: Option<
    &'a PullRequestSnapshot,
>)
    ensures
        table::opt_view(r) == pull_of(pulls_in(pulls@), number),
{
    let ghost all = pulls_in(pulls@);
    let mut i: usize = pulls.len();
    assert(all.take(i as int) =~= all);
    while i > 0
        invariant
            i <= pulls.len(),
            all == pulls_in(pulls@),
            pull_of(all, number) == pull_of(all.take(i as int), number),
        decreases i,
    {
        assert(all.take(i as int).drop_last() =~= all.take(i - 1));
        assert(all.take(i as int).last() == all[i - 1]);
        if pulls[i - 1].0 == number {
            return Some(&pulls[i - 1].1);
        }
        i = i - 1;
    }
    None
}

fn set_pull(pulls: &mut Vec<(u64, PullRequestSnapshot)>, number: u64, pull: PullRequestSnapshot)
    ensures
        pulls_in(final(pulls)@) == with_pull(pulls_in(old(pulls)@), number, pull@),
{
    let ghost all = pulls_in(pulls@);
    let mut i: usize = pulls.len();
    assert(all.take(i as int) =~= all);
    assert(all.skip(i as int) =~= Seq::empty());
    assert(with_pull(all, number, pull@) + Seq::empty() =~= with_pull(all, number, pull@));
    while i > 0
        invariant
            i <= pulls.len(),
            pulls@ == old(pulls)@,
            all == pulls_in(pulls@),
            pull_of(all, number) == pull_of(all.take(i as int), number),
            pull_of(all, number) is Some ==> with_pull(all, number, pull@) == with_pull(
                all.take(i as int),
                number,
                pull@,
            ) + all.skip(i as int),
        decreases i,
    {
        let ghost front = all.take(i as int);
        assert(front.drop_last() =~= all.take(i - 1));
        assert(front.last() == all[i - 1]);
        if pulls[i - 1].0 == number {
            let ghost view = pull@;
            pulls[i - 1] = (number, pull);
            assert(pulls_in(pulls@) =~= all.update(i - 1, (number, view)));
            assert(all.update(i - 1, (number, view)) =~= front.drop_last().push((number, view))
                + all.skip(i as int));
            return ;
        }
        proof {
            if pull_of(all, number) is Some {
                let inner = with_pull(front.drop_last(), number, pull@);
                assert(all.skip(i - 1) =~= seq![front.last()] + all.skip(i as int));
                assert(inner.push(front.last()) + all.skip(i as int) =~= inner + all.skip(i - 1));
            }
        }
        i = i - 1;
    }
    assert(pull_of(all, number) is None);
    let ghost view = pull@;
    pulls.push((number, pull));
    assert(pulls_in(pulls@) =~= all.push((number, view)));
    if pulls.len() == 1 {
        assert(all.push((number, view)) =~= seq![(number, view)]);
    }
}

/// What is kept of the pull requests that GitHub lists.
pub fn pull_request_snapshots(list: &Vec<GitHubPullRequest>) -> (r: Vec<(u64, PullRequestSnapshot)>)
    ensures
        pulls_in(r@) == pulls_of(list@),
{
    let mut out: Vec<(u64, PullRequestSnapshot)> = Vec::new();
    let mut i: usize = 0;
    assert(pulls_in(out@) =~= Seq::empty());
    while i < list.len()
        invariant
            i <= list.len(),
            pulls_in(out@) == pulls_of(list@.take(i as int)),
        decreases list.len() - i,
    {
        assert(list@.take(i + 1).drop_last() =~= list@.take(i as int));
        let pull = &list[i];
        let status = if pull.merged_at.is_some() {
            "merged".to_owned()
        } else {
            pull.state.clone()
        };
        set_pull(
            &mut out,
            pull.number,
            PullRequestSnapshot { title: pull.title.clone(), status, url: pull.html_url.clone() },
        );
        i = i + 1;
    }
    assert(list@.take(i as int) =~= list@);
    out
}

/// The address of the pull requests of a repository.
pub open spec fn pulls_address(api_base: Seq<char>, github_repo: Seq<char>) -> Seq<char> {
    without_endings(api_base, "/"@) + "/repos/"@ + github_repo + "/pulls"@
}

/// The address at which the pull requests of a repository are listed, or why
/// there is none.
pub fn pull_request_url(api_base: &str, repo: &GitRepoMonitor, snapshot: &GitSnapshot) -> (r: Result<
    String,
    String,
>)
    ensures
        text::text_result(r) == (match snapshot@.github_repo {
            Some(name) => Ok(pulls_address(api_base@, name)),
            None => Err("no GitHub repo configured or inferred for "@ + repo@.path),
        }),
{
    match &snapshot.github_repo {
        Some(name) => {
            Ok(cat4(trim_endings(api_base, "/"), "/repos/", name.as_str(), "/pulls"))
        },
        None => Err(cat2("no GitHub repo configured or inferred for ", repo.path.as_str())),
    }
}

// ---------------------------------------------------------------------------
// A look at a repository
// ---------------------------------------------------------------------------

/// A repository as it was last seen.
#[derive(Debug)]
pub struct GitRepoState {
    pub branch: String,
    pub head: String,
    pub prs: Vec<(u64, PullRequestSnapshot)>,
}

/// A repository as it was last seen.
pub struct RepoView {
    pub branch: Seq<char>,
    pub head: Seq<char>,
    pub prs: Pulls,
}

impl View for GitRepoState {
    type V = RepoView;

    open spec fn view(&self) -> RepoView {
        RepoView { branch: self.branch@, head: self.head@, prs: pulls_in(self.prs@) }
    }
}

/// An event of a repository.
pub open spec fn repo_event(repo: GitRepoMonitorView, event: EventView) -> EventView {
    EventView { channel: repo.channel, format: repo.format, ..event }
}

/// The event of a change of branches.
pub open spec fn branch_events(
    repo: GitRepoMonitorView,
    previous: RepoView,
    snapshot: GitView,
) -> Seq<EventView> {
    if repo.emit_branch_changes && previous.branch != snapshot.branch {
        seq![
            repo_event(
                repo,
                events::plain_event(
                    "git.branch-changed"@,
                    None,
                    json::empty().with_text("repo"@, snapshot.repo_name).with_text(
                        "old_branch"@,
                        previous.branch,
                    ).with_text("new_branch"@, snapshot.branch),
                ),
            ),
        ]
    } else {
        Seq::empty()
    }
}

/// The commits of a look at a repository have to be listed.
pub open spec fn lists_commits(
    repo: GitRepoMonitorView,
    previous: Option<RepoView>,
    snapshot: GitView,
) -> bool {
    repo.emit_commits && (previous matches Some(p) && p.head != snapshot.head)
}

/// The commits that are new: those that were listed, or where there are none the
/// one at the head.
pub open spec fn new_commits(listed: Option<Seq<CommitView>>, snapshot: GitView) -> Seq<CommitView> {
    match listed {
        Some(commits) => if commits.len() > 0 {
            commits
        } else {
            snapshot.commits
        },
        None => snapshot.commits,
    }
}

/// The events of new commits.
pub open spec fn commit_events(
    repo: GitRepoMonitorView,
    snapshot: GitView,
    commits: Seq<CommitView>,
) -> Seq<EventView> {
    Seq::new(
        commits.len(),
        |i: int|
            repo_event(
                repo,
                events::plain_event(
                    "git.commit"@,
                    None,
                    events::commit_payload(
                        snapshot.repo_name,
                        snapshot.branch,
                        commits[i].sha,
                        commits[i].summary,
                    ),
                ),
            ),
    )
}

/// The events of the pull requests whose status changed.
pub open spec fn pull_events(
    repo: GitRepoMonitorView,
    snapshot: GitView,
    previous: Pulls,
    pulls: Pulls,
) -> Seq<EventView>
    decreases pulls.len(),
{
    if pulls.len() == 0 {
        Seq::empty()
    } else {
        let so_far = pull_events(repo, snapshot, previous, pulls.drop_last());
        let (number, pull) = pulls.last();
        let known = pull_of(previous, number);
        if known matches Some(old_pull) && old_pull.status == pull.status {
            so_far
        } else {
            so_far.push(
                repo_event(
                    repo,
                    events::plain_event(
                        "git.pr-status-changed"@,
                        None,
                        events::pr_status_payload(
                            snapshot.repo_name,
                            number,
                            pull.title,
                            match known {
                                Some(old_pull) => old_pull.status,
                                None => "<new>"@,
                            },
                            pull.status,
                            pull.url,
                        ),
                    ),
                ),
            )
        }
    }
}

/// The events of a look at a repository: none where it is the first.
pub open spec fn git_events(
    repo: GitRepoMonitorView,
    previous: Option<RepoView>,
    snapshot: GitView,
    listed: Option<Seq<CommitView>>,
    fetched: Option<Pulls>,
) -> Seq<EventView> {
    match previous {
        None => Seq::empty(),
        Some(p) => branch_events(repo, p, snapshot) + (if lists_commits(repo, previous, snapshot) {
            commit_events(repo, snapshot, new_commits(listed, snapshot))
        } else {
            Seq::empty()
        }) + (match fetched {
            Some(pulls) => if repo.emit_pr_status {
                pull_events(repo, snapshot, p.prs, pulls)
            } else {
                Seq::empty()
            },
            None => Seq::empty(),
        }),
    }
}

/// What is remembered of a repository after a look at it: its pull requests stay
/// where they could not be fetched.
pub open spec fn repo_after(
    repo: GitRepoMonitorView,
    previous: Option<RepoView>,
    snapshot: GitView,
    fetched: Option<Pulls>,
) -> RepoView {
    let stays = match previous {
        Some(p) => p.prs,
        None => Seq::empty(),
    };
    RepoView {
        branch: snapshot.branch,
        head: snapshot.head,
        prs: match fetched {
            Some(pulls) => if repo.emit_pr_status {
                pulls
            } else {
                stays
            },
            None => stays,
        },
    }
}

/// Tells whether the new commits of a repository have to be listed.
pub fn needs_commit_list(
    repo: &GitRepoMonitor,
    previous: Option<&GitRepoState>,
    snapshot: &GitSnapshot,
) -> (r: bool)
    ensures
        r == lists_commits(repo@, table::opt_view(previous), snapshot@),
{
    match previous {
        Some(p) => repo.emit_commits && !same(p.head.as_str(), snapshot.head.as_str()),
        None => false,
    }
}

fn push_one(out: &mut Vec<IncomingEvent>, event: IncomingEvent)
    ensures
        text::all_views(final(out)@) == text::all_views(old(out)@).push(event@),
{
    let ghost before = text::all_views(out@);
    let ghost view = event@;
    out.push(event);
    assert(text::all_views(out@) =~= before.push(view));
}

fn push_commit_events(
    out: &mut Vec<IncomingEvent>,
    repo: &GitRepoMonitor,
    snapshot: &GitSnapshot,
    commits: &Vec<CommitEntry>,
)
    ensures
        text::all_views(final(out)@) == text::all_views(old(out)@) + commit_events(
            repo@,
            snapshot@,
            text::all_views(commits@),
        ),
{
    let ghost before = text::all_views(out@);
    let ghost all = text::all_views(commits@);
    let ghost wanted = commit_events(repo@, snapshot@, all);
    let mut i: usize = 0;
    assert(before + wanted.take(0) =~= before);
    while i < commits.len()
        invariant
            i <= commits.len(),
            all == text::all_views(commits@),
            wanted == commit_events(repo@, snapshot@, all),
            text::all_views(out@) == before + wanted.take(i as int),
        decreases commits.len() - i,
    {
        assert(all[i as int] == commits@[i as int]@);
        let event = IncomingEvent::git_commit(
            snapshot.repo_name.clone(),
            snapshot.branch.clone(),
            commits[i].sha.clone(),
            commits[i].summary.clone(),
            copy_opt(&repo.channel),
        ).with_format(repo.format);
        assert(event@ == wanted[i as int]);
        push_one(out, event);
        assert(text::all_views(out@) =~= before + wanted.take(i + 1));
        i = i + 1;
    }
    assert(wanted.take(i as int) =~= wanted);
}

fn push_pull_events(
    out: &mut Vec<IncomingEvent>,
    repo: &GitRepoMonitor,
    snapshot: &GitSnapshot,
    previous: &Vec<(u64, PullRequestSnapshot)>,
    pulls: &Vec<(u64, PullRequestSnapshot)>,
)
    ensures
        text::all_views(final(out)@) == text::all_views(old(out)@) + pull_events(
            repo@,
            snapshot@,
            pulls_in(previous@),
            pulls_in(pulls@),
        ),
{
    let ghost before = text::all_views(out@);
    let ghost known_before = pulls_in(previous@);
    let ghost all = pulls_in(pulls@);
    let mut i: usize = 0;
    assert(before + pull_events(repo@, snapshot@, known_before, all.take(0)) =~= before);
    while i < pulls.len()
        invariant
            i <= pulls.len(),
            all == pulls_in(pulls@),
            known_before == pulls_in(previous@),
            text::all_views(out@) == before + pull_events(
                repo@,
                snapshot@,
                known_before,
                all.take(i as int),
            ),
        decreases pulls.len() - i,
    {
        assert(all.take(i + 1).drop_last() =~= all.take(i as int));
        assert(all.take(i + 1).last() == all[i as int]);
        let number = pulls[i].0;
        let pull = &pulls[i].1;
        let known = find_pull(previous, number);
        let unchanged = match known {
            Some(old_pull) => same(old_pull.status.as_str(), pull.status.as_str()),
            None => false,
        };
        if !unchanged {
            let old_status = match known {
                Some(old_pull) => old_pull.status.clone(),
                None => "<new>".to_owned(),
            };
            let event = IncomingEvent::git_pr_status_changed(
                snapshot.repo_name.clone(),
                number,
                pull.title.clone(),
                old_status,
                pull.status.clone(),
                pull.url.clone(),
                copy_opt(&repo.channel),
            ).with_format(repo.format);
            push_one(out, event);
        }
        assert(text::all_views(out@) =~= before + pull_events(
            repo@,
            snapshot@,
            known_before,
            all.take(i + 1),
        ));
        i = i + 1;
    }
    assert(all.take(i as int) =~= all);
}

/// What was listed, where it was.
pub open spec fn opt_commits(o: Option<&Vec<CommitEntry>>) -> Option<Seq<CommitView>> {
    match o {
        Some(commits) => Some(text::all_views(commits@)),
        None => None,
    }
}

/// What was fetched, where it was.
pub open spec fn opt_pulls(o: Option<Vec<(u64, PullRequestSnapshot)>>) -> Option<Pulls> {
    match o {
        Some(pulls) => Some(pulls_in(pulls@)),
        None => None,
    }
}

fn copy_pulls(pulls: &Vec<(u64, PullRequestSnapshot)>) -> (r: Vec<(u64, PullRequestSnapshot)>)
    ensures
        pulls_in(r@) == pulls_in(pulls@),
{
    let mut out: Vec<(u64, PullRequestSnapshot)> = Vec::new();
    let mut i: usize = 0;
    while i < pulls.len()
        invariant
            i <= pulls.len(),
            pulls_in(out@) == pulls_in(pulls@).take(i as int),
        decreases pulls.len() - i,
    {
        let ghost before = pulls_in(out@);
        let entry = (pulls[i].0, pulls[i].1.clone());
        let ghost view = (entry.0, entry.1@);
        out.push(entry);
        assert(pulls_in(out@) =~= before.push(view));
        assert(pulls_in(out@) =~= pulls_in(pulls@).take(i + 1));
        i = i + 1;
    }
    assert(pulls_in(pulls@).take(i as int) =~= pulls_in(pulls@));
    out
}

/// Looks at a repository: the events that follow, and what is remembered of it.
pub fn observe_repo(
    repo: &GitRepoMonitor,
    previous: Option<&GitRepoState>,
    snapshot: &GitSnapshot,
    listed: Option<&Vec<CommitEntry>>,
    fetched: Option<Vec<(u64, PullRequestSnapshot)>>,
) -> (r: (Vec<IncomingEvent>, GitRepoState))
    ensures
        text::all_views(r.0@) == git_events(
            repo@,
            table::opt_view(previous),
            snapshot@,
            opt_commits(listed),
            opt_pulls(fetched),
        ),
        r.1@ == repo_after(repo@, table::opt_view(previous), snapshot@, opt_pulls(fetched)),
{
    let mut out: Vec<IncomingEvent> = Vec::new();
    assert(text::all_views(out@) =~= Seq::<EventView>::empty());
    match previous {
        Some(p) => {
            if repo.emit_branch_changes && !same(p.branch.as_str(), snapshot.branch.as_str()) {
                let event = IncomingEvent::git_branch_changed(
                    snapshot.repo_name.clone(),
                    p.branch.clone(),
                    snapshot.branch.clone(),
                    copy_opt(&repo.channel),
                ).with_format(repo.format);
                push_one(&mut out, event);
            }
            assert(text::all_views(out@) =~= branch_events(repo@, p@, snapshot@));
            if needs_commit_list(repo, previous, snapshot) {
                let commits = match listed {
                    Some(list) => {
                        assert(text::all_views(list@).len() == list@.len());
                        if list.len() > 0 {
                            list
                        } else {
                            &snapshot.commits
                        }
                    },
                    None => &snapshot.commits,
                };
                push_commit_events(&mut out, repo, snapshot, commits);
            }
            if repo.emit_pr_status {
                match &fetched {
                    Some(pulls) => {
                        push_pull_events(&mut out, repo, snapshot, &p.prs, pulls);
                    },
                    None => {},
                }
            }
            assert(text::all_views(out@) =~= git_events(
                repo@,
                table::opt_view(previous),
                snapshot@,
                opt_commits(listed),
                opt_pulls(fetched),
            ));
        },
        None => {},
    }
    let taken = if repo.emit_pr_status {
        fetched
    } else {
        None
    };
    let prs = match taken {
        Some(pulls) => pulls,
        None => match previous {
            Some(p) => copy_pulls(&p.prs),
            None => {
                let none: Vec<(u64, PullRequestSnapshot)> = Vec::new();
                assert(pulls_in(none@) =~= Seq::empty());
                none
            },
        },
    };
    (out, GitRepoState { branch: snapshot.branch.clone(), head: snapshot.head.clone(), prs })
}

/// Looks at a repository and remembers it: the events that follow.
pub fn poll_git_repo(
    state: &mut Vec<(String, GitRepoState)>,
    repo: &GitRepoMonitor,
    snapshot: &GitSnapshot,
    listed: Option<&Vec<CommitEntry>>,
    fetched: Option<Vec<(u64, PullRequestSnapshot)>>,
) -> (r: Vec<IncomingEvent>)
    ensures
        ({
            let previous = table::lookup(table::pairs(old(state)@), repo@.path);
            &&& text::all_views(r@) == git_events(
                repo@,
                previous,
                snapshot@,
                opt_commits(listed),
                opt_pulls(fetched),
            )
            &&& table::pairs(final(state)@) == table::put(
                table::pairs(old(state)@),
                repo@.path,
                repo_after(repo@, previous, snapshot@, opt_pulls(fetched)),
            )
        }),
{
    let (out, after) = observe_repo(
        repo,
        find_entry(state, repo.path.as_str()),
        snapshot,
        listed,
        fetched,
    );
    set_entry(state, repo.path.as_str(), after);
    out
}

// ---------------------------------------------------------------------------
// Messages
// ---------------------------------------------------------------------------

/// A message with a mention before it, where there is one.
pub open spec fn mentioned(mention: Option<Seq<char>>, content: Seq<char>) -> Seq<char> {
    match text::meaningful_opt(mention) {
        Some(name) => name + " "@ + content,
        None => content,
    }
}

/// A message with a mention before it, where there is one.
pub fn content_with_mention(mention: Option<&str>, content: &str) -> (r: String)
    ensures
        r@ == mentioned(text::opt_str(mention), content@),
{
    match mention {
        Some(name) => {
            let name = trim(name);
            if !name.is_empty() {
                return cat3(name, " ", content);
            }
        },
        None => {},
    }
    content.to_owned()
}

// ---------------------------------------------------------------------------
// Sessions whose hits are reported one by one
// ---------------------------------------------------------------------------

/// The event of one hit.
pub open spec fn hit_event(r: RegistrationView, session: Seq<char>, hit: HitView) -> EventView {
    EventView {
        channel: r.channel,
        format: r.format,
        ..events::plain_event(
            "tmux.keyword"@,
            None,
            json::empty().with_text("session"@, session).with_text(
                "keyword"@,
                hit.keyword,
            ).with_text("line"@, hit.line),
        )
    }
}

/// The events of some hits.
pub open spec fn hit_events(r: RegistrationView, session: Seq<char>, hits: Seq<HitView>) -> Seq<
    EventView,
> {
    Seq::new(hits.len(), |i: int| hit_event(r, session, hits[i]))
}

/// The event of a pane that has not changed for a while.
pub open spec fn idle_event(
    r: RegistrationView,
    session: Seq<char>,
    pane: Seq<char>,
    last_line: Seq<char>,
) -> EventView {
    EventView {
        channel: r.channel,
        format: r.format,
        ..events::plain_event(
            "tmux.stale"@,
            None,
            json::empty().with_text("session"@, session).with_text("pane"@, pane).with_count(
                "minutes"@,
                r.stale_minutes,
            ).with_text("last_line"@, last_line),
        )
    }
}

/// The minutes after which a pane is stale, one at least.
pub open spec fn stale_after(r: RegistrationView) -> u64 {
    if r.stale_minutes > 1 {
        r.stale_minutes
    } else {
        1
    }
}

/// A pane is due to be called stale.
pub open spec fn is_idle(pane: PaneView, r: RegistrationView, now_ms: u64) -> bool {
    tmux::minutes(pane.last_change, now_ms) >= stale_after(r) && tmux::passed(
        pane.last_stale_notification,
        now_ms,
        stale_after(r),
    )
}

/// The events of a look at a pane.
pub open spec fn pane_events(
    existing: Option<PaneView>,
    pane: SnapshotView,
    r: RegistrationView,
    now_ms: u64,
) -> Seq<EventView> {
    match existing {
        None => Seq::empty(),
        Some(known) => if known.snapshot != pane.content {
            hit_events(
                r,
                pane.session,
                keywords::unseen_hits(
                    scan::lines(known.snapshot),
                    scan::lines(pane.content),
                    r.keywords,
                ),
            )
        } else if is_idle(known, r, now_ms) {
            seq![
                idle_event(r, known.session, known.pane_name, keywords::shown_line(pane.content)),
            ]
        } else {
            Seq::empty()
        },
    }
}

/// What is remembered of a pane after a look at it.
pub open spec fn pane_remembered(
    existing: Option<PaneView>,
    pane: SnapshotView,
    r: RegistrationView,
    now_ms: u64,
) -> PaneView {
    match existing {
        None => tmux::first_seen(pane, now_ms),
        Some(known) => if known.snapshot != pane.content {
            PaneView { session: known.session, ..tmux::first_seen(pane, now_ms) }
        } else if is_idle(known, r, now_ms) {
            PaneView { last_stale_notification: Some(now_ms), ..known }
        } else {
            known
        },
    }
}

fn push_hit_events(
    out: &mut Vec<IncomingEvent>,
    registration: &RegisteredTmuxSession,
    session: &str,
    hits: &Vec<KeywordHit>,
)
    ensures
        text::all_views(final(out)@) == text::all_views(old(out)@) + hit_events(
            registration@,
            session@,
            text::all_views(hits@),
        ),
{
    let ghost before = text::all_views(out@);
    let ghost all = text::all_views(hits@);
    let ghost wanted = hit_events(registration@, session@, all);
    let mut i: usize = 0;
    assert(before + wanted.take(0) =~= before);
    while i < hits.len()
        invariant
            i <= hits.len(),
            all == text::all_views(hits@),
            wanted == hit_events(registration@, session@, all),
            text::all_views(out@) == before + wanted.take(i as int),
        decreases hits.len() - i,
    {
        assert(all[i as int] == hits@[i as int]@);
        let event = IncomingEvent::tmux_keyword(
            session.to_owned(),
            hits[i].keyword.clone(),
            hits[i].line.clone(),
            copy_opt(&registration.channel),
        ).with_format(registration.format);
        assert(event@ == wanted[i as int]);
        push_one(out, event);
        assert(text::all_views(out@) =~= before + wanted.take(i + 1));
        i = i + 1;
    }
    assert(wanted.take(i as int) =~= wanted);
}

fn minutes_between(since_ms: u64, now_ms: u64) -> (r: u64)
    ensures
        r == tmux::minutes(since_ms, now_ms),
{
    elapsed_ms(since_ms, now_ms) / 60_000
}

pub(crate) fn look_at_pane(
    out: &mut Vec<IncomingEvent>,
    existing: Option<TmuxPaneState>,
    registration: &RegisteredTmuxSession,
    pane: &TmuxPaneSnapshot,
    now_ms: u64,
) -> (r: TmuxPaneState)
    ensures
        text::all_views(final(out)@) == text::all_views(old(out)@) + pane_events(
            table::opt_owned(existing),
            pane@,
            registration@,
            now_ms,
        ),
        r@ == pane_remembered(table::opt_owned(existing), pane@, registration@, now_ms),
{
    let ghost before = text::all_views(out@);
    assert(before + Seq::empty() =~= before);
    let fresh = TmuxPaneState {
        session: pane.session.clone(),
        pane_name: pane.pane_name.clone(),
        snapshot: pane.content.clone(),
        last_change: now_ms,
        last_stale_notification: None,
        pane_dead: pane.pane_dead,
    };
    match existing {
        None => fresh,
        Some(known) => {
            if !same(known.snapshot.as_str(), pane.content.as_str()) {
                let hits = collect_keyword_hits(
                    known.snapshot.as_str(),
                    pane.content.as_str(),
                    &registration.keywords,
                );
                push_hit_events(out, registration, pane.session.as_str(), &hits);
                let mut state = fresh;
                state.session = known.session;
                state
            } else {
                let mut state = known;
                let limit: u64 = if registration.stale_minutes > 1 {
                    registration.stale_minutes
                } else {
                    1
                };
                let told = match state.last_stale_notification {
                    Some(moment) => minutes_between(moment, now_ms) < limit,
                    None => false,
                };
                if minutes_between(state.last_change, now_ms) >= limit && !told {
                    let last_line = last_nonempty_line(pane.content.as_str());
                    let event = IncomingEvent::tmux_stale(
                        state.session.clone(),
                        state.pane_name.clone(),
                        registration.stale_minutes,
                        last_line,
                        copy_opt(&registration.channel),
                    ).with_format(registration.format);
                    let ghost view = event@;
                    push_one(out, event);
                    assert(text::all_views(out@) =~= before + seq![view]);
                    state.last_stale_notification = Some(now_ms);
                }
                state
            }
        },
    }
}

/// What has come of a poll so far.
pub struct DirectPoll {
    pub panes: Panes,
    /// The events, each with the mention that goes before its message.
    pub events: Seq<(EventView, Option<Seq<char>>)>,
    /// The keys of the panes that were seen.
    pub seen: Seq<Seq<char>>,
    /// The sessions that are gone.
    pub gone: Seq<Seq<char>>,
}

/// Events, each with the same mention.
pub open spec fn mentioning(events: Seq<EventView>, mention: Option<Seq<char>>) -> Seq<
    (EventView, Option<Seq<char>>),
> {
    Seq::new(events.len(), |i: int| (events[i], mention))
}

/// What has come of a poll after some panes of a session.
pub open spec fn panes_polled(
    poll: DirectPoll,
    r: RegistrationView,
    panes: Seq<SnapshotView>,
    now_ms: u64,
) -> DirectPoll
    decreases panes.len(),
{
    if panes.len() == 0 {
        poll
    } else {
        let so_far = panes_polled(poll, r, panes.drop_last(), now_ms);
        let pane = panes.last();
        let key = tmux::pane_key(pane);
        let existing = table::lookup(so_far.panes, key);
        DirectPoll {
            panes: table::put(so_far.panes, key, pane_remembered(existing, pane, r, now_ms)),
            events: so_far.events + mentioning(pane_events(existing, pane, r, now_ms), r.mention),
            seen: so_far.seen.push(key),
            ..so_far
        }
    }
}

/// A pane whose key does not begin with the name of its session.
pub open spec fn keyed_otherwise() -> spec_fn((Seq<char>, PaneView)) -> bool {
    |entry: (Seq<char>, PaneView)| !text::begins_with(entry.0, entry.1.session + "::"@)
}

/// What has come of a poll after one more session.
pub open spec fn session_polled(
    poll: DirectPoll,
    session: Seq<char>,
    r: RegistrationView,
    probe: ProbeView,
    now_ms: u64,
) -> DirectPoll {
    match probe {
        ProbeView::Gone => DirectPoll {
            panes: table::kept(poll.panes, keyed_otherwise()),
            gone: poll.gone.push(session),
            ..poll
        },
        ProbeView::Unreadable => poll,
        ProbeView::Panes(panes) => panes_polled(poll, r, panes, now_ms),
    }
}

/// What has come of a poll after some sessions.
pub open spec fn sessions_polled(
    panes: Panes,
    sessions: Registry,
    probes: Seq<ProbeView>,
    now_ms: u64,
) -> DirectPoll
    decreases sessions.len(),
{
    if sessions.len() == 0 {
        DirectPoll { panes, events: Seq::empty(), seen: Seq::empty(), gone: Seq::empty() }
    } else {
        session_polled(
            sessions_polled(panes, sessions.drop_last(), probes, now_ms),
            sessions.last().0,
            sessions.last().1,
            probes[sessions.len() - 1],
            now_ms,
        )
    }
}

/// An event and the mention that goes before its message.
pub struct MonitorMessage {
    pub event: IncomingEvent,
    pub mention: Option<String>,
}

impl View for MonitorMessage {
    type V = (EventView, Option<Seq<char>>);

    open spec fn view(&self) -> (EventView, Option<Seq<char>>) {
        (self.event@, text::opt_text(self.mention))
    }
}

fn push_messages(out: &mut Vec<MonitorMessage>, events: Vec<IncomingEvent>, mention: &Option<String>)
    ensures
        text::all_views(final(out)@) == text::all_views(old(out)@) + mentioning(
            text::all_views(events@),
            text::opt_text(*mention),
        ),
{
    let ghost before = text::all_views(out@);
    let ghost wanted = mentioning(text::all_views(events@), text::opt_text(*mention));
    let mut i: usize = 0;
    assert(before + wanted.take(0) =~= before);
    while i < events.len()
        invariant
            i <= events.len(),
            wanted == mentioning(text::all_views(events@), text::opt_text(*mention)),
            text::all_views(out@) == before + wanted.take(i as int),
        decreases events.len() - i,
    {
        let ghost so_far = text::all_views(out@);
        let message = MonitorMessage { event: events[i].clone(), mention: copy_opt(mention) };
        let ghost view = message@;
        assert(view == wanted[i as int]);
        out.push(message);
        assert(text::all_views(out@) =~= so_far.push(view));
        assert(text::all_views(out@) =~= before + wanted.take(i + 1));
        i = i + 1;
    }
    assert(wanted.take(i as int) =~= wanted);
}

/// A poll that is under way.
struct Poll {
    panes: Vec<(String, TmuxPaneState)>,
    messages: Vec<MonitorMessage>,
    seen: Vec<String>,
    gone: Vec<String>,
}

impl Poll {
    spec fn so_far(&self) -> DirectPoll {
        DirectPoll {
            panes: table::pairs(self.panes@),
            events: text::all_views(self.messages@),
            seen: text::views(self.seen@),
            gone: text::views(self.gone@),
        }
    }

    fn poll_session(
        &mut self,
        session: &str,
        registration: &RegisteredTmuxSession,
        probe: &SessionProbe,
        now_ms: u64,
    )
        requires
            table::in_order(old(self).so_far().panes),
        ensures
            table::in_order(final(self).so_far().panes),
            final(self).so_far() == session_polled(
                old(self).so_far(),
                session@,
                registration@,
                probe@,
                now_ms,
            ),
    {
        match probe {
            SessionProbe::Unreadable => {},
            SessionProbe::Gone => {
                let ghost gone = text::views(self.gone@);
                self.gone.push(session.to_owned());
                assert(text::views(self.gone@) =~= gone.push(session@));
                drop_keyed_panes(&mut self.panes);
            },
            SessionProbe::Panes(list) => {
                let ghost start = self.so_far();
                let ghost all = text::all_views(list@);
                let mut i: usize = 0;
                while i < list.len()
                    invariant
                        i <= list.len(),
                        all == text::all_views(list@),
                        table::in_order(self.so_far().panes),
                        self.so_far() == panes_polled(
                            start,
                            registration@,
                            all.take(i as int),
                            now_ms,
                        ),
                    decreases list.len() - i,
                {
                    assert(all.take(i + 1).drop_last() =~= all.take(i as int));
                    assert(all.take(i + 1).last() == list@[i as int]@);
                    let ghost before = self.so_far();
                    let pane = &list[i];
                    let key = cat3(pane.session.as_str(), "::", pane.pane_id.as_str());
                    let existing = remove_entry(&mut self.panes, key.as_str());
                    let mut events: Vec<IncomingEvent> = Vec::new();
                    assert(text::all_views(events@) =~= Seq::<EventView>::empty());
                    let state = look_at_pane(&mut events, existing, registration, pane, now_ms);
                    assert(text::all_views(events@) =~= pane_events(
                        table::lookup(before.panes, key@),
                        pane@,
                        registration@,
                        now_ms,
                    ));
                    proof {
                        table::law_without_then_put(before.panes, key@, state@);
                        table::law_put_keeps_order(before.panes, key@, state@);
                    }
                    set_entry(&mut self.panes, key.as_str(), state);
                    push_messages(&mut self.messages, events, &registration.mention);
                    self.seen.push(key);
                    i = i + 1;
                }
                assert(all.take(i as int) =~= all);
            },
        }
    }
}

fn drop_keyed_panes(panes: &mut Vec<(String, TmuxPaneState)>)
    requires
        table::in_order(table::pairs(old(panes)@)),
    ensures
        table::pairs(final(panes)@) == table::kept(table::pairs(old(panes)@), keyed_otherwise()),
        table::in_order(table::pairs(final(panes)@)),
{
    let ghost m = table::pairs(panes@);
    let mut marks: Vec<bool> = Vec::new();
    let mut i: usize = 0;
    while i < panes.len()
        invariant
            i <= panes.len(),
            panes@ == old(panes)@,
            m == table::pairs(panes@),
            marks@.len() == i,
            forall|k: int| 0 <= k < i ==> #[trigger] marks@[k] == (keyed_otherwise())(m[k]),
        decreases panes.len() - i,
    {
        let prefix = cat2(panes[i].1.session.as_str(), "::");
        marks.push(!starts_with(panes[i].0.as_str(), prefix.as_str()));
        i = i + 1;
    }
    proof {
        table::law_kept_keeps_order(m, keyed_otherwise());
    }
    keep_marked(panes, &marks, Ghost(keyed_otherwise()));
}

/// What comes of a poll that reports hits one by one.
pub struct DirectReport {
    pub panes: Vec<(String, TmuxPaneState)>,
    pub messages: Vec<MonitorMessage>,
    /// The sessions that are gone and no longer registered.
    pub unregister: Vec<String>,
}

/// A poll of some sessions that reports hits one by one.
pub fn poll_tmux(
    panes: Vec<(String, TmuxPaneState)>,
    sessions: &Vec<(String, RegisteredTmuxSession)>,
    probes: &Vec<SessionProbe>,
    now_ms: u64,
) -> (r: DirectReport)
    requires
        table::in_order(table::pairs(panes@)),
        probes@.len() == sessions@.len(),
    ensures
        ({
            let polled = sessions_polled(
                table::pairs(panes@),
                table::pairs(sessions@),
                text::all_views(probes@),
                now_ms,
            );
            &&& table::pairs(r.panes@) == table::kept(polled.panes, tmux::has_key(polled.seen))
            &&& table::in_order(table::pairs(r.panes@))
            &&& text::all_views(r.messages@) == polled.events
            &&& text::views(r.unregister@) == polled.gone
        }),
{
    let ghost all = table::pairs(sessions@);
    let ghost answers = text::all_views(probes@);
    let ghost start = table::pairs(panes@);
    let mut poll = Poll { panes, messages: Vec::new(), seen: Vec::new(), gone: Vec::new() };
    assert(poll.so_far().events =~= Seq::empty());
    assert(poll.so_far().seen =~= Seq::empty());
    assert(poll.so_far().gone =~= Seq::empty());
    let mut i: usize = 0;
    while i < sessions.len()
        invariant
            i <= sessions.len() == probes@.len(),
            all == table::pairs(sessions@),
            answers == text::all_views(probes@),
            table::in_order(poll.so_far().panes),
            poll.so_far() == sessions_polled(start, all.take(i as int), answers, now_ms),
        decreases sessions.len() - i,
    {
        assert(all.take(i + 1).drop_last() =~= all.take(i as int));
        assert(all.take(i + 1).last() == all[i as int]);
        assert(answers[i as int] == probes@[i as int]@);
        poll.poll_session(sessions[i].0.as_str(), &sessions[i].1, &probes[i], now_ms);
        i = i + 1;
    }
    assert(all.take(i as int) =~= all);
    let Poll { panes, messages, seen, gone } = poll;
    let mut panes = panes;
    keep_keys(&mut panes, &seen);
    DirectReport { panes, messages, unregister: gone }
}

/// The sessions of a configuration and of a registry: the registry goes before
/// the configuration, and of two entries with one name the later one counts.
pub open spec fn named_sessions(registrations: Seq<RegistrationView>) -> Registry
    decreases registrations.len(),
{
    if registrations.len() == 0 {
        Seq::empty()
    } else {
        table::put(
            named_sessions(registrations.drop_last()),
            registrations.last().session,
            registrations.last(),
        )
    }
}

/// The sessions to poll by name.
pub fn monitored_sessions(
    config: &AppConfig,
    registered: &Vec<(String, RegisteredTmuxSession)>,
    now: &str,
) -> (r: Vec<(String, RegisteredTmuxSession)>)
    ensures
        table::pairs(r@) == table::extended(
            named_sessions(registry::configured_all(config@, now@)),
            table::pairs(registered@),
        ),
{
    let configured = configured_registrations(config, now);
    let ghost list = text::all_views(configured@);
    let mut out: Vec<(String, RegisteredTmuxSession)> = Vec::new();
    assert(table::pairs(out@) =~= Seq::empty());
    let mut i: usize = 0;
    while i < configured.len()
        invariant
            i <= configured.len(),
            list == text::all_views(configured@),
            table::pairs(out@) == named_sessions(list.take(i as int)),
        decreases configured.len() - i,
    {
        assert(list.take(i + 1).drop_last() =~= list.take(i as int));
        assert(list.take(i + 1).last() == configured@[i as int]@);
        set_entry(&mut out, configured[i].session.as_str(), configured[i].clone());
        i = i + 1;
    }
    assert(list.take(i as int) =~= list);
    let ghost start = table::pairs(out@);
    let ghost all = table::pairs(registered@);
    let mut k: usize = 0;
    while k < registered.len()
        invariant
            k <= registered.len(),
            all == table::pairs(registered@),
            table::pairs(out@) == table::extended(start, all.take(k as int)),
        decreases registered.len() - k,
    {
        assert(all.take(k + 1).drop_last() =~= all.take(k as int));
        assert(all.take(k + 1).last() == all[k as int]);
        set_entry(&mut out, registered[k].0.as_str(), registered[k].1.clone());
        k = k + 1;
    }
    assert(all.take(k as int) =~= all);
    out
}

// ---------------------------------------------------------------------------
// Laws
// ---------------------------------------------------------------------------

/// The first look at a repository, and a look that finds it unchanged, says
/// nothing.
pub proof fn law_unchanged_repo_is_silent(
    repo: GitRepoMonitorView,
    previous: Option<RepoView>,
    snapshot: GitView,
    listed: Option<Seq<CommitView>>,
)
    requires
        previous matches Some(p) ==> p.branch == snapshot.branch && p.head == snapshot.head,
    ensures
        git_events(repo, previous, snapshot, listed, None) == Seq::<EventView>::empty(),
{
    assert(git_events(repo, previous, snapshot, listed, None) =~= Seq::<EventView>::empty());
}

proof fn lemma_same_status(
    repo: GitRepoMonitorView,
    snapshot: GitView,
    previous: Pulls,
    pulls: Pulls,
)
    requires
        forall|i: int|
            0 <= i < pulls.len() ==> pull_of(previous, (#[trigger] pulls[i]).0) == Some(
                pulls[i].1,
            ),
    ensures
        pull_events(repo, snapshot, previous, pulls) == Seq::<EventView>::empty(),
    decreases pulls.len(),
{
    if pulls.len() > 0 {
        assert(pull_of(previous, pulls[pulls.len() - 1].0) == Some(pulls.last().1));
        let front = pulls.drop_last();
        assert forall|i: int| 0 <= i < front.len() implies pull_of(
            previous,
            (#[trigger] front[i]).0,
        ) == Some(front[i].1) by {
            assert(pulls[i] == front[i]);
        }
        lemma_same_status(repo, snapshot, previous, front);
    }
}

/// Pull requests that are as they were remembered give rise to no event.
pub proof fn law_same_pull_requests_are_silent(
    repo: GitRepoMonitorView,
    snapshot: GitView,
    pulls: Pulls,
)
    requires
        forall|i: int, j: int|
            #![trigger pulls[i], pulls[j]]
            0 <= i < j < pulls.len() ==> pulls[i].0 != pulls[j].0,
    ensures
        pull_events(repo, snapshot, pulls, pulls) == Seq::<EventView>::empty(),
{
    assert forall|i: int| 0 <= i < pulls.len() implies pull_of(pulls, (#[trigger] pulls[i]).0)
        == Some(pulls[i].1) by {
        lemma_pull_at(pulls, i);
    }
    lemma_same_status(repo, snapshot, pulls, pulls);
}

proof fn lemma_pull_at(pulls: Pulls, i: int)
    requires
        0 <= i < pulls.len(),
        forall|a: int, b: int|
            #![trigger pulls[a], pulls[b]]
            0 <= a < b < pulls.len() ==> pulls[a].0 != pulls[b].0,
    ensures
        pull_of(pulls, pulls[i].0) == Some(pulls[i].1),
    decreases pulls.len(),
{
    if i < pulls.len() - 1 {
        assert(pulls[i].0 != pulls[pulls.len() - 1].0);
        let front = pulls.drop_last();
        assert forall|a: int, b: int|
            #![trigger front[a], front[b]]
            0 <= a < b < front.len() implies front[a].0 != front[b].0 by {
            assert(pulls[a].0 != pulls[b].0);
        }
        lemma_pull_at(front, i);
    }
}

/// A remote address with the ending that git gives it names the same repository
/// as one without.
pub proof fn law_git_ending_does_not_matter(address: Seq<char>)
    ensures
        without_endings(address + ".git"@, ".git"@) == without_endings(address, ".git"@),
{
    reveal_strlit(".git");
    let whole = address + ".git"@;
    assert(whole.take(whole.len() - 4) =~= address);
    assert(whole.subrange(whole.len() - 4, whole.len() as int) =~= ".git"@);
    assert(text::finishes_with(whole, ".git"@));
}

} // verus!
