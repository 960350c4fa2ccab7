//! Typed events: what an event tells, in a form of its own for each kind.
use vstd::prelude::*;
use vstd::string::*;

use crate::compose::cat3;
use crate::events;
use crate::events::{EventView, IncomingEvent, MessageFormat};
use crate::identity;
use crate::identity::{current_timestamp_rfc3339, fresh_event_id, parse_uuid};
use crate::json;
use crate::json::{Json, Node};
use crate::labels;
use crate::labels::{first_of, text_or};
use crate::native_hooks;
use crate::normalize;
use crate::normalize::normalize_event;
use crate::scan;
use crate::scan::until_char;
use crate::text;
use crate::text::{copy_opt, same};

verus! {

broadcast use {crate::json::group_trees, crate::text::views_push};

// ---------------------------------------------------------------------------
// Types
// ---------------------------------------------------------------------------

/// How urgent an event is.
#[derive(Debug, Clone, Copy, PartialEq, Eq, Structural)]
pub enum EventPriority {
    Low,
    Normal,
    High,
    Critical,
}

/// A commit.
#[derive(Debug, PartialEq, Eq)]
pub struct GitCommitEvent {
    pub repo: String,
    pub branch: String,
    pub sha: String,
    pub short_sha: String,
    pub summary: String,
}

/// A commit.
pub struct GitCommitView {
    pub repo: Seq<char>,
    pub branch: Seq<char>,
    pub sha: Seq<char>,
    pub short_sha: Seq<char>,
    pub summary: Seq<char>,
}

impl View for GitCommitEvent {
    type V = GitCommitView;

    open spec fn view(&self) -> GitCommitView {
        GitCommitView {
            repo: self.repo@,
            branch: self.branch@,
            sha: self.sha@,
            short_sha: self.short_sha@,
            summary: self.summary@,
        }
    }
}

/// Several commits of one push.
#[derive(Debug, PartialEq, Eq)]
pub struct GitCommitAggregatedEvent {
    pub repo: String,
    pub branch: String,
    pub commit_count: u64,
    pub commits: Vec<GitCommitEvent>,
}

/// Several commits of one push.
pub struct GitCommitAggregatedView {
    pub repo: Seq<char>,
    pub branch: Seq<char>,
    pub commit_count: u64,
    pub commits: Seq<GitCommitView>,
}

impl View for GitCommitAggregatedEvent {
    type V = GitCommitAggregatedView;

    open spec fn view(&self) -> GitCommitAggregatedView {
        GitCommitAggregatedView {
            repo: self.repo@,
            branch: self.branch@,
            commit_count: self.commit_count,
            commits: text::all_views(self.commits@),
        }
    }
}

/// A change of the branch.
#[derive(Debug, PartialEq, Eq)]
pub struct GitBranchChangedEvent {
    pub repo: String,
    pub old_branch: String,
    pub new_branch: String,
}

/// A change of the branch.
pub struct GitBranchChangedView {
    pub repo: Seq<char>,
    pub old_branch: Seq<char>,
    pub new_branch: Seq<char>,
}

impl View for GitBranchChangedEvent {
    type V = GitBranchChangedView;

    open spec fn view(&self) -> GitBranchChangedView {
        GitBranchChangedView {
            repo: self.repo@,
            old_branch: self.old_branch@,
            new_branch: self.new_branch@,
        }
    }
}

/// Something about an issue.
#[derive(Debug, PartialEq, Eq)]
pub struct GitHubIssueEvent {
    pub repo: String,
    pub number: u64,
    pub title: String,
    pub comments: Option<u64>,
}

/// Something about an issue.
pub struct GitHubIssueView {
    pub repo: Seq<char>,
    pub number: u64,
    pub title: Seq<char>,
    pub comments: Option<u64>,
}

impl View for GitHubIssueEvent {
    type V = GitHubIssueView;

    open spec fn view(&self) -> GitHubIssueView {
        GitHubIssueView {
            repo: self.repo@,
            number: self.number,
            title: self.title@,
            comments: self.comments,
        }
    }
}

/// A pull request.
#[derive(Debug, PartialEq, Eq)]
pub struct GitHubPREvent {
    pub repo: String,
    pub number: u64,
    pub title: String,
    pub url: String,
}

/// A pull request.
pub struct GitHubPRView {
    pub repo: Seq<char>,
    pub number: u64,
    pub title: Seq<char>,
    pub url: Seq<char>,
}

impl View for GitHubPREvent {
    type V = GitHubPRView;

    open spec fn view(&self) -> GitHubPRView {
        GitHubPRView {
            repo: self.repo@,
            number: self.number,
            title: self.title@,
            url: self.url@,
        }
    }
}

/// A change of the state of a pull request.
#[derive(Debug, PartialEq, Eq)]
pub struct GitHubPRStatusEvent {
    pub repo: String,
    pub number: u64,
    pub title: String,
    pub old_status: String,
    pub new_status: String,
    pub url: String,
}

/// A change of the state of a pull request.
pub struct GitHubPRStatusView {
    pub repo: Seq<char>,
    pub number: u64,
    pub title: Seq<char>,
    pub old_status: Seq<char>,
    pub new_status: Seq<char>,
    pub url: Seq<char>,
}

impl View for GitHubPRStatusEvent {
    type V = GitHubPRStatusView;

    open spec fn view(&self) -> GitHubPRStatusView {
        GitHubPRStatusView {
            repo: self.repo@,
            number: self.number,
            title: self.title@,
            old_status: self.old_status@,
            new_status: self.new_status@,
            url: self.url@,
        }
    }
}

/// Something about CI.
#[derive(Debug, PartialEq, Eq)]
pub struct GitHubCIEvent {
    pub repo: String,
    pub number: Option<u64>,
    pub branch: Option<String>,
    pub sha: Option<String>,
    pub status: Option<String>,
    pub conclusion: Option<String>,
    pub url: Option<String>,
    pub workflow: Option<String>,
    pub message: Option<String>,
}

/// Something about CI.
pub struct GitHubCIView {
    pub repo: Seq<char>,
    pub number: Option<u64>,
    pub branch: Option<Seq<char>>,
    pub sha: Option<Seq<char>>,
    pub status: Option<Seq<char>>,
    pub conclusion: Option<Seq<char>>,
    pub url: Option<Seq<char>>,
    pub workflow: Option<Seq<char>>,
    pub message: Option<Seq<char>>,
}

impl View for GitHubCIEvent {
    type V = GitHubCIView;

    open spec fn view(&self) -> GitHubCIView {
        GitHubCIView {
            repo: self.repo@,
            number: self.number,
            branch: text::opt_text(self.branch),
            sha: text::opt_text(self.sha),
            status: text::opt_text(self.status),
            conclusion: text::opt_text(self.conclusion),
            url: text::opt_text(self.url),
            workflow: text::opt_text(self.workflow),
            message: text::opt_text(self.message),
        }
    }
}

/// A keyword in a terminal session.
#[derive(Debug, PartialEq, Eq)]
pub struct TmuxKeywordEvent {
    pub session: String,
    pub keyword: String,
    pub line: String,
}

/// A keyword in a terminal session.
pub struct TmuxKeywordView {
    pub session: Seq<char>,
    pub keyword: Seq<char>,
    pub line: Seq<char>,
}

impl View for TmuxKeywordEvent {
    type V = TmuxKeywordView;

    open spec fn view(&self) -> TmuxKeywordView {
        TmuxKeywordView {
            session: self.session@,
            keyword: self.keyword@,
            line: self.line@,
        }
    }
}

/// Several keywords in a terminal session.
#[derive(Debug, PartialEq, Eq)]
pub struct TmuxKeywordAggregatedEvent {
    pub session: String,
    pub hit_count: u64,
    pub hits: Vec<TmuxKeywordEvent>,
}

/// Several keywords in a terminal session.
pub struct TmuxKeywordAggregatedView {
    pub session: Seq<char>,
    pub hit_count: u64,
    pub hits: Seq<TmuxKeywordView>,
}

impl View for TmuxKeywordAggregatedEvent {
    type V = TmuxKeywordAggregatedView;

    open spec fn view(&self) -> TmuxKeywordAggregatedView {
        TmuxKeywordAggregatedView {
            session: self.session@,
            hit_count: self.hit_count,
            hits: text::all_views(self.hits@),
        }
    }
}

/// A terminal session in which nothing happens.
#[derive(Debug, PartialEq, Eq)]
pub struct TmuxStaleEvent {
    pub session: String,
    pub pane: String,
    pub minutes: u64,
    pub last_line: String,
}

/// A terminal session in which nothing happens.
pub struct TmuxStaleView {
    pub session: Seq<char>,
    pub pane: Seq<char>,
    pub minutes: u64,
    pub last_line: Seq<char>,
}

impl View for TmuxStaleEvent {
    type V = TmuxStaleView;

    open spec fn view(&self) -> TmuxStaleView {
        TmuxStaleView {
            session: self.session@,
            pane: self.pane@,
            minutes: self.minutes,
            last_line: self.last_line@,
        }
    }
}

/// Something about an agent.
#[derive(Debug, PartialEq, Eq)]
pub struct AgentEvent {
    pub agent_name: String,
    pub session_name: Option<String>,
    pub status: String,
    pub normalized_event: Option<String>,
    pub session_id: Option<String>,
    pub project: Option<String>,
    pub repo_path: Option<String>,
    pub branch: Option<String>,
    pub issue_number: Option<u64>,
    pub pr_number: Option<u64>,
    pub pr_url: Option<String>,
    pub command: Option<String>,
    pub tool_name: Option<String>,
    pub elapsed_secs: Option<u64>,
    pub summary: Option<String>,
    pub error_summary: Option<String>,
    pub error_message: Option<String>,
    pub mention: Option<String>,
}

/// Something about an agent.
pub struct AgentView {
    pub agent_name: Seq<char>,
    pub session_name: Option<Seq<char>>,
    pub status: Seq<char>,
    pub normalized_event: Option<Seq<char>>,
    pub session_id: Option<Seq<char>>,
    pub project: Option<Seq<char>>,
    pub repo_path: Option<Seq<char>>,
    pub branch: Option<Seq<char>>,
    pub issue_number: Option<u64>,
    pub pr_number: Option<u64>,
    pub pr_url: Option<Seq<char>>,
    pub command: Option<Seq<char>>,
    pub tool_name: Option<Seq<char>>,
    pub elapsed_secs: Option<u64>,
    pub summary: Option<Seq<char>>,
    pub error_summary: Option<Seq<char>>,
    pub error_message: Option<Seq<char>>,
    pub mention: Option<Seq<char>>,
}

impl View for AgentEvent {
    type V = AgentView;

    open spec fn view(&self) -> AgentView {
        AgentView {
            agent_name: self.agent_name@,
            session_name: text::opt_text(self.session_name),
            status: self.status@,
            normalized_event: text::opt_text(self.normalized_event),
            session_id: text::opt_text(self.session_id),
            project: text::opt_text(self.project),
            repo_path: text::opt_text(self.repo_path),
            branch: text::opt_text(self.branch),
            issue_number: self.issue_number,
            pr_number: self.pr_number,
            pr_url: text::opt_text(self.pr_url),
            command: text::opt_text(self.command),
            tool_name: text::opt_text(self.tool_name),
            elapsed_secs: self.elapsed_secs,
            summary: text::opt_text(self.summary),
            error_summary: text::opt_text(self.error_summary),
            error_message: text::opt_text(self.error_message),
            mention: text::opt_text(self.mention),
        }
    }
}

/// Something about a workspace.
#[derive(Debug, PartialEq, Eq)]
pub struct WorkspaceEvent {
    pub source_tool: String,
    pub workspace_path: String,
    pub state_file: String,
    pub session_name: Option<String>,
    pub diff_fields: Vec<String>,
    pub summary: Option<String>,
}

/// Something about a workspace.
pub struct WorkspaceView {
    pub source_tool: Seq<char>,
    pub workspace_path: Seq<char>,
    pub state_file: Seq<char>,
    pub session_name: Option<Seq<char>>,
    pub diff_fields: Seq<Seq<char>>,
    pub summary: Option<Seq<char>>,
}

impl View for WorkspaceEvent {
    type V = WorkspaceView;

    open spec fn view(&self) -> WorkspaceView {
        WorkspaceView {
            source_tool: self.source_tool@,
            workspace_path: self.workspace_path@,
            state_file: self.state_file@,
            session_name: text::opt_text(self.session_name),
            diff_fields: text::views(self.diff_fields@),
            summary: text::opt_text(self.summary),
        }
    }
}

/// An event of any other kind.
#[derive(Debug, PartialEq, Eq)]
pub struct CustomEvent {
    pub kind: String,
    pub message: String,
    pub payload: Option<Json>,
}

/// An event of any other kind.
pub struct CustomView {
    pub kind: Seq<char>,
    pub message: Seq<char>,
    pub payload: Option<Node>,
}

impl View for CustomEvent {
    type V = CustomView;

    open spec fn view(&self) -> CustomView {
        CustomView {
            kind: self.kind@,
            message: self.message@,
            payload: normalize::opt_json(self.payload),
        }
    }
}

/// How an event is to be delivered.
#[derive(Debug, PartialEq, Eq)]
pub struct EventMetadata {
    pub channel_hint: Option<String>,
    pub mention: Option<String>,
    pub format: Option<MessageFormat>,
    pub template: Option<String>,
    pub priority: EventPriority,
}

/// How an event is to be delivered.
pub struct EventMetadataView {
    pub channel_hint: Option<Seq<char>>,
    pub mention: Option<Seq<char>>,
    pub format: Option<MessageFormat>,
    pub template: Option<Seq<char>>,
    pub priority: EventPriority,
}

impl View for EventMetadata {
    type V = EventMetadataView;

    open spec fn view(&self) -> EventMetadataView {
        EventMetadataView {
            channel_hint: text::opt_text(self.channel_hint),
            mention: text::opt_text(self.mention),
            format: self.format,
            template: text::opt_text(self.template),
            priority: self.priority,
        }
    }
}

/// What an event tells.
#[derive(Debug, PartialEq, Eq)]
pub enum EventBody {
    GitCommit(GitCommitEvent),
    GitCommitAggregated(GitCommitAggregatedEvent),
    GitBranchChanged(GitBranchChangedEvent),
    GitHubIssueOpened(GitHubIssueEvent),
    GitHubIssueCommented(GitHubIssueEvent),
    GitHubIssueClosed(GitHubIssueEvent),
    GitHubPROpened(GitHubPREvent),
    GitHubPRMerged(GitHubPREvent),
    GitHubPRStatusChanged(GitHubPRStatusEvent),
    GitHubCIFailed(GitHubCIEvent),
    TmuxKeyword(TmuxKeywordEvent),
    TmuxKeywordAggregated(TmuxKeywordAggregatedEvent),
    TmuxStale(TmuxStaleEvent),
    AgentStarted(AgentEvent),
    AgentBlocked(AgentEvent),
    AgentFinished(AgentEvent),
    AgentFailed(AgentEvent),
    AgentRetryNeeded(AgentEvent),
    AgentPRCreated(AgentEvent),
    AgentTestStarted(AgentEvent),
    AgentTestFinished(AgentEvent),
    AgentTestFailed(AgentEvent),
    AgentHandoffNeeded(AgentEvent),
    WorkspaceSessionStarted(WorkspaceEvent),
    WorkspaceTurnComplete(WorkspaceEvent),
    WorkspaceSkillActivated(WorkspaceEvent),
    WorkspaceSessionBlocked(WorkspaceEvent),
    WorkspaceMetricsUpdate(WorkspaceEvent),
    Custom(CustomEvent),
}

/// What an event tells.
pub enum EventBodyView {
    GitCommit(GitCommitView),
    GitCommitAggregated(GitCommitAggregatedView),
    GitBranchChanged(GitBranchChangedView),
    GitHubIssueOpened(GitHubIssueView),
    GitHubIssueCommented(GitHubIssueView),
    GitHubIssueClosed(GitHubIssueView),
    GitHubPROpened(GitHubPRView),
    GitHubPRMerged(GitHubPRView),
    GitHubPRStatusChanged(GitHubPRStatusView),
    GitHubCIFailed(GitHubCIView),
    TmuxKeyword(TmuxKeywordView),
    TmuxKeywordAggregated(TmuxKeywordAggregatedView),
    TmuxStale(TmuxStaleView),
    AgentStarted(AgentView),
    AgentBlocked(AgentView),
    AgentFinished(AgentView),
    AgentFailed(AgentView),
    AgentRetryNeeded(AgentView),
    AgentPRCreated(AgentView),
    AgentTestStarted(AgentView),
    AgentTestFinished(AgentView),
    AgentTestFailed(AgentView),
    AgentHandoffNeeded(AgentView),
    WorkspaceSessionStarted(WorkspaceView),
    WorkspaceTurnComplete(WorkspaceView),
    WorkspaceSkillActivated(WorkspaceView),
    WorkspaceSessionBlocked(WorkspaceView),
    WorkspaceMetricsUpdate(WorkspaceView),
    Custom(CustomView),
}

impl View for EventBody {
    type V = EventBodyView;

    open spec fn view(&self) -> EventBodyView {
        match self {
            EventBody::GitCommit(e) => EventBodyView::GitCommit(e@),
            EventBody::GitCommitAggregated(e) => EventBodyView::GitCommitAggregated(e@),
            EventBody::GitBranchChanged(e) => EventBodyView::GitBranchChanged(e@),
            EventBody::GitHubIssueOpened(e) => EventBodyView::GitHubIssueOpened(e@),
            EventBody::GitHubIssueCommented(e) => EventBodyView::GitHubIssueCommented(e@),
            EventBody::GitHubIssueClosed(e) => EventBodyView::GitHubIssueClosed(e@),
            EventBody::GitHubPROpened(e) => EventBodyView::GitHubPROpened(e@),
            EventBody::GitHubPRMerged(e) => EventBodyView::GitHubPRMerged(e@),
            EventBody::GitHubPRStatusChanged(e) => EventBodyView::GitHubPRStatusChanged(e@),
            EventBody::GitHubCIFailed(e) => EventBodyView::GitHubCIFailed(e@),
            EventBody::TmuxKeyword(e) => EventBodyView::TmuxKeyword(e@),
            EventBody::TmuxKeywordAggregated(e) => EventBodyView::TmuxKeywordAggregated(e@),
            EventBody::TmuxStale(e) => EventBodyView::TmuxStale(e@),
            EventBody::AgentStarted(e) => EventBodyView::AgentStarted(e@),
            EventBody::AgentBlocked(e) => EventBodyView::AgentBlocked(e@),
            EventBody::AgentFinished(e) => EventBodyView::AgentFinished(e@),
            EventBody::AgentFailed(e) => EventBodyView::AgentFailed(e@),
            EventBody::AgentRetryNeeded(e) => EventBodyView::AgentRetryNeeded(e@),
            EventBody::AgentPRCreated(e) => EventBodyView::AgentPRCreated(e@),
            EventBody::AgentTestStarted(e) => EventBodyView::AgentTestStarted(e@),
            EventBody::AgentTestFinished(e) => EventBodyView::AgentTestFinished(e@),
            EventBody::AgentTestFailed(e) => EventBodyView::AgentTestFailed(e@),
            EventBody::AgentHandoffNeeded(e) => EventBodyView::AgentHandoffNeeded(e@),
            EventBody::WorkspaceSessionStarted(e) => EventBodyView::WorkspaceSessionStarted(e@),
            EventBody::WorkspaceTurnComplete(e) => EventBodyView::WorkspaceTurnComplete(e@),
            EventBody::WorkspaceSkillActivated(e) => EventBodyView::WorkspaceSkillActivated(e@),
            EventBody::WorkspaceSessionBlocked(e) => EventBodyView::WorkspaceSessionBlocked(e@),
            EventBody::WorkspaceMetricsUpdate(e) => EventBodyView::WorkspaceMetricsUpdate(e@),
            EventBody::Custom(e) => EventBodyView::Custom(e@),
        }
    }
}

/// An event with its type, its identity and how it is to be delivered.
#[derive(Debug, PartialEq, Eq)]
pub struct EventEnvelope {
    pub id: String,
    pub timestamp: String,
    pub source: String,
    pub body: EventBody,
    pub metadata: EventMetadata,
}

/// An event with its type, its identity and how it is to be delivered.
pub struct EnvelopeView {
    pub id: Seq<char>,
    pub timestamp: Seq<char>,
    pub source: Seq<char>,
    pub body: EventBodyView,
    pub metadata: EventMetadataView,
}

impl View for EventEnvelope {
    type V = EnvelopeView;

    open spec fn view(&self) -> EnvelopeView {
        EnvelopeView {
            id: self.id@,
            timestamp: self.timestamp@,
            source: self.source@,
            body: self.body@,
            metadata: self.metadata@,
        }
    }
}

// ---------------------------------------------------------------------------
// Parts of a body
// ---------------------------------------------------------------------------

/// The number of a key; an error where it is missing.
pub open spec fn required_count(node: Node, key: Seq<char>) -> Result<u64, Seq<char>> {
    match json::count(node, key) {
        Some(n) => Ok(n),
        None => Err("missing u64 field '"@ + key + "'"@),
    }
}

/// A value or an error, as they are.
pub open spec fn typed<T: View>(r: Result<T, String>) -> Result<T::V, Seq<char>> {
    match r {
        Ok(t) => Ok(t@),
        Err(e) => Err(e@),
    }
}

/// Values or an error, as they are.
pub open spec fn typed_list<T: View>(r: Result<Vec<T>, String>) -> Result<Seq<T::V>, Seq<char>> {
    match r {
        Ok(v) => Ok(text::all_views(v@)),
        Err(e) => Err(e@),
    }
}

/// A number or an error, as they are.
pub open spec fn count_result(r: Result<u64, String>) -> Result<u64, Seq<char>> {
    match r {
        Ok(n) => Ok(n),
        Err(e) => Err(e@),
    }
}

fn u64_field(payload: &Json, key: &str) -> (r: Result<u64, String>)
    ensures
        count_result(r) == required_count(payload@, key@),
{
    match payload.count(key) {
        Some(n) => Ok(n),
        None => Err(cat3("missing u64 field '", key, "'")),
    }
}

/// A commit of a list.
pub open spec fn commit_of(repo: Seq<char>, branch: Seq<char>, node: Node) -> Result<
    GitCommitView,
    Seq<char>,
> {
    match json::required(node, "commit"@) {
        Err(e) => Err(e),
        Ok(sha) => match json::required(node, "short_commit"@) {
            Err(e) => Err(e),
            Ok(short_sha) => match json::required(node, "summary"@) {
                Err(e) => Err(e),
                Ok(summary) => Ok(GitCommitView { repo, branch, sha, short_sha, summary }),
            },
        },
    }
}

/// The commits of a list; the first error among them.
pub open spec fn commits_of(repo: Seq<char>, branch: Seq<char>, nodes: Seq<Node>) -> Result<
    Seq<GitCommitView>,
    Seq<char>,
>
    decreases nodes.len(),
{
    if nodes.len() == 0 {
        Ok(Seq::empty())
    } else {
        match commits_of(repo, branch, nodes.drop_last()) {
            Err(e) => Err(e),
            Ok(before) => match commit_of(repo, branch, nodes.last()) {
                Err(e) => Err(e),
                Ok(commit) => Ok(before.push(commit)),
            },
        }
    }
}

proof fn lemma_first_bad_commit(repo: Seq<char>, branch: Seq<char>, nodes: Seq<Node>, i: int)
    requires
        0 <= i < nodes.len(),
        commits_of(repo, branch, nodes.take(i)) is Ok,
        commit_of(repo, branch, nodes[i]) is Err,
    ensures
        commits_of(repo, branch, nodes) == Err::<Seq<GitCommitView>, Seq<char>>(
            commit_of(repo, branch, nodes[i])->Err_0,
        ),
    decreases nodes.len(),
{
    if i == nodes.len() - 1 {
        assert(nodes.drop_last() =~= nodes.take(i));
    } else {
        assert(nodes.drop_last().take(i) =~= nodes.take(i));
        lemma_first_bad_commit(repo, branch, nodes.drop_last(), i);
    }
}

/// The list of a key, and an empty one where it is missing.
pub open spec fn items_or_none(node: Node, key: Seq<char>) -> Seq<Node> {
    match json::items(node, key) {
        Some(items) => items,
        None => Seq::empty(),
    }
}

/// The number of a key is more than one.
pub open spec fn counts_many(node: Node, key: Seq<char>) -> bool {
    match json::count(node, key) {
        Some(n) => n > 1,
        None => false,
    }
}

/// A commit, or several where the payload lists or counts more than one.
pub open spec fn commit_body(node: Node) -> Result<EventBodyView, Seq<char>> {
    match json::required(node, "repo"@) {
        Err(e) => Err(e),
        Ok(repo) => match json::required(node, "branch"@) {
            Err(e) => Err(e),
            Ok(branch) => match commits_of(repo, branch, items_or_none(node, "commits"@)) {
                Err(e) => Err(e),
                Ok(commits) => if commits.len() > 1 || counts_many(node, "commit_count"@) {
                    Ok(
                        EventBodyView::GitCommitAggregated(
                            GitCommitAggregatedView {
                                repo,
                                branch,
                                commit_count: match json::count(node, "commit_count"@) {
                                    Some(n) => n,
                                    None => commits.len() as u64,
                                },
                                commits,
                            },
                        ),
                    )
                } else {
                    match commit_of(repo, branch, node) {
                        Err(e) => Err(e),
                        Ok(commit) => Ok(EventBodyView::GitCommit(commit)),
                    }
                },
            },
        },
    }
}

fn commit_event(repo: &str, branch: &str, node: &Json) -> (r: Result<GitCommitEvent, String>)
    ensures
        typed(r) == commit_of(repo@, branch@, node@),
{
    let sha = match node.required("commit") {
        Ok(s) => s,
        Err(e) => return Err(e),
    };
    let short_sha = match node.required("short_commit") {
        Ok(s) => s,
        Err(e) => return Err(e),
    };
    let summary = match node.required("summary") {
        Ok(s) => s,
        Err(e) => return Err(e),
    };
    Ok(GitCommitEvent { repo: repo.to_owned(), branch: branch.to_owned(), sha, short_sha, summary })
}

fn commit_events(repo: &str, branch: &str, nodes: &Vec<Json>) -> (r: Result<
    Vec<GitCommitEvent>,
    String,
>)
    ensures
        typed_list(r) == commits_of(repo@, branch@, json::nodes(nodes@)),
{
    let ghost all = json::nodes(nodes@);
    let mut out: Vec<GitCommitEvent> = Vec::new();
    let mut i: usize = 0;
    assert(text::all_views(out@) =~= Seq::<GitCommitView>::empty());
    while i < nodes.len()
        invariant
            i <= nodes.len(),
            all == json::nodes(nodes@),
            commits_of(repo@, branch@, all.take(i as int)) == Ok::<Seq<GitCommitView>, Seq<char>>(
                text::all_views(out@),
            ),
        decreases nodes.len() - i,
    {
        assert(all.take(i + 1).drop_last() =~= all.take(i as int));
        match commit_event(repo, branch, &nodes[i]) {
            Ok(commit) => {
                let ghost before = text::all_views(out@);
                let ghost view = commit@;
                out.push(commit);
                assert(text::all_views(out@) =~= before.push(view));
            },
            Err(e) => {
                proof {
                    lemma_first_bad_commit(repo@, branch@, all, i as int);
                }
                return Err(e);
            },
        }
        i = i + 1;
    }
    assert(all.take(i as int) =~= all);
    Ok(out)
}

fn git_commit_body(payload: &Json) -> (r: Result<EventBody, String>)
    ensures
        typed(r) == commit_body(payload@),
{
    let repo = match payload.required("repo") {
        Ok(s) => s,
        Err(e) => return Err(e),
    };
    let branch = match payload.required("branch") {
        Ok(s) => s,
        Err(e) => return Err(e),
    };
    let commits = match payload.items("commits") {
        Some(nodes) => match commit_events(repo.as_str(), branch.as_str(), nodes) {
            Ok(v) => v,
            Err(e) => return Err(e),
        },
        None => {
            let none: Vec<GitCommitEvent> = Vec::new();
            assert(text::all_views(none@) =~= Seq::<GitCommitView>::empty());
            none
        },
    };
    assert(text::all_views(commits@).len() == commits@.len());
    let counted = payload.count("commit_count");
    let many = match counted {
        Some(n) => n > 1,
        None => false,
    };
    if commits.len() > 1 || many {
        let commit_count: u64 = match counted {
            Some(n) => n,
            None => commits.len() as u64,
        };
        return Ok(
            EventBody::GitCommitAggregated(
                GitCommitAggregatedEvent { repo, branch, commit_count, commits },
            ),
        );
    }
    match commit_event(repo.as_str(), branch.as_str(), payload) {
        Ok(commit) => Ok(EventBody::GitCommit(commit)),
        Err(e) => Err(e),
    }
}

/// A change of the branch.
pub open spec fn branch_body(node: Node) -> Result<EventBodyView, Seq<char>> {
    match json::required(node, "repo"@) {
        Err(e) => Err(e),
        Ok(repo) => match json::required(node, "old_branch"@) {
            Err(e) => Err(e),
            Ok(old_branch) => match json::required(node, "new_branch"@) {
                Err(e) => Err(e),
                Ok(new_branch) => Ok(
                    EventBodyView::GitBranchChanged(
                        GitBranchChangedView { repo, old_branch, new_branch },
                    ),
                ),
            },
        },
    }
}

fn git_branch_body(payload: &Json) -> (r: Result<EventBody, String>)
    ensures
        typed(r) == branch_body(payload@),
{
    let repo = match payload.required("repo") {
        Ok(s) => s,
        Err(e) => return Err(e),
    };
    let old_branch = match payload.required("old_branch") {
        Ok(s) => s,
        Err(e) => return Err(e),
    };
    let new_branch = match payload.required("new_branch") {
        Ok(s) => s,
        Err(e) => return Err(e),
    };
    Ok(EventBody::GitBranchChanged(GitBranchChangedEvent { repo, old_branch, new_branch }))
}

/// Something about an issue.
pub open spec fn issue_of(node: Node) -> Result<GitHubIssueView, Seq<char>> {
    match json::required(node, "repo"@) {
        Err(e) => Err(e),
        Ok(repo) => match required_count(node, "number"@) {
            Err(e) => Err(e),
            Ok(number) => match json::required(node, "title"@) {
                Err(e) => Err(e),
                Ok(title) => Ok(
                    GitHubIssueView { repo, number, title, comments: json::count(node, "comments"@) },
                ),
            },
        },
    }
}

fn github_issue_event(payload: &Json) -> (r: Result<GitHubIssueEvent, String>)
    ensures
        typed(r) == issue_of(payload@),
{
    let repo = match payload.required("repo") {
        Ok(s) => s,
        Err(e) => return Err(e),
    };
    let number: u64 = match u64_field(payload, "number") {
        Ok(n) => n,
        Err(e) => return Err(e),
    };
    let title = match payload.required("title") {
        Ok(s) => s,
        Err(e) => return Err(e),
    };
    Ok(GitHubIssueEvent { repo, number, title, comments: payload.count("comments") })
}

/// A change of the state of a pull request: its opening and its merging are told
/// as such.
pub open spec fn pr_body(node: Node) -> Result<EventBodyView, Seq<char>> {
    match json::required(node, "repo"@) {
        Err(e) => Err(e),
        Ok(repo) => match required_count(node, "number"@) {
            Err(e) => Err(e),
            Ok(number) => match json::required(node, "title"@) {
                Err(e) => Err(e),
                Ok(title) => match json::required(node, "url"@) {
                    Err(e) => Err(e),
                    Ok(url) => match json::required(node, "old_status"@) {
                        Err(e) => Err(e),
                        Ok(old_status) => match json::required(node, "new_status"@) {
                            Err(e) => Err(e),
                            Ok(new_status) => Ok(
                                if new_status == "open"@ && (old_status == "<new>"@ || old_status
                                    == "closed"@) {
                                    EventBodyView::GitHubPROpened(
                                        GitHubPRView { repo, number, title, url },
                                    )
                                } else if new_status == "merged"@ {
                                    EventBodyView::GitHubPRMerged(
                                        GitHubPRView { repo, number, title, url },
                                    )
                                } else {
                                    EventBodyView::GitHubPRStatusChanged(
                                        GitHubPRStatusView {
                                            repo,
                                            number,
                                            title,
                                            old_status,
                                            new_status,
                                            url,
                                        },
                                    )
                                },
                            ),
                        },
                    },
                },
            },
        },
    }
}

fn github_pr_body(payload: &Json) -> (r: Result<EventBody, String>)
    ensures
        typed(r) == pr_body(payload@),
{
    let repo = match payload.required("repo") {
        Ok(s) => s,
        Err(e) => return Err(e),
    };
    let number: u64 = match u64_field(payload, "number") {
        Ok(n) => n,
        Err(e) => return Err(e),
    };
    let title = match payload.required("title") {
        Ok(s) => s,
        Err(e) => return Err(e),
    };
    let url = match payload.required("url") {
        Ok(s) => s,
        Err(e) => return Err(e),
    };
    let old_status = match payload.required("old_status") {
        Ok(s) => s,
        Err(e) => return Err(e),
    };
    let new_status = match payload.required("new_status") {
        Ok(s) => s,
        Err(e) => return Err(e),
    };
    if same(new_status.as_str(), "open") && (same(old_status.as_str(), "<new>") || same(
        old_status.as_str(),
        "closed",
    )) {
        Ok(EventBody::GitHubPROpened(GitHubPREvent { repo, number, title, url }))
    } else if same(new_status.as_str(), "merged") {
        Ok(EventBody::GitHubPRMerged(GitHubPREvent { repo, number, title, url }))
    } else {
        Ok(
            EventBody::GitHubPRStatusChanged(
                GitHubPRStatusEvent { repo, number, title, old_status, new_status, url },
            ),
        )
    }
}

/// A failure of CI.
pub open spec fn ci_body(node: Node) -> Result<EventBodyView, Seq<char>> {
    match json::required(node, "repo"@) {
        Err(e) => Err(e),
        Ok(repo) => Ok(
            EventBodyView::GitHubCIFailed(
                GitHubCIView {
                    repo,
                    number: json::count(node, "number"@),
                    branch: json::field(node, "branch"@),
                    sha: json::field(node, "sha"@),
                    status: json::field(node, "status"@),
                    conclusion: json::field(node, "conclusion"@),
                    url: json::field(node, "url"@),
                    workflow: json::field(node, "workflow"@),
                    message: json::field(node, "message"@),
                },
            ),
        ),
    }
}

fn github_ci_body(payload: &Json) -> (r: Result<EventBody, String>)
    ensures
        typed(r) == ci_body(payload@),
{
    match payload.required("repo") {
        Err(e) => Err(e),
        Ok(repo) => Ok(
            EventBody::GitHubCIFailed(
                GitHubCIEvent {
                    repo,
                    number: payload.count("number"),
                    branch: payload.field("branch"),
                    sha: payload.field("sha"),
                    status: payload.field("status"),
                    conclusion: payload.field("conclusion"),
                    url: payload.field("url"),
                    workflow: payload.field("workflow"),
                    message: payload.field("message"),
                },
            ),
        ),
    }
}

/// A keyword of a list.
pub open spec fn keyword_of(session: Seq<char>, node: Node) -> Result<TmuxKeywordView, Seq<char>> {
    match json::required(node, "keyword"@) {
        Err(e) => Err(e),
        Ok(keyword) => match json::required(node, "line"@) {
            Err(e) => Err(e),
            Ok(line) => Ok(TmuxKeywordView { session, keyword, line }),
        },
    }
}

/// The keywords of a list; the first error among them.
pub open spec fn keywords_of(session: Seq<char>, nodes: Seq<Node>) -> Result<
    Seq<TmuxKeywordView>,
    Seq<char>,
>
    decreases nodes.len(),
{
    if nodes.len() == 0 {
        Ok(Seq::empty())
    } else {
        match keywords_of(session, nodes.drop_last()) {
            Err(e) => Err(e),
            Ok(before) => match keyword_of(session, nodes.last()) {
                Err(e) => Err(e),
                Ok(hit) => Ok(before.push(hit)),
            },
        }
    }
}

proof fn lemma_first_bad_keyword(session: Seq<char>, nodes: Seq<Node>, i: int)
    requires
        0 <= i < nodes.len(),
        keywords_of(session, nodes.take(i)) is Ok,
        keyword_of(session, nodes[i]) is Err,
    ensures
        keywords_of(session, nodes) == Err::<Seq<TmuxKeywordView>, Seq<char>>(
            keyword_of(session, nodes[i])->Err_0,
        ),
    decreases nodes.len(),
{
    if i == nodes.len() - 1 {
        assert(nodes.drop_last() =~= nodes.take(i));
    } else {
        assert(nodes.drop_last().take(i) =~= nodes.take(i));
        lemma_first_bad_keyword(session, nodes.drop_last(), i);
    }
}

/// A keyword, or several where the payload lists or counts more than one.
pub open spec fn keyword_body(node: Node) -> Result<EventBodyView, Seq<char>> {
    match json::required(node, "session"@) {
        Err(e) => Err(e),
        Ok(session) => match keywords_of(session, items_or_none(node, "hits"@)) {
            Err(e) => Err(e),
            Ok(hits) => if hits.len() > 1 || counts_many(node, "hit_count"@) {
                Ok(
                    EventBodyView::TmuxKeywordAggregated(
                        TmuxKeywordAggregatedView {
                            session,
                            hit_count: match json::count(node, "hit_count"@) {
                                Some(n) => n,
                                None => hits.len() as u64,
                            },
                            hits,
                        },
                    ),
                )
            } else {
                match keyword_of(session, node) {
                    Err(e) => Err(e),
                    Ok(hit) => Ok(EventBodyView::TmuxKeyword(hit)),
                }
            },
        },
    }
}

fn keyword_event(session: &str, node: &Json) -> (r: Result<TmuxKeywordEvent, String>)
    ensures
        typed(r) == keyword_of(session@, node@),
{
    let keyword = match node.required("keyword") {
        Ok(s) => s,
        Err(e) => return Err(e),
    };
    let line = match node.required("line") {
        Ok(s) => s,
        Err(e) => return Err(e),
    };
    Ok(TmuxKeywordEvent { session: session.to_owned(), keyword, line })
}

fn keyword_events(session: &str, nodes: &Vec<Json>) -> (r: Result<Vec<TmuxKeywordEvent>, String>)
    ensures
        typed_list(r) == keywords_of(session@, json::nodes(nodes@)),
{
    let ghost all = json::nodes(nodes@);
    let mut out: Vec<TmuxKeywordEvent> = Vec::new();
    let mut i: usize = 0;
    assert(text::all_views(out@) =~= Seq::<TmuxKeywordView>::empty());
    while i < nodes.len()
        invariant
            i <= nodes.len(),
            all == json::nodes(nodes@),
            keywords_of(session@, all.take(i as int)) == Ok::<Seq<TmuxKeywordView>, Seq<char>>(
                text::all_views(out@),
            ),
        decreases nodes.len() - i,
    {
        assert(all.take(i + 1).drop_last() =~= all.take(i as int));
        match keyword_event(session, &nodes[i]) {
            Ok(hit) => {
                let ghost before = text::all_views(out@);
                let ghost view = hit@;
                out.push(hit);
                assert(text::all_views(out@) =~= before.push(view));
            },
            Err(e) => {
                proof {
                    lemma_first_bad_keyword(session@, all, i as int);
                }
                return Err(e);
            },
        }
        i = i + 1;
    }
    assert(all.take(i as int) =~= all);
    Ok(out)
}

fn tmux_keyword_body(payload: &Json) -> (r: Result<EventBody, String>)
    ensures
        typed(r) == keyword_body(payload@),
{
    let session = match payload.required("session") {
        Ok(s) => s,
        Err(e) => return Err(e),
    };
    let hits = match payload.items("hits") {
        Some(nodes) => match keyword_events(session.as_str(), nodes) {
            Ok(v) => v,
            Err(e) => return Err(e),
        },
        None => {
            let none: Vec<TmuxKeywordEvent> = Vec::new();
            assert(text::all_views(none@) =~= Seq::<TmuxKeywordView>::empty());
            none
        },
    };
    assert(text::all_views(hits@).len() == hits@.len());
    let counted = payload.count("hit_count");
    let many = match counted {
        Some(n) => n > 1,
        None => false,
    };
    if hits.len() > 1 || many {
        let hit_count: u64 = match counted {
            Some(n) => n,
            None => hits.len() as u64,
        };
        return Ok(
            EventBody::TmuxKeywordAggregated(
                TmuxKeywordAggregatedEvent { session, hit_count, hits },
            ),
        );
    }
    match keyword_event(session.as_str(), payload) {
        Ok(hit) => Ok(EventBody::TmuxKeyword(hit)),
        Err(e) => Err(e),
    }
}

/// A terminal session in which nothing happens.
pub open spec fn stale_body(node: Node) -> Result<EventBodyView, Seq<char>> {
    match json::required(node, "session"@) {
        Err(e) => Err(e),
        Ok(session) => match json::required(node, "pane"@) {
            Err(e) => Err(e),
            Ok(pane) => match required_count(node, "minutes"@) {
                Err(e) => Err(e),
                Ok(minutes) => match json::required(node, "last_line"@) {
                    Err(e) => Err(e),
                    Ok(last_line) => Ok(
                        EventBodyView::TmuxStale(
                            TmuxStaleView { session, pane, minutes, last_line },
                        ),
                    ),
                },
            },
        },
    }
}

fn tmux_stale_body(payload: &Json) -> (r: Result<EventBody, String>)
    ensures
        typed(r) == stale_body(payload@),
{
    let session = match payload.required("session") {
        Ok(s) => s,
        Err(e) => return Err(e),
    };
    let pane = match payload.required("pane") {
        Ok(s) => s,
        Err(e) => return Err(e),
    };
    let minutes: u64 = match u64_field(payload, "minutes") {
        Ok(n) => n,
        Err(e) => return Err(e),
    };
    let last_line = match payload.required("last_line") {
        Ok(s) => s,
        Err(e) => return Err(e),
    };
    Ok(EventBody::TmuxStale(TmuxStaleEvent { session, pane, minutes, last_line }))
}

/// Something about an agent. Either of the two fields for an error stands for the
/// other where that is missing.
pub open spec fn agent_of(node: Node) -> Result<AgentView, Seq<char>> {
    match json::required(node, "agent_name"@) {
        Err(e) => Err(e),
        Ok(agent_name) => match json::required(node, "status"@) {
            Err(e) => Err(e),
            Ok(status) => Ok(
                AgentView {
                    agent_name,
                    session_name: json::field(node, "session_name"@),
                    status,
                    normalized_event: text::or_else(
                        json::field(node, "normalized_event"@),
                        json::field_at(node, "/context/normalized_event"@),
                    ),
                    session_id: json::field(node, "session_id"@),
                    project: json::field(node, "project"@),
                    repo_path: json::field(node, "repo_path"@),
                    branch: json::field(node, "branch"@),
                    issue_number: json::count(node, "issue_number"@),
                    pr_number: json::count(node, "pr_number"@),
                    pr_url: json::field(node, "pr_url"@),
                    command: json::field(node, "command"@),
                    tool_name: json::field(node, "tool_name"@),
                    elapsed_secs: json::count(node, "elapsed_secs"@),
                    summary: json::field(node, "summary"@),
                    error_summary: text::or_else(
                        json::field(node, "error_summary"@),
                        json::field(node, "error_message"@),
                    ),
                    error_message: text::or_else(
                        json::field(node, "error_message"@),
                        json::field(node, "error_summary"@),
                    ),
                    mention: text::or_else(
                        json::field(node, "mention"@),
                        json::field_at(node, "/context/mention"@),
                    ),
                },
            ),
        },
    }
}

fn agent_event(payload: &Json) -> (r: Result<AgentEvent, String>)
    ensures
        typed(r) == agent_of(payload@),
{
    let agent_name = match payload.required("agent_name") {
        Ok(s) => s,
        Err(e) => return Err(e),
    };
    let status = match payload.required("status") {
        Ok(s) => s,
        Err(e) => return Err(e),
    };
    Ok(
        AgentEvent {
            agent_name,
            session_name: payload.field("session_name"),
            status,
            normalized_event: first_of(
                payload.field("normalized_event"),
                payload.field_at("/context/normalized_event"),
            ),
            session_id: payload.field("session_id"),
            project: payload.field("project"),
            repo_path: payload.field("repo_path"),
            branch: payload.field("branch"),
            issue_number: payload.count("issue_number"),
            pr_number: payload.count("pr_number"),
            pr_url: payload.field("pr_url"),
            command: payload.field("command"),
            tool_name: payload.field("tool_name"),
            elapsed_secs: payload.count("elapsed_secs"),
            summary: payload.field("summary"),
            error_summary: first_of(
                payload.field("error_summary"),
                payload.field("error_message"),
            ),
            error_message: first_of(
                payload.field("error_message"),
                payload.field("error_summary"),
            ),
            mention: first_of(payload.field("mention"), payload.field_at("/context/mention")),
        },
    )
}

/// A key that tells of the event itself and not of a change.
pub open spec fn is_frame_key(key: Seq<char>) -> bool {
    key == "tool"@ || key == "workspace_root"@ || key == "workspace_name"@ || key == "monitor_path"@ || key == "state_family"@ || key == "state_dir"@ || key == "state_file"@ || key == "summary"@ || key == "contract_event"@ || key == "event_id"@ || key == "correlation_id"@ || key == "first_seen_at"@ || key == "source"@ || key == "route_key"@
}

fn frame_key(key: &str) -> (r: bool)
    ensures
        r == is_frame_key(key@),
{
    same(key, "tool") || same(key, "workspace_root") || same(key, "workspace_name") || same(key, "monitor_path") || same(key, "state_family") || same(key, "state_dir") || same(key, "state_file") || same(key, "summary") || same(key, "contract_event") || same(key, "event_id") || same(key, "correlation_id") || same(key, "first_seen_at") || same(key, "source") || same(key, "route_key")
}

/// The keys of an object that tell of a change.
pub open spec fn changed_keys(m: Seq<(Seq<char>, Node)>) -> Seq<Seq<char>>
    decreases m.len(),
{
    if m.len() == 0 {
        Seq::empty()
    } else if is_frame_key(m.last().0) {
        changed_keys(m.drop_last())
    } else {
        changed_keys(m.drop_last()).push(m.last().0)
    }
}

/// The keys of a payload that tell of a change.
pub open spec fn diff_fields_of(node: Node) -> Seq<Seq<char>> {
    match node {
        Node::Object(m) => changed_keys(m),
        _ => Seq::empty(),
    }
}

fn diff_fields(payload: &Json) -> (r: Vec<String>)
    ensures
        text::views(r@) == diff_fields_of(payload@),
{
    let mut out: Vec<String> = Vec::new();
    assert(text::views(out@) =~= Seq::<Seq<char>>::empty());
    match payload {
        Json::Object(entries) => {
            let ghost m = json::members(entries@);
            let mut i: usize = 0;
            while i < entries.len()
                invariant
                    i <= entries.len(),
                    m == json::members(entries@),
                    text::views(out@) == changed_keys(m.take(i as int)),
                decreases entries.len() - i,
            {
                assert(m.take(i + 1).drop_last() =~= m.take(i as int));
                assert(m.take(i + 1).last().0 == entries@[i as int].0@);
                if !frame_key(entries[i].0.as_str()) {
                    out.push(entries[i].0.clone());
                }
                i = i + 1;
            }
            assert(m.take(i as int) =~= m);
        },
        _ => {},
    }
    out
}

/// Something about a workspace.
pub open spec fn workspace_of(node: Node) -> Result<WorkspaceView, Seq<char>> {
    match text::or_else(
        json::field(node, "workspace_root"@),
        text::or_else(json::field(node, "monitor_path"@), json::field(node, "workspace_name"@)),
    ) {
        None => Err("missing workspace path"@),
        Some(workspace_path) => Ok(
            WorkspaceView {
                source_tool: labels::or_text(
                    text::or_else(json::field(node, "tool"@), json::field(node, "state_family"@)),
                    "workspace"@,
                ),
                workspace_path,
                state_file: labels::or_text(
                    text::or_else(
                        json::field(node, "state_file"@),
                        json::field(node, "contract_event"@),
                    ),
                    "workspace-state"@,
                ),
                session_name: text::or_else(
                    json::field(node, "session_name"@),
                    json::field(node, "session_id"@),
                ),
                diff_fields: diff_fields_of(node),
                summary: json::field(node, "summary"@),
            },
        ),
    }
}

fn workspace_event(payload: &Json) -> (r: Result<WorkspaceEvent, String>)
    ensures
        typed(r) == workspace_of(payload@),
{
    let workspace_path = match first_of(
        payload.field("workspace_root"),
        first_of(payload.field("monitor_path"), payload.field("workspace_name")),
    ) {
        Some(s) => s,
        None => return Err("missing workspace path".to_owned()),
    };
    Ok(
        WorkspaceEvent {
            source_tool: text_or(
                first_of(payload.field("tool"), payload.field("state_family")),
                "workspace",
            ),
            workspace_path,
            state_file: text_or(
                first_of(payload.field("state_file"), payload.field("contract_event")),
                "workspace-state",
            ),
            session_name: first_of(payload.field("session_name"), payload.field("session_id")),
            diff_fields: diff_fields(payload),
            summary: payload.field("summary"),
        },
    )
}

// ---------------------------------------------------------------------------
// Bodies
// ---------------------------------------------------------------------------

/// A kind that tells of an agent or a session.
pub open spec fn is_agent_kind(kind: Seq<char>) -> bool {
    kind == "agent.started"@ || kind == "session.started"@ || kind == "agent.blocked"@ || kind == "session.blocked"@ || kind == "agent.finished"@ || kind == "session.finished"@ || kind == "agent.failed"@ || kind == "session.failed"@ || kind == "session.retry-needed"@ || kind == "session.pr-created"@ || kind == "session.test-started"@ || kind == "session.test-finished"@ || kind == "session.test-failed"@ || kind == "session.handoff-needed"@
}

/// What a kind of an agent's event tells.
pub open spec fn agent_body(kind: Seq<char>, e: AgentView) -> Option<EventBodyView> {
    if kind == "agent.started"@ || kind == "session.started"@ {
        Some(EventBodyView::AgentStarted(e))
    } else if kind == "agent.blocked"@ || kind == "session.blocked"@ {
        Some(EventBodyView::AgentBlocked(e))
    } else if kind == "agent.finished"@ || kind == "session.finished"@ {
        Some(EventBodyView::AgentFinished(e))
    } else if kind == "agent.failed"@ || kind == "session.failed"@ {
        Some(EventBodyView::AgentFailed(e))
    } else if kind == "session.retry-needed"@ {
        Some(EventBodyView::AgentRetryNeeded(e))
    } else if kind == "session.pr-created"@ {
        Some(EventBodyView::AgentPRCreated(e))
    } else if kind == "session.test-started"@ {
        Some(EventBodyView::AgentTestStarted(e))
    } else if kind == "session.test-finished"@ {
        Some(EventBodyView::AgentTestFinished(e))
    } else if kind == "session.test-failed"@ {
        Some(EventBodyView::AgentTestFailed(e))
    } else if kind == "session.handoff-needed"@ {
        Some(EventBodyView::AgentHandoffNeeded(e))
    } else {
        None
    }
}

/// A kind that tells of a workspace.
pub open spec fn is_workspace_kind(kind: Seq<char>) -> bool {
    kind == "workspace.session.started"@ || kind == "workspace.session.ended"@ || kind == "workspace.turn.complete"@ || kind == "workspace.agent.turn"@ || kind == "workspace.mission.updated"@ || kind == "workspace.skill.activated"@ || kind == "workspace.skill.deactivated"@ || kind == "workspace.skill.phase-changed"@ || kind == "workspace.session.blocked"@ || kind == "workspace.session.checkpointed"@ || kind == "workspace.team.nudged"@ || kind == "workspace.team.updated"@ || kind == "workspace.tmux.injection"@ || kind == "workspace.metrics.updated"@
}

/// What a kind of a workspace's event tells.
pub open spec fn workspace_body(kind: Seq<char>, e: WorkspaceView) -> Option<EventBodyView> {
    if kind == "workspace.session.started"@ || kind == "workspace.session.ended"@ {
        Some(EventBodyView::WorkspaceSessionStarted(e))
    } else if kind == "workspace.turn.complete"@ || kind == "workspace.agent.turn"@ || kind == "workspace.mission.updated"@ {
        Some(EventBodyView::WorkspaceTurnComplete(e))
    } else if kind == "workspace.skill.activated"@ || kind == "workspace.skill.deactivated"@ || kind == "workspace.skill.phase-changed"@ {
        Some(EventBodyView::WorkspaceSkillActivated(e))
    } else if kind == "workspace.session.blocked"@ || kind == "workspace.session.checkpointed"@ || kind == "workspace.team.nudged"@ || kind == "workspace.team.updated"@ || kind == "workspace.tmux.injection"@ {
        Some(EventBodyView::WorkspaceSessionBlocked(e))
    } else if kind == "workspace.metrics.updated"@ {
        Some(EventBodyView::WorkspaceMetricsUpdate(e))
    } else {
        None
    }
}

/// What an event of any other kind tells.
pub open spec fn custom_body(kind: Seq<char>, node: Node) -> EventBodyView {
    EventBodyView::Custom(
        CustomView {
            kind,
            message: labels::or_text(json::field(node, "message"@), kind),
            payload: if node is Null {
                None
            } else {
                Some(node)
            },
        },
    )
}

/// What an event tells.
pub open spec fn body_of(kind: Seq<char>, node: Node) -> Result<EventBodyView, Seq<char>> {
    if kind == "git.commit"@ {
        commit_body(node)
    } else if kind == "git.branch-changed"@ {
        branch_body(node)
    } else if kind == "github.issue-opened"@ {
        match issue_of(node) {
            Ok(e) => Ok(EventBodyView::GitHubIssueOpened(e)),
            Err(e) => Err(e),
        }
    } else if kind == "github.issue-commented"@ {
        match issue_of(node) {
            Ok(e) => Ok(EventBodyView::GitHubIssueCommented(e)),
            Err(e) => Err(e),
        }
    } else if kind == "github.issue-closed"@ {
        match issue_of(node) {
            Ok(e) => Ok(EventBodyView::GitHubIssueClosed(e)),
            Err(e) => Err(e),
        }
    } else if kind == "github.pr-status-changed"@ {
        pr_body(node)
    } else if kind == "github.ci-failed"@ {
        ci_body(node)
    } else if kind == "tmux.keyword"@ {
        keyword_body(node)
    } else if kind == "tmux.stale"@ {
        stale_body(node)
    } else if is_agent_kind(kind) {
        match agent_of(node) {
            Ok(e) => match agent_body(kind, e) {
                Some(body) => Ok(body),
                None => Ok(custom_body(kind, node)),
            },
            Err(e) => Err(e),
        }
    } else if is_workspace_kind(kind) {
        match workspace_of(node) {
            Ok(e) => match workspace_body(kind, e) {
                Some(body) => Ok(body),
                None => Ok(custom_body(kind, node)),
            },
            Err(e) => Err(e),
        }
    } else {
        Ok(custom_body(kind, node))
    }
}

/// A body, where there is one.
pub open spec fn opt_body(o: Option<EventBody>) -> Option<EventBodyView> {
    match o {
        Some(b) => Some(b@),
        None => None,
    }
}

fn tells_of_agent(kind: &str) -> (r: bool)
    ensures
        r == is_agent_kind(kind@),
{
    same(kind, "agent.started") || same(kind, "session.started") || same(kind, "agent.blocked") || same(kind, "session.blocked") || same(kind, "agent.finished") || same(kind, "session.finished") || same(kind, "agent.failed") || same(kind, "session.failed") || same(kind, "session.retry-needed") || same(kind, "session.pr-created") || same(kind, "session.test-started") || same(kind, "session.test-finished") || same(kind, "session.test-failed") || same(kind, "session.handoff-needed")
}

fn agent_event_body(kind: &str, e: AgentEvent) -> (r: Option<EventBody>)
    ensures
        opt_body(r) == agent_body(kind@, e@),
{
    if same(kind, "agent.started") || same(kind, "session.started") {
        Some(EventBody::AgentStarted(e))
    } else if same(kind, "agent.blocked") || same(kind, "session.blocked") {
        Some(EventBody::AgentBlocked(e))
    } else if same(kind, "agent.finished") || same(kind, "session.finished") {
        Some(EventBody::AgentFinished(e))
    } else if same(kind, "agent.failed") || same(kind, "session.failed") {
        Some(EventBody::AgentFailed(e))
    } else if same(kind, "session.retry-needed") {
        Some(EventBody::AgentRetryNeeded(e))
    } else if same(kind, "session.pr-created") {
        Some(EventBody::AgentPRCreated(e))
    } else if same(kind, "session.test-started") {
        Some(EventBody::AgentTestStarted(e))
    } else if same(kind, "session.test-finished") {
        Some(EventBody::AgentTestFinished(e))
    } else if same(kind, "session.test-failed") {
        Some(EventBody::AgentTestFailed(e))
    } else if same(kind, "session.handoff-needed") {
        Some(EventBody::AgentHandoffNeeded(e))
    } else {
        None
    }
}

fn tells_of_workspace(kind: &str) -> (r: bool)
    ensures
        r == is_workspace_kind(kind@),
{
    same(kind, "workspace.session.started") || same(kind, "workspace.session.ended") || same(kind, "workspace.turn.complete") || same(kind, "workspace.agent.turn") || same(kind, "workspace.mission.updated") || same(kind, "workspace.skill.activated") || same(kind, "workspace.skill.deactivated") || same(kind, "workspace.skill.phase-changed") || same(kind, "workspace.session.blocked") || same(kind, "workspace.session.checkpointed") || same(kind, "workspace.team.nudged") || same(kind, "workspace.team.updated") || same(kind, "workspace.tmux.injection") || same(kind, "workspace.metrics.updated")
}

fn workspace_event_body(kind: &str, e: WorkspaceEvent) -> (r: Option<EventBody>)
    ensures
        opt_body(r) == workspace_body(kind@, e@),
{
    if same(kind, "workspace.session.started") || same(kind, "workspace.session.ended") {
        Some(EventBody::WorkspaceSessionStarted(e))
    } else if same(kind, "workspace.turn.complete") || same(kind, "workspace.agent.turn") || same(kind, "workspace.mission.updated") {
        Some(EventBody::WorkspaceTurnComplete(e))
    } else if same(kind, "workspace.skill.activated") || same(kind, "workspace.skill.deactivated") || same(kind, "workspace.skill.phase-changed") {
        Some(EventBody::WorkspaceSkillActivated(e))
    } else if same(kind, "workspace.session.blocked") || same(kind, "workspace.session.checkpointed") || same(kind, "workspace.team.nudged") || same(kind, "workspace.team.updated") || same(kind, "workspace.tmux.injection") {
        Some(EventBody::WorkspaceSessionBlocked(e))
    } else if same(kind, "workspace.metrics.updated") {
        Some(EventBody::WorkspaceMetricsUpdate(e))
    } else {
        None
    }
}

fn custom_event_body(kind: &str, payload: &Json) -> (r: EventBody)
    ensures
        r@ == custom_body(kind@, payload@),
{
    EventBody::Custom(
        CustomEvent {
            kind: kind.to_owned(),
            message: text_or(payload.field("message"), kind),
            payload: if payload.is_null() {
                None
            } else {
                Some(payload.clone())
            },
        },
    )
}

/// What an event of a kind with a payload tells.
pub fn body_for(kind: &str, payload: &Json) -> (r: Result<EventBody, String>)
    ensures
        typed(r) == body_of(kind@, payload@),
{
    if same(kind, "git.commit") {
        git_commit_body(payload)
    } else if same(kind, "git.branch-changed") {
        git_branch_body(payload)
    } else if same(kind, "github.issue-opened") {
        match github_issue_event(payload) {
            Ok(e) => Ok(EventBody::GitHubIssueOpened(e)),
            Err(e) => Err(e),
        }
    } else if same(kind, "github.issue-commented") {
        match github_issue_event(payload) {
            Ok(e) => Ok(EventBody::GitHubIssueCommented(e)),
            Err(e) => Err(e),
        }
    } else if same(kind, "github.issue-closed") {
        match github_issue_event(payload) {
            Ok(e) => Ok(EventBody::GitHubIssueClosed(e)),
            Err(e) => Err(e),
        }
    } else if same(kind, "github.pr-status-changed") {
        github_pr_body(payload)
    } else if same(kind, "github.ci-failed") {
        github_ci_body(payload)
    } else if same(kind, "tmux.keyword") {
        tmux_keyword_body(payload)
    } else if same(kind, "tmux.stale") {
        tmux_stale_body(payload)
    } else if tells_of_agent(kind) {
        match agent_event(payload) {
            Ok(e) => match agent_event_body(kind, e) {
                Some(body) => Ok(body),
                None => Ok(custom_event_body(kind, payload)),
            },
            Err(e) => Err(e),
        }
    } else if tells_of_workspace(kind) {
        match workspace_event(payload) {
            Ok(e) => match workspace_event_body(kind, e) {
                Some(body) => Ok(body),
                None => Ok(custom_event_body(kind, payload)),
            },
            Err(e) => Err(e),
        }
    } else {
        Ok(custom_event_body(kind, payload))
    }
}

// ---------------------------------------------------------------------------
// Envelopes
// ---------------------------------------------------------------------------

/// How urgent an event is.
pub open spec fn priority_of(kind: Seq<char>, node: Node) -> EventPriority {
    if kind == "agent.failed"@ || kind == "session.failed"@ || kind == "session.test-failed"@
        || kind == "github.ci-failed"@ {
        EventPriority::Critical
    } else if kind == "agent.blocked"@ || kind == "session.blocked"@ || kind
        == "session.retry-needed"@ || kind == "session.handoff-needed"@ || kind == "tmux.stale"@
        || kind == "workspace.session.blocked"@ {
        EventPriority::High
    } else if kind == "github.pr-status-changed"@ && (json::field(node, "new_status"@) == Some(
        "merged"@,
    ) || json::field(node, "new_status"@) == Some("closed"@)) {
        EventPriority::High
    } else if kind == "custom"@ {
        EventPriority::Low
    } else {
        EventPriority::Normal
    }
}

/// How urgent an event is.
pub fn priority_for(kind: &str, payload: &Json) -> (r: EventPriority)
    ensures
        r == priority_of(kind@, payload@),
{
    if same(kind, "agent.failed") || same(kind, "session.failed") || same(
        kind,
        "session.test-failed",
    ) || same(kind, "github.ci-failed") {
        return EventPriority::Critical;
    }
    if same(kind, "agent.blocked") || same(kind, "session.blocked") || same(
        kind,
        "session.retry-needed",
    ) || same(kind, "session.handoff-needed") || same(kind, "tmux.stale") || same(
        kind,
        "workspace.session.blocked",
    ) {
        return EventPriority::High;
    }
    if same(kind, "github.pr-status-changed") {
        match payload.field("new_status") {
            Some(status) => {
                if same(status.as_str(), "merged") || same(status.as_str(), "closed") {
                    return EventPriority::High;
                }
            },
            None => {},
        }
    }
    if same(kind, "custom") {
        EventPriority::Low
    } else {
        EventPriority::Normal
    }
}

/// The envelope of an event in normal form. `id` is for an event that has no
/// identifier.
pub open spec fn envelope_of(event: EventView, id: Seq<char>, now: Seq<char>) -> Result<
    EnvelopeView,
    Seq<char>,
> {
    let kind = events::canonical_kind(event.kind);
    let node = event.payload;
    match body_of(kind, node) {
        Err(e) => Err(e),
        Ok(body) => Ok(
            EnvelopeView {
                id: match json::raw_field(node, "event_id"@) {
                    Some(s) => match identity::uuid_in(s) {
                        Some(own) => own,
                        None => id,
                    },
                    None => id,
                },
                timestamp: now,
                source: scan::until(kind, '.'),
                body,
                metadata: EventMetadataView {
                    channel_hint: event.channel,
                    mention: text::or_else(event.mention, json::field(node, "mention"@)),
                    format: event.format,
                    template: event.template,
                    priority: priority_of(kind, node),
                },
            },
        ),
    }
}

/// The identifier of an event in normal form, and a given one where it has none
/// that can be read.
pub fn event_id_or(event: &IncomingEvent, id: String) -> (r: String)
    ensures
        r@ == (match json::raw_field(event@.payload, "event_id"@) {
            Some(s) => match identity::uuid_in(s) {
                Some(own) => own,
                None => id@,
            },
            None => id@,
        }),
{
    match event.payload.raw_field("event_id") {
        Some(s) => match parse_uuid(s) {
            Some(own) => own,
            None => id,
        },
        None => id,
    }
}

/// The envelope of an event in normal form. `id` is for an event that has no
/// identifier, `now` is the present moment.
pub fn envelope_with(event: &IncomingEvent, id: String, now: String) -> (r: Result<
    EventEnvelope,
    String,
>)
    ensures
        typed(r) == envelope_of(event@, id@, now@),
{
    let kind = event.canonical_kind();
    let payload = &event.payload;
    let body = match body_for(kind, payload) {
        Ok(body) => body,
        Err(e) => return Err(e),
    };
    Ok(
        EventEnvelope {
            id: event_id_or(event, id),
            timestamp: now,
            source: until_char(kind, '.').to_owned(),
            body,
            metadata: EventMetadata {
                channel_hint: copy_opt(&event.channel),
                mention: first_of(copy_opt(&event.mention), payload.field("mention")),
                format: event.format,
                template: copy_opt(&event.template),
                priority: priority_for(kind, payload),
            },
        },
    )
}

/// The envelope of an event, which is brought into normal form first.
pub fn from_incoming_event(event: &IncomingEvent) -> (r: Result<EventEnvelope, String>)
    ensures
        exists|id: Seq<char>, seen: Seq<char>, other: Seq<char>, now: Seq<char>|
            #![trigger envelope_of(normalize::normalized(event@, id, seen), other, now)]
            typed(r) == envelope_of(normalize::normalized(event@, id, seen), other, now)
                && identity::is_fresh_id(id) && identity::is_fresh_moment(seen)
                && identity::is_fresh_id(other) && identity::is_fresh_moment(now),
{
    let normalized = normalize_event(event.clone());
    let id = fresh_event_id();
    let now = current_timestamp_rfc3339();
    let r = envelope_with(&normalized, id, now);
    proof {
        let (a, b) = choose|a: Seq<char>, b: Seq<char>|
            #![trigger normalize::normalized(event@, a, b)]
            normalized@ == normalize::normalized(event@, a, b) && identity::is_fresh_id(a)
                && identity::is_fresh_moment(b);
        assert(typed(r) == envelope_of(normalize::normalized(event@, a, b), id@, now@));
    }
    r
}

// ---------------------------------------------------------------------------
// Envelopes of hooks
// ---------------------------------------------------------------------------

/// The event that an OMX hook sends.
pub open spec fn omx_event(payload: Node) -> Result<EventView, Seq<char>> {
    match json::raw_field(payload, "schema_version"@) {
        None => Err("missing string field 'schema_version'"@),
        Some(version) => if version != "1"@ {
            Err("unsupported schema_version '"@ + version + "'"@)
        } else {
            match json::field_at(payload, "/context/normalized_event"@) {
                None => Err("missing string field 'context.normalized_event'"@),
                Some(name) => Ok(
                    EventView {
                        kind: labels::or_text(json::raw_field(payload, "event"@), name),
                        channel: json::field(payload, "channel"@),
                        mention: text::or_else(
                            json::field(payload, "mention"@),
                            json::field_at(payload, "/context/mention"@),
                        ),
                        format: None,
                        template: None,
                        payload,
                    },
                ),
            }
        },
    }
}

/// The event that an OMX hook sends.
pub fn incoming_event_from_omx_hook_envelope_json(payload: &Json) -> (r: Result<
    IncomingEvent,
    String,
>)
    ensures
        native_hooks::event_result(r) == omx_event(payload@),
{
    let version = match payload.raw_field("schema_version") {
        Some(s) => s,
        None => return Err("missing string field 'schema_version'".to_owned()),
    };
    if !same(version, "1") {
        return Err(cat3("unsupported schema_version '", version, "'"));
    }
    let name = match payload.field_at("/context/normalized_event") {
        Some(s) => s,
        None => return Err("missing string field 'context.normalized_event'".to_owned()),
    };
    let kind = match payload.raw_field("event") {
        Some(s) => s.to_owned(),
        None => name,
    };
    Ok(
        IncomingEvent {
            kind,
            channel: payload.field("channel"),
            mention: first_of(payload.field("mention"), payload.field_at("/context/mention")),
            format: None,
            template: None,
            payload: payload.clone(),
        },
    )
}

/// The envelope of the event that an OMX hook sends.
pub fn from_omx_hook_envelope_json(payload: &Json) -> (r: Result<EventEnvelope, String>)
    ensures
        match omx_event(payload@) {
            Err(e) => typed(r) == Err::<EnvelopeView, Seq<char>>(e),
            Ok(event) => exists|id: Seq<char>, seen: Seq<char>, other: Seq<char>, now: Seq<char>|
                #![trigger envelope_of(normalize::normalized(event, id, seen), other, now)]
                typed(r) == envelope_of(normalize::normalized(event, id, seen), other, now)
                    && identity::is_fresh_id(id) && identity::is_fresh_moment(seen)
                    && identity::is_fresh_id(other) && identity::is_fresh_moment(now),
        },
{
    match incoming_event_from_omx_hook_envelope_json(payload) {
        Ok(event) => from_incoming_event(&event),
        Err(e) => Err(e),
    }
}

// ---------------------------------------------------------------------------
// Laws
// ---------------------------------------------------------------------------

/// The identifier that an event has, in its usual notation, is that of its
/// envelope, whatever identifier is offered.
pub proof fn law_envelope_reuses_event_id(
    event: EventView,
    own: Seq<char>,
    id: Seq<char>,
    seen: Seq<char>,
    other: Seq<char>,
    now: Seq<char>,
)
    requires
        json::raw_field(event.payload, "event_id"@) == Some(own),
        identity::uuid_in(own) == Some(own),
    ensures
        envelope_of(normalize::normalized(event, id, seen), other, now) matches Ok(e) ==> e.id
            == own,
{
    normalize::law_normalizing_keeps_what_is_said(event, id, seen, "event_id"@);
}

} // verus!
