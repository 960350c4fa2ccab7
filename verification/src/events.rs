//! Events as they enter the router.
use vstd::prelude::*;
use vstd::string::*;

use crate::compose::cat2;
use crate::json;
use crate::json::{Json, Node};
use crate::text;
use crate::text::{copy_opt, head, same};

verus! {

broadcast use crate::json::group_trees;

// ---------------------------------------------------------------------------
// Message formats
// ---------------------------------------------------------------------------

/// How a message is laid out.
#[derive(Debug, Clone, Copy, PartialEq, Eq, Structural)]
pub enum MessageFormat {
    Compact,
    Alert,
    Inline,
    Raw,
}

impl Default for MessageFormat {
    fn default() -> (r: Self)
        ensures
            r == MessageFormat::Compact,
    {
        MessageFormat::Compact
    }
}

/// The label of a format.
pub open spec fn label_of(format: MessageFormat) -> Seq<char> {
    match format {
        MessageFormat::Compact => "compact"@,
        MessageFormat::Alert => "alert"@,
        MessageFormat::Inline => "inline"@,
        MessageFormat::Raw => "raw"@,
    }
}

/// The format that a label stands for.
pub open spec fn format_of(label: Seq<char>) -> Result<MessageFormat, Seq<char>> {
    if label == "compact"@ {
        Ok(MessageFormat::Compact)
    } else if label == "alert"@ {
        Ok(MessageFormat::Alert)
    } else if label == "inline"@ {
        Ok(MessageFormat::Inline)
    } else if label == "raw"@ {
        Ok(MessageFormat::Raw)
    } else {
        Err("unsupported message format: "@ + label)
    }
}

/// A result of reading a format, in characters.
pub open spec fn format_result(r: Result<MessageFormat, String>) -> Result<
    MessageFormat,
    Seq<char>,
> {
    match r {
        Ok(f) => Ok(f),
        Err(e) => Err(e@),
    }
}

impl MessageFormat {
    /// The label of this format.
    pub fn as_str(&self) -> (r: &'static str)
        ensures
            r@ == label_of(*self),
    {
        match self {
            MessageFormat::Compact => "compact",
            MessageFormat::Alert => "alert",
            MessageFormat::Inline => "inline",
            MessageFormat::Raw => "raw",
        }
    }

    /// The format that a label stands for.
    pub fn from_label(label: &str) -> (r: Result<Self, String>)
        ensures
            format_result(r) == format_of(label@),
    {
        if same(label, "compact") {
            Ok(MessageFormat::Compact)
        } else if same(label, "alert") {
            Ok(MessageFormat::Alert)
        } else if same(label, "inline") {
            Ok(MessageFormat::Inline)
        } else if same(label, "raw") {
            Ok(MessageFormat::Raw)
        } else {
            Err(cat2("unsupported message format: ", label))
        }
    }
}

/// Reading the label of a format gives the format back.
pub proof fn law_label_round_trip(format: MessageFormat)
    ensures
        format_of(label_of(format)) == Ok::<MessageFormat, Seq<char>>(format),
{
    reveal_strlit("compact");
    reveal_strlit("alert");
    reveal_strlit("inline");
    reveal_strlit("raw");
    assert("alert"@.len() == 5 && "compact"@.len() == 7 && "inline"@.len() == 6 && "raw"@.len()
        == 3);
}

// ---------------------------------------------------------------------------
// Events
// ---------------------------------------------------------------------------

/// An event on its way to the router.
#[derive(Debug, PartialEq, Eq)]
pub struct IncomingEvent {
    pub kind: String,
    pub channel: Option<String>,
    pub mention: Option<String>,
    pub format: Option<MessageFormat>,
    pub template: Option<String>,
    pub payload: Json,
}

/// What an event is.
pub struct EventView {
    pub kind: Seq<char>,
    pub channel: Option<Seq<char>>,
    pub mention: Option<Seq<char>>,
    pub format: Option<MessageFormat>,
    pub template: Option<Seq<char>>,
    pub payload: Node,
}

impl View for IncomingEvent {
    type V = EventView;

    open spec fn view(&self) -> EventView {
        EventView {
            kind: self.kind@,
            channel: text::opt_text(self.channel),
            mention: text::opt_text(self.mention),
            format: self.format,
            template: text::opt_text(self.template),
            payload: self.payload@,
        }
    }
}

impl Clone for IncomingEvent {
    fn clone(&self) -> (r: Self)
        ensures
            r@ == self@,
    {
        IncomingEvent {
            kind: self.kind.clone(),
            channel: copy_opt(&self.channel),
            mention: copy_opt(&self.mention),
            format: self.format,
            template: copy_opt(&self.template),
            payload: self.payload.clone(),
        }
    }
}

/// What is known of the repository and the session behind an event.
#[derive(Debug, PartialEq, Eq)]
pub struct RoutingMetadata {
    pub project: Option<String>,
    pub repo_name: Option<String>,
    pub repo_path: Option<String>,
    pub worktree_path: Option<String>,
    pub session_id: Option<String>,
}

/// What is known of the repository and the session behind an event.
pub struct RoutingView {
    pub project: Option<Seq<char>>,
    pub repo_name: Option<Seq<char>>,
    pub repo_path: Option<Seq<char>>,
    pub worktree_path: Option<Seq<char>>,
    pub session_id: Option<Seq<char>>,
}

impl View for RoutingMetadata {
    type V = RoutingView;

    open spec fn view(&self) -> RoutingView {
        RoutingView {
            project: text::opt_text(self.project),
            repo_name: text::opt_text(self.repo_name),
            repo_path: text::opt_text(self.repo_path),
            worktree_path: text::opt_text(self.worktree_path),
            session_id: text::opt_text(self.session_id),
        }
    }
}

/// Nothing known.
pub open spec fn no_routing() -> RoutingView {
    RoutingView {
        project: None,
        repo_name: None,
        repo_path: None,
        worktree_path: None,
        session_id: None,
    }
}

impl Default for RoutingMetadata {
    fn default() -> (r: Self)
        ensures
            r@ == no_routing(),
    {
        RoutingMetadata {
            project: None,
            repo_name: None,
            repo_path: None,
            worktree_path: None,
            session_id: None,
        }
    }
}

impl Clone for RoutingMetadata {
    fn clone(&self) -> (r: Self)
        ensures
            r@ == self@,
    {
        RoutingMetadata {
            project: copy_opt(&self.project),
            repo_name: copy_opt(&self.repo_name),
            repo_path: copy_opt(&self.repo_path),
            worktree_path: copy_opt(&self.worktree_path),
            session_id: copy_opt(&self.session_id),
        }
    }
}

/// A payload with the routing metadata that is present.
pub open spec fn with_metadata(payload: Node, routing: RoutingView) -> Node {
    payload.with_opt_text("project"@, routing.project).with_opt_text(
        "repo_name"@,
        routing.repo_name,
    ).with_opt_text("repo_path"@, routing.repo_path).with_opt_text(
        "worktree_path"@,
        routing.worktree_path,
    ).with_opt_text("session_id"@, routing.session_id)
}

/// The kind under which an event is routed: the older name of an issue event
/// stands for the present one.
pub open spec fn canonical_kind(kind: Seq<char>) -> Seq<char> {
    if kind == "issue-opened"@ {
        "github.issue-opened"@
    } else {
        kind
    }
}

/// An event with a kind, a channel and a payload alone.
pub open spec fn plain_event(kind: Seq<char>, channel: Option<Seq<char>>, payload: Node) -> EventView {
    EventView { kind, channel, mention: None, format: None, template: None, payload }
}

/// The first seven characters of a commit.
pub open spec fn short(commit: Seq<char>) -> Seq<char> {
    text::first_chars(commit, 7)
}

/// The first seven characters of a commit.
pub fn short_sha(commit: &str) -> (r: String)
    ensures
        r@ == short(commit@),
{
    head(commit, 7)
}

/// One commit in the payload of an event.
pub open spec fn commit_node(commit: Seq<char>, summary: Seq<char>) -> Node {
    json::empty().with_text("commit"@, commit).with_text("short_commit"@, short(commit)).with_text(
        "summary"@,
        summary,
    )
}

/// The payload of an event about a single commit.
pub open spec fn commit_payload(
    repo: Seq<char>,
    branch: Seq<char>,
    commit: Seq<char>,
    summary: Seq<char>,
) -> Node {
    json::empty().with_text("repo"@, repo).with_text("branch"@, branch).with_text(
        "commit"@,
        commit,
    ).with_text("short_commit"@, short(commit)).with_text("summary"@, summary)
}

/// Commits, each with its summary.
pub open spec fn commit_nodes(commits: Seq<(String, String)>) -> Seq<Node> {
    Seq::new(commits.len(), |i: int| commit_node(commits[i].0@, commits[i].1@))
}

/// The payload of an event about a change of a pull request's status.
pub open spec fn pr_status_payload(
    repo: Seq<char>,
    number: u64,
    title: Seq<char>,
    old_status: Seq<char>,
    new_status: Seq<char>,
    url: Seq<char>,
) -> Node {
    json::empty().with_text("repo"@, repo).with_count("number"@, number).with_text(
        "title"@,
        title,
    ).with_text("old_status"@, old_status).with_text("new_status"@, new_status).with_text(
        "url"@,
        url,
    )
}

/// One keyword hit in the payload of an event.
pub open spec fn hit_node(keyword: Seq<char>, line: Seq<char>) -> Node {
    json::empty().with_text("keyword"@, keyword).with_text("line"@, line)
}

/// Keyword hits, each with its line.
pub open spec fn hit_nodes(hits: Seq<(String, String)>) -> Seq<Node> {
    Seq::new(hits.len(), |i: int| hit_node(hits[i].0@, hits[i].1@))
}

/// The payload of an agent's lifecycle event.
pub open spec fn agent_payload(
    agent_name: Seq<char>,
    status: Seq<char>,
    session_id: Option<Seq<char>>,
    project: Option<Seq<char>>,
    elapsed_secs: Option<u64>,
    summary: Option<Seq<char>>,
    mention: Option<Seq<char>>,
) -> Node {
    json::empty().with_text("agent_name"@, agent_name).with_text("status"@, status).with_opt_text(
        "session_id"@,
        session_id,
    ).with_opt_text("project"@, project).with_opt_count("elapsed_secs"@, elapsed_secs).with_opt_text(
        "summary"@,
        summary,
    ).with_opt_text("mention"@, mention)
}

impl IncomingEvent {
    /// The kind under which this event is routed.
    pub fn canonical_kind(&self) -> (r: &str)
        ensures
            r@ == canonical_kind(self.kind@),
    {
        if same(self.kind.as_str(), "issue-opened") {
            "github.issue-opened"
        } else {
            self.kind.as_str()
        }
    }

    fn plain(kind: &str, channel: Option<String>, payload: Json) -> (r: Self)
        ensures
            r@ == plain_event(kind@, text::opt_text(channel), payload@),
    {
        IncomingEvent {
            kind: kind.to_owned(),
            channel,
            mention: None,
            format: None,
            template: None,
            payload,
        }
    }

    /// This event in a format.
    pub fn with_format(self, format: Option<MessageFormat>) -> (r: Self)
        ensures
            r@ == (EventView { format, ..self@ }),
    {
        IncomingEvent { format, ..self }
    }

    /// This event with a mention.
    pub fn with_mention(self, mention: Option<String>) -> (r: Self)
        ensures
            r@ == (EventView { mention: text::opt_text(mention), ..self@ }),
    {
        IncomingEvent { mention, ..self }
    }

    /// This event with the paths of its repository in its payload.
    pub fn with_repo_context(self, repo_path: Option<String>, worktree_path: Option<String>) -> (r:
        Self)
        ensures
            r@ == (EventView {
                payload: self@.payload.with_opt_text(
                    "repo_path"@,
                    text::opt_text(repo_path),
                ).with_opt_text("worktree_path"@, text::opt_text(worktree_path)),
                ..self@
            }),
    {
        let IncomingEvent { kind, channel, mention, format, template, payload } = self;
        IncomingEvent {
            kind,
            channel,
            mention,
            format,
            template,
            payload: payload.with_opt_text("repo_path", &repo_path).with_opt_text(
                "worktree_path",
                &worktree_path,
            ),
        }
    }

    /// This event with routing metadata in its payload.
    pub fn with_routing_metadata(self, routing: &RoutingMetadata) -> (r: Self)
        ensures
            r@ == (EventView { payload: with_metadata(self@.payload, routing@), ..self@ }),
    {
        let IncomingEvent { kind, channel, mention, format, template, payload } = self;
        IncomingEvent {
            kind,
            channel,
            mention,
            format,
            template,
            payload: payload.with_opt_text("project", &routing.project).with_opt_text(
                "repo_name",
                &routing.repo_name,
            ).with_opt_text("repo_path", &routing.repo_path).with_opt_text(
                "worktree_path",
                &routing.worktree_path,
            ).with_opt_text("session_id", &routing.session_id),
        }
    }

    /// A message of the user's own.
    pub fn custom(channel: Option<String>, message: String) -> (r: Self)
        ensures
            r@ == plain_event(
                "custom"@,
                text::opt_text(channel),
                json::empty().with_text("message"@, message@),
            ),
    {
        Self::plain("custom", channel, Json::object().with_text("message", message.as_str()))
    }

    /// An issue was opened.
    pub fn github_issue_opened(
        repo: String,
        number: u64,
        title: String,
        channel: Option<String>,
    ) -> (r: Self)
        ensures
            r@ == plain_event(
                "github.issue-opened"@,
                text::opt_text(channel),
                json::empty().with_text("repo"@, repo@).with_count("number"@, number).with_text(
                    "title"@,
                    title@,
                ),
            ),
    {
        Self::plain(
            "github.issue-opened",
            channel,
            Json::object().with_text("repo", repo.as_str()).with_count("number", number).with_text(
                "title",
                title.as_str(),
            ),
        )
    }

    /// Someone commented on an issue.
    pub fn github_issue_commented(
        repo: String,
        number: u64,
        title: String,
        comments: u64,
        channel: Option<String>,
    ) -> (r: Self)
        ensures
            r@ == plain_event(
                "github.issue-commented"@,
                text::opt_text(channel),
                json::empty().with_text("repo"@, repo@).with_count("number"@, number).with_text(
                    "title"@,
                    title@,
                ).with_count("comments"@, comments),
            ),
    {
        Self::plain(
            "github.issue-commented",
            channel,
            Json::object().with_text("repo", repo.as_str()).with_count("number", number).with_text(
                "title",
                title.as_str(),
            ).with_count("comments", comments),
        )
    }

    /// An issue was closed.
    pub fn github_issue_closed(
        repo: String,
        number: u64,
        title: String,
        channel: Option<String>,
    ) -> (r: Self)
        ensures
            r@ == plain_event(
                "github.issue-closed"@,
                text::opt_text(channel),
                json::empty().with_text("repo"@, repo@).with_count("number"@, number).with_text(
                    "title"@,
                    title@,
                ),
            ),
    {
        Self::plain(
            "github.issue-closed",
            channel,
            Json::object().with_text("repo", repo.as_str()).with_count("number", number).with_text(
                "title",
                title.as_str(),
            ),
        )
    }

    /// A commit was made.
    pub fn git_commit(
        repo: String,
        branch: String,
        commit: String,
        summary: String,
        channel: Option<String>,
    ) -> (r: Self)
        ensures
            r@ == plain_event(
                "git.commit"@,
                text::opt_text(channel),
                commit_payload(repo@, branch@, commit@, summary@),
            ),
    {
        let short = short_sha(commit.as_str());
        Self::plain(
            "git.commit",
            channel,
            Json::object().with_text("repo", repo.as_str()).with_text(
                "branch",
                branch.as_str(),
            ).with_text("commit", commit.as_str()).with_text(
                "short_commit",
                short.as_str(),
            ).with_text("summary", summary.as_str()),
        )
    }

    /// Commits were made: one event for a single commit, one event that lists
    /// them for several, none for none.
    pub fn git_commit_events(
        repo: String,
        branch: String,
        commits: Vec<(String, String)>,
        channel: Option<String>,
    ) -> (r: Vec<IncomingEvent>)
        ensures
            commits@.len() == 0 ==> r@.len() == 0,
            commits@.len() == 1 ==> r@.len() == 1 && r@[0]@ == plain_event(
                "git.commit"@,
                text::opt_text(channel),
                commit_payload(repo@, branch@, commits@[0].0@, commits@[0].1@),
            ),
            commits@.len() > 1 ==> r@.len() == 1 && r@[0]@ == plain_event(
                "git.commit"@,
                text::opt_text(channel),
                json::empty().with_text("repo"@, repo@).with_text("branch"@, branch@).with_count(
                    "commit_count"@,
                    commits@.len() as u64,
                ).with("commits"@, Node::List(commit_nodes(commits@))),
            ),
    {
        let mut out: Vec<IncomingEvent> = Vec::new();
        if commits.len() == 1 {
            out.push(
                Self::git_commit(repo, branch, commits[0].0.clone(), commits[0].1.clone(), channel),
            );
        } else if commits.len() > 1 {
            let mut list: Vec<Json> = Vec::new();
            let mut i: usize = 0;
            while i < commits.len()
                invariant
                    i <= commits.len(),
                    json::nodes(list@) == commit_nodes(commits@).take(i as int),
                decreases commits.len() - i,
            {
                let commit = commits[i].0.as_str();
                let short = short_sha(commit);
                let item = Json::object().with_text("commit", commit).with_text(
                    "short_commit",
                    short.as_str(),
                ).with_text("summary", commits[i].1.as_str());
                list.push(item);
                assert(json::nodes(list@) =~= commit_nodes(commits@).take(i + 1));
                i = i + 1;
            }
            assert(commit_nodes(commits@).take(i as int) =~= commit_nodes(commits@));
            out.push(
                Self::plain(
                    "git.commit",
                    channel,
                    Json::object().with_text("repo", repo.as_str()).with_text(
                        "branch",
                        branch.as_str(),
                    ).with_count("commit_count", commits.len() as u64).with(
                        "commits",
                        Json::List(list),
                    ),
                ),
            );
        }
        out
    }

    /// The branch of a repository changed.
    pub fn git_branch_changed(
        repo: String,
        old_branch: String,
        new_branch: String,
        channel: Option<String>,
    ) -> (r: Self)
        ensures
            r@ == plain_event(
                "git.branch-changed"@,
                text::opt_text(channel),
                json::empty().with_text("repo"@, repo@).with_text(
                    "old_branch"@,
                    old_branch@,
                ).with_text("new_branch"@, new_branch@),
            ),
    {
        Self::plain(
            "git.branch-changed",
            channel,
            Json::object().with_text("repo", repo.as_str()).with_text(
                "old_branch",
                old_branch.as_str(),
            ).with_text("new_branch", new_branch.as_str()),
        )
    }

    /// The status of a pull request changed, as the git monitor reports it.
    pub fn git_pr_status_changed(
        repo: String,
        number: u64,
        title: String,
        old_status: String,
        new_status: String,
        url: String,
        channel: Option<String>,
    ) -> (r: Self)
        ensures
            r@ == plain_event(
                "git.pr-status-changed"@,
                text::opt_text(channel),
                pr_status_payload(repo@, number, title@, old_status@, new_status@, url@),
            ),
    {
        Self::plain(
            "git.pr-status-changed",
            channel,
            Self::pr_status(&repo, number, &title, &old_status, &new_status, &url),
        )
    }

    /// The status of a pull request changed, as GitHub reports it.
    pub fn github_pr_status_changed(
        repo: String,
        number: u64,
        title: String,
        old_status: String,
        new_status: String,
        url: String,
        channel: Option<String>,
    ) -> (r: Self)
        ensures
            r@ == plain_event(
                "github.pr-status-changed"@,
                text::opt_text(channel),
                pr_status_payload(repo@, number, title@, old_status@, new_status@, url@),
            ),
    {
        Self::plain(
            "github.pr-status-changed",
            channel,
            Self::pr_status(&repo, number, &title, &old_status, &new_status, &url),
        )
    }

    fn pr_status(
        repo: &String,
        number: u64,
        title: &String,
        old_status: &String,
        new_status: &String,
        url: &String,
    ) -> (r: Json)
        ensures
            r@ == pr_status_payload(repo@, number, title@, old_status@, new_status@, url@),
    {
        Json::object().with_text("repo", repo.as_str()).with_count("number", number).with_text(
            "title",
            title.as_str(),
        ).with_text("old_status", old_status.as_str()).with_text(
            "new_status",
            new_status.as_str(),
        ).with_text("url", url.as_str())
    }

    /// The state of a CI job of a workflow run.
    pub fn github_ci(
        kind: &str,
        repo: String,
        number: Option<u64>,
        workflow: String,
        status: String,
        conclusion: Option<String>,
        sha: String,
        url: String,
        branch: Option<String>,
        channel: Option<String>,
    ) -> (r: Self)
        ensures
            r@ == plain_event(
                kind@,
                text::opt_text(channel),
                json::empty().with_text("repo"@, repo@).with_opt_count(
                    "number"@,
                    number,
                ).with_text("workflow"@, workflow@).with_text("status"@, status@).with_opt_text(
                    "conclusion"@,
                    text::opt_text(conclusion),
                ).with_text("sha"@, sha@).with_text("url"@, url@).with_opt_text(
                    "branch"@,
                    text::opt_text(branch),
                ),
            ),
    {
        Self::plain(
            kind,
            channel,
            Json::object().with_text("repo", repo.as_str()).with_opt_count(
                "number",
                number,
            ).with_text("workflow", workflow.as_str()).with_text(
                "status",
                status.as_str(),
            ).with_opt_text("conclusion", &conclusion).with_text("sha", sha.as_str()).with_text(
                "url",
                url.as_str(),
            ).with_opt_text("branch", &branch),
        )
    }

    /// A release was made or changed.
    pub fn github_release(
        action: &str,
        repo: String,
        tag: String,
        name: String,
        is_prerelease: bool,
        url: String,
        actor: Option<String>,
        channel: Option<String>,
    ) -> (r: Self)
        ensures
            r@ == plain_event(
                "github.release-"@ + action@,
                text::opt_text(channel),
                json::empty().with_text("repo"@, repo@).with_text("action"@, action@).with_text(
                    "tag"@,
                    tag@,
                ).with_text("name"@, name@).with(
                    "is_prerelease"@,
                    Node::Bool(is_prerelease),
                ).with_text("url"@, url@).with_opt_text("actor"@, text::opt_text(actor)),
            ),
    {
        let kind = cat2("github.release-", action);
        Self::plain(
            kind.as_str(),
            channel,
            Json::object().with_text("repo", repo.as_str()).with_text("action", action).with_text(
                "tag",
                tag.as_str(),
            ).with_text("name", name.as_str()).with_flag(
                "is_prerelease",
                is_prerelease,
            ).with_text("url", url.as_str()).with_opt_text("actor", &actor),
        )
    }

    /// A keyword turned up in a terminal session.
    pub fn tmux_keyword(
        session: String,
        keyword: String,
        line: String,
        channel: Option<String>,
    ) -> (r: Self)
        ensures
            r@ == plain_event(
                "tmux.keyword"@,
                text::opt_text(channel),
                json::empty().with_text("session"@, session@).with_text(
                    "keyword"@,
                    keyword@,
                ).with_text("line"@, line@),
            ),
    {
        Self::plain(
            "tmux.keyword",
            channel,
            Json::object().with_text("session", session.as_str()).with_text(
                "keyword",
                keyword.as_str(),
            ).with_text("line", line.as_str()),
        )
    }

    /// Several keywords turned up in a terminal session.
    pub fn tmux_keywords(
        session: String,
        hits: Vec<(String, String)>,
        channel: Option<String>,
    ) -> (r: Self)
        ensures
            r@ == plain_event(
                "tmux.keyword"@,
                text::opt_text(channel),
                json::empty().with_text("session"@, session@).with_count(
                    "hit_count"@,
                    hits@.len() as u64,
                ).with("hits"@, Node::List(hit_nodes(hits@))),
            ),
    {
        let mut list: Vec<Json> = Vec::new();
        let mut i: usize = 0;
        while i < hits.len()
            invariant
                i <= hits.len(),
                json::nodes(list@) == hit_nodes(hits@).take(i as int),
            decreases hits.len() - i,
        {
            let item = Json::object().with_text("keyword", hits[i].0.as_str()).with_text(
                "line",
                hits[i].1.as_str(),
            );
            list.push(item);
            assert(json::nodes(list@) =~= hit_nodes(hits@).take(i + 1));
            i = i + 1;
        }
        assert(hit_nodes(hits@).take(i as int) =~= hit_nodes(hits@));
        Self::plain(
            "tmux.keyword",
            channel,
            Json::object().with_text("session", session.as_str()).with_count(
                "hit_count",
                hits.len() as u64,
            ).with("hits", Json::List(list)),
        )
    }

    /// A pane of a terminal session has not changed for a while.
    pub fn tmux_stale(
        session: String,
        pane: String,
        minutes: u64,
        last_line: String,
        channel: Option<String>,
    ) -> (r: Self)
        ensures
            r@ == plain_event(
                "tmux.stale"@,
                text::opt_text(channel),
                json::empty().with_text("session"@, session@).with_text("pane"@, pane@).with_count(
                    "minutes"@,
                    minutes,
                ).with_text("last_line"@, last_line@),
            ),
    {
        Self::plain(
            "tmux.stale",
            channel,
            Json::object().with_text("session", session.as_str()).with_text(
                "pane",
                pane.as_str(),
            ).with_count("minutes", minutes).with_text("last_line", last_line.as_str()),
        )
    }

    /// The content of a pane changed and was summarized.
    pub fn tmux_content_changed_with_metadata(
        session: String,
        pane: String,
        summary: String,
        raw_truncated: String,
        backend: String,
        content_mode: String,
        channel: Option<String>,
    ) -> (r: Self)
        ensures
            r@ == plain_event(
                "tmux.content_changed"@,
                text::opt_text(channel),
                json::empty().with_text("session"@, session@).with_text("pane"@, pane@).with_text(
                    "summary"@,
                    summary@,
                ).with_text("raw_truncated"@, raw_truncated@).with_text(
                    "backend"@,
                    backend@,
                ).with_text("content_mode"@, content_mode@),
            ),
    {
        Self::plain(
            "tmux.content_changed",
            channel,
            Json::object().with_text("session", session.as_str()).with_text(
                "pane",
                pane.as_str(),
            ).with_text("summary", summary.as_str()).with_text(
                "raw_truncated",
                raw_truncated.as_str(),
            ).with_text("backend", backend.as_str()).with_text(
                "content_mode",
                content_mode.as_str(),
            ),
        )
    }

    /// A terminal session is still there, unchanged for some minutes.
    pub fn tmux_heartbeat(session: String, minutes: u64, channel: Option<String>) -> (r: Self)
        ensures
            r@ == plain_event(
                "tmux.heartbeat"@,
                text::opt_text(channel),
                json::empty().with_text("session"@, session@).with_count(
                    "minutes_since_change"@,
                    minutes,
                ),
            ),
    {
        Self::plain(
            "tmux.heartbeat",
            channel,
            Json::object().with_text("session", session.as_str()).with_count(
                "minutes_since_change",
                minutes,
            ),
        )
    }

    /// The state files of a workspace changed.
    pub fn workspace(kind: String, payload: Json, channel: Option<String>) -> (r: Self)
        ensures
            r@ == plain_event(kind@, text::opt_text(channel), payload@),
    {
        Self::plain(kind.as_str(), channel, payload)
    }

    fn agent(
        status: &str,
        agent_name: &String,
        session_id: &Option<String>,
        project: &Option<String>,
        elapsed_secs: Option<u64>,
        summary: &Option<String>,
        mention: &Option<String>,
    ) -> (r: Json)
        ensures
            r@ == agent_payload(
                agent_name@,
                status@,
                text::opt_text(*session_id),
                text::opt_text(*project),
                elapsed_secs,
                text::opt_text(*summary),
                text::opt_text(*mention),
            ),
    {
        Json::object().with_text("agent_name", agent_name.as_str()).with_text(
            "status",
            status,
        ).with_opt_text("session_id", session_id).with_opt_text("project", project).with_opt_count(
            "elapsed_secs",
            elapsed_secs,
        ).with_opt_text("summary", summary).with_opt_text("mention", mention)
    }

    /// An agent started.
    pub fn agent_started(
        agent_name: String,
        session_id: Option<String>,
        project: Option<String>,
        elapsed_secs: Option<u64>,
        summary: Option<String>,
        mention: Option<String>,
        channel: Option<String>,
    ) -> (r: Self)
        ensures
            r@ == plain_event(
                "agent.started"@,
                text::opt_text(channel),
                agent_payload(
                    agent_name@,
                    "started"@,
                    text::opt_text(session_id),
                    text::opt_text(project),
                    elapsed_secs,
                    text::opt_text(summary),
                    text::opt_text(mention),
                ),
            ),
    {
        let payload = Self::agent(
            "started",
            &agent_name,
            &session_id,
            &project,
            elapsed_secs,
            &summary,
            &mention,
        );
        Self::plain("agent.started", channel, payload)
    }

    /// An agent is blocked.
    pub fn agent_blocked(
        agent_name: String,
        session_id: Option<String>,
        project: Option<String>,
        elapsed_secs: Option<u64>,
        summary: Option<String>,
        mention: Option<String>,
        channel: Option<String>,
    ) -> (r: Self)
        ensures
            r@ == plain_event(
                "agent.blocked"@,
                text::opt_text(channel),
                agent_payload(
                    agent_name@,
                    "blocked"@,
                    text::opt_text(session_id),
                    text::opt_text(project),
                    elapsed_secs,
                    text::opt_text(summary),
                    text::opt_text(mention),
                ),
            ),
    {
        let payload = Self::agent(
            "blocked",
            &agent_name,
            &session_id,
            &project,
            elapsed_secs,
            &summary,
            &mention,
        );
        Self::plain("agent.blocked", channel, payload)
    }

    /// An agent finished.
    pub fn agent_finished(
        agent_name: String,
        session_id: Option<String>,
        project: Option<String>,
        elapsed_secs: Option<u64>,
        summary: Option<String>,
        mention: Option<String>,
        channel: Option<String>,
    ) -> (r: Self)
        ensures
            r@ == plain_event(
                "agent.finished"@,
                text::opt_text(channel),
                agent_payload(
                    agent_name@,
                    "finished"@,
                    text::opt_text(session_id),
                    text::opt_text(project),
                    elapsed_secs,
                    text::opt_text(summary),
                    text::opt_text(mention),
                ),
            ),
    {
        let payload = Self::agent(
            "finished",
            &agent_name,
            &session_id,
            &project,
            elapsed_secs,
            &summary,
            &mention,
        );
        Self::plain("agent.finished", channel, payload)
    }

    /// An agent failed.
    pub fn agent_failed(
        agent_name: String,
        session_id: Option<String>,
        project: Option<String>,
        elapsed_secs: Option<u64>,
        summary: Option<String>,
        error_message: String,
        mention: Option<String>,
        channel: Option<String>,
    ) -> (r: Self)
        ensures
            r@ == plain_event(
                "agent.failed"@,
                text::opt_text(channel),
                agent_payload(
                    agent_name@,
                    "failed"@,
                    text::opt_text(session_id),
                    text::opt_text(project),
                    elapsed_secs,
                    text::opt_text(summary),
                    text::opt_text(mention),
                ).with_text("error_message"@, error_message@),
            ),
    {
        let payload = Self::agent(
            "failed",
            &agent_name,
            &session_id,
            &project,
            elapsed_secs,
            &summary,
            &mention,
        ).with_text("error_message", error_message.as_str());
        Self::plain("agent.failed", channel, payload)
    }
}

} // verus!
