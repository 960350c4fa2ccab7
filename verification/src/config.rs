//! The configuration: its parts and their defaults.
use vstd::prelude::*;
use vstd::string::*;

use std::time::Duration;

use crate::events::MessageFormat;
use crate::table;
use crate::text;
use crate::text::{borrow_opt, copy_opt, same, trim};
use crate::workspace;
use crate::workspace::default_workspace_watch_dirs;

verus! {

/// Settings of the Discord bot.
#[derive(Debug, Clone)]
pub struct DiscordConfig {
    pub bot_token: Option<String>,
    pub legacy_default_channel: Option<String>,
}

/// Settings of the Discord bot.
pub struct DiscordSettingsView {
    pub bot_token: Option<Seq<char>>,
    pub legacy_default_channel: Option<Seq<char>>,
}

impl View for DiscordConfig {
    type V = DiscordSettingsView;

    open spec fn view(&self) -> DiscordSettingsView {
        DiscordSettingsView {
            bot_token: text::opt_text(self.bot_token),
            legacy_default_channel: text::opt_text(self.legacy_default_channel),
        }
    }
}

/// The default of these settings.
pub open spec fn default_discord_config() -> DiscordSettingsView {
    DiscordSettingsView {
        bot_token: None,
        legacy_default_channel: None,
    }
}

impl Default for DiscordConfig {
    fn default() -> (r: Self)
        ensures
            r@ == default_discord_config(),
    {
        DiscordConfig {
            bot_token: None,
            legacy_default_channel: None,
        }
    }
}

/// Settings of Slack.
#[derive(Debug, Clone)]
pub struct SlackConfig {
}

/// Settings of Slack.
pub struct SlackSettingsView {
}

impl View for SlackConfig {
    type V = SlackSettingsView;

    open spec fn view(&self) -> SlackSettingsView {
        SlackSettingsView {
        }
    }
}

/// The default of these settings.
pub open spec fn default_slack_config() -> SlackSettingsView {
    SlackSettingsView {
    }
}

impl Default for SlackConfig {
    fn default() -> (r: Self)
        ensures
            r@ == default_slack_config(),
    {
        SlackConfig {
        }
    }
}

/// Settings of the Gemini API.
#[derive(Debug, Clone)]
pub struct GeminiConfig {
    pub api_key: Option<String>,
}

/// Settings of the Gemini API.
pub struct GeminiSettingsView {
    pub api_key: Option<Seq<char>>,
}

impl View for GeminiConfig {
    type V = GeminiSettingsView;

    open spec fn view(&self) -> GeminiSettingsView {
        GeminiSettingsView {
            api_key: text::opt_text(self.api_key),
        }
    }
}

/// The default of these settings.
pub open spec fn default_gemini_config() -> GeminiSettingsView {
    GeminiSettingsView {
        api_key: None,
    }
}

impl Default for GeminiConfig {
    fn default() -> (r: Self)
        ensures
            r@ == default_gemini_config(),
    {
        GeminiConfig {
            api_key: None,
        }
    }
}

/// Settings of the OpenRouter API.
#[derive(Debug, Clone)]
pub struct OpenRouterConfig {
    pub api_key: Option<String>,
}

/// Settings of the OpenRouter API.
pub struct OpenRouterSettingsView {
    pub api_key: Option<Seq<char>>,
}

impl View for OpenRouterConfig {
    type V = OpenRouterSettingsView;

    open spec fn view(&self) -> OpenRouterSettingsView {
        OpenRouterSettingsView {
            api_key: text::opt_text(self.api_key),
        }
    }
}

/// The default of these settings.
pub open spec fn default_open_router_config() -> OpenRouterSettingsView {
    OpenRouterSettingsView {
        api_key: None,
    }
}

impl Default for OpenRouterConfig {
    fn default() -> (r: Self)
        ensures
            r@ == default_open_router_config(),
    {
        OpenRouterConfig {
            api_key: None,
        }
    }
}

/// Settings of the OpenAI API.
#[derive(Debug, Clone)]
pub struct OpenAiConfig {
    pub api_key: Option<String>,
    pub base_url: Option<String>,
}

/// Settings of the OpenAI API.
pub struct OpenAiSettingsView {
    pub api_key: Option<Seq<char>>,
    pub base_url: Option<Seq<char>>,
}

impl View for OpenAiConfig {
    type V = OpenAiSettingsView;

    open spec fn view(&self) -> OpenAiSettingsView {
        OpenAiSettingsView {
            api_key: text::opt_text(self.api_key),
            base_url: text::opt_text(self.base_url),
        }
    }
}

/// The default of these settings.
pub open spec fn default_open_ai_config() -> OpenAiSettingsView {
    OpenAiSettingsView {
        api_key: None,
        base_url: None,
    }
}

impl Default for OpenAiConfig {
    fn default() -> (r: Self)
        ensures
            r@ == default_open_ai_config(),
    {
        OpenAiConfig {
            api_key: None,
            base_url: None,
        }
    }
}

/// Settings of the services that are used.
#[derive(Debug, Clone)]
pub struct ProvidersConfig {
    pub discord: DiscordConfig,
    pub slack: SlackConfig,
    pub gemini: GeminiConfig,
    pub openrouter: OpenRouterConfig,
    pub openai: OpenAiConfig,
}

/// Settings of the services that are used.
pub struct ProvidersSettingsView {
    pub discord: DiscordSettingsView,
    pub slack: SlackSettingsView,
    pub gemini: GeminiSettingsView,
    pub openrouter: OpenRouterSettingsView,
    pub openai: OpenAiSettingsView,
}

impl View for ProvidersConfig {
    type V = ProvidersSettingsView;

    open spec fn view(&self) -> ProvidersSettingsView {
        ProvidersSettingsView {
            discord: self.discord@,
            slack: self.slack@,
            gemini: self.gemini@,
            openrouter: self.openrouter@,
            openai: self.openai@,
        }
    }
}

/// The default of these settings.
pub open spec fn default_providers_config() -> ProvidersSettingsView {
    ProvidersSettingsView {
        discord: default_discord_config(),
        slack: default_slack_config(),
        gemini: default_gemini_config(),
        openrouter: default_open_router_config(),
        openai: default_open_ai_config(),
    }
}

impl Default for ProvidersConfig {
    fn default() -> (r: Self)
        ensures
            r@ == default_providers_config(),
    {
        ProvidersConfig {
            discord: DiscordConfig::default(),
            slack: SlackConfig::default(),
            gemini: GeminiConfig::default(),
            openrouter: OpenRouterConfig::default(),
            openai: OpenAiConfig::default(),
        }
    }
}

/// Where the daemon listens.
#[derive(Debug, Clone)]
pub struct DaemonConfig {
    pub bind_host: String,
    pub port: u16,
    pub base_url: String,
}

/// Where the daemon listens.
pub struct DaemonSettingsView {
    pub bind_host: Seq<char>,
    pub port: u16,
    pub base_url: Seq<char>,
}

impl View for DaemonConfig {
    type V = DaemonSettingsView;

    open spec fn view(&self) -> DaemonSettingsView {
        DaemonSettingsView {
            bind_host: self.bind_host@,
            port: self.port,
            base_url: self.base_url@,
        }
    }
}

/// The default of these settings.
pub open spec fn default_daemon_config() -> DaemonSettingsView {
    DaemonSettingsView {
        bind_host: "0.0.0.0"@,
        port: 25294,
        base_url: "http://127.0.0.1:25294"@,
    }
}

impl Default for DaemonConfig {
    fn default() -> (r: Self)
        ensures
            r@ == default_daemon_config(),
    {
        DaemonConfig {
            bind_host: "0.0.0.0".to_owned(),
            port: 25294,
            base_url: "http://127.0.0.1:25294".to_owned(),
        }
    }
}

/// How long events are gathered.
#[derive(Debug, Clone)]
pub struct DispatchConfig {
    pub ci_batch_window_secs: u64,
    pub routine_batch_window_secs: u64,
}

/// How long events are gathered.
pub struct DispatchSettingsView {
    pub ci_batch_window_secs: u64,
    pub routine_batch_window_secs: u64,
}

impl View for DispatchConfig {
    type V = DispatchSettingsView;

    open spec fn view(&self) -> DispatchSettingsView {
        DispatchSettingsView {
            ci_batch_window_secs: self.ci_batch_window_secs,
            routine_batch_window_secs: self.routine_batch_window_secs,
        }
    }
}

/// The default of these settings.
pub open spec fn default_dispatch_config() -> DispatchSettingsView {
    DispatchSettingsView {
        ci_batch_window_secs: 30,
        routine_batch_window_secs: 5,
    }
}

impl Default for DispatchConfig {
    fn default() -> (r: Self)
        ensures
            r@ == default_dispatch_config(),
    {
        DispatchConfig {
            ci_batch_window_secs: 30,
            routine_batch_window_secs: 5,
        }
    }
}

/// What holds where a route says nothing.
#[derive(Debug, Clone)]
pub struct DefaultsConfig {
    pub channel: Option<String>,
    pub format: MessageFormat,
}

/// What holds where a route says nothing.
pub struct DefaultsSettingsView {
    pub channel: Option<Seq<char>>,
    pub format: MessageFormat,
}

impl View for DefaultsConfig {
    type V = DefaultsSettingsView;

    open spec fn view(&self) -> DefaultsSettingsView {
        DefaultsSettingsView {
            channel: text::opt_text(self.channel),
            format: self.format,
        }
    }
}

/// The default of these settings.
pub open spec fn default_defaults_config() -> DefaultsSettingsView {
    DefaultsSettingsView {
        channel: None,
        format: MessageFormat::Compact,
    }
}

impl Default for DefaultsConfig {
    fn default() -> (r: Self)
        ensures
            r@ == default_defaults_config(),
    {
        DefaultsConfig {
            channel: None,
            format: MessageFormat::Compact,
        }
    }
}

/// Where events of a kind go.
#[derive(Debug, Clone)]
pub struct RouteRule {
    pub event: String,
    pub filter: Vec<(String, String)>,
    pub sink: String,
    pub channel: Option<String>,
    pub webhook: Option<String>,
    pub slack_webhook: Option<String>,
    pub mention: Option<String>,
    pub allow_dynamic_tokens: bool,
    pub format: Option<MessageFormat>,
    pub template: Option<String>,
}

/// Where events of a kind go.
pub struct RouteView {
    pub event: Seq<char>,
    pub filter: Seq<(Seq<char>, Seq<char>)>,
    pub sink: Seq<char>,
    pub channel: Option<Seq<char>>,
    pub webhook: Option<Seq<char>>,
    pub slack_webhook: Option<Seq<char>>,
    pub mention: Option<Seq<char>>,
    pub allow_dynamic_tokens: bool,
    pub format: Option<MessageFormat>,
    pub template: Option<Seq<char>>,
}

impl View for RouteRule {
    type V = RouteView;

    open spec fn view(&self) -> RouteView {
        RouteView {
            event: self.event@,
            filter: table::pairs(self.filter@),
            sink: self.sink@,
            channel: text::opt_text(self.channel),
            webhook: text::opt_text(self.webhook),
            slack_webhook: text::opt_text(self.slack_webhook),
            mention: text::opt_text(self.mention),
            allow_dynamic_tokens: self.allow_dynamic_tokens,
            format: self.format,
            template: text::opt_text(self.template),
        }
    }
}

/// The default of these settings.
pub open spec fn default_route_rule() -> RouteView {
    RouteView {
        event: ""@,
        filter: Seq::empty(),
        sink: "discord"@,
        channel: None,
        webhook: None,
        slack_webhook: None,
        mention: None,
        allow_dynamic_tokens: false,
        format: None,
        template: None,
    }
}

impl Default for RouteRule {
    fn default() -> (r: Self)
        ensures
            r@ == default_route_rule(),
    {
        let r = RouteRule {
            event: "".to_owned(),
            filter: Vec::new(),
            sink: "discord".to_owned(),
            channel: None,
            webhook: None,
            slack_webhook: None,
            mention: None,
            allow_dynamic_tokens: false,
            format: None,
            template: None,
        };
        assert(table::pairs(r.filter@) =~= Seq::empty());
        r
    }
}

/// A repository that is watched.
#[derive(Debug, Clone)]
pub struct GitRepoMonitor {
    pub path: String,
    pub name: Option<String>,
    pub remote: String,
    pub github_repo: Option<String>,
    pub emit_commits: bool,
    pub emit_branch_changes: bool,
    pub emit_issue_opened: bool,
    pub emit_pr_status: bool,
    pub channel: Option<String>,
    pub mention: Option<String>,
    pub format: Option<MessageFormat>,
}

/// A repository that is watched.
pub struct GitRepoMonitorView {
    pub path: Seq<char>,
    pub name: Option<Seq<char>>,
    pub remote: Seq<char>,
    pub github_repo: Option<Seq<char>>,
    pub emit_commits: bool,
    pub emit_branch_changes: bool,
    pub emit_issue_opened: bool,
    pub emit_pr_status: bool,
    pub channel: Option<Seq<char>>,
    pub mention: Option<Seq<char>>,
    pub format: Option<MessageFormat>,
}

impl View for GitRepoMonitor {
    type V = GitRepoMonitorView;

    open spec fn view(&self) -> GitRepoMonitorView {
        GitRepoMonitorView {
            path: self.path@,
            name: text::opt_text(self.name),
            remote: self.remote@,
            github_repo: text::opt_text(self.github_repo),
            emit_commits: self.emit_commits,
            emit_branch_changes: self.emit_branch_changes,
            emit_issue_opened: self.emit_issue_opened,
            emit_pr_status: self.emit_pr_status,
            channel: text::opt_text(self.channel),
            mention: text::opt_text(self.mention),
            format: self.format,
        }
    }
}

/// The default of these settings.
pub open spec fn default_git_repo_monitor() -> GitRepoMonitorView {
    GitRepoMonitorView {
        path: ""@,
        name: None,
        remote: "origin"@,
        github_repo: None,
        emit_commits: true,
        emit_branch_changes: true,
        emit_issue_opened: true,
        emit_pr_status: false,
        channel: None,
        mention: None,
        format: None,
    }
}

impl Default for GitRepoMonitor {
    fn default() -> (r: Self)
        ensures
            r@ == default_git_repo_monitor(),
    {
        GitRepoMonitor {
            path: "".to_owned(),
            name: None,
            remote: "origin".to_owned(),
            github_repo: None,
            emit_commits: true,
            emit_branch_changes: true,
            emit_issue_opened: true,
            emit_pr_status: false,
            channel: None,
            mention: None,
            format: None,
        }
    }
}

/// The repositories that are watched.
#[derive(Debug, Clone)]
pub struct GitMonitorConfig {
    pub repos: Vec<GitRepoMonitor>,
}

/// The repositories that are watched.
pub struct GitMonitorSettingsView {
    pub repos: Seq<GitRepoMonitorView>,
}

impl View for GitMonitorConfig {
    type V = GitMonitorSettingsView;

    open spec fn view(&self) -> GitMonitorSettingsView {
        GitMonitorSettingsView {
            repos: text::all_views(self.repos@),
        }
    }
}

/// The default of these settings.
pub open spec fn default_git_monitor_config() -> GitMonitorSettingsView {
    GitMonitorSettingsView {
        repos: Seq::empty(),
    }
}

impl Default for GitMonitorConfig {
    fn default() -> (r: Self)
        ensures
            r@ == default_git_monitor_config(),
    {
        let r = GitMonitorConfig {
            repos: Vec::new(),
        };
        assert(text::all_views(r.repos@) =~= Seq::empty());
        r
    }
}

/// A tmux session, or a pattern of them, that is watched.
#[derive(Debug, Clone)]
pub struct TmuxSessionMonitor {
    pub session: String,
    pub keywords: Vec<String>,
    pub keyword_window_secs: u64,
    pub stale_minutes: u64,
    pub channel: Option<String>,
    pub mention: Option<String>,
    pub format: Option<MessageFormat>,
    pub summarize: bool,
    pub summarizer: String,
    pub heartbeat_mins: u64,
    /// The new lines below which nothing is summarized.
    pub min_new_lines: usize,
    /// The minutes between two summaries; 0 sets no limit.
    pub summarize_interval_mins: u64,
    /// The minutes between two heartbeats; 0 leaves it to `heartbeat_mins`.
    pub heartbeat_interval: u64,
    /// The minutes between two summaries; 0 leaves it to `summarize_interval_mins`.
    pub summary_interval: u64,
}

/// A tmux session, or a pattern of them, that is watched.
pub struct TmuxSessionMonitorView {
    pub session: Seq<char>,
    pub keywords: Seq<Seq<char>>,
    pub keyword_window_secs: u64,
    pub stale_minutes: u64,
    pub channel: Option<Seq<char>>,
    pub mention: Option<Seq<char>>,
    pub format: Option<MessageFormat>,
    pub summarize: bool,
    pub summarizer: Seq<char>,
    pub heartbeat_mins: u64,
    pub min_new_lines: usize,
    pub summarize_interval_mins: u64,
    pub heartbeat_interval: u64,
    pub summary_interval: u64,
}

impl View for TmuxSessionMonitor {
    type V = TmuxSessionMonitorView;

    open spec fn view(&self) -> TmuxSessionMonitorView {
        TmuxSessionMonitorView {
            session: self.session@,
            keywords: text::views(self.keywords@),
            keyword_window_secs: self.keyword_window_secs,
            stale_minutes: self.stale_minutes,
            channel: text::opt_text(self.channel),
            mention: text::opt_text(self.mention),
            format: self.format,
            summarize: self.summarize,
            summarizer: self.summarizer@,
            heartbeat_mins: self.heartbeat_mins,
            min_new_lines: self.min_new_lines,
            summarize_interval_mins: self.summarize_interval_mins,
            heartbeat_interval: self.heartbeat_interval,
            summary_interval: self.summary_interval,
        }
    }
}

/// The default of these settings.
pub open spec fn default_tmux_session_monitor() -> TmuxSessionMonitorView {
    TmuxSessionMonitorView {
        session: ""@,
        keywords: Seq::empty(),
        keyword_window_secs: 30,
        stale_minutes: 10,
        channel: None,
        mention: None,
        format: None,
        summarize: false,
        summarizer: "gemini:gemini-2.5-flash"@,
        heartbeat_mins: 0,
        min_new_lines: 0,
        summarize_interval_mins: 0,
        heartbeat_interval: 0,
        summary_interval: 0,
    }
}

impl Default for TmuxSessionMonitor {
    fn default() -> (r: Self)
        ensures
            r@ == default_tmux_session_monitor(),
    {
        let r = TmuxSessionMonitor {
            session: "".to_owned(),
            keywords: Vec::new(),
            keyword_window_secs: 30,
            stale_minutes: 10,
            channel: None,
            mention: None,
            format: None,
            summarize: false,
            summarizer: "gemini:gemini-2.5-flash".to_owned(),
            heartbeat_mins: 0,
            min_new_lines: 0,
            summarize_interval_mins: 0,
            heartbeat_interval: 0,
            summary_interval: 0,
        };
        assert(text::views(r.keywords@) =~= Seq::empty());
        r
    }
}

/// The tmux sessions that are watched.
#[derive(Debug, Clone)]
pub struct TmuxMonitorConfig {
    pub sessions: Vec<TmuxSessionMonitor>,
}

/// The tmux sessions that are watched.
pub struct TmuxMonitorSettingsView {
    pub sessions: Seq<TmuxSessionMonitorView>,
}

impl View for TmuxMonitorConfig {
    type V = TmuxMonitorSettingsView;

    open spec fn view(&self) -> TmuxMonitorSettingsView {
        TmuxMonitorSettingsView {
            sessions: text::all_views(self.sessions@),
        }
    }
}

/// The default of these settings.
pub open spec fn default_tmux_monitor_config() -> TmuxMonitorSettingsView {
    TmuxMonitorSettingsView {
        sessions: Seq::empty(),
    }
}

impl Default for TmuxMonitorConfig {
    fn default() -> (r: Self)
        ensures
            r@ == default_tmux_monitor_config(),
    {
        let r = TmuxMonitorConfig {
            sessions: Vec::new(),
        };
        assert(text::all_views(r.sessions@) =~= Seq::empty());
        r
    }
}

/// A workspace whose state files are watched.
#[derive(Debug, Clone)]
pub struct WorkspaceMonitor {
    pub path: String,
    pub watch_dirs: Vec<String>,
    pub discover_worktrees: bool,
    pub channel: Option<String>,
    pub mention: Option<String>,
    pub format: Option<MessageFormat>,
    pub events: Vec<String>,
    pub poll_interval_secs: Option<u64>,
    pub debounce_ms: u64,
}

/// A workspace whose state files are watched.
pub struct WorkspaceMonitorView {
    pub path: Seq<char>,
    pub watch_dirs: Seq<Seq<char>>,
    pub discover_worktrees: bool,
    pub channel: Option<Seq<char>>,
    pub mention: Option<Seq<char>>,
    pub format: Option<MessageFormat>,
    pub events: Seq<Seq<char>>,
    pub poll_interval_secs: Option<u64>,
    pub debounce_ms: u64,
}

impl View for WorkspaceMonitor {
    type V = WorkspaceMonitorView;

    open spec fn view(&self) -> WorkspaceMonitorView {
        WorkspaceMonitorView {
            path: self.path@,
            watch_dirs: text::views(self.watch_dirs@),
            discover_worktrees: self.discover_worktrees,
            channel: text::opt_text(self.channel),
            mention: text::opt_text(self.mention),
            format: self.format,
            events: text::views(self.events@),
            poll_interval_secs: self.poll_interval_secs,
            debounce_ms: self.debounce_ms,
        }
    }
}

/// The default of these settings.
pub open spec fn default_workspace_monitor() -> WorkspaceMonitorView {
    WorkspaceMonitorView {
        path: ""@,
        watch_dirs: workspace::watch_dirs(),
        discover_worktrees: false,
        channel: None,
        mention: None,
        format: None,
        events: Seq::empty(),
        poll_interval_secs: None,
        debounce_ms: 2000,
    }
}

impl Default for WorkspaceMonitor {
    fn default() -> (r: Self)
        ensures
            r@ == default_workspace_monitor(),
    {
        let r = WorkspaceMonitor {
            path: "".to_owned(),
            watch_dirs: default_workspace_watch_dirs(),
            discover_worktrees: false,
            channel: None,
            mention: None,
            format: None,
            events: Vec::new(),
            poll_interval_secs: None,
            debounce_ms: 2000,
        };
        assert(text::views(r.events@) =~= Seq::empty());
        r
    }
}

/// What is watched.
#[derive(Debug, Clone)]
pub struct MonitorConfig {
    pub poll_interval_secs: u64,
    pub github_token: Option<String>,
    pub github_api_base: String,
    pub git: GitMonitorConfig,
    pub tmux: TmuxMonitorConfig,
    pub workspace: Vec<WorkspaceMonitor>,
}

/// What is watched.
pub struct MonitorSettingsView {
    pub poll_interval_secs: u64,
    pub github_token: Option<Seq<char>>,
    pub github_api_base: Seq<char>,
    pub git: GitMonitorSettingsView,
    pub tmux: TmuxMonitorSettingsView,
    pub workspace: Seq<WorkspaceMonitorView>,
}

impl View for MonitorConfig {
    type V = MonitorSettingsView;

    open spec fn view(&self) -> MonitorSettingsView {
        MonitorSettingsView {
            poll_interval_secs: self.poll_interval_secs,
            github_token: text::opt_text(self.github_token),
            github_api_base: self.github_api_base@,
            git: self.git@,
            tmux: self.tmux@,
            workspace: text::all_views(self.workspace@),
        }
    }
}

/// The default of these settings.
pub open spec fn default_monitor_config() -> MonitorSettingsView {
    MonitorSettingsView {
        poll_interval_secs: 5,
        github_token: None,
        github_api_base: "https://api.github.com"@,
        git: default_git_monitor_config(),
        tmux: default_tmux_monitor_config(),
        workspace: Seq::empty(),
    }
}

impl Default for MonitorConfig {
    fn default() -> (r: Self)
        ensures
            r@ == default_monitor_config(),
    {
        let r = MonitorConfig {
            poll_interval_secs: 5,
            github_token: None,
            github_api_base: "https://api.github.com".to_owned(),
            git: GitMonitorConfig::default(),
            tmux: TmuxMonitorConfig::default(),
            workspace: Vec::new(),
        };
        assert(text::all_views(r.workspace@) =~= Seq::empty());
        r
    }
}

/// A job that runs on a schedule.
#[derive(Debug)]
pub struct CronJob {
    pub id: String,
    pub schedule: String,
    pub timezone: String,
    pub enabled: bool,
    pub channel: Option<String>,
    pub mention: Option<String>,
    pub format: Option<MessageFormat>,
    pub kind: CronJobKind,
}

/// A job that runs on a schedule.
pub struct JobView {
    pub id: Seq<char>,
    pub schedule: Seq<char>,
    pub timezone: Seq<char>,
    pub enabled: bool,
    pub channel: Option<Seq<char>>,
    pub mention: Option<Seq<char>>,
    pub format: Option<MessageFormat>,
    pub kind: JobKindView,
}

impl View for CronJob {
    type V = JobView;

    open spec fn view(&self) -> JobView {
        JobView {
            id: self.id@,
            schedule: self.schedule@,
            timezone: self.timezone@,
            enabled: self.enabled,
            channel: text::opt_text(self.channel),
            mention: text::opt_text(self.mention),
            format: self.format,
            kind: self.kind@,
        }
    }
}

/// The jobs that run on a schedule.
#[derive(Debug, Clone)]
pub struct CronConfig {
    pub poll_interval_secs: u64,
    pub jobs: Vec<CronJob>,
}

/// The jobs that run on a schedule.
pub struct CronSettingsView {
    pub poll_interval_secs: u64,
    pub jobs: Seq<JobView>,
}

impl View for CronConfig {
    type V = CronSettingsView;

    open spec fn view(&self) -> CronSettingsView {
        CronSettingsView {
            poll_interval_secs: self.poll_interval_secs,
            jobs: text::all_views(self.jobs@),
        }
    }
}

/// The default of these settings.
pub open spec fn default_cron_config() -> CronSettingsView {
    CronSettingsView {
        poll_interval_secs: 30,
        jobs: Seq::empty(),
    }
}

impl Default for CronConfig {
    fn default() -> (r: Self)
        ensures
            r@ == default_cron_config(),
    {
        let r = CronConfig {
            poll_interval_secs: 30,
            jobs: Vec::new(),
        };
        assert(text::all_views(r.jobs@) =~= Seq::empty());
        r
    }
}

/// The whole configuration.
#[derive(Debug, Clone)]
pub struct AppConfig {
    pub discord: DiscordConfig,
    pub providers: ProvidersConfig,
    pub dispatch: DispatchConfig,
    pub daemon: DaemonConfig,
    pub defaults: DefaultsConfig,
    pub routes: Vec<RouteRule>,
    pub monitors: MonitorConfig,
    pub cron: CronConfig,
}

/// The whole configuration.
pub struct AppSettingsView {
    pub discord: DiscordSettingsView,
    pub providers: ProvidersSettingsView,
    pub dispatch: DispatchSettingsView,
    pub daemon: DaemonSettingsView,
    pub defaults: DefaultsSettingsView,
    pub routes: Seq<RouteView>,
    pub monitors: MonitorSettingsView,
    pub cron: CronSettingsView,
}

impl View for AppConfig {
    type V = AppSettingsView;

    open spec fn view(&self) -> AppSettingsView {
        AppSettingsView {
            discord: self.discord@,
            providers: self.providers@,
            dispatch: self.dispatch@,
            daemon: self.daemon@,
            defaults: self.defaults@,
            routes: text::all_views(self.routes@),
            monitors: self.monitors@,
            cron: self.cron@,
        }
    }
}

/// The default of these settings.
pub open spec fn default_app_config() -> AppSettingsView {
    AppSettingsView {
        discord: default_discord_config(),
        providers: default_providers_config(),
        dispatch: default_dispatch_config(),
        daemon: default_daemon_config(),
        defaults: default_defaults_config(),
        routes: Seq::empty(),
        monitors: default_monitor_config(),
        cron: default_cron_config(),
    }
}

impl Default for AppConfig {
    fn default() -> (r: Self)
        ensures
            r@ == default_app_config(),
    {
        let r = AppConfig {
            discord: DiscordConfig::default(),
            providers: ProvidersConfig::default(),
            dispatch: DispatchConfig::default(),
            daemon: DaemonConfig::default(),
            defaults: DefaultsConfig::default(),
            routes: Vec::new(),
            monitors: MonitorConfig::default(),
            cron: CronConfig::default(),
        };
        assert(text::all_views(r.routes@) =~= Seq::empty());
        r
    }
}

/// What a job does.
#[derive(Debug)]
pub enum CronJobKind {
    CustomMessage { message: String },
}

/// What a job does.
pub enum JobKindView {
    CustomMessage { message: Seq<char> },
}

impl View for CronJobKind {
    type V = JobKindView;

    open spec fn view(&self) -> JobKindView {
        match self {
            CronJobKind::CustomMessage { message } => JobKindView::CustomMessage {
                message: message@,
            },
        }
    }
}

impl Clone for CronJobKind {
    fn clone(&self) -> (r: Self)
        ensures
            r@ == self@,
    {
        match self {
            CronJobKind::CustomMessage { message } => CronJobKind::CustomMessage {
                message: message.clone(),
            },
        }
    }
}

impl Clone for CronJob {
    fn clone(&self) -> (r: Self)
        ensures
            r@ == self@,
    {
        CronJob {
            id: self.id.clone(),
            schedule: self.schedule.clone(),
            timezone: self.timezone.clone(),
            enabled: self.enabled,
            channel: copy_opt(&self.channel),
            mention: copy_opt(&self.mention),
            format: self.format,
            kind: self.kind.clone(),
        }
    }
}

// ---------------------------------------------------------------------------
// Durations
// ---------------------------------------------------------------------------

/// The length of a `Duration`, in nanoseconds.
pub uninterp spec fn nanos_in(d: Duration) -> nat;

/// `std::time::Duration::from_secs`: a duration of whole seconds.
pub assume_specification[ Duration::from_secs ](secs: u64) -> (r: Duration)
    ensures
        nanos_in(r) == secs as nat * 1_000_000_000,
;

/// The length of an optional duration.
pub open spec fn opt_nanos(o: Option<Duration>) -> Option<nat> {
    match o {
        Some(d) => Some(nanos_in(d)),
        None => None,
    }
}

impl DispatchConfig {
    /// How long the jobs of a CI run are gathered: a second at least.
    pub fn ci_batch_window(&self) -> (r: Duration)
        ensures
            nanos_in(r) == (if self.ci_batch_window_secs > 1 {
                self.ci_batch_window_secs as nat
            } else {
                1
            }) * 1_000_000_000,
    {
        if self.ci_batch_window_secs > 1 {
            Duration::from_secs(self.ci_batch_window_secs)
        } else {
            Duration::from_secs(1)
        }
    }

    /// How long routine events are gathered; none where they are not.
    pub fn routine_batch_window(&self) -> (r: Option<Duration>)
        ensures
            opt_nanos(r) == (if self.routine_batch_window_secs > 0 {
                Some(self.routine_batch_window_secs as nat * 1_000_000_000)
            } else {
                None
            }),
    {
        if self.routine_batch_window_secs > 0 {
            Some(Duration::from_secs(self.routine_batch_window_secs))
        } else {
            None
        }
    }
}

// ---------------------------------------------------------------------------
// Where a route leads
// ---------------------------------------------------------------------------

/// The sink of a route that names none.
pub fn default_sink_name() -> (r: String)
    ensures
        r@ == "discord"@,
{
    "discord".to_owned()
}

impl RouteView {
    /// The Slack webhook of a route.
    pub open spec fn slack_target(self) -> Option<Seq<char>> {
        text::or_else(
            text::meaningful_opt(self.slack_webhook),
            if text::trimmed(self.sink) == "slack"@ {
                text::meaningful_opt(self.webhook)
            } else {
                None
            },
        )
    }

    /// The sink that a route uses.
    pub open spec fn sink_used(self) -> Seq<char> {
        let sink = text::trimmed(self.sink);
        if self.slack_target() is Some && (sink.len() == 0 || sink == "discord"@) {
            "slack"@
        } else if sink.len() == 0 {
            "discord"@
        } else {
            sink
        }
    }

    /// The Discord webhook of a route.
    pub open spec fn discord_target(self) -> Option<Seq<char>> {
        if self.sink_used() == "discord"@ {
            text::meaningful_opt(self.webhook)
        } else {
            None
        }
    }

    /// A route that leads to a webhook.
    pub open spec fn has_webhook(self) -> bool {
        self.discord_target() is Some || self.slack_target() is Some
    }
}

/// The trimmed text of an optional text, unless it is blank.
pub fn non_empty_trimmed(value: Option<&str>) -> (r: Option<&str>)
    ensures
        text::opt_str(r) == text::meaningful_opt(text::opt_str(value)),
{
    match value {
        Some(s) => {
            let t = trim(s);
            if t.is_empty() {
                None
            } else {
                Some(t)
            }
        },
        None => None,
    }
}

impl RouteRule {
    /// The sink that this route uses.
    pub fn effective_sink(&self) -> (r: &str)
        ensures
            r@ == self@.sink_used(),
    {
        let sink = trim(self.sink.as_str());
        if self.slack_webhook_target().is_some() && (sink.is_empty() || same(sink, "discord")) {
            "slack"
        } else if sink.is_empty() {
            "discord"
        } else {
            sink
        }
    }

    /// The Discord webhook of this route.
    pub fn discord_webhook_target(&self) -> (r: Option<&str>)
        ensures
            text::opt_str(r) == self@.discord_target(),
    {
        if same(self.effective_sink(), "discord") {
            non_empty_trimmed(borrow_opt(&self.webhook))
        } else {
            None
        }
    }

    /// The Slack webhook of this route.
    pub fn slack_webhook_target(&self) -> (r: Option<&str>)
        ensures
            text::opt_str(r) == self@.slack_target(),
    {
        match non_empty_trimmed(borrow_opt(&self.slack_webhook)) {
            Some(s) => Some(s),
            None => {
                if same(trim(self.sink.as_str()), "slack") {
                    non_empty_trimmed(borrow_opt(&self.webhook))
                } else {
                    None
                }
            },
        }
    }

    /// Tells whether this route leads to a webhook.
    pub fn has_any_webhook_target(&self) -> (r: bool)
        ensures
            r == self@.has_webhook(),
    {
        self.discord_webhook_target().is_some() || self.slack_webhook_target().is_some()
    }
}

/// A route that leads to Slack does not lead to Discord.
pub proof fn law_route_has_one_target(route: RouteView)
    requires
        route.discord_target() is Some,
    ensures
        route.slack_target() is None,
{
    assert("slack"@ != "discord"@) by {
        reveal_strlit("slack");
        reveal_strlit("discord");
        assert("slack"@.len() == 5 && "discord"@.len() == 7);
    }
}

} // verus!
