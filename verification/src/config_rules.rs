//! The configuration: merging, normalizing and checking it.
use vstd::prelude::*;
use vstd::string::*;

use crate::compose;
use crate::compose::{cat2, cat3, cat4, cat5, number};
use crate::config;
use crate::config::{
    default_sink_name, AppConfig, AppSettingsView, CronJob, CronJobKind, CronSettingsView,
    DefaultsSettingsView, DiscordConfig, DiscordSettingsView, GitRepoMonitor, GitRepoMonitorView,
    JobKindView, JobView, MonitorSettingsView, ProvidersSettingsView, RouteRule, RouteView,
    TmuxSessionMonitor, TmuxSessionMonitorView, WorkspaceMonitor, WorkspaceMonitorView,
};
use crate::cron;
use crate::cron::validate_job;
use crate::labels;
use crate::labels::{first_of, push_part, text_or};
use crate::paths;
use crate::paths::join_path;
use crate::table;
use crate::table::find_entry;
use crate::text;
use crate::text::{borrow_opt, copy_opt, is_blank, same, trim};
use crate::toml_text;
use crate::toml_text::{parse_toml, unpack_toml, TomlNode, TomlParts};
use crate::value::meaningful;
use crate::workspace;
use crate::workspace::default_workspace_watch_dirs;

verus! {

broadcast use crate::text::views_push;

// ---------------------------------------------------------------------------
// Texts of the configuration
// ---------------------------------------------------------------------------

fn normalize_text(value: &Option<String>) -> (r: Option<String>)
    ensures
        text::opt_text(r) == text::meaningful_opt(text::opt_text(*value)),
{
    meaningful(borrow_opt(value))
}

/// A text without the white space at its ends, or another where it is blank.
pub open spec fn text_or_default(s: Seq<char>, otherwise: Seq<char>) -> Seq<char> {
    if text::blank(s) {
        otherwise
    } else {
        text::trimmed(s)
    }
}

fn normalize_or(value: &str, otherwise: &str) -> (r: String)
    ensures
        r@ == text_or_default(value@, otherwise@),
{
    let t = trim(value);
    if t.is_empty() {
        otherwise.to_owned()
    } else {
        t.to_owned()
    }
}

/// The texts of a list that are not blank, trimmed.
pub open spec fn meaningful_list(s: Seq<Seq<char>>) -> Seq<Seq<char>>
    decreases s.len(),
{
    if s.len() == 0 {
        Seq::empty()
    } else {
        labels::pushed(meaningful_list(s.drop_last()), text::meaningful(s.last()))
    }
}

fn normalize_list(values: &Vec<String>) -> (r: Vec<String>)
    ensures
        text::views(r@) == meaningful_list(text::views(values@)),
{
    let ghost all = text::views(values@);
    let mut out: Vec<String> = Vec::new();
    let mut i: usize = 0;
    assert(text::views(out@) =~= Seq::<Seq<char>>::empty());
    while i < values.len()
        invariant
            i <= values.len(),
            all == text::views(values@),
            text::views(out@) == meaningful_list(all.take(i as int)),
        decreases values.len() - i,
    {
        assert(all.take(i + 1).drop_last() =~= all.take(i as int));
        push_part(&mut out, meaningful(Some(values[i].as_str())));
        i = i + 1;
    }
    assert(all.take(i as int) =~= all);
    out
}

/// A copy of a list of texts.
pub fn copy_list(values: &Vec<String>) -> (r: Vec<String>)
    ensures
        text::views(r@) == text::views(values@),
{
    let ghost all = text::views(values@);
    let mut out: Vec<String> = Vec::new();
    let mut i: usize = 0;
    assert(text::views(out@) =~= all.take(0));
    while i < values.len()
        invariant
            i <= values.len(),
            all == text::views(values@),
            text::views(out@) == all.take(i as int),
        decreases values.len() - i,
    {
        let value = values[i].clone();
        out.push(value);
        assert(all.take(i + 1) =~= all.take(i as int).push(all[i as int]));
        i = i + 1;
    }
    assert(all.take(i as int) =~= all);
    out
}

/// A copy of a table of texts.
pub fn copy_filter(values: &Vec<(String, String)>) -> (r: Vec<(String, String)>)
    ensures
        table::pairs(r@) == table::pairs(values@),
{
    let ghost all = table::pairs(values@);
    let mut out: Vec<(String, String)> = Vec::new();
    let mut i: usize = 0;
    assert(table::pairs(out@) =~= all.take(0));
    while i < values.len()
        invariant
            i <= values.len(),
            all == table::pairs(values@),
            table::pairs(out@) == all.take(i as int),
        decreases values.len() - i,
    {
        let key = values[i].0.clone();
        let value = values[i].1.clone();
        let ghost before = out@;
        out.push((key, value));
        proof {
            table::pairs_push(before, (key, value));
        }
        assert(all.take(i + 1) =~= all.take(i as int).push(all[i as int]));
        i = i + 1;
    }
    assert(all.take(i as int) =~= all);
    out
}

// ---------------------------------------------------------------------------
// Secrets
// ---------------------------------------------------------------------------

/// What an environment may say of a variable.
pub open spec fn env_says<F: Fn(&str) -> Option<String>>(
    get_env: F,
    name: &str,
    value: Option<Seq<char>>,
) -> bool {
    exists|v: Option<String>| #[trigger]
        call_ensures(get_env, (name,), v) && text::opt_text(v) == value
}

/// What an environment may say of the Discord token: the newer variable is
/// looked at first.
pub open spec fn env_token<F: Fn(&str) -> Option<String>>(
    get_env: F,
    token: Option<Seq<char>>,
) -> bool {
    exists|a: Option<Seq<char>>|
        {
            &&& #[trigger] env_says(get_env, "DISCORD_TOKEN", a)
            &&& match text::meaningful_opt(a) {
                Some(s) => token == Some(s),
                None => exists|b: Option<Seq<char>>| #[trigger]
                    env_says(get_env, "CLAWHIP_DISCORD_BOT_TOKEN", b) && token
                        == text::meaningful_opt(b),
            }
        }
}

/// The Discord token that an environment sets.
pub fn discord_token_from_env_with<F: Fn(&str) -> Option<String>>(get_env: F) -> (r: Option<String>)
    requires
        forall|name: &str| call_requires(get_env, (name,)),
    ensures
        env_token(get_env, text::opt_text(r)),
{
    let first = get_env("DISCORD_TOKEN");
    assert(env_says(get_env, "DISCORD_TOKEN", text::opt_text(first)));
    match normalize_text(&first) {
        Some(s) => Some(s),
        None => {
            let second = get_env("CLAWHIP_DISCORD_BOT_TOKEN");
            assert(env_says(get_env, "CLAWHIP_DISCORD_BOT_TOKEN", text::opt_text(second)));
            normalize_text(&second)
        },
    }
}

impl AppSettingsView {
    /// The Discord token of the configuration.
    pub open spec fn configured_token(self) -> Option<Seq<char>> {
        text::or_else(
            text::meaningful_opt(self.providers.discord.bot_token),
            text::meaningful_opt(self.discord.bot_token),
        )
    }

    /// The Discord token in use: what the environment sets comes first.
    pub open spec fn token(self, env: Option<Seq<char>>) -> Option<Seq<char>> {
        text::or_else(text::meaningful_opt(env), self.configured_token())
    }

    /// Where the Discord token comes from.
    pub open spec fn token_source(self, env: Option<Seq<char>>) -> Seq<char> {
        if text::meaningful_opt(env) is Some {
            "env"@
        } else if self.configured_token() is Some {
            "config"@
        } else {
            "missing"@
        }
    }
}

impl AppConfig {
    /// The Discord token in use, given what the environment sets.
    pub fn effective_token(&self, env: &Option<String>) -> (r: Option<String>)
        ensures
            text::opt_text(r) == self@.token(text::opt_text(*env)),
    {
        first_of(
            normalize_text(env),
            first_of(
                normalize_text(&self.providers.discord.bot_token),
                normalize_text(&self.discord.bot_token),
            ),
        )
    }

    /// The Discord token in use, in an environment.
    pub fn effective_token_with<F: Fn(&str) -> Option<String>>(&self, get_env: F) -> (r: Option<
        String,
    >)
        requires
            forall|name: &str| call_requires(get_env, (name,)),
        ensures
            exists|env: Option<Seq<char>>| #[trigger]
                env_token(get_env, env) && text::opt_text(r) == self@.token(env),
    {
        let env = discord_token_from_env_with(get_env);
        self.effective_token(&env)
    }

    /// Where the Discord token comes from, given what the environment sets.
    pub fn discord_token_source(&self, env: &Option<String>) -> (r: &'static str)
        ensures
            r@ == self@.token_source(text::opt_text(*env)),
    {
        if normalize_text(env).is_some() {
            "env"
        } else if normalize_text(&self.providers.discord.bot_token).is_some() || normalize_text(
            &self.discord.bot_token,
        ).is_some() {
            "config"
        } else {
            "missing"
        }
    }

    /// Where the Discord token comes from, in an environment.
    pub fn discord_token_source_with<F: Fn(&str) -> Option<String>>(&self, get_env: F) -> (r:
        &'static str)
        requires
            forall|name: &str| call_requires(get_env, (name,)),
        ensures
            exists|env: Option<Seq<char>>| #[trigger]
                env_token(get_env, env) && r@ == self@.token_source(env),
    {
        let env = discord_token_from_env_with(get_env);
        self.discord_token_source(&env)
    }

    /// The address of the daemon, given what the environment sets.
    pub fn daemon_base_url(&self, env: &Option<String>) -> (r: String)
        ensures
            r@ == (match text::opt_text(*env) {
                Some(s) => if text::blank(s) {
                    self.daemon.base_url@
                } else {
                    s
                },
                None => self.daemon.base_url@,
            }),
    {
        match env {
            Some(s) => {
                if is_blank(s.as_str()) {
                    self.daemon.base_url.clone()
                } else {
                    s.clone()
                }
            },
            None => self.daemon.base_url.clone(),
        }
    }

    /// The token for the GitHub API, given what the environment sets.
    pub fn monitor_github_token(&self, env: &Option<String>) -> (r: Option<String>)
        ensures
            text::opt_text(r) == (match text::opt_text(*env) {
                Some(s) => if text::blank(s) {
                    text::opt_text(self.monitors.github_token)
                } else {
                    Some(s)
                },
                None => text::opt_text(self.monitors.github_token),
            }),
    {
        match env {
            Some(s) => {
                if is_blank(s.as_str()) {
                    copy_opt(&self.monitors.github_token)
                } else {
                    Some(s.clone())
                }
            },
            None => copy_opt(&self.monitors.github_token),
        }
    }
}

/// The file of the configuration: the one that is asked for, or one in the home
/// directory.
pub fn default_config_path(asked: &Option<String>, home: &Option<String>) -> (r: String)
    ensures
        r@ == (match text::opt_text(*asked) {
            Some(path) => path,
            None => paths::below(
                paths::below(labels::or_text(text::opt_text(*home), "."@), ".clawhip"@),
                "config.toml"@,
            ),
        }),
{
    match asked {
        Some(path) => path.clone(),
        None => {
            let home = text_or(copy_opt(home), ".");
            join_path(join_path(home.as_str(), ".clawhip").as_str(), "config.toml")
        },
    }
}

// ---------------------------------------------------------------------------
// Older settings
// ---------------------------------------------------------------------------

/// A setting that may stand in an older place too.
pub open spec fn merged_field(
    field: Seq<char>,
    legacy: Option<Seq<char>>,
    provider: Option<Seq<char>>,
) -> Result<Option<Seq<char>>, Seq<char>> {
    match (text::meaningful_opt(legacy), text::meaningful_opt(provider)) {
        (Some(a), Some(b)) => if a == b {
            Ok(Some(b))
        } else {
            Err(
                "conflicting legacy [discord]."@ + field + " and [providers.discord]."@ + field
                    + " values"@,
            )
        },
        (Some(a), None) => Ok(Some(a)),
        (None, b) => Ok(b),
    }
}

/// An optional text or an error, as they are.
pub open spec fn field_result(r: Result<Option<String>, String>) -> Result<
    Option<Seq<char>>,
    Seq<char>,
> {
    match r {
        Ok(o) => Ok(text::opt_text(o)),
        Err(e) => Err(e@),
    }
}

fn merge_legacy_discord_field(field: &str, legacy: &Option<String>, provider: &Option<String>) -> (r:
    Result<Option<String>, String>)
    ensures
        field_result(r) == merged_field(field@, text::opt_text(*legacy), text::opt_text(*provider)),
{
    match (normalize_text(legacy), normalize_text(provider)) {
        (Some(a), Some(b)) => {
            if same(a.as_str(), b.as_str()) {
                Ok(Some(b))
            } else {
                Err(
                    cat5(
                        "conflicting legacy [discord].",
                        field,
                        " and [providers.discord].",
                        field,
                        " values",
                    ),
                )
            }
        },
        (Some(a), None) => Ok(Some(a)),
        (None, b) => Ok(b),
    }
}

impl AppSettingsView {
    /// The configuration with the older Discord settings moved to their new
    /// place.
    pub open spec fn migrated(self, has_legacy: bool) -> Result<AppSettingsView, Seq<char>> {
        if has_legacy {
            match merged_field(
                "token"@,
                self.discord.bot_token,
                self.providers.discord.bot_token,
            ) {
                Err(e) => Err(e),
                Ok(bot_token) => match merged_field(
                    "default_channel"@,
                    self.discord.legacy_default_channel,
                    self.providers.discord.legacy_default_channel,
                ) {
                    Err(e) => Err(e),
                    Ok(legacy_default_channel) => Ok(
                        AppSettingsView {
                            discord: config::default_discord_config(),
                            providers: ProvidersSettingsView {
                                discord: DiscordSettingsView { bot_token, legacy_default_channel },
                                ..self.providers
                            },
                            ..self
                        },
                    ),
                },
            }
        } else {
            Ok(AppSettingsView { discord: config::default_discord_config(), ..self })
        }
    }
}

/// A configuration or an error, as they are.
pub open spec fn config_result(r: Result<AppConfig, String>) -> Result<AppSettingsView, Seq<char>> {
    match r {
        Ok(c) => Ok(c@),
        Err(e) => Err(e@),
    }
}

impl AppConfig {
    /// This configuration with the older Discord settings moved to their new
    /// place. `has_legacy` tells whether there is a section of them.
    pub fn merge_legacy_discord(self, has_legacy: bool) -> (r: Result<AppConfig, String>)
        ensures
            config_result(r) == self@.migrated(has_legacy),
    {
        let mut this = self;
        if has_legacy {
            let token = match merge_legacy_discord_field(
                "token",
                &this.discord.bot_token,
                &this.providers.discord.bot_token,
            ) {
                Ok(o) => o,
                Err(e) => return Err(e),
            };
            let channel = match merge_legacy_discord_field(
                "default_channel",
                &this.discord.legacy_default_channel,
                &this.providers.discord.legacy_default_channel,
            ) {
                Ok(o) => o,
                Err(e) => return Err(e),
            };
            this.providers.discord = DiscordConfig {
                bot_token: token,
                legacy_default_channel: channel,
            };
        }
        this.discord = DiscordConfig::default();
        Ok(this)
    }
}

// ---------------------------------------------------------------------------
// Normalizing
// ---------------------------------------------------------------------------

/// A route with its texts trimmed.
pub open spec fn normal_route(r: RouteView) -> RouteView {
    RouteView {
        sink: text_or_default(r.sink, "discord"@),
        channel: text::meaningful_opt(r.channel),
        webhook: text::meaningful_opt(r.webhook),
        slack_webhook: text::meaningful_opt(r.slack_webhook),
        mention: text::meaningful_opt(r.mention),
        template: text::meaningful_opt(r.template),
        ..r
    }
}

/// A repository with its texts trimmed.
pub open spec fn normal_repo(m: GitRepoMonitorView) -> GitRepoMonitorView {
    GitRepoMonitorView {
        channel: text::meaningful_opt(m.channel),
        mention: text::meaningful_opt(m.mention),
        name: text::meaningful_opt(m.name),
        github_repo: text::meaningful_opt(m.github_repo),
        ..m
    }
}

/// A session with its texts trimmed.
pub open spec fn normal_session(m: TmuxSessionMonitorView) -> TmuxSessionMonitorView {
    TmuxSessionMonitorView {
        channel: text::meaningful_opt(m.channel),
        mention: text::meaningful_opt(m.mention),
        ..m
    }
}

/// A number, and one at least.
pub open spec fn one_at_least(n: u64) -> u64 {
    if n > 1 {
        n
    } else {
        1
    }
}

/// A workspace with its texts trimmed and its times at least one.
pub open spec fn normal_workspace(m: WorkspaceMonitorView) -> WorkspaceMonitorView {
    let dirs = meaningful_list(m.watch_dirs);
    WorkspaceMonitorView {
        path: text_or_default(m.path, ""@),
        channel: text::meaningful_opt(m.channel),
        mention: text::meaningful_opt(m.mention),
        watch_dirs: if dirs.len() == 0 {
            workspace::watch_dirs()
        } else {
            dirs
        },
        events: meaningful_list(m.events),
        debounce_ms: one_at_least(m.debounce_ms),
        poll_interval_secs: match m.poll_interval_secs {
            Some(secs) => Some(one_at_least(secs)),
            None => None,
        },
        ..m
    }
}

/// A job with its texts trimmed.
pub open spec fn normal_job(j: JobView) -> JobView {
    JobView {
        id: text_or_default(j.id, ""@),
        schedule: text_or_default(j.schedule, ""@),
        timezone: text_or_default(j.timezone, "UTC"@),
        channel: text::meaningful_opt(j.channel),
        mention: text::meaningful_opt(j.mention),
        kind: match j.kind {
            JobKindView::CustomMessage { message } => JobKindView::CustomMessage {
                message: text_or_default(message, ""@),
            },
        },
        ..j
    }
}

/// The Discord settings with their texts trimmed.
pub open spec fn normal_discord(d: DiscordSettingsView) -> DiscordSettingsView {
    DiscordSettingsView {
        bot_token: text::meaningful_opt(d.bot_token),
        legacy_default_channel: text::meaningful_opt(d.legacy_default_channel),
    }
}

impl AppSettingsView {
    /// The configuration with its texts trimmed.
    pub open spec fn normal(self) -> AppSettingsView {
        AppSettingsView {
            discord: normal_discord(self.discord),
            providers: ProvidersSettingsView {
                discord: normal_discord(self.providers.discord),
                ..self.providers
            },
            defaults: DefaultsSettingsView {
                channel: text::meaningful_opt(self.defaults.channel),
                ..self.defaults
            },
            routes: Seq::new(self.routes.len(), |i: int| normal_route(self.routes[i])),
            monitors: MonitorSettingsView {
                github_token: text::meaningful_opt(self.monitors.github_token),
                git: config::GitMonitorSettingsView {
                    repos: Seq::new(
                        self.monitors.git.repos.len(),
                        |i: int| normal_repo(self.monitors.git.repos[i]),
                    ),
                },
                tmux: config::TmuxMonitorSettingsView {
                    sessions: Seq::new(
                        self.monitors.tmux.sessions.len(),
                        |i: int| normal_session(self.monitors.tmux.sessions[i]),
                    ),
                },
                workspace: Seq::new(
                    self.monitors.workspace.len(),
                    |i: int| normal_workspace(self.monitors.workspace[i]),
                ),
                ..self.monitors
            },
            cron: CronSettingsView {
                jobs: Seq::new(self.cron.jobs.len(), |i: int| normal_job(self.cron.jobs[i])),
                ..self.cron
            },
            ..self
        }
    }
}

fn normalize_discord(d: &DiscordConfig) -> (r: DiscordConfig)
    ensures
        r@ == normal_discord(d@),
{
    DiscordConfig {
        bot_token: normalize_text(&d.bot_token),
        legacy_default_channel: normalize_text(&d.legacy_default_channel),
    }
}

fn normalize_route(route: &RouteRule) -> (r: RouteRule)
    ensures
        r@ == normal_route(route@),
{
    RouteRule {
        event: route.event.clone(),
        filter: copy_filter(&route.filter),
        sink: normalize_or(route.sink.as_str(), "discord"),
        channel: normalize_text(&route.channel),
        webhook: normalize_text(&route.webhook),
        slack_webhook: normalize_text(&route.slack_webhook),
        mention: normalize_text(&route.mention),
        allow_dynamic_tokens: route.allow_dynamic_tokens,
        format: route.format,
        template: normalize_text(&route.template),
    }
}

fn normalize_repo(m: &GitRepoMonitor) -> (r: GitRepoMonitor)
    ensures
        r@ == normal_repo(m@),
{
    GitRepoMonitor {
        path: m.path.clone(),
        name: normalize_text(&m.name),
        remote: m.remote.clone(),
        github_repo: normalize_text(&m.github_repo),
        emit_commits: m.emit_commits,
        emit_branch_changes: m.emit_branch_changes,
        emit_issue_opened: m.emit_issue_opened,
        emit_pr_status: m.emit_pr_status,
        channel: normalize_text(&m.channel),
        mention: normalize_text(&m.mention),
        format: m.format,
    }
}

fn normalize_session(m: &TmuxSessionMonitor) -> (r: TmuxSessionMonitor)
    ensures
        r@ == normal_session(m@),
{
    TmuxSessionMonitor {
        session: m.session.clone(),
        keywords: copy_list(&m.keywords),
        keyword_window_secs: m.keyword_window_secs,
        stale_minutes: m.stale_minutes,
        channel: normalize_text(&m.channel),
        mention: normalize_text(&m.mention),
        format: m.format,
        summarize: m.summarize,
        summarizer: m.summarizer.clone(),
        heartbeat_mins: m.heartbeat_mins,
        min_new_lines: m.min_new_lines,
        summarize_interval_mins: m.summarize_interval_mins,
        heartbeat_interval: m.heartbeat_interval,
        summary_interval: m.summary_interval,
    }
}

fn at_least_one(n: u64) -> (r: u64)
    ensures
        r == one_at_least(n),
{
    if n > 1 {
        n
    } else {
        1
    }
}

fn normalize_workspace(m: &WorkspaceMonitor) -> (r: WorkspaceMonitor)
    ensures
        r@ == normal_workspace(m@),
{
    let dirs = normalize_list(&m.watch_dirs);
    assert(text::views(dirs@).len() == dirs@.len());
    let watch_dirs = if dirs.len() == 0 {
        default_workspace_watch_dirs()
    } else {
        dirs
    };
    WorkspaceMonitor {
        path: normalize_or(m.path.as_str(), ""),
        watch_dirs,
        discover_worktrees: m.discover_worktrees,
        channel: normalize_text(&m.channel),
        mention: normalize_text(&m.mention),
        format: m.format,
        events: normalize_list(&m.events),
        poll_interval_secs: match m.poll_interval_secs {
            Some(secs) => Some(at_least_one(secs)),
            None => None,
        },
        debounce_ms: at_least_one(m.debounce_ms),
    }
}

fn normalize_job(j: &CronJob) -> (r: CronJob)
    ensures
        r@ == normal_job(j@),
{
    CronJob {
        id: normalize_or(j.id.as_str(), ""),
        schedule: normalize_or(j.schedule.as_str(), ""),
        timezone: normalize_or(j.timezone.as_str(), "UTC"),
        enabled: j.enabled,
        channel: normalize_text(&j.channel),
        mention: normalize_text(&j.mention),
        format: j.format,
        kind: match &j.kind {
            CronJobKind::CustomMessage { message } => CronJobKind::CustomMessage {
                message: normalize_or(message.as_str(), ""),
            },
        },
    }
}

fn normalize_routes(routes: &Vec<RouteRule>) -> (r: Vec<RouteRule>)
    ensures
        r@.len() == routes@.len(),
        forall|i: int| 0 <= i < r@.len() ==> (#[trigger] r@[i])@ == normal_route(routes@[i]@),
{
    let mut out: Vec<RouteRule> = Vec::new();
    let mut i: usize = 0;
    while i < routes.len()
        invariant
            i <= routes.len(),
            out@.len() == i,
            forall|k: int| 0 <= k < i ==> (#[trigger] out@[k])@ == normal_route(routes@[k]@),
        decreases routes.len() - i,
    {
        out.push(normalize_route(&routes[i]));
        i = i + 1;
    }
    out
}

fn normalize_repos(repos: &Vec<GitRepoMonitor>) -> (r: Vec<GitRepoMonitor>)
    ensures
        r@.len() == repos@.len(),
        forall|i: int| 0 <= i < r@.len() ==> (#[trigger] r@[i])@ == normal_repo(repos@[i]@),
{
    let mut out: Vec<GitRepoMonitor> = Vec::new();
    let mut i: usize = 0;
    while i < repos.len()
        invariant
            i <= repos.len(),
            out@.len() == i,
            forall|k: int| 0 <= k < i ==> (#[trigger] out@[k])@ == normal_repo(repos@[k]@),
        decreases repos.len() - i,
    {
        out.push(normalize_repo(&repos[i]));
        i = i + 1;
    }
    out
}

fn normalize_sessions(sessions: &Vec<TmuxSessionMonitor>) -> (r: Vec<TmuxSessionMonitor>)
    ensures
        r@.len() == sessions@.len(),
        forall|i: int| 0 <= i < r@.len() ==> (#[trigger] r@[i])@ == normal_session(sessions@[i]@),
{
    let mut out: Vec<TmuxSessionMonitor> = Vec::new();
    let mut i: usize = 0;
    while i < sessions.len()
        invariant
            i <= sessions.len(),
            out@.len() == i,
            forall|k: int| 0 <= k < i ==> (#[trigger] out@[k])@ == normal_session(sessions@[k]@),
        decreases sessions.len() - i,
    {
        out.push(normalize_session(&sessions[i]));
        i = i + 1;
    }
    out
}

fn normalize_workspaces(workspaces: &Vec<WorkspaceMonitor>) -> (r: Vec<WorkspaceMonitor>)
    ensures
        r@.len() == workspaces@.len(),
        forall|i: int| 0 <= i < r@.len() ==> (#[trigger] r@[i])@ == normal_workspace(workspaces@[i]@),
{
    let mut out: Vec<WorkspaceMonitor> = Vec::new();
    let mut i: usize = 0;
    while i < workspaces.len()
        invariant
            i <= workspaces.len(),
            out@.len() == i,
            forall|k: int| 0 <= k < i ==> (#[trigger] out@[k])@ == normal_workspace(workspaces@[k]@),
        decreases workspaces.len() - i,
    {
        out.push(normalize_workspace(&workspaces[i]));
        i = i + 1;
    }
    out
}

fn normalize_jobs(jobs: &Vec<CronJob>) -> (r: Vec<CronJob>)
    ensures
        r@.len() == jobs@.len(),
        forall|i: int| 0 <= i < r@.len() ==> (#[trigger] r@[i])@ == normal_job(jobs@[i]@),
{
    let mut out: Vec<CronJob> = Vec::new();
    let mut i: usize = 0;
    while i < jobs.len()
        invariant
            i <= jobs.len(),
            out@.len() == i,
            forall|k: int| 0 <= k < i ==> (#[trigger] out@[k])@ == normal_job(jobs@[k]@),
        decreases jobs.len() - i,
    {
        out.push(normalize_job(&jobs[i]));
        i = i + 1;
    }
    out
}

impl AppConfig {
    /// Trims the texts of this configuration.
    pub fn normalize(&mut self)
        ensures
            final(self)@ == old(self)@.normal(),
    {
        let ghost before = self@;
        self.discord = normalize_discord(&self.discord);
        self.providers.discord = normalize_discord(&self.providers.discord);
        self.defaults.channel = normalize_text(&self.defaults.channel);
        self.monitors.github_token = normalize_text(&self.monitors.github_token);
        self.routes = normalize_routes(&self.routes);
        self.monitors.git.repos = normalize_repos(&self.monitors.git.repos);
        self.monitors.tmux.sessions = normalize_sessions(&self.monitors.tmux.sessions);
        self.monitors.workspace = normalize_workspaces(&self.monitors.workspace);
        self.cron.jobs = normalize_jobs(&self.cron.jobs);
        assert(self@.routes =~= before.normal().routes);
        assert(self@.monitors.git.repos =~= before.normal().monitors.git.repos);
        assert(self@.monitors.tmux.sessions =~= before.normal().monitors.tmux.sessions);
        assert(self@.monitors.workspace =~= before.normal().monitors.workspace);
        assert(self@.cron.jobs =~= before.normal().cron.jobs);
    }
}

impl AppSettingsView {
    /// The configuration that is loaded from a file that holds this one.
    pub open spec fn loaded(self, has_legacy: bool) -> Result<AppSettingsView, Seq<char>> {
        match self.migrated(has_legacy) {
            Err(e) => Err(e),
            Ok(c) => {
                let n = c.normal();
                Ok(
                    AppSettingsView {
                        defaults: DefaultsSettingsView {
                            channel: text::or_else(
                                n.defaults.channel,
                                n.providers.discord.legacy_default_channel,
                            ),
                            ..n.defaults
                        },
                        ..n
                    },
                )
            },
        }
    }
}

/// Tells whether the text of a configuration has a section of older Discord settings;
/// nothing where it is no TOML.
pub fn has_legacy_discord(raw: &str) -> (r: Option<bool>)
    ensures
        r == (match toml_text::toml_read(raw@) {
            Some(TomlNode::Table(m)) => Some(table::lookup(m, "discord"@) is Some),
            Some(_) => Some(false),
            None => None,
        }),
{
    match parse_toml(raw) {
        Some(value) => match unpack_toml(&value) {
            TomlParts::Table(entries) => Some(find_entry(&entries, "discord").is_some()),
            _ => Some(false),
        },
        None => None,
    }
}

impl AppConfig {
    /// The configuration that is loaded from a file that holds this one.
    /// `has_legacy` tells whether the file has a section of older Discord
    /// settings.
    pub fn finish_loading(self, has_legacy: bool) -> (r: Result<AppConfig, String>)
        ensures
            config_result(r) == self@.loaded(has_legacy),
    {
        let mut config = match self.merge_legacy_discord(has_legacy) {
            Ok(c) => c,
            Err(e) => return Err(e),
        };
        config.normalize();
        if config.defaults.channel.is_none() {
            config.defaults.channel = copy_opt(&config.providers.discord.legacy_default_channel);
        }
        Ok(config)
    }
}

// ---------------------------------------------------------------------------
// Webhook routes
// ---------------------------------------------------------------------------

/// How many routes lead to a webhook.
pub open spec fn webhook_count(routes: Seq<RouteView>) -> nat
    decreases routes.len(),
{
    if routes.len() == 0 {
        0
    } else if routes.last().has_webhook() {
        webhook_count(routes.drop_last()) + 1
    } else {
        webhook_count(routes.drop_last())
    }
}

/// The first route for all events that has nothing of its own, from a position.
pub open spec fn quickstart_from(routes: Seq<RouteView>, i: int) -> Option<int>
    decreases routes.len() - i,
{
    if i >= routes.len() {
        None
    } else if is_catch_all(routes[i]) {
        Some(i)
    } else {
        quickstart_from(routes, i + 1)
    }
}

/// A route for all events that filters, mentions and writes nothing of its own.
pub open spec fn is_catch_all(route: RouteView) -> bool {
    route.event == "*"@ && route.filter.len() == 0 && route.mention is None && route.template is None
}

/// A new route from all events to a webhook.
pub open spec fn catch_all(webhook: Seq<char>) -> RouteView {
    RouteView {
        event: "*"@,
        filter: Seq::empty(),
        sink: "discord"@,
        channel: None,
        webhook: Some(webhook),
        slack_webhook: None,
        mention: None,
        allow_dynamic_tokens: false,
        format: None,
        template: None,
    }
}

/// The routes after a webhook was set up for all events.
pub open spec fn scaffolded(routes: Seq<RouteView>, webhook: Seq<char>) -> Seq<RouteView> {
    let target = text::trimmed(webhook);
    if target.len() == 0 {
        routes
    } else {
        match quickstart_from(routes, 0) {
            Some(i) => routes.update(
                i,
                RouteView {
                    sink: "discord"@,
                    channel: None,
                    webhook: Some(target),
                    ..routes[i]
                },
            ),
            None => routes.push(catch_all(target)),
        }
    }
}

impl AppConfig {
    /// How many routes lead to a webhook.
    pub fn webhook_route_count(&self) -> (r: usize)
        ensures
            r == webhook_count(self@.routes),
    {
        let ghost all = self@.routes;
        let mut count: usize = 0;
        let mut i: usize = 0;
        while i < self.routes.len()
            invariant
                i <= self.routes.len(),
                all == self@.routes,
                count == webhook_count(all.take(i as int)),
                count <= i,
            decreases self.routes.len() - i,
        {
            assert(all.take(i + 1).drop_last() =~= all.take(i as int));
            assert(all.take(i + 1).last() == self.routes@[i as int]@);
            if self.routes[i].has_any_webhook_target() {
                count = count + 1;
            }
            i = i + 1;
        }
        assert(all.take(i as int) =~= all);
        count
    }

    /// Tells whether some route leads to a webhook.
    pub fn has_webhook_routes(&self) -> (r: bool)
        ensures
            r == (webhook_count(self@.routes) > 0),
    {
        self.webhook_route_count() > 0
    }

    /// Leads all events to a Discord webhook: through the route that is there for
    /// all of them, or through a new one.
    pub fn scaffold_webhook_quickstart(&mut self, webhook: String)
        ensures
            final(self)@ == (AppSettingsView {
                routes: scaffolded(old(self)@.routes, webhook@),
                ..old(self)@
            }),
    {
        let target = trim(webhook.as_str()).to_owned();
        if target.as_str().is_empty() {
            return ;
        }
        let ghost before = self@.routes;
        let mut i: usize = 0;
        while i < self.routes.len()
            invariant
                i <= self.routes.len(),
                self@ == old(self)@,
                before == self@.routes,
                target@ == text::trimmed(webhook@),
                target@.len() > 0,
                quickstart_from(before, 0) == quickstart_from(before, i as int),
            decreases self.routes.len() - i,
        {
            let route = &self.routes[i];
            assert(before[i as int] == route@);
            if same(route.event.as_str(), "*") && route.filter.len() == 0
                && route.mention.is_none() && route.template.is_none() {
                assert(table::pairs(route.filter@).len() == route.filter@.len());
                let new = RouteRule {
                    event: route.event.clone(),
                    filter: copy_filter(&route.filter),
                    sink: default_sink_name(),
                    channel: None,
                    webhook: Some(target),
                    slack_webhook: copy_opt(&route.slack_webhook),
                    mention: None,
                    allow_dynamic_tokens: route.allow_dynamic_tokens,
                    format: route.format,
                    template: None,
                };
                let ghost view = new@;
                self.routes[i] = new;
                assert(self@.routes =~= before.update(i as int, view));
                return ;
            }
            assert(table::pairs(route.filter@).len() == route.filter@.len());
            i = i + 1;
        }
        let none: Vec<(String, String)> = Vec::new();
        assert(table::pairs(none@) =~= Seq::<(Seq<char>, Seq<char>)>::empty());
        let new = RouteRule {
            event: "*".to_owned(),
            filter: none,
            sink: default_sink_name(),
            channel: None,
            webhook: Some(target),
            slack_webhook: None,
            mention: None,
            allow_dynamic_tokens: false,
            format: None,
            template: None,
        };
        let ghost view = new@;
        self.routes.push(new);
        assert(self@.routes =~= before.push(view));
    }
}

// ---------------------------------------------------------------------------
// Checking
// ---------------------------------------------------------------------------

/// The beginning of what is said of a route.
pub open spec fn route_head(route: RouteView, index: int) -> Seq<char> {
    "route #"@ + compose::decimal((index + 1) as nat) + " ("@ + route.event
}

/// What is wrong with a route.
pub open spec fn route_fault(route: RouteView, index: int) -> Option<Seq<char>> {
    let head = route_head(route, index);
    let sink = route.sink_used();
    let has_channel = text::meaningful_opt(route.channel) is Some;
    if text::blank(route.sink) && route.slack_target() is None {
        Some(head + ") must set a sink"@)
    } else if sink == "discord"@ {
        if has_channel && route.discord_target() is Some {
            Some(head + ") cannot set both channel and webhook"@)
        } else {
            None
        }
    } else if sink == "slack"@ {
        if has_channel {
            Some(head + ") cannot set channel when sink = \"slack\""@)
        } else if text::meaningful_opt(route.webhook) is Some && text::meaningful_opt(
            route.slack_webhook,
        ) is Some {
            Some(head + ") cannot set both webhook and slack_webhook for Slack delivery"@)
        } else if route.slack_target() is None {
            Some(head + ") must set webhook or slack_webhook when sink = \"slack\""@)
        } else {
            None
        }
    } else {
        Some(head + ") uses unsupported sink '"@ + sink + "'"@)
    }
}

/// The first thing that is wrong with the routes from a position.
pub open spec fn routes_fault(routes: Seq<RouteView>, i: int) -> Option<Seq<char>>
    decreases routes.len() - i,
{
    if i >= routes.len() {
        None
    } else {
        text::or_else(route_fault(routes[i], i), routes_fault(routes, i + 1))
    }
}

/// What is wrong with a watched workspace; `reachable` tells whether its events
/// have somewhere to go in any case.
pub open spec fn workspace_fault(m: WorkspaceMonitorView, index: int, reachable: bool) -> Option<
    Seq<char>,
> {
    let head = "workspace monitor #"@ + compose::decimal((index + 1) as nat);
    if text::blank(m.path) {
        Some(head + " must set path"@)
    } else if m.watch_dirs.len() == 0 {
        Some(head + " must set at least one watch_dirs entry"@)
    } else if m.channel is None && !reachable {
        Some(head + " has no channel and no default Discord destination"@)
    } else {
        None
    }
}

/// The first thing that is wrong with the watched workspaces from a position.
pub open spec fn workspaces_fault(ms: Seq<WorkspaceMonitorView>, i: int, reachable: bool) -> Option<
    Seq<char>,
>
    decreases ms.len() - i,
{
    if i >= ms.len() {
        None
    } else {
        text::or_else(
            workspace_fault(ms[i], i, reachable),
            workspaces_fault(ms, i + 1, reachable),
        )
    }
}

/// An earlier job has the same id.
pub open spec fn is_duplicate(jobs: Seq<JobView>, i: int) -> bool {
    exists|j: int| 0 <= j < i && #[trigger] jobs[j].id == jobs[i].id
}

/// The first thing that is wrong with the jobs from a position.
pub open spec fn jobs_fault(jobs: Seq<JobView>, i: int) -> Option<Seq<char>>
    decreases jobs.len() - i,
{
    if i >= jobs.len() {
        None
    } else {
        match cron::job_fault(jobs[i]) {
            Some(e) => Some("cron job #"@ + compose::decimal((i + 1) as nat) + ": "@ + e),
            None => if is_duplicate(jobs, i) {
                Some("duplicate cron job id '"@ + jobs[i].id + "'"@)
            } else {
                jobs_fault(jobs, i + 1)
            },
        }
    }
}

impl AppSettingsView {
    /// The first thing that is wrong with the configuration, given the Discord
    /// token that the environment sets.
    pub open spec fn fault(self, env: Option<Seq<char>>) -> Option<Seq<char>> {
        let webhooks = webhook_count(self.routes) > 0;
        if self.dispatch.ci_batch_window_secs == 0 {
            Some("dispatch.ci_batch_window_secs must be at least 1"@)
        } else if self.cron.poll_interval_secs == 0 {
            Some("cron.poll_interval_secs must be at least 1"@)
        } else {
            text::or_else(
                routes_fault(self.routes, 0),
                text::or_else(
                    workspaces_fault(
                        self.monitors.workspace,
                        0,
                        self.defaults.channel is Some || webhooks,
                    ),
                    text::or_else(
                        jobs_fault(self.cron.jobs, 0),
                        if self.token(env) is None && !webhooks {
                            Some(
                                "missing Discord delivery config: configure [providers.discord].token (or legacy [discord].token) or at least one route webhook"@,
                            )
                        } else {
                            None
                        },
                    ),
                ),
            )
        }
    }
}

fn check_route(route: &RouteRule, index: usize) -> (r: Option<String>)
    requires
        index < usize::MAX,
    ensures
        text::opt_text(r) == route_fault(route@, index as int),
{
    let place = number(index as u64 + 1);
    let head = cat4("route #", place.as_str(), " (", route.event.as_str());
    let head = head.as_str();
    let sink = route.effective_sink();
    let has_channel = normalize_text(&route.channel).is_some();
    let has_slack = route.slack_webhook_target().is_some();
    if is_blank(route.sink.as_str()) && !has_slack {
        return Some(cat2(head, ") must set a sink"));
    }
    if same(sink, "discord") {
        if has_channel && route.discord_webhook_target().is_some() {
            return Some(cat2(head, ") cannot set both channel and webhook"));
        }
        None
    } else if same(sink, "slack") {
        if has_channel {
            return Some(cat2(head, ") cannot set channel when sink = \"slack\""));
        }
        if normalize_text(&route.webhook).is_some() && normalize_text(
            &route.slack_webhook,
        ).is_some() {
            return Some(
                cat2(head, ") cannot set both webhook and slack_webhook for Slack delivery"),
            );
        }
        if !has_slack {
            return Some(
                cat2(head, ") must set webhook or slack_webhook when sink = \"slack\""),
            );
        }
        None
    } else {
        Some(cat4(head, ") uses unsupported sink '", sink, "'"))
    }
}

fn check_workspace(m: &WorkspaceMonitor, index: usize, reachable: bool) -> (r: Option<String>)
    requires
        index < usize::MAX,
    ensures
        text::opt_text(r) == workspace_fault(m@, index as int, reachable),
{
    let place = number(index as u64 + 1);
    let head = cat2("workspace monitor #", place.as_str());
    assert(text::views(m.watch_dirs@).len() == m.watch_dirs@.len());
    if is_blank(m.path.as_str()) {
        Some(cat2(head.as_str(), " must set path"))
    } else if m.watch_dirs.len() == 0 {
        Some(cat2(head.as_str(), " must set at least one watch_dirs entry"))
    } else if m.channel.is_none() && !reachable {
        Some(cat2(head.as_str(), " has no channel and no default Discord destination"))
    } else {
        None
    }
}

fn has_earlier_id(jobs: &Vec<CronJob>, i: usize) -> (r: bool)
    requires
        i < jobs@.len(),
    ensures
        r == is_duplicate(text::all_views(jobs@), i as int),
{
    let ghost all = text::all_views(jobs@);
    let mut j: usize = 0;
    while j < i
        invariant
            j <= i < jobs@.len(),
            all == text::all_views(jobs@),
            forall|k: int| 0 <= k < j ==> #[trigger] all[k].id != all[i as int].id,
        decreases i - j,
    {
        if same(jobs[j].id.as_str(), jobs[i].id.as_str()) {
            assert(all[j as int].id == all[i as int].id);
            return true;
        }
        j = j + 1;
    }
    false
}

fn check_jobs(jobs: &Vec<CronJob>) -> (r: Option<String>)
    ensures
        text::opt_text(r) == jobs_fault(text::all_views(jobs@), 0),
{
    let ghost all = text::all_views(jobs@);
    let mut i: usize = 0;
    while i < jobs.len()
        invariant
            i <= jobs.len(),
            all == text::all_views(jobs@),
            jobs_fault(all, 0) == jobs_fault(all, i as int),
        decreases jobs.len() - i,
    {
        assert(all[i as int] == jobs@[i as int]@);
        match validate_job(&jobs[i]) {
            Err(e) => {
                let place = number(i as u64 + 1);
                return Some(cat4("cron job #", place.as_str(), ": ", e.as_str()));
            },
            Ok(_) => {},
        }
        if has_earlier_id(jobs, i) {
            return Some(cat3("duplicate cron job id '", jobs[i].id.as_str(), "'"));
        }
        i = i + 1;
    }
    None
}

impl AppConfig {
    fn check_routes(&self) -> (r: Option<String>)
        ensures
            text::opt_text(r) == routes_fault(self@.routes, 0),
    {
        let ghost all = self@.routes;
        let mut i: usize = 0;
        while i < self.routes.len()
            invariant
                i <= self.routes.len(),
                all == self@.routes,
                routes_fault(all, 0) == routes_fault(all, i as int),
            decreases self.routes.len() - i,
        {
            assert(all[i as int] == self.routes@[i as int]@);
            match check_route(&self.routes[i], i) {
                Some(e) => return Some(e),
                None => {},
            }
            i = i + 1;
        }
        None
    }

    fn check_workspaces(&self) -> (r: Option<String>)
        ensures
            text::opt_text(r) == workspaces_fault(
                self@.monitors.workspace,
                0,
                self@.defaults.channel is Some || webhook_count(self@.routes) > 0,
            ),
    {
        let ghost all = self@.monitors.workspace;
        let reachable = self.defaults.channel.is_some() || self.has_webhook_routes();
        let mut i: usize = 0;
        while i < self.monitors.workspace.len()
            invariant
                i <= self.monitors.workspace.len(),
                all == self@.monitors.workspace,
                reachable == (self@.defaults.channel is Some || webhook_count(self@.routes) > 0),
                workspaces_fault(all, 0, reachable) == workspaces_fault(all, i as int, reachable),
            decreases self.monitors.workspace.len() - i,
        {
            assert(all[i as int] == self.monitors.workspace@[i as int]@);
            match check_workspace(&self.monitors.workspace[i], i, reachable) {
                Some(e) => return Some(e),
                None => {},
            }
            i = i + 1;
        }
        None
    }

    /// Checks this configuration, given the Discord token that the environment
    /// sets.
    pub fn validate(&self, env: &Option<String>) -> (r: Result<(), String>)
        ensures
            cron::fault_in(r) == self@.fault(text::opt_text(*env)),
    {
        if self.dispatch.ci_batch_window_secs == 0 {
            return Err("dispatch.ci_batch_window_secs must be at least 1".to_owned());
        }
        if self.cron.poll_interval_secs == 0 {
            return Err("cron.poll_interval_secs must be at least 1".to_owned());
        }
        match self.check_routes() {
            Some(e) => return Err(e),
            None => {},
        }
        match self.check_workspaces() {
            Some(e) => return Err(e),
            None => {},
        }
        match check_jobs(&self.cron.jobs) {
            Some(e) => return Err(e),
            None => {},
        }
        if self.effective_token(env).is_none() && !self.has_webhook_routes() {
            return Err(
                "missing Discord delivery config: configure [providers.discord].token (or legacy [discord].token) or at least one route webhook".to_owned(),
            );
        }
        Ok(())
    }
}

// ---------------------------------------------------------------------------
// Laws
// ---------------------------------------------------------------------------

proof fn lemma_meaningful_again(o: Option<Seq<char>>)
    ensures
        text::meaningful_opt(text::meaningful_opt(o)) == text::meaningful_opt(o),
{
    match o {
        Some(s) => text::law_trim_is_idempotent(s),
        None => {},
    }
}

proof fn lemma_default_again(s: Seq<char>, otherwise: Seq<char>)
    requires
        text::trimmed(otherwise) == otherwise,
    ensures
        text_or_default(text_or_default(s, otherwise), otherwise) == text_or_default(s, otherwise),
{
    text::law_trim_is_idempotent(s);
}

proof fn lemma_list_again(s: Seq<Seq<char>>)
    ensures
        meaningful_list(meaningful_list(s)) == meaningful_list(s),
    decreases s.len(),
{
    if s.len() > 0 {
        let front = meaningful_list(s.drop_last());
        lemma_list_again(s.drop_last());
        text::law_trim_is_idempotent(s.last());
        match text::meaningful(s.last()) {
            Some(t) => {
                assert(front.push(t).drop_last() =~= front);
            },
            None => {},
        }
    }
}

proof fn lemma_plain_text(s: Seq<char>)
    requires
        s.len() > 0,
        !text::is_white(s[0]),
        !text::is_white(s.last()),
    ensures
        text::trimmed(s) == s,
{
    assert(text::trim_left(s) == s);
    assert(text::trim_right(s) == s);
}

proof fn lemma_plain_defaults()
    ensures
        text::trimmed("discord"@) == "discord"@,
        text::trimmed("UTC"@) == "UTC"@,
        text::trimmed(""@) == ""@,
        meaningful_list(workspace::watch_dirs()) == workspace::watch_dirs(),
{
    reveal_strlit("discord");
    reveal_strlit("UTC");
    reveal_strlit("");
    reveal_strlit(".omx/state");
    reveal_strlit(".omc/state");
    lemma_plain_text("discord"@);
    lemma_plain_text("UTC"@);
    assert(text::trim_left(""@) == ""@);
    lemma_plain_text(".omx/state"@);
    lemma_plain_text(".omc/state"@);
    let dirs = workspace::watch_dirs();
    let one = seq![".omx/state"@];
    assert(dirs.drop_last() =~= one);
    assert(one.drop_last() =~= Seq::<Seq<char>>::empty());
    assert(meaningful_list(one.drop_last()) =~= Seq::<Seq<char>>::empty());
    assert(meaningful_list(one) =~= one);
    assert(meaningful_list(dirs) =~= dirs);
}

proof fn lemma_route_again(r: RouteView)
    ensures
        normal_route(normal_route(r)) == normal_route(r),
{
    lemma_plain_defaults();
    lemma_default_again(r.sink, "discord"@);
    lemma_meaningful_again(r.channel);
    lemma_meaningful_again(r.webhook);
    lemma_meaningful_again(r.slack_webhook);
    lemma_meaningful_again(r.mention);
    lemma_meaningful_again(r.template);
}

proof fn lemma_workspace_again(m: WorkspaceMonitorView)
    ensures
        normal_workspace(normal_workspace(m)) == normal_workspace(m),
{
    lemma_plain_defaults();
    lemma_default_again(m.path, ""@);
    lemma_meaningful_again(m.channel);
    lemma_meaningful_again(m.mention);
    lemma_list_again(m.watch_dirs);
    lemma_list_again(m.events);
}

proof fn lemma_job_again(j: JobView)
    ensures
        normal_job(normal_job(j)) == normal_job(j),
{
    lemma_plain_defaults();
    lemma_default_again(j.id, ""@);
    lemma_default_again(j.schedule, ""@);
    lemma_default_again(j.timezone, "UTC"@);
    lemma_meaningful_again(j.channel);
    lemma_meaningful_again(j.mention);
    match j.kind {
        JobKindView::CustomMessage { message } => lemma_default_again(message, ""@),
    }
}

/// Normalizing a configuration again changes nothing.
pub proof fn law_normalizing_is_idempotent(c: AppSettingsView)
    ensures
        c.normal().normal() == c.normal(),
{
    let n = c.normal();
    let m = n.normal();
    lemma_meaningful_again(c.discord.bot_token);
    lemma_meaningful_again(c.discord.legacy_default_channel);
    lemma_meaningful_again(c.providers.discord.bot_token);
    lemma_meaningful_again(c.providers.discord.legacy_default_channel);
    lemma_meaningful_again(c.defaults.channel);
    lemma_meaningful_again(c.monitors.github_token);
    assert(m.routes =~= n.routes) by {
        assert forall|i: int| 0 <= i < n.routes.len() implies m.routes[i] == n.routes[i] by {
            lemma_route_again(c.routes[i]);
        }
    }
    assert(m.monitors.git.repos =~= n.monitors.git.repos) by {
        assert forall|i: int| 0 <= i < n.monitors.git.repos.len() implies m.monitors.git.repos[i]
            == n.monitors.git.repos[i] by {
            let r = c.monitors.git.repos[i];
            lemma_meaningful_again(r.channel);
            lemma_meaningful_again(r.mention);
            lemma_meaningful_again(r.name);
            lemma_meaningful_again(r.github_repo);
        }
    }
    assert(m.monitors.tmux.sessions =~= n.monitors.tmux.sessions) by {
        assert forall|i: int| 0 <= i < n.monitors.tmux.sessions.len() implies
            m.monitors.tmux.sessions[i] == n.monitors.tmux.sessions[i] by {
            let r = c.monitors.tmux.sessions[i];
            lemma_meaningful_again(r.channel);
            lemma_meaningful_again(r.mention);
        }
    }
    assert(m.monitors.workspace =~= n.monitors.workspace) by {
        assert forall|i: int| 0 <= i < n.monitors.workspace.len() implies m.monitors.workspace[i]
            == n.monitors.workspace[i] by {
            lemma_workspace_again(c.monitors.workspace[i]);
        }
    }
    assert(m.cron.jobs =~= n.cron.jobs) by {
        assert forall|i: int| 0 <= i < n.cron.jobs.len() implies m.cron.jobs[i] == n.cron.jobs[i] by {
            lemma_job_again(c.cron.jobs[i]);
        }
    }
}

proof fn lemma_webhook_counted(routes: Seq<RouteView>, i: int)
    requires
        0 <= i < routes.len(),
        routes[i].has_webhook(),
    ensures
        webhook_count(routes) > 0,
    decreases routes.len(),
{
    if i < routes.len() - 1 {
        lemma_webhook_counted(routes.drop_last(), i);
    }
}

proof fn lemma_quickstart_found(routes: Seq<RouteView>, i: int)
    requires
        0 <= i,
    ensures
        quickstart_from(routes, i) matches Some(k) ==> i <= k < routes.len() && is_catch_all(
            routes[k],
        ),
    decreases routes.len() - i,
{
    if i < routes.len() {
        lemma_quickstart_found(routes, i + 1);
    }
}

/// After a webhook was set up for all events, some route leads to a webhook, so
/// that no Discord token is needed.
pub proof fn law_scaffold_gives_a_webhook(routes: Seq<RouteView>, webhook: Seq<char>)
    requires
        !text::blank(webhook),
    ensures
        webhook_count(scaffolded(routes, webhook)) > 0,
{
    let after = scaffolded(routes, webhook);
    let target = text::trimmed(webhook);
    text::law_trim_is_idempotent(webhook);
    lemma_plain_defaults();
    lemma_quickstart_found(routes, 0);
    match quickstart_from(routes, 0) {
        Some(i) => {
            assert(after[i].has_webhook());
            lemma_webhook_counted(after, i);
        },
        None => {
            assert(after[routes.len() as int].has_webhook());
            lemma_webhook_counted(after, routes.len() as int);
        },
    }
}

/// A configuration that passes the check has somewhere to deliver to: a Discord
/// token or a webhook.
pub proof fn law_valid_config_can_deliver(c: AppSettingsView, env: Option<Seq<char>>)
    requires
        c.fault(env) is None,
    ensures
        c.token(env) is Some || webhook_count(c.routes) > 0,
{
}

/// A configuration without its Discord tokens.
pub open spec fn without_tokens(c: AppSettingsView) -> AppSettingsView {
    AppSettingsView {
        discord: DiscordSettingsView { bot_token: None, ..c.discord },
        providers: ProvidersSettingsView {
            discord: DiscordSettingsView { bot_token: None, ..c.providers.discord },
            ..c.providers
        },
        ..c
    }
}

/// A configuration with a webhook needs no Discord token: what passes the check with
/// one passes it without.
pub proof fn law_webhook_needs_no_token(c: AppSettingsView, env: Option<Seq<char>>)
    requires
        webhook_count(c.routes) > 0,
        c.fault(env) is None,
    ensures
        without_tokens(c).fault(None) is None,
{
}

/// A Discord token in the older place is still used once the configuration is loaded.
pub proof fn law_older_token_still_counts(c: AppSettingsView, token: Seq<char>)
    requires
        c.discord.bot_token == Some(token),
        !text::blank(token),
        c.providers.discord.bot_token is None,
        c.providers.discord.legacy_default_channel is None,
    ensures
        c.loaded(true) matches Ok(loaded) && loaded.token(None) == Some(text::trimmed(token)),
{
    text::law_trim_is_idempotent(token);
}

} // verus!
