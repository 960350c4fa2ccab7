//! What a configuration says once it is loaded, and when it can be used.
use vstd::prelude::*;
use vstd::string::*;

use crate::compose;
use crate::config;
use crate::config::{
    AppSettingsView, GitRepoMonitorView, JobKindView, JobView, RouteView, TmuxSessionMonitorView,
    WorkspaceMonitorView,
};
use crate::config_rules;
use crate::cron;
use crate::events::MessageFormat;
use crate::text;

verus! {

/// A setting without the blank characters at its ends; none where nothing is left.
pub open spec fn clean(o: Option<Seq<char>>) -> Option<Seq<char>> {
    match o {
        Some(s) => if text::trimmed(s).len() > 0 {
            Some(text::trimmed(s))
        } else {
            None
        },
        None => None,
    }
}

/// The first of two settings that is there.
pub open spec fn first_of(a: Option<Seq<char>>, b: Option<Seq<char>>) -> Option<Seq<char>> {
    if a is Some {
        a
    } else {
        b
    }
}

/// A setting without the blank characters at its ends, or another where nothing is left.
pub open spec fn clean_or(s: Seq<char>, otherwise: Seq<char>) -> Seq<char> {
    if text::trimmed(s).len() > 0 {
        text::trimmed(s)
    } else {
        otherwise
    }
}

/// The settings of a list that say something.
pub open spec fn clean_list(s: Seq<Seq<char>>) -> Seq<Seq<char>> {
    s.filter(|t: Seq<char>| text::trimmed(t).len() > 0).map_values(
        |t: Seq<char>| text::trimmed(t),
    )
}

proof fn lemma_clean_list(s: Seq<Seq<char>>)
    ensures
        config_rules::meaningful_list(s) == clean_list(s),
    decreases s.len(),
{
    reveal(Seq::filter);
    let says = |t: Seq<char>| text::trimmed(t).len() > 0;
    if s.len() > 0 {
        let front = s.drop_last();
        lemma_clean_list(front);
        if says(s.last()) {
            assert(s.filter(says) == front.filter(says).push(s.last()));
            assert(clean_list(s) =~= clean_list(front).push(text::trimmed(s.last())));
        } else {
            assert(s.filter(says) == front.filter(says));
        }
    } else {
        assert(config_rules::meaningful_list(s) =~= clean_list(s));
    }
}

/// The Discord token in use is that of the environment, or else that of the provider, or else
/// the one in the older place; and where it comes from is said.
pub proof fn law_token_in_use(c: AppSettingsView, env: Option<Seq<char>>)
    ensures
        ({
            let own = first_of(clean(c.providers.discord.bot_token), clean(c.discord.bot_token));
            &&& c.token(env) == first_of(clean(env), own)
            &&& clean(env) is Some ==> c.token_source(env) == "env"@
            &&& clean(env) is None && own is Some ==> c.token_source(env) == "config"@
            &&& clean(env) is None && own is None ==> c.token_source(env) == "missing"@
        }),
{
}

/// Two settings for the same thing that contradict each other.
pub open spec fn differ(a: Option<Seq<char>>, b: Option<Seq<char>>) -> bool {
    clean(a) is Some && clean(b) is Some && clean(a) != clean(b)
}

/// What is said of settings that contradict each other.
pub open spec fn contradiction(field: Seq<char>) -> Result<AppSettingsView, Seq<char>> {
    Err(
        "conflicting legacy [discord]."@ + field + " and [providers.discord]."@ + field
            + " values"@,
    )
}

/// Loading a file moves the older Discord settings to their new place and refuses those that
/// contradict the new ones; a file without them has none to move. What the older place held is
/// gone afterwards, and the older default channel stands in for a missing one.
pub proof fn law_older_settings_move(c: AppSettingsView, has_legacy: bool)
    ensures
        ({
            let old = c.discord;
            let new = c.providers.discord;
            if has_legacy && differ(old.bot_token, new.bot_token) {
                c.loaded(has_legacy) == contradiction("token"@)
            } else if has_legacy && differ(
                old.legacy_default_channel,
                new.legacy_default_channel,
            ) {
                c.loaded(has_legacy) == contradiction("default_channel"@)
            } else {
                match c.loaded(has_legacy) {
                    Ok(l) => {
                        let channel = if has_legacy {
                            first_of(
                                clean(new.legacy_default_channel),
                                clean(old.legacy_default_channel),
                            )
                        } else {
                            clean(new.legacy_default_channel)
                        };
                        &&& l.discord.bot_token is None
                        &&& l.discord.legacy_default_channel is None
                        &&& l.providers.discord.bot_token == (if has_legacy {
                            first_of(clean(new.bot_token), clean(old.bot_token))
                        } else {
                            clean(new.bot_token)
                        })
                        &&& l.providers.discord.legacy_default_channel == channel
                        &&& l.defaults.channel == first_of(clean(c.defaults.channel), channel)
                    },
                    Err(_) => false,
                }
            }
        }),
{
    lemma_clean_again(c.discord.bot_token);
    lemma_clean_again(c.providers.discord.bot_token);
    lemma_clean_again(c.discord.legacy_default_channel);
    lemma_clean_again(c.providers.discord.legacy_default_channel);
}

proof fn lemma_clean_again(o: Option<Seq<char>>)
    ensures
        clean(clean(o)) == clean(o),
{
    match o {
        Some(s) => text::law_trim_is_idempotent(s),
        None => {},
    }
}

/// A route as it is loaded.
pub open spec fn loads_route(r: RouteView, n: RouteView) -> bool {
    &&& n.event == r.event
    &&& n.filter == r.filter
    &&& n.sink == clean_or(r.sink, "discord"@)
    &&& n.channel == clean(r.channel)
    &&& n.webhook == clean(r.webhook)
    &&& n.slack_webhook == clean(r.slack_webhook)
    &&& n.mention == clean(r.mention)
    &&& n.allow_dynamic_tokens == r.allow_dynamic_tokens
    &&& n.format == r.format
    &&& n.template == clean(r.template)
}

/// A repository as it is loaded.
pub open spec fn loads_repo(r: GitRepoMonitorView, n: GitRepoMonitorView) -> bool {
    &&& n.path == r.path
    &&& n.name == clean(r.name)
    &&& n.remote == r.remote
    &&& n.github_repo == clean(r.github_repo)
    &&& n.emit_commits == r.emit_commits
    &&& n.emit_branch_changes == r.emit_branch_changes
    &&& n.emit_issue_opened == r.emit_issue_opened
    &&& n.emit_pr_status == r.emit_pr_status
    &&& n.channel == clean(r.channel)
    &&& n.mention == clean(r.mention)
    &&& n.format == r.format
}

/// A session as it is loaded.
pub open spec fn loads_session(r: TmuxSessionMonitorView, n: TmuxSessionMonitorView) -> bool {
    &&& n.session == r.session
    &&& n.keywords == r.keywords
    &&& n.keyword_window_secs == r.keyword_window_secs
    &&& n.stale_minutes == r.stale_minutes
    &&& n.channel == clean(r.channel)
    &&& n.mention == clean(r.mention)
    &&& n.format == r.format
    &&& n.summarize == r.summarize
    &&& n.summarizer == r.summarizer
    &&& n.heartbeat_mins == r.heartbeat_mins
    &&& n.min_new_lines == r.min_new_lines
    &&& n.summarize_interval_mins == r.summarize_interval_mins
    &&& n.heartbeat_interval == r.heartbeat_interval
    &&& n.summary_interval == r.summary_interval
}

/// A number that is one at least.
pub open spec fn at_least_one(n: u64) -> u64 {
    if n == 0 {
        1
    } else {
        n
    }
}

/// A workspace as it is loaded.
pub open spec fn loads_workspace(r: WorkspaceMonitorView, n: WorkspaceMonitorView) -> bool {
    &&& n.path == text::trimmed(r.path)
    &&& n.watch_dirs == (if clean_list(r.watch_dirs).len() == 0 {
        seq![".omx/state"@, ".omc/state"@]
    } else {
        clean_list(r.watch_dirs)
    })
    &&& n.discover_worktrees == r.discover_worktrees
    &&& n.channel == clean(r.channel)
    &&& n.mention == clean(r.mention)
    &&& n.format == r.format
    &&& n.events == clean_list(r.events)
    &&& n.poll_interval_secs == (match r.poll_interval_secs {
        Some(secs) => Some(at_least_one(secs)),
        None => None,
    })
    &&& n.debounce_ms == at_least_one(r.debounce_ms)
}

/// A job as it is loaded.
pub open spec fn loads_job(r: JobView, n: JobView) -> bool {
    &&& n.id == text::trimmed(r.id)
    &&& n.schedule == text::trimmed(r.schedule)
    &&& n.timezone == clean_or(r.timezone, "UTC"@)
    &&& n.enabled == r.enabled
    &&& n.channel == clean(r.channel)
    &&& n.mention == clean(r.mention)
    &&& n.format == r.format
    &&& match (r.kind, n.kind) {
        (
            JobKindView::CustomMessage { message },
            JobKindView::CustomMessage { message: loaded },
        ) => loaded == text::trimmed(message),
    }
}

/// Loading a configuration trims its texts and drops the blank ones, keeps every route, every
/// monitor and every job, in order, and leaves the rest as it is.
pub proof fn law_loaded_configuration(c: AppSettingsView, has_legacy: bool, i: int)
    requires
        c.loaded(has_legacy) is Ok,
    ensures
        ({
            let l = c.loaded(has_legacy)->Ok_0;
            &&& l.dispatch == c.dispatch
            &&& l.daemon == c.daemon
            &&& l.defaults.format == c.defaults.format
            &&& l.providers.slack == c.providers.slack
            &&& l.providers.gemini == c.providers.gemini
            &&& l.providers.openrouter == c.providers.openrouter
            &&& l.providers.openai == c.providers.openai
            &&& l.monitors.poll_interval_secs == c.monitors.poll_interval_secs
            &&& l.monitors.github_token == clean(c.monitors.github_token)
            &&& l.monitors.github_api_base == c.monitors.github_api_base
            &&& l.cron.poll_interval_secs == c.cron.poll_interval_secs
            &&& l.routes.len() == c.routes.len()
            &&& 0 <= i < c.routes.len() ==> loads_route(c.routes[i], l.routes[i])
            &&& l.monitors.git.repos.len() == c.monitors.git.repos.len()
            &&& 0 <= i < c.monitors.git.repos.len() ==> loads_repo(
                c.monitors.git.repos[i],
                l.monitors.git.repos[i],
            )
            &&& l.monitors.tmux.sessions.len() == c.monitors.tmux.sessions.len()
            &&& 0 <= i < c.monitors.tmux.sessions.len() ==> loads_session(
                c.monitors.tmux.sessions[i],
                l.monitors.tmux.sessions[i],
            )
            &&& l.monitors.workspace.len() == c.monitors.workspace.len()
            &&& 0 <= i < c.monitors.workspace.len() ==> loads_workspace(
                c.monitors.workspace[i],
                l.monitors.workspace[i],
            )
            &&& l.cron.jobs.len() == c.cron.jobs.len()
            &&& 0 <= i < c.cron.jobs.len() ==> loads_job(c.cron.jobs[i], l.cron.jobs[i])
        }),
{
    reveal_strlit("");
    assert(""@ =~= Seq::<char>::empty());
    if 0 <= i < c.monitors.workspace.len() {
        let w = c.monitors.workspace[i];
        lemma_clean_list(w.watch_dirs);
        lemma_clean_list(w.events);
        if text::trimmed(w.path).len() == 0 {
            assert(text::trimmed(w.path) =~= ""@);
        }
    }
    if 0 <= i < c.cron.jobs.len() {
        let j = c.cron.jobs[i];
        if text::trimmed(j.id).len() == 0 {
            assert(text::trimmed(j.id) =~= ""@);
        }
        if text::trimmed(j.schedule).len() == 0 {
            assert(text::trimmed(j.schedule) =~= ""@);
        }
        match j.kind {
            JobKindView::CustomMessage { message } => {
                if text::trimmed(message).len() == 0 {
                    assert(text::trimmed(message) =~= ""@);
                }
            },
        }
    }
}

/// A route leads to a webhook where it has one for the place that it delivers to, or one of
/// Slack's.
pub proof fn law_route_with_a_webhook(r: RouteView)
    ensures
        r.has_webhook() <==> (clean(r.slack_webhook) is Some || (clean(r.webhook) is Some && (
        r.sink_used() == "discord"@ || text::trimmed(r.sink) == "slack"@))),
{
}

/// A route that can be used: it delivers to Discord, to a channel or to a webhook but not to
/// both, or to Slack, to exactly one webhook.
pub open spec fn usable_route(r: RouteView) -> bool {
    let sink = text::trimmed(r.sink);
    ||| r.sink_used() == "discord"@ && sink.len() > 0 && !(clean(r.channel) is Some && clean(
        r.webhook,
    ) is Some)
    ||| r.sink_used() == "slack"@ && clean(r.channel) is None && !(clean(r.webhook) is Some
        && clean(r.slack_webhook) is Some) && (clean(r.slack_webhook) is Some || (sink == "slack"@
        && clean(r.webhook) is Some))
}

/// A watched workspace that can be used: it lies somewhere, something in it is watched, and
/// its events have somewhere to go.
pub open spec fn usable_workspace(m: WorkspaceMonitorView, reachable: bool) -> bool {
    text::trimmed(m.path).len() > 0 && m.watch_dirs.len() > 0 && (m.channel is Some || reachable)
}

/// Some route leads to a webhook.
pub open spec fn some_webhook(routes: Seq<RouteView>) -> bool {
    exists|i: int| 0 <= i < routes.len() && (#[trigger] routes[i]).has_webhook()
}

/// A configuration that can be used.
pub open spec fn usable(c: AppSettingsView, env: Option<Seq<char>>) -> bool {
    let jobs = c.cron.jobs;
    let places = c.monitors.workspace;
    let reachable = c.defaults.channel is Some || some_webhook(c.routes);
    &&& c.dispatch.ci_batch_window_secs >= 1
    &&& c.cron.poll_interval_secs >= 1
    &&& forall|i: int| 0 <= i < c.routes.len() ==> usable_route(#[trigger] c.routes[i])
    &&& forall|i: int|
        0 <= i < places.len() ==> usable_workspace(#[trigger] places[i], reachable)
    &&& forall|i: int| 0 <= i < jobs.len() ==> cron::job_fault(#[trigger] jobs[i]) is None
    &&& forall|i: int, j: int|
        #![trigger jobs[i], jobs[j]]
        0 <= i < j < jobs.len() ==> jobs[i].id != jobs[j].id
    &&& clean(env) is Some || clean(c.providers.discord.bot_token) is Some || clean(
        c.discord.bot_token,
    ) is Some || some_webhook(c.routes)
}

proof fn lemma_webhooks(routes: Seq<RouteView>)
    ensures
        config_rules::webhook_count(routes) > 0 <==> some_webhook(routes),
    decreases routes.len(),
{
    if routes.len() > 0 {
        let front = routes.drop_last();
        lemma_webhooks(front);
        if some_webhook(front) {
            let i = choose|i: int| 0 <= i < front.len() && (#[trigger] front[i]).has_webhook();
            assert(routes[i].has_webhook());
        }
        if some_webhook(routes) {
            let i = choose|i: int| 0 <= i < routes.len() && (#[trigger] routes[i]).has_webhook();
            if i < front.len() {
                assert(front[i].has_webhook());
            }
        }
        assert(routes[routes.len() - 1] == routes.last());
    }
}

proof fn lemma_usable_route(r: RouteView, i: int)
    ensures
        config_rules::route_fault(r, i) is None <==> usable_route(r),
{
    reveal_strlit("discord");
    reveal_strlit("slack");
    assert("discord"@.len() == 7);
    assert("slack"@.len() == 5);
}

proof fn lemma_usable_routes(routes: Seq<RouteView>, i: int)
    requires
        0 <= i,
    ensures
        config_rules::routes_fault(routes, i) is None <==> forall|k: int|
            i <= k < routes.len() ==> usable_route(#[trigger] routes[k]),
    decreases routes.len() - i,
{
    if i < routes.len() {
        lemma_usable_route(routes[i], i);
        lemma_usable_routes(routes, i + 1);
        if config_rules::routes_fault(routes, i) is None {
            assert forall|k: int| i <= k < routes.len() implies usable_route(
                #[trigger] routes[k],
            ) by {
                if k > i {
                    assert(i + 1 <= k);
                }
            }
        }
    }
}

proof fn lemma_usable_workspaces(ms: Seq<WorkspaceMonitorView>, i: int, reachable: bool)
    requires
        0 <= i,
    ensures
        config_rules::workspaces_fault(ms, i, reachable) is None <==> forall|k: int|
            i <= k < ms.len() ==> usable_workspace(#[trigger] ms[k], reachable),
    decreases ms.len() - i,
{
    if i < ms.len() {
        lemma_usable_workspaces(ms, i + 1, reachable);
        if config_rules::workspaces_fault(ms, i, reachable) is None {
            assert forall|k: int| i <= k < ms.len() implies usable_workspace(
                #[trigger] ms[k],
                reachable,
            ) by {
                if k > i {
                    assert(i + 1 <= k);
                }
            }
        } else if forall|k: int| i <= k < ms.len() ==> usable_workspace(#[trigger] ms[k], reachable) {
            assert(usable_workspace(ms[i], reachable));
        }
    }
}

spec fn sound_jobs(jobs: Seq<JobView>, i: int) -> bool {
    &&& forall|k: int| i <= k < jobs.len() ==> cron::job_fault(#[trigger] jobs[k]) is None
    &&& forall|j: int, k: int|
        #![trigger jobs[j], jobs[k]]
        0 <= j < k < jobs.len() && i <= k ==> jobs[j].id != jobs[k].id
}

proof fn lemma_sound_jobs(jobs: Seq<JobView>, i: int)
    requires
        0 <= i,
    ensures
        config_rules::jobs_fault(jobs, i) is None <==> sound_jobs(jobs, i),
    decreases jobs.len() - i,
{
    if i < jobs.len() {
        lemma_sound_jobs(jobs, i + 1);
        if config_rules::jobs_fault(jobs, i) is None {
            assert(!config_rules::is_duplicate(jobs, i));
            assert forall|j: int, k: int|
                #![trigger jobs[j], jobs[k]]
                0 <= j < k < jobs.len() && i <= k implies jobs[j].id != jobs[k].id by {
                if k == i {
                    if jobs[j].id == jobs[i].id {
                        assert(config_rules::is_duplicate(jobs, i));
                    }
                }
            }
        } else if sound_jobs(jobs, i) {
            assert(cron::job_fault(jobs[i]) is None);
            if config_rules::is_duplicate(jobs, i) {
                let j = choose|j: int| 0 <= j < i && #[trigger] jobs[j].id == jobs[i].id;
                assert(jobs[j].id != jobs[i].id);
            }
            assert(sound_jobs(jobs, i + 1));
        }
    }
}

/// A configuration passes the check exactly where it can be used.
pub proof fn law_check_of_a_configuration(c: AppSettingsView, env: Option<Seq<char>>)
    ensures
        c.fault(env) is None <==> usable(c, env),
{
    lemma_webhooks(c.routes);
    lemma_usable_routes(c.routes, 0);
    let reachable = c.defaults.channel is Some || some_webhook(c.routes);
    lemma_usable_workspaces(c.monitors.workspace, 0, reachable);
    lemma_sound_jobs(c.cron.jobs, 0);
    if sound_jobs(c.cron.jobs, 0) {
        assert forall|i: int, j: int|
            #![trigger c.cron.jobs[i], c.cron.jobs[j]]
            0 <= i < j < c.cron.jobs.len() implies c.cron.jobs[i].id != c.cron.jobs[j].id by {}
    }
    if usable(c, env) {
        assert(sound_jobs(c.cron.jobs, 0));
    }
}

proof fn lemma_first_route_fault(routes: Seq<RouteView>, i: int, at: int)
    requires
        0 <= i <= at < routes.len(),
        forall|k: int| i <= k < at ==> usable_route(#[trigger] routes[k]),
        !usable_route(routes[at]),
    ensures
        config_rules::routes_fault(routes, i) == config_rules::route_fault(routes[at], at),
    decreases at - i,
{
    lemma_usable_route(routes[i], i);
    if i < at {
        assert(usable_route(routes[i]));
        lemma_first_route_fault(routes, i + 1, at);
    }
}

/// What is said of the first route that cannot be used: which it is, and what is wrong.
pub proof fn law_fault_of_a_route(c: AppSettingsView, env: Option<Seq<char>>, at: int)
    requires
        c.dispatch.ci_batch_window_secs >= 1,
        c.cron.poll_interval_secs >= 1,
        0 <= at < c.routes.len(),
        forall|k: int| 0 <= k < at ==> usable_route(#[trigger] c.routes[k]),
        !usable_route(c.routes[at]),
    ensures
        ({
            let r = c.routes[at];
            let head = "route #"@ + compose::decimal((at + 1) as nat) + " ("@ + r.event;
            let sink = text::trimmed(r.sink);
            c.fault(env) == Some(
                if sink.len() == 0 && clean(r.slack_webhook) is None {
                    head + ") must set a sink"@
                } else if r.sink_used() == "discord"@ {
                    head + ") cannot set both channel and webhook"@
                } else if r.sink_used() == "slack"@ {
                    if clean(r.channel) is Some {
                        head + ") cannot set channel when sink = \"slack\""@
                    } else if clean(r.webhook) is Some && clean(r.slack_webhook) is Some {
                        head + ") cannot set both webhook and slack_webhook for Slack delivery"@
                    } else {
                        head + ") must set webhook or slack_webhook when sink = \"slack\""@
                    }
                } else {
                    head + ") uses unsupported sink '"@ + sink + "'"@
                },
            )
        }),
{
    lemma_first_route_fault(c.routes, 0, at);
    lemma_usable_route(c.routes[at], at);
    reveal_strlit("discord");
    reveal_strlit("slack");
    assert("discord"@.len() == 7);
    assert("slack"@.len() == 5);
}

/// Times of zero are refused first, and what is said names them.
pub proof fn law_fault_of_a_time(c: AppSettingsView, env: Option<Seq<char>>)
    ensures
        c.dispatch.ci_batch_window_secs == 0 ==> c.fault(env) == Some(
            "dispatch.ci_batch_window_secs must be at least 1"@,
        ),
        c.dispatch.ci_batch_window_secs > 0 && c.cron.poll_interval_secs == 0 ==> c.fault(env)
            == Some("cron.poll_interval_secs must be at least 1"@),
{
}

/// A configuration in which all is well but for the delivery is refused for that.
pub proof fn law_fault_of_the_delivery(c: AppSettingsView, env: Option<Seq<char>>)
    requires
        c.fault(env) is Some,
        c.fault(Some("token"@)) is None,
    ensures
        c.fault(env) == Some(
            "missing Discord delivery config: configure [providers.discord].token (or legacy [discord].token) or at least one route webhook"@,
        ),
{
}

/// A route for everything that has nothing of its own.
pub open spec fn takes_everything(r: RouteView) -> bool {
    r.event == "*"@ && r.filter.len() == 0 && r.mention is None && r.template is None
}

proof fn lemma_quickstart(routes: Seq<RouteView>, i: int)
    requires
        0 <= i,
    ensures
        match config_rules::quickstart_from(routes, i) {
            Some(at) => {
                &&& i <= at < routes.len()
                &&& takes_everything(routes[at])
                &&& forall|k: int| i <= k < at ==> !takes_everything(#[trigger] routes[k])
            },
            None => forall|k: int| i <= k < routes.len() ==> !takes_everything(
                #[trigger] routes[k],
            ),
        },
    decreases routes.len() - i,
{
    if i < routes.len() {
        lemma_quickstart(routes, i + 1);
        if !takes_everything(routes[i]) {
            match config_rules::quickstart_from(routes, i + 1) {
                Some(at) => {
                    assert forall|k: int| i <= k < at implies !takes_everything(
                        #[trigger] routes[k],
                    ) by {
                        if k > i {
                            assert(i + 1 <= k);
                        }
                    }
                },
                None => {
                    assert forall|k: int| i <= k < routes.len() implies !takes_everything(
                        #[trigger] routes[k],
                    ) by {
                        if k > i {
                            assert(i + 1 <= k);
                        }
                    }
                },
            }
        }
    }
}

/// Setting up a webhook for everything: the first route that takes everything leads to it
/// from then on, and where there is none a new one comes behind the others. A blank webhook
/// changes nothing.
pub proof fn law_webhook_is_set_up(routes: Seq<RouteView>, webhook: Seq<char>, i: int)
    requires
        0 <= i < routes.len(),
    ensures
        ({
            let after = config_rules::scaffolded(routes, webhook);
            let target = text::trimmed(webhook);
            &&& target.len() == 0 ==> after == routes
            &&& target.len() > 0 && takes_everything(routes[i]) && (forall|k: int|
                0 <= k < i ==> !takes_everything(#[trigger] routes[k])) ==> after == routes.update(
                i,
                RouteView {
                    sink: "discord"@,
                    channel: None,
                    webhook: Some(target),
                    event: routes[i].event,
                    filter: routes[i].filter,
                    slack_webhook: routes[i].slack_webhook,
                    mention: routes[i].mention,
                    allow_dynamic_tokens: routes[i].allow_dynamic_tokens,
                    format: routes[i].format,
                    template: routes[i].template,
                },
            )
            &&& target.len() > 0 && (forall|k: int|
                0 <= k < routes.len() ==> !takes_everything(#[trigger] routes[k])) ==> {
                &&& after.len() == routes.len() + 1
                &&& after[i] == routes[i]
                &&& takes_everything(after.last())
                &&& after.last().sink == "discord"@
                &&& after.last().webhook == Some(target)
                &&& after.last().channel is None
                &&& after.last().slack_webhook is None
                &&& after.last().format is None
                &&& !after.last().allow_dynamic_tokens
            }
        }),
{
    lemma_quickstart(routes, 0);
    match config_rules::quickstart_from(routes, 0) {
        Some(at) => {
            if takes_everything(routes[i]) && (forall|k: int|
                0 <= k < i ==> !takes_everything(#[trigger] routes[k])) {
                if at < i {
                    assert(!takes_everything(routes[at]));
                }
                assert(at == i);
            }
        },
        None => {},
    }
}

/// What a configuration says where a file says nothing.
pub proof fn law_default_configuration()
    ensures
        ({
            let c = config::default_app_config();
            &&& c.discord.bot_token is None
            &&& c.discord.legacy_default_channel is None
            &&& c.providers.discord.bot_token is None
            &&& c.providers.discord.legacy_default_channel is None
            &&& c.providers.gemini.api_key is None
            &&& c.providers.openrouter.api_key is None
            &&& c.providers.openai.api_key is None
            &&& c.providers.openai.base_url is None
            &&& c.dispatch.ci_batch_window_secs == 30
            &&& c.dispatch.routine_batch_window_secs == 5
            &&& c.daemon.bind_host == "0.0.0.0"@
            &&& c.daemon.port == 25294
            &&& c.daemon.base_url == "http://127.0.0.1:25294"@
            &&& c.defaults.channel is None
            &&& c.defaults.format == MessageFormat::Compact
            &&& c.routes.len() == 0
            &&& c.monitors.poll_interval_secs == 5
            &&& c.monitors.github_token is None
            &&& c.monitors.github_api_base == "https://api.github.com"@
            &&& c.monitors.git.repos.len() == 0
            &&& c.monitors.tmux.sessions.len() == 0
            &&& c.monitors.workspace.len() == 0
            &&& c.cron.poll_interval_secs == 30
            &&& c.cron.jobs.len() == 0
        }),
{
}

/// What a monitor watches for where a file says nothing.
pub proof fn law_default_monitors()
    ensures
        ({
            let s = config::default_tmux_session_monitor();
            let w = config::default_workspace_monitor();
            let g = config::default_git_repo_monitor();
            &&& s.keyword_window_secs == 30
            &&& s.stale_minutes == 10
            &&& s.keywords.len() == 0
            &&& !s.summarize
            &&& s.summarizer == "gemini:gemini-2.5-flash"@
            &&& s.heartbeat_mins == 0
            &&& s.min_new_lines == 0
            &&& s.summarize_interval_mins == 0
            &&& s.heartbeat_interval == 0
            &&& s.summary_interval == 0
            &&& w.watch_dirs == seq![".omx/state"@, ".omc/state"@]
            &&& !w.discover_worktrees
            &&& w.events.len() == 0
            &&& w.poll_interval_secs is None
            &&& w.debounce_ms == 2000
            &&& g.remote == "origin"@
            &&& g.emit_commits
            &&& g.emit_branch_changes
            &&& g.emit_issue_opened
            &&& !g.emit_pr_status
        }),
{
}

/// The Discord token of the environment is what the newer variable says, or else what the older
/// one says, without blanks at its ends; blank ones say nothing.
pub proof fn law_token_of_the_environment<F: Fn(&str) -> Option<String>>(
    get_env: F,
    token: Option<Seq<char>>,
    newer: Option<String>,
    older: Option<String>,
)
    requires
        forall|v: Option<String>| #[trigger]
            call_ensures(get_env, ("DISCORD_TOKEN",), v) ==> v == newer,
        forall|v: Option<String>| #[trigger]
            call_ensures(get_env, ("CLAWHIP_DISCORD_BOT_TOKEN",), v) ==> v == older,
        config_rules::env_token(get_env, token),
    ensures
        token == first_of(clean(text::opt_text(newer)), clean(text::opt_text(older))),
{
    let a = choose|a: Option<Seq<char>>|
        {
            &&& #[trigger] config_rules::env_says(get_env, "DISCORD_TOKEN", a)
            &&& match text::meaningful_opt(a) {
                Some(s) => token == Some(s),
                None => exists|b: Option<Seq<char>>| #[trigger]
                    config_rules::env_says(get_env, "CLAWHIP_DISCORD_BOT_TOKEN", b) && token
                        == text::meaningful_opt(b),
            }
        };
    assert(a == text::opt_text(newer));
    if text::meaningful_opt(a) is None {
        let b = choose|b: Option<Seq<char>>| #[trigger]
            config_rules::env_says(get_env, "CLAWHIP_DISCORD_BOT_TOKEN", b) && token
                == text::meaningful_opt(b);
        assert(b == text::opt_text(older));
    }
}

proof fn lemma_first_workspace_fault(
    ms: Seq<WorkspaceMonitorView>,
    i: int,
    at: int,
    reachable: bool,
)
    requires
        0 <= i <= at < ms.len(),
        forall|k: int| i <= k < at ==> usable_workspace(#[trigger] ms[k], reachable),
        !usable_workspace(ms[at], reachable),
    ensures
        config_rules::workspaces_fault(ms, i, reachable) == config_rules::workspace_fault(
            ms[at],
            at,
            reachable,
        ),
    decreases at - i,
{
    if i < at {
        assert(usable_workspace(ms[i], reachable));
        lemma_first_workspace_fault(ms, i + 1, at, reachable);
    }
}

/// What is said of the first watched workspace that cannot be used: which it is, and what is
/// wrong.
pub proof fn law_fault_of_a_workspace(c: AppSettingsView, env: Option<Seq<char>>, at: int)
    requires
        c.dispatch.ci_batch_window_secs >= 1,
        c.cron.poll_interval_secs >= 1,
        forall|k: int| 0 <= k < c.routes.len() ==> usable_route(#[trigger] c.routes[k]),
        0 <= at < c.monitors.workspace.len(),
        forall|k: int|
            0 <= k < at ==> usable_workspace(
                #[trigger] c.monitors.workspace[k],
                c.defaults.channel is Some || some_webhook(c.routes),
            ),
        !usable_workspace(
            c.monitors.workspace[at],
            c.defaults.channel is Some || some_webhook(c.routes),
        ),
    ensures
        ({
            let m = c.monitors.workspace[at];
            let head = "workspace monitor #"@ + compose::decimal((at + 1) as nat);
            c.fault(env) == Some(
                if text::trimmed(m.path).len() == 0 {
                    head + " must set path"@
                } else if m.watch_dirs.len() == 0 {
                    head + " must set at least one watch_dirs entry"@
                } else {
                    head + " has no channel and no default Discord destination"@
                },
            )
        }),
{
    lemma_webhooks(c.routes);
    lemma_usable_routes(c.routes, 0);
    lemma_first_workspace_fault(
        c.monitors.workspace,
        0,
        at,
        c.defaults.channel is Some || some_webhook(c.routes),
    );
}

proof fn lemma_first_job_fault(jobs: Seq<JobView>, i: int, at: int)
    requires
        0 <= i <= at < jobs.len(),
        forall|k: int| i <= k < at ==> cron::job_fault(#[trigger] jobs[k]) is None,
        forall|j: int, k: int|
            #![trigger jobs[j], jobs[k]]
            0 <= j < k < at ==> jobs[j].id != jobs[k].id,
    ensures
        config_rules::jobs_fault(jobs, i) == config_rules::jobs_fault(jobs, at),
    decreases at - i,
{
    if i < at {
        assert(cron::job_fault(jobs[i]) is None);
        if config_rules::is_duplicate(jobs, i) {
            let j = choose|j: int| 0 <= j < i && #[trigger] jobs[j].id == jobs[i].id;
            assert(jobs[j].id != jobs[i].id);
        }
        lemma_first_job_fault(jobs, i + 1, at);
    }
}

/// What is said of the first job that cannot be used: what is wrong with it, or that its id is
/// taken.
pub proof fn law_fault_of_a_job(c: AppSettingsView, env: Option<Seq<char>>, at: int, before: int)
    requires
        c.dispatch.ci_batch_window_secs >= 1,
        c.cron.poll_interval_secs >= 1,
        forall|k: int| 0 <= k < c.routes.len() ==> usable_route(#[trigger] c.routes[k]),
        forall|k: int|
            0 <= k < c.monitors.workspace.len() ==> usable_workspace(
                #[trigger] c.monitors.workspace[k],
                c.defaults.channel is Some || some_webhook(c.routes),
            ),
        0 <= at < c.cron.jobs.len(),
        forall|k: int| 0 <= k < at ==> cron::job_fault(#[trigger] c.cron.jobs[k]) is None,
        forall|j: int, k: int|
            #![trigger c.cron.jobs[j], c.cron.jobs[k]]
            0 <= j < k < at ==> c.cron.jobs[j].id != c.cron.jobs[k].id,
    ensures
        match cron::job_fault(c.cron.jobs[at]) {
            Some(e) => c.fault(env) == Some(
                "cron job #"@ + compose::decimal((at + 1) as nat) + ": "@ + e,
            ),
            None => 0 <= before < at && c.cron.jobs[before].id == c.cron.jobs[at].id ==> c.fault(
                env,
            ) == Some("duplicate cron job id '"@ + c.cron.jobs[at].id + "'"@),
        },
{
    lemma_webhooks(c.routes);
    lemma_usable_routes(c.routes, 0);
    lemma_usable_workspaces(
        c.monitors.workspace,
        0,
        c.defaults.channel is Some || some_webhook(c.routes),
    );
    lemma_first_job_fault(c.cron.jobs, 0, at);
    if 0 <= before < at && c.cron.jobs[before].id == c.cron.jobs[at].id {
        assert(config_rules::is_duplicate(c.cron.jobs, at));
    }
}

} // verus!
