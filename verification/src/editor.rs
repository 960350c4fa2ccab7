//! Editing the configuration in a dialogue.
use vstd::prelude::*;
use vstd::string::*;

use crate::compose;
use crate::compose::{cat2, cat3, cat4, number};
use crate::config::{
    AppConfig, AppSettingsView, DaemonSettingsView, DefaultsSettingsView, DiscordSettingsView,
    ProvidersSettingsView,
};
use crate::config_rules;
use crate::events;
use crate::events::MessageFormat;
use crate::labels;
use crate::text;
use crate::text::{same, trim, trim_end};
use crate::value::meaningful;

verus! {

broadcast use crate::text::views_push;

/// What can be chosen in the dialogue.
#[derive(Debug, Clone, Copy, PartialEq, Eq, Structural)]
pub enum EditorChoice {
    BotToken,
    BaseUrl,
    DefaultChannel,
    DefaultFormat,
    Save,
    Discard,
    Hint,
    Unknown,
}

/// The choice that a line stands for.
pub open spec fn choice_of(line: Seq<char>) -> EditorChoice {
    let typed = text::trimmed(text::trim_right(line));
    if typed == "1"@ {
        EditorChoice::BotToken
    } else if typed == "2"@ {
        EditorChoice::BaseUrl
    } else if typed == "3"@ {
        EditorChoice::DefaultChannel
    } else if typed == "4"@ {
        EditorChoice::DefaultFormat
    } else if typed == "5"@ {
        EditorChoice::Save
    } else if typed == "6"@ {
        EditorChoice::Discard
    } else if typed == "7"@ {
        EditorChoice::Hint
    } else {
        EditorChoice::Unknown
    }
}

/// The choice that a line stands for.
pub fn editor_choice(line: &str) -> (r: EditorChoice)
    ensures
        r == choice_of(line@),
{
    let typed = trim(trim_end(line));
    if same(typed, "1") {
        EditorChoice::BotToken
    } else if same(typed, "2") {
        EditorChoice::BaseUrl
    } else if same(typed, "3") {
        EditorChoice::DefaultChannel
    } else if same(typed, "4") {
        EditorChoice::DefaultFormat
    } else if same(typed, "5") {
        EditorChoice::Save
    } else if same(typed, "6") {
        EditorChoice::Discard
    } else if same(typed, "7") {
        EditorChoice::Hint
    } else {
        EditorChoice::Unknown
    }
}

/// What is asked after a choice; none where nothing is.
pub open spec fn asked(c: AppSettingsView, choice: EditorChoice) -> Option<Seq<char>> {
    match choice {
        EditorChoice::BotToken => Some("Bot token"@),
        EditorChoice::BaseUrl => Some("Daemon base URL ["@ + c.daemon.base_url + "]"@),
        EditorChoice::DefaultChannel => Some("Default channel"@),
        EditorChoice::DefaultFormat => Some(
            "Format ["@ + events::label_of(c.defaults.format) + "] (compact/alert/inline/raw)"@,
        ),
        _ => None,
    }
}

/// The configuration after an answer to what was asked. A format that there is not
/// is refused.
pub open spec fn edited(c: AppSettingsView, choice: EditorChoice, line: Seq<char>) -> Result<
    AppSettingsView,
    Seq<char>,
> {
    let typed = text::trim_right(line);
    match choice {
        EditorChoice::BotToken => Ok(
            AppSettingsView {
                providers: ProvidersSettingsView {
                    discord: DiscordSettingsView {
                        bot_token: text::meaningful(typed),
                        ..c.providers.discord
                    },
                    ..c.providers
                },
                ..c
            },
        ),
        EditorChoice::BaseUrl => Ok(
            AppSettingsView {
                daemon: DaemonSettingsView { base_url: typed, ..c.daemon },
                ..c
            },
        ),
        EditorChoice::DefaultChannel => Ok(
            AppSettingsView {
                defaults: DefaultsSettingsView {
                    channel: text::meaningful(typed),
                    ..c.defaults
                },
                ..c
            },
        ),
        EditorChoice::DefaultFormat => if text::blank(typed) {
            Ok(c)
        } else {
            match events::format_of(text::trimmed(typed)) {
                Ok(format) => Ok(
                    AppSettingsView {
                        defaults: DefaultsSettingsView { format, ..c.defaults },
                        ..c
                    },
                ),
                Err(e) => Err(e),
            }
        },
        _ => Ok(c),
    }
}

/// The lines that sum a configuration up.
pub open spec fn summary(c: AppSettingsView, env: Option<Seq<char>>) -> Seq<Seq<char>> {
    seq![
        "Current config summary:"@,
        "  Discord token source: "@ + c.token_source(env),
        "  Daemon base URL: "@ + c.daemon.base_url,
        "  Bind host/port: "@ + c.daemon.bind_host + ":"@ + compose::decimal(c.daemon.port as nat),
        "  CI batch window: "@ + compose::decimal(c.dispatch.ci_batch_window_secs as nat) + "s"@,
        "  Routine batch window: "@ + (if c.dispatch.routine_batch_window_secs > 0 {
            compose::decimal(c.dispatch.routine_batch_window_secs as nat) + "s"@
        } else {
            "disabled"@
        }),
        "  Default channel: "@ + labels::or_text(c.defaults.channel, "<unset>"@),
        "  Webhook routes: "@ + compose::decimal(config_rules::webhook_count(c.routes)),
        "  Default format: "@ + events::label_of(c.defaults.format),
        "  Routes: "@ + compose::decimal(c.routes.len()),
        "  Git monitors: "@ + compose::decimal(c.monitors.git.repos.len()),
        "  Tmux monitors: "@ + compose::decimal(c.monitors.tmux.sessions.len()),
        "  Workspace monitors: "@ + compose::decimal(c.monitors.workspace.len()),
        "  Cron jobs: "@ + compose::decimal(c.cron.jobs.len()),
    ]
}

impl AppConfig {
    /// What is asked after a choice; none where nothing is.
    pub fn editor_question(&self, choice: EditorChoice) -> (r: Option<String>)
        ensures
            text::opt_text(r) == asked(self@, choice),
    {
        match choice {
            EditorChoice::BotToken => Some("Bot token".to_owned()),
            EditorChoice::BaseUrl => Some(
                cat3("Daemon base URL [", self.daemon.base_url.as_str(), "]"),
            ),
            EditorChoice::DefaultChannel => Some("Default channel".to_owned()),
            EditorChoice::DefaultFormat => Some(
                cat3(
                    "Format [",
                    self.defaults.format.as_str(),
                    "] (compact/alert/inline/raw)",
                ),
            ),
            _ => None,
        }
    }

    /// Takes in an answer to what was asked.
    pub fn edit(&mut self, choice: EditorChoice, line: &str) -> (r: Result<(), String>)
        ensures
            match edited(old(self)@, choice, line@) {
                Ok(c) => r is Ok && final(self)@ == c,
                Err(e) => (r matches Err(error) && error@ == e) && final(self)@ == old(self)@,
            },
    {
        let typed = trim_end(line);
        match choice {
            EditorChoice::BotToken => {
                self.providers.discord.bot_token = meaningful(Some(typed));
            },
            EditorChoice::BaseUrl => {
                self.daemon.base_url = typed.to_owned();
            },
            EditorChoice::DefaultChannel => {
                self.defaults.channel = meaningful(Some(typed));
            },
            EditorChoice::DefaultFormat => {
                let label = trim(typed);
                if !label.is_empty() {
                    match MessageFormat::from_label(label) {
                        Ok(format) => {
                            self.defaults.format = format;
                        },
                        Err(e) => return Err(e),
                    }
                }
            },
            _ => {},
        }
        Ok(())
    }

    /// The lines that sum this configuration up, given what the environment sets.
    pub fn summary_lines(&self, env: &Option<String>) -> (r: Vec<String>)
        ensures
            text::views(r@) == summary(self@, text::opt_text(*env)),
    {
        let mut out: Vec<String> = Vec::new();
        out.push("Current config summary:".to_owned());
        out.push(cat2("  Discord token source: ", self.discord_token_source(env)));
        out.push(cat2("  Daemon base URL: ", self.daemon.base_url.as_str()));
        let port = number(self.daemon.port as u64);
        out.push(
            cat4("  Bind host/port: ", self.daemon.bind_host.as_str(), ":", port.as_str()),
        );
        let window = number(self.dispatch.ci_batch_window_secs);
        out.push(cat3("  CI batch window: ", window.as_str(), "s"));
        let routine = if self.dispatch.routine_batch_window_secs > 0 {
            let secs = number(self.dispatch.routine_batch_window_secs);
            cat2(secs.as_str(), "s")
        } else {
            "disabled".to_owned()
        };
        out.push(cat2("  Routine batch window: ", routine.as_str()));
        let channel = match &self.defaults.channel {
            Some(channel) => channel.as_str(),
            None => "<unset>",
        };
        out.push(cat2("  Default channel: ", channel));
        let webhooks = number(self.webhook_route_count() as u64);
        out.push(cat2("  Webhook routes: ", webhooks.as_str()));
        out.push(cat2("  Default format: ", self.defaults.format.as_str()));
        let routes = number(self.routes.len() as u64);
        out.push(cat2("  Routes: ", routes.as_str()));
        let repos = number(self.monitors.git.repos.len() as u64);
        out.push(cat2("  Git monitors: ", repos.as_str()));
        let sessions = number(self.monitors.tmux.sessions.len() as u64);
        out.push(cat2("  Tmux monitors: ", sessions.as_str()));
        let workspaces = number(self.monitors.workspace.len() as u64);
        out.push(cat2("  Workspace monitors: ", workspaces.as_str()));
        let jobs = number(self.cron.jobs.len() as u64);
        out.push(cat2("  Cron jobs: ", jobs.as_str()));
        assert(text::views(out@) =~= summary(self@, text::opt_text(*env)));
        out
    }
}

// ---------------------------------------------------------------------------
// Laws
// ---------------------------------------------------------------------------

/// Routes, monitors and jobs are not touched in the dialogue.
pub proof fn law_editing_keeps_routes_and_monitors(
    c: AppSettingsView,
    choice: EditorChoice,
    line: Seq<char>,
)
    ensures
        edited(c, choice, line) matches Ok(after) ==> after.routes == c.routes && after.monitors
            == c.monitors && after.cron == c.cron && after.dispatch == c.dispatch,
{
}

/// Nothing is changed where nothing is asked.
pub proof fn law_nothing_asked_nothing_changed(
    c: AppSettingsView,
    choice: EditorChoice,
    line: Seq<char>,
)
    requires
        asked(c, choice) is None,
    ensures
        edited(c, choice, line) == Ok::<AppSettingsView, Seq<char>>(c),
{
}

} // verus!
