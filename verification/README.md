# clawhip

A notification gateway. It takes events from the command line, over HTTP, from git
repositories, terminal sessions, workspaces and cron jobs, leads each to the routes that
take it, and sends the messages to Discord and Slack.

The library decides and computes, and every function of it is proved with Verus against
the contract it carries. The program around it reads, sends, sleeps and spawns.

## The library (`src/`)

| Modules | What they hold |
| --- | --- |
| `text`, `scan`, `compose`, `numeral`, `glob`, `paths`, `components`, `table`, `labels`, `value`, `pieces` | texts, patterns, paths and tables in the order of their keys |
| `json`, `codec`, `wire`, `toml_text` | JSON trees, reading and writing them, events on the wire, TOML |
| `clock`, `schedule`, `cron` | the calendar, schedules and the jobs that are due |
| `events`, `normalize`, `compat`, `identity`, `native_hooks`, `hook_install` | events, what is known of them, hooks of coding tools |
| `template`, `dynamic`, `render`, `default_text` | the texts of events and the tokens in them |
| `config`, `config_rules`, `editor` | the configuration, its checks and the dialogue that edits it |
| `router`, `dispatch`, `dispatcher`, `discord` | routes, batches of CI jobs, deliveries, and when a message is sent again |
| `keywords`, `registry`, `tmux`, `tmux_list`, `tmux_wrapper`, `monitor`, `summarize` | terminal sessions and repositories that are watched |
| `workspace`, `workspace_diff`, `workspace_watch` | state files of workspaces |
| `cli`, `daemon`, `lifecycle` | what a command leads to, what a request is answered, how the program is installed |

Contracts speak of views: a text is a sequence of characters, a JSON value is a `Node`, a
table is a sequence of pairs in the order of the keys. Functions named `law_...` state
what holds of several functions together.

What is taken on trust is marked `external_body` or `assume_specification`, with a comment
that names the outside function: `serde_json` and `toml` (texts and values), `uuid`
(identifiers), `time` (moments and dates), and a few functions of the standard library.

## The program (`app/`)

`main.rs` runs what a command leads to; `daemon.rs`, `client.rs`, `sinks.rs`,
`dispatching.rs`, `sources.rs` and `workspaces.rs` are the daemon and its connections;
`settings.rs`, `sessions.rs` and `args.rs` hold the types that are read from files, the
wire and the command line.
