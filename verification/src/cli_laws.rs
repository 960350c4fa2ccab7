//! What the command line asks for.
use vstd::prelude::*;
use vstd::string::*;

use crate::cli;
use crate::cli::{
    AgentCommands, Commands, ConfigCommand, CronCommands, EmitSoFar, GitCommands, GithubCommands,
    HooksCommands, MemoryCommands, NativeCommands, OmxCommands, Plan, PlanView, SourceView,
    TmuxCommands,
};
use crate::codec;
use crate::daemon;
use crate::daemon::MarksView;
use crate::events;
use crate::events::EventView;
use crate::json;
use crate::json::Node;
use crate::json_laws;
use crate::normalize;
use crate::table;
use crate::text;

verus! {

/// Four fields of the command line have short names; every other goes by its own.
pub proof fn law_short_names_of_fields(key: Seq<char>)
    ensures
        cli::emit_key("agent"@) == "agent_name"@,
        cli::emit_key("session"@) == "session_id"@,
        cli::emit_key("elapsed"@) == "elapsed_secs"@,
        cli::emit_key("error"@) == "error_message"@,
        key != "agent"@ && key != "session"@ && key != "elapsed"@ && key != "error"@
            ==> cli::emit_key(key) == key,
{
    reveal_strlit("agent");
    reveal_strlit("session");
    reveal_strlit("elapsed");
    reveal_strlit("error");
    assert("agent"@.len() == 5);
    assert("agent"@[0] == 'a');
    assert("session"@.len() == 7);
    assert("session"@[0] == 's');
    assert("elapsed"@.len() == 7);
    assert("elapsed"@[0] == 'e');
    assert("error"@.len() == 5);
    assert("error"@[0] == 'e');
}

/// The key that a field of the command line names, behind its two dashes.
pub open spec fn key_at(fields: Seq<Seq<char>>, i: int) -> Option<Seq<char>> {
    match text::after_prefix(fields[2 * i], "--"@) {
        Some(bare) => Some(cli::emit_key(bare)),
        None => None,
    }
}

/// The last field that names a key is at a place.
pub open spec fn last_at(fields: Seq<Seq<char>>, n: nat, key: Seq<char>, i: int) -> bool {
    &&& 0 <= i < n
    &&& key_at(fields, i) == Some(key)
    &&& forall|j: int| i < j < n ==> #[trigger] key_at(fields, j) != Some(key)
}

/// No field names a key.
pub open spec fn unnamed(fields: Seq<Seq<char>>, n: nat, key: Seq<char>) -> bool {
    forall|j: int| 0 <= j < n ==> #[trigger] key_at(fields, j) != Some(key)
}

proof fn lemma_special()
    ensures
        "channel"@ != "mention"@,
        "channel"@ != "format"@,
        "channel"@ != "template"@,
        "channel"@ != "payload"@,
        "mention"@ != "format"@,
        "mention"@ != "template"@,
        "mention"@ != "payload"@,
        "format"@ != "template"@,
        "format"@ != "payload"@,
        "template"@ != "payload"@,
{
    reveal_strlit("channel");
    reveal_strlit("mention");
    reveal_strlit("format");
    reveal_strlit("template");
    reveal_strlit("payload");
    assert("channel"@.len() == 7);
    assert("channel"@[0] == 'c');
    assert("mention"@.len() == 7);
    assert("mention"@[0] == 'm');
    assert("format"@.len() == 6);
    assert("template"@.len() == 8);
    assert("payload"@.len() == 7);
    assert("payload"@[0] == 'p');
}

/// A key with a meaning of its own.
pub open spec fn is_special(key: Seq<char>) -> bool {
    key == "channel"@ || key == "mention"@ || key == "format"@ || key == "template"@ || key
        == "payload"@
}

spec fn holds_at(fields: Seq<Seq<char>>, n: nat, so_far: EmitSoFar, key: Seq<char>, i: int) -> bool {
    let raw = fields[2 * i + 1];
    &&& last_at(fields, n, key, i) ==> {
        &&& key == "channel"@ ==> so_far.channel == Some(raw)
        &&& key == "mention"@ ==> so_far.mention == Some(raw)
        &&& key == "template"@ ==> so_far.template == Some(raw)
        &&& key == "format"@ ==> events::format_of(raw) is Ok && so_far.format == Some(
            events::format_of(raw)->Ok_0,
        )
        &&& key == "payload"@ ==> codec::read_text(raw) is Ok && so_far.payload == Some(
            codec::read_text(raw)->Ok_0,
        )
        &&& !is_special(key) ==> table::lookup(so_far.members, key) == Some(cli::emit_value(raw))
    }
    &&& unnamed(fields, n, key) ==> {
        &&& key == "channel"@ ==> so_far.channel is None
        &&& key == "mention"@ ==> so_far.mention is None
        &&& key == "template"@ ==> so_far.template is None
        &&& key == "format"@ ==> so_far.format is None
        &&& key == "payload"@ ==> so_far.payload is None
        &&& !is_special(key) ==> table::lookup(so_far.members, key) is None
    }
}

proof fn lemma_fields(fields: Seq<Seq<char>>, n: nat, key: Seq<char>, i: int)
    requires
        cli::emit_fields(fields, n) is Ok,
    ensures
        holds_at(fields, n, cli::emit_fields(fields, n)->Ok_0, key, i),
    decreases n,
{
    lemma_special();
    if n > 0 {
        let k = (n - 1) as nat;
        lemma_fields(fields, k, key, i);
        let before = cli::emit_fields(fields, k)->Ok_0;
        let name = fields[2 * k as int];
        let raw = fields[2 * k as int + 1];
        let own = key_at(fields, k as int);
        assert(own is Some);
        table::law_put_then_lookup(before.members, own->0, cli::emit_value(raw), key);
        if last_at(fields, n, key, i) {
            if i < k {
                assert(key_at(fields, k as int) != Some(key));
                assert forall|j: int| i < j < k implies #[trigger] key_at(fields, j) != Some(
                    key,
                ) by {}
                assert(last_at(fields, k, key, i));
            }
        }
        if unnamed(fields, n, key) {
            assert(key_at(fields, k as int) != Some(key));
            assert forall|j: int| 0 <= j < k implies #[trigger] key_at(fields, j) != Some(key) by {}
            assert(unnamed(fields, k, key));
        }
    }
}

proof fn lemma_extended(
    m: Seq<(Seq<char>, Node)>,
    more: Seq<(Seq<char>, Node)>,
    key: Seq<char>,
)
    ensures
        table::lookup(table::extended(m, more), key) == (if table::lookup(more, key) is Some {
            table::lookup(more, key)
        } else {
            table::lookup(m, key)
        }),
    decreases more.len(),
{
    if more.len() > 0 {
        lemma_extended(m, more.drop_last(), key);
        table::law_put_then_lookup(
            table::extended(m, more.drop_last()),
            more.last().0,
            more.last().1,
            key,
        );
    }
}

/// The event that is described on the command line is of the kind that is named; of two values
/// for one field the last counts. Five fields say what the event is, and every other is a member
/// of its payload: JSON where it is any, and a text where not. Where a payload is given, the
/// members are added to it, and replace what it says of them.
pub proof fn law_described_event(
    event_type: Seq<char>,
    fields: Seq<Seq<char>>,
    key: Seq<char>,
    i: int,
)
    requires
        cli::emitted(event_type, fields) is Ok,
    ensures
        ({
            let e = cli::emitted(event_type, fields)->Ok_0;
            let n = fields.len() / 2;
            let raw = fields[2 * i + 1];
            let value = match codec::read_text(raw) {
                Ok(node) => node,
                Err(_) => Node::Text(raw),
            };
            &&& e.kind == event_type
            &&& fields.len() == 2 * n
            &&& last_at(fields, n, key, i) ==> {
                &&& key == "channel"@ ==> e.channel == Some(raw)
                &&& key == "mention"@ ==> e.mention == Some(raw)
                &&& key == "template"@ ==> e.template == Some(raw)
                &&& key == "format"@ ==> events::format_of(raw) is Ok && e.format == Some(
                    events::format_of(raw)->Ok_0,
                )
                &&& !is_special(key) && (unnamed(fields, n, "payload"@) || e.payload is Object)
                    ==> json::member(e.payload, key) == Some(value)
                &&& key == "payload"@ ==> match codec::read_text(raw) {
                    Ok(Node::Object(_)) => e.payload is Object,
                    Ok(node) => e.payload == node,
                    Err(_) => false,
                }
            }
            &&& unnamed(fields, n, key) ==> {
                &&& key == "channel"@ ==> e.channel is None
                &&& key == "mention"@ ==> e.mention is None
                &&& key == "template"@ ==> e.template is None
                &&& key == "format"@ ==> e.format is None
                &&& key == "payload"@ ==> e.payload is Object
                &&& !is_special(key) && unnamed(fields, n, "payload"@) ==> json::member(
                    e.payload,
                    key,
                ) is None
                &&& !is_special(key) && last_at(fields, n, "payload"@, i) ==> json::member(
                    e.payload,
                    key,
                ) == json::member(codec::read_text(raw)->Ok_0, key)
            }
        }),
{
    let n = fields.len() / 2;
    lemma_special();
    lemma_fields(fields, n, key, i);
    lemma_fields(fields, n, "payload"@, i);
    let s = cli::emit_fields(fields, n)->Ok_0;
    match s.payload {
        Some(Node::Object(m)) => {
            lemma_extended(m, s.members, key);
        },
        _ => {},
    }
}

/// Fields come in pairs, and their names begin with two dashes.
pub proof fn law_bad_fields_are_refused(event_type: Seq<char>, fields: Seq<Seq<char>>)
    ensures
        fields.len() % 2 == 1 ==> cli::emitted(event_type, fields) == Err::<EventView, Seq<char>>(
            "emit fields must be provided as --key value pairs"@,
        ),
        fields.len() == 2 && !text::begins_with(fields[0], "--"@) ==> cli::emitted(
            event_type,
            fields,
        ) == Err::<EventView, Seq<char>>(
            "emit field names must start with --, got "@ + fields[0],
        ),
{
    reveal_with_fuel(cli::emit_fields, 3);
}

/// The message of a hook stands on the command line, or in a file, or on standard input; it
/// cannot stand in two of them.
pub proof fn law_where_a_message_is(
    command: Seq<char>,
    payload: Option<Seq<char>>,
    file: Option<Seq<char>>,
    content: Seq<char>,
)
    ensures
        match cli::source_of(command, payload, file) {
            Err(e) => payload is Some
                && file is Some
                && e == "provide either --payload or --file for "@
                + command + ", not both"@,
            Ok(source) => {
                &&& payload is None || file is None
                &&& payload is Some ==> source == SourceView::Inline(payload->0)
                &&& payload is None && file is Some && file->0 != "-"@ ==> source
                    == SourceView::File(file->0)
                &&& payload is None && (file is None || file->0 == "-"@) ==> source is Stdin
                &&& payload is Some ==> cli::payload_in(command, source, content)
                    == codec::read_text(payload->0)
                &&& source is File ==> cli::payload_in(command, source, content)
                    == codec::read_text(content)
                &&& source is Stdin && text::trimmed(content).len() > 0 ==> cli::payload_in(
                    command,
                    source,
                    content,
                ) == codec::read_text(text::trimmed(content))
                &&& source is Stdin && text::trimmed(content).len() == 0 ==> cli::payload_in(
                    command,
                    source,
                    content,
                ) == Err::<Node, Seq<char>>(
                    command + " expects a JSON payload via stdin, --payload, or --file"@,
                )
            },
        },
{
}

/// What the command line says of the origin of a message is added where the message says
/// nothing of it.
pub proof fn law_origin_is_added(
    node: Node,
    provider: Option<Seq<char>>,
    source: Option<Seq<char>>,
    key: Seq<char>,
)
    requires
        node is Object,
    ensures
        ({
            let after = cli::with_origin(node, provider, source);
            &&& json::member(node, "provider"@) is None ==> json::member(after, "provider"@)
                == match provider {
                Some(s) => Some(Node::Text(s)),
                None => None,
            }
            &&& json::member(node, "source"@) is None ==> json::member(after, "source"@)
                == match source {
                Some(s) => Some(Node::Text(s)),
                None => None,
            }
            &&& json::member(node, key) is Some ==> json::member(after, key) == json::member(
                node,
                key,
            )
            &&& key != "provider"@ && key != "source"@ ==> json::member(after, key)
                == json::member(node, key)
        }),
{
    broadcast use {json_laws::group_members, json_laws::group_optional_members};

    reveal_strlit("provider");
    reveal_strlit("source");
    assert("provider"@.len() == 8);
    assert("source"@.len() == 6);
}

/// An event with a kind and a channel alone besides its payload.
pub open spec fn is_plain(e: EventView, kind: Seq<char>, channel: Option<String>) -> bool {
    &&& e.kind == kind
    &&& e.channel == (match channel {
        Some(s) => Some(s@),
        None => None,
    })
    &&& e.mention is None
    &&& e.format is None
    &&& e.template is None
}

/// A text of a payload.
pub open spec fn says(e: EventView, key: Seq<char>, value: Seq<char>) -> bool {
    json::member(e.payload, key) == Some(Node::Text(value))
}

/// A command for git or GitHub sends the event that it describes.
pub proof fn law_repository_commands(git: GitCommands, github: GithubCommands)
    ensures
        ({
            let e = cli::git_event(git);
            match git {
                GitCommands::Commit { repo, branch, commit, summary, channel } => {
                    &&& is_plain(e, "git.commit"@, channel)
                    &&& says(e, "repo"@, repo@)
                    &&& says(e, "branch"@, branch@)
                    &&& says(e, "commit"@, commit@)
                    &&& says(e, "short_commit"@, text::first_chars(commit@, 7))
                    &&& says(e, "summary"@, summary@)
                },
                GitCommands::BranchChanged { repo, old_branch, new_branch, channel } => {
                    &&& is_plain(e, "git.branch-changed"@, channel)
                    &&& says(e, "repo"@, repo@)
                    &&& says(e, "old_branch"@, old_branch@)
                    &&& says(e, "new_branch"@, new_branch@)
                },
            }
        }),
        ({
            let e = cli::github_event(github);
            match github {
                GithubCommands::IssueOpened { repo, number, title, channel } => {
                    &&& is_plain(e, "github.issue-opened"@, channel)
                    &&& says(e, "repo"@, repo@)
                    &&& json::member(e.payload, "number"@) == Some(json::whole(number))
                    &&& says(e, "title"@, title@)
                },
                GithubCommands::PrStatusChanged {
                    repo,
                    number,
                    title,
                    old_status,
                    new_status,
                    url,
                    channel,
                } => {
                    &&& is_plain(e, "github.pr-status-changed"@, channel)
                    &&& says(e, "repo"@, repo@)
                    &&& json::member(e.payload, "number"@) == Some(json::whole(number))
                    &&& says(e, "title"@, title@)
                    &&& says(e, "old_status"@, old_status@)
                    &&& says(e, "new_status"@, new_status@)
                    &&& says(e, "url"@, url@)
                },
            }
        }),
        cli::planned(Some(Commands::Git { command: git })) == Ok::<PlanView, Seq<char>>(
            PlanView::Send(cli::git_event(git)),
        ),
        cli::planned(Some(Commands::Github { command: github })) == Ok::<PlanView, Seq<char>>(
            PlanView::Send(cli::github_event(github)),
        ),
{
    broadcast use json_laws::group_members;

    reveal_strlit("repo");
    reveal_strlit("branch");
    reveal_strlit("commit");
    reveal_strlit("short_commit");
    reveal_strlit("summary");
    reveal_strlit("old_branch");
    reveal_strlit("new_branch");
    reveal_strlit("number");
    reveal_strlit("title");
    reveal_strlit("old_status");
    reveal_strlit("new_status");
    reveal_strlit("url");
    assert("repo"@.len() == 4);
    assert("branch"@.len() == 6);
    assert("branch"@[0] == 'b');
    assert("commit"@.len() == 6);
    assert("commit"@[0] == 'c');
    assert("short_commit"@.len() == 12);
    assert("summary"@.len() == 7);
    assert("old_branch"@.len() == 10);
    assert("old_branch"@[0] == 'o');
    assert("old_branch"@[4] == 'b');
    assert("new_branch"@.len() == 10);
    assert("new_branch"@[0] == 'n');
    assert("new_branch"@[4] == 'b');
    assert("number"@.len() == 6);
    assert("number"@[0] == 'n');
    assert("title"@.len() == 5);
    assert("old_status"@.len() == 10);
    assert("old_status"@[0] == 'o');
    assert("old_status"@[4] == 's');
    assert("new_status"@.len() == 10);
    assert("new_status"@[0] == 'n');
    assert("new_status"@[4] == 's');
    assert("url"@.len() == 3);
}

/// A command for an agent sends the event of its state.
pub proof fn law_agent_commands(command: AgentCommands)
    ensures
        match cli::planned(Some(Commands::Agent { command })) {
            Ok(PlanView::Send(e)) => {
                let args = match command {
                    AgentCommands::Started(a) => a,
                    AgentCommands::Blocked(a) => a,
                    AgentCommands::Finished(a) => a,
                    AgentCommands::Failed(a) => a.event,
                };
                let state = match command {
                    AgentCommands::Started(_) => "started"@,
                    AgentCommands::Blocked(_) => "blocked"@,
                    AgentCommands::Finished(_) => "finished"@,
                    AgentCommands::Failed(_) => "failed"@,
                };
                &&& is_plain(e, "agent."@ + state, args.channel)
                &&& says(e, "agent_name"@, args.agent_name@)
                &&& says(e, "status"@, state)
                &&& args.session_id is Some ==> says(e, "session_id"@, args.session_id->0@)
                &&& args.project is Some ==> says(e, "project"@, args.project->0@)
                &&& args.summary is Some ==> says(e, "summary"@, args.summary->0@)
                &&& args.mention is Some ==> says(e, "mention"@, args.mention->0@)
                &&& args.elapsed_secs is Some ==> json::member(e.payload, "elapsed_secs"@) == Some(
                    json::whole(args.elapsed_secs->0),
                )
                &&& match command {
                    AgentCommands::Failed(a) => says(e, "error_message"@, a.error_message@),
                    _ => json::member(e.payload, "error_message"@) is None,
                }
            },
            _ => false,
        },
{
    broadcast use {json_laws::group_members, json_laws::group_optional_members};

    lemma_agent_kinds();
    reveal_strlit("agent_name");
    reveal_strlit("status");
    reveal_strlit("session_id");
    reveal_strlit("project");
    reveal_strlit("elapsed_secs");
    reveal_strlit("summary");
    reveal_strlit("mention");
    reveal_strlit("error_message");
    assert("agent_name"@.len() == 10);
    assert("agent_name"@[0] == 'a');
    assert("status"@.len() == 6);
    assert("session_id"@.len() == 10);
    assert("session_id"@[0] == 's');
    assert("project"@.len() == 7);
    assert("project"@[0] == 'p');
    assert("elapsed_secs"@.len() == 12);
    assert("summary"@.len() == 7);
    assert("summary"@[0] == 's');
    assert("mention"@.len() == 7);
    assert("mention"@[0] == 'm');
    assert("error_message"@.len() == 13);
}

proof fn lemma_agent_kinds()
    ensures
        "agent.started"@ == "agent."@ + "started"@,
        "agent.blocked"@ == "agent."@ + "blocked"@,
        "agent.finished"@ == "agent."@ + "finished"@,
        "agent.failed"@ == "agent."@ + "failed"@,
{
    reveal_strlit("agent.");
    reveal_strlit("started");
    reveal_strlit("agent.started");
    assert("agent.started"@ =~= "agent."@ + "started"@);
    reveal_strlit("blocked");
    reveal_strlit("agent.blocked");
    assert("agent.blocked"@ =~= "agent."@ + "blocked"@);
    reveal_strlit("finished");
    reveal_strlit("agent.finished");
    assert("agent.finished"@ =~= "agent."@ + "finished"@);
    reveal_strlit("failed");
    reveal_strlit("agent.failed");
    assert("agent.failed"@ =~= "agent."@ + "failed"@);
}

/// A command for terminal sessions sends the event that it describes, or starts, watches or
/// lists sessions.
pub proof fn law_session_commands(command: TmuxCommands)
    ensures
        match (command, cli::planned(Some(Commands::Tmux { command }))) {
            (
                TmuxCommands::Keyword { session, keyword, line, channel },
                Ok(PlanView::Send(e)),
            ) => {
                &&& is_plain(e, "tmux.keyword"@, channel)
                &&& says(e, "session"@, session@)
                &&& says(e, "keyword"@, keyword@)
                &&& says(e, "line"@, line@)
            },
            (
                TmuxCommands::Stale { session, pane, minutes, last_line, channel },
                Ok(PlanView::Send(e)),
            ) => {
                &&& is_plain(e, "tmux.stale"@, channel)
                &&& says(e, "session"@, session@)
                &&& says(e, "pane"@, pane@)
                &&& json::member(e.payload, "minutes"@) == Some(json::whole(minutes))
                &&& says(e, "last_line"@, last_line@)
            },
            (TmuxCommands::New(args), Ok(PlanView::Other(plan))) => plan == Plan::NewSession(args),
            (TmuxCommands::Watch(args), Ok(PlanView::Other(plan))) => plan == Plan::WatchSession(
                args,
            ),
            (TmuxCommands::List(args), Ok(PlanView::Other(plan))) => plan == Plan::ListSessions(
                args,
            ),
            _ => false,
        },
{
    broadcast use json_laws::group_members;

    reveal_strlit("session");
    reveal_strlit("keyword");
    reveal_strlit("line");
    reveal_strlit("pane");
    reveal_strlit("minutes");
    reveal_strlit("last_line");
    assert("session"@.len() == 7);
    assert("session"@[0] == 's');
    assert("keyword"@.len() == 7);
    assert("keyword"@[0] == 'k');
    assert("line"@.len() == 4);
    assert("line"@[0] == 'l');
    assert("pane"@.len() == 4);
    assert("pane"@[0] == 'p');
    assert("minutes"@.len() == 7);
    assert("minutes"@[0] == 'm');
    assert("last_line"@.len() == 9);
}

/// A message of one's own is sent as it is, and an event of any kind as it is described.
pub proof fn law_commands_that_send(
    channel: Option<String>,
    message: String,
    args: cli::EmitArgs,
)
    ensures
        match cli::planned(Some(Commands::Send { channel, message })) {
            Ok(PlanView::Send(e)) => is_plain(e, "custom"@, channel) && says(
                e,
                "message"@,
                message@,
            ),
            _ => false,
        },
        match (
            cli::emitted(args.event_type@, text::views(args.fields@)),
            cli::planned(Some(Commands::Emit(args))),
        ) {
            (Ok(e), Ok(PlanView::Send(sent))) => sent == e,
            (Err(e), Err(said)) => said == e,
            _ => false,
        },
{
    broadcast use json_laws::group_members;

}

/// What every other command asks for; without one the daemon runs.
pub proof fn law_other_commands(command: Option<Commands>)
    ensures
        match (command, cli::planned(command)) {
            (None, r) => r == Ok::<PlanView, Seq<char>>(
                PlanView::Other(Plan::Daemon { port: None }),
            ),
            (Some(Commands::Start { port }), r) => r == Ok::<PlanView, Seq<char>>(
                PlanView::Other(Plan::Daemon { port }),
            ),
            (Some(Commands::Status), r) => r == Ok::<PlanView, Seq<char>>(
                PlanView::Other(Plan::Health),
            ),
            (Some(Commands::Setup { webhook }), r) => r == Ok::<PlanView, Seq<char>>(
                PlanView::Other(Plan::Scaffold { webhook }),
            ),
            (Some(Commands::Omx { command: OmxCommands::Hook(args) }), r) => r == Ok::<
                PlanView,
                Seq<char>,
            >(PlanView::Other(Plan::OmxHook(args))),
            (Some(Commands::Native { command: NativeCommands::Hook(args) }), r) => r == Ok::<
                PlanView,
                Seq<char>,
            >(PlanView::Other(Plan::NativeHook(args))),
            (Some(Commands::Cron { command: CronCommands::Run { id } }), r) => r == Ok::<
                PlanView,
                Seq<char>,
            >(PlanView::Other(Plan::RunJob { id })),
            (Some(Commands::Install { systemd, skip_star_prompt }), r) => r == Ok::<
                PlanView,
                Seq<char>,
            >(PlanView::Other(Plan::Install { systemd, skip_star_prompt })),
            (Some(Commands::Update { restart }), r) => r == Ok::<PlanView, Seq<char>>(
                PlanView::Other(Plan::Update { restart }),
            ),
            (Some(Commands::Uninstall { remove_systemd, remove_config }), r) => r == Ok::<
                PlanView,
                Seq<char>,
            >(PlanView::Other(Plan::Uninstall { remove_systemd, remove_config })),
            (Some(Commands::Plugin { command: _ }), r) => r == Ok::<PlanView, Seq<char>>(
                PlanView::Other(Plan::ListPlugins),
            ),
            (Some(Commands::Config { command: Some(ConfigCommand::Show) }), r) => r == Ok::<
                PlanView,
                Seq<char>,
            >(PlanView::Other(Plan::ShowConfig)),
            (Some(Commands::Config { command: Some(ConfigCommand::Path) }), r) => r == Ok::<
                PlanView,
                Seq<char>,
            >(PlanView::Other(Plan::ShowConfigPath)),
            (Some(Commands::Config { command: _ }), r) => r == Ok::<PlanView, Seq<char>>(
                PlanView::Other(Plan::EditConfig),
            ),
            (Some(Commands::Memory { command: MemoryCommands::Init(args) }), r) => r == Ok::<
                PlanView,
                Seq<char>,
            >(PlanView::Other(Plan::InitMemory(args))),
            (Some(Commands::Memory { command: MemoryCommands::Status(args) }), r) => r == Ok::<
                PlanView,
                Seq<char>,
            >(PlanView::Other(Plan::MemoryStatus(args))),
            (Some(Commands::Hooks { command: HooksCommands::Install(args) }), r) => r == Ok::<
                PlanView,
                Seq<char>,
            >(PlanView::Other(Plan::InstallHooks(args))),
            _ => true,
        },
{
}

/// An event is sent in normal form; one that cannot be typed is not sent.
pub proof fn law_event_is_prepared(event: EventView, marks: MarksView)
    ensures
        ({
            let normal = normalize::normalized(event, marks.id, marks.seen);
            match (daemon::checked(normal, marks), cli::prepared(event, marks)) {
                (Ok(_), Ok(e)) => e == normal,
                (Err(e), Err(said)) => said == e,
                _ => false,
            }
        }),
{
}

} // verus!
