//! The commands of the program and what they ask for.
use vstd::prelude::*;
use vstd::string::*;

use crate::codec;
use crate::codec::parse_json;
use crate::compose::cat2;
use crate::config_rules::default_config_path;
use crate::daemon;
use crate::daemon::{fresh_marks, FreshMarks, MarksView};
use crate::events;
use crate::events::{EventView, IncomingEvent, MessageFormat};
use crate::hook_install::{NativeInstallScope, NativeProvider};
use crate::json;
use crate::json::{Json, Node};
use crate::labels;
use crate::native_hooks;
use crate::normalize;
use crate::normalize::normalize_event_with;
use crate::paths;
use crate::table;
use crate::table::set_entry;
use crate::text;
use crate::text::{same, strip_prefix, trim};

verus! {

broadcast use {crate::json::group_trees, crate::text::views_push};

/// How often Enter is pressed again where nothing else is said.
pub const DEFAULT_RETRY_ENTER_COUNT: u32 = 4;

/// The pause before the first retry where nothing else is said.
pub const DEFAULT_RETRY_ENTER_DELAY_MS: u64 = 250;

/// The command line.
#[derive(Debug)]
pub struct Cli {
    /// The configuration file.
    pub config: Option<String>,
    pub command: Option<Commands>,
}

/// A command.
#[derive(Debug)]
pub enum Commands {
    /// Start the daemon.
    Start { port: Option<u16> },
    /// Ask the daemon how it is.
    Status,
    /// Write a first configuration.
    Setup { webhook: String },
    /// Send a message of one's own.
    Send { channel: Option<String>, message: String },
    /// Send an event of any kind.
    Emit(EmitArgs),
    Git { command: GitCommands },
    Github { command: GithubCommands },
    Agent { command: AgentCommands },
    Tmux { command: TmuxCommands },
    Omx { command: OmxCommands },
    Native { command: NativeCommands },
    Cron { command: CronCommands },
    Install { systemd: bool, skip_star_prompt: bool },
    Update { restart: bool },
    Uninstall { remove_systemd: bool, remove_config: bool },
    Plugin { command: PluginCommands },
    Config { command: Option<ConfigCommand> },
    Memory { command: MemoryCommands },
    Hooks { command: HooksCommands },
}

/// An event of any kind, with its fields as they stand on the command line.
#[derive(Debug)]
pub struct EmitArgs {
    pub event_type: String,
    pub fields: Vec<String>,
}

/// Events of git.
#[derive(Debug)]
pub enum GitCommands {
    Commit {
        repo: String,
        branch: String,
        commit: String,
        summary: String,
        channel: Option<String>,
    },
    BranchChanged {
        repo: String,
        old_branch: String,
        new_branch: String,
        channel: Option<String>,
    },
}

/// Events of GitHub.
#[derive(Debug)]
pub enum GithubCommands {
    IssueOpened { repo: String, number: u64, title: String, channel: Option<String> },
    PrStatusChanged {
        repo: String,
        number: u64,
        title: String,
        old_status: String,
        new_status: String,
        url: String,
        channel: Option<String>,
    },
}

/// Events in the life of an agent.
#[derive(Debug)]
pub enum AgentCommands {
    Started(AgentEventArgs),
    Blocked(AgentEventArgs),
    Finished(AgentEventArgs),
    Failed(AgentFailedArgs),
}

/// An event in the life of an agent.
#[derive(Debug)]
pub struct AgentEventArgs {
    pub agent_name: String,
    pub session_id: Option<String>,
    pub project: Option<String>,
    pub elapsed_secs: Option<u64>,
    pub summary: Option<String>,
    pub mention: Option<String>,
    pub channel: Option<String>,
}

/// The failure of an agent.
#[derive(Debug)]
pub struct AgentFailedArgs {
    pub event: AgentEventArgs,
    pub error_message: String,
}

/// Questions for plugins.
#[derive(Debug, Clone, Copy)]
pub enum PluginCommands {
    List,
}

/// Messages of OMX.
#[derive(Debug)]
pub enum OmxCommands {
    Hook(OmxHookArgs),
}

/// Messages of the hooks of coding tools.
#[derive(Debug)]
pub enum NativeCommands {
    Hook(NativeHookArgs),
}

/// Cron jobs.
#[derive(Debug)]
pub enum CronCommands {
    /// Run a job of the configuration now.
    Run { id: String },
}

/// Hooks of coding tools.
#[derive(Debug)]
pub enum HooksCommands {
    Install(HooksInstallArgs),
}

/// The installation of hooks.
#[derive(Debug)]
pub struct HooksInstallArgs {
    pub provider: NativeProvider,
    pub scope: NativeInstallScope,
    pub root: Option<String>,
    pub force: bool,
}

/// The envelope of an OMX hook: inline, in a file, or on standard input.
#[derive(Debug)]
pub struct OmxHookArgs {
    pub payload: Option<String>,
    pub file: Option<String>,
}

/// The message of a hook: inline, in a file, or on standard input.
#[derive(Debug)]
pub struct NativeHookArgs {
    pub provider: Option<String>,
    pub source: Option<String>,
    pub payload: Option<String>,
    pub file: Option<String>,
}

/// Terminal sessions.
#[derive(Debug)]
pub enum TmuxCommands {
    Keyword { session: String, keyword: String, line: String, channel: Option<String> },
    Stale {
        session: String,
        pane: String,
        minutes: u64,
        last_line: String,
        channel: Option<String>,
    },
    New(TmuxNewArgs),
    Watch(TmuxWatchArgs),
    /// List the sessions that the daemon watches.
    List(TmuxListArgs),
}

/// How the sessions are listed.
#[derive(Debug, Clone, Copy)]
pub struct TmuxListArgs {
    pub json: bool,
    pub compact: bool,
}

/// The format of a session's messages.
#[derive(Debug, Clone, Copy, PartialEq, Eq, Structural)]
pub enum TmuxWrapperFormat {
    Compact,
    Alert,
    Inline,
}

impl From<TmuxWrapperFormat> for MessageFormat {
    fn from(value: TmuxWrapperFormat) -> (r: Self) {
        match value {
            TmuxWrapperFormat::Compact => MessageFormat::Compact,
            TmuxWrapperFormat::Alert => MessageFormat::Alert,
            TmuxWrapperFormat::Inline => MessageFormat::Inline,
        }
    }
}

impl vstd::std_specs::convert::FromSpecImpl<TmuxWrapperFormat> for MessageFormat {
    open spec fn obeys_from_spec() -> bool {
        true
    }

    open spec fn from_spec(value: TmuxWrapperFormat) -> Self {
        match value {
            TmuxWrapperFormat::Compact => MessageFormat::Compact,
            TmuxWrapperFormat::Alert => MessageFormat::Alert,
            TmuxWrapperFormat::Inline => MessageFormat::Inline,
        }
    }
}

/// A new session.
#[derive(Debug)]
pub struct TmuxNewArgs {
    pub session: String,
    pub window_name: Option<String>,
    pub cwd: Option<String>,
    pub channel: Option<String>,
    pub mention: Option<String>,
    pub keywords: Vec<String>,
    pub stale_minutes: u64,
    pub format: Option<TmuxWrapperFormat>,
    pub attach: bool,
    pub retry_enter: bool,
    pub retry_enter_count: u32,
    pub retry_enter_delay_ms: u64,
    pub shell: Option<String>,
    pub command: Vec<String>,
}

/// A session that is there and is to be watched.
#[derive(Debug)]
pub struct TmuxWatchArgs {
    pub session: String,
    pub channel: Option<String>,
    pub mention: Option<String>,
    pub keywords: Vec<String>,
    pub stale_minutes: u64,
    pub format: Option<TmuxWrapperFormat>,
    pub retry_enter: bool,
}

/// Memory in files.
#[derive(Debug)]
pub enum MemoryCommands {
    Init(MemoryInitArgs),
    Status(MemoryStatusArgs),
}

/// The files of a new memory.
#[derive(Debug)]
pub struct MemoryInitArgs {
    pub root: Option<String>,
    pub project: Option<String>,
    pub channel: Option<String>,
    pub agent: Option<String>,
    pub date: Option<String>,
    pub force: bool,
}

/// The files of a memory that is looked for.
#[derive(Debug)]
pub struct MemoryStatusArgs {
    pub root: Option<String>,
    pub project: Option<String>,
    pub channel: Option<String>,
    pub agent: Option<String>,
    pub date: Option<String>,
}

/// What is done with the configuration.
#[derive(Debug, Clone, Copy, PartialEq, Eq, Structural)]
pub enum ConfigCommand {
    Interactive,
    Show,
    Path,
}

impl Default for ConfigCommand {
    fn default() -> (r: Self)
        ensures
            r == ConfigCommand::Interactive,
    {
        ConfigCommand::Interactive
    }
}

impl Cli {
    /// The configuration file: the one on the command line, the one of the
    /// environment, or one in the home directory.
    pub fn config_path(&self, asked: &Option<String>, home: &Option<String>) -> (r: String)
        ensures
            r@ == (match text::or_else(text::opt_text(self.config), text::opt_text(*asked)) {
                Some(path) => path,
                None => paths::below(
                    paths::below(labels::or_text(text::opt_text(*home), "."@), ".clawhip"@),
                    "config.toml"@,
                ),
            }),
    {
        match &self.config {
            Some(path) => path.clone(),
            None => default_config_path(asked, home),
        }
    }
}

// ---------------------------------------------------------------------------
// Events of any kind
// ---------------------------------------------------------------------------

/// The key under which a field of the command line is kept.
pub open spec fn emit_key(key: Seq<char>) -> Seq<char> {
    if key == "agent"@ {
        "agent_name"@
    } else if key == "session"@ {
        "session_id"@
    } else if key == "elapsed"@ {
        "elapsed_secs"@
    } else if key == "error"@ {
        "error_message"@
    } else {
        key
    }
}

/// The value of a field of the command line: the JSON that it holds, or its text.
pub open spec fn emit_value(raw: Seq<char>) -> Node {
    match codec::read_text(raw) {
        Ok(node) => node,
        Err(_) => Node::Text(raw),
    }
}

/// What the fields of the command line say so far.
pub struct EmitSoFar {
    pub channel: Option<Seq<char>>,
    pub mention: Option<Seq<char>>,
    pub format: Option<MessageFormat>,
    pub template: Option<Seq<char>>,
    pub payload: Option<Node>,
    pub members: Seq<(Seq<char>, Node)>,
}

/// What the fields say with one more.
pub open spec fn with_field(so_far: EmitSoFar, name: Seq<char>, raw: Seq<char>) -> Result<
    EmitSoFar,
    Seq<char>,
> {
    match text::after_prefix(name, "--"@) {
        None => Err("emit field names must start with --, got "@ + name),
        Some(bare) => {
            let key = emit_key(bare);
            if key == "channel"@ {
                Ok(EmitSoFar { channel: Some(raw), ..so_far })
            } else if key == "mention"@ {
                Ok(EmitSoFar { mention: Some(raw), ..so_far })
            } else if key == "format"@ {
                match events::format_of(raw) {
                    Ok(format) => Ok(EmitSoFar { format: Some(format), ..so_far }),
                    Err(e) => Err(e),
                }
            } else if key == "template"@ {
                Ok(EmitSoFar { template: Some(raw), ..so_far })
            } else if key == "payload"@ {
                match codec::read_text(raw) {
                    Ok(node) => Ok(EmitSoFar { payload: Some(node), ..so_far }),
                    Err(e) => Err(e),
                }
            } else {
                Ok(
                    EmitSoFar {
                        members: table::put(so_far.members, key, emit_value(raw)),
                        ..so_far
                    },
                )
            }
        },
    }
}

/// What the first fields say, names and values in turn; the first fault counts.
pub open spec fn emit_fields(fields: Seq<Seq<char>>, pairs: nat) -> Result<EmitSoFar, Seq<char>>
    decreases pairs,
{
    if pairs == 0 {
        Ok(
            EmitSoFar {
                channel: None,
                mention: None,
                format: None,
                template: None,
                payload: None,
                members: Seq::empty(),
            },
        )
    } else {
        let n = (pairs - 1) as nat;
        match emit_fields(fields, n) {
            Err(e) => Err(e),
            Ok(so_far) => with_field(so_far, fields[2 * n as int], fields[2 * n as int + 1]),
        }
    }
}

/// The payload of an event of any kind: the fields are members of the payload
/// that is given, where that is an object.
pub open spec fn emit_payload(so_far: EmitSoFar) -> Node {
    match so_far.payload {
        Some(node) => match node {
            Node::Object(m) => Node::Object(table::extended(m, so_far.members)),
            _ => node,
        },
        None => Node::Object(so_far.members),
    }
}

/// The event of any kind that the command line describes.
pub open spec fn emitted(event_type: Seq<char>, fields: Seq<Seq<char>>) -> Result<
    EventView,
    Seq<char>,
> {
    if fields.len() % 2 != 0 {
        Err("emit fields must be provided as --key value pairs"@)
    } else {
        match emit_fields(fields, fields.len() / 2) {
            Err(e) => Err(e),
            Ok(so_far) => Ok(
                EventView {
                    kind: event_type,
                    channel: so_far.channel,
                    mention: so_far.mention,
                    format: so_far.format,
                    template: so_far.template,
                    payload: emit_payload(so_far),
                },
            ),
        }
    }
}

proof fn lemma_fault_stays(fields: Seq<Seq<char>>, pairs: nat, more: nat)
    requires
        emit_fields(fields, pairs) is Err,
        pairs <= more,
    ensures
        emit_fields(fields, more) == emit_fields(fields, pairs),
    decreases more,
{
    if pairs < more {
        lemma_fault_stays(fields, pairs, (more - 1) as nat);
    }
}

fn normalize_emit_key(key: &str) -> (r: String)
    ensures
        r@ == emit_key(key@),
{
    if same(key, "agent") {
        "agent_name".to_owned()
    } else if same(key, "session") {
        "session_id".to_owned()
    } else if same(key, "elapsed") {
        "elapsed_secs".to_owned()
    } else if same(key, "error") {
        "error_message".to_owned()
    } else {
        key.to_owned()
    }
}

fn parse_emit_value(raw: &str) -> (r: Json)
    ensures
        r@ == emit_value(raw@),
{
    match parse_json(raw) {
        Ok(value) => value,
        Err(_) => Json::text(raw),
    }
}

struct EmitFields {
    channel: Option<String>,
    mention: Option<String>,
    format: Option<MessageFormat>,
    template: Option<String>,
    payload: Option<Json>,
    members: Vec<(String, Json)>,
}

impl View for EmitFields {
    type V = EmitSoFar;

    closed spec fn view(&self) -> EmitSoFar {
        EmitSoFar {
            channel: text::opt_text(self.channel),
            mention: text::opt_text(self.mention),
            format: self.format,
            template: text::opt_text(self.template),
            payload: table::opt_owned(self.payload),
            members: json::members(self.members@),
        }
    }
}

impl EmitFields {
    fn take_field(&mut self, name: &String, raw: &String) -> (r: Result<(), String>)
        ensures
            match with_field(old(self)@, name@, raw@) {
                Ok(next) => r is Ok && final(self)@ == next,
                Err(e) => r matches Err(m) && m@ == e,
            },
    {
        let bare = match strip_prefix(name.as_str(), "--") {
            Some(bare) => bare,
            None => {
                return Err(cat2("emit field names must start with --, got ", name.as_str()));
            },
        };
        let key = normalize_emit_key(bare);
        if same(key.as_str(), "channel") {
            self.channel = Some(raw.clone());
        } else if same(key.as_str(), "mention") {
            self.mention = Some(raw.clone());
        } else if same(key.as_str(), "format") {
            match MessageFormat::from_label(raw.as_str()) {
                Ok(format) => {
                    self.format = Some(format);
                },
                Err(e) => {
                    return Err(e);
                },
            }
        } else if same(key.as_str(), "template") {
            self.template = Some(raw.clone());
        } else if same(key.as_str(), "payload") {
            match parse_json(raw.as_str()) {
                Ok(value) => {
                    self.payload = Some(value);
                },
                Err(e) => {
                    return Err(e);
                },
            }
        } else {
            set_entry(&mut self.members, key.as_str(), parse_emit_value(raw.as_str()));
        }
        Ok(())
    }
}

fn extend(mut object: Vec<(String, Json)>, more: Vec<(String, Json)>) -> (r: Vec<(String, Json)>)
    ensures
        json::members(r@) == table::extended(json::members(object@), json::members(more@)),
{
    let ghost start = json::members(object@);
    let ghost all = json::members(more@);
    let mut i: usize = 0;
    while i < more.len()
        invariant
            i <= more.len(),
            all == json::members(more@),
            json::members(object@) == table::extended(start, all.take(i as int)),
        decreases more.len() - i,
    {
        assert(all.take(i + 1).drop_last() =~= all.take(i as int));
        assert(all.take(i + 1).last() == all[i as int]);
        set_entry(&mut object, more[i].0.as_str(), more[i].1.clone());
        i = i + 1;
    }
    assert(all.take(i as int) =~= all);
    object
}

impl EmitArgs {
    /// The event that these arguments describe.
    pub fn into_event(self) -> (r: Result<IncomingEvent, String>)
        ensures
            native_hooks::event_result(r) == emitted(self.event_type@, text::views(self.fields@)),
    {
        let ghost all = text::views(self.fields@);
        assert(all.len() == self.fields@.len());
        if self.fields.len() % 2 != 0 {
            return Err("emit fields must be provided as --key value pairs".to_owned());
        }
        let mut found = EmitFields {
            channel: None,
            mention: None,
            format: None,
            template: None,
            payload: None,
            members: Vec::new(),
        };
        assert(json::members(found.members@) =~= Seq::empty());
        let len: usize = self.fields.len();
        let count: usize = len / 2;
        let mut n: usize = 0;
        while n < count
            invariant
                n <= count,
                len == self.fields@.len(),
                count == len / 2,
                all == text::views(self.fields@),
                self.fields@.len() % 2 == 0,
                emit_fields(all, n as nat) == Ok::<EmitSoFar, Seq<char>>(found@),
            decreases count - n,
        {
            assert(all[2 * n as int] == self.fields@[2 * n as int]@);
            assert(all[2 * n as int + 1] == self.fields@[2 * n as int + 1]@);
            match found.take_field(&self.fields[2 * n], &self.fields[2 * n + 1]) {
                Ok(()) => {},
                Err(e) => {
                    proof {
                        lemma_fault_stays(all, (n + 1) as nat, count as nat);
                    }
                    return Err(e);
                },
            }
            n = n + 1;
        }
        let EmitFields { channel, mention, format, template, payload, members } = found;
        let payload = match payload {
            Some(Json::Object(object)) => Json::Object(extend(object, members)),
            Some(other) => other,
            None => Json::Object(members),
        };
        Ok(IncomingEvent { kind: self.event_type, channel, mention, format, template, payload })
    }
}

// ---------------------------------------------------------------------------
// Messages of hooks
// ---------------------------------------------------------------------------

/// Where the message of a hook is.
#[derive(Debug)]
pub enum PayloadSource {
    Inline(String),
    File(String),
    Stdin,
}

/// Where the message of a hook is, with texts for strings.
pub enum SourceView {
    Inline(Seq<char>),
    File(Seq<char>),
    Stdin,
}

impl View for PayloadSource {
    type V = SourceView;

    open spec fn view(&self) -> SourceView {
        match self {
            PayloadSource::Inline(s) => SourceView::Inline(s@),
            PayloadSource::File(s) => SourceView::File(s@),
            PayloadSource::Stdin => SourceView::Stdin,
        }
    }
}

/// Where the message of a hook is: inline or in a file, but not both, and else on
/// standard input, for which a dash stands too.
pub open spec fn source_of(
    command: Seq<char>,
    payload: Option<Seq<char>>,
    file: Option<Seq<char>>,
) -> Result<SourceView, Seq<char>> {
    match (payload, file) {
        (Some(_), Some(_)) => Err(
            "provide either --payload or --file for "@ + command + ", not both"@,
        ),
        (Some(s), None) => Ok(SourceView::Inline(s)),
        (None, Some(path)) => if path == "-"@ {
            Ok(SourceView::Stdin)
        } else {
            Ok(SourceView::File(path))
        },
        (None, None) => Ok(SourceView::Stdin),
    }
}

/// Where a message is, or why there is none.
pub open spec fn source_result(r: Result<PayloadSource, String>) -> Result<SourceView, Seq<char>> {
    match r {
        Ok(source) => Ok(source@),
        Err(e) => Err(e@),
    }
}

fn payload_source(command: &str, payload: &Option<String>, file: &Option<String>) -> (r: Result<
    PayloadSource,
    String,
>)
    ensures
        source_result(r) == source_of(command@, text::opt_text(*payload), text::opt_text(*file)),
{
    match (payload, file) {
        (Some(_), Some(_)) => Err(
            crate::compose::cat3(
                "provide either --payload or --file for ",
                command,
                ", not both",
            ),
        ),
        (Some(s), None) => Ok(PayloadSource::Inline(s.clone())),
        (None, Some(path)) => {
            if same(path.as_str(), "-") {
                Ok(PayloadSource::Stdin)
            } else {
                Ok(PayloadSource::File(path.clone()))
            }
        },
        (None, None) => Ok(PayloadSource::Stdin),
    }
}

/// The message that stands on standard input.
pub open spec fn stdin_payload(command: Seq<char>, input: Seq<char>) -> Result<Node, Seq<char>> {
    match text::meaningful(input) {
        None => Err(command + " expects a JSON payload via stdin, --payload, or --file"@),
        Some(s) => codec::read_text(s),
    }
}

/// The message of a hook in what was read for it.
pub open spec fn payload_in(command: Seq<char>, source: SourceView, content: Seq<char>) -> Result<
    Node,
    Seq<char>,
> {
    match source {
        SourceView::Inline(s) => codec::read_text(s),
        SourceView::File(_) => codec::read_text(content),
        SourceView::Stdin => stdin_payload(command, content),
    }
}

fn read_source(command: &str, source: &PayloadSource, content: &str) -> (r: Result<Json, String>)
    ensures
        codec::json_result(r) == payload_in(command@, source@, content@),
{
    match source {
        PayloadSource::Inline(s) => parse_json(s.as_str()),
        PayloadSource::File(_) => parse_json(content),
        PayloadSource::Stdin => {
            let trimmed = trim(content);
            if trimmed.is_empty() {
                Err(cat2(command, " expects a JSON payload via stdin, --payload, or --file"))
            } else {
                parse_json(trimmed)
            }
        },
    }
}

impl OmxHookArgs {
    /// Where the envelope is.
    pub fn payload_source(&self) -> (r: Result<PayloadSource, String>)
        ensures
            source_result(r) == source_of(
                "clawhip omx hook"@,
                text::opt_text(self.payload),
                text::opt_text(self.file),
            ),
    {
        payload_source("clawhip omx hook", &self.payload, &self.file)
    }

    /// Reads the envelope. `content` is what the file or standard input holds.
    pub fn read_payload(&self, content: &str) -> (r: Result<Json, String>)
        ensures
            codec::json_result(r) == (match source_of(
                "clawhip omx hook"@,
                text::opt_text(self.payload),
                text::opt_text(self.file),
            ) {
                Err(e) => Err(e),
                Ok(source) => payload_in("clawhip omx hook"@, source, content@),
            }),
    {
        match self.payload_source() {
            Ok(source) => read_source("clawhip omx hook", &source, content),
            Err(e) => Err(e),
        }
    }
}

/// A message with a member that it lacks.
pub open spec fn with_missing(node: Node, key: Seq<char>, value: Option<Seq<char>>) -> Node {
    if json::member(node, key) is None {
        node.with_opt_text(key, value)
    } else {
        node
    }
}

/// The message of a hook with what the command line says of its origin.
pub open spec fn with_origin(
    node: Node,
    provider: Option<Seq<char>>,
    source: Option<Seq<char>>,
) -> Node {
    with_missing(with_missing(node, "provider"@, provider), "source"@, source)
}

fn add_missing(payload: Json, key: &str, value: &Option<String>) -> (r: Json)
    ensures
        r@ == with_missing(payload@, key@, text::opt_text(*value)),
{
    if payload.get(key).is_none() {
        payload.with_opt_text(key, value)
    } else {
        payload
    }
}

impl NativeHookArgs {
    /// Where the message is.
    pub fn payload_source(&self) -> (r: Result<PayloadSource, String>)
        ensures
            source_result(r) == source_of(
                "clawhip native hook"@,
                text::opt_text(self.payload),
                text::opt_text(self.file),
            ),
    {
        payload_source("clawhip native hook", &self.payload, &self.file)
    }

    /// Reads the message and adds what the command line says of its origin.
    /// `content` is what the file or standard input holds.
    pub fn read_payload(&self, content: &str) -> (r: Result<Json, String>)
        ensures
            codec::json_result(r) == (match source_of(
                "clawhip native hook"@,
                text::opt_text(self.payload),
                text::opt_text(self.file),
            ) {
                Err(e) => Err(e),
                Ok(source) => match payload_in("clawhip native hook"@, source, content@) {
                    Err(e) => Err(e),
                    Ok(node) => Ok(
                        with_origin(
                            node,
                            text::opt_text(self.provider),
                            text::opt_text(self.source),
                        ),
                    ),
                },
            }),
    {
        match self.payload_source() {
            Ok(source) => match read_source("clawhip native hook", &source, content) {
                Ok(payload) => {
                    let payload = add_missing(payload, "provider", &self.provider);
                    Ok(add_missing(payload, "source", &self.source))
                },
                Err(e) => Err(e),
            },
            Err(e) => Err(e),
        }
    }
}

// ---------------------------------------------------------------------------
// What a command asks for
// ---------------------------------------------------------------------------

/// What the program has to do.
#[derive(Debug)]
pub enum Plan {
    /// Run the daemon.
    Daemon { port: Option<u16> },
    /// Show what the daemon says of itself.
    Health,
    /// Send an event to the daemon.
    Send(IncomingEvent),
    /// Write a configuration that leads to a webhook.
    Scaffold { webhook: String },
    NewSession(TmuxNewArgs),
    WatchSession(TmuxWatchArgs),
    ListSessions(TmuxListArgs),
    OmxHook(OmxHookArgs),
    NativeHook(NativeHookArgs),
    RunJob { id: String },
    Install { systemd: bool, skip_star_prompt: bool },
    Update { restart: bool },
    Uninstall { remove_systemd: bool, remove_config: bool },
    ListPlugins,
    EditConfig,
    ShowConfig,
    ShowConfigPath,
    InitMemory(MemoryInitArgs),
    MemoryStatus(MemoryStatusArgs),
    InstallHooks(HooksInstallArgs),
}

/// What the program has to do: send an event, or something else.
pub enum PlanView {
    Send(EventView),
    Other(Plan),
}

impl View for Plan {
    type V = PlanView;

    open spec fn view(&self) -> PlanView {
        match self {
            Plan::Send(event) => PlanView::Send(event@),
            _ => PlanView::Other(*self),
        }
    }
}

/// The event of an agent, in one of the states of its life.
pub open spec fn agent_event(kind: Seq<char>, status: Seq<char>, args: AgentEventArgs) -> EventView {
    events::plain_event(
        kind,
        text::opt_text(args.channel),
        events::agent_payload(
            args.agent_name@,
            status,
            text::opt_text(args.session_id),
            text::opt_text(args.project),
            args.elapsed_secs,
            text::opt_text(args.summary),
            text::opt_text(args.mention),
        ),
    )
}

/// The event of the failure of an agent.
pub open spec fn agent_failure(args: AgentFailedArgs) -> EventView {
    let event = agent_event("agent.failed"@, "failed"@, args.event);
    EventView {
        payload: event.payload.with_text("error_message"@, args.error_message@),
        ..event
    }
}

/// The event of a command of git.
pub open spec fn git_event(command: GitCommands) -> EventView {
    match command {
        GitCommands::Commit { repo, branch, commit, summary, channel } => events::plain_event(
            "git.commit"@,
            text::opt_text(channel),
            events::commit_payload(repo@, branch@, commit@, summary@),
        ),
        GitCommands::BranchChanged { repo, old_branch, new_branch, channel } => {
            events::plain_event(
                "git.branch-changed"@,
                text::opt_text(channel),
                json::empty().with_text("repo"@, repo@).with_text(
                    "old_branch"@,
                    old_branch@,
                ).with_text("new_branch"@, new_branch@),
            )
        },
    }
}

/// The event of a command of GitHub.
pub open spec fn github_event(command: GithubCommands) -> EventView {
    match command {
        GithubCommands::IssueOpened { repo, number, title, channel } => events::plain_event(
            "github.issue-opened"@,
            text::opt_text(channel),
            json::empty().with_text("repo"@, repo@).with_count("number"@, number).with_text(
                "title"@,
                title@,
            ),
        ),
        GithubCommands::PrStatusChanged {
            repo,
            number,
            title,
            old_status,
            new_status,
            url,
            channel,
        } => events::plain_event(
            "github.pr-status-changed"@,
            text::opt_text(channel),
            events::pr_status_payload(repo@, number, title@, old_status@, new_status@, url@),
        ),
    }
}

/// What a command for terminal sessions asks for.
pub open spec fn tmux_plan(command: TmuxCommands) -> PlanView {
    match command {
        TmuxCommands::Keyword { session, keyword, line, channel } => PlanView::Send(
            events::plain_event(
                "tmux.keyword"@,
                text::opt_text(channel),
                json::empty().with_text("session"@, session@).with_text(
                    "keyword"@,
                    keyword@,
                ).with_text("line"@, line@),
            ),
        ),
        TmuxCommands::Stale { session, pane, minutes, last_line, channel } => PlanView::Send(
            events::plain_event(
                "tmux.stale"@,
                text::opt_text(channel),
                json::empty().with_text("session"@, session@).with_text("pane"@, pane@).with_count(
                    "minutes"@,
                    minutes,
                ).with_text("last_line"@, last_line@),
            ),
        ),
        TmuxCommands::New(args) => PlanView::Other(Plan::NewSession(args)),
        TmuxCommands::Watch(args) => PlanView::Other(Plan::WatchSession(args)),
        TmuxCommands::List(args) => PlanView::Other(Plan::ListSessions(args)),
    }
}

/// What a command asks for; without one the daemon runs.
pub open spec fn planned(command: Option<Commands>) -> Result<PlanView, Seq<char>> {
    match command {
        None => Ok(PlanView::Other(Plan::Daemon { port: None })),
        Some(c) => match c {
            Commands::Start { port } => Ok(PlanView::Other(Plan::Daemon { port })),
            Commands::Status => Ok(PlanView::Other(Plan::Health)),
            Commands::Setup { webhook } => Ok(PlanView::Other(Plan::Scaffold { webhook })),
            Commands::Send { channel, message } => Ok(
                PlanView::Send(
                    events::plain_event(
                        "custom"@,
                        text::opt_text(channel),
                        json::empty().with_text("message"@, message@),
                    ),
                ),
            ),
            Commands::Emit(args) => match emitted(args.event_type@, text::views(args.fields@)) {
                Ok(event) => Ok(PlanView::Send(event)),
                Err(e) => Err(e),
            },
            Commands::Git { command } => Ok(PlanView::Send(git_event(command))),
            Commands::Github { command } => Ok(PlanView::Send(github_event(command))),
            Commands::Agent { command } => Ok(
                PlanView::Send(
                    match command {
                        AgentCommands::Started(args) => agent_event(
                            "agent.started"@,
                            "started"@,
                            args,
                        ),
                        AgentCommands::Blocked(args) => agent_event(
                            "agent.blocked"@,
                            "blocked"@,
                            args,
                        ),
                        AgentCommands::Finished(args) => agent_event(
                            "agent.finished"@,
                            "finished"@,
                            args,
                        ),
                        AgentCommands::Failed(args) => agent_failure(args),
                    },
                ),
            ),
            Commands::Tmux { command } => Ok(tmux_plan(command)),
            Commands::Omx { command } => match command {
                OmxCommands::Hook(args) => Ok(PlanView::Other(Plan::OmxHook(args))),
            },
            Commands::Native { command } => match command {
                NativeCommands::Hook(args) => Ok(PlanView::Other(Plan::NativeHook(args))),
            },
            Commands::Cron { command } => match command {
                CronCommands::Run { id } => Ok(PlanView::Other(Plan::RunJob { id })),
            },
            Commands::Install { systemd, skip_star_prompt } => Ok(
                PlanView::Other(Plan::Install { systemd, skip_star_prompt }),
            ),
            Commands::Update { restart } => Ok(PlanView::Other(Plan::Update { restart })),
            Commands::Uninstall { remove_systemd, remove_config } => Ok(
                PlanView::Other(Plan::Uninstall { remove_systemd, remove_config }),
            ),
            Commands::Plugin { command: _ } => Ok(PlanView::Other(Plan::ListPlugins)),
            Commands::Config { command } => Ok(
                PlanView::Other(
                    match command {
                        None => Plan::EditConfig,
                        Some(ConfigCommand::Interactive) => Plan::EditConfig,
                        Some(ConfigCommand::Show) => Plan::ShowConfig,
                        Some(ConfigCommand::Path) => Plan::ShowConfigPath,
                    },
                ),
            ),
            Commands::Memory { command } => match command {
                MemoryCommands::Init(args) => Ok(PlanView::Other(Plan::InitMemory(args))),
                MemoryCommands::Status(args) => Ok(PlanView::Other(Plan::MemoryStatus(args))),
            },
            Commands::Hooks { command } => match command {
                HooksCommands::Install(args) => Ok(PlanView::Other(Plan::InstallHooks(args))),
            },
        },
    }
}

/// A plan or an error, as they are.
pub open spec fn plan_result(r: Result<Plan, String>) -> Result<PlanView, Seq<char>> {
    match r {
        Ok(plan) => Ok(plan@),
        Err(e) => Err(e@),
    }
}

fn plan_git(command: GitCommands) -> (r: IncomingEvent)
    ensures
        r@ == git_event(command),
{
    match command {
        GitCommands::Commit { repo, branch, commit, summary, channel } => {
            IncomingEvent::git_commit(repo, branch, commit, summary, channel)
        },
        GitCommands::BranchChanged { repo, old_branch, new_branch, channel } => {
            IncomingEvent::git_branch_changed(repo, old_branch, new_branch, channel)
        },
    }
}

fn plan_github(command: GithubCommands) -> (r: IncomingEvent)
    ensures
        r@ == github_event(command),
{
    match command {
        GithubCommands::IssueOpened { repo, number, title, channel } => {
            IncomingEvent::github_issue_opened(repo, number, title, channel)
        },
        GithubCommands::PrStatusChanged {
            repo,
            number,
            title,
            old_status,
            new_status,
            url,
            channel,
        } => IncomingEvent::github_pr_status_changed(
            repo,
            number,
            title,
            old_status,
            new_status,
            url,
            channel,
        ),
    }
}

fn plan_agent(command: AgentCommands) -> (r: IncomingEvent)
    ensures
        r@ == (match command {
            AgentCommands::Started(args) => agent_event("agent.started"@, "started"@, args),
            AgentCommands::Blocked(args) => agent_event("agent.blocked"@, "blocked"@, args),
            AgentCommands::Finished(args) => agent_event("agent.finished"@, "finished"@, args),
            AgentCommands::Failed(args) => agent_failure(args),
        }),
{
    match command {
        AgentCommands::Started(args) => IncomingEvent::agent_started(
            args.agent_name,
            args.session_id,
            args.project,
            args.elapsed_secs,
            args.summary,
            args.mention,
            args.channel,
        ),
        AgentCommands::Blocked(args) => IncomingEvent::agent_blocked(
            args.agent_name,
            args.session_id,
            args.project,
            args.elapsed_secs,
            args.summary,
            args.mention,
            args.channel,
        ),
        AgentCommands::Finished(args) => IncomingEvent::agent_finished(
            args.agent_name,
            args.session_id,
            args.project,
            args.elapsed_secs,
            args.summary,
            args.mention,
            args.channel,
        ),
        AgentCommands::Failed(args) => IncomingEvent::agent_failed(
            args.event.agent_name,
            args.event.session_id,
            args.event.project,
            args.event.elapsed_secs,
            args.event.summary,
            args.error_message,
            args.event.mention,
            args.event.channel,
        ),
    }
}

fn plan_tmux(command: TmuxCommands) -> (r: Plan)
    ensures
        r@ == tmux_plan(command),
{
    match command {
        TmuxCommands::Keyword { session, keyword, line, channel } => Plan::Send(
            IncomingEvent::tmux_keyword(session, keyword, line, channel),
        ),
        TmuxCommands::Stale { session, pane, minutes, last_line, channel } => Plan::Send(
            IncomingEvent::tmux_stale(session, pane, minutes, last_line, channel),
        ),
        TmuxCommands::New(args) => Plan::NewSession(args),
        TmuxCommands::Watch(args) => Plan::WatchSession(args),
        TmuxCommands::List(args) => Plan::ListSessions(args),
    }
}

/// What a command asks for; without one the daemon runs.
pub fn plan(command: Option<Commands>) -> (r: Result<Plan, String>)
    ensures
        plan_result(r) == planned(command),
{
    let command = match command {
        Some(command) => command,
        None => {
            return Ok(Plan::Daemon { port: None });
        },
    };
    Ok(
        match command {
            Commands::Start { port } => Plan::Daemon { port },
            Commands::Status => Plan::Health,
            Commands::Setup { webhook } => Plan::Scaffold { webhook },
            Commands::Send { channel, message } => Plan::Send(
                IncomingEvent::custom(channel, message),
            ),
            Commands::Emit(args) => match args.into_event() {
                Ok(event) => Plan::Send(event),
                Err(e) => {
                    return Err(e);
                },
            },
            Commands::Git { command } => Plan::Send(plan_git(command)),
            Commands::Github { command } => Plan::Send(plan_github(command)),
            Commands::Agent { command } => Plan::Send(plan_agent(command)),
            Commands::Tmux { command } => plan_tmux(command),
            Commands::Omx { command: OmxCommands::Hook(args) } => Plan::OmxHook(args),
            Commands::Native { command: NativeCommands::Hook(args) } => Plan::NativeHook(args),
            Commands::Cron { command: CronCommands::Run { id } } => Plan::RunJob { id },
            Commands::Install { systemd, skip_star_prompt } => Plan::Install {
                systemd,
                skip_star_prompt,
            },
            Commands::Update { restart } => Plan::Update { restart },
            Commands::Uninstall { remove_systemd, remove_config } => Plan::Uninstall {
                remove_systemd,
                remove_config,
            },
            Commands::Plugin { command: _ } => Plan::ListPlugins,
            Commands::Config { command } => match command {
                None => Plan::EditConfig,
                Some(ConfigCommand::Interactive) => Plan::EditConfig,
                Some(ConfigCommand::Show) => Plan::ShowConfig,
                Some(ConfigCommand::Path) => Plan::ShowConfigPath,
            },
            Commands::Memory { command } => match command {
                MemoryCommands::Init(args) => Plan::InitMemory(args),
                MemoryCommands::Status(args) => Plan::MemoryStatus(args),
            },
            Commands::Hooks { command: HooksCommands::Install(args) } => Plan::InstallHooks(args),
        },
    )
}

/// An event that is ready to be sent: it is in normal form and can be typed.
pub open spec fn prepared(event: EventView, marks: MarksView) -> Result<EventView, Seq<char>> {
    let normalized = normalize::normalized(event, marks.id, marks.seen);
    match daemon::checked(normalized, marks) {
        Ok(_) => Ok(normalized),
        Err(e) => Err(e),
    }
}

/// Makes an event ready to be sent.
pub fn prepare_event_with(event: IncomingEvent, marks: &FreshMarks) -> (r: Result<
    IncomingEvent,
    String,
>)
    ensures
        native_hooks::event_result(r) == prepared(event@, marks@),
{
    let event = normalize_event_with(event, marks.id.clone(), marks.seen.clone());
    match daemon::check_event(&event, marks) {
        Ok(_) => Ok(event),
        Err(e) => Err(e),
    }
}

/// Makes an event ready to be sent now.
pub fn prepare_event(event: IncomingEvent) -> (r: Result<IncomingEvent, String>)
    ensures
        exists|marks: MarksView|
            marks.usable() && native_hooks::event_result(r) == #[trigger] prepared(event@, marks),
{
    let marks = fresh_marks();
    let r = prepare_event_with(event, &marks);
    assert(marks@.usable() && native_hooks::event_result(r) == prepared(event@, marks@));
    r
}

// ---------------------------------------------------------------------------
// Laws
// ---------------------------------------------------------------------------

/// An event that is ready to be sent is one that the daemon queues as it is.
pub proof fn law_prepared_event_is_queued(event: EventView, marks: MarksView, ready: EventView)
    requires
        prepared(event, marks) == Ok::<EventView, Seq<char>>(ready),
    ensures
        daemon::accepted(ready, marks) matches daemon::IntakeView::Queue { event: queued, reply }
            && queued == ready && reply.status == 202,
{
}

/// A member that the message of a hook has is not replaced by the command line.
pub proof fn law_origin_of_message_counts(
    node: Node,
    provider: Option<Seq<char>>,
    source: Option<Seq<char>>,
)
    requires
        json::member(node, "provider"@) is Some,
        json::member(node, "source"@) is Some,
    ensures
        with_origin(node, provider, source) == node,
{
}

} // verus!
