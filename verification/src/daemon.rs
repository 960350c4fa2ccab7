//! What the daemon answers to those who send it events and questions.
use vstd::prelude::*;
use vstd::string::*;

use crate::compat;
use crate::compat::{envelope_with, incoming_event_from_omx_hook_envelope_json, EnvelopeView};
use crate::compose;
use crate::compose::{cat3, number};
use crate::config::{AppConfig, AppSettingsView};
use crate::config_rules;
use crate::events;
use crate::events::{EventView, IncomingEvent, MessageFormat};
use crate::identity;
use crate::identity::{current_timestamp_rfc3339, fresh_event_id};
use crate::json;
use crate::json::{Json, Node};
use crate::native_hooks;
use crate::native_hooks::incoming_event_from_native_hook_json;
use crate::normalize;
use crate::normalize::normalize_event_with;
use crate::registry::RegisteredTmuxSession;
use crate::table;
use crate::table::set_entry;
use crate::text;
use crate::text::same;
use crate::wire;
use crate::wire::event_from_json;

verus! {

broadcast use crate::json::group_trees;

/// The version of the program.
pub const VERSION: &'static str = "0.5.4";

// ---------------------------------------------------------------------------
// Answers
// ---------------------------------------------------------------------------

/// An answer: a status of HTTP and a body.
#[derive(Debug)]
pub struct HttpReply {
    pub status: u16,
    pub body: Json,
}

/// An answer.
pub struct ReplyView {
    pub status: u16,
    pub body: Node,
}

impl View for HttpReply {
    type V = ReplyView;

    open spec fn view(&self) -> ReplyView {
        ReplyView { status: self.status, body: self.body@ }
    }
}

/// An object that says whether something went well.
pub open spec fn told(ok: bool) -> Node {
    json::empty().with("ok"@, Node::Bool(ok))
}

/// The answer that reports an error.
pub open spec fn refusal(status: u16, error: Seq<char>) -> ReplyView {
    ReplyView { status, body: told(false).with_text("error"@, error) }
}

fn tell(ok: bool) -> (r: Json)
    ensures
        r@ == told(ok),
{
    Json::object().with_flag("ok", ok)
}

/// The answer that reports an error.
pub fn refuse(status: u16, error: &str) -> (r: HttpReply)
    ensures
        r@ == refusal(status, error@),
{
    HttpReply { status, body: tell(false).with_text("error", error) }
}

/// What becomes of a request: it is answered at once, or an event is put into
/// the queue and the request answered once it is there.
#[derive(Debug)]
pub enum Intake {
    Reply(HttpReply),
    Queue { event: IncomingEvent, reply: HttpReply },
}

/// What becomes of a request.
pub enum IntakeView {
    Reply(ReplyView),
    Queue { event: EventView, reply: ReplyView },
}

impl View for Intake {
    type V = IntakeView;

    open spec fn view(&self) -> IntakeView {
        match self {
            Intake::Reply(reply) => IntakeView::Reply(reply@),
            Intake::Queue { event, reply } => IntakeView::Queue { event: event@, reply: reply@ },
        }
    }
}

/// The answer when the queue does not take an event.
pub fn queue_unavailable(error: &str) -> (r: HttpReply)
    ensures
        r@ == refusal(503, "event queue unavailable: "@ + error@),
{
    refuse(503, compose::cat2("event queue unavailable: ", error).as_str())
}

// ---------------------------------------------------------------------------
// Events
// ---------------------------------------------------------------------------

/// Identifiers and moments that are new when a request comes in.
#[derive(Debug)]
pub struct FreshMarks {
    /// For an event that has no identifier, and was not seen before.
    pub id: String,
    pub seen: String,
    /// For an envelope whose event has no identifier that can be read.
    pub envelope_id: String,
    /// The present moment.
    pub now: String,
}

/// Identifiers and moments that are new when a request comes in.
pub struct MarksView {
    pub id: Seq<char>,
    pub seen: Seq<char>,
    pub envelope_id: Seq<char>,
    pub now: Seq<char>,
}

impl View for FreshMarks {
    type V = MarksView;

    open spec fn view(&self) -> MarksView {
        MarksView {
            id: self.id@,
            seen: self.seen@,
            envelope_id: self.envelope_id@,
            now: self.now@,
        }
    }
}

impl MarksView {
    /// The identifiers are such as fresh ones, and the moments such as the present.
    pub open spec fn usable(self) -> bool {
        &&& identity::is_fresh_id(self.id)
        &&& identity::is_fresh_moment(self.seen)
        &&& identity::is_fresh_id(self.envelope_id)
        &&& identity::is_fresh_moment(self.now)
    }
}

/// Identifiers and moments that are new.
pub fn fresh_marks() -> (r: FreshMarks)
    ensures
        r@.usable(),
{
    FreshMarks {
        id: fresh_event_id(),
        seen: current_timestamp_rfc3339(),
        envelope_id: fresh_event_id(),
        now: current_timestamp_rfc3339(),
    }
}

/// The envelope of an event that is brought into normal form again.
pub open spec fn checked(event: EventView, marks: MarksView) -> Result<EnvelopeView, Seq<char>> {
    compat::envelope_of(
        normalize::normalized(event, marks.id, marks.seen),
        marks.envelope_id,
        marks.now,
    )
}

/// What becomes of an event in normal form: one that cannot be typed is refused,
/// and every other is queued and answered with its identifier.
pub open spec fn accepted(event: EventView, marks: MarksView) -> IntakeView {
    match checked(event, marks) {
        Err(e) => IntakeView::Reply(refusal(400, e)),
        Ok(envelope) => IntakeView::Queue {
            event,
            reply: ReplyView {
                status: 202,
                body: told(true).with_text("type"@, event.kind).with_text(
                    "event_id"@,
                    envelope.id,
                ),
            },
        },
    }
}

/// What becomes of an event that comes in.
pub open spec fn taken_in(event: EventView, marks: MarksView) -> IntakeView {
    accepted(normalize::normalized(event, marks.id, marks.seen), marks)
}

/// What becomes of an event that was read; one that could not be is refused with
/// `status`.
pub open spec fn taken_in_if_read(
    event: Result<EventView, Seq<char>>,
    status: u16,
    marks: MarksView,
) -> IntakeView {
    match event {
        Ok(e) => taken_in(e, marks),
        Err(error) => IntakeView::Reply(refusal(status, error)),
    }
}

/// The identifier of an event in normal form that can be typed, or why it cannot.
pub fn check_event(event: &IncomingEvent, marks: &FreshMarks) -> (r: Result<String, String>)
    ensures
        text::text_result(r) == (match checked(event@, marks@) {
            Ok(envelope) => Ok(envelope.id),
            Err(e) => Err(e),
        }),
{
    let normalized = normalize_event_with(event.clone(), marks.id.clone(), marks.seen.clone());
    match envelope_with(&normalized, marks.envelope_id.clone(), marks.now.clone()) {
        Ok(envelope) => Ok(envelope.id),
        Err(e) => Err(e),
    }
}

/// Takes an event in.
pub fn take_in(event: IncomingEvent, marks: &FreshMarks) -> (r: Intake)
    ensures
        r@ == taken_in(event@, marks@),
{
    let event = normalize_event_with(event, marks.id.clone(), marks.seen.clone());
    match check_event(&event, marks) {
        Err(e) => Intake::Reply(refuse(400, e.as_str())),
        Ok(id) => {
            let body = tell(true).with_text("type", event.kind.as_str()).with_text(
                "event_id",
                id.as_str(),
            );
            Intake::Queue { event, reply: HttpReply { status: 202, body } }
        },
    }
}

/// The request is dealt with as some fresh marks say.
pub open spec fn deals_with(
    event: Result<EventView, Seq<char>>,
    status: u16,
    r: IntakeView,
) -> bool {
    exists|marks: MarksView|
        marks.usable() && r == #[trigger] taken_in_if_read(event, status, marks)
}

fn deal_with(event: Result<IncomingEvent, String>, status: u16) -> (r: Intake)
    ensures
        deals_with(native_hooks::event_result(event), status, r@),
{
    let marks = fresh_marks();
    let r = match event {
        Ok(e) => take_in(e, &marks),
        Err(error) => Intake::Reply(refuse(status, error.as_str())),
    };
    assert(r@ == taken_in_if_read(native_hooks::event_result(event), status, marks@));
    r
}

/// Deals with an event that is sent as JSON. A value that describes none cannot be
/// processed.
pub fn post_event(body: &Json) -> (r: Intake)
    ensures
        deals_with(wire::event_of(body@), 422, r@),
{
    deal_with(event_from_json(body), 422)
}

/// Deals with the message of a hook of a coding tool. `stored` is the metadata
/// that is stored for the directory the hook ran in.
pub fn post_native_hook(payload: &Json, stored: Option<&Json>, assistant: &str) -> (r: Intake)
    ensures
        deals_with(native_hooks::hook_event(payload@, json::opt_node(stored), assistant@), 400, r@),
{
    deal_with(incoming_event_from_native_hook_json(payload, stored, assistant), 400)
}

/// Deals with the envelope of an OMX hook.
pub fn post_omx_hook(payload: &Json) -> (r: Intake)
    ensures
        deals_with(compat::omx_event(payload@), 400, r@),
{
    deal_with(incoming_event_from_omx_hook_envelope_json(payload), 400)
}

// ---------------------------------------------------------------------------
// GitHub
// ---------------------------------------------------------------------------

/// The text at a path, or another in its place.
pub open spec fn text_at(node: Node, path: Seq<char>, otherwise: Seq<char>) -> Seq<char> {
    match json::as_text(json::at_path(node, path)) {
        Some(s) => s,
        None => otherwise,
    }
}

/// A number, or none.
pub open spec fn count_or_zero(o: Option<Node>) -> u64 {
    match json::as_count(o) {
        Some(n) => n,
        None => 0,
    }
}

/// The action of a message from GitHub.
pub open spec fn action_of(payload: Node) -> Seq<char> {
    match json::raw_field(payload, "action"@) {
        Some(s) => s,
        None => ""@,
    }
}

/// A release is announced with this action.
pub open spec fn is_release_action(action: Seq<char>) -> bool {
    action == "published"@ || action == "released"@ || action == "prereleased"@ || action
        == "edited"@
}

/// What a message from GitHub says of an issue.
pub open spec fn issue_payload(payload: Node) -> Node {
    json::empty().with_text(
        "repo"@,
        text_at(payload, "/repository/full_name"@, "unknown/unknown"@),
    ).with_count("number"@, count_or_zero(json::at_path(payload, "/issue/number"@))).with_text(
        "title"@,
        text_at(payload, "/issue/title"@, "Untitled issue"@),
    )
}

/// The event of a release.
pub open spec fn release_event(payload: Node, action: Seq<char>) -> EventView {
    events::plain_event(
        "github.release-"@ + action,
        None,
        json::empty().with_text(
            "repo"@,
            text_at(payload, "/repository/full_name"@, "unknown/unknown"@),
        ).with_text("action"@, action).with_text(
            "tag"@,
            text_at(payload, "/release/tag_name"@, ""@),
        ).with_text("name"@, text_at(payload, "/release/name"@, ""@)).with(
            "is_prerelease"@,
            Node::Bool(
                json::as_flag(json::at_path(payload, "/release/prerelease"@)) == Some(true),
            ),
        ).with_text("url"@, text_at(payload, "/release/html_url"@, ""@)).with_opt_text(
            "actor"@,
            json::as_text(json::at_path(payload, "/sender/login"@)),
        ),
    )
}

/// The event of a pull request that passes from one status to another.
pub open spec fn pull_request_event(
    payload: Node,
    old_status: Seq<char>,
    new_status: Seq<char>,
) -> EventView {
    events::plain_event(
        "github.pr-status-changed"@,
        None,
        events::pr_status_payload(
            text_at(payload, "/repository/full_name"@, "unknown/unknown"@),
            count_or_zero(
                text::or_else(
                    json::at_path(payload, "/pull_request/number"@),
                    json::at_path(payload, "/number"@),
                ),
            ),
            text_at(payload, "/pull_request/title"@, "Untitled pull request"@),
            old_status,
            new_status,
            text_at(payload, "/pull_request/html_url"@, ""@),
        ),
    )
}

/// The event of a message from GitHub, where it is of a kind that counts.
pub open spec fn github_event_of(name: Seq<char>, payload: Node) -> Option<EventView> {
    let action = action_of(payload);
    if name == "issues"@ && action == "opened"@ {
        Some(events::plain_event("github.issue-opened"@, None, issue_payload(payload)))
    } else if name == "issues"@ && action == "closed"@ {
        Some(events::plain_event("github.issue-closed"@, None, issue_payload(payload)))
    } else if name == "issue_comment"@ && action == "created"@ {
        Some(
            events::plain_event(
                "github.issue-commented"@,
                None,
                issue_payload(payload).with_count(
                    "comments"@,
                    count_or_zero(json::at_path(payload, "/issue/comments"@)),
                ),
            ),
        )
    } else if name == "release"@ && is_release_action(action) {
        Some(release_event(payload, action))
    } else if name == "pull_request"@ && action == "opened"@ {
        Some(pull_request_event(payload, "unknown"@, "opened"@))
    } else if name == "pull_request"@ && action == "closed"@ {
        Some(pull_request_event(payload, "open"@, "closed"@))
    } else {
        None
    }
}

/// What becomes of a message from GitHub.
pub open spec fn github_taken_in(name: Seq<char>, payload: Node, marks: MarksView) -> IntakeView {
    match github_event_of(name, payload) {
        None => IntakeView::Reply(
            ReplyView {
                status: 202,
                body: told(true).with("ignored"@, Node::Bool(true)).with_text(
                    "reason"@,
                    if name == "pull_request"@ {
                        "unsupported pull_request action"@
                    } else {
                        "unsupported event"@
                    },
                ),
            },
        ),
        Some(event) => {
            let normalized = normalize::normalized(event, marks.id, marks.seen);
            match checked(normalized, marks) {
                Err(e) => IntakeView::Reply(refusal(400, e)),
                Ok(_) => IntakeView::Queue {
                    event: normalized,
                    reply: ReplyView { status: 202, body: told(true) },
                },
            }
        },
    }
}

fn text_or(payload: &Json, path: &str, otherwise: &str) -> (r: String)
    ensures
        r@ == text_at(payload@, path@, otherwise@),
{
    match payload.pointer(path) {
        Some(value) => match value.as_str() {
            Some(s) => s.to_owned(),
            None => otherwise.to_owned(),
        },
        None => otherwise.to_owned(),
    }
}

fn text_if(payload: &Json, path: &str) -> (r: Option<String>)
    ensures
        text::opt_text(r) == json::as_text(json::at_path(payload@, path@)),
{
    match payload.pointer(path) {
        Some(value) => match value.as_str() {
            Some(s) => Some(s.to_owned()),
            None => None,
        },
        None => None,
    }
}

fn number_or_zero(value: Option<&Json>) -> (r: u64)
    ensures
        r == count_or_zero(json::opt_node(value)),
{
    match value {
        Some(v) => match v.as_u64() {
            Some(n) => n,
            None => 0,
        },
        None => 0,
    }
}

fn pull_request(payload: &Json, old_status: &str, new_status: &str) -> (r: IncomingEvent)
    ensures
        r@ == pull_request_event(payload@, old_status@, new_status@),
{
    let numbered = match payload.pointer("/pull_request/number") {
        Some(value) => Some(value),
        None => payload.pointer("/number"),
    };
    IncomingEvent::github_pr_status_changed(
        text_or(payload, "/repository/full_name", "unknown/unknown"),
        number_or_zero(numbered),
        text_or(payload, "/pull_request/title", "Untitled pull request"),
        old_status.to_owned(),
        new_status.to_owned(),
        text_or(payload, "/pull_request/html_url", ""),
        None,
    )
}

/// The event of a message from GitHub, where it is of a kind that counts.
pub fn github_event(event_name: &str, payload: &Json) -> (r: Option<IncomingEvent>)
    ensures
        table::opt_owned(r) == github_event_of(event_name@, payload@),
{
    let action = match payload.raw_field("action") {
        Some(s) => s,
        None => "",
    };
    if same(event_name, "issues") && same(action, "opened") {
        Some(
            IncomingEvent::github_issue_opened(
                text_or(payload, "/repository/full_name", "unknown/unknown"),
                number_or_zero(payload.pointer("/issue/number")),
                text_or(payload, "/issue/title", "Untitled issue"),
                None,
            ),
        )
    } else if same(event_name, "issues") && same(action, "closed") {
        Some(
            IncomingEvent::github_issue_closed(
                text_or(payload, "/repository/full_name", "unknown/unknown"),
                number_or_zero(payload.pointer("/issue/number")),
                text_or(payload, "/issue/title", "Untitled issue"),
                None,
            ),
        )
    } else if same(event_name, "issue_comment") && same(action, "created") {
        Some(
            IncomingEvent::github_issue_commented(
                text_or(payload, "/repository/full_name", "unknown/unknown"),
                number_or_zero(payload.pointer("/issue/number")),
                text_or(payload, "/issue/title", "Untitled issue"),
                number_or_zero(payload.pointer("/issue/comments")),
                None,
            ),
        )
    } else if same(event_name, "release") && (same(action, "published") || same(action, "released")
        || same(action, "prereleased") || same(action, "edited")) {
        let is_prerelease = match payload.pointer("/release/prerelease") {
            Some(value) => match value.as_bool() {
                Some(b) => b,
                None => false,
            },
            None => false,
        };
        Some(
            IncomingEvent::github_release(
                action,
                text_or(payload, "/repository/full_name", "unknown/unknown"),
                text_or(payload, "/release/tag_name", ""),
                text_or(payload, "/release/name", ""),
                is_prerelease,
                text_or(payload, "/release/html_url", ""),
                text_if(payload, "/sender/login"),
                None,
            ),
        )
    } else if same(event_name, "pull_request") && same(action, "opened") {
        Some(pull_request(payload, "unknown", "opened"))
    } else if same(event_name, "pull_request") && same(action, "closed") {
        Some(pull_request(payload, "open", "closed"))
    } else {
        None
    }
}

/// Takes a message from GitHub in.
pub fn take_in_github(event_name: &str, payload: &Json, marks: &FreshMarks) -> (r: Intake)
    ensures
        r@ == github_taken_in(event_name@, payload@, marks@),
{
    match github_event(event_name, payload) {
        None => {
            let reason = if same(event_name, "pull_request") {
                "unsupported pull_request action"
            } else {
                "unsupported event"
            };
            Intake::Reply(
                HttpReply {
                    status: 202,
                    body: tell(true).with_flag("ignored", true).with_text("reason", reason),
                },
            )
        },
        Some(event) => {
            let event = normalize_event_with(event, marks.id.clone(), marks.seen.clone());
            match check_event(&event, marks) {
                Err(e) => Intake::Reply(refuse(400, e.as_str())),
                Ok(_) => Intake::Queue {
                    event,
                    reply: HttpReply { status: 202, body: tell(true) },
                },
            }
        },
    }
}

/// Deals with a message from GitHub.
pub fn post_github(event_name: &str, payload: &Json) -> (r: Intake)
    ensures
        exists|marks: MarksView|
            marks.usable() && r@ == #[trigger] github_taken_in(event_name@, payload@, marks),
{
    let marks = fresh_marks();
    let r = take_in_github(event_name, payload, &marks);
    assert(marks@.usable() && r@ == github_taken_in(event_name@, payload@, marks@));
    r
}

// ---------------------------------------------------------------------------
// Health
// ---------------------------------------------------------------------------

/// What the daemon says of itself.
pub open spec fn health_of(
    config: AppSettingsView,
    port: u16,
    registered: usize,
    env: Option<Seq<char>>,
) -> Node {
    told(true).with_text("version"@, VERSION@).with_text(
        "token_source"@,
        config.token_source(env),
    ).with(
        "webhook_routes_configured"@,
        Node::Bool(config_rules::webhook_count(config.routes) > 0),
    ).with_count("port"@, port as u64).with_text(
        "daemon_base_url"@,
        config.daemon.base_url,
    ).with_count(
        "configured_git_monitors"@,
        config.monitors.git.repos.len() as u64,
    ).with_count(
        "configured_tmux_monitors"@,
        config.monitors.tmux.sessions.len() as u64,
    ).with_count(
        "configured_workspace_monitors"@,
        config.monitors.workspace.len() as u64,
    ).with_count("configured_cron_jobs"@, config.cron.jobs.len() as u64).with_count(
        "registered_tmux_sessions"@,
        registered as u64,
    )
}

/// What the daemon says of itself.
pub fn health_payload(
    config: &AppConfig,
    port: u16,
    registered_tmux_sessions: usize,
    env: &Option<String>,
) -> (r: Json)
    ensures
        r@ == health_of(config@, port, registered_tmux_sessions, text::opt_text(*env)),
{
    let git = config.monitors.git.repos.len() as u64;
    let tmux = config.monitors.tmux.sessions.len() as u64;
    let workspace = config.monitors.workspace.len() as u64;
    let jobs = config.cron.jobs.len() as u64;
    tell(true).with_text("version", VERSION).with_text(
        "token_source",
        config.discord_token_source(env),
    ).with_flag("webhook_routes_configured", config.has_webhook_routes()).with_count(
        "port",
        port as u64,
    ).with_text("daemon_base_url", config.daemon.base_url.as_str()).with_count(
        "configured_git_monitors",
        git,
    ).with_count("configured_tmux_monitors", tmux).with_count(
        "configured_workspace_monitors",
        workspace,
    ).with_count("configured_cron_jobs", jobs).with_count(
        "registered_tmux_sessions",
        registered_tmux_sessions as u64,
    )
}

/// The address on which the daemon listens.
pub fn listen_address(config: &AppConfig, port_override: Option<u16>) -> (r: String)
    ensures
        r@ == config@.daemon.bind_host + ":"@ + compose::decimal(
            (match port_override {
                Some(port) => port,
                None => config@.daemon.port,
            }) as nat,
        ),
{
    let port: u16 = match port_override {
        Some(port) => port,
        None => config.daemon.port,
    };
    cat3(config.daemon.bind_host.as_str(), ":", number(port as u64).as_str())
}

/// The event of a source that stopped.
pub open spec fn failure_event(source: Seq<char>, error: Seq<char>) -> EventView {
    EventView {
        format: Some(MessageFormat::Alert),
        ..events::plain_event(
            "custom"@,
            None,
            json::empty().with_text(
                "message"@,
                "clawhip degraded: source '"@ + source + "' stopped: "@ + error,
            ).with_text("source_name"@, source).with_text(
                "health_status"@,
                "degraded"@,
            ).with_text("error_message"@, error),
        )
    }
}

/// The event of a source that stopped.
pub fn source_failure_alert_event(source_name: &str, error_message: &str) -> (r: IncomingEvent)
    ensures
        r@ == failure_event(source_name@, error_message@),
{
    let message = compose::cat4(
        "clawhip degraded: source '",
        source_name,
        "' stopped: ",
        error_message,
    );
    let IncomingEvent { kind, channel, mention, format, template, payload } =
        IncomingEvent::custom(None, message);
    IncomingEvent {
        kind,
        channel,
        mention,
        format: Some(MessageFormat::Alert),
        template,
        payload: payload.with_text("source_name", source_name).with_text(
            "health_status",
            "degraded",
        ).with_text("error_message", error_message),
    }
}

// ---------------------------------------------------------------------------
// Registrations
// ---------------------------------------------------------------------------

/// Registers a tmux session.
pub fn register_tmux(
    registry: &mut Vec<(String, RegisteredTmuxSession)>,
    registration: RegisteredTmuxSession,
) -> (r: HttpReply)
    ensures
        table::pairs(final(registry)@) == table::put(
            table::pairs(old(registry)@),
            registration@.session,
            registration@,
        ),
        r@ == (ReplyView {
            status: 202,
            body: told(true).with_text("session"@, registration@.session),
        }),
{
    let session = registration.session.clone();
    set_entry(registry, session.as_str(), registration);
    HttpReply { status: 202, body: tell(true).with_text("session", session.as_str()) }
}

// ---------------------------------------------------------------------------
// Updates
// ---------------------------------------------------------------------------

/// A release that is newer than the program.
#[derive(Debug)]
pub struct PendingUpdate {
    pub current_version: String,
    pub latest_version: String,
    pub release_url: String,
    pub detected_at: String,
}

/// The answer to the question for a newer release.
pub open spec fn update_answer(pending: Option<PendingUpdate>) -> ReplyView {
    ReplyView {
        status: 200,
        body: match pending {
            Some(update) => json::empty().with("pending"@, Node::Bool(true)).with_text(
                "current_version"@,
                update.current_version@,
            ).with_text("latest_version"@, update.latest_version@).with_text(
                "release_url"@,
                update.release_url@,
            ).with_text("detected_at"@, update.detected_at@),
            None => json::empty().with("pending"@, Node::Bool(false)).with_text(
                "current_version"@,
                VERSION@,
            ),
        },
    }
}

/// The answer to the question for a newer release.
pub fn update_status(pending: &Option<PendingUpdate>) -> (r: HttpReply)
    ensures
        r@ == update_answer(*pending),
{
    let body = match pending {
        Some(update) => Json::object().with_flag("pending", true).with_text(
            "current_version",
            update.current_version.as_str(),
        ).with_text("latest_version", update.latest_version.as_str()).with_text(
            "release_url",
            update.release_url.as_str(),
        ).with_text("detected_at", update.detected_at.as_str()),
        None => Json::object().with_flag("pending", false).with_text("current_version", VERSION),
    };
    HttpReply { status: 200, body }
}

/// Forgets a newer release.
pub fn dismiss_update(pending: &mut Option<PendingUpdate>) -> (r: HttpReply)
    ensures
        *final(pending) is None,
        r@ == (match *old(pending) {
            Some(update) => ReplyView {
                status: 200,
                body: told(true).with_text("dismissed_version"@, update.latest_version@),
            },
            None => refusal(400, "no pending update"@),
        }),
{
    match pending.take() {
        Some(update) => HttpReply {
            status: 200,
            body: tell(true).with_text("dismissed_version", update.latest_version.as_str()),
        },
        None => refuse(400, "no pending update"),
    }
}

/// The answer once a newer release was installed, or could not be. `outcome` is
/// the error of the installation.
pub fn approve_update(pending: &Option<PendingUpdate>, outcome: &Option<String>) -> (r: HttpReply)
    ensures
        r@ == (match *pending {
            None => refusal(400, "no pending update"@),
            Some(update) => match *outcome {
                Some(error) => refusal(400, error@),
                None => ReplyView {
                    status: 200,
                    body: told(true).with_text("updated_to"@, update.latest_version@),
                },
            },
        }),
{
    match pending {
        None => refuse(400, "no pending update"),
        Some(update) => match outcome {
            Some(error) => refuse(400, error.as_str()),
            None => HttpReply {
                status: 200,
                body: tell(true).with_text("updated_to", update.latest_version.as_str()),
            },
        },
    }
}

// ---------------------------------------------------------------------------
// Laws
// ---------------------------------------------------------------------------

/// An event that cannot be typed is refused with its error, and is not queued.
pub proof fn law_untyped_event_is_refused(event: EventView, marks: MarksView, error: Seq<char>)
    requires
        checked(normalize::normalized(event, marks.id, marks.seen), marks) == Err::<
            EnvelopeView,
            Seq<char>,
        >(error),
    ensures
        taken_in(event, marks) == IntakeView::Reply(refusal(400, error)),
{
}

/// The sender of an event is told the identifier under which it is queued.
pub proof fn law_sender_is_told_the_identifier(
    event: EventView,
    own: Seq<char>,
    marks: MarksView,
    queued: EventView,
    reply: ReplyView,
)
    requires
        taken_in(event, marks) == (IntakeView::Queue { event: queued, reply }),
        json::member(queued.payload, "event_id"@) == Some(Node::Text(own)),
        identity::uuid_in(own) == Some(own),
    ensures
        json::member(reply.body, "event_id"@) == Some(Node::Text(own)),
{
    normalize::law_normalizing_keeps_what_is_said(queued, marks.id, marks.seen, "event_id"@);
    let base = told(true).with_text("type"@, queued.kind);
    match base {
        Node::Object(m) => table::law_put_then_lookup(
            m,
            "event_id"@,
            Node::Text(own),
            "event_id"@,
        ),
        _ => {},
    }
}

/// A message from GitHub of another kind is answered and leaves nothing in the
/// queue.
pub proof fn law_other_github_messages_are_ignored(
    name: Seq<char>,
    payload: Node,
    marks: MarksView,
)
    requires
        name != "issues"@,
        name != "issue_comment"@,
        name != "release"@,
        name != "pull_request"@,
    ensures
        github_taken_in(name, payload, marks) is Reply,
        github_taken_in(name, payload, marks)->Reply_0.status == 202,
{
}

} // verus!
