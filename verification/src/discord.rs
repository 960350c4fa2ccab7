//! How messages reach Discord: what is asked, when it is asked again, and what
//! becomes of messages that do not arrive.
use vstd::prelude::*;
use vstd::string::*;

use crate::codec;
use crate::codec::{parse_json, to_text};
use crate::compose;
use crate::compose::{cat2, cat3, cat4};
use crate::events;
use crate::events::MessageFormat;
use crate::json;
use crate::json::{Json, Node};
use crate::keywords;
use crate::keywords::elapsed_ms;
use crate::monitor;
use crate::monitor::trim_endings;
use crate::numeral;
use crate::router::{SinkTarget, TargetView};
use crate::scan;
use crate::table;
use crate::table::{find_entry, set_entry};
use crate::text;
use crate::text::{chars_of, contains, contains_char, stands_at};

verus! {

broadcast use crate::json::group_trees;

/// How often a message is sent at most.
pub const MAX_ATTEMPTS: u32 = 3;

/// The failures in a row after which a target is left alone.
pub const CIRCUIT_FAILURE_THRESHOLD: u32 = 3;

/// The milliseconds for which a target is left alone.
pub const CIRCUIT_COOLDOWN_MS: u64 = 5000;

/// The messages that may be sent to a target at once.
pub const RATE_LIMIT_CAPACITY: u64 = 5;

/// The milliseconds after which one more message may be sent to a target.
pub const RATE_LIMIT_REFILL_MS: u64 = 200;

/// A message for a sink.
#[derive(Debug)]
pub struct SinkMessage {
    pub event_kind: String,
    pub format: MessageFormat,
    pub content: String,
    pub payload: Json,
}

/// A message for a sink.
pub struct MessageView {
    pub event_kind: Seq<char>,
    pub format: MessageFormat,
    pub content: Seq<char>,
    pub payload: Node,
}

impl View for SinkMessage {
    type V = MessageView;

    open spec fn view(&self) -> MessageView {
        MessageView {
            event_kind: self.event_kind@,
            format: self.format,
            content: self.content@,
            payload: self.payload@,
        }
    }
}

// ---------------------------------------------------------------------------
// Requests
// ---------------------------------------------------------------------------

/// The address of a webhook that answers once the message is there.
pub open spec fn waiting_url(url: Seq<char>) -> Seq<char> {
    if text::occurs_in(url, "wait="@) {
        url
    } else if url.contains('?') {
        url + "&wait=true"@
    } else {
        url + "?wait=true"@
    }
}

/// The address of a webhook that answers once the message is there.
pub fn webhook_url_with_wait(webhook_url: &str) -> (r: String)
    ensures
        r@ == waiting_url(webhook_url@),
{
    if contains(webhook_url, "wait=") {
        webhook_url.to_owned()
    } else if contains_char(webhook_url, '?') {
        cat2(webhook_url, "&wait=true")
    } else {
        cat2(webhook_url, "?wait=true")
    }
}

/// The name under which a target is counted.
pub open spec fn key_of(target: TargetView) -> Seq<char> {
    match target {
        TargetView::DiscordChannel(id) => "discord:channel:"@ + id,
        TargetView::DiscordWebhook(url) => "discord:webhook:"@ + url,
        TargetView::SlackWebhook(url) => "slack:webhook:"@ + url,
    }
}

/// The name under which a target is counted.
pub fn target_rate_limit_key(target: &SinkTarget) -> (r: String)
    ensures
        r@ == key_of(target@),
{
    match target {
        SinkTarget::DiscordChannel(id) => cat2("discord:channel:", id.as_str()),
        SinkTarget::DiscordWebhook(url) => cat2("discord:webhook:", url.as_str()),
        SinkTarget::SlackWebhook(url) => cat2("slack:webhook:", url.as_str()),
    }
}

/// A request to Discord: through the bot to a channel, or to a webhook.
#[derive(Debug)]
pub struct DiscordRequest {
    pub url: String,
    pub with_bot: bool,
    /// What the request is called in errors.
    pub label: String,
    pub body: Json,
}

/// A request to Discord.
pub struct RequestView {
    pub url: Seq<char>,
    pub with_bot: bool,
    pub label: Seq<char>,
    pub body: Node,
}

impl View for DiscordRequest {
    type V = RequestView;

    open spec fn view(&self) -> RequestView {
        RequestView {
            url: self.url@,
            with_bot: self.with_bot,
            label: self.label@,
            body: self.body@,
        }
    }
}

/// The request that sends a content to a target.
pub open spec fn request_of(target: TargetView, api_base: Seq<char>, content: Seq<char>) -> Result<
    RequestView,
    Seq<char>,
> {
    let body = json::empty().with_text("content"@, content);
    match target {
        TargetView::DiscordChannel(id) => Ok(
            RequestView {
                url: monitor::without_endings(api_base, "/"@) + "/channels/"@ + id
                    + "/messages"@,
                with_bot: true,
                label: "Discord API request"@,
                body,
            },
        ),
        TargetView::DiscordWebhook(url) => Ok(
            RequestView {
                url: waiting_url(url),
                with_bot: false,
                label: "Discord webhook request"@,
                body,
            },
        ),
        TargetView::SlackWebhook(_) => Err("cannot send Slack webhook via Discord client"@),
    }
}

/// A request or an error, as they are.
pub open spec fn request_result(r: Result<DiscordRequest, String>) -> Result<
    RequestView,
    Seq<char>,
> {
    match r {
        Ok(request) => Ok(request@),
        Err(e) => Err(e@),
    }
}

/// The request that sends a content to a target.
pub fn discord_request(target: &SinkTarget, api_base: &str, content: &str) -> (r: Result<
    DiscordRequest,
    String,
>)
    ensures
        request_result(r) == request_of(target@, api_base@, content@),
{
    let body = Json::object().with_text("content", content);
    match target {
        SinkTarget::DiscordChannel(id) => Ok(
            DiscordRequest {
                url: cat4(trim_endings(api_base, "/"), "/channels/", id.as_str(), "/messages"),
                with_bot: true,
                label: "Discord API request".to_owned(),
                body,
            },
        ),
        SinkTarget::DiscordWebhook(url) => Ok(
            DiscordRequest {
                url: webhook_url_with_wait(url.as_str()),
                with_bot: false,
                label: "Discord webhook request".to_owned(),
                body,
            },
        ),
        SinkTarget::SlackWebhook(_) => Err(
            "cannot send Slack webhook via Discord client".to_owned(),
        ),
    }
}

// ---------------------------------------------------------------------------
// Failures
// ---------------------------------------------------------------------------

/// Why a message was not sent, and the nanoseconds after which it may be sent
/// again, where Discord says so.
#[derive(Debug)]
pub struct DiscordSendError {
    pub message: String,
    pub retry_after: Option<u128>,
}

/// Why a message was not sent.
pub struct FailureView {
    pub message: Seq<char>,
    pub retry_after: Option<u128>,
}

impl View for DiscordSendError {
    type V = FailureView;

    open spec fn view(&self) -> FailureView {
        FailureView { message: self.message@, retry_after: self.retry_after }
    }
}

/// The status of an answer says that the server failed: it is 5 and two more digits.
pub open spec fn is_server_status(status: Seq<char>) -> bool {
    status.len() >= 3 && status[0] == '5' && scan::is_digit(status[1]) && scan::is_digit(status[2])
}

/// What a message says of the failure, from a position on: the first of "failed:",
/// which names an error of the network, and "failed with ", which names the status of
/// the answer, decides.
pub open spec fn outage_from(message: Seq<char>, i: int) -> bool
    decreases message.len() - i,
{
    if i >= message.len() {
        false
    } else if text::occurs_at(message, "failed:"@, i) {
        true
    } else if text::occurs_at(message, "failed with "@, i) {
        is_server_status(message.skip(i + 12))
    } else {
        outage_from(message, i + 1)
    }
}

/// The failure is that of a server or of the network, and not a refusal.
pub open spec fn is_outage(message: Seq<char>) -> bool {
    outage_from(message, 0)
}

/// Tells whether a failure is that of a server, with a status from 500 to 599, or of
/// the network. A refusal is none, whatever its answer holds.
pub fn is_infrastructure_failure(error: &DiscordSendError) -> (r: bool)
    ensures
        r == is_outage(error@.message),
{
    let message = chars_of(error.message.as_str());
    let broken = chars_of("failed:");
    let refused = chars_of("failed with ");
    proof {
        reveal_strlit("failed with ");
    }
    let n = message.len();
    let mut i: usize = 0;
    while i < n
        invariant
            i <= n,
            n == message.len(),
            message@ == error@.message,
            broken@ == "failed:"@,
            refused@ == "failed with "@,
            refused@.len() == 12,
            outage_from(message@, 0) == outage_from(message@, i as int),
        decreases n - i,
    {
        if stands_at(message.as_slice(), broken.as_slice(), i) {
            return true;
        }
        if stands_at(message.as_slice(), refused.as_slice(), i) {
            let ghost status = message@.skip(i + 12);
            if n - i < 15 {
                assert(status.len() < 3);
                return false;
            }
            assert(status[0] == message@[i + 12] && status[1] == message@[i + 13] && status[2]
                == message@[i + 14]);
            return message[i + 12] == '5' && '0' <= message[i + 13] && message[i + 13] <= '9'
                && '0' <= message[i + 14] && message[i + 14] <= '9';
        }
        i = i + 1;
    }
    false
}

/// The nanoseconds of the span that `std::time::Duration::try_from_secs_f64` makes
/// of the number of seconds with a notation.
pub uninterp spec fn span_in(notation: Seq<char>) -> Option<u128>;

/// `serde_json::Number::as_f64` and `std::time::Duration::try_from_secs_f64`: the
/// nanoseconds of a number of seconds, where a span of time can have it. A number
/// and its notation determine one another.
#[verifier::external_body]
fn span_of_seconds(n: &serde_json::Number) -> (r: Option<u128>)
    ensures
        r == span_in(numeral::number_text(*n)),
{
    n.as_f64().and_then(|seconds| std::time::Duration::try_from_secs_f64(seconds).ok()).map(
        |span| span.as_nanos(),
    )
}

/// What a refusal says of the moment to come back: a member, or the one item of a
/// list.
pub open spec fn pause_value(body: Node) -> Option<Node> {
    match body {
        Node::Object(_) => json::member(body, "retry_after"@),
        Node::List(items) => if items.len() == 1 {
            Some(items[0])
        } else {
            None
        },
        _ => None,
    }
}

/// The nanoseconds after which a message may be sent again, as the answer to it
/// says: where it is one of too many.
pub open spec fn pause_of(status: u16, body: Seq<char>) -> Option<u128> {
    match codec::read_text(body) {
        Ok(node) => match pause_value(node) {
            Some(Node::Number(n)) => if status == 429 {
                span_in(n.text)
            } else {
                None
            },
            _ => None,
        },
        Err(_) => None,
    }
}

fn find_pause(body: &Json) -> (r: Option<&Json>)
    ensures
        json::opt_node(r) == pause_value(body@),
{
    match body {
        Json::Object(_) => body.get("retry_after"),
        Json::List(items) => {
            assert(json::nodes(items@).len() == items@.len());
            if items.len() == 1 {
                assert(json::nodes(items@)[0] == items@[0]@);
                Some(&items[0])
            } else {
                None
            }
        },
        _ => None,
    }
}

/// The nanoseconds after which a message may be sent again, as the answer to it
/// says: where it is one of too many. The answer is read as a whole: of a member that
/// stands in it twice the last one counts.
pub fn parse_retry_after(status: u16, body: &str) -> (r: Option<u128>)
    ensures
        r == pause_of(status, body@),
{
    if status != 429 {
        return None;
    }
    match parse_json(body) {
        Ok(value) => match find_pause(&value) {
            Some(Json::Number(n)) => span_of_seconds(n),
            _ => None,
        },
        Err(_) => None,
    }
}

/// The failure of a request that was answered with another status than success.
pub fn refused_request(label: &str, status: u16, status_text: &str, body: &str) -> (r:
    DiscordSendError)
    ensures
        r@ == (FailureView {
            message: label@ + " failed with "@ + status_text@ + ": "@ + body@,
            retry_after: pause_of(status, body@),
        }),
{
    DiscordSendError {
        message: crate::compose::cat5(label, " failed with ", status_text, ": ", body),
        retry_after: parse_retry_after(status, body),
    }
}

/// The failure of a request that was not answered.
pub fn broken_request(label: &str, error: &str) -> (r: DiscordSendError)
    ensures
        r@ == (FailureView { message: label@ + " failed: "@ + error@, retry_after: None }),
{
    DiscordSendError { message: cat3(label, " failed: ", error), retry_after: None }
}

/// The failure of a message to a channel where there is no bot.
pub fn missing_bot() -> (r: DiscordSendError)
    ensures
        r@ == (FailureView {
            message:
                "missing Discord bot token for channel delivery; configure [providers.discord].token (or legacy [discord].token) or use a route webhook"@,
            retry_after: None,
        }),
{
    DiscordSendError {
        message:
            "missing Discord bot token for channel delivery; configure [providers.discord].token (or legacy [discord].token) or use a route webhook".to_owned(),
        retry_after: None,
    }
}

// ---------------------------------------------------------------------------
// Targets that are left alone
// ---------------------------------------------------------------------------

/// The failures of a target in a row, and the moment, in milliseconds, since when
/// it is left alone.
#[derive(Debug, Clone, Copy, PartialEq, Eq, Structural)]
pub struct CircuitBreaker {
    pub failures: u32,
    pub open_since: Option<u64>,
}

impl View for CircuitBreaker {
    type V = CircuitBreaker;

    open spec fn view(&self) -> CircuitBreaker {
        *self
    }
}

/// A target that has not failed.
pub open spec fn closed_circuit() -> CircuitBreaker {
    CircuitBreaker { failures: 0, open_since: None }
}

/// A target may be tried: it is not left alone, or has been for long enough.
pub open spec fn may_try(circuit: CircuitBreaker, now_ms: u64) -> bool {
    match circuit.open_since {
        Some(since) => keywords::elapsed(since, now_ms) >= CIRCUIT_COOLDOWN_MS,
        None => true,
    }
}

/// A target that failed once more: from a number of failures on it is left alone.
pub open spec fn after_failure(circuit: CircuitBreaker, now_ms: u64) -> CircuitBreaker {
    let failures: u32 = if circuit.failures < u32::MAX {
        (circuit.failures + 1) as u32
    } else {
        circuit.failures
    };
    CircuitBreaker {
        failures,
        open_since: if failures >= CIRCUIT_FAILURE_THRESHOLD {
            Some(now_ms)
        } else {
            circuit.open_since
        },
    }
}

impl CircuitBreaker {
    /// A target that has not failed.
    pub fn new() -> (r: Self)
        ensures
            r == closed_circuit(),
    {
        CircuitBreaker { failures: 0, open_since: None }
    }

    /// Tells whether the target may be tried.
    pub fn allow_request(&self, now_ms: u64) -> (r: bool)
        ensures
            r == may_try(*self, now_ms),
    {
        match self.open_since {
            Some(since) => elapsed_ms(since, now_ms) >= CIRCUIT_COOLDOWN_MS,
            None => true,
        }
    }

    /// Takes a success down.
    pub fn record_success(&mut self)
        ensures
            *final(self) == closed_circuit(),
    {
        self.failures = 0;
        self.open_since = None;
    }

    /// Takes a failure down.
    pub fn record_failure(&mut self, now_ms: u64)
        ensures
            *final(self) == after_failure(*old(self), now_ms),
    {
        if self.failures < u32::MAX {
            self.failures = self.failures + 1;
        }
        if self.failures >= CIRCUIT_FAILURE_THRESHOLD {
            self.open_since = Some(now_ms);
        }
    }
}

// ---------------------------------------------------------------------------
// Pauses between messages
// ---------------------------------------------------------------------------

/// A moment some milliseconds later, as far as it can be told.
pub open spec fn later(moment_ms: u64, wait_ms: u64) -> u64 {
    if moment_ms + wait_ms > u64::MAX {
        u64::MAX
    } else {
        (moment_ms + wait_ms) as u64
    }
}

/// The later of two moments.
pub open spec fn latest(a: u64, b: u64) -> u64 {
    if a > b {
        a
    } else {
        b
    }
}

/// The milliseconds by which messages may run ahead of their pace.
pub open spec fn head_start() -> u64 {
    ((RATE_LIMIT_CAPACITY - 1) * RATE_LIMIT_REFILL_MS) as u64
}

/// The milliseconds to wait before a message. `paced` is the moment of the next
/// message at an even pace.
pub open spec fn wait_before(paced: u64, now_ms: u64) -> u64 {
    keywords::elapsed(later(now_ms, head_start()), latest(paced, now_ms))
}

/// The moment of the next message at an even pace, after one more.
pub open spec fn paced_after(paced: u64, now_ms: u64) -> u64 {
    later(latest(paced, now_ms), RATE_LIMIT_REFILL_MS)
}

fn moment_after(moment_ms: u64, wait_ms: u64) -> (r: u64)
    ensures
        r == later(moment_ms, wait_ms),
{
    if wait_ms > u64::MAX - moment_ms {
        u64::MAX
    } else {
        moment_ms + wait_ms
    }
}

/// The moments of the next messages to targets, each at an even pace.
#[derive(Debug)]
pub struct RateLimiter {
    pub paced: Vec<(String, u64)>,
}

impl View for RateLimiter {
    type V = Seq<(Seq<char>, u64)>;

    open spec fn view(&self) -> Seq<(Seq<char>, u64)> {
        table::pairs(self.paced@)
    }
}

/// The moment of the next message to a target at an even pace.
pub open spec fn paced_for(m: Seq<(Seq<char>, u64)>, key: Seq<char>) -> u64 {
    match table::lookup(m, key) {
        Some(moment) => moment,
        None => 0,
    }
}

impl RateLimiter {
    /// No message was sent.
    pub fn new() -> (r: Self)
        ensures
            r@ == Seq::<(Seq<char>, u64)>::empty(),
    {
        let r = RateLimiter { paced: Vec::new() };
        assert(r@ =~= Seq::<(Seq<char>, u64)>::empty());
        r
    }

    /// The milliseconds to wait before a message to a target, which is counted.
    pub fn delay_for(&mut self, key: &str, now_ms: u64) -> (r: u64)
        ensures
            r == wait_before(paced_for(old(self)@, key@), now_ms),
            final(self)@ == table::put(
                old(self)@,
                key@,
                paced_after(paced_for(old(self)@, key@), now_ms),
            ),
    {
        let paced: u64 = match find_entry(&self.paced, key) {
            Some(moment) => *moment,
            None => 0,
        };
        let base: u64 = if paced > now_ms {
            paced
        } else {
            now_ms
        };
        let ahead: u64 = (RATE_LIMIT_CAPACITY - 1) * RATE_LIMIT_REFILL_MS;
        let wait = elapsed_ms(moment_after(now_ms, ahead), base);
        set_entry(&mut self.paced, key, moment_after(base, RATE_LIMIT_REFILL_MS));
        wait
    }
}

// ---------------------------------------------------------------------------
// Messages that did not arrive
// ---------------------------------------------------------------------------

/// A message that did not arrive.
#[derive(Debug)]
pub struct DlqEntry {
    pub original_topic: String,
    pub retry_count: u32,
    pub last_error: String,
    pub target: String,
    pub event_kind: String,
    pub format: String,
    pub content: String,
    pub payload: Json,
}

/// A message that did not arrive.
pub struct BuriedView {
    pub original_topic: Seq<char>,
    pub retry_count: u32,
    pub last_error: Seq<char>,
    pub target: Seq<char>,
    pub event_kind: Seq<char>,
    pub format: Seq<char>,
    pub content: Seq<char>,
    pub payload: Node,
}

impl View for DlqEntry {
    type V = BuriedView;

    open spec fn view(&self) -> BuriedView {
        BuriedView {
            original_topic: self.original_topic@,
            retry_count: self.retry_count,
            last_error: self.last_error@,
            target: self.target@,
            event_kind: self.event_kind@,
            format: self.format@,
            content: self.content@,
            payload: self.payload@,
        }
    }
}

/// What is kept of a message that did not arrive.
pub open spec fn buried(
    target: TargetView,
    message: MessageView,
    attempts: u32,
    error: Seq<char>,
) -> BuriedView {
    BuriedView {
        original_topic: message.event_kind,
        retry_count: attempts,
        last_error: error,
        target: key_of(target),
        event_kind: message.event_kind,
        format: events::label_of(message.format),
        content: message.content,
        payload: message.payload,
    }
}

fn bury(target: &SinkTarget, message: &SinkMessage, attempts: u32, error: &str) -> (r: DlqEntry)
    ensures
        r@ == buried(target@, message@, attempts, error@),
{
    DlqEntry {
        original_topic: message.event_kind.clone(),
        retry_count: attempts,
        last_error: error.to_owned(),
        target: target_rate_limit_key(target),
        event_kind: message.event_kind.clone(),
        format: message.format.as_str().to_owned(),
        content: message.content.clone(),
        payload: message.payload.clone(),
    }
}

/// The JSON of a message that did not arrive, its members in the order in which they
/// are declared.
pub open spec fn buried_text(entry: BuriedView) -> Seq<char> {
    "{\"original_topic\":"@ + codec::json_text(Node::Text(entry.original_topic))
        + ",\"retry_count\":"@ + codec::json_text(json::whole(entry.retry_count as u64))
        + ",\"last_error\":"@ + codec::json_text(Node::Text(entry.last_error))
        + ",\"target\":"@ + codec::json_text(Node::Text(entry.target))
        + ",\"event_kind\":"@ + codec::json_text(Node::Text(entry.event_kind))
        + ",\"format\":"@ + codec::json_text(Node::Text(entry.format))
        + ",\"content\":"@ + codec::json_text(Node::Text(entry.content))
        + ",\"payload\":"@ + codec::json_text(entry.payload) + "}"@
}

fn append_member(out: &mut String, name: &str, value: &Json)
    ensures
        final(out)@ == old(out)@ + name@ + codec::json_text(value@),
{
    out.append(name);
    out.append(to_text(value).as_str());
}

/// The line that reports a message that did not arrive.
pub fn dlq_line(entry: &DlqEntry) -> (r: String)
    ensures
        r@ == "clawhip dlq bury: "@ + buried_text(entry@),
{
    let mut out: String = String::new();
    append_member(&mut out, "{\"original_topic\":", &Json::text(entry.original_topic.as_str()));
    append_member(&mut out, ",\"retry_count\":", &Json::unsigned(entry.retry_count as u64));
    append_member(&mut out, ",\"last_error\":", &Json::text(entry.last_error.as_str()));
    append_member(&mut out, ",\"target\":", &Json::text(entry.target.as_str()));
    append_member(&mut out, ",\"event_kind\":", &Json::text(entry.event_kind.as_str()));
    append_member(&mut out, ",\"format\":", &Json::text(entry.format.as_str()));
    append_member(&mut out, ",\"content\":", &Json::text(entry.content.as_str()));
    append_member(&mut out, ",\"payload\":", &entry.payload);
    out.append("}");
    assert(out@ =~= buried_text(entry@));
    cat2("clawhip dlq bury: ", out.as_str())
}

// ---------------------------------------------------------------------------
// Sending
// ---------------------------------------------------------------------------

/// What is known of the targets, and the messages that did not arrive.
#[derive(Debug)]
pub struct DiscordState {
    pub limiter: RateLimiter,
    pub circuits: Vec<(String, CircuitBreaker)>,
    pub dlq: Vec<DlqEntry>,
}

/// What is known of the targets.
pub struct DiscordView {
    pub paced: Seq<(Seq<char>, u64)>,
    pub circuits: Seq<(Seq<char>, CircuitBreaker)>,
    pub dlq: Seq<BuriedView>,
}

impl View for DiscordState {
    type V = DiscordView;

    open spec fn view(&self) -> DiscordView {
        DiscordView {
            paced: self.limiter@,
            circuits: table::pairs(self.circuits@),
            dlq: text::all_views(self.dlq@),
        }
    }
}

/// What is known of the failures of a target.
pub open spec fn circuit_of(m: Seq<(Seq<char>, CircuitBreaker)>, key: Seq<char>) -> CircuitBreaker {
    match table::lookup(m, key) {
        Some(circuit) => circuit,
        None => closed_circuit(),
    }
}

/// What is done after an attempt.
#[derive(Debug)]
pub enum SendStep {
    Delivered,
    /// The message is sent once more after a pause.
    Retry { pause_nanos: u128 },
    Failed(String),
}

/// What is done after an attempt.
pub enum StepView {
    Delivered,
    Retry { pause_nanos: u128 },
    Failed(Seq<char>),
}

impl View for SendStep {
    type V = StepView;

    open spec fn view(&self) -> StepView {
        match self {
            SendStep::Delivered => StepView::Delivered,
            SendStep::Retry { pause_nanos } => StepView::Retry { pause_nanos: *pause_nanos },
            SendStep::Failed(e) => StepView::Failed(e@),
        }
    }
}

/// The nanoseconds by which an attempt lengthens the pause before the next: fifty
/// milliseconds for each.
pub open spec fn jitter(attempt: u32) -> u128 {
    (50_000_000 * attempt) as u128
}

/// The nanoseconds by which an attempt lengthens the pause before the next.
pub fn jitter_for_attempt(attempt: u32) -> (r: u128)
    ensures
        r == jitter(attempt),
{
    50_000_000 * (attempt as u128)
}

/// A pause with what an attempt adds to it, as long as a number can tell.
pub open spec fn lengthened(pause: u128, attempt: u32) -> u128 {
    if pause + jitter(attempt) > u128::MAX {
        u128::MAX
    } else {
        (pause + jitter(attempt)) as u128
    }
}

/// What is done after an attempt that failed.
pub open spec fn step_after(failure: FailureView, attempt: u32) -> StepView {
    match failure.retry_after {
        Some(pause) => if attempt < MAX_ATTEMPTS {
            StepView::Retry { pause_nanos: lengthened(pause, attempt) }
        } else {
            StepView::Failed(failure.message)
        },
        None => StepView::Failed(failure.message),
    }
}

/// What is known after an attempt that failed.
pub open spec fn known_after(
    state: DiscordView,
    target: TargetView,
    message: MessageView,
    attempt: u32,
    failure: FailureView,
    now_ms: u64,
) -> DiscordView {
    let key = key_of(target);
    DiscordView {
        circuits: if is_outage(failure.message) {
            table::put(
                state.circuits,
                key,
                after_failure(circuit_of(state.circuits, key), now_ms),
            )
        } else {
            state.circuits
        },
        dlq: if step_after(failure, attempt) is Failed {
            state.dlq.push(buried(target, message, attempt, failure.message))
        } else {
            state.dlq
        },
        ..state
    }
}

impl DiscordState {
    /// Nothing is known of any target.
    pub fn new() -> (r: Self)
        ensures
            r@ == (DiscordView {
                paced: Seq::empty(),
                circuits: Seq::empty(),
                dlq: Seq::empty(),
            }),
    {
        let r = DiscordState { limiter: RateLimiter::new(), circuits: Vec::new(), dlq: Vec::new() };
        assert(r@.circuits =~= Seq::empty());
        assert(r@.dlq =~= Seq::empty());
        r
    }

    fn push_dlq(&mut self, entry: DlqEntry)
        ensures
            final(self)@ == (DiscordView { dlq: old(self)@.dlq.push(entry@), ..old(self)@ }),
    {
        let ghost before = text::all_views(self.dlq@);
        let ghost view = entry@;
        self.dlq.push(entry);
        assert(text::all_views(self.dlq@) =~= before.push(view));
    }

    fn circuit(&self, key: &str) -> (r: CircuitBreaker)
        ensures
            r == circuit_of(self@.circuits, key@),
    {
        match find_entry(&self.circuits, key) {
            Some(circuit) => *circuit,
            None => CircuitBreaker::new(),
        }
    }

    /// Asks whether a message may be sent to its target; one that may not is kept
    /// among those that did not arrive.
    pub fn begin(&mut self, target: &SinkTarget, message: &SinkMessage, now_ms: u64) -> (r: Result<
        (),
        String,
    >)
        ensures
            ({
                let key = key_of(target@);
                let error = "Discord circuit open for "@ + key;
                if may_try(circuit_of(old(self)@.circuits, key), now_ms) {
                    r is Ok && final(self)@ == old(self)@
                } else {
                    &&& r matches Err(e) && e@ == error
                    &&& final(self)@ == (DiscordView {
                        dlq: old(self)@.dlq.push(buried(target@, message@, MAX_ATTEMPTS, error)),
                        ..old(self)@
                    })
                }
            }),
    {
        let key = target_rate_limit_key(target);
        if self.circuit(key.as_str()).allow_request(now_ms) {
            return Ok(());
        }
        let error = cat2("Discord circuit open for ", key.as_str());
        self.push_dlq(bury(target, message, MAX_ATTEMPTS, error.as_str()));
        Err(error)
    }

    /// The milliseconds to wait before an attempt, which is counted.
    pub fn delay(&mut self, target: &SinkTarget, now_ms: u64) -> (r: u64)
        ensures
            ({
                let paced = paced_for(old(self)@.paced, key_of(target@));
                &&& r == wait_before(paced, now_ms)
                &&& final(self)@ == (DiscordView {
                    paced: table::put(
                        old(self)@.paced,
                        key_of(target@),
                        paced_after(paced, now_ms),
                    ),
                    ..old(self)@
                })
            }),
    {
        let key = target_rate_limit_key(target);
        self.limiter.delay_for(key.as_str(), now_ms)
    }

    /// Takes a success down.
    pub fn delivered(&mut self, target: &SinkTarget) -> (r: SendStep)
        ensures
            r@ == StepView::Delivered,
            final(self)@ == (DiscordView {
                circuits: table::put(old(self)@.circuits, key_of(target@), closed_circuit()),
                ..old(self)@
            }),
    {
        let key = target_rate_limit_key(target);
        set_entry(&mut self.circuits, key.as_str(), CircuitBreaker::new());
        SendStep::Delivered
    }

    /// Takes a failure down: the message is sent once more where Discord says when
    /// and attempts are left, and is kept among those that did not arrive where not.
    pub fn failed(
        &mut self,
        target: &SinkTarget,
        message: &SinkMessage,
        attempt: u32,
        error: DiscordSendError,
        now_ms: u64,
    ) -> (r: SendStep)
        ensures
            r@ == step_after(error@, attempt),
            final(self)@ == known_after(
                old(self)@,
                target@,
                message@,
                attempt,
                error@,
                now_ms,
            ),
    {
        let key = target_rate_limit_key(target);
        if is_infrastructure_failure(&error) {
            let mut circuit = self.circuit(key.as_str());
            circuit.record_failure(now_ms);
            set_entry(&mut self.circuits, key.as_str(), circuit);
        }
        match error.retry_after {
            Some(pause) => {
                if attempt < MAX_ATTEMPTS {
                    let more = jitter_for_attempt(attempt);
                    let pause_nanos: u128 = if more > u128::MAX - pause {
                        u128::MAX
                    } else {
                        pause + more
                    };
                    return SendStep::Retry { pause_nanos };
                }
            },
            None => {},
        }
        self.push_dlq(bury(target, message, attempt, error.message.as_str()));
        SendStep::Failed(error.message)
    }
}

// ---------------------------------------------------------------------------
// Laws
// ---------------------------------------------------------------------------

/// A webhook is asked to wait, and an address that says so already stays as it is.
pub proof fn law_waiting_address_stays(url: Seq<char>)
    ensures
        text::occurs_in(waiting_url(url), "wait="@),
        waiting_url(waiting_url(url)) == waiting_url(url),
{
    reveal_strlit("wait=");
    reveal_strlit("&wait=true");
    reveal_strlit("?wait=true");
    let whole = waiting_url(url);
    if !text::occurs_in(url, "wait="@) {
        let at = url.len() as int + 1;
        assert(whole.subrange(at, at + 5) =~= "wait="@);
        assert(text::occurs_at(whole, "wait="@, at));
    }
}

/// The last attempt is never followed by another.
pub proof fn law_last_attempt_ends(failure: FailureView, attempt: u32)
    requires
        attempt >= MAX_ATTEMPTS,
    ensures
        step_after(failure, attempt) == StepView::Failed(failure.message),
{
}

/// A refusal does not count against a target.
pub proof fn law_refusal_leaves_the_target_open(
    state: DiscordView,
    target: TargetView,
    message: MessageView,
    attempt: u32,
    failure: FailureView,
    now_ms: u64,
)
    requires
        !is_outage(failure.message),
    ensures
        known_after(state, target, message, attempt, failure, now_ms).circuits == state.circuits,
{
}

proof fn lemma_nothing_said_before(message: Seq<char>, label: Seq<char>, i: int)
    requires
        !text::occurs_in(label, "failed"@),
        label.len() < message.len(),
        message.take(label.len() as int) == label,
        message[label.len() as int] == ' ',
        0 <= i <= label.len() + 1,
    ensures
        outage_from(message, i) == outage_from(message, label.len() as int + 1),
    decreases label.len() + 1 - i,
{
    if i <= label.len() {
        reveal_strlit("failed");
        reveal_strlit("failed:");
        reveal_strlit("failed with ");
        assert forall|part: Seq<char>|
            part.len() > 6 && part.take(6) == "failed"@ implies !text::occurs_at(
            message,
            part,
            i,
        ) by {
            if text::occurs_at(message, part, i) {
                let found = message.subrange(i, i + part.len());
                let blank = label.len() as int;
                if i + 6 <= label.len() {
                    assert(label.subrange(i, i + 6) =~= part.take(6)) by {
                        assert forall|k: int| 0 <= k < 6 implies label[i + k] == part.take(6)[k] by {
                            assert(message.take(blank)[i + k] == message[i + k]);
                            assert(found[k] == part[k]);
                        }
                    }
                    assert(text::occurs_at(label, "failed"@, i));
                } else {
                    assert(found[blank - i] == ' ');
                    assert(part.take(6)[blank - i] == part[blank - i]);
                }
            }
        }
        assert("failed:"@.take(6) =~= "failed"@);
        assert("failed with "@.take(6) =~= "failed"@);
        lemma_nothing_said_before(message, label, i + 1);
    }
}

/// A request that was not answered counts as an outage, whatever the error says.
pub proof fn law_broken_request_is_an_outage(label: Seq<char>, error: Seq<char>)
    requires
        !text::occurs_in(label, "failed"@),
    ensures
        is_outage(label + " failed: "@ + error),
{
    reveal_strlit(" failed: ");
    reveal_strlit("failed:");
    let message = label + " failed: "@ + error;
    let at = label.len() as int + 1;
    assert(message.take(label.len() as int) =~= label);
    lemma_nothing_said_before(message, label, 0);
    assert(message.subrange(at, at + 7) =~= "failed:"@);
}

/// An answer counts as an outage exactly where its status is one of the server's,
/// whatever else it holds.
pub proof fn law_status_decides(
    label: Seq<char>,
    status: u16,
    status_text: Seq<char>,
    body: Seq<char>,
)
    requires
        !text::occurs_in(label, "failed"@),
        100 <= status < 1000,
        text::begins_with(status_text, compose::decimal(status as nat)),
    ensures
        is_outage(label + " failed with "@ + status_text + ": "@ + body) == (500 <= status < 600),
{
    reveal_strlit(" failed with ");
    reveal_strlit("failed with ");
    reveal_strlit("failed:");
    let message = label + " failed with "@ + status_text + ": "@ + body;
    let at = label.len() as int + 1;
    assert(message.take(label.len() as int) =~= label);
    lemma_nothing_said_before(message, label, 0);
    assert(message.subrange(at, at + 12) =~= "failed with "@);
    assert(message[at + 6] == ' ');
    if text::occurs_at(message, "failed:"@, at) {
        assert(message.subrange(at, at + 7)[6] == ':');
    }
    reveal_with_fuel(compose::decimal, 3);
    let digits = compose::decimal(status as nat);
    assert(digits =~= seq![
        compose::digit((status / 100) as nat),
        compose::digit((status / 10 % 10) as nat),
        compose::digit((status % 10) as nat),
    ]);
    let said = message.skip(at + 12);
    assert(status_text.subrange(0, 3) =~= digits);
    assert forall|k: int| 0 <= k < 3 implies said[k] == digits[k] by {
        assert(said[k] == status_text[k]);
        assert(status_text.subrange(0, 3)[k] == status_text[k]);
    }
}

/// A message is either sent once more or kept among those that did not arrive.
pub proof fn law_no_failure_is_lost(
    state: DiscordView,
    target: TargetView,
    message: MessageView,
    attempt: u32,
    failure: FailureView,
    now_ms: u64,
)
    ensures
        step_after(failure, attempt) is Retry || known_after(
            state,
            target,
            message,
            attempt,
            failure,
            now_ms,
        ).dlq == state.dlq.push(buried(target, message, attempt, failure.message)),
{
}

/// A target that was left alone may be tried again after its time, and at once
/// after a success.
pub proof fn law_targets_are_tried_again(circuit: CircuitBreaker, since: u64, now_ms: u64)
    requires
        circuit.open_since == Some(since),
        now_ms >= since + CIRCUIT_COOLDOWN_MS,
    ensures
        may_try(circuit, now_ms),
        may_try(closed_circuit(), now_ms),
{
}

} // verus!
