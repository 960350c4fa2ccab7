//! How messages are sent to Discord, paced, sent again and given up.
use vstd::prelude::*;
use vstd::string::*;

use crate::codec;
use crate::discord;
use crate::discord::{BuriedView, CircuitBreaker, DiscordView, FailureView, MessageView, StepView};
use crate::events::MessageFormat;
use crate::json;
use crate::json::Node;
use crate::json_laws;
use crate::router::TargetView;
use crate::table;
use crate::text;

verus! {

broadcast use json_laws::group_members;

/// A message to a channel is posted by the bot below the address of the API, one to a webhook
/// at its address, asked to wait; the content is the message. What is for Slack is refused.
pub proof fn law_request_for_a_target(
    id: Seq<char>,
    url: Seq<char>,
    base: Seq<char>,
    content: Seq<char>,
)
    requires
        !text::finishes_with(base, "/"@),
    ensures
        discord::request_of(TargetView::DiscordChannel(id), base, content) matches Ok(r) && r.url
            == base + "/channels/"@ + id + "/messages"@ && r.with_bot && json::member(
            r.body,
            "content"@,
        ) == Some(Node::Text(content)),
        discord::request_of(TargetView::DiscordWebhook(url), base, content) matches Ok(r)
            && !r.with_bot && r.url == discord::waiting_url(url) && json::member(
            r.body,
            "content"@,
        ) == Some(Node::Text(content)),
        discord::request_of(TargetView::SlackWebhook(url), base, content) is Err,
{
}

/// A webhook that does not say whether to wait is asked to, behind what it asks already.
pub proof fn law_webhook_is_asked_to_wait(url: Seq<char>)
    ensures
        text::occurs_in(url, "wait="@) ==> discord::waiting_url(url) == url,
        !text::occurs_in(url, "wait="@) && url.contains('?') ==> discord::waiting_url(url) == url
            + "&wait=true"@,
        !text::occurs_in(url, "wait="@) && !url.contains('?') ==> discord::waiting_url(url) == url
            + "?wait=true"@,
{
}

/// Two targets are counted together only where they are the same.
pub proof fn law_targets_are_counted_apart(a: TargetView, b: TargetView)
    requires
        discord::key_of(a) == discord::key_of(b),
    ensures
        a == b,
{
    reveal_strlit("discord:channel:");
    reveal_strlit("discord:webhook:");
    reveal_strlit("slack:webhook:");
    let k = discord::key_of(a);
    match a {
        TargetView::DiscordChannel(x) => {
            assert(k[0] == 'd' && k[8] == 'c');
            assert(k.skip(16) =~= x);
        },
        TargetView::DiscordWebhook(x) => {
            assert(k[0] == 'd' && k[8] == 'w');
            assert(k.skip(16) =~= x);
        },
        TargetView::SlackWebhook(x) => {
            assert(k[0] == 's');
            assert(k.skip(14) =~= x);
        },
    }
    match b {
        TargetView::DiscordChannel(x) => {
            assert(k[0] == 'd' && k[8] == 'c');
            assert(k.skip(16) =~= x);
        },
        TargetView::DiscordWebhook(x) => {
            assert(k[0] == 'd' && k[8] == 'w');
            assert(k.skip(16) =~= x);
        },
        TargetView::SlackWebhook(x) => {
            assert(k[0] == 's');
            assert(k.skip(14) =~= x);
        },
    }
}

/// The pause that an answer asks for counts only where it says that there were too many
/// messages, and is the number of seconds that it names.
pub proof fn law_pause_is_asked_for(status: u16, body: Seq<char>)
    ensures
        status != 429 ==> discord::pause_of(status, body) is None,
        status == 429 && codec::read_text(body) is Err ==> discord::pause_of(status, body) is None,
        status == 429 ==> (codec::read_text(body) matches Ok(node) && node is Object
            && (json::member(node, "retry_after"@) matches Some(Node::Number(n))
            && discord::pause_of(status, body) == discord::span_in(n.text)) || codec::read_text(
            body,
        ) is Err || !(codec::read_text(body)->Ok_0 is Object) || !(json::member(
            codec::read_text(body)->Ok_0,
            "retry_after"@,
        ) matches Some(Node::Number(_)))),
        status == 429 && (codec::read_text(body) matches Ok(node) && node is Object
            && json::member(node, "retry_after"@) is None) ==> discord::pause_of(status, body)
            is None,
{
}

/// A message is sent again only where the answer says when, and at most twice: after the
/// pause that it names and fifty milliseconds for each attempt so far. Else it has failed.
pub proof fn law_message_is_sent_again(failure: FailureView, attempt: u32)
    ensures
        failure.retry_after is None ==> discord::step_after(failure, attempt) == StepView::Failed(
            failure.message,
        ),
        attempt >= 3 ==> discord::step_after(failure, attempt) == StepView::Failed(
            failure.message,
        ),
        failure.retry_after matches Some(pause) && attempt < 3 && pause + 50_000_000 * attempt
            <= u128::MAX ==> discord::step_after(failure, attempt) == (StepView::Retry {
            pause_nanos: (failure.retry_after->Some_0 + 50_000_000 * attempt) as u128,
        }),
        failure.retry_after is Some && attempt < 3 ==> discord::step_after(failure, attempt)
            is Retry,
{
}

/// A target is left alone from its third failure in a row on, for five seconds since the last
/// of them. Until then, and after it, it may be tried.
pub proof fn law_failing_target_is_left_alone(circuit: CircuitBreaker, failed: u64, now: u64)
    requires
        circuit.failures < u32::MAX,
    ensures
        ({
            let after = discord::after_failure(circuit, failed);
            &&& after.failures == circuit.failures + 1
            &&& circuit.failures >= 2 ==> after.open_since == Some(failed)
            &&& circuit.failures < 2 ==> after.open_since == circuit.open_since
            &&& circuit.failures >= 2 && now >= failed ==> (discord::may_try(after, now) <==> now
                - failed >= 5000)
            &&& circuit.failures < 2 && circuit.open_since is None ==> discord::may_try(after, now)
        }),
{
}

/// A success closes the matter: no failure is counted, and the target may be tried.
pub proof fn law_success_forgets_failures(now: u64)
    ensures
        discord::closed_circuit().failures == 0,
        discord::closed_circuit().open_since is None,
        discord::may_try(discord::closed_circuit(), now),
{
}

/// A failure counts against its own target and no other, where it is an outage; where the
/// message is not sent again it is kept, with its target, its attempts and its error, behind
/// those that were kept before.
pub proof fn law_failure_is_taken_down(
    state: DiscordView,
    target: TargetView,
    message: MessageView,
    attempt: u32,
    failure: FailureView,
    now_ms: u64,
    other: Seq<char>,
)
    requires
        other != discord::key_of(target),
    ensures
        ({
            let after = discord::known_after(state, target, message, attempt, failure, now_ms);
            let key = discord::key_of(target);
            &&& after.paced == state.paced
            &&& discord::circuit_of(after.circuits, other) == discord::circuit_of(
                state.circuits,
                other,
            )
            &&& discord::is_outage(failure.message) ==> discord::circuit_of(after.circuits, key)
                == discord::after_failure(discord::circuit_of(state.circuits, key), now_ms)
            &&& !discord::is_outage(failure.message) ==> after.circuits == state.circuits
            &&& attempt < 3 && failure.retry_after is Some ==> after.dlq == state.dlq
            &&& attempt >= 3 || failure.retry_after is None ==> {
                &&& after.dlq.len() == state.dlq.len() + 1
                &&& after.dlq.drop_last() == state.dlq
                &&& after.dlq.last().original_topic == message.event_kind
                &&& after.dlq.last().event_kind == message.event_kind
                &&& after.dlq.last().retry_count == attempt
                &&& after.dlq.last().last_error == failure.message
                &&& after.dlq.last().target == key
                &&& after.dlq.last().content == message.content
                &&& after.dlq.last().payload == message.payload
            }
        }),
{
    let key = discord::key_of(target);
    let circuit = discord::after_failure(discord::circuit_of(state.circuits, key), now_ms);
    table::law_put_then_lookup(state.circuits, key, circuit, other);
    let after = discord::known_after(state, target, message, attempt, failure, now_ms);
    if attempt >= 3 || failure.retry_after is None {
        assert(after.dlq.drop_last() =~= state.dlq);
    }
}

/// The format of a message that did not arrive is kept by its name.
pub proof fn law_buried_format(target: TargetView, message: MessageView, error: Seq<char>)
    ensures
        discord::buried(target, message, 3, error).format == (match message.format {
            MessageFormat::Compact => "compact"@,
            MessageFormat::Alert => "alert"@,
            MessageFormat::Inline => "inline"@,
            MessageFormat::Raw => "raw"@,
        }),
{
}

/// The wait before each of some messages to one target that come at the same moment.
pub open spec fn paced_by(n: nat, now_ms: u64) -> u64
    decreases n,
{
    if n == 0 {
        0
    } else {
        discord::paced_after(paced_by((n - 1) as nat, now_ms), now_ms)
    }
}

proof fn lemma_pace(n: nat, now_ms: u64)
    requires
        n > 0,
        now_ms + 200 * n <= u64::MAX,
    ensures
        paced_by(n, now_ms) == now_ms + 200 * n,
    decreases n,
{
    if n > 1 {
        lemma_pace((n - 1) as nat, now_ms);
    } else {
        assert(paced_by(0, now_ms) == 0);
    }
}

/// Five messages to a target may come at once; each one more waits two hundred milliseconds
/// longer.
pub proof fn law_messages_are_paced(n: nat, now_ms: u64)
    requires
        now_ms + 200 * (n + 5) <= u64::MAX,
    ensures
        discord::wait_before(paced_by(n, now_ms), now_ms) == (if n < 5 {
            0
        } else {
            200 * (n - 4)
        }),
{
    if n > 0 {
        lemma_pace(n, now_ms);
    }
}

/// The pace of a target starts at zero, and each target has its own.
pub proof fn law_each_target_has_its_pace(
    paced: Seq<(Seq<char>, u64)>,
    key: Seq<char>,
    other: Seq<char>,
    now_ms: u64,
)
    requires
        other != key,
    ensures
        table::lookup(paced, key) is None ==> discord::paced_for(paced, key) == 0,
        ({
            let next = discord::paced_after(discord::paced_for(paced, key), now_ms);
            let after = table::put(paced, key, next);
            &&& discord::paced_for(after, key) == next
            &&& discord::paced_for(after, other) == discord::paced_for(paced, other)
        }),
{
    let next = discord::paced_after(discord::paced_for(paced, key), now_ms);
    table::law_put_then_lookup(paced, key, next, other);
    table::law_put_then_lookup(paced, key, next, key);
}

/// The line of a message that did not arrive holds, as JSON and in this order, its topic, the
/// attempts, the last error, the target, the kind, the format, the content and the payload.
pub proof fn law_line_of_a_buried_message(entry: BuriedView)
    ensures
        ({
            let quoted = |s: Seq<char>| codec::json_text(Node::Text(s));
            discord::buried_text(entry) == "{\"original_topic\":"@ + quoted(entry.original_topic)
                + ",\"retry_count\":"@ + codec::json_text(json::whole(entry.retry_count as u64))
                + ",\"last_error\":"@ + quoted(entry.last_error) + ",\"target\":"@ + quoted(
                entry.target,
            ) + ",\"event_kind\":"@ + quoted(entry.event_kind) + ",\"format\":"@ + quoted(
                entry.format,
            ) + ",\"content\":"@ + quoted(entry.content) + ",\"payload\":"@ + codec::json_text(
                entry.payload,
            ) + "}"@
        }),
{
}

} // verus!
