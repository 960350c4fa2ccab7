//! From events to messages: what is gathered, what goes out, and where to.
use vstd::prelude::*;
use vstd::string::*;

use std::time::Duration;

use crate::discord::{MessageView, SinkMessage};
use crate::dispatch;
use crate::dispatch::{BatcherView, CiBatchView, GitHubCiBatcher, WakeView};
use crate::events;
use crate::events::{EventView, IncomingEvent};
use crate::render;
use crate::render::{is_ci, DefaultRenderer};
use crate::router;
use crate::router::{
    with_delivery_mention, BodyView, DeliveryBody, DeliveryView, ResolvedDelivery, Router,
};
use crate::text;
use crate::text::list_has;

verus! {

broadcast use crate::json::group_trees;

/// Gathers CI jobs and plans the messages to which events lead.
pub struct Dispatcher {
    pub router: Router,
    /// The names of the sinks that are there.
    pub sinks: Vec<String>,
    pub ci_batcher: GitHubCiBatcher,
}

/// What a dispatcher takes in.
#[derive(Debug)]
pub enum DispatchInput {
    /// An event came.
    Event(IncomingEvent),
    /// Some time went by.
    Tick,
    /// No event will come any more.
    Closed,
}

/// What a dispatcher takes in.
pub enum InputView {
    Event(EventView),
    Tick,
    Closed,
}

impl View for DispatchInput {
    type V = InputView;

    open spec fn view(&self) -> InputView {
        match self {
            DispatchInput::Event(event) => InputView::Event(event@),
            DispatchInput::Tick => InputView::Tick,
            DispatchInput::Closed => InputView::Closed,
        }
    }
}

// ---------------------------------------------------------------------------
// Which events go out
// ---------------------------------------------------------------------------

/// The gathering after the batches whose moment has come were taken out, and the
/// events of those batches.
pub open spec fn flushed(state: BatcherView, now_ms: u64) -> (BatcherView, Seq<EventView>) {
    let out = dispatch::flush_wakes(state.pending, dispatch::due_wakes(state.wakes, now_ms));
    (
        BatcherView {
            pending: out.pending,
            wakes: dispatch::later_wakes(state.wakes, now_ms),
        },
        out.events,
    )
}

/// The events of all batches.
pub open spec fn all_events(pending: Seq<(Seq<char>, CiBatchView)>) -> Seq<EventView> {
    Seq::new(pending.len(), |i: int| dispatch::batch_event(pending[i].1))
}

/// The gathering after an input, and the events that go out, in their order: what
/// was due comes before what the input leads to.
pub open spec fn handled(state: BatcherView, input: InputView, now_ms: u64, window_ms: u64) -> (
    BatcherView,
    Seq<EventView>,
) {
    match input {
        InputView::Tick => flushed(state, now_ms),
        InputView::Closed => (
            BatcherView { pending: Seq::empty(), wakes: state.wakes },
            all_events(state.pending),
        ),
        InputView::Event(event) => {
            let (rest, due) = flushed(state, now_ms);
            if render::is_ci_kind(events::canonical_kind(event.kind)) {
                (
                    rest.observed(event, now_ms, window_ms),
                    due + rest.observed_events(event, now_ms, window_ms),
                )
            } else {
                (rest, due.push(event))
            }
        },
    }
}

fn add_events(out: &mut Vec<IncomingEvent>, more: Vec<IncomingEvent>)
    ensures
        text::all_views(final(out)@) == text::all_views(old(out)@) + text::all_views(more@),
{
    let ghost before = text::all_views(out@);
    let ghost wanted = text::all_views(more@);
    let mut more = more;
    out.append(&mut more);
    assert(text::all_views(out@) =~= before + wanted);
}

// ---------------------------------------------------------------------------
// Where they go
// ---------------------------------------------------------------------------

/// What is done about a delivery.
pub enum DeliveryStep {
    /// Its text is sent, once the dynamic tokens in it are filled in.
    Send(ResolvedDelivery, DeliveryBody),
    /// There is no sink of that name.
    MissingSink(ResolvedDelivery),
    /// There is no text for it.
    Unrendered(ResolvedDelivery, String),
}

/// What is done about a delivery.
pub enum DeliveryStepView {
    Send(DeliveryView, BodyView),
    MissingSink(DeliveryView),
    Unrendered(DeliveryView, Seq<char>),
}

impl View for DeliveryStep {
    type V = DeliveryStepView;

    open spec fn view(&self) -> DeliveryStepView {
        match self {
            DeliveryStep::Send(delivery, body) => DeliveryStepView::Send(delivery@, body@),
            DeliveryStep::MissingSink(delivery) => DeliveryStepView::MissingSink(delivery@),
            DeliveryStep::Unrendered(delivery, error) => DeliveryStepView::Unrendered(
                delivery@,
                error@,
            ),
        }
    }
}

/// What is done about a delivery.
pub open spec fn step_of(
    event: EventView,
    delivery: DeliveryView,
    sinks: Seq<Seq<char>>,
) -> DeliveryStepView {
    if !sinks.contains(delivery.sink) {
        DeliveryStepView::MissingSink(delivery)
    } else {
        match router::body_of(event, delivery) {
            Ok(body) => DeliveryStepView::Send(delivery, body),
            Err(error) => DeliveryStepView::Unrendered(delivery, error),
        }
    }
}

/// What is done about each of some deliveries.
pub open spec fn steps_of(
    event: EventView,
    deliveries: Seq<DeliveryView>,
    sinks: Seq<Seq<char>>,
) -> Seq<DeliveryStepView> {
    Seq::new(deliveries.len(), |i: int| step_of(event, deliveries[i], sinks))
}

/// Steps or an error, as they are.
pub open spec fn steps_result(r: Result<Vec<DeliveryStep>, String>) -> Result<
    Seq<DeliveryStepView>,
    Seq<char>,
> {
    match r {
        Ok(steps) => Ok(text::all_views(steps@)),
        Err(error) => Err(error@),
    }
}

/// The message of a delivery whose text is complete but for the mention.
pub open spec fn message_of(
    event: EventView,
    delivery: DeliveryView,
    content: Seq<char>,
) -> MessageView {
    MessageView {
        event_kind: events::canonical_kind(event.kind),
        format: delivery.format,
        content: router::mentioned(delivery.mention, content),
        payload: event.payload,
    }
}

/// The message of a delivery whose text is complete but for the mention.
pub fn sink_message(event: &IncomingEvent, delivery: &ResolvedDelivery, content: String) -> (r:
    SinkMessage)
    ensures
        r@ == message_of(event@, delivery@, content@),
{
    SinkMessage {
        event_kind: event.canonical_kind().to_owned(),
        format: delivery.format,
        content: with_delivery_mention(delivery, content),
        payload: event.payload.clone(),
    }
}

impl Dispatcher {
    /// The invariant of what is gathered.
    pub open spec fn wf(self) -> bool {
        self.ci_batcher@.wf()
    }

    /// A dispatcher that has gathered nothing.
    pub fn new(router: Router, sinks: Vec<String>, ci_batch_window: Duration) -> (r: Self)
        ensures
            r.router == router,
            r.sinks == sinks,
            r.ci_batcher.window == ci_batch_window,
            r.ci_batcher@ == (BatcherView { pending: Seq::empty(), wakes: Seq::empty() }),
            r.wf(),
    {
        let ci_batcher = GitHubCiBatcher::new(ci_batch_window);
        assert(ci_batcher@ == (BatcherView {
            pending: Seq::<(Seq<char>, CiBatchView)>::empty(),
            wakes: Seq::<WakeView>::empty(),
        }));
        Dispatcher { router, sinks, ci_batcher }
    }

    /// Tells whether the end of a window that begins at a moment can be counted.
    pub fn window_fits(&self, now_ms: u64) -> (r: bool)
        ensures
            r == (now_ms + dispatch::millis_in(self.ci_batcher.window) <= u64::MAX),
    {
        let window_ms: u64 = self.ci_batcher.window.as_millis() as u64;
        now_ms <= u64::MAX - window_ms
    }

    /// Takes in an input: the events that go out.
    pub fn handle(&mut self, input: DispatchInput, now_ms: u64) -> (r: Vec<IncomingEvent>)
        requires
            old(self).wf(),
            now_ms + dispatch::millis_in(old(self).ci_batcher.window) <= u64::MAX,
        ensures
            (final(self).ci_batcher@, text::all_views(r@)) == handled(
                old(self).ci_batcher@,
                input@,
                now_ms,
                dispatch::millis_in(old(self).ci_batcher.window),
            ),
            final(self).wf(),
            final(self).router == old(self).router,
            final(self).sinks == old(self).sinks,
            final(self).ci_batcher.window == old(self).ci_batcher.window,
    {
        match input {
            DispatchInput::Tick => self.ci_batcher.flush_due(now_ms),
            DispatchInput::Closed => self.ci_batcher.flush_all(),
            DispatchInput::Event(event) => {
                let mut out = self.ci_batcher.flush_due(now_ms);
                if is_ci(event.canonical_kind()) {
                    let more = self.ci_batcher.observe(&event, now_ms);
                    add_events(&mut out, more);
                } else {
                    let ghost before = text::all_views(out@);
                    let ghost view = event@;
                    out.push(event);
                    assert(text::all_views(out@) =~= before.push(view));
                }
                out
            },
        }
    }

    /// What is done about each delivery to which an event leads.
    pub fn plan_deliveries(&self, event: &IncomingEvent, renderer: &DefaultRenderer) -> (r: Result<
        Vec<DeliveryStep>,
        String,
    >)
        ensures
            steps_result(r) == (match router::resolved(self.router.config@, event@) {
                Ok(deliveries) => Ok(steps_of(event@, deliveries, text::views(self.sinks@))),
                Err(error) => Err(error),
            }),
    {
        let deliveries = match self.router.resolve(event) {
            Ok(deliveries) => deliveries,
            Err(error) => return Err(error),
        };
        let ghost sinks = text::views(self.sinks@);
        let ghost wanted = steps_of(event@, text::all_views(deliveries@), sinks);
        let mut out: Vec<DeliveryStep> = Vec::new();
        let mut i: usize = 0;
        assert(text::all_views(out@) =~= wanted.take(0));
        while i < deliveries.len()
            invariant
                i <= deliveries.len(),
                sinks == text::views(self.sinks@),
                wanted == steps_of(event@, text::all_views(deliveries@), sinks),
                text::all_views(out@) == wanted.take(i as int),
            decreases deliveries.len() - i,
        {
            let delivery = deliveries[i].clone();
            let step = if !list_has(&self.sinks, delivery.sink.as_str()) {
                DeliveryStep::MissingSink(delivery)
            } else {
                match self.router.render_delivery_body(event, &delivery, renderer) {
                    Ok(body) => DeliveryStep::Send(delivery, body),
                    Err(error) => DeliveryStep::Unrendered(delivery, error),
                }
            };
            let ghost before = text::all_views(out@);
            let ghost view = step@;
            assert(view == wanted[i as int]);
            out.push(step);
            assert(text::all_views(out@) =~= before.push(view));
            assert(text::all_views(out@) =~= wanted.take(i + 1));
            i = i + 1;
        }
        assert(wanted.take(i as int) =~= wanted);
        Ok(out)
    }
}

// ---------------------------------------------------------------------------
// Laws
// ---------------------------------------------------------------------------

/// An event that is no CI job is never held back.
pub proof fn law_other_events_are_not_held_back(
    state: BatcherView,
    event: EventView,
    now_ms: u64,
    window_ms: u64,
)
    requires
        !render::is_ci_kind(events::canonical_kind(event.kind)),
    ensures
        handled(state, InputView::Event(event), now_ms, window_ms).1.len() > 0,
        handled(state, InputView::Event(event), now_ms, window_ms).1.last() == event,
        handled(state, InputView::Event(event), now_ms, window_ms).0 == handled(
            state,
            InputView::Tick,
            now_ms,
            window_ms,
        ).0,
{
}

/// In the end nothing is left behind: every batch goes out, each once.
pub proof fn law_closing_leaves_nothing(state: BatcherView, now_ms: u64, window_ms: u64, i: int)
    requires
        0 <= i < state.pending.len(),
    ensures
        handled(state, InputView::Closed, now_ms, window_ms).0.pending.len() == 0,
        handled(state, InputView::Closed, now_ms, window_ms).1.len() == state.pending.len(),
        handled(state, InputView::Closed, now_ms, window_ms).1[i] == dispatch::batch_event(
            state.pending[i].1,
        ),
{
}

/// A delivery that fails keeps no other from being made: what is done about one
/// does not depend on the others.
pub proof fn law_deliveries_are_independent(
    event: EventView,
    a: Seq<DeliveryView>,
    b: Seq<DeliveryView>,
    sinks: Seq<Seq<char>>,
)
    ensures
        steps_of(event, a + b, sinks) == steps_of(event, a, sinks) + steps_of(event, b, sinks),
{
    assert(steps_of(event, a + b, sinks) =~= steps_of(event, a, sinks) + steps_of(
        event,
        b,
        sinks,
    ));
}

} // verus!
