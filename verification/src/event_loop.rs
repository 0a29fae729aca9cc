//! The decisions of the event pump: which properties are observed under
//! which reply tag, where events are published, and what each outcome of a
//! wait leads to.

use vstd::prelude::*;
use crate::libmpv::error::Error;
use crate::libmpv::event::Event;
use crate::libmpv::models::MpvFormat;
use crate::libmpv::text::join2;
use crate::models::ObservedProperty;

verus! {

/// The seconds that the pump waits for an event before it waits again.
pub const EVENT_WAIT_SECONDS: u64 = 60;

/// A standing subscription to the changes of a property. The reply tag comes
/// back with every change.
#[derive(Debug, Clone, PartialEq, Eq)]
pub struct Observation {
    pub name: String,
    pub format: MpvFormat,
    pub reply_id: u64,
}

/// The observations are those of the properties, in order, tagged from one
/// upwards.
pub open spec fn observe_all(props: Seq<ObservedProperty>, observations: Seq<Observation>) -> bool {
    &&& observations.len() == props.len()
    &&& forall|i: int|
        0 <= i < props.len() ==> (#[trigger] observations[i]).name@ == props[i].name@
            && observations[i].format == props[i].format && observations[i].reply_id == i + 1
}

/// The subscriptions for the properties of a configuration: one for each, in
/// order, with the tags 1, 2, 3 and so on, so that no two share a tag.
pub fn observations(props: &Vec<ObservedProperty>) -> (res: Vec<Observation>)
    ensures
        observe_all(props@, res@),
        forall|i: int, j: int|
            0 <= i < j < res@.len() ==> (#[trigger] res@[i]).reply_id != (#[trigger] res@[j])
                .reply_id,
{
    let mut out: Vec<Observation> = Vec::new();
    let mut i: usize = 0;
    while i < props.len()
        invariant
            i <= props.len(),
            observe_all(props@.subrange(0, i as int), out@),
        decreases props.len() - i,
    {
        let reply_id: u64 = i as u64 + 1;
        out.push(Observation { name: props[i].name.clone(), format: props[i].format, reply_id });
        i += 1;
    }
    proof {
        assert(props@.subrange(0, props@.len() as int) =~= props@);
    }
    out
}

/// The name of the channel on which a window's events are published.
pub fn channel_name(window_label: &str) -> (res: String)
    ensures
        res@ == "mpv-event-"@ + window_label@,
{
    join2("mpv-event-", window_label)
}

/// What the pump does with the outcome of one wait.
#[derive(Debug, PartialEq, Eq)]
pub enum PumpStep {
    /// Publish the event and wait again.
    Emit(Event),
    /// Publish the event, which is the engine's shutdown, and end.
    EmitAndStop(Event),
    /// The wait timed out: wait again.
    Idle,
    /// The wait failed: end without publishing.
    Stop(Error),
}

/// The outcome of one wait: nothing on a timeout, else an event or a
/// failure.
pub type WaitOutcome = Option<Result<Event, Error>>;

/// What the pump does with the outcome of one wait.
pub open spec fn spec_pump_step(outcome: WaitOutcome) -> PumpStep {
    match outcome {
        None => PumpStep::Idle,
        Some(Ok(event)) => if event is Shutdown {
            PumpStep::EmitAndStop(event)
        } else {
            PumpStep::Emit(event)
        },
        Some(Err(e)) => PumpStep::Stop(e),
    }
}

/// Decides what the pump does with the outcome of one wait.
pub fn pump_step(outcome: WaitOutcome) -> (res: PumpStep)
    ensures
        res == spec_pump_step(outcome),
{
    match outcome {
        None => PumpStep::Idle,
        Some(Ok(Event::Shutdown)) => PumpStep::EmitAndStop(Event::Shutdown),
        Some(Ok(event)) => PumpStep::Emit(event),
        Some(Err(e)) => PumpStep::Stop(e),
    }
}

/// The events that a pump publishes, in order, where its waits have the
/// given outcomes in order.
pub open spec fn emitted(outcomes: Seq<WaitOutcome>) -> Seq<Event>
    decreases outcomes.len(),
{
    if outcomes.len() == 0 {
        Seq::empty()
    } else {
        match spec_pump_step(outcomes[0]) {
            PumpStep::Emit(event) => seq![event] + emitted(outcomes.drop_first()),
            PumpStep::EmitAndStop(event) => seq![event],
            PumpStep::Idle => emitted(outcomes.drop_first()),
            PumpStep::Stop(_) => Seq::empty(),
        }
    }
}

/// The events among the outcomes of the waits, in order.
pub open spec fn returned(outcomes: Seq<WaitOutcome>) -> Seq<Event>
    decreases outcomes.len(),
{
    if outcomes.len() == 0 {
        Seq::empty()
    } else {
        match outcomes[0] {
            Some(Ok(event)) => seq![event] + returned(outcomes.drop_first()),
            _ => returned(outcomes.drop_first()),
        }
    }
}

/// The events that the pump publishes are, in the same order, the first of
/// the events that its waits return.
pub proof fn emitted_is_prefix_of_returned(outcomes: Seq<WaitOutcome>)
    ensures
        emitted(outcomes).len() <= returned(outcomes).len(),
        forall|i: int|
            0 <= i < emitted(outcomes).len() ==> #[trigger] emitted(outcomes)[i] == returned(
                outcomes,
            )[i],
    decreases outcomes.len(),
{
    if outcomes.len() > 0 {
        emitted_is_prefix_of_returned(outcomes.drop_first());
    }
}

/// A shutdown is the last event that the pump publishes.
pub proof fn shutdown_is_published_last(outcomes: Seq<WaitOutcome>)
    ensures
        forall|i: int|
            0 <= i < emitted(outcomes).len() && (#[trigger] emitted(outcomes)[i]) is Shutdown
                ==> i == emitted(outcomes).len() - 1,
    decreases outcomes.len(),
{
    if outcomes.len() > 0 {
        shutdown_is_published_last(outcomes.drop_first());
    }
}

} // verus!
