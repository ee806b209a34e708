use vstd::prelude::*;
use crate::event::{classification, classify, Classified, ClassifiedView, RawEvent, EVENT_KINDS};

verus! {

/// Where the dispatch loop stands.
#[derive(Clone, Copy, Debug, PartialEq, Eq, Structural)]
pub enum LoopState {
    /// The engine is to be advanced.
    Advancing,
    /// The engine advanced; its pending events are being drained.
    Draining,
    /// The loop has stopped on a fault and drives the engine no more.
    Stopped,
}

/// What the engine reported after the last action.
#[derive(Debug)]
pub enum LoopInput {
    /// Advancing the engine succeeded.
    Advanced,
    /// Advancing the engine failed.
    AdvanceFailed,
    /// A pop returned this event.
    Popped(RawEvent),
    /// A pop found the queue empty.
    QueueEmpty,
}

/// Why the loop stopped.
#[derive(Clone, Copy, Debug, PartialEq, Eq, Structural)]
pub enum LoopFault {
    /// The engine failed to advance and is in an unknown state.
    AdvanceFailed,
    /// The engine emitted a discriminant outside its own range.
    UnknownEvent(u32),
    /// The engine was reported on out of turn (a pop result while advancing,
    /// or an advance result while draining).
    UnexpectedInput,
}

/// What the runner of the loop is to do next.
#[derive(Debug)]
pub enum LoopAction {
    /// Advance the engine and report how it went.
    Advance,
    /// Pop the next pending event and report it.
    Pop,
    /// Hand this event to the handler, then pop the next pending event.
    Deliver(Classified),
    /// Stop driving the engine: a fatal fault.
    Stop(LoopFault),
    /// Nothing: the loop has stopped.
    Idle,
}

/// The mathematical value of an action.
pub enum ActionView {
    Advance,
    Pop,
    Deliver(ClassifiedView),
    Stop(LoopFault),
    Idle,
}

impl View for LoopAction {
    type V = ActionView;

    open spec fn view(&self) -> ActionView {
        match self {
            LoopAction::Advance => ActionView::Advance,
            LoopAction::Pop => ActionView::Pop,
            LoopAction::Deliver(c) => ActionView::Deliver(c@),
            LoopAction::Stop(f) => ActionView::Stop(*f),
            LoopAction::Idle => ActionView::Idle,
        }
    }
}

/// One decision of the loop: the next state and action, given the state and
/// what the engine reported.
pub open spec fn step_spec(s: LoopState, input: LoopInput) -> (LoopState, ActionView) {
    match s {
        LoopState::Advancing => match input {
            LoopInput::Advanced => (LoopState::Draining, ActionView::Pop),
            LoopInput::AdvanceFailed => (
                LoopState::Stopped,
                ActionView::Stop(LoopFault::AdvanceFailed),
            ),
            _ => (LoopState::Stopped, ActionView::Stop(LoopFault::UnexpectedInput)),
        },
        LoopState::Draining => match input {
            LoopInput::Popped(raw) => match classification(raw.discriminant, raw.payload@) {
                Some(c) => (LoopState::Draining, ActionView::Deliver(c)),
                None => (
                    LoopState::Stopped,
                    ActionView::Stop(LoopFault::UnknownEvent(raw.discriminant)),
                ),
            },
            LoopInput::QueueEmpty => (LoopState::Advancing, ActionView::Advance),
            _ => (LoopState::Stopped, ActionView::Stop(LoopFault::UnexpectedInput)),
        },
        LoopState::Stopped => (LoopState::Stopped, ActionView::Idle),
    }
}

/// The state reached and the actions taken over a run of reports.
pub open spec fn run_spec(s: LoopState, inputs: Seq<LoopInput>) -> (LoopState, Seq<ActionView>)
    decreases inputs.len(),
{
    if inputs.len() == 0 {
        (s, Seq::empty())
    } else {
        let (next, action) = step_spec(s, inputs[0]);
        let (last, rest) = run_spec(next, inputs.drop_first());
        (last, seq![action] + rest)
    }
}

/// The decisions of the loop that advances the engine and drains its event
/// queue. Whoever runs it performs each action on the engine and reports the
/// outcome; it is the only one to drive the engine.
pub struct DispatchLoop {
    pub state: LoopState,
}

impl DispatchLoop {
    /// A loop that starts by advancing the engine.
    pub fn new() -> (r: (DispatchLoop, LoopAction))
        ensures
            r.0.state == LoopState::Advancing,
            r.1@ == ActionView::Advance,
    {
        (DispatchLoop { state: LoopState::Advancing }, LoopAction::Advance)
    }

    /// Takes in what the engine reported and decides the next action.
    pub fn on_input(&mut self, input: LoopInput) -> (r: LoopAction)
        ensures
            (final(self).state, r@) == step_spec(old(self).state, input),
    {
        match self.state {
            LoopState::Advancing => match input {
                LoopInput::Advanced => {
                    self.state = LoopState::Draining;
                    LoopAction::Pop
                },
                LoopInput::AdvanceFailed => {
                    self.state = LoopState::Stopped;
                    LoopAction::Stop(LoopFault::AdvanceFailed)
                },
                _ => {
                    self.state = LoopState::Stopped;
                    LoopAction::Stop(LoopFault::UnexpectedInput)
                },
            },
            LoopState::Draining => match input {
                LoopInput::Popped(raw) => match classify(raw) {
                    Ok(c) => LoopAction::Deliver(c),
                    Err(u) => {
                        self.state = LoopState::Stopped;
                        LoopAction::Stop(LoopFault::UnknownEvent(u.discriminant))
                    },
                },
                LoopInput::QueueEmpty => {
                    self.state = LoopState::Advancing;
                    LoopAction::Advance
                },
                _ => {
                    self.state = LoopState::Stopped;
                    LoopAction::Stop(LoopFault::UnexpectedInput)
                },
            },
            LoopState::Stopped => LoopAction::Idle,
        }
    }
}

/// The reports of a drain that pops these events in turn.
pub open spec fn pops(events: Seq<RawEvent>) -> Seq<LoopInput> {
    events.map_values(|e: RawEvent| LoopInput::Popped(e))
}

/// The deliveries of these events, in order.
pub open spec fn deliveries(events: Seq<RawEvent>) -> Seq<ActionView> {
    events.map_values(
        |e: RawEvent| ActionView::Deliver(classification(e.discriminant, e.payload@)->0),
    )
}

/// Every event has a discriminant that the engine defines.
pub open spec fn all_known(events: Seq<RawEvent>) -> bool {
    forall|i: int| 0 <= i < events.len() ==> #[trigger] events[i].discriminant < EVENT_KINDS
}

proof fn lemma_drain_prefix(events: Seq<RawEvent>, rest: Seq<LoopInput>)
    requires
        all_known(events),
    ensures
        run_spec(LoopState::Draining, pops(events) + rest) == (
            run_spec(LoopState::Draining, rest).0,
            deliveries(events) + run_spec(LoopState::Draining, rest).1,
        ),
    decreases events.len(),
{
    if events.len() > 0 {
        let tail = events.drop_first();
        assert(all_known(tail)) by {
            assert forall|i: int| 0 <= i < tail.len() implies #[trigger] tail[i].discriminant
                < EVENT_KINDS by {
                assert(tail[i] == events[i + 1]);
            }
        }
        lemma_drain_prefix(tail, rest);
        let inputs = pops(events) + rest;
        assert(inputs[0] == LoopInput::Popped(events[0]));
        assert(events[0].discriminant < EVENT_KINDS);
        assert(inputs.drop_first() =~= pops(tail) + rest);
        assert(deliveries(events) =~= seq![deliveries(events)[0]] + deliveries(tail));
    } else {
        assert(pops(events) + rest =~= rest);
        assert(deliveries(events) + run_spec(LoopState::Draining, rest).1
            =~= run_spec(LoopState::Draining, rest).1);
    }
}

/// Draining is exhaustive for each advance: when the engine advances and
/// then has these events queued, the handler receives every one of them,
/// classified and in the order they were popped, before the loop advances
/// the engine again.
pub proof fn lemma_drain_exhaustive(events: Seq<RawEvent>)
    requires
        all_known(events),
    ensures
        run_spec(
            LoopState::Advancing,
            seq![LoopInput::Advanced] + pops(events) + seq![LoopInput::QueueEmpty],
        ) == (
            LoopState::Advancing,
            seq![ActionView::Pop] + deliveries(events) + seq![ActionView::Advance],
        ),
{
    let tail = seq![LoopInput::QueueEmpty];
    lemma_drain_prefix(events, tail);
    let inputs = seq![LoopInput::Advanced] + pops(events) + tail;
    assert(inputs[0] == LoopInput::Advanced);
    assert(inputs.drop_first() =~= pops(events) + tail);
    assert(tail.drop_first() =~= Seq::<LoopInput>::empty());
    assert(run_spec(LoopState::Advancing, tail.drop_first()) == (
        LoopState::Advancing,
        Seq::<ActionView>::empty(),
    ));
    assert(run_spec(LoopState::Draining, tail).0 == LoopState::Advancing);
    assert(run_spec(LoopState::Draining, tail).1 =~= seq![ActionView::Advance]);
    assert(run_spec(LoopState::Advancing, inputs).1 =~= seq![ActionView::Pop] + deliveries(events)
        + seq![ActionView::Advance]);
}

} // verus!
