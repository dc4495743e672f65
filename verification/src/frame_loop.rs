//! The frame loop as a state machine.
//!
//! The caller owns the browser and the GPU. It tells the machine what has
//! happened and carries out the action it gets back: ask the browser for
//! the next animation frame, draw a frame, or report a failure. A failure
//! ends the loop; nothing is retried.

use vstd::prelude::*;

verus! {

/// Where the frame loop stands.
#[derive(Clone, Copy, Debug, PartialEq, Eq, Structural)]
pub enum LoopState {
    /// Not started yet.
    Idle,
    /// The next animation frame has been asked for.
    Waiting,
    /// A frame is being drawn.
    Drawing,
    /// The loop has ended after a failure.
    Stopped,
}

/// What the caller observed.
#[derive(Clone, Copy, Debug, PartialEq, Eq, Structural)]
pub enum LoopEvent {
    /// The loop is to begin.
    Start,
    /// The browser calls back for an animation frame.
    FrameDue,
    /// The frame was drawn and presented.
    Drawn,
    /// Drawing the frame failed.
    DrawFailed,
    /// The browser refused to schedule an animation frame.
    ScheduleFailed,
}

/// What went wrong.
#[derive(Clone, Copy, Debug, PartialEq, Eq, Structural)]
pub enum Failure {
    /// A frame could not be drawn.
    Draw,
    /// No animation frame could be scheduled.
    Schedule,
}

/// What the caller is to do next.
#[derive(Clone, Copy, Debug, PartialEq, Eq, Structural)]
pub enum LoopAction {
    /// Nothing: the event does not concern the loop as it stands.
    Nothing,
    /// Ask the browser for the next animation frame.
    Schedule,
    /// Advance the scene and draw it.
    Draw,
    /// Log the failure. The loop has ended.
    Report(Failure),
}

/// The transition function: the state after an event and the action that
/// the event calls for. An event that does not fit the state changes
/// nothing.
pub open spec fn next(state: LoopState, event: LoopEvent) -> (LoopState, LoopAction) {
    match (state, event) {
        (LoopState::Idle, LoopEvent::Start) => (LoopState::Waiting, LoopAction::Schedule),
        (LoopState::Waiting, LoopEvent::FrameDue) => (LoopState::Drawing, LoopAction::Draw),
        (LoopState::Waiting, LoopEvent::ScheduleFailed) => (
            LoopState::Stopped,
            LoopAction::Report(Failure::Schedule),
        ),
        (LoopState::Drawing, LoopEvent::Drawn) => (LoopState::Waiting, LoopAction::Schedule),
        (LoopState::Drawing, LoopEvent::DrawFailed) => (
            LoopState::Stopped,
            LoopAction::Report(Failure::Draw),
        ),
        _ => (state, LoopAction::Nothing),
    }
}

/// The state reached from `state` after all of `events`, in order.
pub open spec fn run(state: LoopState, events: Seq<LoopEvent>) -> LoopState
    decreases events.len(),
{
    if events.len() == 0 {
        state
    } else {
        run(next(state, events[0]).0, events.drop_first())
    }
}

/// The actions called for while going from `state` through all of
/// `events`, one for each event.
pub open spec fn actions(state: LoopState, events: Seq<LoopEvent>) -> Seq<LoopAction>
    decreases events.len(),
{
    if events.len() == 0 {
        Seq::empty()
    } else {
        seq![next(state, events[0]).1] + actions(
            next(state, events[0]).0,
            events.drop_first(),
        )
    }
}

/// How many of the actions are reports of a failure.
pub open spec fn reports(acts: Seq<LoopAction>) -> nat
    decreases acts.len(),
{
    if acts.len() == 0 {
        0
    } else if acts[0] is Report {
        1 + reports(acts.drop_first())
    } else {
        reports(acts.drop_first())
    }
}

/// The state a loop is in before it has been started.
pub fn initial() -> (state: LoopState)
    ensures
        state == LoopState::Idle,
{
    LoopState::Idle
}

/// Takes one event: returns the state after it and the action it calls
/// for.
pub fn step(state: LoopState, event: LoopEvent) -> (out: (LoopState, LoopAction))
    ensures
        out == next(state, event),
{
    match state {
        LoopState::Idle => match event {
            LoopEvent::Start => (LoopState::Waiting, LoopAction::Schedule),
            _ => (state, LoopAction::Nothing),
        },
        LoopState::Waiting => match event {
            LoopEvent::FrameDue => (LoopState::Drawing, LoopAction::Draw),
            LoopEvent::ScheduleFailed => (
                LoopState::Stopped,
                LoopAction::Report(Failure::Schedule),
            ),
            _ => (state, LoopAction::Nothing),
        },
        LoopState::Drawing => match event {
            LoopEvent::Drawn => (LoopState::Waiting, LoopAction::Schedule),
            LoopEvent::DrawFailed => (LoopState::Stopped, LoopAction::Report(Failure::Draw)),
            _ => (state, LoopAction::Nothing),
        },
        LoopState::Stopped => (state, LoopAction::Nothing),
    }
}

/// A failure is reported exactly on the step that ends the loop, and that
/// step is a failed draw or a refused animation frame.
pub proof fn lemma_report_ends_the_loop(state: LoopState, event: LoopEvent)
    ensures
        next(state, event).1 is Report <==> state != LoopState::Stopped && next(state, event).0
            == LoopState::Stopped,
        next(state, event).1 is Report <==> (state == LoopState::Drawing && event
            == LoopEvent::DrawFailed) || (state == LoopState::Waiting && event
            == LoopEvent::ScheduleFailed),
{
}

/// A frame is drawn only when the browser calls back for one that was
/// asked for, and no second frame is begun while one is being drawn.
pub proof fn lemma_one_frame_at_a_time(state: LoopState, event: LoopEvent, following: LoopEvent)
    requires
        next(state, event).1 == LoopAction::Draw,
    ensures
        state == LoopState::Waiting,
        event == LoopEvent::FrameDue,
        next(state, event).0 == LoopState::Drawing,
        next(next(state, event).0, following).1 != LoopAction::Draw,
{
}

/// Once the loop has ended it stays ended, whatever happens: nothing is
/// drawn, scheduled or reported any more.
pub proof fn lemma_stopped_is_final(events: Seq<LoopEvent>)
    ensures
        run(LoopState::Stopped, events) == LoopState::Stopped,
        actions(LoopState::Stopped, events).len() == events.len(),
        forall|i: int|
            0 <= i < events.len() ==> #[trigger] actions(LoopState::Stopped, events)[i]
                == LoopAction::Nothing,
    decreases events.len(),
{
    if events.len() > 0 {
        lemma_stopped_is_final(events.drop_first());
        let rest: Seq<LoopAction> = actions(LoopState::Stopped, events.drop_first());
        assert forall|i: int| 0 <= i < events.len() implies #[trigger] actions(
            LoopState::Stopped,
            events,
        )[i] == LoopAction::Nothing by {
            if i > 0 {
                assert(actions(LoopState::Stopped, events)[i] == rest[i - 1]);
            }
        }
    }
}

/// Over any course of events at most one failure is reported, and if one
/// is, the loop has ended.
pub proof fn lemma_at_most_one_report(state: LoopState, events: Seq<LoopEvent>)
    ensures
        reports(actions(state, events)) <= 1,
        reports(actions(state, events)) == 1 ==> run(state, events) == LoopState::Stopped,
        state == LoopState::Stopped ==> reports(actions(state, events)) == 0,
    decreases events.len(),
{
    if events.len() > 0 {
        let after: LoopState = next(state, events[0]).0;
        let tail: Seq<LoopAction> = actions(after, events.drop_first());
        let all: Seq<LoopAction> = actions(state, events);
        lemma_at_most_one_report(after, events.drop_first());
        lemma_stopped_is_final(events.drop_first());
        assert(all.drop_first() =~= tail);
        assert(all[0] == next(state, events[0]).1);
    }
}

} // verus!
