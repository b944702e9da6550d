//! The output driver: what to do next, given what has just happened.
//!
//! The driver itself neither prints nor sleeps. It decides; its caller performs
//! the action and reports the event that followed.

use vstd::prelude::*;
use crate::error::GpuError;

verus! {

/// Seconds between two samples in loop mode.
pub const LOOP_PAUSE_SECONDS: u64 = 1;

/// How often a sample is taken.
#[derive(Debug, Clone, Copy, PartialEq, Eq, Structural)]
pub enum Mode {
    /// One sample, then exit.
    SingleShot,
    /// A sample every `LOOP_PAUSE_SECONDS`, without end.
    Loop,
}

/// Where a run stands.
#[derive(Debug, Clone, Copy, PartialEq, Eq, Structural)]
pub enum State {
    /// No device handle yet.
    Start,
    /// The handle is held; a sample can be taken.
    Ready,
    /// The single sample was printed.
    Done,
    /// A stage failed. Nothing follows.
    Terminated(GpuError),
}

/// What the caller reports back.
#[derive(Debug, Clone, Copy, PartialEq, Eq, Structural)]
pub enum Event {
    /// The device handle was acquired.
    Acquired,
    /// A sample was taken and its line printed.
    Emitted,
    /// A stage failed.
    Failed(GpuError),
}

/// What the caller is to do next.
#[derive(Debug, Clone, Copy, PartialEq, Eq, Structural)]
pub enum Action {
    /// Initialise the subsystem and open the device.
    Acquire,
    /// Take a sample and print its line.
    Sample,
    /// Sleep for the given number of seconds, then take a sample and print it.
    SleepThenSample(u64),
    /// Exit with success.
    Exit,
    /// Print the diagnostic of the error and exit with failure.
    Abort(GpuError),
}

/// Whether nothing can follow `state`.
pub open spec fn is_final(state: State) -> bool {
    state is Done || state is Terminated
}

/// The state that follows `state` on `event`. A failure ends the run from any
/// state that is not final; an event that does not belong to a state leaves it.
pub open spec fn next_state(mode: Mode, state: State, event: Event) -> State {
    match (state, event) {
        (State::Start, Event::Failed(e)) => State::Terminated(e),
        (State::Ready, Event::Failed(e)) => State::Terminated(e),
        (State::Start, Event::Acquired) => State::Ready,
        (State::Ready, Event::Emitted) => match mode {
            Mode::Loop => State::Ready,
            Mode::SingleShot => State::Done,
        },
        _ => state,
    }
}

/// The action by which a run leaves, or ends in, `state`.
pub open spec fn pending_action(state: State) -> Action {
    match state {
        State::Start => Action::Acquire,
        State::Ready => Action::Sample,
        State::Done => Action::Exit,
        State::Terminated(e) => Action::Abort(e),
    }
}

/// The action that follows `event` in `state`: that of the next state, with
/// the pause in front where a line was just printed and another is to follow.
pub open spec fn next_action(mode: Mode, state: State, event: Event) -> Action {
    if state == State::Ready && event == Event::Emitted && mode == Mode::Loop {
        Action::SleepThenSample(LOOP_PAUSE_SECONDS)
    } else {
        pending_action(next_state(mode, state, event))
    }
}

/// The first action of every run.
pub fn first_action() -> (action: Action)
    ensures
        action == pending_action(State::Start),
{
    Action::Acquire
}

/// One step of the driver.
pub fn step(mode: Mode, state: State, event: Event) -> (r: (State, Action))
    ensures
        r.0 == next_state(mode, state, event),
        r.1 == next_action(mode, state, event),
{
    match state {
        State::Start => match event {
            Event::Acquired => (State::Ready, Action::Sample),
            Event::Failed(e) => (State::Terminated(e), Action::Abort(e)),
            Event::Emitted => (State::Start, Action::Acquire),
        },
        State::Ready => match event {
            Event::Emitted => match mode {
                Mode::Loop => (State::Ready, Action::SleepThenSample(LOOP_PAUSE_SECONDS)),
                Mode::SingleShot => (State::Done, Action::Exit),
            },
            Event::Failed(e) => (State::Terminated(e), Action::Abort(e)),
            Event::Acquired => (State::Ready, Action::Sample),
        },
        State::Done => (State::Done, Action::Exit),
        State::Terminated(e) => (State::Terminated(e), Action::Abort(e)),
    }
}

/// In loop mode a run never ends on its own: no event leads to `Done`, and
/// every printed line is followed by a pause of one second before the next.
pub proof fn lemma_loop_never_exits(state: State, event: Event)
    requires
        !(state is Done),
    ensures
        !(next_state(Mode::Loop, state, event) is Done),
        next_action(Mode::Loop, state, event) != Action::Exit,
        state is Ready && event is Emitted ==> next_action(Mode::Loop, state, event)
            == Action::SleepThenSample(1),
{
}

/// A failure at any stage ends the run: the state becomes `Terminated` with
/// that error, the action is to abort, and no later event changes either.
pub proof fn lemma_failure_is_final(mode: Mode, state: State, e: GpuError, later: Event)
    requires
        !is_final(state),
    ensures
        next_state(mode, state, Event::Failed(e)) == State::Terminated(e),
        next_action(mode, state, Event::Failed(e)) == Action::Abort(e),
        next_state(mode, State::Terminated(e), later) == State::Terminated(e),
        next_action(mode, State::Terminated(e), later) == Action::Abort(e),
{
}

} // verus!
