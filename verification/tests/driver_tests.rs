use gpu_usage::driver::{first_action, step, Action, Event, Mode, State, LOOP_PAUSE_SECONDS};
use gpu_usage::error::GpuError;

#[test]
fn a_run_starts_by_acquiring() {
    assert_eq!(first_action(), Action::Acquire);
    assert_eq!(step(Mode::SingleShot, State::Start, Event::Acquired), (State::Ready, Action::Sample));
    assert_eq!(step(Mode::Loop, State::Start, Event::Acquired), (State::Ready, Action::Sample));
}

#[test]
fn single_shot_exits_after_one_line() {
    assert_eq!(step(Mode::SingleShot, State::Ready, Event::Emitted), (State::Done, Action::Exit));
    assert_eq!(step(Mode::SingleShot, State::Done, Event::Emitted), (State::Done, Action::Exit));
}

#[test]
fn loop_pauses_one_second_and_goes_on() {
    assert_eq!(LOOP_PAUSE_SECONDS, 1);
    let mut state = State::Ready;
    for _ in 0..50 {
        let (next, action) = step(Mode::Loop, state, Event::Emitted);
        assert_eq!(next, State::Ready);
        assert_eq!(action, Action::SleepThenSample(1));
        state = next;
    }
}

#[test]
fn a_failure_ends_the_run() {
    for mode in [Mode::SingleShot, Mode::Loop] {
        assert_eq!(
            step(mode, State::Start, Event::Failed(GpuError::NvmlUnavailable)),
            (State::Terminated(GpuError::NvmlUnavailable), Action::Abort(GpuError::NvmlUnavailable))
        );
        assert_eq!(
            step(mode, State::Start, Event::Failed(GpuError::DeviceNotFound)),
            (State::Terminated(GpuError::DeviceNotFound), Action::Abort(GpuError::DeviceNotFound))
        );
        assert_eq!(
            step(mode, State::Ready, Event::Failed(GpuError::MemoryInfo)),
            (State::Terminated(GpuError::MemoryInfo), Action::Abort(GpuError::MemoryInfo))
        );
        for later in [Event::Acquired, Event::Emitted, Event::Failed(GpuError::ClockInfo)] {
            assert_eq!(
                step(mode, State::Terminated(GpuError::MemoryInfo), later),
                (State::Terminated(GpuError::MemoryInfo), Action::Abort(GpuError::MemoryInfo))
            );
        }
    }
}

#[test]
fn events_out_of_place_change_nothing() {
    assert_eq!(step(Mode::Loop, State::Start, Event::Emitted), (State::Start, Action::Acquire));
    assert_eq!(step(Mode::Loop, State::Ready, Event::Acquired), (State::Ready, Action::Sample));
    assert_eq!(
        step(Mode::SingleShot, State::Done, Event::Failed(GpuError::ClockInfo)),
        (State::Done, Action::Exit)
    );
}
