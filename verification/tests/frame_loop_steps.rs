use paddleball::frame_loop::{initial, step, Failure, LoopAction, LoopEvent, LoopState};

const STATES: [LoopState; 4] =
    [LoopState::Idle, LoopState::Waiting, LoopState::Drawing, LoopState::Stopped];

const EVENTS: [LoopEvent; 5] = [
    LoopEvent::Start,
    LoopEvent::FrameDue,
    LoopEvent::Drawn,
    LoopEvent::DrawFailed,
    LoopEvent::ScheduleFailed,
];

#[test]
fn loop_begins_idle() {
    assert_eq!(initial(), LoopState::Idle);
}

#[test]
fn starting_schedules_the_first_frame() {
    assert_eq!(step(LoopState::Idle, LoopEvent::Start), (LoopState::Waiting, LoopAction::Schedule));
}

#[test]
fn a_due_frame_is_drawn() {
    assert_eq!(step(LoopState::Waiting, LoopEvent::FrameDue), (LoopState::Drawing, LoopAction::Draw));
}

#[test]
fn a_drawn_frame_schedules_the_next() {
    assert_eq!(step(LoopState::Drawing, LoopEvent::Drawn), (LoopState::Waiting, LoopAction::Schedule));
}

#[test]
fn a_failed_draw_is_reported_and_ends_the_loop() {
    assert_eq!(
        step(LoopState::Drawing, LoopEvent::DrawFailed),
        (LoopState::Stopped, LoopAction::Report(Failure::Draw))
    );
}

#[test]
fn a_refused_frame_is_reported_and_ends_the_loop() {
    assert_eq!(
        step(LoopState::Waiting, LoopEvent::ScheduleFailed),
        (LoopState::Stopped, LoopAction::Report(Failure::Schedule))
    );
}

#[test]
fn unfitting_events_change_nothing() {
    let fitting = [
        (LoopState::Idle, LoopEvent::Start),
        (LoopState::Waiting, LoopEvent::FrameDue),
        (LoopState::Waiting, LoopEvent::ScheduleFailed),
        (LoopState::Drawing, LoopEvent::Drawn),
        (LoopState::Drawing, LoopEvent::DrawFailed),
    ];
    for state in STATES {
        for event in EVENTS {
            if !fitting.contains(&(state, event)) {
                assert_eq!(step(state, event), (state, LoopAction::Nothing));
            }
        }
    }
}

#[test]
fn a_stopped_loop_stays_stopped() {
    for event in EVENTS {
        assert_eq!(step(LoopState::Stopped, event), (LoopState::Stopped, LoopAction::Nothing));
    }
}

#[test]
fn frames_follow_one_another_until_a_draw_fails() {
    let mut state = initial();
    let mut actions = Vec::new();
    let events = [
        LoopEvent::Start,
        LoopEvent::FrameDue,
        LoopEvent::Drawn,
        LoopEvent::FrameDue,
        LoopEvent::Drawn,
        LoopEvent::FrameDue,
        LoopEvent::DrawFailed,
        LoopEvent::FrameDue,
        LoopEvent::Start,
    ];
    for event in events {
        let (next, action) = step(state, event);
        state = next;
        actions.push(action);
    }
    assert_eq!(state, LoopState::Stopped);
    assert_eq!(
        actions,
        vec![
            LoopAction::Schedule,
            LoopAction::Draw,
            LoopAction::Schedule,
            LoopAction::Draw,
            LoopAction::Schedule,
            LoopAction::Draw,
            LoopAction::Report(Failure::Draw),
            LoopAction::Nothing,
            LoopAction::Nothing,
        ]
    );
}

#[test]
fn no_second_frame_begins_while_one_is_drawn() {
    let (state, action) = step(LoopState::Waiting, LoopEvent::FrameDue);
    assert_eq!(action, LoopAction::Draw);
    for event in EVENTS {
        assert_ne!(step(state, event).1, LoopAction::Draw);
    }
}

#[test]
fn at_most_one_failure_is_reported() {
    for first in EVENTS {
        for second in EVENTS {
            for third in EVENTS {
                for fourth in EVENTS {
                    let mut state = initial();
                    let mut reports = 0;
                    for event in [first, second, third, fourth] {
                        let (next, action) = step(state, event);
                        if matches!(action, LoopAction::Report(_)) {
                            reports += 1;
                            assert_eq!(next, LoopState::Stopped);
                        }
                        state = next;
                    }
                    assert!(reports <= 1);
                    assert_eq!(reports == 1, state == LoopState::Stopped);
                }
            }
        }
    }
}
