use nd_engine::input::Apply;
use nd_engine::input::Digital;
use nd_engine::input::State;

struct Motion {
    x: f64,
}

impl Apply for Motion {
    fn apply(&mut self, other: Self) {
        self.x += other.x
    }
}

#[test]
fn motion_accumulates_while_started() {
    let mut state = State::new(Some(Motion { x: 1.5 }), 10);
    state.apply(Some(Motion { x: 2.0 }), 20);
    match state {
        State::Started { start, state } => {
            assert_eq!(start, 10);
            assert_eq!(state.x, 3.5);
        }
        State::Ended { .. } => panic!("the input must stay active"),
    }
}

#[test]
fn digital_press_and_release() {
    let mut state: State<Digital> = State::ended(5);
    state.apply(Some(Digital), 7);
    assert!(matches!(state, State::Started { start: 7, .. }));
    state.apply(None, 9);
    assert!(matches!(state, State::Ended { start: 9 }));
}

#[test]
fn an_input_that_is_new_starts_as_it_is_heard_of() {
    let started: State<Digital> = State::upsert(None, Digital::pressed(true), 3);
    assert!(matches!(started, State::Started { start: 3, .. }));
    let ended: State<Digital> = State::upsert(None, Digital::pressed(false), 4);
    assert!(matches!(ended, State::Ended { start: 4 }));
}

#[test]
fn an_input_that_is_kept_takes_note() {
    let kept = State::started(Motion { x: 1.0 }, 1);
    let more = State::upsert(Some(kept), Some(Motion { x: 0.25 }), 2);
    match more {
        State::Started { start, state } => {
            assert_eq!(start, 1);
            assert_eq!(state.x, 1.25);
        }
        State::Ended { .. } => panic!("the input must stay active"),
    }
    let pressed: State<Digital> = State::upsert(Some(State::ended(5)), Some(Digital), 6);
    assert!(matches!(pressed, State::Started { start: 6, .. }));
    let released: State<Digital> = State::upsert(Some(pressed), None, 7);
    assert!(matches!(released, State::Ended { start: 7 }));
}

#[test]
fn a_button_reads_digital_only_while_pressed() {
    assert_eq!(Digital::pressed(true), Some(Digital));
    assert_eq!(Digital::pressed(false), None);
}
