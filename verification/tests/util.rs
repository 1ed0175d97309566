use remawin::event::{Argument, ControllerEvent, Event, StateAction, WindowEvent};
use remawin::types::{BindingsError, KeyCode};
use remawin::util::{action_as_bool, bindings_text, StateTracker, TextHandler};

const RUN: u32 = 1;
const AIM: u32 = 2;
const TEXT: u32 = 3;

fn state(action: u32, phase: StateAction) -> Event {
    Event::Controller(ControllerEvent::State(action, phase, 0, vec![]))
}

fn text(action: u32, args: Vec<Argument>) -> Event {
    Event::Controller(ControllerEvent::Action(action, args))
}

#[test]
fn a_state_is_held_unless_it_was_released() {
    assert!(action_as_bool(&StateAction::Activated));
    assert!(action_as_bool(&StateAction::Active));
    assert!(!action_as_bool(&StateAction::Deactivated));
}

#[test]
fn the_tracker_follows_the_state_events() {
    let mut tracker = StateTracker::new();
    assert!(!tracker.is_active(&RUN));
    tracker.update(&vec![state(RUN, StateAction::Activated), state(AIM, StateAction::Active)]);
    assert!(tracker.is_active(&RUN));
    assert!(tracker.is_active(&AIM));
    tracker.update(&vec![state(RUN, StateAction::Deactivated)]);
    assert!(!tracker.is_active(&RUN));
    assert!(tracker.is_active(&AIM));
    tracker.update(&vec![]);
    assert!(tracker.is_active(&AIM));
}

#[test]
fn the_last_event_of_a_state_counts() {
    let mut tracker = StateTracker::new();
    tracker.update(&vec![
        state(RUN, StateAction::Activated),
        state(RUN, StateAction::Deactivated),
        state(RUN, StateAction::Active),
    ]);
    assert!(tracker.is_active(&RUN));
    tracker.update(&vec![state(RUN, StateAction::Active), state(RUN, StateAction::Deactivated)]);
    assert!(!tracker.is_active(&RUN));
}

#[test]
fn the_tracker_ignores_other_events() {
    let mut tracker = StateTracker::new();
    tracker.update(&vec![
        Event::Window(WindowEvent::Close),
        Event::Controller(ControllerEvent::Action(RUN, vec![])),
        Event::Controller(ControllerEvent::Range(RUN, (1, 1), vec![])),
    ]);
    assert!(!tracker.is_active(&RUN));
}

#[test]
fn typed_characters_are_collected_until_taken() {
    let mut handler = TextHandler::new(TEXT);
    assert_eq!(handler.consume(), "");
    handler.update(&vec![
        text(TEXT, vec![Argument::Value('h')]),
        text(TEXT, vec![Argument::Value('é')]),
    ]);
    handler.update(&vec![text(TEXT, vec![Argument::Value('y')])]);
    assert_eq!(handler.consume(), "héy");
    assert_eq!(handler.consume(), "");
    handler.update(&vec![text(TEXT, vec![Argument::Value('!')])]);
    assert_eq!(handler.consume(), "!");
}

#[test]
fn only_the_characters_of_the_text_action_are_collected() {
    let mut handler = TextHandler::new(TEXT);
    handler.update(&vec![
        text(RUN, vec![Argument::Value('x')]),
        text(
            TEXT,
            vec![
                Argument::ContextId(4),
                Argument::Value('a'),
                Argument::KeyCode(KeyCode::B),
                Argument::Value('c'),
            ],
        ),
        Event::Controller(ControllerEvent::State(
            TEXT,
            StateAction::Active,
            0,
            vec![Argument::Value('s')],
        )),
        Event::Controller(ControllerEvent::Range(TEXT, (0, 0), vec![Argument::Value('r')])),
        Event::Window(WindowEvent::Close),
        text(TEXT, vec![]),
    ]);
    assert_eq!(handler.consume(), "ac");
}

#[test]
fn valid_bytes_are_text() {
    assert_eq!(bindings_text(b"[(id: 1, mappings: [])]"), Ok("[(id: 1, mappings: [])]"));
    assert_eq!(bindings_text(&[]), Ok(""));
    assert_eq!(bindings_text("h\u{e9}\u{20ac}".as_bytes()), Ok("h\u{e9}\u{20ac}"));
}

#[test]
fn invalid_bytes_are_a_utf8_error() {
    assert_eq!(bindings_text(&[0x66, 0x6f, 0xff]), Err(BindingsError::Utf8Error));
    assert_eq!(bindings_text(&[0xc3]), Err(BindingsError::Utf8Error));
    assert_eq!(bindings_text(&[0xed, 0xa0, 0x80]), Err(BindingsError::Utf8Error));
}
