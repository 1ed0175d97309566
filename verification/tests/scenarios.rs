use remawin::event::{Argument, ControllerEvent, Event, FocusAction, StateAction, WindowEvent};
use remawin::raw::{RawInput, RawInputAction, RawInputEvent};
use remawin::remapper::InputReMapper;
use remawin::source::WindowInput;
use remawin::types::{
    ActionArgument, ActionId, ActionMetadata, Context, DeviceType, KeyCode, MappedType, Mapping,
    Modifiers, MouseButton, RawArgs, RawState, RawType, StateInfo,
};

const DEFAULT: u32 = 1;
const UI: u32 = 2;

const JUMP: u32 = 10;
const CONFIRM: u32 = 11;
const CLICK: u32 = 12;
const DRAG: u32 = 13;
const TEXT: u32 = 14;
const RUN: u32 = 15;

#[derive(Clone, Copy)]
enum Action {
    Jump,
    ConfirmDialog,
    Click,
    Drag,
    Text,
    Run,
}

impl ActionMetadata for Action {
    fn action_id(&self) -> ActionId {
        match self {
            Action::Jump => JUMP,
            Action::ConfirmDialog => CONFIRM,
            Action::Click => CLICK,
            Action::Drag => DRAG,
            Action::Text => TEXT,
            Action::Run => RUN,
        }
    }

    fn mapped_type(&self) -> MappedType {
        match self {
            Action::Jump | Action::ConfirmDialog | Action::Text => MappedType::Action,
            Action::Click | Action::Run => MappedType::State,
            Action::Drag => MappedType::Range,
        }
    }

    fn args(&self) -> Vec<ActionArgument> {
        match self {
            Action::Text => vec![ActionArgument::Value],
            Action::Click => vec![ActionArgument::CursorPosition],
            _ => Vec::new(),
        }
    }
}

/// A fraction of the window size in the fixed-point unit of these tests.
fn units(fraction: f64) -> i32 {
    (fraction * 1_000_000.0).round() as i32
}

fn key(time: u64, keycode: KeyCode, action: RawInputAction) -> RawInput {
    RawInput::new(time, DeviceType::Keyboard, 0, RawInputEvent::Key(keycode, action, Modifiers::empty()))
}

fn button(time: u64, id: u32, action: RawInputAction) -> RawInput {
    RawInput::new(
        time,
        DeviceType::Mouse,
        0,
        RawInputEvent::Button(id, (0, 0), action, Modifiers::empty()),
    )
}

fn motion(time: u64, dx: i64, dy: i64) -> RawInput {
    RawInput::new(time, DeviceType::Mouse, 0, RawInputEvent::Motion(dx, dy))
}

fn window(event: RawInputEvent) -> RawInput {
    RawInput::new(0, DeviceType::Window, 0, event)
}

fn space_press() -> RawArgs {
    RawArgs::new().with_keycode(KeyCode::Space).with_action(RawState::Press)
}

fn jump_and_confirm() -> InputReMapper {
    let mut remapper = InputReMapper::new((800, 600));
    remapper
        .with_context(
            Context::new(DEFAULT).with_mapping(Mapping::new(RawType::Key, space_press(), &Action::Jump)),
        )
        .with_context(
            Context::new(UI)
                .with_mapping(Mapping::new(RawType::Key, space_press(), &Action::ConfirmDialog)),
        );
    remapper
}

fn click_and_drag() -> InputReMapper {
    let mut remapper = InputReMapper::new((1000, 1000));
    remapper.with_context(
        Context::new(DEFAULT)
            .with_mapping(Mapping::new(RawType::Button, RawArgs::new().with_button(1), &Action::Click))
            .with_mapping(Mapping::new(
                RawType::Motion,
                RawArgs::new().with_state_active(CLICK),
                &Action::Drag,
            )),
    );
    remapper.activate_context(&DEFAULT, 1);
    remapper
}

fn controller_events(events: &Vec<Event>) -> Vec<ControllerEvent> {
    let mut found = Vec::new();
    for event in events {
        if let Event::Controller(c) = event {
            found.push(c.clone());
        }
    }
    found
}

#[test]
fn higher_precedence_context_takes_the_key() {
    let mut remapper = jump_and_confirm();
    remapper.activate_context(&DEFAULT, 1);
    let press = key(0, KeyCode::Space, RawInputAction::Press);
    assert_eq!(
        remapper.process_raw_input(&vec![press]),
        vec![Event::Controller(ControllerEvent::Action(JUMP, vec![]))]
    );
    remapper.activate_context(&UI, 0);
    assert_eq!(
        remapper.process_raw_input(&vec![press]),
        vec![Event::Controller(ControllerEvent::Action(CONFIRM, vec![]))]
    );
}

#[test]
fn of_two_matching_contexts_only_the_first_answers() {
    let mut remapper = jump_and_confirm();
    remapper.activate_context(&DEFAULT, 1);
    remapper.activate_context(&UI, 2);
    let press = key(0, KeyCode::Space, RawInputAction::Press);
    assert_eq!(remapper.process_one(&press), Some(ControllerEvent::Action(JUMP, vec![])));
    assert_eq!(
        remapper.process_raw_input(&vec![press, press]),
        vec![
            Event::Controller(ControllerEvent::Action(JUMP, vec![])),
            Event::Controller(ControllerEvent::Action(JUMP, vec![])),
        ]
    );
}

#[test]
fn the_order_of_activation_does_not_matter() {
    let press = key(0, KeyCode::Space, RawInputAction::Press);
    let mut one = jump_and_confirm();
    one.activate_context(&DEFAULT, 2);
    one.activate_context(&UI, 1);
    let mut other = jump_and_confirm();
    other.activate_context(&UI, 1);
    other.activate_context(&DEFAULT, 2);
    assert_eq!(one.process_one(&press), Some(ControllerEvent::Action(CONFIRM, vec![])));
    assert_eq!(other.process_one(&press), Some(ControllerEvent::Action(CONFIRM, vec![])));
}

#[test]
fn among_equal_priorities_the_first_activated_is_asked_first() {
    let press = key(0, KeyCode::Space, RawInputAction::Press);
    let mut one = jump_and_confirm();
    one.activate_context(&DEFAULT, 5);
    one.activate_context(&UI, 5);
    assert_eq!(one.process_one(&press), Some(ControllerEvent::Action(JUMP, vec![])));
    let mut other = jump_and_confirm();
    other.activate_context(&UI, 5);
    other.activate_context(&DEFAULT, 5);
    assert_eq!(other.process_one(&press), Some(ControllerEvent::Action(CONFIRM, vec![])));
}

#[test]
fn a_context_that_does_not_match_lets_the_next_answer() {
    let mut remapper = jump_and_confirm();
    remapper.with_context(Context::new(3).with_mapping(Mapping::new(
        RawType::Key,
        RawArgs::new().with_keycode(KeyCode::Return).with_action(RawState::Press),
        &Action::Text,
    )));
    remapper.activate_context(&3, 0);
    remapper.activate_context(&DEFAULT, 4);
    assert_eq!(
        remapper.process_one(&key(0, KeyCode::Space, RawInputAction::Press)),
        Some(ControllerEvent::Action(JUMP, vec![]))
    );
    assert_eq!(
        remapper.process_one(&key(0, KeyCode::Return, RawInputAction::Press)),
        Some(ControllerEvent::Action(TEXT, vec![]))
    );
    assert_eq!(remapper.process_one(&key(0, KeyCode::A, RawInputAction::Press)), None);
}

#[test]
fn nothing_is_active_nothing_answers() {
    let mut remapper = jump_and_confirm();
    assert_eq!(remapper.process_one(&key(0, KeyCode::Space, RawInputAction::Press)), None);
    assert_eq!(
        remapper.process_raw_input(&vec![key(0, KeyCode::Space, RawInputAction::Press)]),
        vec![]
    );
}

#[test]
fn a_state_is_timed_from_its_activation() {
    let mut remapper = InputReMapper::new((800, 600));
    remapper.with_context(
        Context::new(DEFAULT).with_mapping(Mapping::new(
            RawType::Key,
            RawArgs::new().with_keycode(KeyCode::W),
            &Action::Run,
        )),
    );
    remapper.activate_context(&DEFAULT, 1);
    assert_eq!(
        remapper.process_one(&key(0, KeyCode::W, RawInputAction::Press)),
        Some(ControllerEvent::State(RUN, StateAction::Activated, 0, vec![]))
    );
    assert!(remapper.is_state_active(&RUN));
    assert_eq!(
        remapper.process_one(&key(1, KeyCode::W, RawInputAction::Press)),
        Some(ControllerEvent::State(RUN, StateAction::Active, 1, vec![]))
    );
    assert_eq!(
        remapper.get_state_info(&RUN),
        Some(StateInfo { active: true, start_time: 0, stop_time: 0 })
    );
    assert_eq!(
        remapper.process_one(&key(2, KeyCode::W, RawInputAction::Release)),
        Some(ControllerEvent::State(RUN, StateAction::Deactivated, 2, vec![]))
    );
    assert!(!remapper.is_state_active(&RUN));
    assert_eq!(
        remapper.get_state_info(&RUN),
        Some(StateInfo { active: false, start_time: 0, stop_time: 2 })
    );
    assert_eq!(
        remapper.process_one(&key(3, KeyCode::W, RawInputAction::Press)),
        Some(ControllerEvent::State(RUN, StateAction::Activated, 0, vec![]))
    );
    assert_eq!(
        remapper.get_state_info(&RUN),
        Some(StateInfo { active: true, start_time: 3, stop_time: 0 })
    );
}

#[test]
fn a_repeating_key_keeps_a_state_held() {
    let mut remapper = InputReMapper::new((800, 600));
    remapper.with_context(
        Context::new(DEFAULT).with_mapping(Mapping::new(
            RawType::Key,
            RawArgs::new().with_keycode(KeyCode::W).with_action(RawState::Press),
            &Action::Run,
        )),
    );
    remapper.activate_context(&DEFAULT, 1);
    let second = 1_000_000_000;
    assert_eq!(
        remapper.process_one(&key(5 * second, KeyCode::W, RawInputAction::Press)),
        Some(ControllerEvent::State(RUN, StateAction::Activated, 0, vec![]))
    );
    assert_eq!(
        remapper.process_one(&key(6 * second, KeyCode::W, RawInputAction::Repeat)),
        Some(ControllerEvent::State(RUN, StateAction::Active, second, vec![]))
    );
    assert_eq!(
        remapper.process_one(&key(8 * second, KeyCode::W, RawInputAction::Repeat)),
        Some(ControllerEvent::State(RUN, StateAction::Active, 3 * second, vec![]))
    );
}

#[test]
fn a_guarded_motion_waits_for_its_button() {
    let mut remapper = click_and_drag();
    assert_eq!(remapper.process_one(&motion(0, 5, 5)), None);
    assert_eq!(
        remapper.process_one(&button(1, 1, RawInputAction::Press)),
        Some(ControllerEvent::State(CLICK, StateAction::Activated, 0, vec![]))
    );
    assert_eq!(
        remapper.process_one(&motion(2, 5, -5)),
        Some(ControllerEvent::Range(DRAG, (5, -5), vec![]))
    );
    assert_eq!(
        remapper.process_one(&button(3, 1, RawInputAction::Release)),
        Some(ControllerEvent::State(CLICK, StateAction::Deactivated, 2, vec![]))
    );
    assert_eq!(remapper.process_one(&motion(4, 5, -5)), None);
}

#[test]
fn a_button_earlier_in_the_batch_opens_the_guard() {
    let mut remapper = click_and_drag();
    let events = remapper.process_raw_input(&vec![
        motion(0, 1, 1),
        button(1, 1, RawInputAction::Press),
        motion(2, 2, 2),
        button(3, 1, RawInputAction::Release),
        motion(4, 3, 3),
    ]);
    assert_eq!(
        events,
        vec![
            Event::Controller(ControllerEvent::State(CLICK, StateAction::Activated, 0, vec![])),
            Event::Controller(ControllerEvent::Range(DRAG, (2, 2), vec![])),
            Event::Controller(ControllerEvent::State(CLICK, StateAction::Deactivated, 2, vec![])),
        ]
    );
}

#[test]
fn a_state_begun_in_one_context_guards_a_binding_of_another() {
    let mut remapper = InputReMapper::new((800, 600));
    remapper
        .with_context(Context::new(DEFAULT).with_mapping(Mapping::new(
            RawType::Button,
            RawArgs::new().with_button(1),
            &Action::Click,
        )))
        .with_context(Context::new(UI).with_mapping(Mapping::new(
            RawType::Motion,
            RawArgs::new().with_state_active(CLICK),
            &Action::Drag,
        )));
    remapper.activate_context(&DEFAULT, 1);
    remapper.activate_context(&UI, 2);
    remapper.process_one(&button(0, 1, RawInputAction::Press));
    assert_eq!(
        remapper.process_one(&motion(1, 9, 9)),
        Some(ControllerEvent::Range(DRAG, (9, 9), vec![]))
    );
}

#[test]
fn the_cursor_moves_by_two_hundredths() {
    let mut remapper = click_and_drag();
    assert_eq!(remapper.frame_data().size, (1000, 1000));
    let first = remapper.process_at(&vec![
        (10, WindowInput::CursorMoved(units(0.10), units(0.10))),
        (11, WindowInput::MouseInput(MouseButton::Left, RawInputAction::Press, Modifiers::empty())),
    ]);
    assert_eq!(
        controller_events(&first),
        vec![ControllerEvent::State(CLICK, StateAction::Activated, 0, vec![])]
    );
    assert_eq!(remapper.frame_data().cursor_position, Some((100_000, 100_000)));
    let second = remapper.process_at(&vec![(20, WindowInput::CursorMoved(units(0.12), units(0.08)))]);
    assert_eq!(second, vec![Event::Controller(ControllerEvent::Range(DRAG, (20_000, -20_000), vec![]))]);
    assert_eq!(remapper.frame_data().cursor_position, Some((units(0.12), units(0.08))));
    let (dx, dy) = match &second[0] {
        Event::Controller(ControllerEvent::Range(_, diff, _)) => *diff,
        _ => unreachable!(),
    };
    assert_eq!((dx as f64 / 1_000_000.0, dy as f64 / 1_000_000.0), (0.02, -0.02));
}

#[test]
fn the_cursor_argument_is_that_of_the_tick_before() {
    let mut remapper = click_and_drag();
    let first = remapper.process_raw_input(&vec![
        RawInput::new(0, DeviceType::Mouse, 0, RawInputEvent::CursorPosition(5, 6)),
        button(1, 1, RawInputAction::Press),
    ]);
    assert_eq!(
        first,
        vec![Event::Controller(ControllerEvent::State(CLICK, StateAction::Activated, 0, vec![]))]
    );
    let second = remapper.process_raw_input(&vec![
        RawInput::new(2, DeviceType::Mouse, 0, RawInputEvent::CursorPosition(7, 8)),
        button(3, 1, RawInputAction::Press),
    ]);
    assert_eq!(
        second,
        vec![Event::Controller(ControllerEvent::State(
            CLICK,
            StateAction::Active,
            2,
            vec![Argument::CursorPosition(5, 6)]
        ))]
    );
    assert_eq!(remapper.frame_data().cursor_position, Some((7, 8)));
}

#[test]
fn window_events_come_first() {
    let mut remapper = jump_and_confirm();
    remapper.activate_context(&DEFAULT, 1);
    let events = remapper.process_raw_input(&vec![
        key(0, KeyCode::Space, RawInputAction::Press),
        window(RawInputEvent::Resize(640, 480)),
        key(1, KeyCode::Space, RawInputAction::Release),
        window(RawInputEvent::Focus(true)),
        key(2, KeyCode::Space, RawInputAction::Press),
        window(RawInputEvent::Focus(false)),
        window(RawInputEvent::Close),
    ]);
    assert_eq!(
        events,
        vec![
            Event::Window(WindowEvent::Resize(640, 480)),
            Event::Window(WindowEvent::Focus(FocusAction::Enter)),
            Event::Window(WindowEvent::Focus(FocusAction::Exit)),
            Event::Window(WindowEvent::Close),
            Event::Controller(ControllerEvent::Action(JUMP, vec![])),
            Event::Controller(ControllerEvent::Action(JUMP, vec![])),
        ]
    );
    assert_eq!(remapper.frame_data().size, (640, 480));
    assert_eq!(remapper.frame_data().cursor_position, None);
}

#[test]
fn window_events_need_no_context() {
    let mut remapper = InputReMapper::new((800, 600));
    assert_eq!(
        remapper.process_raw_input(&vec![window(RawInputEvent::Close)]),
        vec![Event::Window(WindowEvent::Close)]
    );
    assert_eq!(remapper.process_window_input(&window(RawInputEvent::Close)), Some(WindowEvent::Close));
    assert_eq!(
        remapper.process_window_input(&window(RawInputEvent::Focus(true))),
        Some(WindowEvent::Focus(FocusAction::Enter))
    );
    assert_eq!(remapper.process_window_input(&motion(0, 1, 1)), None);
    assert_eq!(remapper.process_raw_input(&vec![]), vec![]);
}

#[test]
fn a_typed_character_reaches_the_text_action() {
    let mut remapper = InputReMapper::new((800, 600));
    remapper.with_context(
        Context::new(UI).with_mapping(Mapping::new(RawType::Char, RawArgs::new(), &Action::Text)),
    );
    remapper.activate_context(&UI, 1);
    let typed = RawInput::new(0, DeviceType::Keyboard, 0, RawInputEvent::Char('ä'));
    assert_eq!(
        remapper.process_one(&typed),
        Some(ControllerEvent::Action(TEXT, vec![Argument::Value('ä')]))
    );
}
