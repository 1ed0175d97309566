use remawin::event::{ControllerEvent, Event, WindowEvent};
use remawin::raw::{RawInput, RawInputAction, RawInputEvent};
use remawin::remapper::InputReMapper;
use remawin::source::{
    map_keycode, map_modifiers, map_mouse_button, process_event, process_events,
    process_window_event, WindowInput,
};
use remawin::types::{
    Context, DeviceType, KeyCode, MappedType, Mapping, Modifier, Modifiers, MouseButton, RawArgs,
    RawType, WindowData,
};

fn start() -> WindowData {
    WindowData { size: (800, 600), cursor_position: None }
}

fn raw(time: u64, device_type: DeviceType, event: RawInputEvent) -> RawInput {
    RawInput { time, device_type, device_id: 0, event }
}

#[test]
fn a_key_without_a_name_is_unknown() {
    assert_eq!(map_keycode(&Some(KeyCode::F5)), KeyCode::F5);
    assert_eq!(map_keycode(&None), KeyCode::Unknown);
}

#[test]
fn mouse_buttons_have_numbers() {
    assert_eq!(map_mouse_button(&MouseButton::Left), 1);
    assert_eq!(map_mouse_button(&MouseButton::Right), 2);
    assert_eq!(map_mouse_button(&MouseButton::Middle), 3);
    assert_eq!(map_mouse_button(&MouseButton::Other(9)), 9);
    assert_eq!(map_mouse_button(&MouseButton::Other(255)), 255);
}

#[test]
fn held_modifiers_make_a_mask() {
    assert_eq!(map_modifiers(false, false, false, false), Modifiers::empty());
    assert_eq!(map_modifiers(true, false, false, false).bits(), 1);
    assert_eq!(map_modifiers(false, true, false, false).bits(), 2);
    assert_eq!(map_modifiers(false, false, true, false).bits(), 4);
    assert_eq!(map_modifiers(false, false, false, true).bits(), 8);
    assert_eq!(map_modifiers(true, true, true, true).bits(), 15);
    let mask = map_modifiers(true, false, true, false);
    assert!(mask.contains(Modifier::SHIFT));
    assert!(!mask.contains(Modifier::CONTROL));
    assert!(mask.contains(Modifier::ALT));
    assert!(!mask.contains(Modifier::SUPER));
}

#[test]
fn window_events_map_to_one_raw_input_each() {
    let mut next = start();
    assert_eq!(
        process_window_event(1, &WindowInput::Closed, &mut next),
        vec![raw(1, DeviceType::Window, RawInputEvent::Close)]
    );
    assert_eq!(
        process_window_event(2, &WindowInput::Focused(true), &mut next),
        vec![raw(2, DeviceType::Window, RawInputEvent::Focus(true))]
    );
    assert_eq!(
        process_window_event(3, &WindowInput::ReceivedCharacter('x'), &mut next),
        vec![raw(3, DeviceType::Keyboard, RawInputEvent::Char('x'))]
    );
    assert_eq!(
        process_window_event(4, &WindowInput::MouseWheel(0, -3), &mut next),
        vec![raw(4, DeviceType::Window, RawInputEvent::Scroll(0, -3))]
    );
    assert_eq!(process_window_event(5, &WindowInput::Other, &mut next), vec![]);
    assert_eq!(next, start());
}

#[test]
fn a_key_event_keeps_key_action_and_modifiers() {
    let mut next = start();
    let shift = Modifiers { bits: 1 };
    assert_eq!(
        process_window_event(
            6,
            &WindowInput::KeyboardInput(Some(KeyCode::Tab), RawInputAction::Release, shift),
            &mut next
        ),
        vec![raw(6, DeviceType::Keyboard, RawInputEvent::Key(KeyCode::Tab, RawInputAction::Release, shift))]
    );
    assert_eq!(
        process_window_event(
            7,
            &WindowInput::KeyboardInput(None, RawInputAction::Press, shift),
            &mut next
        ),
        vec![raw(7, DeviceType::Keyboard, RawInputEvent::Key(KeyCode::Unknown, RawInputAction::Press, shift))]
    );
    assert_eq!(next, start());
}

#[test]
fn a_resize_sets_the_window_size() {
    let mut next = start();
    assert_eq!(
        process_window_event(1, &WindowInput::Resized(1024, 768), &mut next),
        vec![raw(1, DeviceType::Window, RawInputEvent::Resize(1024, 768))]
    );
    assert_eq!(next, WindowData { size: (1024, 768), cursor_position: None });
}

#[test]
fn a_moving_cursor_reports_how_far_it_moved() {
    let mut next = start();
    assert_eq!(
        process_window_event(1, &WindowInput::CursorMoved(100, 200), &mut next),
        vec![raw(1, DeviceType::Mouse, RawInputEvent::CursorPosition(100, 200))]
    );
    assert_eq!(next.cursor_position, Some((100, 200)));
    assert_eq!(
        process_window_event(2, &WindowInput::CursorMoved(130, 150), &mut next),
        vec![
            raw(2, DeviceType::Mouse, RawInputEvent::CursorPosition(130, 150)),
            raw(2, DeviceType::Mouse, RawInputEvent::Motion(30, -50)),
        ]
    );
    assert_eq!(next.cursor_position, Some((130, 150)));
    assert_eq!(next.size, (800, 600));
}

#[test]
fn the_farthest_motion_fits() {
    let mut next = WindowData { size: (1, 1), cursor_position: Some((i32::MIN, i32::MAX)) };
    assert_eq!(
        process_window_event(1, &WindowInput::CursorMoved(i32::MAX, i32::MIN), &mut next),
        vec![
            raw(1, DeviceType::Mouse, RawInputEvent::CursorPosition(i32::MAX, i32::MIN)),
            raw(1, DeviceType::Mouse, RawInputEvent::Motion(4_294_967_295, -4_294_967_295)),
        ]
    );
}

#[test]
fn a_button_reports_the_last_cursor_position() {
    let mut next = start();
    let none = Modifiers::empty();
    assert_eq!(
        process_window_event(
            1,
            &WindowInput::MouseInput(MouseButton::Right, RawInputAction::Press, none),
            &mut next
        ),
        vec![raw(1, DeviceType::Mouse, RawInputEvent::Button(2, (0, 0), RawInputAction::Press, none))]
    );
    next.cursor_position = Some((4, 5));
    assert_eq!(
        process_window_event(
            2,
            &WindowInput::MouseInput(MouseButton::Other(6), RawInputAction::Release, none),
            &mut next
        ),
        vec![raw(2, DeviceType::Mouse, RawInputEvent::Button(6, (4, 5), RawInputAction::Release, none))]
    );
    assert_eq!(next.cursor_position, Some((4, 5)));
}

#[test]
fn a_batch_is_mapped_event_by_event() {
    let mut next = start();
    let raw_inputs = process_events(
        &vec![
            (1, WindowInput::CursorMoved(10, 10)),
            (2, WindowInput::Resized(100, 100)),
            (3, WindowInput::Other),
            (4, WindowInput::CursorMoved(12, 8)),
            (5, WindowInput::Closed),
        ],
        &mut next,
    );
    assert_eq!(
        raw_inputs,
        vec![
            raw(1, DeviceType::Mouse, RawInputEvent::CursorPosition(10, 10)),
            raw(2, DeviceType::Window, RawInputEvent::Resize(100, 100)),
            raw(4, DeviceType::Mouse, RawInputEvent::CursorPosition(12, 8)),
            raw(4, DeviceType::Mouse, RawInputEvent::Motion(2, -2)),
            raw(5, DeviceType::Window, RawInputEvent::Close),
        ]
    );
    assert_eq!(next, WindowData { size: (100, 100), cursor_position: Some((12, 8)) });
    let mut unchanged = start();
    assert_eq!(process_events(&vec![], &mut unchanged), vec![]);
    assert_eq!(unchanged, start());
}

#[test]
fn an_event_that_happens_now_is_stamped_by_the_clock() {
    let mut next = start();
    let first = process_event(&WindowInput::CursorMoved(1, 1), &mut next);
    let second = process_event(&WindowInput::CursorMoved(5, 9), &mut next);
    assert_eq!(first.len(), 1);
    assert_eq!(first[0].event, RawInputEvent::CursorPosition(1, 1));
    assert_eq!(second.len(), 2);
    assert_eq!(second[0].event, RawInputEvent::CursorPosition(5, 9));
    assert_eq!(second[1].event, RawInputEvent::Motion(4, 8));
    assert_eq!(second[0].time, second[1].time);
    assert_eq!(next.cursor_position, Some((5, 9)));
}

#[test]
fn a_tick_of_window_events_is_mapped_and_resolved() {
    let mut remapper = InputReMapper::new((800, 600));
    remapper.with_context(Context::new(1).with_mapping(Mapping::from_parts(
        RawType::Motion,
        RawArgs::new(),
        40,
        MappedType::Range,
        vec![],
    )));
    remapper.activate_context(&1, 1);
    let events = remapper.process_at(&vec![
        (1, WindowInput::CursorMoved(10, 10)),
        (2, WindowInput::CursorMoved(30, 5)),
        (3, WindowInput::Resized(640, 480)),
        (4, WindowInput::CursorMoved(30, 6)),
    ]);
    assert_eq!(
        events,
        vec![
            Event::Window(WindowEvent::Resize(640, 480)),
            Event::Controller(ControllerEvent::Range(40, (20, -5), vec![])),
            Event::Controller(ControllerEvent::Range(40, (0, 1), vec![])),
        ]
    );
    assert_eq!(
        remapper.frame_data(),
        WindowData { size: (640, 480), cursor_position: Some((30, 6)) }
    );
    let next = remapper.process_at(&vec![(5, WindowInput::CursorMoved(0, 0))]);
    assert_eq!(next, vec![Event::Controller(ControllerEvent::Range(40, (-30, -6), vec![]))]);
}

#[test]
fn a_tick_that_happens_now_gives_the_same_events() {
    let mut remapper = InputReMapper::new((800, 600));
    remapper.with_context(Context::new(1).with_mapping(Mapping::from_parts(
        RawType::Motion,
        RawArgs::new(),
        40,
        MappedType::Range,
        vec![],
    )));
    remapper.activate_context(&1, 1);
    let events = remapper.process(&vec![
        WindowInput::CursorMoved(10, 10),
        WindowInput::Focused(false),
        WindowInput::CursorMoved(7, 14),
    ]);
    assert_eq!(events.len(), 2);
    assert!(matches!(events[0], Event::Window(WindowEvent::Focus(_))));
    assert_eq!(events[1], Event::Controller(ControllerEvent::Range(40, (-3, 4), vec![])));
    assert_eq!(remapper.frame_data().cursor_position, Some((7, 14)));
    assert_eq!(remapper.process(&vec![]), vec![]);
}
