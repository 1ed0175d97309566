//! Window events in plain values, and their mapping to raw inputs: keeps
//! track of the window size and of the cursor, and derives how far the cursor
//! moved.

use vstd::prelude::*;

use crate::event::{views_of, Event};
use crate::raw::{RawInput, RawInputAction, RawInputEvent};
use crate::remapper::{
    spec_remapper_well_formed, spec_tick, spec_tick_events, spec_track, spec_track_all,
    InputReMapper,
};
use crate::types::{
    spec_button_id, ButtonId, DeviceType, KeyCode, Modifier, Modifiers, MouseButton, Timestamp,
    WindowData, ALL_MODIFIERS,
};

verus! {

/// An event of a window as a window system reports it, in plain values.
/// Positions are fixed-point fractions of the window size.
#[derive(Debug, Clone, Copy, PartialEq, Eq)]
pub enum WindowInput {
    /// The window was asked to close.
    Closed,
    /// The window has this size in pixels.
    Resized(u32, u32),
    /// The window gained or lost the focus.
    Focused(bool),
    /// A character was typed.
    ReceivedCharacter(char),
    /// A key, if the window system could name it, was pressed or released.
    KeyboardInput(Option<KeyCode>, RawInputAction, Modifiers),
    /// A mouse button was pressed or released.
    MouseInput(MouseButton, RawInputAction, Modifiers),
    /// The cursor moved to this position.
    CursorMoved(i32, i32),
    /// The wheel was turned by this distance.
    MouseWheel(i64, i64),
    /// Anything else, which maps to no raw input.
    Other,
}

/// The key of a key event: a key without a name is `Unknown`.
pub open spec fn spec_map_keycode(keycode: Option<KeyCode>) -> KeyCode {
    match keycode {
        Some(k) => k,
        None => KeyCode::Unknown,
    }
}

/// The raw inputs that a window event stands for at the time `time`, given
/// the frame data before it. A cursor that moves reports its position, and how
/// far it moved if its position was known before; a button reports the cursor
/// position known before it, or the origin.
pub open spec fn spec_raw_inputs(time: Timestamp, event: WindowInput, frame_data: WindowData) -> Seq<
    RawInput,
> {
    match event {
        WindowInput::Closed => seq![
            RawInput { time, device_type: DeviceType::Window, device_id: 0, event: RawInputEvent::Close },
        ],
        WindowInput::Resized(x, y) => seq![
            RawInput {
                time,
                device_type: DeviceType::Window,
                device_id: 0,
                event: RawInputEvent::Resize(x, y),
            },
        ],
        WindowInput::Focused(b) => seq![
            RawInput {
                time,
                device_type: DeviceType::Window,
                device_id: 0,
                event: RawInputEvent::Focus(b),
            },
        ],
        WindowInput::ReceivedCharacter(ch) => seq![
            RawInput {
                time,
                device_type: DeviceType::Keyboard,
                device_id: 0,
                event: RawInputEvent::Char(ch),
            },
        ],
        WindowInput::KeyboardInput(keycode, action, modifiers) => seq![
            RawInput {
                time,
                device_type: DeviceType::Keyboard,
                device_id: 0,
                event: RawInputEvent::Key(spec_map_keycode(keycode), action, modifiers),
            },
        ],
        WindowInput::MouseInput(button, action, modifiers) => seq![
            RawInput {
                time,
                device_type: DeviceType::Mouse,
                device_id: 0,
                event: RawInputEvent::Button(
                    spec_button_id(button),
                    match frame_data.cursor_position {
                        Some(position) => position,
                        None => (0, 0),
                    },
                    action,
                    modifiers,
                ),
            },
        ],
        WindowInput::CursorMoved(x, y) => {
            let position = RawInput {
                time,
                device_type: DeviceType::Mouse,
                device_id: 0,
                event: RawInputEvent::CursorPosition(x, y),
            };
            match frame_data.cursor_position {
                Some((px, py)) => seq![
                    position,
                    RawInput {
                        time,
                        device_type: DeviceType::Mouse,
                        device_id: 0,
                        event: RawInputEvent::Motion((x - px) as i64, (y - py) as i64),
                    },
                ],
                None => seq![position],
            }
        },
        WindowInput::MouseWheel(x, y) => seq![
            RawInput {
                time,
                device_type: DeviceType::Window,
                device_id: 0,
                event: RawInputEvent::Scroll(x, y),
            },
        ],
        WindowInput::Other => Seq::empty(),
    }
}

/// The frame data after a window event.
pub open spec fn spec_next_frame(event: WindowInput, frame_data: WindowData) -> WindowData {
    match event {
        WindowInput::Resized(x, y) => WindowData { size: (x, y), ..frame_data },
        WindowInput::CursorMoved(x, y) => WindowData { cursor_position: Some((x, y)), ..frame_data },
        _ => frame_data,
    }
}

/// The raw inputs that a batch of timed window events stands for, given the
/// frame data before the batch.
pub open spec fn spec_raw_batch(frame_data: WindowData, events: Seq<(Timestamp, WindowInput)>) -> Seq<
    RawInput,
>
    decreases events.len(),
{
    if events.len() == 0 {
        Seq::empty()
    } else {
        spec_raw_batch(frame_data, events.drop_last()) + spec_raw_inputs(
            events.last().0,
            events.last().1,
            spec_next_frame_batch(frame_data, events.drop_last()),
        )
    }
}

/// The frame data after a batch of timed window events.
pub open spec fn spec_next_frame_batch(
    frame_data: WindowData,
    events: Seq<(Timestamp, WindowInput)>,
) -> WindowData
    decreases events.len(),
{
    if events.len() == 0 {
        frame_data
    } else {
        spec_next_frame(events.last().1, spec_next_frame_batch(frame_data, events.drop_last()))
    }
}

/// The key of a key event.
pub fn map_keycode(keycode: &Option<KeyCode>) -> (mapped: KeyCode)
    ensures
        mapped == spec_map_keycode(*keycode),
{
    match keycode {
        Some(k) => *k,
        None => KeyCode::Unknown,
    }
}

/// The mask of the modifiers that a window system reports as held.
pub fn map_modifiers(shift: bool, ctrl: bool, alt: bool, logo: bool) -> (mask: Modifiers)
    ensures
        mask.has(Modifier::SHIFT) == shift,
        mask.has(Modifier::CONTROL) == ctrl,
        mask.has(Modifier::ALT) == alt,
        mask.has(Modifier::SUPER) == logo,
        mask.bits & !ALL_MODIFIERS == 0,
{
    let mut mask = Modifiers::empty();
    mask.set(Modifier::SHIFT, shift);
    let ghost b1 = mask.bits;
    mask.set(Modifier::CONTROL, ctrl);
    let ghost b2 = mask.bits;
    mask.set(Modifier::ALT, alt);
    let ghost b3 = mask.bits;
    mask.set(Modifier::SUPER, logo);
    let ghost b4 = mask.bits;
    proof {
        assert(b1 <= 1) by (bit_vector)
            requires
                b1 == 0u32 | 1u32 || b1 == 0u32 & !1u32,
        ;
        assert(b2 <= 3) by (bit_vector)
            requires
                b1 <= 1,
                b2 == b1 | 2u32 || b2 == b1 & !2u32,
        ;
        assert(b3 <= 7) by (bit_vector)
            requires
                b2 <= 3,
                b3 == b2 | 4u32 || b3 == b2 & !4u32,
        ;
        assert(b4 & !15u32 == 0) by (bit_vector)
            requires
                b3 <= 7,
                b4 == b3 | 8u32 || b4 == b3 & !8u32,
        ;
    }
    mask
}

/// The number under which bindings refer to a mouse button.
pub fn map_mouse_button(button: &MouseButton) -> (id: ButtonId)
    ensures
        id == spec_button_id(*button),
{
    match button {
        MouseButton::Left => 1,
        MouseButton::Right => 2,
        MouseButton::Middle => 3,
        MouseButton::Other(b) => *b as u32,
    }
}

/// Maps a window event that happened at `time` to raw inputs, and brings the
/// frame data up to date.
pub fn process_window_event(time: Timestamp, event: &WindowInput, next: &mut WindowData) -> (raw: Vec<
    RawInput,
>)
    ensures
        raw@ == spec_raw_inputs(time, *event, *old(next)),
        *final(next) == spec_next_frame(*event, *old(next)),
{
    let mut raw: Vec<RawInput> = Vec::new();
    match *event {
        WindowInput::Closed => {
            raw.push(RawInput::new(time, DeviceType::Window, 0, RawInputEvent::Close));
        },
        WindowInput::Resized(x, y) => {
            next.size = (x, y);
            raw.push(RawInput::new(time, DeviceType::Window, 0, RawInputEvent::Resize(x, y)));
        },
        WindowInput::Focused(b) => {
            raw.push(RawInput::new(time, DeviceType::Window, 0, RawInputEvent::Focus(b)));
        },
        WindowInput::ReceivedCharacter(ch) => {
            raw.push(RawInput::new(time, DeviceType::Keyboard, 0, RawInputEvent::Char(ch)));
        },
        WindowInput::KeyboardInput(keycode, action, modifiers) => {
            raw.push(
                RawInput::new(
                    time,
                    DeviceType::Keyboard,
                    0,
                    RawInputEvent::Key(map_keycode(&keycode), action, modifiers),
                ),
            );
        },
        WindowInput::MouseInput(button, action, modifiers) => {
            let position = match next.cursor_position {
                Some(position) => position,
                None => (0, 0),
            };
            raw.push(
                RawInput::new(
                    time,
                    DeviceType::Mouse,
                    0,
                    RawInputEvent::Button(map_mouse_button(&button), position, action, modifiers),
                ),
            );
        },
        WindowInput::CursorMoved(x, y) => {
            raw.push(RawInput::new(time, DeviceType::Mouse, 0, RawInputEvent::CursorPosition(x, y)));
            match next.cursor_position {
                Some((px, py)) => {
                    raw.push(
                        RawInput::new(
                            time,
                            DeviceType::Mouse,
                            0,
                            RawInputEvent::Motion(x as i64 - px as i64, y as i64 - py as i64),
                        ),
                    );
                },
                None => {},
            }
            next.cursor_position = Some((x, y));
        },
        WindowInput::MouseWheel(x, y) => {
            raw.push(RawInput::new(time, DeviceType::Window, 0, RawInputEvent::Scroll(x, y)));
        },
        WindowInput::Other => {},
    }
    raw
}

/// Reads the clock through `time::precise_time_ns`: nanoseconds since an
/// epoch that the crate does not specify. Nothing is claimed of the value.
#[verifier::external_body]
fn precise_time_ns() -> (now: Timestamp) {
    time::precise_time_ns()
}

/// Maps a window event that happens now to raw inputs, and brings the frame
/// data up to date. The raw inputs carry the time that the clock gave.
pub fn process_event(event: &WindowInput, next: &mut WindowData) -> (raw: Vec<RawInput>)
    ensures
        exists|time: Timestamp| raw@ == spec_raw_inputs(time, *event, *old(next)),
        *final(next) == spec_next_frame(*event, *old(next)),
{
    let time = precise_time_ns();
    process_window_event(time, event, next)
}

/// Maps the window events of a batch, each with the time at which it
/// happened, to raw inputs, and brings the frame data up to date.
pub fn process_events(events: &Vec<(Timestamp, WindowInput)>, next: &mut WindowData) -> (raw: Vec<
    RawInput,
>)
    ensures
        raw@ == spec_raw_batch(*old(next), events@),
        *final(next) == spec_next_frame_batch(*old(next), events@),
{
    let mut raw: Vec<RawInput> = Vec::new();
    let mut i: usize = 0;
    while i < events.len()
        invariant
            i <= events.len(),
            raw@ == spec_raw_batch(*old(next), events@.take(i as int)),
            *next == spec_next_frame_batch(*old(next), events@.take(i as int)),
        decreases events.len() - i,
    {
        proof {
            assert(events@.take(i + 1).drop_last() == events@.take(i as int));
        }
        let mut more = process_window_event(events[i].0, &events[i].1, next);
        raw.append(&mut more);
        i += 1;
    }
    proof {
        assert(events@.take(events.len() as int) == events@);
    }
    raw
}

/// The frame data that the raw inputs of a window event lead to is the frame
/// data after that event.
pub proof fn lemma_raw_inputs_track(time: Timestamp, event: WindowInput, frame_data: WindowData)
    ensures
        spec_track_all(frame_data, spec_raw_inputs(time, event, frame_data)) == spec_next_frame(
            event,
            frame_data,
        ),
{
    let raw = spec_raw_inputs(time, event, frame_data);
    if raw.len() == 1 {
        assert(spec_track_all(frame_data, raw.drop_last()) == frame_data);
    } else if raw.len() == 2 {
        let first = raw.drop_last();
        assert(spec_track_all(frame_data, first.drop_last()) == frame_data);
    }
}

/// Following the raw inputs of two batches, one after the other, is
/// following the raw inputs of both.
pub proof fn lemma_track_all_append(frame_data: WindowData, first: Seq<RawInput>, second: Seq<RawInput>)
    ensures
        spec_track_all(frame_data, first + second) == spec_track_all(
            spec_track_all(frame_data, first),
            second,
        ),
    decreases second.len(),
{
    if second.len() > 0 {
        assert((first + second).drop_last() == first + second.drop_last());
        lemma_track_all_append(frame_data, first, second.drop_last());
    }
}

/// The frame data that the raw inputs of a batch of window events lead to is
/// the frame data after the batch.
pub proof fn lemma_raw_batch_tracks(frame_data: WindowData, events: Seq<(Timestamp, WindowInput)>)
    ensures
        spec_track_all(frame_data, spec_raw_batch(frame_data, events)) == spec_next_frame_batch(
            frame_data,
            events,
        ),
    decreases events.len(),
{
    if events.len() > 0 {
        let before = events.drop_last();
        lemma_raw_batch_tracks(frame_data, before);
        let mid = spec_next_frame_batch(frame_data, before);
        lemma_track_all_append(
            frame_data,
            spec_raw_batch(frame_data, before),
            spec_raw_inputs(events.last().0, events.last().1, mid),
        );
        lemma_raw_inputs_track(events.last().0, events.last().1, mid);
    }
}

impl InputReMapper {
    /// Handles the window events of one tick, each with the time at which it
    /// happened: maps them to raw inputs, starting from the frame data of the
    /// tick before, and handles those.
    pub fn process_at(&mut self, events: &Vec<(Timestamp, WindowInput)>) -> (out: Vec<Event>)
        requires
            spec_remapper_well_formed(old(self)@),
        ensures
            views_of(out@) == spec_tick_events(
                old(self)@,
                spec_raw_batch(old(self)@.frame_data, events@),
            ),
            final(self)@ == spec_tick(old(self)@, spec_raw_batch(old(self)@.frame_data, events@)),
            final(self)@.frame_data == spec_next_frame_batch(old(self)@.frame_data, events@),
            spec_remapper_well_formed(final(self)@),
    {
        let mut next = self.frame_data();
        let raw = process_events(events, &mut next);
        proof {
            lemma_raw_batch_tracks(self@.frame_data, events@);
        }
        self.process_raw_input(&raw)
    }

    /// Handles the window events of one tick, which happen now: gives each
    /// the time that the clock shows, and handles them as `process_at` does.
    pub fn process(&mut self, events: &Vec<WindowInput>) -> (out: Vec<Event>)
        requires
            spec_remapper_well_formed(old(self)@),
        ensures
            exists|timed: Seq<(Timestamp, WindowInput)>|
                {
                    &&& timed.len() == events@.len()
                    &&& forall|i: int| 0 <= i < timed.len() ==> (#[trigger] timed[i]).1 == events@[i]
                    &&& views_of(out@) == spec_tick_events(
                        old(self)@,
                        spec_raw_batch(old(self)@.frame_data, timed),
                    )
                    &&& final(self)@ == spec_tick(
                        old(self)@,
                        spec_raw_batch(old(self)@.frame_data, timed),
                    )
                },
            spec_remapper_well_formed(final(self)@),
    {
        let mut timed: Vec<(Timestamp, WindowInput)> = Vec::new();
        let mut i: usize = 0;
        while i < events.len()
            invariant
                i <= events.len(),
                timed@.len() == i,
                forall|k: int| 0 <= k < i ==> (#[trigger] timed@[k]).1 == events@[k],
            decreases events.len() - i,
        {
            let time = precise_time_ns();
            timed.push((time, events[i]));
            i += 1;
        }
        self.process_at(&timed)
    }
}

} // verus!
