//! The events that the engine hands to the application, and the values
//! that come with them.

use vstd::prelude::*;

use crate::types::{ActionId, ContextId, KeyCode, Modifiers, RawAction};

verus! {

/// Whether the window gained or lost the focus.
#[derive(Debug, Clone, Copy, PartialEq, Eq, Hash, Structural)]
pub enum FocusAction {
    Enter,
    Exit,
}

/// An event of the window itself.
#[derive(Debug, Clone, Copy, PartialEq, Eq, Hash, Structural)]
pub enum WindowEvent {
    Resize(u32, u32),
    Focus(FocusAction),
    Close,
}

/// How long an action of the state kind has been held, in nanoseconds.
pub type StateDuration = u64;

/// How far the cursor moved, in fixed-point fractions of the window size.
pub type RangeDiff = (i64, i64);

/// The phase of an action of the state kind that an event reports.
#[derive(Debug, Clone, Copy, PartialEq, Eq, Hash, Structural)]
pub enum StateAction {
    /// The action was not held and is now.
    Activated,
    /// The action was held and still is.
    Active,
    /// The action was released.
    Deactivated,
}

/// A value handed to the application with an event, taken from the raw input
/// that caused it.
#[derive(Debug, Clone, Copy, PartialEq, Eq)]
pub enum Argument {
    KeyCode(KeyCode),
    Value(char),
    Modifiers(Modifiers),
    Action(RawAction),
    CursorPosition(i32, i32),
    ContextId(ContextId),
}

/// An action that a raw input was mapped to.
#[derive(Debug, PartialEq, Eq)]
pub enum ControllerEvent {
    Action(ActionId, Vec<Argument>),
    State(ActionId, StateAction, StateDuration, Vec<Argument>),
    Range(ActionId, RangeDiff, Vec<Argument>),
}

/// The mathematical value of a `ControllerEvent`.
pub enum ControllerEventView {
    Action(ActionId, Seq<Argument>),
    State(ActionId, StateAction, StateDuration, Seq<Argument>),
    Range(ActionId, RangeDiff, Seq<Argument>),
}

impl View for ControllerEvent {
    type V = ControllerEventView;

    open spec fn view(&self) -> ControllerEventView {
        match *self {
            ControllerEvent::Action(action, args) => ControllerEventView::Action(action, args@),
            ControllerEvent::State(action, state_action, duration, args) => ControllerEventView::State(
                action,
                state_action,
                duration,
                args@,
            ),
            ControllerEvent::Range(action, diff, args) => ControllerEventView::Range(
                action,
                diff,
                args@,
            ),
        }
    }
}

impl Clone for ControllerEvent {
    fn clone(&self) -> (copy: ControllerEvent)
        ensures
            copy@ == self@,
    {
        match self {
            ControllerEvent::Action(action, args) => ControllerEvent::Action(*action, args.clone()),
            ControllerEvent::State(action, state_action, duration, args) => ControllerEvent::State(
                *action,
                *state_action,
                *duration,
                args.clone(),
            ),
            ControllerEvent::Range(action, diff, args) => ControllerEvent::Range(
                *action,
                (diff.0, diff.1),
                args.clone(),
            ),
        }
    }
}

/// What the engine hands to the application.
#[derive(Debug, PartialEq, Eq)]
pub enum Event {
    Window(WindowEvent),
    Controller(ControllerEvent),
}

/// The mathematical value of an `Event`.
pub enum EventView {
    Window(WindowEvent),
    Controller(ControllerEventView),
}

impl View for Event {
    type V = EventView;

    open spec fn view(&self) -> EventView {
        match *self {
            Event::Window(w) => EventView::Window(w),
            Event::Controller(c) => EventView::Controller(c@),
        }
    }
}

impl Clone for Event {
    fn clone(&self) -> (copy: Event)
        ensures
            copy@ == self@,
    {
        match self {
            Event::Window(w) => Event::Window(*w),
            Event::Controller(c) => Event::Controller(c.clone()),
        }
    }
}

/// The value of an event that may be absent.
pub open spec fn view_of(event: Option<ControllerEvent>) -> Option<ControllerEventView> {
    match event {
        Some(e) => Some(e@),
        None => None,
    }
}

/// The values of the events of a list, in order.
pub open spec fn views_of(events: Seq<Event>) -> Seq<EventView> {
    events.map_values(|e: Event| e@)
}

} // verus!
