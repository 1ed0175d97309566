//! Matching a binding against a raw input, extracting the arguments that
//! an action wants, and building the event that a matching binding produces.

use vstd::prelude::*;

use crate::event::{
    view_of, Argument, ControllerEvent, ControllerEventView, RangeDiff, StateAction, StateDuration,
};
use crate::raw::{spec_raw_action, RawInput, RawInputAction, RawInputEvent};
use crate::types::{
    spec_is_active, ActionArgument, ActionId, ButtonId, Context, ContextId, ContextView, KeyCode,
    MappedType, Mapping, MappingView, Modifier, Modifiers, RawAction, RawArgs, RawState, RawType,
    StateInfo, StateStorage, Timestamp, WindowData,
};

verus! {

// ---------------------------------------------------------------------------
// The matcher: does a binding match a raw input, given which states are held?
// ---------------------------------------------------------------------------
/// A binding that names a button matches that button only.
pub open spec fn spec_check_button_id(config_button: Option<ButtonId>, raw_button: ButtonId) -> bool {
    config_button matches Some(b) ==> b == raw_button
}

/// A binding that names a key matches that key only.
pub open spec fn spec_check_keycode(config_keycode: Option<KeyCode>, raw_keycode: KeyCode) -> bool {
    config_keycode matches Some(k) ==> k == raw_keycode
}

/// A binding that asks for a key or button state matches that state only. A
/// repeating key is in neither state.
pub open spec fn spec_check_state(config_state: Option<RawState>, raw_action: RawInputAction) -> bool {
    match config_state {
        Some(RawState::Press) => raw_action == RawInputAction::Press,
        Some(RawState::Release) => raw_action == RawInputAction::Release,
        None => true,
    }
}

/// A binding that asks for a modifier matches while that modifier is held,
/// whatever else is.
pub open spec fn spec_check_modifiers(config_modifier: Option<Modifier>, raw_modifiers: Modifiers) -> bool {
    config_modifier matches Some(m) ==> raw_modifiers.has(m)
}

/// A binding guarded by a state matches while that state is held.
pub open spec fn spec_check_state_active(
    state_active: Option<ActionId>,
    states: Map<ActionId, StateInfo>,
) -> bool {
    state_active matches Some(state) ==> spec_is_active(states, state)
}

/// Whether a binding matches a raw input: the input is of the kind that the
/// binding listens to, and everything that the binding asks for holds of it.
/// Motion and typed characters have no key, state or modifiers to ask for.
pub open spec fn spec_check_mapping(
    mapping: MappingView,
    event: RawInputEvent,
    states: Map<ActionId, StateInfo>,
) -> bool {
    match (mapping.raw_type, event) {
        (RawType::Button, RawInputEvent::Button(button, _, action, modifiers)) => {
            &&& spec_check_button_id(mapping.raw_args.button, button)
            &&& spec_check_state(mapping.raw_args.action, action)
            &&& spec_check_modifiers(mapping.raw_args.modifier, modifiers)
            &&& spec_check_state_active(mapping.raw_args.state_active, states)
        },
        (RawType::Key, RawInputEvent::Key(keycode, action, modifiers)) => {
            &&& spec_check_keycode(mapping.raw_args.keycode, keycode)
            &&& spec_check_state(mapping.raw_args.action, action)
            &&& spec_check_modifiers(mapping.raw_args.modifier, modifiers)
            &&& spec_check_state_active(mapping.raw_args.state_active, states)
        },
        (RawType::Motion, RawInputEvent::Motion(_, _)) => spec_check_state_active(
            mapping.raw_args.state_active,
            states,
        ),
        (RawType::Char, RawInputEvent::Char(_)) => spec_check_state_active(
            mapping.raw_args.state_active,
            states,
        ),
        _ => false,
    }
}

pub fn check_button_id(config_button: &Option<ButtonId>, raw_button: &ButtonId) -> (ok: bool)
    ensures
        ok == spec_check_button_id(*config_button, *raw_button),
{
    match config_button {
        Some(button) => *button == *raw_button,
        None => true,
    }
}

pub fn check_keycode(config_keycode: &Option<KeyCode>, raw_keycode: &KeyCode) -> (ok: bool)
    ensures
        ok == spec_check_keycode(*config_keycode, *raw_keycode),
{
    match config_keycode {
        Some(keycode) => *keycode == *raw_keycode,
        None => true,
    }
}

pub fn check_state(config_state: &Option<RawState>, raw_action: &RawInputAction) -> (ok: bool)
    ensures
        ok == spec_check_state(*config_state, *raw_action),
{
    match config_state {
        Some(RawState::Press) => *raw_action == RawInputAction::Press,
        Some(RawState::Release) => *raw_action == RawInputAction::Release,
        None => true,
    }
}

pub fn check_modifiers(config_modifier: &Option<Modifier>, raw_modifiers: &Modifiers) -> (ok: bool)
    ensures
        ok == spec_check_modifiers(*config_modifier, *raw_modifiers),
{
    match config_modifier {
        Some(modifier) => raw_modifiers.contains(*modifier),
        None => true,
    }
}

pub fn check_state_active(state_active: &Option<ActionId>, state_storage: &StateStorage) -> (ok: bool)
    ensures
        ok == spec_check_state_active(*state_active, state_storage@),
{
    match state_active {
        Some(state) => state_storage.is_active(state),
        None => true,
    }
}

pub fn check_button(raw_args: &RawArgs, raw_input: &RawInput, state_storage: &StateStorage) -> (ok:
    bool)
    ensures
        ok == match raw_input.event {
            RawInputEvent::Button(button, _, action, modifiers) => {
                &&& spec_check_button_id(raw_args.button, button)
                &&& spec_check_state(raw_args.action, action)
                &&& spec_check_modifiers(raw_args.modifier, modifiers)
                &&& spec_check_state_active(raw_args.state_active, state_storage@)
            },
            _ => false,
        },
{
    match raw_input.event {
        RawInputEvent::Button(button, _, action, modifiers) => {
            check_button_id(&raw_args.button, &button) && check_state(&raw_args.action, &action)
                && check_modifiers(&raw_args.modifier, &modifiers) && check_state_active(
                &raw_args.state_active,
                state_storage,
            )
        },
        _ => false,
    }
}

pub fn check_key(raw_args: &RawArgs, raw_input: &RawInput, state_storage: &StateStorage) -> (ok: bool)
    ensures
        ok == match raw_input.event {
            RawInputEvent::Key(keycode, action, modifiers) => {
                &&& spec_check_keycode(raw_args.keycode, keycode)
                &&& spec_check_state(raw_args.action, action)
                &&& spec_check_modifiers(raw_args.modifier, modifiers)
                &&& spec_check_state_active(raw_args.state_active, state_storage@)
            },
            _ => false,
        },
{
    match raw_input.event {
        RawInputEvent::Key(keycode, action, modifiers) => {
            check_keycode(&raw_args.keycode, &keycode) && check_state(&raw_args.action, &action)
                && check_modifiers(&raw_args.modifier, &modifiers) && check_state_active(
                &raw_args.state_active,
                state_storage,
            )
        },
        _ => false,
    }
}

pub fn check_motion(raw_args: &RawArgs, raw_input: &RawInput, state_storage: &StateStorage) -> (ok:
    bool)
    ensures
        ok == (raw_input.event is Motion && spec_check_state_active(
            raw_args.state_active,
            state_storage@,
        )),
{
    match raw_input.event {
        RawInputEvent::Motion(_, _) => check_state_active(&raw_args.state_active, state_storage),
        _ => false,
    }
}

pub fn check_char(raw_args: &RawArgs, raw_input: &RawInput, state_storage: &StateStorage) -> (ok: bool)
    ensures
        ok == (raw_input.event is Char && spec_check_state_active(
            raw_args.state_active,
            state_storage@,
        )),
{
    match raw_input.event {
        RawInputEvent::Char(_) => check_state_active(&raw_args.state_active, state_storage),
        _ => false,
    }
}

/// Whether a binding matches a raw input. Reads the held states and changes
/// nothing.
pub fn check_mapping(mapping: &Mapping, raw_input: &RawInput, state_storage: &StateStorage) -> (ok:
    bool)
    ensures
        ok == spec_check_mapping(mapping@, raw_input.event, state_storage@),
{
    match mapping.raw_type {
        RawType::Button => check_button(&mapping.raw_args, raw_input, state_storage),
        RawType::Key => check_key(&mapping.raw_args, raw_input, state_storage),
        RawType::Motion => check_motion(&mapping.raw_args, raw_input, state_storage),
        RawType::Char => check_char(&mapping.raw_args, raw_input, state_storage),
    }
}

// ---------------------------------------------------------------------------
// The argument extractor.
// ---------------------------------------------------------------------------
/// The key of a key input.
pub open spec fn spec_get_keycode(event: RawInputEvent) -> Option<Argument> {
    match event {
        RawInputEvent::Key(keycode, _, _) => Some(Argument::KeyCode(keycode)),
        _ => None,
    }
}

/// The modifiers of a key or button input.
pub open spec fn spec_get_modifiers(event: RawInputEvent) -> Option<Argument> {
    match event {
        RawInputEvent::Key(_, _, modifiers) => Some(Argument::Modifiers(modifiers)),
        RawInputEvent::Button(_, _, _, modifiers) => Some(Argument::Modifiers(modifiers)),
        _ => None,
    }
}

/// The character of a typed character.
pub open spec fn spec_get_value(event: RawInputEvent) -> Option<Argument> {
    match event {
        RawInputEvent::Char(ch) => Some(Argument::Value(ch)),
        _ => None,
    }
}

/// What the key or button of a key or button input did.
pub open spec fn spec_get_action(event: RawInputEvent) -> Option<Argument> {
    match event {
        RawInputEvent::Key(_, action, _) => Some(Argument::Action(spec_raw_action(action))),
        RawInputEvent::Button(_, _, action, _) => Some(Argument::Action(spec_raw_action(action))),
        _ => None,
    }
}

/// The cursor position that was last reported, if any was.
pub open spec fn spec_get_cursor_position(frame_data: WindowData) -> Option<Argument> {
    match frame_data.cursor_position {
        Some((x, y)) => Some(Argument::CursorPosition(x, y)),
        None => None,
    }
}

/// The value of one wanted argument, where the raw input or the frame data
/// has it.
pub open spec fn spec_argument(
    wanted: ActionArgument,
    event: RawInputEvent,
    context_id: ContextId,
    frame_data: WindowData,
) -> Option<Argument> {
    match wanted {
        ActionArgument::KeyCode => spec_get_keycode(event),
        ActionArgument::Value => spec_get_value(event),
        ActionArgument::Modifiers => spec_get_modifiers(event),
        ActionArgument::Action => spec_get_action(event),
        ActionArgument::CursorPosition => spec_get_cursor_position(frame_data),
        ActionArgument::ContextId => Some(Argument::ContextId(context_id)),
    }
}

/// The values of the wanted arguments, in the order in which they are wanted.
/// One that the raw input does not have is left out, with nothing in its place.
pub open spec fn spec_arguments(
    wanted: Seq<ActionArgument>,
    event: RawInputEvent,
    context_id: ContextId,
    frame_data: WindowData,
) -> Seq<Argument>
    decreases wanted.len(),
{
    if wanted.len() == 0 {
        Seq::empty()
    } else {
        let before = spec_arguments(wanted.drop_last(), event, context_id, frame_data);
        match spec_argument(wanted.last(), event, context_id, frame_data) {
            Some(argument) => before.push(argument),
            None => before,
        }
    }
}

pub fn get_keycode(raw_input: &RawInput) -> (argument: Option<Argument>)
    ensures
        argument == spec_get_keycode(raw_input.event),
{
    match raw_input.event {
        RawInputEvent::Key(keycode, _, _) => Some(Argument::KeyCode(keycode)),
        _ => None,
    }
}

pub fn get_modifiers(raw_input: &RawInput) -> (argument: Option<Argument>)
    ensures
        argument == spec_get_modifiers(raw_input.event),
{
    match raw_input.event {
        RawInputEvent::Key(_, _, modifiers) => Some(Argument::Modifiers(modifiers)),
        RawInputEvent::Button(_, _, _, modifiers) => Some(Argument::Modifiers(modifiers)),
        _ => None,
    }
}

pub fn get_value(raw_input: &RawInput) -> (argument: Option<Argument>)
    ensures
        argument == spec_get_value(raw_input.event),
{
    match raw_input.event {
        RawInputEvent::Char(ch) => Some(Argument::Value(ch)),
        _ => None,
    }
}

pub fn get_action(raw_input: &RawInput) -> (argument: Option<Argument>)
    ensures
        argument == spec_get_action(raw_input.event),
{
    match raw_input.event {
        RawInputEvent::Key(_, action, _) => Some(Argument::Action(RawAction::from(action))),
        RawInputEvent::Button(_, _, action, _) => Some(Argument::Action(RawAction::from(action))),
        _ => None,
    }
}

pub fn get_cursor_position(frame_data: &WindowData) -> (argument: Option<Argument>)
    ensures
        argument == spec_get_cursor_position(*frame_data),
{
    match frame_data.cursor_position {
        Some((x, y)) => Some(Argument::CursorPosition(x, y)),
        None => None,
    }
}

/// Extracts the wanted arguments from a raw input and the frame data.
pub fn arguments(
    args: &Vec<ActionArgument>,
    raw_input: &RawInput,
    context_id: &ContextId,
    frame_data: &WindowData,
) -> (extracted: Vec<Argument>)
    ensures
        extracted@ == spec_arguments(args@, raw_input.event, *context_id, *frame_data),
{
    let mut extracted: Vec<Argument> = Vec::new();
    let mut i: usize = 0;
    while i < args.len()
        invariant
            i <= args.len(),
            extracted@ == spec_arguments(
                args@.take(i as int),
                raw_input.event,
                *context_id,
                *frame_data,
            ),
        decreases args.len() - i,
    {
        let argument = match args[i] {
            ActionArgument::KeyCode => get_keycode(raw_input),
            ActionArgument::Value => get_value(raw_input),
            ActionArgument::Modifiers => get_modifiers(raw_input),
            ActionArgument::Action => get_action(raw_input),
            ActionArgument::CursorPosition => get_cursor_position(frame_data),
            ActionArgument::ContextId => Some(Argument::ContextId(*context_id)),
        };
        proof {
            assert(args@.take(i + 1).drop_last() == args@.take(i as int));
        }
        match argument {
            Some(a) => extracted.push(a),
            None => {},
        }
        i += 1;
    }
    proof {
        assert(args@.take(args.len() as int) == args@);
    }
    extracted
}

// ---------------------------------------------------------------------------
// The classifier: the event that a matching binding produces.
// ---------------------------------------------------------------------------
/// What the key or button of a key or button input did.
pub open spec fn spec_raw_input_action(event: RawInputEvent) -> Option<RawInputAction> {
    match event {
        RawInputEvent::Key(_, action, _) => Some(action),
        RawInputEvent::Button(_, _, action, _) => Some(action),
        _ => None,
    }
}

/// The phase that a key or button input puts a state in: a press, or a repeat,
/// activates it unless it is held already; a release deactivates it.
pub open spec fn spec_state_action(
    action: ActionId,
    raw_action: RawInputAction,
    states: Map<ActionId, StateInfo>,
) -> StateAction {
    match raw_action {
        RawInputAction::Press | RawInputAction::Repeat => if spec_is_active(states, action) {
            StateAction::Active
        } else {
            StateAction::Activated
        },
        RawInputAction::Release => StateAction::Deactivated,
    }
}

/// For how long a state has been held at the time `now`: the time since it
/// was activated if it is held and was not activated later than `now`, else 0.
pub open spec fn spec_state_duration(
    action: ActionId,
    now: Timestamp,
    states: Map<ActionId, StateInfo>,
) -> StateDuration {
    if spec_is_active(states, action) && states[action].start_time <= now {
        (now - states[action].start_time) as u64
    } else {
        0
    }
}

/// How far a motion input says the cursor moved; nothing for any other input.
pub open spec fn spec_range_diff(event: RawInputEvent) -> RangeDiff {
    match event {
        RawInputEvent::Motion(x, y) => (x, y),
        _ => (0, 0),
    }
}

/// A binding is well formed unless it reports a state from an input that has
/// no key or button to be pressed or released.
pub open spec fn spec_well_formed(mapping: MappingView) -> bool {
    mapping.mapped_type == Some(MappedType::State) ==> (mapping.raw_type == RawType::Key
        || mapping.raw_type == RawType::Button)
}

/// The event that a binding produces for a raw input that it matches. A
/// binding that does not say how its action is reported produces none.
pub open spec fn spec_classify(
    mapping: MappingView,
    raw_input: RawInput,
    context_id: ContextId,
    states: Map<ActionId, StateInfo>,
    frame_data: WindowData,
) -> Option<ControllerEventView> {
    let args = spec_arguments(mapping.action_args, raw_input.event, context_id, frame_data);
    match mapping.mapped_type {
        Some(MappedType::Action) => Some(ControllerEventView::Action(mapping.action, args)),
        Some(MappedType::State) => match spec_raw_input_action(raw_input.event) {
            Some(raw_action) => Some(
                ControllerEventView::State(
                    mapping.action,
                    spec_state_action(mapping.action, raw_action, states),
                    spec_state_duration(mapping.action, raw_input.time, states),
                    args,
                ),
            ),
            None => None,
        },
        Some(MappedType::Range) => Some(
            ControllerEventView::Range(mapping.action, spec_range_diff(raw_input.event), args),
        ),
        None => None,
    }
}

/// The held states after an event of the state kind: activation records the
/// time unless the state is held already, release records the time of release
/// and keeps the time of activation. A release of a state that was never
/// activated records nothing.
pub open spec fn spec_update_state_info(
    states: Map<ActionId, StateInfo>,
    action: ActionId,
    state_action: StateAction,
    now: Timestamp,
) -> Map<ActionId, StateInfo> {
    match state_action {
        StateAction::Active | StateAction::Activated => if spec_is_active(states, action) {
            states
        } else {
            states.insert(action, StateInfo { active: true, start_time: now, stop_time: 0 })
        },
        StateAction::Deactivated => if states.contains_key(action) {
            states.insert(
                action,
                StateInfo { active: false, start_time: states[action].start_time, stop_time: now },
            )
        } else {
            states
        },
    }
}

/// The held states after an event, if there was one: only an event of the
/// state kind changes them.
pub open spec fn spec_apply_event(
    states: Map<ActionId, StateInfo>,
    event: Option<ControllerEventView>,
    now: Timestamp,
) -> Map<ActionId, StateInfo> {
    match event {
        Some(ControllerEventView::State(action, state_action, _, _)) => spec_update_state_info(
            states,
            action,
            state_action,
            now,
        ),
        _ => states,
    }
}

pub fn range_diff(raw_input: &RawInput) -> (diff: RangeDiff)
    ensures
        diff == spec_range_diff(raw_input.event),
{
    match raw_input.event {
        RawInputEvent::Motion(x, y) => (x, y),
        _ => (0, 0),
    }
}

pub fn state_action(action: &ActionId, raw_action: &RawInputAction, state_storage: &StateStorage) -> (phase:
    StateAction)
    ensures
        phase == spec_state_action(*action, *raw_action, state_storage@),
{
    match raw_action {
        RawInputAction::Press | RawInputAction::Repeat => {
            if state_storage.is_active(action) {
                StateAction::Active
            } else {
                StateAction::Activated
            }
        },
        RawInputAction::Release => StateAction::Deactivated,
    }
}

pub fn state_duration(action: &ActionId, raw_input: &RawInput, state_storage: &StateStorage) -> (duration:
    StateDuration)
    ensures
        duration == spec_state_duration(*action, raw_input.time, state_storage@),
{
    match state_storage.get(action) {
        Some(info) => {
            if info.active && info.start_time <= raw_input.time {
                raw_input.time - info.start_time
            } else {
                0
            }
        },
        None => 0,
    }
}

/// The event of a fire-once action.
pub fn as_action(
    mapping: &Mapping,
    raw_input: &RawInput,
    context_id: &ContextId,
    frame_data: &WindowData,
) -> (event: ControllerEvent)
    ensures
        event@ == ControllerEventView::Action(
            mapping@.action,
            spec_arguments(mapping@.action_args, raw_input.event, *context_id, *frame_data),
        ),
{
    ControllerEvent::Action(
        mapping.action,
        arguments(&mapping.action_args, raw_input, context_id, frame_data),
    )
}

/// The event of a range.
pub fn as_range(
    mapping: &Mapping,
    raw_input: &RawInput,
    context_id: &ContextId,
    frame_data: &WindowData,
) -> (event: ControllerEvent)
    ensures
        event@ == ControllerEventView::Range(
            mapping@.action,
            spec_range_diff(raw_input.event),
            spec_arguments(mapping@.action_args, raw_input.event, *context_id, *frame_data),
        ),
{
    ControllerEvent::Range(
        mapping.action,
        range_diff(raw_input),
        arguments(&mapping.action_args, raw_input, context_id, frame_data),
    )
}

/// The event of a state, for an input that has a key or button.
pub fn as_state(
    mapping: &Mapping,
    raw_input: &RawInput,
    context_id: &ContextId,
    frame_data: &WindowData,
    state_storage: &StateStorage,
) -> (event: ControllerEvent)
    requires
        spec_raw_input_action(raw_input.event) is Some,
    ensures
        event@ == ControllerEventView::State(
            mapping@.action,
            spec_state_action(
                mapping@.action,
                spec_raw_input_action(raw_input.event).unwrap(),
                state_storage@,
            ),
            spec_state_duration(mapping@.action, raw_input.time, state_storage@),
            spec_arguments(mapping@.action_args, raw_input.event, *context_id, *frame_data),
        ),
{
    let raw_action = match raw_input.event {
        RawInputEvent::Key(_, action, _) => action,
        RawInputEvent::Button(_, _, action, _) => action,
        _ => RawInputAction::Release,
    };
    ControllerEvent::State(
        mapping.action,
        state_action(&mapping.action, &raw_action, state_storage),
        state_duration(&mapping.action, raw_input, state_storage),
        arguments(&mapping.action_args, raw_input, context_id, frame_data),
    )
}

/// Records an event of the state kind in the held states.
pub fn update_state_info(
    action: &ActionId,
    state_action: &StateAction,
    raw_input: &RawInput,
    state_storage: &mut StateStorage,
)
    ensures
        final(state_storage)@ == spec_update_state_info(
            old(state_storage)@,
            *action,
            *state_action,
            raw_input.time,
        ),
{
    broadcast use vstd::std_specs::hash::group_hash_axioms;

    let known = state_storage.get(action);
    match state_action {
        StateAction::Active | StateAction::Activated => {
            let held = match known {
                Some(info) => info.active,
                None => false,
            };
            if !held {
                state_storage.states.insert(
                    *action,
                    StateInfo { active: true, start_time: raw_input.time, stop_time: 0 },
                );
            }
        },
        StateAction::Deactivated => {
            match known {
                Some(info) => {
                    state_storage.states.insert(
                        *action,
                        StateInfo {
                            active: false,
                            start_time: info.start_time,
                            stop_time: raw_input.time,
                        },
                    );
                },
                None => {},
            }
        },
    }
}

// ---------------------------------------------------------------------------
// A context: the first binding that matches wins.
// ---------------------------------------------------------------------------
/// Whether a binding wins a raw input: it matches, and it says how its action
/// is reported.
pub open spec fn spec_wins(
    mapping: MappingView,
    event: RawInputEvent,
    states: Map<ActionId, StateInfo>,
) -> bool {
    spec_check_mapping(mapping, event, states) && mapping.mapped_type is Some
}

/// The index of the first binding, from `from` on, that wins the raw input.
pub open spec fn spec_first_match_from(
    mappings: Seq<MappingView>,
    event: RawInputEvent,
    states: Map<ActionId, StateInfo>,
    from: int,
) -> Option<int>
    decreases mappings.len() - from,
{
    if from < 0 || from >= mappings.len() {
        None
    } else if spec_wins(mappings[from], event, states) {
        Some(from)
    } else {
        spec_first_match_from(mappings, event, states, from + 1)
    }
}

/// The index of the first binding that wins the raw input.
pub open spec fn spec_first_match(
    mappings: Seq<MappingView>,
    event: RawInputEvent,
    states: Map<ActionId, StateInfo>,
) -> Option<int> {
    spec_first_match_from(mappings, event, states, 0)
}

/// A context is well formed if its bindings are.
pub open spec fn spec_context_well_formed(context: ContextView) -> bool {
    forall|i: int| 0 <= i < context.mappings.len() ==> spec_well_formed(#[trigger] context.mappings[i])
}

/// The event that a context produces for a raw input: that of its first
/// binding that wins, or none.
pub open spec fn spec_context_process(
    context: ContextView,
    raw_input: RawInput,
    states: Map<ActionId, StateInfo>,
    frame_data: WindowData,
) -> Option<ControllerEventView> {
    match spec_first_match(context.mappings, raw_input.event, states) {
        Some(i) => spec_classify(context.mappings[i], raw_input, context.id, states, frame_data),
        None => None,
    }
}

impl Mapping {
    /// Whether the binding is well formed.
    pub fn is_well_formed(&self) -> (ok: bool)
        ensures
            ok == spec_well_formed(self@),
    {
        match self.mapped_type {
            Some(MappedType::State) => match self.raw_type {
                RawType::Key | RawType::Button => true,
                _ => false,
            },
            _ => true,
        }
    }
}

impl Context {
    /// Whether each binding of the context is well formed.
    pub fn is_well_formed(&self) -> (ok: bool)
        ensures
            ok == spec_context_well_formed(self@),
    {
        let mut i: usize = 0;
        while i < self.mappings.len()
            invariant
                i <= self.mappings.len(),
                forall|k: int| 0 <= k < i ==> spec_well_formed(#[trigger] self@.mappings[k]),
            decreases self.mappings.len() - i,
        {
            if !self.mappings[i].is_well_formed() {
                assert(!spec_well_formed(self@.mappings[i as int]));
                return false;
            }
            i += 1;
        }
        true
    }

    /// The event that the first winning binding produces for a raw input, read
    /// from the held states as they are. Changes nothing.
    pub fn process_internal(
        &self,
        raw_input: &RawInput,
        state_storage: &StateStorage,
        frame_data: &WindowData,
    ) -> (event: Option<ControllerEvent>)
        requires
            spec_context_well_formed(self@),
        ensures
            view_of(event) == spec_context_process(self@, *raw_input, state_storage@, *frame_data),
    {
        let mut i: usize = 0;
        while i < self.mappings.len()
            invariant
                i <= self.mappings.len(),
                spec_context_well_formed(self@),
                spec_first_match(self@.mappings, raw_input.event, state_storage@)
                    == spec_first_match_from(
                    self@.mappings,
                    raw_input.event,
                    state_storage@,
                    i as int,
                ),
            decreases self.mappings.len() - i,
        {
            let mapping = &self.mappings[i];
            if check_mapping(mapping, raw_input, state_storage) {
                match mapping.mapped_type {
                    Some(MappedType::Action) => {
                        return Some(as_action(mapping, raw_input, &self.id, frame_data));
                    },
                    Some(MappedType::State) => {
                        return Some(
                            as_state(mapping, raw_input, &self.id, frame_data, state_storage),
                        );
                    },
                    Some(MappedType::Range) => {
                        return Some(as_range(mapping, raw_input, &self.id, frame_data));
                    },
                    None => {},
                }
            }
            i += 1;
        }
        None
    }

    /// Produces the event of the first winning binding, and records it in the
    /// held states if it is of the state kind. The event is read from the
    /// states as they were before.
    pub fn process(
        &self,
        raw_input: &RawInput,
        state_storage: &mut StateStorage,
        frame_data: &WindowData,
    ) -> (event: Option<ControllerEvent>)
        requires
            spec_context_well_formed(self@),
        ensures
            view_of(event) == spec_context_process(
                self@,
                *raw_input,
                old(state_storage)@,
                *frame_data,
            ),
            final(state_storage)@ == spec_apply_event(
                old(state_storage)@,
                view_of(event),
                raw_input.time,
            ),
    {
        let event = self.process_internal(raw_input, state_storage, frame_data);
        match &event {
            Some(ControllerEvent::State(action, state_action, _, _)) => {
                update_state_info(action, state_action, raw_input, state_storage);
            },
            _ => {},
        }
        event
    }
}

} // verus!
