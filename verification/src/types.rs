//! The data model: bindings, contexts, held states and frame data.

use std::collections::HashMap;
use vstd::prelude::*;

pub use crate::keycode::KeyCode;

verus! {

/// Identifies an application-defined action. The engine compares and stores
/// actions by this number only.
pub type ActionId = u32;

/// Identifies a context.
pub type ContextId = u32;

/// Identifies a mouse button: 1 is the left, 2 the right, 3 the middle one.
pub type ButtonId = u32;

/// A point in time, in nanoseconds since an unspecified epoch.
pub type Timestamp = u64;

/// A cursor position, in fixed-point fractions of the window size. The unit is
/// chosen by whoever normalizes the coordinates; the engine only subtracts.
pub type WindowPosition = (i32, i32);

/// A window size in pixels.
pub type WindowSize = (u32, u32);

/// A mouse button as a window system names it.
#[derive(Debug, Clone, Copy, PartialEq, Eq, Hash, Structural)]
pub enum MouseButton {
    Left,
    Right,
    Middle,
    Other(u8),
}

/// The number under which bindings refer to a mouse button.
pub open spec fn spec_button_id(button: MouseButton) -> ButtonId {
    match button {
        MouseButton::Left => 1,
        MouseButton::Right => 2,
        MouseButton::Middle => 3,
        MouseButton::Other(b) => b as u32,
    }
}

/// The kind of device that a raw input came from.
#[derive(Debug, Clone, Copy, PartialEq, Eq, Hash, Structural)]
pub enum DeviceType {
    Keyboard,
    Mouse,
    Window,
}

/// The kind of raw input that a binding listens to.
#[derive(Debug, Clone, Copy, PartialEq, Eq, Hash, Structural)]
pub enum RawType {
    Button,
    Key,
    Motion,
    Char,
}

/// What a key or button did, as handed to the application in an argument.
#[derive(Debug, Clone, Copy, PartialEq, Eq, Hash, Structural)]
pub enum RawAction {
    Press,
    Release,
    Repeat,
}

/// The key or button state that a binding may ask for. A key repeat is neither:
/// a binding that asks for either state does not match a repeating key, one
/// that asks for nothing does.
#[derive(Debug, Clone, Copy, PartialEq, Eq, Hash, Structural)]
pub enum RawState {
    Press,
    Release,
}

/// One modifier key.
#[derive(Debug, Clone, Copy, PartialEq, Eq, Hash, Structural)]
pub enum Modifier {
    ALT,
    CONTROL,
    SHIFT,
    SUPER,
}

/// The bit that stands for a modifier in a `Modifiers` mask.
pub open spec fn spec_modifier_bit(modifier: Modifier) -> u32 {
    match modifier {
        Modifier::SHIFT => 1,
        Modifier::CONTROL => 2,
        Modifier::ALT => 4,
        Modifier::SUPER => 8,
    }
}

impl Modifier {
    /// The bit that stands for this modifier in a `Modifiers` mask.
    pub fn bit(&self) -> (bit: u32)
        ensures
            bit == spec_modifier_bit(*self),
    {
        match self {
            Modifier::SHIFT => 1,
            Modifier::CONTROL => 2,
            Modifier::ALT => 4,
            Modifier::SUPER => 8,
        }
    }
}

/// The set of modifier keys held while a key or button event happened, as a
/// bit mask. Bits above the four known modifiers carry no meaning.
#[derive(Debug, Clone, Copy, PartialEq, Eq, Hash, Structural)]
pub struct Modifiers {
    pub bits: u32,
}

/// The modifiers of a raw input are the same bit mask.
pub type RawInputModifiers = Modifiers;

/// The bits of the four known modifiers.
pub const ALL_MODIFIERS: u32 = 15;

proof fn lemma_set_bit(bits: u32, bit: u32)
    by (bit_vector)
    requires
        bit != 0,
    ensures
        (bits | bit) & bit != 0,
        (bits & !bit) & bit == 0,
{
}

proof fn lemma_set_other_bit(bits: u32, bit: u32, other: u32)
    by (bit_vector)
    requires
        bit & other == 0,
    ensures
        (bits | bit) & other == bits & other,
        (bits & !bit) & other == bits & other,
{
}

proof fn lemma_modifier_bits(modifier: Modifier, other: Modifier)
    ensures
        spec_modifier_bit(modifier) != 0,
        modifier != other ==> spec_modifier_bit(modifier) & spec_modifier_bit(other) == 0,
{
    assert(1u32 & 2u32 == 0 && 1u32 & 4u32 == 0 && 1u32 & 8u32 == 0 && 2u32 & 4u32 == 0 && 2u32
        & 8u32 == 0 && 4u32 & 8u32 == 0 && 2u32 & 1u32 == 0 && 4u32 & 1u32 == 0 && 8u32 & 1u32 == 0
        && 4u32 & 2u32 == 0 && 8u32 & 2u32 == 0 && 8u32 & 4u32 == 0) by (bit_vector);
}

impl Modifiers {
    /// Whether the mask holds the given modifier.
    pub open spec fn has(self, modifier: Modifier) -> bool {
        self.bits & spec_modifier_bit(modifier) != 0
    }

    /// The mask that holds no modifier.
    pub fn empty() -> (none: Modifiers)
        ensures
            none.bits == 0,
            forall|modifier: Modifier| !none.has(modifier),
    {
        assert(forall|bit: u32| 0u32 & bit == 0) by (bit_vector);
        Modifiers { bits: 0 }
    }

    /// The mask as a number.
    pub fn bits(&self) -> (bits: u32)
        ensures
            bits == self.bits,
    {
        self.bits
    }

    /// The mask with the given bits, unless a bit that stands for no known
    /// modifier is among them.
    pub fn from_bits(bits: u32) -> (mask: Option<Modifiers>)
        ensures
            mask == (if bits & !ALL_MODIFIERS == 0 {
                Some(Modifiers { bits })
            } else {
                None
            }),
    {
        if bits & !ALL_MODIFIERS == 0 {
            Some(Modifiers { bits })
        } else {
            None
        }
    }

    /// The mask with those of the given bits that stand for a known modifier.
    pub fn from_bits_truncate(bits: u32) -> (mask: Modifiers)
        ensures
            mask.bits == bits & ALL_MODIFIERS,
            forall|modifier: Modifier| mask.has(modifier) == (Modifiers { bits }).has(modifier),
    {
        assert forall|modifier: Modifier|
            (Modifiers { bits: bits & ALL_MODIFIERS }).has(modifier) == (Modifiers { bits }).has(
                modifier,
            ) by {
            assert((bits & 15u32) & 1u32 == bits & 1u32 && (bits & 15u32) & 2u32 == bits & 2u32 && (
            bits & 15u32) & 4u32 == bits & 4u32 && (bits & 15u32) & 8u32 == bits & 8u32)
                by (bit_vector);
        }
        Modifiers { bits: bits & ALL_MODIFIERS }
    }

    /// Whether the mask holds the given modifier.
    pub fn contains(&self, modifier: Modifier) -> (held: bool)
        ensures
            held == self.has(modifier),
    {
        self.bits & modifier.bit() != 0
    }

    /// Puts the given modifier into the mask, or takes it out, and leaves the
    /// others as they are.
    pub fn set(&mut self, modifier: Modifier, value: bool)
        ensures
            final(self).bits == (if value {
                old(self).bits | spec_modifier_bit(modifier)
            } else {
                old(self).bits & !spec_modifier_bit(modifier)
            }),
            forall|other: Modifier|
                final(self).has(other) == (if other == modifier {
                    value
                } else {
                    old(self).has(other)
                }),
    {
        let bit = modifier.bit();
        let ghost before = self.bits;
        if value {
            self.bits = self.bits | bit;
        } else {
            self.bits = self.bits & !bit;
        }
        assert forall|other: Modifier|
            self.has(other) == (if other == modifier {
                value
            } else {
                (Modifiers { bits: before }).has(other)
            }) by {
            lemma_modifier_bits(modifier, other);
            if other == modifier {
                lemma_set_bit(before, bit);
            } else {
                lemma_set_other_bit(before, bit, spec_modifier_bit(other));
            }
        }
    }
}

/// What a binding asks of a raw input beyond its kind. `None` in a field asks
/// for nothing.
#[derive(Debug, Clone, Copy, PartialEq, Eq)]
pub struct RawArgs {
    /// The key or button state that the input must report.
    pub action: Option<RawState>,
    /// The key that a key input must name.
    pub keycode: Option<KeyCode>,
    /// The button that a button input must name.
    pub button: Option<ButtonId>,
    /// The modifier that must be held.
    pub modifier: Option<Modifier>,
    /// The action, of the state kind, that must be held at the moment.
    pub state_active: Option<ActionId>,
}

impl RawArgs {
    pub fn new() -> (args: RawArgs)
        ensures
            args == (RawArgs {
                action: None,
                keycode: None,
                button: None,
                modifier: None,
                state_active: None,
            }),
    {
        RawArgs { action: None, keycode: None, button: None, modifier: None, state_active: None }
    }

    pub fn with_action(self, action: RawState) -> (args: RawArgs)
        ensures
            args == (RawArgs { action: Some(action), ..self }),
    {
        let mut args = self;
        args.action = Some(action);
        args
    }

    pub fn with_keycode(self, keycode: KeyCode) -> (args: RawArgs)
        ensures
            args == (RawArgs { keycode: Some(keycode), ..self }),
    {
        let mut args = self;
        args.keycode = Some(keycode);
        args
    }

    pub fn with_button(self, button: ButtonId) -> (args: RawArgs)
        ensures
            args == (RawArgs { button: Some(button), ..self }),
    {
        let mut args = self;
        args.button = Some(button);
        args
    }

    pub fn with_modifier(self, modifier: Modifier) -> (args: RawArgs)
        ensures
            args == (RawArgs { modifier: Some(modifier), ..self }),
    {
        let mut args = self;
        args.modifier = Some(modifier);
        args
    }

    pub fn with_state_active(self, state: ActionId) -> (args: RawArgs)
        ensures
            args == (RawArgs { state_active: Some(state), ..self }),
    {
        let mut args = self;
        args.state_active = Some(state);
        args
    }
}

/// A value that an action may ask to receive with its event.
#[derive(Debug, Clone, Copy, PartialEq, Eq, Hash, Structural)]
pub enum ActionArgument {
    KeyCode,
    Value,
    Modifiers,
    Action,
    CursorPosition,
    ContextId,
}

/// How an action is reported: once per matching input, as a held state with
/// its duration, or as a continuous range of motion.
#[derive(Debug, Clone, Copy, PartialEq, Eq, Hash, Structural)]
pub enum MappedType {
    Action,
    State,
    Range,
}

/// What an application-defined action tells the engine about itself. The
/// engine asks once, when a binding is built, and keeps the answers in the
/// binding.
pub trait ActionMetadata {
    /// The number by which the engine tells this action from others.
    fn action_id(&self) -> ActionId;

    /// How the action is reported.
    fn mapped_type(&self) -> MappedType;

    /// The values that the action wants with its event, in order.
    fn args(&self) -> Vec<ActionArgument>;
}

/// One rule from a raw input pattern to an action.
#[derive(Debug, PartialEq, Eq)]
pub struct Mapping {
    pub raw_type: RawType,
    pub raw_args: RawArgs,
    pub action: ActionId,
    /// How the action is reported. A binding without it never wins.
    pub mapped_type: Option<MappedType>,
    pub action_args: Vec<ActionArgument>,
}

/// The mathematical value of a `Mapping`.
pub struct MappingView {
    pub raw_type: RawType,
    pub raw_args: RawArgs,
    pub action: ActionId,
    pub mapped_type: Option<MappedType>,
    pub action_args: Seq<ActionArgument>,
}

impl View for Mapping {
    type V = MappingView;

    open spec fn view(&self) -> MappingView {
        MappingView {
            raw_type: self.raw_type,
            raw_args: self.raw_args,
            action: self.action,
            mapped_type: self.mapped_type,
            action_args: self.action_args@,
        }
    }
}

impl Clone for Mapping {
    fn clone(&self) -> (copy: Mapping)
        ensures
            copy@ == self@,
    {
        Mapping {
            raw_type: self.raw_type,
            raw_args: self.raw_args,
            action: self.action,
            mapped_type: self.mapped_type,
            action_args: self.action_args.clone(),
        }
    }
}

/// A binding as it is kept once loaded: a fire-once action that asks for no
/// key or button state fires on release, and a state asks for none, since its
/// transition is read from the input itself.
pub open spec fn spec_sanitize(m: MappingView) -> MappingView {
    match m.mapped_type {
        Some(MappedType::Action) => if m.raw_args.action is None {
            MappingView { raw_args: RawArgs { action: Some(RawState::Release), ..m.raw_args }, ..m }
        } else {
            m
        },
        Some(MappedType::State) => MappingView {
            raw_args: RawArgs { action: None, ..m.raw_args },
            ..m
        },
        _ => m,
    }
}

impl Mapping {
    /// A binding to `action`, with the kind and the arguments that the action
    /// reports of itself.
    pub fn new<A: ActionMetadata>(raw_type: RawType, raw_args: RawArgs, action: &A) -> (m: Mapping)
        ensures
            m@.raw_type == raw_type,
            m@.raw_args == raw_args,
            m@.mapped_type is Some,
    {
        let id = action.action_id();
        let mapped_type = action.mapped_type();
        let action_args = action.args();
        Mapping::from_parts(raw_type, raw_args, id, mapped_type, action_args)
    }

    /// A binding to the action `action`, which is reported as `mapped_type`
    /// with `action_args`.
    pub fn from_parts(
        raw_type: RawType,
        raw_args: RawArgs,
        action: ActionId,
        mapped_type: MappedType,
        action_args: Vec<ActionArgument>,
    ) -> (m: Mapping)
        ensures
            m@ == (MappingView {
                raw_type,
                raw_args,
                action,
                mapped_type: Some(mapped_type),
                action_args: action_args@,
            }),
    {
        Mapping { raw_type, raw_args, action, mapped_type: Some(mapped_type), action_args }
    }

    /// The binding, asking for the given key or button state.
    pub fn with_action(self, action: RawState) -> (m: Mapping)
        ensures
            m@ == (MappingView { raw_args: RawArgs { action: Some(action), ..self@.raw_args }, ..self@ }),
    {
        let mut m = self;
        m.raw_args.action = Some(action);
        m
    }

    /// The binding, asking for the given modifier.
    pub fn with_modifier(self, modifier: Modifier) -> (m: Mapping)
        ensures
            m@ == (MappingView {
                raw_args: RawArgs { modifier: Some(modifier), ..self@.raw_args },
                ..self@
            }),
    {
        let mut m = self;
        m.raw_args.modifier = Some(modifier);
        m
    }

    /// The binding, guarded by the given state.
    pub fn with_state_active(self, state: ActionId) -> (m: Mapping)
        ensures
            m@ == (MappingView {
                raw_args: RawArgs { state_active: Some(state), ..self@.raw_args },
                ..self@
            }),
    {
        let mut m = self;
        m.raw_args.state_active = Some(state);
        m
    }

    /// Brings the binding into the form in which it is kept once loaded.
    pub fn sanitize(&mut self)
        ensures
            final(self)@ == spec_sanitize(old(self)@),
    {
        match self.mapped_type {
            Some(MappedType::Action) => {
                if self.raw_args.action.is_none() {
                    self.raw_args.action = Some(RawState::Release);
                }
            },
            Some(MappedType::State) => {
                self.raw_args.action = None;
            },
            _ => {},
        }
    }
}

/// A named, ordered list of bindings. The first binding that matches wins.
#[derive(Debug, PartialEq, Eq)]
pub struct Context {
    pub id: ContextId,
    pub mappings: Vec<Mapping>,
}

/// The mathematical value of a `Context`.
pub struct ContextView {
    pub id: ContextId,
    pub mappings: Seq<MappingView>,
}

impl View for Context {
    type V = ContextView;

    open spec fn view(&self) -> ContextView {
        ContextView { id: self.id, mappings: self.mappings@.map_values(|m: Mapping| m@) }
    }
}

impl Clone for Context {
    fn clone(&self) -> (copy: Context)
        ensures
            copy@ == self@,
    {
        let mut mappings: Vec<Mapping> = Vec::new();
        let mut i: usize = 0;
        while i < self.mappings.len()
            invariant
                i <= self.mappings.len(),
                mappings@.len() == i,
                forall|k: int| 0 <= k < i ==> (#[trigger] mappings@[k])@ == self.mappings@[k]@,
            decreases self.mappings.len() - i,
        {
            mappings.push(self.mappings[i].clone());
            i += 1;
        }
        let copy = Context { id: self.id, mappings };
        assert(copy@.mappings =~= self@.mappings);
        copy
    }
}

/// A context with each of its bindings sanitized.
pub open spec fn spec_sanitize_context(c: ContextView) -> ContextView {
    ContextView { id: c.id, mappings: c.mappings.map_values(|m: MappingView| spec_sanitize(m)) }
}

impl Context {
    pub fn new(id: ContextId) -> (c: Context)
        ensures
            c@ == (ContextView { id, mappings: Seq::empty() }),
    {
        let c = Context::new_with_mappings(id, Vec::new());
        assert(c@.mappings =~= Seq::empty());
        c
    }

    pub fn new_with_mappings(id: ContextId, mappings: Vec<Mapping>) -> (c: Context)
        ensures
            c@ == (ContextView { id, mappings: mappings@.map_values(|m: Mapping| m@) }),
    {
        Context { id, mappings }
    }

    /// Adds a binding behind those that the context holds.
    pub fn with_mapping(self, mapping: Mapping) -> (c: Context)
        ensures
            c@ == (ContextView { id: self@.id, mappings: self@.mappings.push(mapping@) }),
    {
        let mut c = self;
        c.mappings.push(mapping);
        assert(c@.mappings =~= self@.mappings.push(mapping@));
        c
    }

    /// Adds bindings, in their order, behind those that the context holds.
    pub fn with_mappings(self, mappings: Vec<Mapping>) -> (c: Context)
        ensures
            c@ == (ContextView {
                id: self@.id,
                mappings: self@.mappings + mappings@.map_values(|m: Mapping| m@),
            }),
    {
        let mut c = self;
        let mut rest = mappings;
        c.mappings.append(&mut rest);
        assert(c@.mappings =~= self@.mappings + mappings@.map_values(|m: Mapping| m@));
        c
    }

    /// Sanitizes each binding.
    pub fn sanitize(&mut self)
        ensures
            final(self)@ == spec_sanitize_context(old(self)@),
    {
        let n = self.mappings.len();
        let mut i: usize = 0;
        while i < n
            invariant
                i <= n,
                self.mappings@.len() == n,
                old(self).mappings@.len() == n,
                self.id == old(self).id,
                forall|k: int| 0 <= k < i ==> self.mappings@[k]@ == spec_sanitize(old(self).mappings@[k]@),
                forall|k: int| i <= k < n ==> self.mappings@[k] == old(self).mappings@[k],
            decreases n - i,
        {
            self.mappings[i].sanitize();
            i += 1;
        }
        assert(self@.mappings =~= spec_sanitize_context(old(self)@).mappings);
    }
}

/// A context that is switched on, with the priority it was switched on with.
/// The lower number is asked first.
#[derive(Debug, Clone, Copy, PartialEq, Eq, Hash, Structural)]
pub struct ActiveContext {
    pub priority: u32,
    pub context_id: ContextId,
}

impl ActiveContext {
    pub fn new(priority: u32, context_id: &ContextId) -> (active: ActiveContext)
        ensures
            active == (ActiveContext { priority, context_id: *context_id }),
    {
        ActiveContext { priority, context_id: *context_id }
    }
}

/// What the engine remembers of an action of the state kind.
#[derive(Debug, Clone, Copy, PartialEq, Eq, Hash, Structural)]
pub struct StateInfo {
    /// Whether the action is held.
    pub active: bool,
    /// When the action was last activated.
    pub start_time: Timestamp,
    /// When the action was last released; 0 while it is held.
    pub stop_time: Timestamp,
}

/// The window size and the cursor position that were last reported.
#[derive(Debug, Clone, Copy, PartialEq, Eq)]
pub struct WindowData {
    pub size: WindowSize,
    pub cursor_position: Option<WindowPosition>,
}

/// Whether the action is held according to `states`.
pub open spec fn spec_is_active(states: Map<ActionId, StateInfo>, state: ActionId) -> bool {
    states.contains_key(state) && states[state].active
}

/// The held-state record of every action of the state kind that was ever
/// activated.
#[derive(Debug)]
pub struct StateStorage {
    pub states: HashMap<ActionId, StateInfo>,
}

impl View for StateStorage {
    type V = Map<ActionId, StateInfo>;

    open spec fn view(&self) -> Map<ActionId, StateInfo> {
        self.states@
    }
}

impl StateStorage {
    pub fn new() -> (storage: StateStorage)
        ensures
            storage@ == Map::<ActionId, StateInfo>::empty(),
    {
        StateStorage { states: HashMap::new() }
    }

    /// The record of an action, if it was ever activated.
    pub fn get(&self, state: &ActionId) -> (info: Option<StateInfo>)
        ensures
            info == (if self@.contains_key(*state) {
                Some(self@[*state])
            } else {
                None
            }),
    {
        broadcast use vstd::std_specs::hash::group_hash_axioms;

        match self.states.get(state) {
            Some(info) => Some(*info),
            None => None,
        }
    }

    /// Whether an action is held.
    pub fn is_active(&self, state: &ActionId) -> (held: bool)
        ensures
            held == spec_is_active(self@, *state),
    {
        broadcast use vstd::std_specs::hash::group_hash_axioms;

        match self.states.get(state) {
            Some(info) => info.active,
            None => false,
        }
    }
}

/// Why a set of bindings could not be loaded.
#[derive(Debug, Clone, Copy, PartialEq, Eq, Hash, Structural)]
pub enum BindingsError {
    FileNotFound,
    ReadFailed,
    Utf8Error,
    ParseError,
}

} // verus!
