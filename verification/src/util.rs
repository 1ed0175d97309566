//! Helpers for applications: following the held states and the typed text
//! in the events that a remapper hands out, and checking the bytes of a
//! bindings file.

use std::collections::HashMap;
use vstd::prelude::*;
use vstd::string::StringSliceAdditionalSpecFns;

use crate::event::{Argument, ControllerEvent, ControllerEventView, Event, EventView, StateAction};
use crate::types::{ActionId, BindingsError};

verus! {

/// Whether a reported phase of a state means that the state is held.
pub open spec fn spec_action_as_bool(action: StateAction) -> bool {
    action != StateAction::Deactivated
}

/// Whether a reported phase of a state means that the state is held.
pub fn action_as_bool(action: &StateAction) -> (held: bool)
    ensures
        held == spec_action_as_bool(*action),
{
    match action {
        StateAction::Activated | StateAction::Active => true,
        StateAction::Deactivated => false,
    }
}

/// What is known of the states after an event: an event of the state kind
/// says whether its state is held, any other event says nothing.
pub open spec fn spec_track_state(states: Map<ActionId, bool>, event: EventView) -> Map<ActionId, bool> {
    match event {
        EventView::Controller(ControllerEventView::State(state, action, _, _)) => states.insert(
            state,
            spec_action_as_bool(action),
        ),
        _ => states,
    }
}

/// What is known of the states after a list of events.
pub open spec fn spec_track_states(states: Map<ActionId, bool>, events: Seq<EventView>) -> Map<
    ActionId,
    bool,
>
    decreases events.len(),
{
    if events.len() == 0 {
        states
    } else {
        spec_track_state(spec_track_states(states, events.drop_last()), events.last())
    }
}

/// Follows the events that a remapper hands out and remembers, for each state
/// that they speak of, whether it is held.
pub struct StateTracker {
    states: HashMap<ActionId, bool>,
}

impl View for StateTracker {
    type V = Map<ActionId, bool>;

    closed spec fn view(&self) -> Map<ActionId, bool> {
        self.states@
    }
}

impl StateTracker {
    pub fn new() -> (tracker: StateTracker)
        ensures
            tracker@ == Map::<ActionId, bool>::empty(),
    {
        StateTracker { states: HashMap::new() }
    }

    /// Takes note of the events of the state kind in a list.
    pub fn update(&mut self, events: &Vec<Event>)
        ensures
            final(self)@ == spec_track_states(old(self)@, events@.map_values(|e: Event| e@)),
    {
        broadcast use vstd::std_specs::hash::group_hash_axioms;

        let ghost views = events@.map_values(|e: Event| e@);
        let mut i: usize = 0;
        while i < events.len()
            invariant
                i <= events.len(),
                views == events@.map_values(|e: Event| e@),
                self@ == spec_track_states(old(self)@, views.take(i as int)),
            decreases events.len() - i,
        {
            proof {
                assert(views.take(i + 1).drop_last() == views.take(i as int));
            }
            match &events[i] {
                Event::Controller(ControllerEvent::State(state, action, _, _)) => {
                    self.states.insert(*state, action_as_bool(action));
                },
                _ => {},
            }
            i += 1;
        }
        proof {
            assert(views.take(events.len() as int) == views);
        }
    }

    /// Whether a state is held, as far as the events told.
    pub fn is_active(&self, state: &ActionId) -> (held: bool)
        ensures
            held == (self@.contains_key(*state) && self@[*state]),
    {
        broadcast use vstd::std_specs::hash::group_hash_axioms;

        match self.states.get(state) {
            Some(active) => *active,
            None => false,
        }
    }
}

/// The characters among the arguments of an event, in their order.
pub open spec fn spec_text_of(args: Seq<Argument>) -> Seq<char>
    decreases args.len(),
{
    if args.len() == 0 {
        Seq::empty()
    } else {
        let before = spec_text_of(args.drop_last());
        match args.last() {
            Argument::Value(ch) => before.push(ch),
            _ => before,
        }
    }
}

/// The text after an event: a fire-once event of the text action adds the
/// characters among its arguments, any other event adds nothing.
pub open spec fn spec_collect_text(text: Seq<char>, text_action: ActionId, event: EventView) -> Seq<
    char,
> {
    match event {
        EventView::Controller(ControllerEventView::Action(action, args)) => if action
            == text_action {
            text + spec_text_of(args)
        } else {
            text
        },
        _ => text,
    }
}

/// The text after a list of events.
pub open spec fn spec_collect_texts(text: Seq<char>, text_action: ActionId, events: Seq<EventView>) -> Seq<
    char,
>
    decreases events.len(),
{
    if events.len() == 0 {
        text
    } else {
        spec_collect_text(
            spec_collect_texts(text, text_action, events.drop_last()),
            text_action,
            events.last(),
        )
    }
}

/// `String::push` appends the character to the end of the string.
pub assume_specification[ String::push ](s: &mut String, ch: char)
    ensures
        final(s)@ == old(s)@.push(ch),
;

/// Collects the characters that the events of one action carry, until they
/// are taken out as a string.
pub struct TextHandler {
    current: Vec<char>,
    text_action: ActionId,
}

/// The mathematical value of a `TextHandler`.
pub struct TextHandlerView {
    /// The characters collected and not yet taken out.
    pub current: Seq<char>,
    /// The action whose events carry the text.
    pub text_action: ActionId,
}

impl View for TextHandler {
    type V = TextHandlerView;

    closed spec fn view(&self) -> TextHandlerView {
        TextHandlerView { current: self.current@, text_action: self.text_action }
    }
}

impl TextHandler {
    pub fn new(text_action: ActionId) -> (handler: TextHandler)
        ensures
            handler@ == (TextHandlerView { current: Seq::empty(), text_action }),
    {
        TextHandler { current: Vec::new(), text_action }
    }

    /// Takes out the characters collected so far.
    pub fn consume(&mut self) -> (text: String)
        ensures
            text@ == old(self)@.current,
            final(self)@ == (TextHandlerView {
                current: Seq::empty(),
                text_action: old(self)@.text_action,
            }),
    {
        let mut text = String::new();
        let mut i: usize = 0;
        while i < self.current.len()
            invariant
                i <= self.current.len(),
                self@ == old(self)@,
                text@ == self.current@.take(i as int),
            decreases self.current.len() - i,
        {
            text.push(self.current[i]);
            i += 1;
        }
        self.current.clear();
        text
    }

    /// Collects the characters of the events of the text action in a list.
    pub fn update(&mut self, events: &Vec<Event>)
        ensures
            final(self)@ == (TextHandlerView {
                current: spec_collect_texts(
                    old(self)@.current,
                    old(self)@.text_action,
                    events@.map_values(|e: Event| e@),
                ),
                text_action: old(self)@.text_action,
            }),
    {
        let ghost views = events@.map_values(|e: Event| e@);
        let mut i: usize = 0;
        while i < events.len()
            invariant
                i <= events.len(),
                views == events@.map_values(|e: Event| e@),
                self@.text_action == old(self)@.text_action,
                self@.current == spec_collect_texts(
                    old(self)@.current,
                    old(self)@.text_action,
                    views.take(i as int),
                ),
            decreases events.len() - i,
        {
            proof {
                assert(views.take(i + 1).drop_last() == views.take(i as int));
            }
            match &events[i] {
                Event::Controller(ControllerEvent::Action(action, args)) => {
                    if *action == self.text_action {
                        let ghost before = self.current@;
                        let mut k: usize = 0;
                        while k < args.len()
                            invariant
                                k <= args.len(),
                                self@.text_action == old(self)@.text_action,
                                self.current@ == before + spec_text_of(args@.take(k as int)),
                            decreases args.len() - k,
                        {
                            proof {
                                assert(args@.take(k + 1).drop_last() == args@.take(k as int));
                            }
                            match args[k] {
                                Argument::Value(ch) => {
                                    self.current.push(ch);
                                },
                                _ => {},
                            }
                            k += 1;
                        }
                        proof {
                            assert(args@.take(args.len() as int) == args@);
                        }
                    }
                },
                _ => {},
            }
            i += 1;
        }
        proof {
            assert(views.take(events.len() as int) == views);
        }
    }
}

/// Why bytes were refused as text.
#[verifier::external_type_specification]
#[verifier::external_body]
pub struct ExUtf8Error(core::str::Utf8Error);

/// `core::str::from_utf8` hands the bytes back as text exactly if they are
/// valid UTF-8, and the text has those bytes.
pub assume_specification[ core::str::from_utf8 ](bytes: &[u8]) -> (text: Result<
    &str,
    core::str::Utf8Error,
>)
    ensures
        text is Ok <==> vstd::utf8::valid_utf8(bytes@),
        text matches Ok(s) ==> s.spec_bytes() == bytes@,
;

/// The text of a set of bindings that was read as bytes: the bytes as they
/// are, if they are valid UTF-8, and `Utf8Error` if they are not.
pub fn bindings_text(bytes: &[u8]) -> (text: Result<&str, BindingsError>)
    ensures
        text is Ok <==> vstd::utf8::valid_utf8(bytes@),
        text matches Ok(s) ==> s.spec_bytes() == bytes@,
        text matches Err(e) ==> e == BindingsError::Utf8Error,
{
    match core::str::from_utf8(bytes) {
        Ok(s) => Ok(s),
        Err(_) => Err(BindingsError::Utf8Error),
    }
}

} // verus!
