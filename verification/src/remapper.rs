//! The remapper: the contexts that were loaded, the contexts that are
//! switched on in the order of their priorities, the held states, and the
//! resolution of raw inputs against them.

use std::collections::HashMap;
use vstd::prelude::*;

use crate::event::{
    view_of, views_of, ControllerEvent, ControllerEventView, Event, EventView, FocusAction,
    WindowEvent,
};
use crate::mapping::{
    spec_apply_event, spec_context_process, spec_context_well_formed, spec_well_formed,
};
use crate::raw::{RawInput, RawInputEvent};
use crate::types::{
    spec_is_active, spec_sanitize, spec_sanitize_context, ActionId, ActiveContext, Context,
    ContextId, ContextView, StateInfo, StateStorage, WindowData, WindowSize,
};

verus! {

/// The mathematical value of an `InputReMapper`.
pub struct RemapperView {
    /// The contexts that were loaded, by their ids.
    pub contexts: Map<ContextId, ContextView>,
    /// The contexts that are switched on, in the order in which they are asked.
    pub active: Seq<ActiveContext>,
    /// The held states.
    pub states: Map<ActionId, StateInfo>,
    /// The window size and cursor position as of the end of the last tick.
    pub frame_data: WindowData,
}

// ---------------------------------------------------------------------------
// The model: what each operation does to the value.
// ---------------------------------------------------------------------------
/// The active contexts are in the order of their priorities, lowest number
/// first.
pub open spec fn spec_sorted(active: Seq<ActiveContext>) -> bool {
    forall|i: int, j: int|
        0 <= i <= j < active.len() ==> (#[trigger] active[i]).priority <= (
        #[trigger] active[j]).priority
}

/// The value is well formed: the active contexts are in the order of their
/// priorities, each of them was loaded, each loaded context is stored under its
/// own id, and its bindings are well formed.
pub open spec fn spec_remapper_well_formed(v: RemapperView) -> bool {
    &&& spec_sorted(v.active)
    &&& forall|i: int|
        0 <= i < v.active.len() ==> v.contexts.contains_key((#[trigger] v.active[i]).context_id)
    &&& forall|id: ContextId| #[trigger]
        v.contexts.contains_key(id) ==> v.contexts[id].id == id && spec_context_well_formed(
            v.contexts[id],
        )
}

/// Loading a context stores it, sanitized, under its id, in place of the one
/// that was stored there.
pub open spec fn spec_with_context(v: RemapperView, context: ContextView) -> RemapperView {
    RemapperView { contexts: v.contexts.insert(context.id, spec_sanitize_context(context)), ..v }
}

/// Loading several contexts loads them one after the other.
pub open spec fn spec_with_contexts(v: RemapperView, contexts: Seq<ContextView>) -> RemapperView
    decreases contexts.len(),
{
    if contexts.len() == 0 {
        v
    } else {
        spec_with_context(spec_with_contexts(v, contexts.drop_last()), contexts.last())
    }
}

/// Where a context that is switched on with `priority` goes: behind every
/// active context with that priority or a lower number.
pub open spec fn spec_insert_position(active: Seq<ActiveContext>, priority: u32) -> int
    decreases active.len(),
{
    if active.len() == 0 {
        0
    } else if active.last().priority <= priority {
        active.len() as int
    } else {
        spec_insert_position(active.drop_last(), priority)
    }
}

/// The active contexts after one more is switched on.
pub open spec fn spec_insert_active(active: Seq<ActiveContext>, entry: ActiveContext) -> Seq<
    ActiveContext,
> {
    active.insert(spec_insert_position(active, entry.priority), entry)
}

/// The active contexts without those of the given id.
pub open spec fn spec_remove_active(active: Seq<ActiveContext>, context_id: ContextId) -> Seq<
    ActiveContext,
>
    decreases active.len(),
{
    if active.len() == 0 {
        Seq::empty()
    } else {
        let before = spec_remove_active(active.drop_last(), context_id);
        if active.last().context_id == context_id {
            before
        } else {
            before.push(active.last())
        }
    }
}

/// Whether a context is switched on.
pub open spec fn spec_context_active(active: Seq<ActiveContext>, context_id: ContextId) -> bool {
    exists|i: int| 0 <= i < active.len() && (#[trigger] active[i]).context_id == context_id
}

/// Switching on a context that was loaded puts it among the active ones by
/// its priority; switching on one that was not loaded does nothing.
pub open spec fn spec_activate(v: RemapperView, context_id: ContextId, priority: u32) -> RemapperView {
    if v.contexts.contains_key(context_id) {
        RemapperView {
            active: spec_insert_active(v.active, ActiveContext { priority, context_id }),
            ..v
        }
    } else {
        v
    }
}

/// Switching off a context that was loaded takes it from the active ones;
/// switching off one that was not loaded does nothing.
pub open spec fn spec_deactivate(v: RemapperView, context_id: ContextId) -> RemapperView {
    if v.contexts.contains_key(context_id) {
        RemapperView { active: spec_remove_active(v.active, context_id), ..v }
    } else {
        v
    }
}

/// Toggling a context switches it off if it is on, and on with the given
/// priority if it is off.
pub open spec fn spec_toggle(v: RemapperView, context_id: ContextId, priority: u32) -> RemapperView {
    if spec_context_active(v.active, context_id) {
        spec_deactivate(v, context_id)
    } else {
        spec_activate(v, context_id, priority)
    }
}

/// The event for a raw input: that of the first active context, from `from`
/// on, that produces one.
pub open spec fn spec_resolve_from(
    contexts: Map<ContextId, ContextView>,
    active: Seq<ActiveContext>,
    raw_input: RawInput,
    states: Map<ActionId, StateInfo>,
    frame_data: WindowData,
    from: int,
) -> Option<ControllerEventView>
    decreases active.len() - from,
{
    if from < 0 || from >= active.len() {
        None
    } else {
        let id = active[from].context_id;
        let event = if contexts.contains_key(id) {
            spec_context_process(contexts[id], raw_input, states, frame_data)
        } else {
            None
        };
        match event {
            Some(e) => Some(e),
            None => spec_resolve_from(contexts, active, raw_input, states, frame_data, from + 1),
        }
    }
}

/// The event for a raw input: that of the first active context that produces
/// one.
pub open spec fn spec_resolve(v: RemapperView, raw_input: RawInput) -> Option<ControllerEventView> {
    spec_resolve_from(v.contexts, v.active, raw_input, v.states, v.frame_data, 0)
}

/// The value after one raw input was resolved: only the held states change.
pub open spec fn spec_process_one(v: RemapperView, raw_input: RawInput) -> RemapperView {
    RemapperView {
        states: spec_apply_event(v.states, spec_resolve(v, raw_input), raw_input.time),
        ..v
    }
}

/// The window event that a raw input stands for, if it is one.
pub open spec fn spec_window_event(event: RawInputEvent) -> Option<WindowEvent> {
    match event {
        RawInputEvent::Resize(x, y) => Some(WindowEvent::Resize(x, y)),
        RawInputEvent::Focus(b) => Some(
            WindowEvent::Focus(
                if b {
                    FocusAction::Enter
                } else {
                    FocusAction::Exit
                },
            ),
        ),
        RawInputEvent::Close => Some(WindowEvent::Close),
        _ => None,
    }
}

/// The window events of a batch of raw inputs, in their order.
pub open spec fn spec_window_events(raw_input: Seq<RawInput>) -> Seq<EventView>
    decreases raw_input.len(),
{
    if raw_input.len() == 0 {
        Seq::empty()
    } else {
        let before = spec_window_events(raw_input.drop_last());
        match spec_window_event(raw_input.last().event) {
            Some(w) => before.push(EventView::Window(w)),
            None => before,
        }
    }
}

/// The value after the raw inputs of a batch were resolved one after the
/// other: an earlier input's change to the held states is seen by a later one.
pub open spec fn spec_resolve_all(v: RemapperView, raw_input: Seq<RawInput>) -> RemapperView
    decreases raw_input.len(),
{
    if raw_input.len() == 0 {
        v
    } else {
        spec_process_one(spec_resolve_all(v, raw_input.drop_last()), raw_input.last())
    }
}

/// The controller events of a batch of raw inputs, in their order.
pub open spec fn spec_controller_events(v: RemapperView, raw_input: Seq<RawInput>) -> Seq<EventView>
    decreases raw_input.len(),
{
    if raw_input.len() == 0 {
        Seq::empty()
    } else {
        let before = spec_controller_events(v, raw_input.drop_last());
        match spec_resolve(spec_resolve_all(v, raw_input.drop_last()), raw_input.last()) {
            Some(e) => before.push(EventView::Controller(e)),
            None => before,
        }
    }
}

/// The frame data after a raw input: a resize sets the window size, a cursor
/// position sets the cursor position.
pub open spec fn spec_track(frame_data: WindowData, event: RawInputEvent) -> WindowData {
    match event {
        RawInputEvent::Resize(x, y) => WindowData { size: (x, y), ..frame_data },
        RawInputEvent::CursorPosition(x, y) => WindowData {
            cursor_position: Some((x, y)),
            ..frame_data
        },
        _ => frame_data,
    }
}

/// The frame data after a batch of raw inputs.
pub open spec fn spec_track_all(frame_data: WindowData, raw_input: Seq<RawInput>) -> WindowData
    decreases raw_input.len(),
{
    if raw_input.len() == 0 {
        frame_data
    } else {
        spec_track(spec_track_all(frame_data, raw_input.drop_last()), raw_input.last().event)
    }
}

/// The events that a tick hands out: the window events of the batch, then its
/// controller events.
pub open spec fn spec_tick_events(v: RemapperView, raw_input: Seq<RawInput>) -> Seq<EventView> {
    spec_window_events(raw_input) + spec_controller_events(v, raw_input)
}

/// The value after a tick: the held states as the batch left them, and the
/// frame data brought up to date. Every input of the batch was resolved
/// against the frame data of the tick before.
pub open spec fn spec_tick(v: RemapperView, raw_input: Seq<RawInput>) -> RemapperView {
    RemapperView {
        states: spec_resolve_all(v, raw_input).states,
        frame_data: spec_track_all(v.frame_data, raw_input),
        ..v
    }
}

// ---------------------------------------------------------------------------
// Lemmas that the operations rest on.
// ---------------------------------------------------------------------------
/// Sanitizing keeps a binding well formed.
pub proof fn lemma_sanitize_keeps_well_formed(context: ContextView)
    requires
        spec_context_well_formed(context),
    ensures
        spec_context_well_formed(spec_sanitize_context(context)),
        spec_sanitize_context(context).id == context.id,
{
}

/// In a sorted list, the place that parts the priorities up to `priority`
/// from the higher ones is the insert position.
pub proof fn lemma_insert_position(active: Seq<ActiveContext>, priority: u32, k: int)
    requires
        0 <= k <= active.len(),
        forall|i: int| 0 <= i < k ==> (#[trigger] active[i]).priority <= priority,
        forall|i: int| k <= i < active.len() ==> (#[trigger] active[i]).priority > priority,
    ensures
        spec_insert_position(active, priority) == k,
    decreases active.len(),
{
    if active.len() > 0 && active.last().priority > priority {
        lemma_insert_position(active.drop_last(), priority, k);
    }
}

/// The insert position parts a sorted list: the priorities before it are at
/// most `priority`, those from it on are higher.
pub proof fn lemma_insert_position_parts(active: Seq<ActiveContext>, priority: u32)
    requires
        spec_sorted(active),
    ensures
        0 <= spec_insert_position(active, priority) <= active.len(),
        forall|i: int|
            0 <= i < spec_insert_position(active, priority) ==> (#[trigger] active[i]).priority
                <= priority,
        forall|i: int|
            spec_insert_position(active, priority) <= i < active.len() ==> (
            #[trigger] active[i]).priority > priority,
    decreases active.len(),
{
    if active.len() > 0 && active.last().priority > priority {
        let rest = active.drop_last();
        lemma_insert_position_parts(rest, priority);
        let k = spec_insert_position(rest, priority);
        assert forall|i: int| 0 <= i < k implies (#[trigger] active[i]).priority <= priority by {
            assert(rest[i] == active[i]);
        }
        assert forall|i: int| k <= i < active.len() implies (#[trigger] active[i]).priority
            > priority by {
            if i < rest.len() {
                assert(rest[i] == active[i]);
            }
        }
    }
}

/// Switching a context on keeps the list sorted.
pub proof fn lemma_insert_active_sorted(active: Seq<ActiveContext>, entry: ActiveContext)
    requires
        spec_sorted(active),
    ensures
        spec_sorted(spec_insert_active(active, entry)),
{
    lemma_insert_position_parts(active, entry.priority);
}

/// What is left after a context is switched off was there before, in the same
/// order, and is every entry of another context.
pub proof fn lemma_remove_active(active: Seq<ActiveContext>, context_id: ContextId)
    ensures
        spec_remove_active(active, context_id).len() <= active.len(),
        !spec_context_active(spec_remove_active(active, context_id), context_id),
        forall|k: int|
            0 <= k < spec_remove_active(active, context_id).len() ==> exists|i: int|
                k <= i < active.len() && active[i] == #[trigger] spec_remove_active(
                    active,
                    context_id,
                )[k],
        spec_sorted(active) ==> spec_sorted(spec_remove_active(active, context_id)),
    decreases active.len(),
{
    if active.len() > 0 {
        lemma_remove_active(active.drop_last(), context_id);
    }
}

/// A context is among the active ones either way: it is found from the front
/// exactly if it is there.
pub proof fn lemma_context_active_push(active: Seq<ActiveContext>, context_id: ContextId)
    requires
        active.len() > 0,
    ensures
        spec_context_active(active, context_id) == (spec_context_active(
            active.drop_last(),
            context_id,
        ) || active.last().context_id == context_id),
{
    let rest = active.drop_last();
    if spec_context_active(active, context_id) {
        let i = choose|i: int| 0 <= i < active.len() && (#[trigger] active[i]).context_id
            == context_id;
        if i < rest.len() {
            assert(rest[i].context_id == context_id);
        }
    }
    if spec_context_active(rest, context_id) {
        let i = choose|i: int| 0 <= i < rest.len() && (#[trigger] rest[i]).context_id == context_id;
        assert(active[i].context_id == context_id);
    }
}

// ---------------------------------------------------------------------------
// The remapper.
// ---------------------------------------------------------------------------
/// Maps raw inputs to the actions of an application. It holds the contexts
/// that were loaded, the contexts that are switched on, the held states, and
/// the window size and cursor position that were last reported.
pub struct InputReMapper {
    contexts: HashMap<ContextId, Context>,
    active_contexts: Vec<ActiveContext>,
    state_storage: StateStorage,
    frame_data: WindowData,
}

impl View for InputReMapper {
    type V = RemapperView;

    closed spec fn view(&self) -> RemapperView {
        RemapperView {
            contexts: self.contexts@.map_values(|c: Context| c@),
            active: self.active_contexts@,
            states: self.state_storage@,
            frame_data: self.frame_data,
        }
    }
}

impl InputReMapper {
    /// A remapper for a window of the given size, with no contexts.
    pub fn new(size: WindowSize) -> (remapper: InputReMapper)
        ensures
            remapper@ == (RemapperView {
                contexts: Map::empty(),
                active: Seq::empty(),
                states: Map::empty(),
                frame_data: WindowData { size, cursor_position: None },
            }),
            spec_remapper_well_formed(remapper@),
    {
        let contexts: HashMap<ContextId, Context> = HashMap::new();
        let state_storage = StateStorage::new();
        proof {
            assert(contexts@.map_values(|c: Context| c@) =~= Map::<ContextId, ContextView>::empty());
        }
        InputReMapper {
            contexts,
            active_contexts: Vec::new(),
            state_storage,
            frame_data: WindowData { size, cursor_position: None },
        }
    }

    /// Loads a context, sanitized, in place of the one with the same id, and
    /// hands the remapper back for the next call.
    pub fn with_context(&mut self, context: Context) -> (same: &mut InputReMapper)
        requires
            spec_remapper_well_formed(old(self)@),
            spec_context_well_formed(context@),
        ensures
            same@ == spec_with_context(old(self)@, context@),
            spec_remapper_well_formed(same@),
            *final(self) == *final(same),
    {
        broadcast use vstd::std_specs::hash::group_hash_axioms;

        proof {
            lemma_sanitize_keeps_well_formed(context@);
        }
        let mut sanitized = context;
        sanitized.sanitize();
        let id = sanitized.id;
        let ghost before = self.contexts@;
        self.contexts.insert(id, sanitized);
        proof {
            assert(self.contexts@.map_values(|c: Context| c@) =~= before.map_values(
                |c: Context| c@,
            ).insert(id, spec_sanitize_context(context@)));
        }
        self
    }

    /// Loads the contexts of a list, in their order, leaves the list empty,
    /// and hands the remapper back for the next call.
    pub fn with_contexts(&mut self, contexts: &mut Vec<Context>) -> (same: &mut InputReMapper)
        requires
            spec_remapper_well_formed(old(self)@),
            forall|i: int|
                0 <= i < old(contexts)@.len() ==> spec_context_well_formed(
                    (#[trigger] old(contexts)@[i])@,
                ),
        ensures
            same@ == spec_with_contexts(old(self)@, old(contexts)@.map_values(|c: Context| c@)),
            spec_remapper_well_formed(same@),
            *final(self) == *final(same),
            final(contexts)@.len() == 0,
    {
        let ghost views = old(contexts)@.map_values(|c: Context| c@);
        let n = contexts.len();
        let mut i: usize = 0;
        while i < n
            invariant
                i <= n,
                contexts@.len() == n,
                views.len() == n,
                forall|k: int| i <= k < n ==> (#[trigger] contexts@[k])@ == views[k],
                forall|k: int| 0 <= k < n ==> spec_context_well_formed(#[trigger] views[k]),
                self@ == spec_with_contexts(old(self)@, views.take(i as int)),
                spec_remapper_well_formed(self@),
            decreases n - i,
        {
            let mut context = Context::new(0);
            core::mem::swap(&mut contexts[i], &mut context);
            proof {
                assert(views.take(i + 1).drop_last() == views.take(i as int));
            }
            self.with_context(context);
            i += 1;
        }
        proof {
            assert(views.take(n as int) == views);
        }
        contexts.clear();
        self
    }

    /// The window size and the cursor position as of the end of the last
    /// tick.
    pub fn frame_data(&self) -> (frame_data: WindowData)
        ensures
            frame_data == self@.frame_data,
    {
        self.frame_data
    }

    /// The record of a state, if it was ever activated.
    pub fn get_state_info(&self, state: &ActionId) -> (info: Option<StateInfo>)
        ensures
            info == (if self@.states.contains_key(*state) {
                Some(self@.states[*state])
            } else {
                None
            }),
    {
        self.state_storage.get(state)
    }

    /// Whether a state is held.
    pub fn is_state_active(&self, state: &ActionId) -> (held: bool)
        ensures
            held == spec_is_active(self@.states, *state),
    {
        self.state_storage.is_active(state)
    }

    /// Whether a context is switched on.
    pub fn is_context_active(&self, context_id: &ContextId) -> (on: bool)
        ensures
            on == spec_context_active(self@.active, *context_id),
    {
        let mut i: usize = 0;
        while i < self.active_contexts.len()
            invariant
                i <= self.active_contexts.len(),
                !spec_context_active(self.active_contexts@.take(i as int), *context_id),
            decreases self.active_contexts.len() - i,
        {
            if self.active_contexts[i].context_id == *context_id {
                return true;
            }
            proof {
                let upto = self.active_contexts@.take(i + 1);
                lemma_context_active_push(upto, *context_id);
            }
            i += 1;
        }
        proof {
            assert(self.active_contexts@.take(self.active_contexts.len() as int)
                == self.active_contexts@);
        }
        false
    }

    /// Switches a context on with a priority. The context with the lower
    /// number is asked first; among equal priorities, the one that was
    /// switched on first. A context that is on already is switched on once
    /// more, and is then asked at either place. Does nothing if the context
    /// was not loaded.
    pub fn activate_context(&mut self, context_id: &ContextId, priority: u32)
        requires
            spec_remapper_well_formed(old(self)@),
        ensures
            final(self)@ == spec_activate(old(self)@, *context_id, priority),
            spec_remapper_well_formed(final(self)@),
    {
        broadcast use vstd::std_specs::hash::group_hash_axioms;

        if self.contexts.contains_key(context_id) {
            let pos = insert_position(&self.active_contexts, priority);
            let entry = ActiveContext::new(priority, context_id);
            proof {
                lemma_insert_active_sorted(self.active_contexts@, entry);
                lemma_insert_position_parts(self.active_contexts@, priority);
            }
            self.active_contexts.insert(pos, entry);
        }
    }

    /// Switches a context off, however often it was switched on. Does nothing
    /// if the context was not loaded.
    pub fn deactivate_context(&mut self, context_id: &ContextId)
        requires
            spec_remapper_well_formed(old(self)@),
        ensures
            final(self)@ == spec_deactivate(old(self)@, *context_id),
            spec_remapper_well_formed(final(self)@),
    {
        broadcast use vstd::std_specs::hash::group_hash_axioms;

        if self.contexts.contains_key(context_id) {
            let left = remove_active(&self.active_contexts, context_id);
            proof {
                lemma_remove_active(self.active_contexts@, *context_id);
            }
            self.active_contexts = left;
        }
    }

    /// Switches a context off if it is on, and on with the given priority if
    /// it is off. Does nothing if the context was not loaded.
    pub fn toggle_context(&mut self, context_id: &ContextId, priority: u32)
        requires
            spec_remapper_well_formed(old(self)@),
        ensures
            final(self)@ == spec_toggle(old(self)@, *context_id, priority),
            spec_remapper_well_formed(final(self)@),
    {
        if self.is_context_active(context_id) {
            self.deactivate_context(context_id);
        } else {
            self.activate_context(context_id, priority);
        }
    }

    /// The window event that a raw input stands for, if it is one.
    pub fn process_window_input(&self, raw_input: &RawInput) -> (event: Option<WindowEvent>)
        ensures
            event == spec_window_event(raw_input.event),
    {
        match raw_input.event {
            RawInputEvent::Resize(x, y) => Some(WindowEvent::Resize(x, y)),
            RawInputEvent::Focus(b) => Some(
                WindowEvent::Focus(
                    if b {
                        FocusAction::Enter
                    } else {
                        FocusAction::Exit
                    },
                ),
            ),
            RawInputEvent::Close => Some(WindowEvent::Close),
            _ => None,
        }
    }

    /// Resolves one raw input: asks the active contexts in their order and
    /// hands out the event of the first that produces one, or none. An event
    /// of the state kind is recorded in the held states.
    pub fn process_one(&mut self, raw_input: &RawInput) -> (event: Option<ControllerEvent>)
        requires
            spec_remapper_well_formed(old(self)@),
        ensures
            view_of(event) == spec_resolve(old(self)@, *raw_input),
            final(self)@ == spec_process_one(old(self)@, *raw_input),
            spec_remapper_well_formed(final(self)@),
    {
        broadcast use vstd::std_specs::hash::group_hash_axioms;

        let mut i: usize = 0;
        while i < self.active_contexts.len()
            invariant
                i <= self.active_contexts.len(),
                self@ == old(self)@,
                spec_remapper_well_formed(self@),
                spec_resolve(self@, *raw_input) == spec_resolve_from(
                    self@.contexts,
                    self@.active,
                    *raw_input,
                    self@.states,
                    self@.frame_data,
                    i as int,
                ),
            decreases self.active_contexts.len() - i,
        {
            let id = self.active_contexts[i].context_id;
            match self.contexts.get(&id) {
                Some(context) => {
                    match context.process(raw_input, &mut self.state_storage, &self.frame_data) {
                        Some(event) => {
                            return Some(event);
                        },
                        None => {},
                    }
                },
                None => {},
            }
            i += 1;
        }
        None
    }

    /// Handles the raw inputs of one tick. Hands out the window events of the
    /// batch, then its controller events, each in the order of the batch.
    /// Every input is resolved against the frame data of the tick before; the
    /// frame data is brought up to date at the end.
    pub fn process_raw_input(&mut self, raw_input: &Vec<RawInput>) -> (events: Vec<Event>)
        requires
            spec_remapper_well_formed(old(self)@),
        ensures
            views_of(events@) == spec_tick_events(old(self)@, raw_input@),
            final(self)@ == spec_tick(old(self)@, raw_input@),
            spec_remapper_well_formed(final(self)@),
    {
        let mut events: Vec<Event> = Vec::new();
        let mut i: usize = 0;
        while i < raw_input.len()
            invariant
                i <= raw_input.len(),
                views_of(events@) == spec_window_events(raw_input@.take(i as int)),
            decreases raw_input.len() - i,
        {
            proof {
                assert(raw_input@.take(i + 1).drop_last() == raw_input@.take(i as int));
            }
            match self.process_window_input(&raw_input[i]) {
                Some(w) => {
                    events.push(Event::Window(w));
                },
                None => {},
            }
            i += 1;
        }
        proof {
            assert(raw_input@.take(raw_input.len() as int) == raw_input@);
        }
        let ghost window_events = views_of(events@);
        let mut frame_data = self.frame_data;
        let mut j: usize = 0;
        while j < raw_input.len()
            invariant
                j <= raw_input.len(),
                window_events == spec_window_events(raw_input@),
                views_of(events@) == window_events + spec_controller_events(
                    old(self)@,
                    raw_input@.take(j as int),
                ),
                self@ == spec_resolve_all(old(self)@, raw_input@.take(j as int)),
                self@.frame_data == old(self)@.frame_data,
                self@.contexts == old(self)@.contexts,
                self@.active == old(self)@.active,
                frame_data == spec_track_all(old(self)@.frame_data, raw_input@.take(j as int)),
                spec_remapper_well_formed(self@),
            decreases raw_input.len() - j,
        {
            proof {
                assert(raw_input@.take(j + 1).drop_last() == raw_input@.take(j as int));
            }
            let ghost before = events@;
            match self.process_one(&raw_input[j]) {
                Some(event) => {
                    let ghost e = event@;
                    events.push(Event::Controller(event));
                    assert(views_of(events@) == views_of(before).push(EventView::Controller(e)));
                },
                None => {},
            }
            match raw_input[j].event {
                RawInputEvent::Resize(x, y) => {
                    frame_data.size = (x, y);
                },
                RawInputEvent::CursorPosition(x, y) => {
                    frame_data.cursor_position = Some((x, y));
                },
                _ => {},
            }
            j += 1;
        }
        self.frame_data = frame_data;
        events
    }
}

/// Where a context that is switched on with `priority` goes in a sorted list.
fn insert_position(active: &Vec<ActiveContext>, priority: u32) -> (pos: usize)
    requires
        spec_sorted(active@),
    ensures
        pos == spec_insert_position(active@, priority),
        pos <= active@.len(),
{
    let mut lo: usize = 0;
    let mut hi: usize = active.len();
    while lo < hi
        invariant
            lo <= hi <= active.len(),
            spec_sorted(active@),
            forall|i: int| 0 <= i < lo ==> (#[trigger] active@[i]).priority <= priority,
            forall|i: int| hi <= i < active@.len() ==> (#[trigger] active@[i]).priority > priority,
        decreases hi - lo,
    {
        let mid = lo + (hi - lo) / 2;
        if active[mid].priority <= priority {
            lo = mid + 1;
        } else {
            hi = mid;
        }
    }
    proof {
        lemma_insert_position(active@, priority, lo as int);
    }
    lo
}

/// The active contexts without those of the given id.
fn remove_active(active: &Vec<ActiveContext>, context_id: &ContextId) -> (left: Vec<ActiveContext>)
    ensures
        left@ == spec_remove_active(active@, *context_id),
{
    let mut left: Vec<ActiveContext> = Vec::new();
    let mut i: usize = 0;
    while i < active.len()
        invariant
            i <= active.len(),
            left@ == spec_remove_active(active@.take(i as int), *context_id),
        decreases active.len() - i,
    {
        proof {
            assert(active@.take(i + 1).drop_last() == active@.take(i as int));
        }
        if active[i].context_id != *context_id {
            left.push(active[i]);
        }
        i += 1;
    }
    proof {
        assert(active@.take(active.len() as int) == active@);
    }
    left
}

} // verus!
