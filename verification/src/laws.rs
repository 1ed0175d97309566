//! What holds of the engine whatever the bindings and the inputs are,
//! stated over its model and proved.

use vstd::prelude::*;

use crate::event::{Argument, ControllerEventView, EventView, StateAction};
use crate::mapping::{
    spec_apply_event, spec_argument, spec_arguments, spec_check_mapping, spec_classify,
    spec_context_process, spec_context_well_formed, spec_first_match_from, spec_range_diff,
    spec_state_action, spec_state_duration, spec_update_state_info, spec_well_formed, spec_wins,
};
use crate::raw::{RawInput, RawInputAction, RawInputEvent};
use crate::remapper::{
    lemma_context_active_push, lemma_insert_position, lemma_insert_position_parts,
    lemma_remove_active, spec_context_active, spec_controller_events, spec_insert_active,
    spec_insert_position, spec_remapper_well_formed, spec_remove_active, spec_resolve,
    spec_resolve_from, spec_sorted, spec_toggle, spec_window_event, spec_window_events,
    RemapperView,
};
use crate::source::{spec_next_frame, spec_raw_inputs, WindowInput};
use crate::types::{
    spec_is_active, spec_sanitize, ActionArgument, ActionId, ActiveContext, ContextId, ContextView,
    MappedType, MappingView, RawState, StateInfo, Timestamp, WindowData,
};

verus! {

// ---------------------------------------------------------------------------
// At most one binding wins a raw input, and it is the first.
// ---------------------------------------------------------------------------
/// No binding of the context wins the raw input.
pub open spec fn spec_silent(
    context: ContextView,
    event: RawInputEvent,
    states: Map<ActionId, StateInfo>,
) -> bool {
    forall|m: int|
        0 <= m < context.mappings.len() ==> !spec_wins(#[trigger] context.mappings[m], event, states)
}

/// The binding `m` of the active context `a` is the one that is asked first
/// among all that win the raw input: no earlier active context has a binding
/// that wins, and no earlier binding of this context wins.
pub open spec fn spec_winner(v: RemapperView, raw_input: RawInput, a: int, m: int) -> bool {
    &&& 0 <= a < v.active.len()
    &&& v.contexts.contains_key(v.active[a].context_id)
    &&& 0 <= m < v.contexts[v.active[a].context_id].mappings.len()
    &&& spec_wins(v.contexts[v.active[a].context_id].mappings[m], raw_input.event, v.states)
    &&& forall|k: int|
        0 <= k < m ==> !spec_wins(
            #[trigger] v.contexts[v.active[a].context_id].mappings[k],
            raw_input.event,
            v.states,
        )
    &&& forall|b: int|
        0 <= b < a ==> spec_silent(
            v.contexts[(#[trigger] v.active[b]).context_id],
            raw_input.event,
            v.states,
        )
}

/// The first match of a list of bindings is a binding that wins, and none
/// before it does; there is none exactly if no binding wins.
pub proof fn law_first_match_is_first(
    mappings: Seq<MappingView>,
    event: RawInputEvent,
    states: Map<ActionId, StateInfo>,
    from: int,
)
    requires
        0 <= from,
    ensures
        match spec_first_match_from(mappings, event, states, from) {
            Some(i) => {
                &&& from <= i < mappings.len()
                &&& spec_wins(mappings[i], event, states)
                &&& forall|k: int| from <= k < i ==> !spec_wins(#[trigger] mappings[k], event, states)
            },
            None => forall|k: int|
                from <= k < mappings.len() ==> !spec_wins(#[trigger] mappings[k], event, states),
        },
    decreases mappings.len() - from,
{
    if from < mappings.len() && !spec_wins(mappings[from], event, states) {
        law_first_match_is_first(mappings, event, states, from + 1);
    }
}

/// A well-formed binding that wins a raw input produces an event.
pub proof fn law_winner_produces_event(
    mapping: MappingView,
    raw_input: RawInput,
    context_id: ContextId,
    states: Map<ActionId, StateInfo>,
    frame_data: WindowData,
)
    requires
        spec_well_formed(mapping),
        spec_wins(mapping, raw_input.event, states),
    ensures
        spec_classify(mapping, raw_input, context_id, states, frame_data) is Some,
{
}

/// A well-formed context produces an event exactly if one of its bindings
/// wins, and then the event of the first that does.
pub proof fn law_context_first_match_wins(
    context: ContextView,
    raw_input: RawInput,
    states: Map<ActionId, StateInfo>,
    frame_data: WindowData,
)
    requires
        spec_context_well_formed(context),
    ensures
        match spec_context_process(context, raw_input, states, frame_data) {
            Some(event) => exists|m: int|
                {
                    &&& 0 <= m < context.mappings.len()
                    &&& #[trigger] spec_wins(context.mappings[m], raw_input.event, states)
                    &&& forall|k: int|
                        0 <= k < m ==> !spec_wins(
                            #[trigger] context.mappings[k],
                            raw_input.event,
                            states,
                        )
                    &&& Some(event) == spec_classify(
                        context.mappings[m],
                        raw_input,
                        context.id,
                        states,
                        frame_data,
                    )
                },
            None => spec_silent(context, raw_input.event, states),
        },
{
    law_first_match_is_first(context.mappings, raw_input.event, states, 0);
    match spec_first_match_from(context.mappings, raw_input.event, states, 0) {
        Some(i) => {
            law_winner_produces_event(
                context.mappings[i],
                raw_input,
                context.id,
                states,
                frame_data,
            );
        },
        None => {},
    }
}

proof fn lemma_resolve_from(v: RemapperView, raw_input: RawInput, from: int)
    requires
        spec_remapper_well_formed(v),
        0 <= from <= v.active.len(),
        forall|b: int|
            0 <= b < from ==> spec_silent(
                v.contexts[(#[trigger] v.active[b]).context_id],
                raw_input.event,
                v.states,
            ),
    ensures
        match spec_resolve_from(v.contexts, v.active, raw_input, v.states, v.frame_data, from) {
            Some(event) => exists|a: int, m: int|
                {
                    &&& #[trigger] spec_winner(v, raw_input, a, m)
                    &&& Some(event) == spec_classify(
                        v.contexts[v.active[a].context_id].mappings[m],
                        raw_input,
                        v.active[a].context_id,
                        v.states,
                        v.frame_data,
                    )
                },
            None => forall|b: int|
                0 <= b < v.active.len() ==> spec_silent(
                    v.contexts[(#[trigger] v.active[b]).context_id],
                    raw_input.event,
                    v.states,
                ),
        },
    decreases v.active.len() - from,
{
    if from < v.active.len() {
        let id = v.active[from].context_id;
        let context = v.contexts[id];
        law_context_first_match_wins(context, raw_input, v.states, v.frame_data);
        match spec_context_process(context, raw_input, v.states, v.frame_data) {
            Some(event) => {
                let m = choose|m: int|
                    {
                        &&& 0 <= m < context.mappings.len()
                        &&& #[trigger] spec_wins(context.mappings[m], raw_input.event, v.states)
                        &&& forall|k: int|
                            0 <= k < m ==> !spec_wins(
                                #[trigger] context.mappings[k],
                                raw_input.event,
                                v.states,
                            )
                        &&& Some(event) == spec_classify(
                            context.mappings[m],
                            raw_input,
                            context.id,
                            v.states,
                            v.frame_data,
                        )
                    };
                assert(spec_winner(v, raw_input, from, m));
            },
            None => {
                lemma_resolve_from(v, raw_input, from + 1);
            },
        }
    }
}

/// A raw input produces the event of one binding or none. If it produces one,
/// it is that of the binding which is asked first among all that win: the
/// first such binding of the first active context that has one. It produces
/// none exactly if no binding of any active context wins.
pub proof fn law_first_match_wins(v: RemapperView, raw_input: RawInput)
    requires
        spec_remapper_well_formed(v),
    ensures
        match spec_resolve(v, raw_input) {
            Some(event) => exists|a: int, m: int|
                {
                    &&& #[trigger] spec_winner(v, raw_input, a, m)
                    &&& Some(event) == spec_classify(
                        v.contexts[v.active[a].context_id].mappings[m],
                        raw_input,
                        v.active[a].context_id,
                        v.states,
                        v.frame_data,
                    )
                },
            None => forall|b: int|
                0 <= b < v.active.len() ==> spec_silent(
                    v.contexts[(#[trigger] v.active[b]).context_id],
                    raw_input.event,
                    v.states,
                ),
        },
{
    lemma_resolve_from(v, raw_input, 0);
}

/// The context whose binding decides a raw input has the lowest priority
/// number among the active contexts that have a binding which wins it.
pub proof fn law_winner_has_lowest_number(v: RemapperView, raw_input: RawInput, a: int, m: int, b: int)
    requires
        spec_remapper_well_formed(v),
        spec_winner(v, raw_input, a, m),
        0 <= b < v.active.len(),
        !spec_silent(v.contexts[v.active[b].context_id], raw_input.event, v.states),
    ensures
        v.active[a].priority <= v.active[b].priority,
        a <= b,
{
}

/// A batch of raw inputs produces at most one controller event and at most
/// one window event for each of them.
pub proof fn law_one_event_per_input(v: RemapperView, raw_input: Seq<RawInput>)
    ensures
        spec_controller_events(v, raw_input).len() <= raw_input.len(),
        spec_window_events(raw_input).len() <= raw_input.len(),
    decreases raw_input.len(),
{
    if raw_input.len() > 0 {
        law_one_event_per_input(v, raw_input.drop_last());
    }
}

/// The window events of a batch are those that its raw inputs stand for, in
/// their order.
pub proof fn law_window_events_are_filter_map(raw_input: Seq<RawInput>)
    ensures
        spec_window_events(raw_input) == raw_input.filter_map(
            |raw: RawInput|
                match spec_window_event(raw.event) {
                    Some(w) => Some(EventView::Window(w)),
                    None => None,
                },
        ),
    decreases raw_input.len(),
{
    if raw_input.len() > 0 {
        law_window_events_are_filter_map(raw_input.drop_last());
    }
}

// ---------------------------------------------------------------------------
// The context with the lower priority number is asked first.
// ---------------------------------------------------------------------------
proof fn lemma_insert_lower_then_higher(
    active: Seq<ActiveContext>,
    lower: ActiveContext,
    higher: ActiveContext,
)
    requires
        spec_sorted(active),
        lower.priority < higher.priority,
    ensures
        spec_insert_active(spec_insert_active(active, lower), higher) == spec_insert_active(
            spec_insert_active(active, higher),
            lower,
        ),
        spec_insert_position(active, lower.priority) <= spec_insert_position(
            active,
            higher.priority,
        ),
        spec_insert_active(spec_insert_active(active, lower), higher) == active.insert(
            spec_insert_position(active, higher.priority),
            higher,
        ).insert(spec_insert_position(active, lower.priority), lower),
{
    lemma_insert_position_parts(active, lower.priority);
    lemma_insert_position_parts(active, higher.priority);
    let kl = spec_insert_position(active, lower.priority);
    let kh = spec_insert_position(active, higher.priority);
    assert(kl <= kh) by {
        if kh < kl {
            assert(active[kh].priority <= lower.priority);
        }
    }
    let with_lower = active.insert(kl, lower);
    lemma_insert_position(with_lower, higher.priority, kh + 1);
    let with_higher = active.insert(kh, higher);
    lemma_insert_position(with_higher, lower.priority, kl);
}

/// The order in which two contexts with different priorities are switched on
/// does not matter: the active contexts are the same either way.
pub proof fn law_activation_order_is_irrelevant(
    active: Seq<ActiveContext>,
    first: ActiveContext,
    second: ActiveContext,
)
    requires
        spec_sorted(active),
        first.priority != second.priority,
    ensures
        spec_insert_active(spec_insert_active(active, first), second) == spec_insert_active(
            spec_insert_active(active, second),
            first,
        ),
{
    if first.priority < second.priority {
        lemma_insert_lower_then_higher(active, first, second);
    } else {
        lemma_insert_lower_then_higher(active, second, first);
    }
}

/// Of two contexts that are switched on, in either order, the one with the
/// lower priority number is asked before the other.
pub proof fn law_lower_number_is_asked_first(
    active: Seq<ActiveContext>,
    lower: ActiveContext,
    higher: ActiveContext,
)
    requires
        spec_sorted(active),
        lower.priority < higher.priority,
    ensures
        ({
            let after = spec_insert_active(spec_insert_active(active, higher), lower);
            exists|i: int, j: int|
                0 <= i < j < after.len() && #[trigger] after[i] == lower && #[trigger] after[j]
                    == higher
        }),
        spec_insert_active(spec_insert_active(active, higher), lower) == spec_insert_active(
            spec_insert_active(active, lower),
            higher,
        ),
{
    lemma_insert_lower_then_higher(active, lower, higher);
    lemma_insert_position_parts(active, lower.priority);
    lemma_insert_position_parts(active, higher.priority);
    let kl = spec_insert_position(active, lower.priority);
    let kh = spec_insert_position(active, higher.priority);
    let after = spec_insert_active(spec_insert_active(active, higher), lower);
    assert(after[kl] == lower);
    assert(after[kh + 1] == higher);
}

/// A context that is switched on is among the active ones, and so is every
/// context that was.
pub proof fn law_activate_switches_on(active: Seq<ActiveContext>, entry: ActiveContext, other: ContextId)
    ensures
        spec_context_active(spec_insert_active(active, entry), entry.context_id),
        spec_context_active(active, other) ==> spec_context_active(
            spec_insert_active(active, entry),
            other,
        ),
{
    let k = spec_insert_position(active, entry.priority);
    lemma_insert_position_in_range(active, entry.priority);
    let after = spec_insert_active(active, entry);
    assert(after[k].context_id == entry.context_id);
    if spec_context_active(active, other) {
        let i = choose|i: int| 0 <= i < active.len() && (#[trigger] active[i]).context_id == other;
        if i < k {
            assert(after[i].context_id == other);
        } else {
            assert(after[i + 1].context_id == other);
        }
    }
}

proof fn lemma_insert_position_in_range(active: Seq<ActiveContext>, priority: u32)
    ensures
        0 <= spec_insert_position(active, priority) <= active.len(),
    decreases active.len(),
{
    if active.len() > 0 && active.last().priority > priority {
        lemma_insert_position_in_range(active.drop_last(), priority);
    }
}

/// A context that is switched off is not among the active ones; any other
/// context is among them exactly if it was.
pub proof fn law_deactivate_switches_off(
    active: Seq<ActiveContext>,
    context_id: ContextId,
    other: ContextId,
)
    requires
        other != context_id,
    ensures
        !spec_context_active(spec_remove_active(active, context_id), context_id),
        spec_context_active(spec_remove_active(active, context_id), other) == spec_context_active(
            active,
            other,
        ),
    decreases active.len(),
{
    lemma_remove_active(active, context_id);
    if active.len() > 0 {
        let rest = active.drop_last();
        law_deactivate_switches_off(rest, context_id, other);
        lemma_context_active_push(active, other);
        let left = spec_remove_active(active, context_id);
        if active.last().context_id != context_id {
            assert(left.drop_last() == spec_remove_active(rest, context_id));
            lemma_context_active_push(left, other);
        }
    }
}

/// Toggling a context that was loaded switches it on if it was off and off
/// if it was on; toggling one that was not loaded changes nothing.
pub proof fn law_toggle_flips(v: RemapperView, context_id: ContextId, priority: u32)
    requires
        spec_remapper_well_formed(v),
    ensures
        v.contexts.contains_key(context_id) ==> spec_context_active(
            spec_toggle(v, context_id, priority).active,
            context_id,
        ) == !spec_context_active(v.active, context_id),
        !v.contexts.contains_key(context_id) ==> spec_toggle(v, context_id, priority) == v,
{
    if v.contexts.contains_key(context_id) {
        if spec_context_active(v.active, context_id) {
            lemma_remove_active(v.active, context_id);
        } else {
            law_activate_switches_on(
                v.active,
                ActiveContext { priority, context_id },
                context_id,
            );
        }
    } else if spec_context_active(v.active, context_id) {
        let i = choose|i: int|
            0 <= i < v.active.len() && (#[trigger] v.active[i]).context_id == context_id;
        assert(v.contexts.contains_key(v.active[i].context_id));
    }
}

// ---------------------------------------------------------------------------
// A state keeps the time of its activation for as long as it is held.
// ---------------------------------------------------------------------------
/// A press, or a repeat, of a state that is not held activates it: the
/// duration is 0, and the time of activation becomes the time of the input.
pub proof fn law_activation_starts_the_timer(
    states: Map<ActionId, StateInfo>,
    action: ActionId,
    raw_action: RawInputAction,
    now: Timestamp,
)
    requires
        !spec_is_active(states, action),
        raw_action != RawInputAction::Release,
    ensures
        spec_state_action(action, raw_action, states) == StateAction::Activated,
        spec_state_duration(action, now, states) == 0,
        spec_update_state_info(states, action, StateAction::Activated, now)[action] == (StateInfo {
            active: true,
            start_time: now,
            stop_time: 0,
        }),
        spec_is_active(spec_update_state_info(states, action, StateAction::Activated, now), action),
{
}

/// A press, or a repeat, of a state that is held keeps it held: the time of
/// activation stays, and the duration is the time since then.
pub proof fn law_held_state_keeps_its_start(
    states: Map<ActionId, StateInfo>,
    action: ActionId,
    raw_action: RawInputAction,
    now: Timestamp,
)
    requires
        spec_is_active(states, action),
        raw_action != RawInputAction::Release,
    ensures
        spec_state_action(action, raw_action, states) == StateAction::Active,
        spec_update_state_info(states, action, StateAction::Active, now) == states,
        states[action].start_time <= now ==> spec_state_duration(action, now, states) == now
            - states[action].start_time,
        states[action].start_time > now ==> spec_state_duration(action, now, states) == 0,
{
}

/// A release deactivates a state: it is no longer held, the time of its
/// activation stays, and the time of release is the time of the input.
pub proof fn law_release_stops_the_state(
    states: Map<ActionId, StateInfo>,
    action: ActionId,
    now: Timestamp,
)
    ensures
        spec_state_action(action, RawInputAction::Release, states) == StateAction::Deactivated,
        !spec_is_active(spec_update_state_info(states, action, StateAction::Deactivated, now), action),
        states.contains_key(action) ==> spec_update_state_info(
            states,
            action,
            StateAction::Deactivated,
            now,
        )[action] == (StateInfo {
            active: false,
            start_time: states[action].start_time,
            stop_time: now,
        }),
{
}

/// An event changes the record of no state but its own, and only an event of
/// the state kind changes any.
pub proof fn law_event_touches_its_state_only(
    states: Map<ActionId, StateInfo>,
    event: Option<ControllerEventView>,
    now: Timestamp,
    other: ActionId,
)
    requires
        !(event matches Some(ControllerEventView::State(action, _, _, _)) && action == other),
    ensures
        spec_apply_event(states, event, now).contains_key(other) == states.contains_key(other),
        spec_apply_event(states, event, now)[other] == states[other],
{
}

/// The record of a state, once made, is never dropped.
pub proof fn law_states_are_never_forgotten(
    states: Map<ActionId, StateInfo>,
    event: Option<ControllerEventView>,
    now: Timestamp,
    action: ActionId,
)
    requires
        states.contains_key(action),
    ensures
        spec_apply_event(states, event, now).contains_key(action),
{
}

/// After an event of the state kind, the state is held exactly if the event
/// did not report its release.
pub proof fn law_state_event_is_recorded(
    states: Map<ActionId, StateInfo>,
    action: ActionId,
    state_action: StateAction,
    duration: u64,
    args: Seq<Argument>,
    now: Timestamp,
)
    ensures
        spec_is_active(
            spec_apply_event(
                states,
                Some(ControllerEventView::State(action, state_action, duration, args)),
                now,
            ),
            action,
        ) == (state_action != StateAction::Deactivated),
{
}

// ---------------------------------------------------------------------------
// A guarded binding matches only while its guard is held.
// ---------------------------------------------------------------------------
/// A binding that is guarded by a state matches no raw input while that state
/// is not held.
pub proof fn law_guard_blocks(
    mapping: MappingView,
    event: RawInputEvent,
    states: Map<ActionId, StateInfo>,
    guard: ActionId,
)
    requires
        mapping.raw_args.state_active == Some(guard),
        !spec_is_active(states, guard),
    ensures
        !spec_check_mapping(mapping, event, states),
        !spec_wins(mapping, event, states),
{
}

/// Whether a binding matches depends on the held states through its guard
/// only: while the guard is held, or there is none, the binding matches as it
/// would with any other states.
pub proof fn law_guard_is_all_that_counts(
    mapping: MappingView,
    event: RawInputEvent,
    states: Map<ActionId, StateInfo>,
    others: Map<ActionId, StateInfo>,
)
    requires
        mapping.raw_args.state_active matches Some(guard) ==> (spec_is_active(states, guard)
            == spec_is_active(others, guard)),
    ensures
        spec_check_mapping(mapping, event, states) == spec_check_mapping(mapping, event, others),
{
}

// ---------------------------------------------------------------------------
// Arguments come in the wanted order; one that is not there is left out.
// ---------------------------------------------------------------------------
/// The extracted arguments are the values of the wanted ones that the raw
/// input or the frame data has, in the wanted order, and nothing else.
pub proof fn law_arguments_are_filter_map(
    wanted: Seq<ActionArgument>,
    event: RawInputEvent,
    context_id: ContextId,
    frame_data: WindowData,
)
    ensures
        spec_arguments(wanted, event, context_id, frame_data) == wanted.filter_map(
            |a: ActionArgument| spec_argument(a, event, context_id, frame_data),
        ),
        spec_arguments(wanted, event, context_id, frame_data).len() <= wanted.len(),
    decreases wanted.len(),
{
    if wanted.len() > 0 {
        law_arguments_are_filter_map(wanted.drop_last(), event, context_id, frame_data);
    }
}

/// The kind of wanted argument that an extracted value answers.
pub open spec fn spec_kind_of(argument: Argument) -> ActionArgument {
    match argument {
        Argument::KeyCode(_) => ActionArgument::KeyCode,
        Argument::Value(_) => ActionArgument::Value,
        Argument::Modifiers(_) => ActionArgument::Modifiers,
        Argument::Action(_) => ActionArgument::Action,
        Argument::CursorPosition(_, _) => ActionArgument::CursorPosition,
        Argument::ContextId(_) => ActionArgument::ContextId,
    }
}

/// Every extracted argument is the value of a wanted one that the raw input
/// or the frame data has: nothing stands in for a value that is not there.
pub proof fn law_no_placeholder(
    wanted: Seq<ActionArgument>,
    event: RawInputEvent,
    context_id: ContextId,
    frame_data: WindowData,
    i: int,
)
    requires
        0 <= i < spec_arguments(wanted, event, context_id, frame_data).len(),
    ensures
        ({
            let argument = spec_arguments(wanted, event, context_id, frame_data)[i];
            &&& wanted.contains(spec_kind_of(argument))
            &&& spec_argument(spec_kind_of(argument), event, context_id, frame_data) == Some(
                argument,
            )
        }),
    decreases wanted.len(),
{
    if wanted.len() > 0 {
        let before = spec_arguments(wanted.drop_last(), event, context_id, frame_data);
        if i < before.len() {
            law_no_placeholder(wanted.drop_last(), event, context_id, frame_data, i);
            let kind = spec_kind_of(before[i]);
            let k = choose|k: int| 0 <= k < wanted.drop_last().len() && wanted.drop_last()[k] == kind;
            assert(wanted[k] == kind);
        }
    }
}

// ---------------------------------------------------------------------------
// Motion is the difference of two cursor positions.
// ---------------------------------------------------------------------------
/// A cursor that moves from a known position reports its new position and a
/// motion, and the range of that motion is the new position less the old one.
/// A cursor whose position was not known reports its position only.
pub proof fn law_motion_is_the_difference_of_positions(
    time: Timestamp,
    x: i32,
    y: i32,
    frame_data: WindowData,
)
    ensures
        match frame_data.cursor_position {
            Some((px, py)) => {
                let raw = spec_raw_inputs(time, WindowInput::CursorMoved(x, y), frame_data);
                &&& raw.len() == 2
                &&& raw[0].event == RawInputEvent::CursorPosition(x, y)
                &&& spec_range_diff(raw[1].event) == ((x - px) as i64, (y - py) as i64)
            },
            None => {
                let raw = spec_raw_inputs(time, WindowInput::CursorMoved(x, y), frame_data);
                &&& raw.len() == 1
                &&& raw[0].event == RawInputEvent::CursorPosition(x, y)
            },
        },
        spec_next_frame(WindowInput::CursorMoved(x, y), frame_data).cursor_position == Some((x, y)),
{
}

// ---------------------------------------------------------------------------
// Sanitizing.
// ---------------------------------------------------------------------------
/// A fire-once action that asks for no key or button state is kept as one
/// that fires on release; one that asks for a state keeps it. A state is kept
/// without any such requirement. Nothing else of a binding changes, and a
/// range is kept as it is.
pub proof fn law_sanitize_defaults(mapping: MappingView)
    ensures
        mapping.mapped_type == Some(MappedType::Action) && mapping.raw_args.action is None
            ==> spec_sanitize(mapping).raw_args.action == Some(RawState::Release),
        mapping.mapped_type == Some(MappedType::Action) && mapping.raw_args.action is Some
            ==> spec_sanitize(mapping) == mapping,
        mapping.mapped_type == Some(MappedType::State) ==> spec_sanitize(mapping).raw_args.action
            is None,
        mapping.mapped_type == Some(MappedType::Range) || mapping.mapped_type is None
            ==> spec_sanitize(mapping) == mapping,
        spec_sanitize(mapping).raw_type == mapping.raw_type,
        spec_sanitize(mapping).action == mapping.action,
        spec_sanitize(mapping).mapped_type == mapping.mapped_type,
        spec_sanitize(mapping).action_args == mapping.action_args,
        spec_sanitize(mapping).raw_args.keycode == mapping.raw_args.keycode,
        spec_sanitize(mapping).raw_args.button == mapping.raw_args.button,
        spec_sanitize(mapping).raw_args.modifier == mapping.raw_args.modifier,
        spec_sanitize(mapping).raw_args.state_active == mapping.raw_args.state_active,
        spec_sanitize(spec_sanitize(mapping)) == spec_sanitize(mapping),
{
}

} // verus!
