use vstd::prelude::*;
use crate::context::{KnobContext, ScreenPoint};
use crate::value::NormalizedValue;
use crate::widgets::params_knob::{
    drag_delta, drag_move_actions, spec_dispatch, step, step_actions, teardown_actions, Dispatch,
    DragStatus, InteractionMode, KnobAction, KnobEvent, KnobState,
};

verus! {

/// One delivered event together with the context it was delivered in.
pub type KnobInput = (KnobContext, KnobEvent);

/// The state after a sequence of inputs has been handled in order.
pub open spec fn run(state: KnobState, inputs: Seq<KnobInput>) -> KnobState
    decreases inputs.len(),
{
    if inputs.len() == 0 {
        state
    } else {
        step(run(state, inputs.drop_last()), inputs.last().0, inputs.last().1)
    }
}

/// All effects that a sequence of inputs asks of the host, in order.
pub open spec fn run_actions(state: KnobState, inputs: Seq<KnobInput>) -> Seq<KnobAction>
    decreases inputs.len(),
{
    if inputs.len() == 0 {
        Seq::empty()
    } else {
        run_actions(state, inputs.drop_last()) + step_actions(
            run(state, inputs.drop_last()),
            inputs.last().0,
            inputs.last().1,
        )
    }
}

/// How many of the first `n` effects open a gesture.
pub open spec fn begins_upto(actions: Seq<KnobAction>, n: int) -> nat
    decreases n,
{
    if n <= 0 {
        0
    } else {
        begins_upto(actions, n - 1) + if actions[n - 1] is BeginGesture {
            1nat
        } else {
            0nat
        }
    }
}

/// How many of the first `n` effects close a gesture.
pub open spec fn ends_upto(actions: Seq<KnobAction>, n: int) -> nat
    decreases n,
{
    if n <= 0 {
        0
    } else {
        ends_upto(actions, n - 1) + if actions[n - 1] is EndGesture {
            1nat
        } else {
            0nat
        }
    }
}

/// How many gestures the effects open.
pub open spec fn begin_count(actions: Seq<KnobAction>) -> nat {
    begins_upto(actions, actions.len() as int)
}

/// How many gestures the effects close.
pub open spec fn end_count(actions: Seq<KnobAction>) -> nat {
    ends_upto(actions, actions.len() as int)
}

/// How many gestures a mode holds open: one during a drag session, none
/// otherwise.
pub open spec fn open_gestures(mode: InteractionMode) -> nat {
    if mode is Dragging {
        1
    } else {
        0
    }
}

/// Every value that the effects write lies in the normalized range.
pub open spec fn writes_normalized(actions: Seq<KnobAction>) -> bool {
    forall|i: int|
        0 <= i < actions.len() ==> (#[trigger] actions[i] matches KnobAction::SetNormalized(v)
            ==> v.is_normalized())
}

/// The parameter's value once the first `n` effects have been carried
/// out, when it was `before`: the last value written, if any.
pub open spec fn value_upto(actions: Seq<KnobAction>, n: int, before: NormalizedValue) -> NormalizedValue
    decreases n,
{
    if n <= 0 {
        before
    } else {
        match actions[n - 1] {
            KnobAction::SetNormalized(v) => v,
            _ => value_upto(actions, n - 1, before),
        }
    }
}

/// The parameter's value once all effects have been carried out.
pub open spec fn value_after(actions: Seq<KnobAction>, before: NormalizedValue) -> NormalizedValue {
    value_upto(actions, actions.len() as int, before)
}

/// The cursor's position once the first `n` effects have been carried
/// out, when it was at `before`: the last position it was put at, if any.
pub open spec fn cursor_upto(actions: Seq<KnobAction>, n: int, before: ScreenPoint) -> ScreenPoint
    decreases n,
{
    if n <= 0 {
        before
    } else {
        match actions[n - 1] {
            KnobAction::SetCursorPosition(p) => p,
            _ => cursor_upto(actions, n - 1, before),
        }
    }
}

/// The cursor's position once all effects have been carried out.
pub open spec fn cursor_after(actions: Seq<KnobAction>, before: ScreenPoint) -> ScreenPoint {
    cursor_upto(actions, actions.len() as int, before)
}

/// The values held by a mode lie in the normalized range.
pub open spec fn mode_wf(mode: InteractionMode) -> bool {
    mode matches InteractionMode::Dragging(status) ==> status.drag_start_value.is_normalized()
}

/// The values carried by an event lie in the normalized range.
pub open spec fn event_wf(event: KnobEvent) -> bool {
    event matches KnobEvent::TextInput(Some(v)) ==> v.is_normalized()
}

/// Every input of the sequence carries normalized values only.
pub open spec fn inputs_wf(inputs: Seq<KnobInput>) -> bool {
    forall|i: int| 0 <= i < inputs.len() ==> (#[trigger] inputs[i]).0.wf() && event_wf(inputs[i].1)
}

proof fn lemma_begins_concat(a: Seq<KnobAction>, b: Seq<KnobAction>, n: int)
    requires
        0 <= n <= b.len(),
    ensures
        begins_upto(a + b, a.len() + n) == begin_count(a) + begins_upto(b, n),
        ends_upto(a + b, a.len() + n) == end_count(a) + ends_upto(b, n),
    decreases n,
{
    if n == 0 {
        lemma_prefix_counts(a, a + b, a.len() as int);
    } else {
        lemma_begins_concat(a, b, n - 1);
        assert((a + b)[a.len() + n - 1] == b[n - 1]);
    }
}

proof fn lemma_prefix_counts(a: Seq<KnobAction>, whole: Seq<KnobAction>, n: int)
    requires
        0 <= n <= a.len() <= whole.len(),
        forall|i: int| 0 <= i < a.len() ==> a[i] == whole[i],
    ensures
        begins_upto(whole, n) == begins_upto(a, n),
        ends_upto(whole, n) == ends_upto(a, n),
    decreases n,
{
    if n > 0 {
        lemma_prefix_counts(a, whole, n - 1);
    }
}

/// Counting gestures over two lists of effects, one after the other, adds
/// up.
pub proof fn lemma_counts_concat(a: Seq<KnobAction>, b: Seq<KnobAction>)
    ensures
        begin_count(a + b) == begin_count(a) + begin_count(b),
        end_count(a + b) == end_count(a) + end_count(b),
{
    lemma_begins_concat(a, b, b.len() as int);
}

/// Handling one event keeps gestures paired: the gestures it opens,
/// together with those open before, are those it closes together with
/// those open after. Only a drag session holds a gesture open.
pub proof fn lemma_step_gesture_pairing(state: KnobState, cx: KnobContext, event: KnobEvent)
    ensures
        begin_count(step_actions(state, cx, event)) + open_gestures(state.mode) == end_count(
            step_actions(state, cx, event),
        ) + open_gestures(step(state, cx, event).mode),
{
    reveal_with_fuel(begins_upto, 8);
    reveal_with_fuel(ends_upto, 8);
}

/// Over any sequence of interactions, as many gestures are begun as are
/// ended, but for the one that a drag session still holds open at the
/// end, or held open at the start.
pub proof fn lemma_run_gesture_pairing(state: KnobState, inputs: Seq<KnobInput>)
    ensures
        begin_count(run_actions(state, inputs)) + open_gestures(state.mode) == end_count(
            run_actions(state, inputs),
        ) + open_gestures(run(state, inputs).mode),
    decreases inputs.len(),
{
    if inputs.len() == 0 {
    } else {
        let before = run(state, inputs.drop_last());
        lemma_run_gesture_pairing(state, inputs.drop_last());
        lemma_step_gesture_pairing(before, inputs.last().0, inputs.last().1);
        lemma_counts_concat(
            run_actions(state, inputs.drop_last()),
            step_actions(before, inputs.last().0, inputs.last().1),
        );
    }
}

/// From rest, any sequence of interactions followed by a teardown begins
/// exactly as many gestures as it ends.
pub proof fn lemma_gestures_balanced_after_teardown(state: KnobState, inputs: Seq<KnobInput>)
    requires
        !(state.mode is Dragging),
    ensures
        begin_count(run_actions(state, inputs) + teardown_actions(run(state, inputs).mode))
            == end_count(run_actions(state, inputs) + teardown_actions(run(state, inputs).mode)),
        !(run(state, inputs).mode is Dragging) ==> begin_count(run_actions(state, inputs))
            == end_count(run_actions(state, inputs)),
{
    lemma_run_gesture_pairing(state, inputs);
    lemma_counts_concat(run_actions(state, inputs), teardown_actions(run(state, inputs).mode));
    reveal_with_fuel(begins_upto, 6);
    reveal_with_fuel(ends_upto, 6);
}

/// Every value is written while a gesture is open, and no gesture is
/// closed that was not opened: of the effects before any write, and of
/// those up to any point, more open a gesture than close one, counting
/// the `open_before` gestures that were open at the start.
pub open spec fn writes_inside_gestures(actions: Seq<KnobAction>, open_before: nat) -> bool {
    &&& forall|i: int|
        0 <= i < actions.len() && (#[trigger] actions[i]) is SetNormalized ==> begins_upto(
            actions,
            i,
        ) + open_before > ends_upto(actions, i)
    &&& forall|n: int|
        0 <= n <= actions.len() ==> #[trigger] begins_upto(actions, n) + open_before >= ends_upto(
            actions,
            n,
        )
}

/// Handling one event writes inside gestures only.
pub proof fn lemma_step_writes_inside_gestures(state: KnobState, cx: KnobContext, event: KnobEvent)
    ensures
        writes_inside_gestures(step_actions(state, cx, event), open_gestures(state.mode)),
{
    reveal_with_fuel(begins_upto, 8);
    reveal_with_fuel(ends_upto, 8);
}

/// Over any sequence of interactions, every value is written while a
/// gesture is open, and no gesture is closed that was not opened.
pub proof fn lemma_run_writes_inside_gestures(state: KnobState, inputs: Seq<KnobInput>)
    ensures
        writes_inside_gestures(run_actions(state, inputs), open_gestures(state.mode)),
    decreases inputs.len(),
{
    if inputs.len() > 0 {
        let earlier = inputs.drop_last();
        let before = run(state, earlier);
        let a = run_actions(state, earlier);
        let b = step_actions(before, inputs.last().0, inputs.last().1);
        let open = open_gestures(state.mode);
        lemma_run_writes_inside_gestures(state, earlier);
        lemma_run_gesture_pairing(state, earlier);
        lemma_step_writes_inside_gestures(before, inputs.last().0, inputs.last().1);
        assert forall|n: int| 0 <= n <= (a + b).len() implies #[trigger] begins_upto(a + b, n)
            + open >= ends_upto(a + b, n) by {
            if n <= a.len() {
                lemma_prefix_counts(a, a + b, n);
                assert(begins_upto(a, n) + open >= ends_upto(a, n));
            } else {
                lemma_begins_concat(a, b, n - a.len());
                assert(begins_upto(b, n - a.len()) + open_gestures(before.mode) >= ends_upto(
                    b,
                    n - a.len(),
                ));
            }
        }
        assert forall|i: int|
            0 <= i < (a + b).len() && (#[trigger] (a + b)[i]) is SetNormalized implies begins_upto(
            a + b,
            i,
        ) + open > ends_upto(a + b, i) by {
            if i < a.len() {
                lemma_prefix_counts(a, a + b, i);
                assert(a[i] is SetNormalized);
            } else {
                lemma_begins_concat(a, b, i - a.len());
                assert(b[i - a.len()] is SetNormalized);
            }
        }
    }
}

/// Handling one event writes normalized values only, and keeps the value
/// held by the mode normalized.
pub proof fn lemma_step_writes_normalized(state: KnobState, cx: KnobContext, event: KnobEvent)
    requires
        mode_wf(state.mode),
        cx.wf(),
        event_wf(event),
    ensures
        writes_normalized(step_actions(state, cx, event)),
        mode_wf(step(state, cx, event).mode),
{
    let rule = spec_dispatch(state.mode, cx, event);
    match rule {
        Dispatch::DragMove(status, Some(pos), fine) => {
            NormalizedValue::lemma_clamped_view(
                status.drag_start_value@ + drag_delta(
                    status.drag_start_screen_pos.y - pos.y,
                    state.drag_scalar as int,
                    fine,
                ),
            );
        },
        _ => {},
    }
}

/// A parameter that holds a normalized value still holds one after
/// effects that write normalized values only.
pub proof fn lemma_value_after_normalized(actions: Seq<KnobAction>, before: NormalizedValue)
    requires
        writes_normalized(actions),
        before.is_normalized(),
    ensures
        value_after(actions, before).is_normalized(),
{
    lemma_value_upto_normalized(actions, actions.len() as int, before);
}

proof fn lemma_value_upto_normalized(actions: Seq<KnobAction>, n: int, before: NormalizedValue)
    requires
        writes_normalized(actions),
        before.is_normalized(),
        0 <= n <= actions.len(),
    ensures
        value_upto(actions, n, before).is_normalized(),
    decreases n,
{
    if n > 0 {
        lemma_value_upto_normalized(actions, n - 1, before);
        assert(actions[n - 1] matches KnobAction::SetNormalized(v) ==> v.is_normalized());
    }
}

/// Whatever is done to the knob, in whatever order, the parameter's value
/// lies in `[0, 1]` afterwards: every value written is normalized, and so
/// is the value that the parameter ends up with.
pub proof fn lemma_run_writes_normalized(
    state: KnobState,
    inputs: Seq<KnobInput>,
    before: NormalizedValue,
)
    requires
        mode_wf(state.mode),
        inputs_wf(inputs),
        before.is_normalized(),
    ensures
        writes_normalized(run_actions(state, inputs)),
        mode_wf(run(state, inputs).mode),
        value_after(run_actions(state, inputs), before).is_normalized(),
    decreases inputs.len(),
{
    if inputs.len() > 0 {
        let earlier = inputs.drop_last();
        let last = inputs.last();
        assert(inputs_wf(earlier)) by {
            assert forall|i: int| 0 <= i < earlier.len() implies (#[trigger] earlier[i]).0.wf()
                && event_wf(earlier[i].1) by {
                assert(earlier[i] == inputs[i]);
            }
        }
        lemma_run_writes_normalized(state, earlier, before);
        assert(last == inputs[inputs.len() - 1]);
        lemma_step_writes_normalized(run(state, earlier), last.0, last.1);
    }
    lemma_value_after_normalized(run_actions(state, inputs), before);
}

/// A knob is in exactly one mode: never in a drag session and in text
/// entry at once.
pub proof fn lemma_mode_exclusive(state: KnobState)
    ensures
        !(state.mode is Dragging && state.mode is TextEditing),
        state.mode is Idle || state.mode is Dragging || state.mode is TextEditing,
{
}

/// The legal transitions. Text entry and a drag session are entered from
/// rest only, and each is left for rest only, so neither can interrupt
/// the other.
pub proof fn lemma_step_transitions(state: KnobState, cx: KnobContext, event: KnobEvent)
    ensures
        step(state, cx, event).mode is TextEditing ==> state.mode is Idle
            || state.mode is TextEditing,
        step(state, cx, event).mode is Dragging ==> state.mode is Idle || step(
            state,
            cx,
            event,
        ).mode == state.mode,
        state.mode is Dragging ==> step(state, cx, event).mode is Idle || step(
            state,
            cx,
            event,
        ).mode == state.mode,
        state.mode is TextEditing ==> step(state, cx, event).mode is Idle || step(
            state,
            cx,
            event,
        ).mode is TextEditing,
        step(state, cx, event).drag_scalar == state.drag_scalar,
        step(state, cx, event).wheel_scalar == state.wheel_scalar,
        step(state, cx, event).centered == state.centered,
{
}

/// The position at which an input finds the cursor: a pointer move has
/// taken it to the position that the move reports, any other input has
/// left it where it was. Where a move reports no position the cursor is
/// somewhere unknown; the model keeps the old position and nothing is
/// claimed of it until a later move reports one.
pub open spec fn seen_cursor(input: KnobInput, at: ScreenPoint) -> ScreenPoint {
    match input.1 {
        KnobEvent::MouseMove => match input.0.cursor {
            Some(pos) => pos,
            None => at,
        },
        _ => at,
    }
}

/// The cursor's position after a sequence of inputs, when it was at
/// `start` before the first: each input finds the cursor where
/// `seen_cursor` says, and the host then carries out the effects.
pub open spec fn run_cursor(state: KnobState, inputs: Seq<KnobInput>, start: ScreenPoint) -> ScreenPoint
    decreases inputs.len(),
{
    if inputs.len() == 0 {
        start
    } else {
        cursor_after(
            step_actions(run(state, inputs.drop_last()), inputs.last().0, inputs.last().1),
            seen_cursor(inputs.last(), run_cursor(state, inputs.drop_last(), start)),
        )
    }
}

/// Each input of the sequence arrives while the drag session `status` is
/// open. The last input may close it.
pub open spec fn session_open_throughout(
    state: KnobState,
    inputs: Seq<KnobInput>,
    status: DragStatus,
) -> bool {
    forall|n: int|
        0 <= n < inputs.len() ==> (#[trigger] run(state, inputs.take(n))).mode
            == InteractionMode::Dragging(status)
}

/// The last pointer move of the sequence, if there is one, reported no
/// cursor position.
pub open spec fn last_move_unseen(inputs: Seq<KnobInput>) -> bool
    decreases inputs.len(),
{
    if inputs.len() == 0 {
        false
    } else {
        match inputs.last().1 {
            KnobEvent::MouseMove => inputs.last().0.cursor is None,
            _ => last_move_unseen(inputs.drop_last()),
        }
    }
}

/// The last pointer move of the sequence, if there is one, went sideways
/// only: it changed the cursor's column and left it on the row of
/// `origin`.
pub open spec fn ends_sideways(inputs: Seq<KnobInput>, origin: ScreenPoint) -> bool
    decreases inputs.len(),
{
    if inputs.len() == 0 {
        false
    } else {
        match inputs.last().1 {
            KnobEvent::MouseMove => match inputs.last().0.cursor {
                Some(pos) => pos.y == origin.y && pos.x != origin.x,
                None => false,
            },
            _ => ends_sideways(inputs.drop_last(), origin),
        }
    }
}

/// One pointer move during a drag session leaves the cursor on the row
/// where the session started, and on the very spot whenever the move had
/// any vertical travel.
pub proof fn lemma_move_recenters(
    status: DragStatus,
    pos: ScreenPoint,
    fine: bool,
    scalar: int,
)
    ensures
        cursor_after(drag_move_actions(status, Some(pos), fine, scalar), pos).y
            == status.drag_start_screen_pos.y,
        pos.y != status.drag_start_screen_pos.y ==> cursor_after(
            drag_move_actions(status, Some(pos), fine, scalar),
            pos,
        ) == status.drag_start_screen_pos,
{
    reveal_with_fuel(cursor_upto, 4);
}

/// Over a whole drag session the cursor does not travel, however far the
/// pointer was dragged. After any number of inputs it is on the row where
/// the session started, and on the very spot unless the last pointer move
/// went sideways only, which leaves it in another column. Nothing is
/// claimed when the last pointer move reported no position.
pub proof fn lemma_session_cursor_returns(
    state: KnobState,
    inputs: Seq<KnobInput>,
    status: DragStatus,
)
    requires
        session_open_throughout(state, inputs, status),
    ensures
        !last_move_unseen(inputs) ==> run_cursor(state, inputs, status.drag_start_screen_pos).y
            == status.drag_start_screen_pos.y,
        !last_move_unseen(inputs) && !ends_sideways(inputs, status.drag_start_screen_pos)
            ==> run_cursor(state, inputs, status.drag_start_screen_pos)
            == status.drag_start_screen_pos,
        ends_sideways(inputs, status.drag_start_screen_pos) ==> run_cursor(
            state,
            inputs,
            status.drag_start_screen_pos,
        ).x != status.drag_start_screen_pos.x,
    decreases inputs.len(),
{
    if inputs.len() > 0 {
        let earlier = inputs.drop_last();
        let last = inputs.last();
        assert(earlier =~= inputs.take(inputs.len() - 1));
        assert(session_open_throughout(state, earlier, status)) by {
            assert forall|n: int| 0 <= n < earlier.len() implies (#[trigger] run(
                state,
                earlier.take(n),
            )).mode == InteractionMode::Dragging(status) by {
                assert(earlier.take(n) =~= inputs.take(n));
            }
        }
        lemma_session_cursor_returns(state, earlier, status);
        let before = run(state, earlier);
        assert(before.mode == InteractionMode::Dragging(status)) by {
            assert(before == run(state, inputs.take(inputs.len() - 1)));
        }
        reveal_with_fuel(cursor_upto, 8);
    }
}

} // verus!
