use vstd::prelude::*;
use crate::context::{KnobContext, Modifiers};
use crate::value::NormalizedValue;
use crate::widgets::arc_track::{ArcGeometry, ArcTrack};
use crate::widgets::params_knob::{
    agree_on, lemma_dispatch_reads, spec_reads, step, step_actions, teardown_actions,
    InteractionMode, KnobAction, KnobEvent, KnobState, ParamKnob, Reads, DEFAULT_DRAG_SCALAR,
    DEFAULT_WHEEL_SCALAR, KNOB_ANGLE_END, KNOB_ANGLE_START,
};

verus! {

/// At most one knob is in a drag session.
pub open spec fn single_session(states: Seq<KnobState>) -> bool {
    forall|i: int, j: int|
        0 <= i < states.len() && 0 <= j < states.len() && (#[trigger] states[i]).mode is Dragging
            && (#[trigger] states[j]).mode is Dragging ==> i == j
}

/// A knob other than the one at `index` is in a drag session.
pub open spec fn other_dragging(states: Seq<KnobState>, index: int) -> bool {
    exists|j: int| 0 <= j < states.len() && j != index && (#[trigger] states[j]).mode is Dragging
}

/// The context as a knob sees it: the cursor is out of reach while
/// another knob holds it.
pub open spec fn masked(cx: KnobContext, blocked: bool) -> KnobContext {
    if blocked {
        KnobContext { cursor: None, ..cx }
    } else {
        cx
    }
}

/// The states after the knob at `index` has handled an event.
pub open spec fn group_step(
    states: Seq<KnobState>,
    index: int,
    cx: KnobContext,
    event: KnobEvent,
) -> Seq<KnobState> {
    states.update(index, step(states[index], masked(cx, other_dragging(states, index)), event))
}

/// The effects of the knob at `index` handling an event.
pub open spec fn group_actions(
    states: Seq<KnobState>,
    index: int,
    cx: KnobContext,
    event: KnobEvent,
) -> Seq<KnobAction> {
    step_actions(states[index], masked(cx, other_dragging(states, index)), event)
}

/// What of its context the knob at `index` depends on for an event: what
/// it would depend on alone, but for the cursor while another knob holds
/// it.
pub open spec fn group_reads(
    states: Seq<KnobState>,
    index: int,
    modifiers: Modifiers,
    event: KnobEvent,
) -> Reads {
    let alone = spec_reads(states[index].mode, modifiers, event);
    if other_dragging(states, index) {
        Reads { cursor: false, ..alone }
    } else {
        alone
    }
}

/// What a knob of a group does with an event depends on nothing of the
/// context but the modifiers and what `group_reads` names.
pub proof fn lemma_group_reads(
    states: Seq<KnobState>,
    index: int,
    a: KnobContext,
    b: KnobContext,
    event: KnobEvent,
)
    requires
        0 <= index < states.len(),
        agree_on(group_reads(states, index, a.modifiers, event), a, b),
    ensures
        group_step(states, index, a, event) == group_step(states, index, b, event),
        group_actions(states, index, a, event) == group_actions(states, index, b, event),
{
    let blocked = other_dragging(states, index);
    lemma_dispatch_reads(states[index].mode, masked(a, blocked), masked(b, blocked), event);
}

/// Handling an event in a group never leads to a second drag session.
pub proof fn lemma_group_step_single_session(
    states: Seq<KnobState>,
    index: int,
    cx: KnobContext,
    event: KnobEvent,
)
    requires
        0 <= index < states.len(),
        single_session(states),
    ensures
        single_session(group_step(states, index, cx, event)),
{
    let after = group_step(states, index, cx, event);
    assert forall|i: int, j: int|
        0 <= i < after.len() && 0 <= j < after.len() && (#[trigger] after[i]).mode is Dragging
            && (#[trigger] after[j]).mode is Dragging implies i == j by {
        if i != j {
            if i == index {
                assert(states[j].mode is Dragging);
                assert(other_dragging(states, index));
            } else if j == index {
                assert(states[i].mode is Dragging);
                assert(other_dragging(states, index));
            } else {
                assert(states[i].mode is Dragging && states[j].mode is Dragging);
            }
        }
    }
}

/// The knobs of one editing surface. They share the one OS cursor, so at
/// most one of them can be in a drag session: while one is, a click on
/// another opens none.
#[derive(Debug)]
pub struct KnobGroup {
    knobs: Vec<ParamKnob>,
}

impl View for KnobGroup {
    type V = Seq<KnobState>;

    closed spec fn view(&self) -> Seq<KnobState> {
        Seq::new(self.knobs@.len(), |i: int| self.knobs@[i]@)
    }
}

impl KnobGroup {
    /// A group without knobs.
    pub fn new() -> (group: KnobGroup)
        ensures
            group@ == Seq::<KnobState>::empty(),
            single_session(group@),
    {
        let group = KnobGroup { knobs: Vec::new() };
        assert(group@ =~= Seq::<KnobState>::empty());
        group
    }

    /// Adds a knob at rest and returns its index.
    pub fn add(&mut self, centered: bool) -> (index: usize)
        ensures
            index == old(self)@.len(),
            final(self)@ == old(self)@.push(
                KnobState {
                    mode: InteractionMode::Idle,
                    drag_scalar: DEFAULT_DRAG_SCALAR,
                    wheel_scalar: DEFAULT_WHEEL_SCALAR,
                    centered,
                },
            ),
            single_session(old(self)@) ==> single_session(final(self)@),
    {
        let index = self.knobs.len();
        self.knobs.push(ParamKnob::new(centered));
        assert(self@ =~= old(self)@.push(
            KnobState {
                mode: InteractionMode::Idle,
                drag_scalar: DEFAULT_DRAG_SCALAR,
                wheel_scalar: DEFAULT_WHEEL_SCALAR,
                centered,
            },
        ));
        index
    }

    /// How many knobs the group holds.
    pub fn len(&self) -> (n: usize)
        ensures
            n == self@.len(),
    {
        self.knobs.len()
    }

    /// What the knob at `index` is doing, if there is one.
    pub fn mode(&self, index: usize) -> (mode: Option<InteractionMode>)
        ensures
            mode == (if index < self@.len() {
                Some(self@[index as int].mode)
            } else {
                None
            }),
    {
        if index < self.knobs.len() {
            Some(self.knobs[index].mode())
        } else {
            None
        }
    }

    /// The arc that shows the value of the knob at `index`, if there is
    /// one.
    pub fn arc_track(&self, index: usize) -> (track: Option<ArcTrack>)
        ensures
            track is Some == (index < self@.len()),
            track matches Some(t) ==> t@.geometry == (ArcGeometry {
                angle_start: KNOB_ANGLE_START,
                angle_end: KNOB_ANGLE_END,
                centered: self@[index as int].centered,
            }) && t@.value == NormalizedValue::clamped(0),
    {
        if index < self.knobs.len() {
            Some(self.knobs[index].arc_track())
        } else {
            None
        }
    }

    /// Says what of its context the knob at `index` depends on for an
    /// event, if there is such a knob, so that the host reads no more
    /// than that.
    pub fn reads(&self, index: usize, modifiers: &Modifiers, event: &KnobEvent) -> (reads: Option<
        Reads,
    >)
        ensures
            reads == (if index < self@.len() {
                Some(group_reads(self@, index as int, *modifiers, *event))
            } else {
                None
            }),
    {
        if index >= self.knobs.len() {
            return None;
        }
        let alone = self.knobs[index].reads(modifiers, event);
        if self.other_dragging(index) {
            Some(
                Reads {
                    cursor: false,
                    value: alone.value,
                    default_value: alone.default_value,
                    step: alone.step,
                },
            )
        } else {
            Some(alone)
        }
    }

    /// Whether a knob other than the one at `index` is in a drag session.
    pub fn other_dragging(&self, index: usize) -> (busy: bool)
        ensures
            busy == other_dragging(self@, index as int),
    {
        let mut j: usize = 0;
        while j < self.knobs.len()
            invariant
                j <= self.knobs@.len(),
                forall|k: int| 0 <= k < j && k != index ==> !((#[trigger] self@[k]).mode is Dragging),
            decreases self.knobs@.len() - j,
        {
            if j != index {
                match self.knobs[j].mode() {
                    InteractionMode::Dragging(_) => {
                        assert(self@[j as int].mode is Dragging);
                        return true;
                    },
                    _ => {},
                }
            }
            j = j + 1;
        }
        false
    }

    /// Lets the knob at `index` handle one event and returns its effects.
    /// The knob cannot reach the cursor while another knob is in a drag
    /// session. The other knobs stay as they are. Without a knob at
    /// `index` nothing happens.
    pub fn event(&mut self, index: usize, cx: &KnobContext, event: &KnobEvent) -> (actions: Option<
        Vec<KnobAction>,
    >)
        ensures
            index >= old(self)@.len() ==> actions is None && final(self)@ == old(self)@,
            index < old(self)@.len() ==> actions is Some && actions->0@ == group_actions(
                old(self)@,
                index as int,
                *cx,
                *event,
            ) && final(self)@ == group_step(old(self)@, index as int, *cx, *event),
            single_session(old(self)@) ==> single_session(final(self)@),
    {
        if index >= self.knobs.len() {
            return None;
        }
        let blocked = self.other_dragging(index);
        let seen = if blocked {
            KnobContext { modifiers: cx.modifiers, cursor: None, param: cx.param }
        } else {
            *cx
        };
        let mut knob = self.knobs[index];
        let actions = knob.event(&seen, event);
        self.knobs.set(index, knob);
        proof {
            assert(self@ =~= group_step(old(self)@, index as int, *cx, *event));
            if single_session(old(self)@) {
                lemma_group_step_single_session(old(self)@, index as int, *cx, *event);
            }
        }
        Some(actions)
    }

    /// Brings the knob at `index` to rest when its widget goes away and
    /// returns the effects that this asks for. The other knobs stay as
    /// they are. Without a knob at `index` nothing happens.
    pub fn teardown(&mut self, index: usize) -> (actions: Option<Vec<KnobAction>>)
        ensures
            index >= old(self)@.len() ==> actions is None && final(self)@ == old(self)@,
            index < old(self)@.len() ==> actions is Some && actions->0@ == teardown_actions(
                old(self)@[index as int].mode,
            ) && final(self)@ == old(self)@.update(
                index as int,
                KnobState { mode: InteractionMode::Idle, ..old(self)@[index as int] },
            ),
            single_session(old(self)@) ==> single_session(final(self)@),
    {
        if index >= self.knobs.len() {
            return None;
        }
        let mut knob = self.knobs[index];
        let actions = knob.teardown();
        self.knobs.set(index, knob);
        proof {
            let after = old(self)@.update(
                index as int,
                KnobState { mode: InteractionMode::Idle, ..old(self)@[index as int] },
            );
            assert(self@ =~= after);
            if single_session(old(self)@) {
                assert forall|i: int, j: int|
                    0 <= i < after.len() && 0 <= j < after.len() && (#[trigger] after[i]).mode
                        is Dragging && (#[trigger] after[j]).mode is Dragging implies i == j by {
                    assert(old(self)@[i].mode is Dragging && old(self)@[j].mode is Dragging);
                }
            }
        }
        Some(actions)
    }
}

} // verus!
