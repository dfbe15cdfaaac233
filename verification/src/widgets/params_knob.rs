use vstd::prelude::*;
use crate::context::{KnobContext, Modifiers, MouseButton, ParamSnapshot, ScreenPoint};
use crate::value::NormalizedValue;
use crate::widgets::arc_track::{ArcGeometry, ArcTrack};
use crate::widgets::knob_trace::{
    begin_count, begins_upto, end_count, ends_upto, lemma_step_gesture_pairing,
    lemma_step_writes_inside_gestures, lemma_step_writes_normalized, open_gestures,
    writes_inside_gestures, writes_normalized,
};

verus! {

/// Steps of value change per pixel of vertical pointer travel
/// (`0.0042` of the whole range).
pub const DEFAULT_DRAG_SCALAR: u32 = 4_200;

/// Steps of value change per wheel notch for a parameter that names no
/// steps of its own (`0.005` of the whole range). The knob itself never
/// reads it: the size of a wheel step is the parameter's to say.
pub const DEFAULT_WHEEL_SCALAR: u32 = 5_000;

/// Where a knob's arc starts, in whole degrees clockwise from straight
/// up.
pub const KNOB_ANGLE_START: i32 = -150;

/// Where a knob's arc ends, in whole degrees clockwise from straight up.
pub const KNOB_ANGLE_END: i32 = 150;

/// One drag session: where the pointer was on screen and what the value
/// was when the primary button went down.
#[derive(Clone, Copy, Debug, PartialEq, Eq, Structural)]
pub struct DragStatus {
    pub drag_start_value: NormalizedValue,
    pub drag_start_screen_pos: ScreenPoint,
}

/// What the control is currently doing. A drag session exists exactly
/// while the mode is `Dragging`, and a drag and a text entry cannot be
/// active together because one value holds the mode.
#[derive(Clone, Copy, Debug, PartialEq, Eq, Structural)]
pub enum InteractionMode {
    Idle,
    Dragging(DragStatus),
    TextEditing,
}

/// An input event delivered to the control.
#[derive(Clone, Copy, Debug, PartialEq, Eq, Structural)]
pub enum KnobEvent {
    MouseDown(MouseButton),
    MouseDoubleClick(MouseButton),
    MouseTripleClick(MouseButton),
    MouseUp(MouseButton),
    /// The pointer moved; its position is read from the context.
    MouseMove,
    /// One wheel notch: positive is up, negative is down, zero is no
    /// movement.
    MouseScroll(i32),
    /// The typed text was submitted; the payload is what the parameter made
    /// of it, or `None` when it could not be parsed.
    TextInput(Option<NormalizedValue>),
    /// The typed entry was cancelled or lost focus.
    CancelTextInput,
}

/// An effect that the control asks its host to perform, in order.
#[derive(Clone, Copy, Debug, PartialEq, Eq, Structural)]
pub enum KnobAction {
    /// Tell the host that an edit of the parameter starts.
    BeginGesture,
    /// Write the parameter through its atomic setter.
    SetNormalized(NormalizedValue),
    /// Tell the host that the edit is over.
    EndGesture,
    /// Take exclusive pointer capture.
    CapturePointer,
    /// Give pointer capture back.
    ReleasePointer,
    /// Hide the OS cursor.
    HideCursor,
    /// Make the OS cursor visible again.
    ShowCursor,
    /// Put the OS cursor at a screen position. A failure is cosmetic.
    SetCursorPosition(ScreenPoint),
    /// Give the control keyboard focus.
    Focus,
    /// Mark the control as active or not.
    SetActive(bool),
    /// Give input focus to the text entry.
    FocusTextEntry,
    /// Fill the text entry with the display string of a value.
    PrefillText(NormalizedValue),
    /// Select all of the text in the entry.
    SelectAllText,
    /// Stop the event from travelling further.
    Consume,
}

/// The one rule that an event falls under, with what the rule needs.
#[derive(Clone, Copy, Debug, PartialEq, Eq, Structural)]
pub enum Dispatch {
    /// No rule matches: nothing happens and the event is not consumed.
    Ignore,
    /// Write the default value as one gesture.
    Reset(NormalizedValue),
    /// Open the text entry, filled from the current value.
    EnterTextEntry(NormalizedValue),
    /// Open a drag session.
    BeginDrag(DragStatus),
    /// The pointer moved during a drag session; the position is `None`
    /// when it could not be read.
    DragMove(DragStatus, Option<ScreenPoint>, bool),
    /// Close the drag session.
    EndDrag(DragStatus),
    /// Write the value one wheel notch away as one gesture.
    Step(NormalizedValue),
    /// Close the text entry with the parsed text, if it parsed.
    SubmitText(Option<NormalizedValue>),
    /// Close the text entry and leave the value alone.
    CancelText,
}

/// The absolute value of `x`.
pub open spec fn magnitude(x: int) -> int {
    if x < 0 {
        -x
    } else {
        x
    }
}

/// The change in steps for a vertical pointer travel of `dy` pixels
/// (positive is up). The fine modifier scales the change by one tenth,
/// rounded towards zero.
pub open spec fn drag_delta(dy: int, scalar: int, fine: bool) -> int {
    let full = magnitude(dy) * scalar;
    let size = if fine {
        full / 10
    } else {
        full
    };
    if dy < 0 {
        -size
    } else {
        size
    }
}

/// What `drag_delta` is in real numbers: the travel times the scalar,
/// and a tenth of that with the fine modifier, short of it by less than
/// one step. Dragging down by some travel undoes dragging up by it.
pub proof fn lemma_drag_delta(dy: int, scalar: int, fine: bool)
    requires
        0 <= scalar,
    ensures
        !fine ==> drag_delta(dy, scalar, fine) == dy * scalar,
        fine ==> magnitude(dy * scalar) - 9 <= 10 * magnitude(drag_delta(dy, scalar, fine))
            <= magnitude(dy * scalar),
        drag_delta(-dy, scalar, fine) == -drag_delta(dy, scalar, fine),
        dy >= 0 ==> drag_delta(dy, scalar, fine) >= 0,
        dy <= 0 ==> drag_delta(dy, scalar, fine) <= 0,
{
    let full = magnitude(dy) * scalar;
    assert(full >= 0) by (nonlinear_arith)
        requires
            full == magnitude(dy) * scalar,
            magnitude(dy) >= 0,
            scalar >= 0,
    ;
    assert(magnitude(dy * scalar) == full && (dy >= 0 ==> dy * scalar == full) && (dy < 0
        ==> dy * scalar == -full)) by (nonlinear_arith)
        requires
            full == magnitude(dy) * scalar,
            magnitude(dy) == (if dy < 0 {
                -dy
            } else {
                dy
            }),
            magnitude(dy * scalar) == (if dy * scalar < 0 {
                -(dy * scalar)
            } else {
                dy * scalar
            }),
            scalar >= 0,
    ;
    assert(magnitude(-dy) * scalar == full) by {
        assert(magnitude(-dy) == magnitude(dy));
    }
    if dy == 0 {
        assert(full == 0) by (nonlinear_arith)
            requires
                full == magnitude(dy) * scalar,
                magnitude(dy) == 0,
        ;
    }
}

/// The value that a drag session writes when the pointer is at `cursor`:
/// the value at drag start plus the scaled travel, clamped.
pub open spec fn drag_target(
    status: DragStatus,
    cursor: ScreenPoint,
    scalar: int,
    fine: bool,
) -> NormalizedValue {
    NormalizedValue::clamped(
        status.drag_start_value@ + drag_delta(
            status.drag_start_screen_pos.y - cursor.y,
            scalar,
            fine,
        ),
    )
}

/// The rule for a primary click, in priority order: reset, then text
/// entry, then drag.
pub open spec fn primary_click(mode: InteractionMode, cx: KnobContext) -> Dispatch {
    if cx.modifiers.reset {
        Dispatch::Reset(cx.param.default_value)
    } else if cx.modifiers.text_entry {
        if mode is Idle {
            Dispatch::EnterTextEntry(cx.param.value)
        } else {
            Dispatch::Ignore
        }
    } else if mode is Idle {
        match cx.cursor {
            Some(pos) => Dispatch::BeginDrag(
                DragStatus { drag_start_value: cx.param.value, drag_start_screen_pos: pos },
            ),
            None => Dispatch::Ignore,
        }
    } else {
        Dispatch::Ignore
    }
}

/// The rule that an event falls under in a given mode. The first rule
/// that matches wins.
pub open spec fn spec_dispatch(mode: InteractionMode, cx: KnobContext, event: KnobEvent) -> Dispatch {
    match event {
        KnobEvent::MouseDown(MouseButton::Left) => primary_click(mode, cx),
        KnobEvent::MouseTripleClick(MouseButton::Left) => primary_click(mode, cx),
        KnobEvent::MouseDoubleClick(MouseButton::Left) => Dispatch::Reset(cx.param.default_value),
        KnobEvent::MouseDown(MouseButton::Right) => Dispatch::Reset(cx.param.default_value),
        KnobEvent::MouseUp(MouseButton::Left) => {
            match mode {
                InteractionMode::Dragging(status) => Dispatch::EndDrag(status),
                _ => Dispatch::Ignore,
            }
        },
        KnobEvent::MouseMove => {
            match mode {
                InteractionMode::Dragging(status) => Dispatch::DragMove(
                    status,
                    cx.cursor,
                    cx.modifiers.fine,
                ),
                _ => Dispatch::Ignore,
            }
        },
        KnobEvent::MouseScroll(direction) => {
            if direction != 0 && mode is Idle {
                Dispatch::Step(cx.param.spec_step(direction > 0, cx.modifiers.fine))
            } else {
                Dispatch::Ignore
            }
        },
        KnobEvent::TextInput(parsed) => {
            if mode is TextEditing {
                Dispatch::SubmitText(parsed)
            } else {
                Dispatch::Ignore
            }
        },
        KnobEvent::CancelTextInput => {
            if mode is TextEditing {
                Dispatch::CancelText
            } else {
                Dispatch::Ignore
            }
        },
        _ => Dispatch::Ignore,
    }
}

/// One wheel step that an event asks the parameter for.
#[derive(Clone, Copy, Debug, PartialEq, Eq, Structural)]
pub struct StepQuery {
    pub up: bool,
    pub fine: bool,
}

/// What of its context the rule for an event depends on, besides the
/// modifiers. The host need not read the rest.
#[derive(Clone, Copy, Debug, PartialEq, Eq, Structural)]
pub struct Reads {
    /// The position of the OS cursor.
    pub cursor: bool,
    /// The parameter's current value.
    pub value: bool,
    /// The parameter's default value.
    pub default_value: bool,
    /// One wheel step of the parameter.
    pub step: Option<StepQuery>,
}

/// The rule depends on the modifiers alone.
pub open spec fn reads_nothing() -> Reads {
    Reads { cursor: false, value: false, default_value: false, step: None }
}

/// What a primary click depends on: a reset on the default value, the
/// text entry on the current value, a drag on the cursor and on the
/// current value.
pub open spec fn primary_click_reads(mode: InteractionMode, modifiers: Modifiers) -> Reads {
    if modifiers.reset {
        Reads { default_value: true, ..reads_nothing() }
    } else if !(mode is Idle) {
        reads_nothing()
    } else if modifiers.text_entry {
        Reads { value: true, ..reads_nothing() }
    } else {
        Reads { cursor: true, value: true, ..reads_nothing() }
    }
}

/// What of its context the rule for an event depends on in a given mode.
pub open spec fn spec_reads(mode: InteractionMode, modifiers: Modifiers, event: KnobEvent) -> Reads {
    match event {
        KnobEvent::MouseDown(MouseButton::Left) => primary_click_reads(mode, modifiers),
        KnobEvent::MouseTripleClick(MouseButton::Left) => primary_click_reads(mode, modifiers),
        KnobEvent::MouseDoubleClick(MouseButton::Left) => Reads {
            default_value: true,
            ..reads_nothing()
        },
        KnobEvent::MouseDown(MouseButton::Right) => Reads {
            default_value: true,
            ..reads_nothing()
        },
        KnobEvent::MouseMove => {
            if mode is Dragging {
                Reads { cursor: true, ..reads_nothing() }
            } else {
                reads_nothing()
            }
        },
        KnobEvent::MouseScroll(direction) => {
            if direction != 0 && mode is Idle {
                Reads {
                    step: Some(StepQuery { up: direction > 0, fine: modifiers.fine }),
                    ..reads_nothing()
                }
            } else {
                reads_nothing()
            }
        },
        _ => reads_nothing(),
    }
}

/// Two contexts have the same modifiers and are the same in all that
/// `reads` names.
pub open spec fn agree_on(reads: Reads, a: KnobContext, b: KnobContext) -> bool {
    &&& a.modifiers == b.modifiers
    &&& reads.cursor ==> a.cursor == b.cursor
    &&& reads.value ==> a.param.value == b.param.value
    &&& reads.default_value ==> a.param.default_value == b.param.default_value
    &&& reads.step matches Some(query) ==> a.param.spec_step(query.up, query.fine)
        == b.param.spec_step(query.up, query.fine)
}

/// The rule for an event depends on nothing of the context but the
/// modifiers and what `spec_reads` names: two contexts that agree on
/// these lead to the same rule.
pub proof fn lemma_dispatch_reads(
    mode: InteractionMode,
    a: KnobContext,
    b: KnobContext,
    event: KnobEvent,
)
    requires
        agree_on(spec_reads(mode, a.modifiers, event), a, b),
    ensures
        spec_dispatch(mode, a, event) == spec_dispatch(mode, b, event),
{
}

/// The mode after a rule has been carried out.
pub open spec fn mode_after(mode: InteractionMode, rule: Dispatch) -> InteractionMode {
    match rule {
        Dispatch::Ignore => mode,
        Dispatch::Reset(_) => mode,
        Dispatch::EnterTextEntry(_) => InteractionMode::TextEditing,
        Dispatch::BeginDrag(status) => InteractionMode::Dragging(status),
        Dispatch::DragMove(_, _, _) => mode,
        Dispatch::EndDrag(_) => InteractionMode::Idle,
        Dispatch::Step(_) => mode,
        Dispatch::SubmitText(_) => InteractionMode::Idle,
        Dispatch::CancelText => InteractionMode::Idle,
    }
}

/// One atomic write: a gesture that holds exactly one value.
pub open spec fn atomic_write(value: NormalizedValue) -> Seq<KnobAction> {
    seq![
        KnobAction::BeginGesture,
        KnobAction::SetNormalized(value),
        KnobAction::EndGesture,
        KnobAction::Consume,
    ]
}

/// What opening the text entry asks of the host.
pub open spec fn enter_text_actions(current: NormalizedValue) -> Seq<KnobAction> {
    seq![
        KnobAction::SetActive(true),
        KnobAction::FocusTextEntry,
        KnobAction::PrefillText(current),
        KnobAction::SelectAllText,
        KnobAction::Consume,
    ]
}

/// What opening a drag session asks of the host.
pub open spec fn begin_drag_actions() -> Seq<KnobAction> {
    seq![
        KnobAction::CapturePointer,
        KnobAction::Focus,
        KnobAction::SetActive(true),
        KnobAction::HideCursor,
        KnobAction::BeginGesture,
        KnobAction::Consume,
    ]
}

/// What a pointer move during a drag session asks of the host. Without
/// vertical travel, or without a cursor position, nothing is written and
/// the cursor is left alone; otherwise the new value is written first and
/// the cursor is then put back where the session started.
pub open spec fn drag_move_actions(
    status: DragStatus,
    cursor: Option<ScreenPoint>,
    fine: bool,
    scalar: int,
) -> Seq<KnobAction> {
    match cursor {
        Some(pos) => {
            if pos.y == status.drag_start_screen_pos.y {
                seq![KnobAction::Consume]
            } else {
                seq![
                    KnobAction::SetNormalized(drag_target(status, pos, scalar, fine)),
                    KnobAction::SetCursorPosition(status.drag_start_screen_pos),
                    KnobAction::Consume,
                ]
            }
        },
        None => seq![KnobAction::Consume],
    }
}

/// What closing a drag session asks of the host.
pub open spec fn end_drag_actions() -> Seq<KnobAction> {
    seq![
        KnobAction::ReleasePointer,
        KnobAction::ShowCursor,
        KnobAction::SetActive(false),
        KnobAction::EndGesture,
        KnobAction::Consume,
    ]
}

/// What closing the text entry asks of the host: a parsed value is
/// written as one gesture, an unparsed one is dropped in silence.
pub open spec fn submit_text_actions(parsed: Option<NormalizedValue>) -> Seq<KnobAction> {
    match parsed {
        Some(value) => seq![
            KnobAction::BeginGesture,
            KnobAction::SetNormalized(value),
            KnobAction::EndGesture,
            KnobAction::SetActive(false),
            KnobAction::Consume,
        ],
        None => cancel_text_actions(),
    }
}

/// What cancelling the text entry asks of the host.
pub open spec fn cancel_text_actions() -> Seq<KnobAction> {
    seq![KnobAction::SetActive(false), KnobAction::Consume]
}

/// The effects of carrying out a rule, in order.
pub open spec fn actions_of(rule: Dispatch, scalar: int) -> Seq<KnobAction> {
    match rule {
        Dispatch::Ignore => Seq::empty(),
        Dispatch::Reset(value) => atomic_write(value),
        Dispatch::EnterTextEntry(current) => enter_text_actions(current),
        Dispatch::BeginDrag(_) => begin_drag_actions(),
        Dispatch::DragMove(status, cursor, fine) => drag_move_actions(status, cursor, fine, scalar),
        Dispatch::EndDrag(_) => end_drag_actions(),
        Dispatch::Step(value) => atomic_write(value),
        Dispatch::SubmitText(parsed) => submit_text_actions(parsed),
        Dispatch::CancelText => cancel_text_actions(),
    }
}

impl DragStatus {
    /// Opens a drag session at `screen_pos` with the value the parameter
    /// has now, and says what the host must do for it: capture the
    /// pointer, hide the cursor and open a gesture.
    pub fn begin(screen_pos: ScreenPoint, current_value: NormalizedValue) -> (r: (
        DragStatus,
        Vec<KnobAction>,
    ))
        ensures
            r.0 == (DragStatus {
                drag_start_value: current_value,
                drag_start_screen_pos: screen_pos,
            }),
            r.1@ == begin_drag_actions(),
    {
        let status = DragStatus {
            drag_start_value: current_value,
            drag_start_screen_pos: screen_pos,
        };
        let actions = vec![
            KnobAction::CapturePointer,
            KnobAction::Focus,
            KnobAction::SetActive(true),
            KnobAction::HideCursor,
            KnobAction::BeginGesture,
            KnobAction::Consume,
        ];
        (status, actions)
    }

    /// The value to write when the pointer is at `cursor`.
    pub fn target(&self, cursor: ScreenPoint, fine: bool, drag_scalar: u32) -> (v: NormalizedValue)
        ensures
            v == drag_target(*self, cursor, drag_scalar as int, fine),
            v.is_normalized(),
    {
        let dy: i64 = self.drag_start_screen_pos.y as i64 - cursor.y as i64;
        let travel: u64 = if dy < 0 {
            (-dy) as u64
        } else {
            dy as u64
        };
        assert(travel * drag_scalar <= 0xffff_ffff * 0xffff_ffff) by (nonlinear_arith)
            requires
                0 <= travel <= 0xffff_ffff,
                0 <= drag_scalar <= 0xffff_ffff,
        ;
        let full: u64 = travel * (drag_scalar as u64);
        let size: u64 = if fine {
            full / 10
        } else {
            full
        };
        let delta: i128 = if dy < 0 {
            -(size as i128)
        } else {
            size as i128
        };
        self.drag_start_value.offset(delta)
    }

    /// Handles a pointer move during the session. With vertical travel the
    /// new value is written and the cursor is put back at the session's
    /// origin; without it, or without a cursor position, nothing changes.
    pub fn on_pointer_move(
        &self,
        cursor: Option<ScreenPoint>,
        fine: bool,
        drag_scalar: u32,
    ) -> (actions: Vec<KnobAction>)
        ensures
            actions@ == drag_move_actions(*self, cursor, fine, drag_scalar as int),
    {
        match cursor {
            Some(pos) => {
                if pos.y == self.drag_start_screen_pos.y {
                    vec![KnobAction::Consume]
                } else {
                    let value = self.target(pos, fine, drag_scalar);
                    vec![
                        KnobAction::SetNormalized(value),
                        KnobAction::SetCursorPosition(self.drag_start_screen_pos),
                        KnobAction::Consume,
                    ]
                }
            },
            None => vec![KnobAction::Consume],
        }
    }

    /// Closes the session and says what the host must do for it: release
    /// the pointer, show the cursor and close the gesture.
    pub fn end(self) -> (actions: Vec<KnobAction>)
        ensures
            actions@ == end_drag_actions(),
    {
        vec![
            KnobAction::ReleasePointer,
            KnobAction::ShowCursor,
            KnobAction::SetActive(false),
            KnobAction::EndGesture,
            KnobAction::Consume,
        ]
    }
}

/// Writes `value` as one gesture of its own.
pub fn write_atomically(value: NormalizedValue) -> (actions: Vec<KnobAction>)
    ensures
        actions@ == atomic_write(value),
{
    vec![
        KnobAction::BeginGesture,
        KnobAction::SetNormalized(value),
        KnobAction::EndGesture,
        KnobAction::Consume,
    ]
}

/// Handles one wheel notch: a positive direction writes the next step
/// above the current value, any other the next step below it, each notch
/// as a gesture of its own.
pub fn on_scroll(param: &ParamSnapshot, direction: i32, fine: bool) -> (actions: Vec<KnobAction>)
    ensures
        actions@ == atomic_write(param.spec_step(direction > 0, fine)),
{
    write_atomically(param.step(direction > 0, fine))
}

/// Writes the parameter's default value as one gesture.
pub fn reset_to_default(param: &ParamSnapshot) -> (actions: Vec<KnobAction>)
    ensures
        actions@ == atomic_write(param.default_value),
{
    write_atomically(param.default_value)
}

/// Opens the text entry: it takes focus, shows the current value and has
/// all of its text selected.
pub fn enter_text_entry(current: NormalizedValue) -> (actions: Vec<KnobAction>)
    ensures
        actions@ == enter_text_actions(current),
{
    vec![
        KnobAction::SetActive(true),
        KnobAction::FocusTextEntry,
        KnobAction::PrefillText(current),
        KnobAction::SelectAllText,
        KnobAction::Consume,
    ]
}

/// Closes the text entry without touching the value.
pub fn cancel_text() -> (actions: Vec<KnobAction>)
    ensures
        actions@ == cancel_text_actions(),
{
    vec![KnobAction::SetActive(false), KnobAction::Consume]
}

/// Closes the text entry on submit. Text that parsed is written as one
/// gesture; text that did not parse counts as a cancel.
pub fn submit_text(parsed: Option<NormalizedValue>) -> (actions: Vec<KnobAction>)
    ensures
        actions@ == submit_text_actions(parsed),
{
    match parsed {
        Some(value) => vec![
            KnobAction::BeginGesture,
            KnobAction::SetNormalized(value),
            KnobAction::EndGesture,
            KnobAction::SetActive(false),
            KnobAction::Consume,
        ],
        None => cancel_text(),
    }
}

impl Dispatch {
    /// Carries the rule out: the effects it asks of the host, in order.
    pub fn actions(&self, drag_scalar: u32) -> (actions: Vec<KnobAction>)
        ensures
            actions@ == actions_of(*self, drag_scalar as int),
    {
        match *self {
            Dispatch::Ignore => Vec::new(),
            Dispatch::Reset(value) => write_atomically(value),
            Dispatch::EnterTextEntry(current) => enter_text_entry(current),
            Dispatch::BeginDrag(status) => {
                let (_, actions) = DragStatus::begin(
                    status.drag_start_screen_pos,
                    status.drag_start_value,
                );
                actions
            },
            Dispatch::DragMove(status, cursor, fine) => status.on_pointer_move(
                cursor,
                fine,
                drag_scalar,
            ),
            Dispatch::EndDrag(status) => status.end(),
            Dispatch::Step(value) => write_atomically(value),
            Dispatch::SubmitText(parsed) => submit_text(parsed),
            Dispatch::CancelText => cancel_text(),
        }
    }
}

impl Dispatch {
    /// The mode that the control is in once the rule has been carried out.
    pub fn next_mode(&self, mode: InteractionMode) -> (next: InteractionMode)
        ensures
            next == mode_after(mode, *self),
    {
        match *self {
            Dispatch::Ignore => mode,
            Dispatch::Reset(_) => mode,
            Dispatch::EnterTextEntry(_) => InteractionMode::TextEditing,
            Dispatch::BeginDrag(status) => InteractionMode::Dragging(status),
            Dispatch::DragMove(_, _, _) => mode,
            Dispatch::EndDrag(_) => InteractionMode::Idle,
            Dispatch::Step(_) => mode,
            Dispatch::SubmitText(_) => InteractionMode::Idle,
            Dispatch::CancelText => InteractionMode::Idle,
        }
    }
}

/// The abstract state of a knob: its mode and its fixed configuration.
pub struct KnobState {
    pub mode: InteractionMode,
    pub drag_scalar: u32,
    pub wheel_scalar: u32,
    pub centered: bool,
}

/// The state after an event has been handled. Only the mode can change.
pub open spec fn step(state: KnobState, cx: KnobContext, event: KnobEvent) -> KnobState {
    KnobState { mode: mode_after(state.mode, spec_dispatch(state.mode, cx, event)), ..state }
}

/// The effects that handling an event asks of the host, in order.
pub open spec fn step_actions(state: KnobState, cx: KnobContext, event: KnobEvent) -> Seq<
    KnobAction,
> {
    actions_of(spec_dispatch(state.mode, cx, event), state.drag_scalar as int)
}

/// The effects that tearing the control down asks of the host: an open
/// drag session is closed as a button release would close it, but for the
/// event that is not there to consume; an open text entry is dropped.
pub open spec fn teardown_actions(mode: InteractionMode) -> Seq<KnobAction> {
    match mode {
        InteractionMode::Idle => Seq::empty(),
        InteractionMode::Dragging(_) => seq![
            KnobAction::ReleasePointer,
            KnobAction::ShowCursor,
            KnobAction::SetActive(false),
            KnobAction::EndGesture,
        ],
        InteractionMode::TextEditing => seq![KnobAction::SetActive(false)],
    }
}

/// A continuous-value control that is adjusted by dragging, by the wheel
/// or by typed text.
///
/// The knob decides; it performs nothing itself. Each event is answered
/// with the list of effects that the host has to carry out in order.
#[derive(Clone, Copy, Debug)]
pub struct ParamKnob {
    mode: InteractionMode,
    drag_scalar: u32,
    wheel_scalar: u32,
    centered: bool,
}

impl View for ParamKnob {
    type V = KnobState;

    closed spec fn view(&self) -> KnobState {
        KnobState {
            mode: self.mode,
            drag_scalar: self.drag_scalar,
            wheel_scalar: self.wheel_scalar,
            centered: self.centered,
        }
    }
}

impl ParamKnob {
    /// A knob at rest, with the default scalars. `centered` says whether
    /// its arc is drawn from the middle of the track.
    pub fn new(centered: bool) -> (knob: ParamKnob)
        ensures
            knob@ == (KnobState {
                mode: InteractionMode::Idle,
                drag_scalar: DEFAULT_DRAG_SCALAR,
                wheel_scalar: DEFAULT_WHEEL_SCALAR,
                centered,
            }),
    {
        ParamKnob {
            mode: InteractionMode::Idle,
            drag_scalar: DEFAULT_DRAG_SCALAR,
            wheel_scalar: DEFAULT_WHEEL_SCALAR,
            centered,
        }
    }

    /// The arc that shows the knob's value: it spans the knob's angles,
    /// grows from the middle if the knob is centered, and shows zero
    /// until it is told the value.
    pub fn arc_track(&self) -> (track: ArcTrack)
        ensures
            track@.geometry == (ArcGeometry {
                angle_start: KNOB_ANGLE_START,
                angle_end: KNOB_ANGLE_END,
                centered: self@.centered,
            }),
            track@.value == NormalizedValue::clamped(0),
    {
        ArcTrack::new(self.centered, KNOB_ANGLE_START, KNOB_ANGLE_END)
    }

    /// What the knob is currently doing.
    pub fn mode(&self) -> (mode: InteractionMode)
        ensures
            mode == self@.mode,
    {
        self.mode
    }

    /// Steps of value change per pixel of drag.
    pub fn drag_scalar(&self) -> (scalar: u32)
        ensures
            scalar == self@.drag_scalar,
    {
        self.drag_scalar
    }

    /// Steps of value change per wheel notch where the parameter names
    /// none.
    pub fn wheel_scalar(&self) -> (scalar: u32)
        ensures
            scalar == self@.wheel_scalar,
    {
        self.wheel_scalar
    }

    /// Whether the arc is drawn from the middle of the track.
    pub fn centered(&self) -> (centered: bool)
        ensures
            centered == self@.centered,
    {
        self.centered
    }

    /// Whether the text entry is open.
    pub fn text_input_active(&self) -> (active: bool)
        ensures
            active == (self@.mode is TextEditing),
    {
        match self.mode {
            InteractionMode::TextEditing => true,
            _ => false,
        }
    }

    /// The open drag session, if there is one.
    pub fn drag_status(&self) -> (status: Option<DragStatus>)
        ensures
            status == (match self@.mode {
                InteractionMode::Dragging(s) => Some(s),
                _ => None,
            }),
    {
        match self.mode {
            InteractionMode::Dragging(s) => Some(s),
            _ => None,
        }
    }

    /// Says what of its context the rule for `event` depends on, so that
    /// the host reads no more than that: the cursor on a plain press at
    /// rest and on a move during a drag, the one wheel step that a notch
    /// writes, the default value for a reset.
    pub fn reads(&self, modifiers: &Modifiers, event: &KnobEvent) -> (reads: Reads)
        ensures
            reads == spec_reads(self@.mode, *modifiers, *event),
    {
        let nothing = Reads { cursor: false, value: false, default_value: false, step: None };
        let reset = Reads { cursor: false, value: false, default_value: true, step: None };
        let idle = match self.mode {
            InteractionMode::Idle => true,
            _ => false,
        };
        let primary = if modifiers.reset {
            reset
        } else if !idle {
            nothing
        } else if modifiers.text_entry {
            Reads { cursor: false, value: true, default_value: false, step: None }
        } else {
            Reads { cursor: true, value: true, default_value: false, step: None }
        };
        match *event {
            KnobEvent::MouseDown(MouseButton::Left) => primary,
            KnobEvent::MouseTripleClick(MouseButton::Left) => primary,
            KnobEvent::MouseDoubleClick(MouseButton::Left) => reset,
            KnobEvent::MouseDown(MouseButton::Right) => reset,
            KnobEvent::MouseMove => {
                match self.mode {
                    InteractionMode::Dragging(_) => Reads {
                        cursor: true,
                        value: false,
                        default_value: false,
                        step: None,
                    },
                    _ => nothing,
                }
            },
            KnobEvent::MouseScroll(direction) => {
                if direction != 0 && idle {
                    Reads {
                        cursor: false,
                        value: false,
                        default_value: false,
                        step: Some(StepQuery { up: direction > 0, fine: modifiers.fine }),
                    }
                } else {
                    nothing
                }
            },
            _ => nothing,
        }
    }

    /// Finds the rule that `event` falls under. The guards are tried in a
    /// fixed order and the first that holds wins: a primary click resets
    /// with the reset modifier, opens the text entry with the text
    /// modifier, and otherwise opens a drag session, the last two only
    /// from rest; a double primary click and a secondary click reset; the
    /// wheel steps only at rest.
    pub fn dispatch(&self, cx: &KnobContext, event: &KnobEvent) -> (rule: Dispatch)
        ensures
            rule == spec_dispatch(self@.mode, *cx, *event),
    {
        match *event {
            KnobEvent::MouseDown(MouseButton::Left) => self.primary_click(cx),
            KnobEvent::MouseTripleClick(MouseButton::Left) => self.primary_click(cx),
            KnobEvent::MouseDoubleClick(MouseButton::Left) => Dispatch::Reset(
                cx.param.default_value,
            ),
            KnobEvent::MouseDown(MouseButton::Right) => Dispatch::Reset(cx.param.default_value),
            KnobEvent::MouseUp(MouseButton::Left) => {
                match self.mode {
                    InteractionMode::Dragging(status) => Dispatch::EndDrag(status),
                    _ => Dispatch::Ignore,
                }
            },
            KnobEvent::MouseMove => {
                match self.mode {
                    InteractionMode::Dragging(status) => Dispatch::DragMove(
                        status,
                        cx.cursor,
                        cx.modifiers.fine,
                    ),
                    _ => Dispatch::Ignore,
                }
            },
            KnobEvent::MouseScroll(direction) => {
                match self.mode {
                    InteractionMode::Idle => {
                        if direction != 0 {
                            Dispatch::Step(cx.param.step(direction > 0, cx.modifiers.fine))
                        } else {
                            Dispatch::Ignore
                        }
                    },
                    _ => Dispatch::Ignore,
                }
            },
            KnobEvent::TextInput(parsed) => {
                match self.mode {
                    InteractionMode::TextEditing => Dispatch::SubmitText(parsed),
                    _ => Dispatch::Ignore,
                }
            },
            KnobEvent::CancelTextInput => {
                match self.mode {
                    InteractionMode::TextEditing => Dispatch::CancelText,
                    _ => Dispatch::Ignore,
                }
            },
            _ => Dispatch::Ignore,
        }
    }

    fn primary_click(&self, cx: &KnobContext) -> (rule: Dispatch)
        ensures
            rule == primary_click(self@.mode, *cx),
    {
        let idle = match self.mode {
            InteractionMode::Idle => true,
            _ => false,
        };
        if cx.modifiers.reset {
            Dispatch::Reset(cx.param.default_value)
        } else if cx.modifiers.text_entry {
            if idle {
                Dispatch::EnterTextEntry(cx.param.value)
            } else {
                Dispatch::Ignore
            }
        } else if idle {
            match cx.cursor {
                Some(pos) => Dispatch::BeginDrag(
                    DragStatus { drag_start_value: cx.param.value, drag_start_screen_pos: pos },
                ),
                None => Dispatch::Ignore,
            }
        } else {
            Dispatch::Ignore
        }
    }

    /// Handles one input event: finds its rule, moves to the mode the
    /// rule leads to, and returns the effects for the host to carry out.
    pub fn event(&mut self, cx: &KnobContext, event: &KnobEvent) -> (actions: Vec<KnobAction>)
        ensures
            final(self)@ == step(old(self)@, *cx, *event),
            actions@ == step_actions(old(self)@, *cx, *event),
            writes_normalized(actions@),
            writes_inside_gestures(actions@, open_gestures(old(self)@.mode)),
            begin_count(actions@) + open_gestures(old(self)@.mode) == end_count(actions@)
                + open_gestures(final(self)@.mode),
    {
        proof {
            use_type_invariant(&cx.param.value);
            use_type_invariant(&cx.param.default_value);
            use_type_invariant(&cx.param.next_step);
            use_type_invariant(&cx.param.previous_step);
            use_type_invariant(&cx.param.next_step_fine);
            use_type_invariant(&cx.param.previous_step_fine);
            if let KnobEvent::TextInput(Some(v)) = event {
                use_type_invariant(v);
            }
            if let InteractionMode::Dragging(status) = &self.mode {
                use_type_invariant(&status.drag_start_value);
            }
            lemma_step_writes_normalized(self@, *cx, *event);
            lemma_step_gesture_pairing(self@, *cx, *event);
            lemma_step_writes_inside_gestures(self@, *cx, *event);
        }
        let rule = self.dispatch(cx, event);
        let actions = rule.actions(self.drag_scalar);
        self.mode = rule.next_mode(self.mode);
        actions
    }

    /// Brings the knob to rest when its widget goes away, whatever it was
    /// doing. A drag session that is still open gives up the pointer,
    /// shows the cursor again and closes its gesture.
    pub fn teardown(&mut self) -> (actions: Vec<KnobAction>)
        ensures
            final(self)@ == (KnobState { mode: InteractionMode::Idle, ..old(self)@ }),
            actions@ == teardown_actions(old(self)@.mode),
            begin_count(actions@) + open_gestures(old(self)@.mode) == end_count(actions@),
    {
        proof {
            reveal_with_fuel(begins_upto, 5);
            reveal_with_fuel(ends_upto, 5);
        }
        let actions = match self.mode {
            InteractionMode::Idle => Vec::new(),
            InteractionMode::Dragging(_) => vec![
                KnobAction::ReleasePointer,
                KnobAction::ShowCursor,
                KnobAction::SetActive(false),
                KnobAction::EndGesture,
            ],
            InteractionMode::TextEditing => vec![KnobAction::SetActive(false)],
        };
        self.mode = InteractionMode::Idle;
        actions
    }
}

} // verus!
