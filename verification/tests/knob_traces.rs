use im_disperser::context::{KnobContext, Modifiers, MouseButton, ParamSnapshot, ScreenPoint};
use im_disperser::value::{NormalizedValue, SCALE};
use im_disperser::widgets::params_knob::{InteractionMode, KnobAction, KnobEvent, ParamKnob};

/// A stand-in for the host and the platform: it carries out effects and
/// keeps count.
struct Host {
    value: NormalizedValue,
    begins: u32,
    ends: u32,
    cursor: ScreenPoint,
    cursor_hidden: bool,
    captured: bool,
    writes: u32,
}

impl Host {
    fn new(value: i64, cursor: ScreenPoint) -> Host {
        Host {
            value: NormalizedValue::from_units(value),
            begins: 0,
            ends: 0,
            cursor,
            cursor_hidden: false,
            captured: false,
            writes: 0,
        }
    }

    fn perform(&mut self, actions: &[KnobAction]) {
        for action in actions {
            match *action {
                KnobAction::BeginGesture => self.begins += 1,
                KnobAction::EndGesture => {
                    self.ends += 1;
                    assert!(self.ends <= self.begins, "a gesture ends that never began");
                }
                KnobAction::SetNormalized(v) => {
                    assert!(self.begins > self.ends, "a write outside any gesture");
                    assert!(v.units() <= SCALE);
                    self.value = v;
                    self.writes += 1;
                }
                KnobAction::CapturePointer => self.captured = true,
                KnobAction::ReleasePointer => self.captured = false,
                KnobAction::HideCursor => self.cursor_hidden = true,
                KnobAction::ShowCursor => self.cursor_hidden = false,
                KnobAction::SetCursorPosition(p) => self.cursor = p,
                _ => {}
            }
        }
    }

    fn snapshot(&self) -> ParamSnapshot {
        let units = self.value.units() as i64;
        ParamSnapshot {
            value: self.value,
            default_value: NormalizedValue::from_units(200_000),
            next_step: NormalizedValue::from_units(units + 10_000),
            previous_step: NormalizedValue::from_units(units - 10_000),
            next_step_fine: NormalizedValue::from_units(units + 1_000),
            previous_step_fine: NormalizedValue::from_units(units - 1_000),
        }
    }
}

struct Lcg(u64);

impl Lcg {
    fn next(&mut self) -> u64 {
        self.0 = self.0.wrapping_mul(6364136223846793005).wrapping_add(1442695040888963407);
        self.0 >> 33
    }

    fn below(&mut self, n: u64) -> u64 {
        self.next() % n
    }
}

fn random_event(rng: &mut Lcg) -> KnobEvent {
    let button = match rng.below(4) {
        0 => MouseButton::Right,
        1 => MouseButton::Middle,
        _ => MouseButton::Left,
    };
    match rng.below(12) {
        0 | 1 => KnobEvent::MouseDown(button),
        2 => KnobEvent::MouseDoubleClick(button),
        3 => KnobEvent::MouseTripleClick(button),
        4 | 5 => KnobEvent::MouseUp(button),
        6 | 7 | 8 => KnobEvent::MouseMove,
        9 => KnobEvent::MouseScroll(rng.below(3) as i32 - 1),
        10 => {
            if rng.below(2) == 0 {
                KnobEvent::TextInput(None)
            } else {
                KnobEvent::TextInput(Some(NormalizedValue::from_units(rng.below(1_200_000) as i64)))
            }
        }
        _ => KnobEvent::CancelTextInput,
    }
}

fn random_modifiers(rng: &mut Lcg) -> Modifiers {
    Modifiers {
        fine: rng.below(3) == 0,
        reset: rng.below(6) == 0,
        text_entry: rng.below(5) == 0,
    }
}

fn is_dragging(knob: &ParamKnob) -> bool {
    matches!(knob.mode(), InteractionMode::Dragging(_))
}

#[test]
fn random_interactions_keep_every_invariant() {
    for seed in 0..40u64 {
        let mut rng = Lcg(seed.wrapping_mul(0x9E3779B97F4A7C15) + 1);
        let mut knob = ParamKnob::new(seed % 2 == 0);
        let mut host = Host::new(500_000, ScreenPoint { x: 300, y: 300 });
        for _ in 0..2_000 {
            let event = random_event(&mut rng);
            if event == KnobEvent::MouseMove {
                // the user has moved the pointer
                host.cursor = ScreenPoint {
                    x: host.cursor.x + rng.below(41) as i32 - 20,
                    y: host.cursor.y + rng.below(401) as i32 - 200,
                };
            }
            let cursor = if rng.below(10) == 0 && !is_dragging(&knob) { None } else { Some(host.cursor) };
            let cx = KnobContext { modifiers: random_modifiers(&mut rng), cursor, param: host.snapshot() };
            let before = knob.mode();
            let actions = knob.event(&cx, &event);
            host.perform(&actions);
            let after = knob.mode();

            // the value stays in [0, 1]
            assert!(host.value.units() <= SCALE);
            // gestures are paired, but for the one a drag holds open
            let open = if is_dragging(&knob) { 1 } else { 0 };
            assert_eq!(host.begins, host.ends + open);
            // the platform resources follow the drag session
            assert_eq!(host.captured, is_dragging(&knob));
            assert_eq!(host.cursor_hidden, is_dragging(&knob));
            // text entry and drag are entered from rest only
            if after == InteractionMode::TextEditing {
                assert!(before == InteractionMode::Idle || before == InteractionMode::TextEditing);
            }
            if let InteractionMode::Dragging(status) = after {
                assert!(before == InteractionMode::Idle || before == after);
                // the cursor is back on the session's row
                assert_eq!(host.cursor.y, status.drag_start_screen_pos.y);
            }
            if let InteractionMode::Dragging(_) = before {
                assert!(after == InteractionMode::Idle || after == before);
            }
        }
        host.perform(&knob.teardown());
        assert_eq!(host.begins, host.ends);
        assert!(!host.cursor_hidden);
        assert!(!host.captured);
        assert_eq!(knob.mode(), InteractionMode::Idle);
    }
}

#[test]
fn long_drag_leaves_the_cursor_where_it_started() {
    let origin = ScreenPoint { x: 800, y: 450 };
    let mut knob = ParamKnob::new(false);
    let mut host = Host::new(100_000, origin);
    let plain = Modifiers { fine: false, reset: false, text_entry: false };
    let cx = KnobContext { modifiers: plain, cursor: Some(host.cursor), param: host.snapshot() };
    host.perform(&knob.event(&cx, &KnobEvent::MouseDown(MouseButton::Left)));
    let mut travelled: i64 = 0;
    for i in 0..5_000 {
        let dy = 1 + (i % 7);
        host.cursor = ScreenPoint { x: host.cursor.x + (i % 3) - 1, y: host.cursor.y - dy };
        travelled += dy as i64;
        let cx = KnobContext { modifiers: plain, cursor: Some(host.cursor), param: host.snapshot() };
        host.perform(&knob.event(&cx, &KnobEvent::MouseMove));
        assert_eq!(host.cursor, origin);
    }
    assert!(travelled > 10_000);
    let cx = KnobContext { modifiers: plain, cursor: Some(host.cursor), param: host.snapshot() };
    host.perform(&knob.event(&cx, &KnobEvent::MouseUp(MouseButton::Left)));
    assert_eq!(host.cursor, origin);
    assert_eq!(host.begins, 1);
    assert_eq!(host.ends, 1);
    assert_eq!(host.writes, 5_000);
    assert!(!host.cursor_hidden);
}

#[test]
fn sideways_last_move_leaves_the_cursor_on_the_row_only() {
    let origin = ScreenPoint { x: 800, y: 450 };
    let mut knob = ParamKnob::new(false);
    let mut host = Host::new(100_000, origin);
    let plain = Modifiers { fine: false, reset: false, text_entry: false };
    let cx = KnobContext { modifiers: plain, cursor: Some(host.cursor), param: host.snapshot() };
    host.perform(&knob.event(&cx, &KnobEvent::MouseDown(MouseButton::Left)));
    host.cursor = ScreenPoint { x: 805, y: 450 };
    let cx = KnobContext { modifiers: plain, cursor: Some(host.cursor), param: host.snapshot() };
    host.perform(&knob.event(&cx, &KnobEvent::MouseMove));
    let cx = KnobContext { modifiers: plain, cursor: Some(host.cursor), param: host.snapshot() };
    host.perform(&knob.event(&cx, &KnobEvent::MouseUp(MouseButton::Left)));
    assert_eq!(host.cursor, ScreenPoint { x: 805, y: 450 });
    assert_eq!(host.value, NormalizedValue::from_units(100_000));
}

#[test]
fn a_whole_session_records_one_gesture() {
    let mut knob = ParamKnob::new(false);
    let mut host = Host::new(500_000, ScreenPoint { x: 0, y: 0 });
    let plain = Modifiers { fine: false, reset: false, text_entry: false };
    let fine = Modifiers { fine: true, reset: false, text_entry: false };
    let cx = KnobContext { modifiers: plain, cursor: Some(host.cursor), param: host.snapshot() };
    host.perform(&knob.event(&cx, &KnobEvent::MouseDown(MouseButton::Left)));
    host.cursor = ScreenPoint { x: 0, y: -100 };
    let cx = KnobContext { modifiers: plain, cursor: Some(host.cursor), param: host.snapshot() };
    host.perform(&knob.event(&cx, &KnobEvent::MouseMove));
    assert_eq!(host.value, NormalizedValue::from_units(920_000));
    host.cursor = ScreenPoint { x: 0, y: -100 };
    let cx = KnobContext { modifiers: fine, cursor: Some(host.cursor), param: host.snapshot() };
    host.perform(&knob.event(&cx, &KnobEvent::MouseMove));
    assert_eq!(host.value, NormalizedValue::from_units(542_000));
    let cx = KnobContext { modifiers: plain, cursor: Some(host.cursor), param: host.snapshot() };
    host.perform(&knob.event(&cx, &KnobEvent::MouseUp(MouseButton::Left)));
    assert_eq!((host.begins, host.ends), (1, 1));
    assert_eq!(knob.mode(), InteractionMode::Idle);
}
