use im_disperser::context::{KnobContext, Modifiers, MouseButton, ParamSnapshot, ScreenPoint};
use im_disperser::value::NormalizedValue;
use im_disperser::widgets::knob_group::KnobGroup;
use im_disperser::widgets::arc_track::ArcGeometry;
use im_disperser::widgets::params_knob::{InteractionMode, KnobAction, KnobEvent, Reads};

fn context(cursor: Option<(i32, i32)>, reset: bool) -> KnobContext {
    let v = NormalizedValue::from_units(500_000);
    KnobContext {
        modifiers: Modifiers { fine: false, reset, text_entry: false },
        cursor: cursor.map(|(x, y)| ScreenPoint { x, y }),
        param: ParamSnapshot {
            value: v,
            default_value: NormalizedValue::from_units(200_000),
            next_step: NormalizedValue::from_units(510_000),
            previous_step: NormalizedValue::from_units(490_000),
            next_step_fine: NormalizedValue::from_units(501_000),
            previous_step_fine: NormalizedValue::from_units(499_000),
        },
    }
}

fn dragging(group: &KnobGroup) -> usize {
    (0..group.len())
        .filter(|i| matches!(group.mode(*i), Some(InteractionMode::Dragging(_))))
        .count()
}

#[test]
fn group_starts_empty_and_grows() {
    let mut group = KnobGroup::new();
    assert_eq!(group.len(), 0);
    assert_eq!(group.mode(0), None);
    assert_eq!(group.add(true), 0);
    assert_eq!(group.add(false), 1);
    assert_eq!(group.len(), 2);
    assert_eq!(group.mode(0), Some(InteractionMode::Idle));
    assert_eq!(group.mode(1), Some(InteractionMode::Idle));
    assert_eq!(group.mode(2), None);
    assert!(!group.other_dragging(0));
}

#[test]
fn event_for_a_missing_knob_does_nothing() {
    let mut group = KnobGroup::new();
    group.add(true);
    assert_eq!(group.event(1, &context(Some((0, 0)), false), &KnobEvent::MouseDown(MouseButton::Left)), None);
    assert_eq!(group.mode(0), Some(InteractionMode::Idle));
}

#[test]
fn only_one_knob_drags_at_a_time() {
    let mut group = KnobGroup::new();
    for _ in 0..3 {
        group.add(true);
    }
    let down = KnobEvent::MouseDown(MouseButton::Left);
    let first = group.event(1, &context(Some((10, 10)), false), &down).unwrap();
    assert_eq!(first.len(), 6);
    assert!(first.contains(&KnobAction::HideCursor));
    assert_eq!(dragging(&group), 1);
    assert!(group.other_dragging(0));
    assert!(!group.other_dragging(1));
    assert!(group.other_dragging(2));

    // a click on another knob opens no second session
    assert_eq!(group.event(0, &context(Some((10, 10)), false), &down), Some(vec![]));
    assert_eq!(group.event(2, &context(Some((10, 10)), false), &down), Some(vec![]));
    assert_eq!(dragging(&group), 1);
    assert_eq!(group.mode(0), Some(InteractionMode::Idle));

    // what needs no cursor still works on the other knobs
    let reset = group.event(0, &context(Some((10, 10)), true), &down).unwrap();
    assert_eq!(reset[1], KnobAction::SetNormalized(NormalizedValue::from_units(200_000)));
    let step = group.event(2, &context(None, false), &KnobEvent::MouseScroll(1)).unwrap();
    assert_eq!(step[1], KnobAction::SetNormalized(NormalizedValue::from_units(510_000)));

    // the dragging knob goes on as before
    let moved = group.event(1, &context(Some((10, 0)), false), &KnobEvent::MouseMove).unwrap();
    assert_eq!(moved[0], KnobAction::SetNormalized(NormalizedValue::from_units(542_000)));
    assert_eq!(moved[1], KnobAction::SetCursorPosition(ScreenPoint { x: 10, y: 10 }));

    // once it is released another knob may drag
    group.event(1, &context(Some((10, 10)), false), &KnobEvent::MouseUp(MouseButton::Left));
    assert_eq!(dragging(&group), 0);
    assert_eq!(group.event(2, &context(Some((4, 4)), false), &down).unwrap().len(), 6);
    assert_eq!(dragging(&group), 1);
    assert!(matches!(group.mode(2), Some(InteractionMode::Dragging(_))));
}

#[test]
fn teardown_in_a_group_frees_the_cursor() {
    let mut group = KnobGroup::new();
    group.add(true);
    group.add(true);
    let down = KnobEvent::MouseDown(MouseButton::Left);
    group.event(0, &context(Some((10, 10)), false), &down);
    assert_eq!(
        group.teardown(0),
        Some(vec![
            KnobAction::ReleasePointer,
            KnobAction::ShowCursor,
            KnobAction::SetActive(false),
            KnobAction::EndGesture,
        ])
    );
    assert_eq!(group.mode(0), Some(InteractionMode::Idle));
    assert_eq!(group.teardown(0), Some(vec![]));
    assert_eq!(group.teardown(2), None);
    assert_eq!(group.event(1, &context(Some((1, 1)), false), &down).unwrap().len(), 6);
}

#[test]
fn arcs_of_a_group_follow_their_knobs() {
    let mut group = KnobGroup::new();
    group.add(true);
    group.add(false);
    let first = group.arc_track(0).unwrap();
    assert_eq!(first.geometry(), ArcGeometry { angle_start: -150, angle_end: 150, centered: true });
    assert_eq!(first.normalized_value(), NormalizedValue::zero());
    let second = group.arc_track(1).unwrap();
    assert_eq!(second.geometry(), ArcGeometry { angle_start: -150, angle_end: 150, centered: false });
    assert!(group.arc_track(2).is_none());
}

#[test]
fn a_knob_does_not_read_a_cursor_that_another_holds() {
    let mut group = KnobGroup::new();
    group.add(true);
    group.add(true);
    let plain = Modifiers { fine: false, reset: false, text_entry: false };
    let down = KnobEvent::MouseDown(MouseButton::Left);
    let press = Reads { cursor: true, value: true, default_value: false, step: None };
    assert_eq!(group.reads(0, &plain, &down), Some(press));
    assert_eq!(group.reads(1, &plain, &down), Some(press));
    assert_eq!(group.reads(2, &plain, &down), None);
    group.event(0, &context(Some((10, 10)), false), &down);
    assert_eq!(group.reads(1, &plain, &down), Some(Reads { cursor: false, ..press }));
    assert_eq!(
        group.reads(0, &plain, &KnobEvent::MouseMove),
        Some(Reads { cursor: true, value: false, default_value: false, step: None })
    );
}
