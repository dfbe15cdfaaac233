use im_disperser::widgets::geometry::{Bounds, PathPoint};
use im_disperser::widgets::spectrum_view::{Bar, SpectrumView};
use im_disperser::widgets::waveform_view::{WaveformView, WaveformViewEvent};

fn samples(view: &WaveformView) -> Vec<i32> {
    (0..view.len()).map(|i| view.sample(i).unwrap()).collect()
}

#[test]
fn new_waveform_is_silent() {
    let view = WaveformView::new(4);
    assert_eq!(view.max_samples(), 4);
    assert_eq!(view.len(), 4);
    assert_eq!(samples(&view), vec![0, 0, 0, 0]);
    assert_eq!(view.sample(4), None);
}

#[test]
fn waveform_window_is_always_full() {
    for max in [0usize, 1, 2, 5] {
        let mut view = WaveformView::new(max);
        assert!(view.is_window_full());
        for s in 0..7 {
            view.push_sample(s);
            assert!(view.is_window_full());
            assert_eq!(view.len(), max.max(1));
        }
    }
}

#[test]
fn waveform_keeps_the_most_recent_samples() {
    let mut view = WaveformView::new(4);
    for s in 1..=5 {
        view.push_sample(s);
    }
    assert_eq!(samples(&view), vec![2, 3, 4, 5]);
    assert!(view.event(&WaveformViewEvent::AddSample(-6)));
    assert_eq!(samples(&view), vec![3, 4, 5, -6]);
    assert_eq!(view.len(), 4);
}

#[test]
fn waveform_that_keeps_nothing_shows_the_last_sample() {
    let mut view = WaveformView::new(0);
    assert_eq!(view.len(), 0);
    view.push_sample(7);
    assert_eq!(samples(&view), vec![7]);
    view.push_sample(8);
    assert_eq!(samples(&view), vec![8]);
}

#[test]
fn waveform_of_one_sample() {
    let mut view = WaveformView::new(1);
    view.push_sample(500_000);
    assert_eq!(samples(&view), vec![500_000]);
    let drawing = view.draw(Bounds { x: 2, y: 0, w: 10, h: 10 }).unwrap();
    assert_eq!(drawing.outline, vec![PathPoint { x: 80, y: 100 }, PathPoint { x: 80, y: 300 }]);
}

#[test]
fn waveform_draws_nothing_in_an_empty_box() {
    let view = WaveformView::new(3);
    assert_eq!(view.draw(Bounds { x: 0, y: 0, w: 0, h: 5 }), None);
    assert_eq!(view.draw(Bounds { x: 0, y: 0, w: 5, h: 0 }), None);
}

#[test]
fn waveform_outline_is_mirrored_about_the_middle() {
    let mut view = WaveformView::new(3);
    view.push_sample(500_000);
    view.push_sample(-1_000_000);
    view.push_sample(3_000_000);
    let drawing = view.draw(Bounds { x: 10, y: 20, w: 100, h: 60 }).unwrap();
    // middle line at y = 20 + 30, half height 30, samples 50 apart
    assert_eq!(
        drawing.outline,
        vec![
            PathPoint { x: 400, y: 2_000 - 600 },
            PathPoint { x: 2_400, y: 2_000 - 1_200 },
            PathPoint { x: 4_400, y: 2_000 - 1_200 },
            PathPoint { x: 4_400, y: 2_000 + 1_200 },
            PathPoint { x: 2_400, y: 2_000 + 1_200 },
            PathPoint { x: 400, y: 2_000 + 600 },
        ]
    );
    assert_eq!(drawing.center_from, PathPoint { x: 400, y: 2_000 });
    assert_eq!(drawing.center_to, PathPoint { x: 4_400, y: 2_000 });
}

#[test]
fn waveform_offsets_round_down() {
    let view = WaveformView::new(4);
    let drawing = view.draw(Bounds { x: 0, y: 0, w: 10, h: 2 }).unwrap();
    let xs: Vec<i64> = drawing.outline.iter().map(|p| p.x).collect();
    assert_eq!(xs, vec![0, 133, 266, 400, 400, 266, 133, 0]);
    assert!(drawing.outline.iter().all(|p| p.y == 40));
}

#[test]
fn waveform_with_extreme_values_does_not_overflow() {
    let mut view = WaveformView::new(2);
    view.push_sample(i32::MIN);
    view.push_sample(i32::MAX);
    let drawing = view.draw(Bounds { x: i32::MAX, y: i32::MIN, w: u32::MAX, h: u32::MAX }).unwrap();
    assert_eq!(drawing.outline.len(), 4);
    let middle = 40 * (i32::MIN as i64) + 20 * (u32::MAX as i64);
    assert_eq!(drawing.outline[0], PathPoint { x: 40 * (i32::MAX as i64), y: middle - 20 * (u32::MAX as i64) });
    assert_eq!(
        drawing.outline[1],
        PathPoint { x: 40 * (i32::MAX as i64) + 40 * (u32::MAX as i64), y: middle - 20 * (u32::MAX as i64) }
    );
}

#[test]
fn spectrum_scales_to_the_peak() {
    let view = SpectrumView::new(vec![5, 10, 0, -3]);
    assert_eq!(view.peak(), 10);
    let bars = view.draw(Bounds { x: 1, y: 2, w: 40, h: 20 });
    assert_eq!(
        bars,
        vec![
            Bar { x: 40, y: 880 - 400, width: 400, height: 400 },
            Bar { x: 440, y: 880 - 800, width: 400, height: 800 },
            Bar { x: 840, y: 880, width: 400, height: 0 },
            Bar { x: 1_240, y: 880, width: 400, height: 0 },
        ]
    );
}

#[test]
fn spectrum_without_magnitudes_or_box_is_empty() {
    assert_eq!(SpectrumView::new(vec![]).draw(Bounds { x: 0, y: 0, w: 9, h: 9 }), vec![]);
    assert_eq!(SpectrumView::new(vec![1, 2]).draw(Bounds { x: 0, y: 0, w: 0, h: 9 }), vec![]);
    assert_eq!(SpectrumView::new(vec![1, 2]).draw(Bounds { x: 0, y: 0, w: 9, h: 0 }), vec![]);
    assert_eq!(SpectrumView::new(vec![]).peak(), 0);
}

#[test]
fn spectrum_of_silence_has_flat_bars() {
    let bars = SpectrumView::new(vec![0, 0, 0]).draw(Bounds { x: 0, y: 0, w: 10, h: 10 });
    assert_eq!(
        bars,
        vec![
            Bar { x: 0, y: 400, width: 133, height: 0 },
            Bar { x: 133, y: 400, width: 133, height: 0 },
            Bar { x: 266, y: 400, width: 133, height: 0 },
        ]
    );
    assert_eq!(SpectrumView::new(vec![-5, -1]).peak(), 0);
}

#[test]
fn spectrum_with_extreme_values_does_not_overflow() {
    let view = SpectrumView::new(vec![i32::MAX, i32::MIN, 1]);
    let bars = view.draw(Bounds { x: i32::MIN, y: i32::MAX, w: u32::MAX, h: u32::MAX });
    assert_eq!(bars.len(), 3);
    assert_eq!(bars[0].height, 40 * (u32::MAX as i64));
    assert_eq!(bars[1].height, 0);
    assert_eq!(bars[2].height, (40 * (u32::MAX as i128) / (i32::MAX as i128)) as i64);
}
