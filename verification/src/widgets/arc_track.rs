use vstd::prelude::*;
use crate::value::{NormalizedValue, SCALE};
use crate::widgets::geometry::{Bounds, Rgba, LENGTH_PARTS};

verus! {

/// Output angles are given in this many parts of one degree: as many as
/// the normalized range has steps, so that a value's share of a span of
/// whole degrees is an exact product.
pub const ANGLE_PARTS: i64 = 1_000_000;

/// Angle zero of a track points up on screen, this many degrees away from
/// angle zero of the canvas.
pub const ANGLE_OFFSET: i64 = -90;

/// The colours of a track and the width of its tick in layout units.
#[derive(Clone, Copy, Debug, PartialEq, Eq, Structural)]
pub struct ArcTheme {
    pub face: Rgba,
    pub background: Rgba,
    pub foreground: Rgba,
    pub tick: Rgba,
    pub tick_width: u32,
}

/// The fixed shape of a track: the angles, in whole degrees, at which it
/// starts and ends, and whether its arc grows from the middle.
#[derive(Clone, Copy, Debug, PartialEq, Eq, Structural)]
pub struct ArcGeometry {
    pub angle_start: i32,
    pub angle_end: i32,
    pub centered: bool,
}

/// One drawing instruction. Lengths are in `1 / LENGTH_PARTS` of a layout
/// unit, angles in `1 / ANGLE_PARTS` of a degree on the canvas.
#[derive(Clone, Copy, Debug, PartialEq, Eq, Structural)]
pub enum DrawCommand {
    /// A filled disc.
    FillCircle { center_x: i64, center_y: i64, radius: i64, color: Rgba },
    /// An arc of a circle, stroked with butt caps.
    StrokeArc {
        center_x: i64,
        center_y: i64,
        radius: i64,
        start_angle: i64,
        sweep_angle: i64,
        stroke_width: i64,
        color: Rgba,
    },
    /// A straight stroke along a radius, from `inner_radius` to
    /// `outer_radius` at `angle`.
    StrokeRadial {
        center_x: i64,
        center_y: i64,
        angle: i64,
        inner_radius: i64,
        outer_radius: i64,
        stroke_width: i64,
        color: Rgba,
    },
}

/// The smaller side of a box.
pub open spec fn short_side(bounds: Bounds) -> int {
    if bounds.w <= bounds.h {
        bounds.w as int
    } else {
        bounds.h as int
    }
}

/// The centre of a box along x, in output parts.
pub open spec fn center_x(bounds: Bounds) -> int {
    40 * bounds.x + 20 * bounds.w
}

/// The centre of a box along y, in output parts.
pub open spec fn center_y(bounds: Bounds) -> int {
    40 * bounds.y + 20 * bounds.h
}

/// The radius of the track's outer edge: half the smaller side.
pub open spec fn outer_radius(bounds: Bounds) -> int {
    20 * short_side(bounds)
}

/// The width of the track: a tenth of the outer radius.
pub open spec fn track_width(bounds: Bounds) -> int {
    2 * short_side(bounds)
}

/// The radius along which the arcs are stroked, so that the stroke's
/// outer edge lies on the outer radius.
pub open spec fn draw_radius(bounds: Bounds) -> int {
    outer_radius(bounds) - track_width(bounds) / 2
}

/// The angular span of the track.
pub open spec fn span(geometry: ArcGeometry) -> int {
    geometry.angle_end - geometry.angle_start
}

/// The canvas angle at which the track starts.
pub open spec fn track_start(geometry: ArcGeometry) -> int {
    1_000_000 * (geometry.angle_start - 90)
}

/// The canvas angle that the whole track sweeps.
pub open spec fn track_sweep(geometry: ArcGeometry) -> int {
    1_000_000 * span(geometry)
}

/// The angle that the foreground arc sweeps: the value's share of the
/// span.
pub open spec fn value_sweep(geometry: ArcGeometry, value: NormalizedValue) -> int {
    value@ * span(geometry)
}

/// The canvas angle from which the foreground arc grows: the start of the
/// track, or the middle of it for a centered track.
pub open spec fn anchor(geometry: ArcGeometry) -> int {
    if geometry.centered {
        track_start(geometry) + 500_000 * span(geometry)
    } else {
        track_start(geometry)
    }
}

/// The canvas angle of the tick: where the value lies on the track.
pub open spec fn tick_angle(geometry: ArcGeometry, value: NormalizedValue) -> int {
    track_start(geometry) + value_sweep(geometry, value)
}

/// What is drawn for a track: nothing in an empty box; otherwise the
/// face, the full background track, the foreground arc from the anchor,
/// and a tick across the track at the value.
pub open spec fn arc_commands(
    geometry: ArcGeometry,
    value: NormalizedValue,
    bounds: Bounds,
    theme: ArcTheme,
) -> Seq<DrawCommand> {
    if bounds.w == 0 || bounds.h == 0 {
        Seq::empty()
    } else {
        seq![
            DrawCommand::FillCircle {
                center_x: center_x(bounds) as i64,
                center_y: center_y(bounds) as i64,
                radius: draw_radius(bounds) as i64,
                color: theme.face,
            },
            DrawCommand::StrokeArc {
                center_x: center_x(bounds) as i64,
                center_y: center_y(bounds) as i64,
                radius: draw_radius(bounds) as i64,
                start_angle: track_start(geometry) as i64,
                sweep_angle: track_sweep(geometry) as i64,
                stroke_width: track_width(bounds) as i64,
                color: theme.background,
            },
            DrawCommand::StrokeArc {
                center_x: center_x(bounds) as i64,
                center_y: center_y(bounds) as i64,
                radius: draw_radius(bounds) as i64,
                start_angle: anchor(geometry) as i64,
                sweep_angle: value_sweep(geometry, value) as i64,
                stroke_width: track_width(bounds) as i64,
                color: theme.foreground,
            },
            DrawCommand::StrokeRadial {
                center_x: center_x(bounds) as i64,
                center_y: center_y(bounds) as i64,
                angle: tick_angle(geometry, value) as i64,
                inner_radius: (outer_radius(bounds) - track_width(bounds)) as i64,
                outer_radius: outer_radius(bounds) as i64,
                stroke_width: (40 * theme.tick_width) as i64,
                color: theme.tick,
            },
        ]
    }
}

/// The lengths and angles of a track in terms of the layout unit and the
/// degree: the outer radius is half the smaller side, the track is a
/// tenth of that wide, and the foreground arc sweeps the value's share of
/// the span.
pub proof fn lemma_arc_formulas(geometry: ArcGeometry, value: NormalizedValue, bounds: Bounds)
    ensures
        2 * center_x(bounds) == LENGTH_PARTS * (2 * bounds.x + bounds.w),
        2 * center_y(bounds) == LENGTH_PARTS * (2 * bounds.y + bounds.h),
        2 * outer_radius(bounds) == LENGTH_PARTS * short_side(bounds),
        10 * track_width(bounds) == outer_radius(bounds),
        2 * draw_radius(bounds) == 2 * outer_radius(bounds) - track_width(bounds),
        track_start(geometry) == ANGLE_PARTS * (geometry.angle_start + ANGLE_OFFSET),
        track_sweep(geometry) == ANGLE_PARTS * span(geometry),
        SCALE * value_sweep(geometry, value) == value@ * track_sweep(geometry),
        geometry.centered ==> 2 * anchor(geometry) == 2 * track_start(geometry) + track_sweep(
            geometry,
        ),
        !geometry.centered ==> anchor(geometry) == track_start(geometry),
        tick_angle(geometry, value) == track_start(geometry) + value_sweep(geometry, value),
{
    assert(LENGTH_PARTS == 40 && ANGLE_PARTS == 1_000_000 && ANGLE_OFFSET == -90 && SCALE
        == 1_000_000);
    let s = span(geometry);
    let v = value@;
    assert(1_000_000 * (v * s) == v * (1_000_000 * s)) by (nonlinear_arith);
}

/// No output length or angle leaves the range of its integer type.
pub proof fn lemma_arc_in_range(
    geometry: ArcGeometry,
    value: NormalizedValue,
    bounds: Bounds,
    theme: ArcTheme,
)
    requires
        value.is_normalized(),
    ensures
        i64::MIN <= center_x(bounds) <= i64::MAX,
        i64::MIN <= center_y(bounds) <= i64::MAX,
        0 <= track_width(bounds) <= outer_radius(bounds) <= i64::MAX,
        0 <= draw_radius(bounds) <= outer_radius(bounds),
        i64::MIN <= track_start(geometry) <= i64::MAX,
        i64::MIN <= track_sweep(geometry) <= i64::MAX,
        i64::MIN <= anchor(geometry) <= i64::MAX,
        i64::MIN <= value_sweep(geometry, value) <= i64::MAX,
        i64::MIN <= tick_angle(geometry, value) <= i64::MAX,
        0 <= 40 * theme.tick_width <= i64::MAX,
{
    let s = span(geometry);
    let v = value@;
    assert(-0x1_0000_0000 * 1_000_000 <= v * s <= 0x1_0000_0000 * 1_000_000) by (nonlinear_arith)
        requires
            0 <= v <= 1_000_000,
            -0x1_0000_0000 <= s <= 0x1_0000_0000,
    ;
}

impl Default for ArcTheme {
    /// A pale face, an invisible background track, a translucent green
    /// arc and a black tick four units wide.
    fn default() -> (theme: ArcTheme)
        ensures
            theme == (ArcTheme {
                face: Rgba { r: 241, g: 255, b: 243, a: 255 },
                background: Rgba { r: 0, g: 0, b: 0, a: 0 },
                foreground: Rgba { r: 0, g: 255, b: 60, a: 50 },
                tick: Rgba { r: 0, g: 0, b: 0, a: 255 },
                tick_width: 4,
            }),
    {
        ArcTheme {
            face: Rgba { r: 241, g: 255, b: 243, a: 255 },
            background: Rgba { r: 0, g: 0, b: 0, a: 0 },
            foreground: Rgba { r: 0, g: 255, b: 60, a: 50 },
            tick: Rgba { r: 0, g: 0, b: 0, a: 255 },
            tick_width: 4,
        }
    }
}

/// A message to an arc track.
#[derive(Clone, Copy, Debug, PartialEq, Eq, Structural)]
pub enum ArcTrackEvent {
    /// The bound value has changed.
    SetValue(NormalizedValue),
}

/// The abstract state of an arc track: its shape and the value it shows.
pub struct ArcTrackState {
    pub geometry: ArcGeometry,
    pub value: NormalizedValue,
}

/// The arc that shows a knob's value. It holds no interaction state: what
/// it draws depends on its shape, its value, its box and its theme alone.
#[derive(Debug)]
pub struct ArcTrack {
    angle_start: i32,
    angle_end: i32,
    normalized_value: NormalizedValue,
    center: bool,
}

impl View for ArcTrack {
    type V = ArcTrackState;

    closed spec fn view(&self) -> ArcTrackState {
        ArcTrackState {
            geometry: ArcGeometry {
                angle_start: self.angle_start,
                angle_end: self.angle_end,
                centered: self.center,
            },
            value: self.normalized_value,
        }
    }
}

impl ArcTrack {
    /// A track from `angle_start` to `angle_end`, in whole degrees
    /// clockwise from straight up, that shows the value zero.
    pub fn new(center: bool, angle_start: i32, angle_end: i32) -> (track: ArcTrack)
        ensures
            track@.geometry == (ArcGeometry { angle_start, angle_end, centered: center }),
            track@.value == NormalizedValue::clamped(0),
    {
        ArcTrack { angle_start, angle_end, normalized_value: NormalizedValue::zero(), center }
    }

    /// The shape of the track.
    pub fn geometry(&self) -> (geometry: ArcGeometry)
        ensures
            geometry == self@.geometry,
    {
        ArcGeometry {
            angle_start: self.angle_start,
            angle_end: self.angle_end,
            centered: self.center,
        }
    }

    /// The value that the track shows.
    pub fn normalized_value(&self) -> (value: NormalizedValue)
        ensures
            value == self@.value,
    {
        self.normalized_value
    }

    /// Takes a new value to show and says that the track has to be drawn
    /// again. The shape stays as it is.
    pub fn event(&mut self, event: &ArcTrackEvent) -> (redraw: bool)
        ensures
            final(self)@.geometry == old(self)@.geometry,
            final(self)@.value == event->SetValue_0,
            redraw,
    {
        match *event {
            ArcTrackEvent::SetValue(value) => {
                self.normalized_value = value;
                true
            },
        }
    }

    /// The drawing instructions for the track inside `bounds`, back to
    /// front.
    pub fn draw(&self, bounds: Bounds, theme: &ArcTheme) -> (commands: Vec<DrawCommand>)
        ensures
            commands@ == arc_commands(self@.geometry, self@.value, bounds, *theme),
    {
        if bounds.w == 0 || bounds.h == 0 {
            return Vec::new();
        }
        proof {
            use_type_invariant(&self.normalized_value);
            lemma_arc_in_range(self@.geometry, self@.value, bounds, *theme);
        }
        let short: i64 = if bounds.w <= bounds.h {
            bounds.w as i64
        } else {
            bounds.h as i64
        };
        let cx: i64 = 40 * (bounds.x as i64) + 20 * (bounds.w as i64);
        let cy: i64 = 40 * (bounds.y as i64) + 20 * (bounds.h as i64);
        let radius: i64 = 20 * short;
        let stroke_width: i64 = 2 * short;
        let stroke_radius: i64 = radius - stroke_width / 2;

        let span: i64 = self.angle_end as i64 - self.angle_start as i64;
        let start: i64 = 1_000_000 * (self.angle_start as i64 - 90);
        let sweep: i64 = 1_000_000 * span;
        let units: i64 = self.normalized_value.units() as i64;
        assert(units * span == value_sweep(self@.geometry, self@.value));
        let current_sweep: i64 = units * span;
        let tick_at: i64 = start + current_sweep;
        let tick_inner: i64 = radius - stroke_width;
        let tick_stroke: i64 = 40 * (theme.tick_width as i64);
        let from: i64 = if self.center {
            start + 500_000 * span
        } else {
            start
        };

        vec![
            DrawCommand::FillCircle {
                center_x: cx,
                center_y: cy,
                radius: stroke_radius,
                color: theme.face,
            },
            DrawCommand::StrokeArc {
                center_x: cx,
                center_y: cy,
                radius: stroke_radius,
                start_angle: start,
                sweep_angle: sweep,
                stroke_width,
                color: theme.background,
            },
            DrawCommand::StrokeArc {
                center_x: cx,
                center_y: cy,
                radius: stroke_radius,
                start_angle: from,
                sweep_angle: current_sweep,
                stroke_width,
                color: theme.foreground,
            },
            DrawCommand::StrokeRadial {
                center_x: cx,
                center_y: cy,
                angle: tick_at,
                inner_radius: tick_inner,
                outer_radius: radius,
                stroke_width: tick_stroke,
                color: theme.tick,
            },
        ]
    }
}

} // verus!
