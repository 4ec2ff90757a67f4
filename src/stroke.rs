use std::collections::VecDeque;
use vstd::prelude::*;

use crate::mode::{DrawMode, InkColor};

verus! {

/// Pressure that the digitizer reports at full force.
pub const FULL_PRESSURE: u16 = 2048;

/// Widths are counted in `1 / WIDTH_UNITS_PER_PIXEL` of a pixel. A radius is
/// `(multiplier * pressure / FULL_PRESSURE) / 2` pixels, which in these units
/// is exactly `multiplier * pressure`.
pub const WIDTH_UNITS_PER_PIXEL: u64 = 4096;

/// Straight pieces that each curve segment is drawn with.
pub const SUBDIVISIONS: u32 = 10;

/// Multiplier used while the rubber end of the stylus is in play: roughly
/// the size of the rubber.
pub const RUBBER_MULTIPLIER: u64 = 50;

/// The erase brush is this many times wider than the stored width.
pub const ERASE_FACTOR: u64 = 3;

/// A position on the screen, in whole pixels.
#[derive(Clone, Copy, Debug, PartialEq, Eq, Structural)]
pub struct PenPoint {
    pub x: u32,
    pub y: u32,
}

/// One sample of the pen on the glass.
#[derive(Clone, Copy, Debug, PartialEq, Eq, Structural)]
pub struct PenSample {
    pub point: PenPoint,
    pub pressure: u16,
}

/// A curve anchor, in half pixels, so that the midpoint of two pixel
/// positions is held exactly.
#[derive(Clone, Copy, Debug, PartialEq, Eq, Structural)]
pub struct Anchor {
    pub x_halves: u64,
    pub y_halves: u64,
}

/// Colour and pressure multiplier that a stroke is drawn with.
#[derive(Clone, Copy, Debug, PartialEq, Eq, Structural)]
pub struct Brush {
    pub color: InkColor,
    pub multiplier: u64,
}

/// One tapered quadratic curve segment: three anchors, each with a stroke
/// width in `1 / WIDTH_UNITS_PER_PIXEL` of a pixel, drawn with `subdivisions`
/// straight pieces.
#[derive(Clone, Copy, Debug, PartialEq, Eq, Structural)]
pub struct TaperedCurve {
    pub start: Anchor,
    pub start_width: u64,
    pub ctrl: Anchor,
    pub ctrl_width: u64,
    pub end: Anchor,
    pub end_width: u64,
    pub subdivisions: u32,
    pub color: InkColor,
}

/// Radius of the ink under a sample, in width units.
pub open spec fn radius(multiplier: int, pressure: int) -> int {
    multiplier * pressure
}

/// Midpoint of two pixel positions, in half pixels.
pub open spec fn midpoint(a: PenPoint, b: PenPoint) -> Anchor {
    Anchor { x_halves: (a.x + b.x) as u64, y_halves: (a.y + b.y) as u64 }
}

/// A pixel position, in half pixels.
pub open spec fn anchor_at(a: PenPoint) -> Anchor {
    Anchor { x_halves: (2 * a.x) as u64, y_halves: (2 * a.y) as u64 }
}

/// The curve segment drawn for three consecutive samples, oldest first:
/// it starts halfway between the two newest, bends at the middle one and
/// ends halfway between the two oldest; its width at each anchor is the sum
/// of the radii of the two samples that the anchor lies between.
pub open spec fn curve_of(s0: PenSample, s1: PenSample, s2: PenSample, brush: Brush) -> TaperedCurve {
    let r0 = radius(brush.multiplier as int, s0.pressure as int);
    let r1 = radius(brush.multiplier as int, s1.pressure as int);
    let r2 = radius(brush.multiplier as int, s2.pressure as int);
    TaperedCurve {
        start: midpoint(s2.point, s1.point),
        start_width: (r2 + r1) as u64,
        ctrl: anchor_at(s1.point),
        ctrl_width: (2 * r1) as u64,
        end: midpoint(s1.point, s0.point),
        end_width: (r1 + r0) as u64,
        subdivisions: SUBDIVISIONS,
        color: brush.color,
    }
}

/// The brush for a stored mode: black at the stored width when drawing,
/// white at three times the width when erasing. With the rubber end of the
/// stylus in play the colour is inverted and the width is that of the rubber.
pub open spec fn spec_brush_for(mode: DrawMode, rubber_side: bool) -> Brush {
    if rubber_side {
        Brush { color: mode.base_color().spec_inverted(), multiplier: RUBBER_MULTIPLIER }
    } else {
        match mode {
            DrawMode::Draw(s) => Brush { color: InkColor::Black, multiplier: s as u64 },
            DrawMode::Erase(s) => Brush {
                color: InkColor::White,
                multiplier: (s * ERASE_FACTOR) as u64,
            },
        }
    }
}

impl Brush {
    /// The multiplier is at most that of the widest erase brush.
    pub open spec fn wf(self) -> bool {
        self.multiplier <= ERASE_FACTOR * u32::MAX
    }
}

pub fn brush_for(mode: DrawMode, rubber_side: bool) -> (r: Brush)
    ensures
        r == spec_brush_for(mode, rubber_side),
        r.wf(),
        rubber_side ==> r.multiplier == RUBBER_MULTIPLIER,
        rubber_side && mode is Draw ==> r.color == InkColor::White,
{
    let (color, multiplier): (InkColor, u64) = match mode {
        DrawMode::Draw(s) => (InkColor::Black, s as u64),
        DrawMode::Erase(s) => (InkColor::White, s as u64 * ERASE_FACTOR),
    };
    if rubber_side {
        Brush { color: color.inverted(), multiplier: RUBBER_MULTIPLIER }
    } else {
        Brush { color, multiplier }
    }
}

/// Radius of the ink under a sample, in width units.
pub fn sample_radius(multiplier: u64, pressure: u16) -> (r: u64)
    requires
        multiplier <= ERASE_FACTOR * u32::MAX,
    ensures
        r == radius(multiplier as int, pressure as int),
{
    proof {
        lemma_radius_bound(multiplier as int, pressure as int);
    }
    multiplier * pressure as u64
}

proof fn lemma_radius_bound(m: int, p: int)
    requires
        0 <= m <= ERASE_FACTOR * u32::MAX,
        0 <= p <= u16::MAX,
    ensures
        0 <= radius(m, p) <= ERASE_FACTOR * u32::MAX * u16::MAX,
{
    assert(0 <= m * p <= (ERASE_FACTOR * u32::MAX) * (u16::MAX as int)) by (nonlinear_arith)
        requires
            0 <= m <= ERASE_FACTOR * u32::MAX,
            0 <= p <= u16::MAX,
    ;
}

fn mid(a: PenPoint, b: PenPoint) -> (r: Anchor)
    ensures
        r == midpoint(a, b),
{
    Anchor { x_halves: a.x as u64 + b.x as u64, y_halves: a.y as u64 + b.y as u64 }
}

/// The curve segment for three consecutive samples, oldest first.
pub fn tapered_curve(s0: PenSample, s1: PenSample, s2: PenSample, brush: Brush) -> (r: TaperedCurve)
    requires
        brush.wf(),
    ensures
        r == curve_of(s0, s1, s2, brush),
{
    let r0 = sample_radius(brush.multiplier, s0.pressure);
    let r1 = sample_radius(brush.multiplier, s1.pressure);
    let r2 = sample_radius(brush.multiplier, s2.pressure);
    proof {
        lemma_radius_bound(brush.multiplier as int, s0.pressure as int);
        lemma_radius_bound(brush.multiplier as int, s1.pressure as int);
        lemma_radius_bound(brush.multiplier as int, s2.pressure as int);
    }
    TaperedCurve {
        start: mid(s2.point, s1.point),
        start_width: r2 + r1,
        ctrl: Anchor { x_halves: 2 * s1.point.x as u64, y_halves: 2 * s1.point.y as u64 },
        ctrl_width: 2 * r1,
        end: mid(s1.point, s0.point),
        end_width: r1 + r0,
        subdivisions: SUBDIVISIONS,
        color: brush.color,
    }
}

/// For a fixed multiplier, the radius never shrinks as the pressure grows.
pub proof fn lemma_radius_monotone(multiplier: nat, p: nat, q: nat)
    requires
        p <= q <= FULL_PRESSURE,
    ensures
        radius(multiplier as int, p as int) <= radius(multiplier as int, q as int),
{
    assert(multiplier * p <= multiplier * q) by (nonlinear_arith)
        requires
            p <= q,
    ;
}


/// The sliding window of recent samples that strokes are smoothed over.
/// Between samples it holds at most two; a segment is drawn whenever a third
/// arrives, after which the oldest is dropped.
pub struct StrokeWindow {
    samples: VecDeque<PenSample>,
}

/// The window after `sample` arrives, and the segment drawn for it: once
/// three samples are held, one segment over all three, and the oldest leaves.
pub open spec fn spec_push(window: Seq<PenSample>, sample: PenSample, brush: Brush) -> (Seq<PenSample>, Option<TaperedCurve>) {
    let full = window.push(sample);
    if full.len() >= 3 {
        (full.subrange(1, 3), Some(curve_of(full[0], full[1], full[2], brush)))
    } else {
        (full, None)
    }
}

impl View for StrokeWindow {
    type V = Seq<PenSample>;

    closed spec fn view(&self) -> Seq<PenSample> {
        self.samples@
    }
}

impl StrokeWindow {
    /// Ready for the next sample.
    pub open spec fn wf(&self) -> bool {
        self@.len() <= 2
    }

    pub fn new() -> (r: StrokeWindow)
        ensures
            r@ == Seq::<PenSample>::empty(),
            r.wf(),
    {
        StrokeWindow { samples: VecDeque::new() }
    }

    pub fn len(&self) -> (r: usize)
        ensures
            r == self@.len(),
    {
        self.samples.len()
    }

    /// Forgets every sample: the next one starts a new stroke.
    pub fn clear(&mut self)
        ensures
            final(self)@ == Seq::<PenSample>::empty(),
            final(self).wf(),
    {
        self.samples.clear();
    }

    /// Takes in one sample and returns the segment drawn for it, if any.
    pub fn push(&mut self, sample: PenSample, brush: Brush) -> (r: Option<TaperedCurve>)
        requires
            old(self).wf(),
            brush.wf(),
        ensures
            (final(self)@, r) == spec_push(old(self)@, sample, brush),
            final(self).wf(),
            r is Some <==> old(self)@.len() == 2,
    {
        let ghost full = self@.push(sample);
        self.samples.push_back(sample);
        let mut drawn: Option<TaperedCurve> = None;
        while self.samples.len() >= 3
            invariant
                full.len() <= 3,
                brush.wf(),
                drawn is None ==> self@ == full,
                drawn is Some ==> {
                    &&& full.len() == 3
                    &&& self@ == full.subrange(1, 3)
                    &&& drawn == Some(curve_of(full[0], full[1], full[2], brush))
                },
            decreases self@.len(),
        {
            let s0 = self.samples.pop_front().unwrap();
            let s1 = self.samples[0];
            let s2 = self.samples[1];
            drawn = Some(tapered_curve(s0, s1, s2, brush));
        }
        drawn
    }
}

} // verus!
