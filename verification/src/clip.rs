//! Clip rectangles and their scissors on the render target.

use vstd::prelude::*;
use crate::scale::{clamp, lemma_round_div_bounds, lemma_round_div_exact, lemma_round_div_monotone, Scale};

verus! {

/// A rectangle in layout units, from its minimum corner up to its maximum
/// corner.
#[derive(Clone, Copy, Debug, PartialEq, Eq, Structural)]
pub struct Rect {
    pub min_x: i64,
    pub min_y: i64,
    pub max_x: i64,
    pub max_y: i64,
}

impl Rect {
    /// Whether the rectangle holds no area.
    pub open spec fn is_empty(self) -> bool {
        self.max_x <= self.min_x || self.max_y <= self.min_y
    }

    /// Whether the rectangle lies wholly to one side of a target of
    /// `target` pixels, seen at `scale`.
    pub open spec fn lies_outside(self, scale: Scale, target: [u32; 2]) -> bool {
        ||| self.max_x <= 0
        ||| self.max_y <= 0
        ||| self.min_x * scale.pixels() >= target[0] * scale.units()
        ||| self.min_y * scale.pixels() >= target[1] * scale.units()
    }
}

/// A rectangle of physical pixels on the render target.
#[derive(Clone, Copy, Debug, PartialEq, Eq, Structural)]
pub struct Scissor {
    pub x: u32,
    pub y: u32,
    pub width: u32,
    pub height: u32,
}

impl Scissor {
    /// Whether the scissor lies within a target of `target` pixels.
    pub open spec fn within(self, target: [u32; 2]) -> bool {
        self.x + self.width <= target[0] && self.y + self.height <= target[1]
    }

    /// Whether the scissor lets no pixel through.
    pub open spec fn is_empty(self) -> bool {
        self.width == 0 || self.height == 0
    }
}

/// Where the span from `near` to `far` starts on an axis of `limit` pixels:
/// its scaled start, held within the axis.
pub open spec fn span_start(scale: Scale, near: int, limit: int) -> int {
    clamp(scale.to_pixels(near), 0, limit)
}

/// How many pixels of an axis of `limit` pixels the span from `near` to
/// `far` covers: from its start to its scaled end, which is held between the
/// start and the end of the axis.
pub open spec fn span_length(scale: Scale, near: int, far: int, limit: int) -> int {
    clamp(scale.to_pixels(far), span_start(scale, near, limit), limit) - span_start(
        scale,
        near,
        limit,
    )
}

/// The scissor of a clip rectangle: the rectangle scaled to physical pixels
/// and cut down to the target.
pub open spec fn scissor_of(clip: Rect, scale: Scale, target: [u32; 2]) -> Scissor {
    Scissor {
        x: span_start(scale, clip.min_x as int, target[0] as int) as u32,
        y: span_start(scale, clip.min_y as int, target[1] as int) as u32,
        width: span_length(scale, clip.min_x as int, clip.max_x as int, target[0] as int) as u32,
        height: span_length(scale, clip.min_y as int, clip.max_y as int, target[1] as int) as u32,
    }
}

/// Along one axis a span starts within the axis and ends within it, and an
/// empty span, or one that lies before or behind the axis, covers nothing.
pub proof fn lemma_span(scale: Scale, near: int, far: int, limit: int)
    requires
        scale.wf(),
        0 <= limit,
    ensures
        0 <= span_start(scale, near, limit),
        0 <= span_length(scale, near, far, limit),
        span_start(scale, near, limit) + span_length(scale, near, far, limit) <= limit,
        far <= near ==> span_length(scale, near, far, limit) == 0,
        far <= 0 ==> span_length(scale, near, far, limit) == 0,
        near * scale.pixels() >= limit * scale.units() ==> span_length(scale, near, far, limit)
            == 0,
{
    scale.lemma_sides();
    let p = scale.pixels();
    let u = scale.units();
    if far <= near {
        assert(far * p <= near * p) by (nonlinear_arith)
            requires
                far <= near,
                p > 0,
        ;
        lemma_round_div_monotone(far * p, near * p, u);
    }
    if far <= 0 {
        assert(far * p <= 0) by (nonlinear_arith)
            requires
                far <= 0,
                p > 0,
        ;
        lemma_round_div_bounds(far * p, u);
    }
    if near * p >= limit * u {
        lemma_round_div_monotone(limit * u, near * p, u);
        lemma_round_div_exact(limit, u);
    }
}

/// The scissor of any clip rectangle lies within the target.
pub proof fn lemma_scissor_within_target(clip: Rect, scale: Scale, target: [u32; 2])
    requires
        scale.wf(),
    ensures
        scissor_of(clip, scale, target).within(target),
{
    lemma_span(scale, clip.min_x as int, clip.max_x as int, target[0] as int);
    lemma_span(scale, clip.min_y as int, clip.max_y as int, target[1] as int);
}

/// A clip rectangle that is empty or lies outside the target has an empty
/// scissor.
pub proof fn lemma_scissor_outside_is_empty(clip: Rect, scale: Scale, target: [u32; 2])
    requires
        scale.wf(),
        clip.is_empty() || clip.lies_outside(scale, target),
    ensures
        scissor_of(clip, scale, target).is_empty(),
{
    lemma_span(scale, clip.min_x as int, clip.max_x as int, target[0] as int);
    lemma_span(scale, clip.min_y as int, clip.max_y as int, target[1] as int);
}

/// Scales a clip rectangle to physical pixels and cuts it down to the
/// target.
pub fn clip_to_target(clip: Rect, scale: Scale, target: [u32; 2]) -> (s: Scissor)
    ensures
        s == scissor_of(clip, scale, target),
        s.within(target),
{
    let x: u32 = scale.clamped_to_pixels(clip.min_x, 0, target[0]);
    let right: u32 = scale.clamped_to_pixels(clip.max_x, x, target[0]);
    let y: u32 = scale.clamped_to_pixels(clip.min_y, 0, target[1]);
    let bottom: u32 = scale.clamped_to_pixels(clip.max_y, y, target[1]);
    Scissor { x, y, width: right - x, height: bottom - y }
}

} // verus!
