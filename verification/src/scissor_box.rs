//! Rectangles of a render target in physical pixels: the [ScissorBox] that limits
//! which pixels a render call may modify, and the [Viewport] that a render call
//! maps its output to.

use vstd::prelude::*;

use vstd::std_specs::convert::FromSpec;
use vstd::std_specs::convert::FromSpecImpl;

verus! {

/// A rectangle of a screen or render target to which a render call maps its output.
/// All values are given in physical pixels.
#[derive(Debug, Copy, Clone, PartialEq, Eq, Structural)]
pub struct Viewport {
    /// The distance in pixels from the left edge of the target.
    pub x: i32,
    /// The distance in pixels from the bottom edge of the target.
    pub y: i32,
    /// The width of the viewport.
    pub width: u32,
    /// The height of the viewport.
    pub height: u32,
}

impl Viewport {
    /// Creates a viewport which starts at origo (x and y are both zero).
    pub fn new_at_origo(width: u32, height: u32) -> (r: Self)
        ensures
            r == (Viewport { x: 0, y: 0, width, height }),
    {
        Viewport { x: 0, y: 0, width, height }
    }
}

/// Defines the part of the screen or render target that is rendered to.
/// All pixels outside of the scissor box will not be modified.
/// All values should be given in physical pixels.
#[derive(Debug, Copy, Clone, PartialEq, Eq, Structural)]
pub struct ScissorBox {
    /// The distance in pixels from the left edge of the target.
    pub x: i32,
    /// The distance in pixels from the bottom edge of the target.
    pub y: i32,
    /// The width of the box.
    pub width: u32,
    /// The height of the box.
    pub height: u32,
}

/// Where a span that starts at `start` and has the given length ends, the length
/// being read as a signed 32 bit integer as the computation does.
pub open spec fn span_end(start: i32, length: u32) -> int {
    start + (length as i32)
}

/// The larger of two integers.
pub open spec fn max_int(a: int, b: int) -> int {
    if a >= b {
        a
    } else {
        b
    }
}

/// The smaller of two integers.
pub open spec fn min_int(a: int, b: int) -> int {
    if a <= b {
        a
    } else {
        b
    }
}

/// The length of the overlap of two spans, none when they do not overlap.
pub open spec fn overlap_length(a_start: i32, a_length: u32, b_start: i32, b_length: u32) -> int {
    max_int(
        min_int(
            span_end(a_start, a_length) - max_int(a_start as int, b_start as int),
            span_end(b_start, b_length) - max_int(a_start as int, b_start as int),
        ),
        0,
    )
}

/// Whether the overlap of two spans can be computed in 32 bit signed arithmetic.
pub open spec fn overlap_fits(a_start: i32, a_length: u32, b_start: i32, b_length: u32) -> bool {
    let s = max_int(a_start as int, b_start as int);
    &&& i32::MIN <= span_end(a_start, a_length) <= i32::MAX
    &&& i32::MIN <= span_end(b_start, b_length) <= i32::MAX
    &&& i32::MIN <= span_end(a_start, a_length) - s <= i32::MAX
    &&& i32::MIN <= span_end(b_start, b_length) - s <= i32::MAX
}

/// Whether the intersection of two boxes can be computed without overflow.
pub open spec fn intersection_fits(a: ScissorBox, b: ScissorBox) -> bool {
    overlap_fits(a.x, a.width, b.x, b.width) && overlap_fits(a.y, a.height, b.y, b.height)
}

/// The intersection of two boxes: the overlap in each axis, starting at the larger
/// of the two starts, and empty when the boxes do not overlap.
pub open spec fn spec_intersection(a: ScissorBox, b: ScissorBox) -> ScissorBox {
    ScissorBox {
        x: max_int(a.x as int, b.x as int) as i32,
        y: max_int(a.y as int, b.y as int) as i32,
        width: overlap_length(a.x, a.width, b.x, b.width) as u32,
        height: overlap_length(a.y, a.height, b.y, b.height) as u32,
    }
}

impl ScissorBox {
    /// Creates a new scissor box which starts at origo (x and y are both zero).
    pub fn new_at_origo(width: u32, height: u32) -> (r: Self)
        ensures
            r == (ScissorBox { x: 0, y: 0, width, height }),
    {
        ScissorBox { x: 0, y: 0, width, height }
    }

    /// Returns the intersection between this and the other scissor box.
    pub fn intersection(&self, other: ScissorBox) -> (r: Self)
        requires
            intersection_fits(*self, other),
        ensures
            r == spec_intersection(*self, other),
    {
        let x = if self.x >= other.x {
            self.x
        } else {
            other.x
        };
        let y = if self.y >= other.y {
            self.y
        } else {
            other.y
        };
        let w0 = self.x + self.width as i32 - x;
        let w1 = other.x + other.width as i32 - x;
        let wm = if w0 <= w1 {
            w0
        } else {
            w1
        };
        let width = if wm >= 0 {
            wm as u32
        } else {
            0
        };
        let h0 = self.y + self.height as i32 - y;
        let h1 = other.y + other.height as i32 - y;
        let hm = if h0 <= h1 {
            h0
        } else {
            h1
        };
        let height = if hm >= 0 {
            hm as u32
        } else {
            0
        };
        ScissorBox { x, y, width, height }
    }
}

/// What an intersection is, axis by axis (for boxes no wider or taller than the
/// largest 32 bit signed number, whose ends the computation can reach): it starts
/// at the later of the two starts; where the boxes overlap it ends where the first
/// of the two boxes ends, and where they do not it is empty. So a box intersected
/// with a box inside it is the inner box.
pub proof fn lemma_intersection_ends(a: ScissorBox, b: ScissorBox)
    requires
        intersection_fits(a, b),
        a.width <= i32::MAX,
        a.height <= i32::MAX,
        b.width <= i32::MAX,
        b.height <= i32::MAX,
    ensures
        ({
            let r = spec_intersection(a, b);
            let x_start = if a.x >= b.x { a.x as int } else { b.x as int };
            let y_start = if a.y >= b.y { a.y as int } else { b.y as int };
            let x_end = if a.x + a.width <= b.x + b.width { a.x + a.width } else { b.x + b.width };
            let y_end = if a.y + a.height <= b.y + b.height { a.y + a.height } else { b.y + b.height };
            &&& r.x == x_start
            &&& r.y == y_start
            &&& (if x_end > x_start { r.x + r.width == x_end } else { r.width == 0 })
            &&& (if y_end > y_start { r.y + r.height == y_end } else { r.height == 0 })
        }),
        (a.x <= b.x && b.x + b.width <= a.x + a.width && a.y <= b.y && b.y + b.height <= a.y
            + a.height) ==> spec_intersection(a, b) == b,
{
}

/// The intersection of two boxes does not depend on their order.
pub proof fn lemma_intersection_commutative(a: ScissorBox, b: ScissorBox)
    requires
        intersection_fits(a, b),
    ensures
        intersection_fits(b, a),
        spec_intersection(a, b) == spec_intersection(b, a),
{
}

/// A box intersected with itself is the box, as long as its size fits the signed
/// 32 bit arithmetic of the computation.
pub proof fn lemma_intersection_idempotent(a: ScissorBox)
    requires
        intersection_fits(a, a),
        a.width <= i32::MAX,
        a.height <= i32::MAX,
    ensures
        spec_intersection(a, a) == a,
{
}

/// The intersection lies inside both boxes: it starts no earlier and ends no later
/// than either of them in each axis.
pub proof fn lemma_intersection_inside(a: ScissorBox, b: ScissorBox)
    requires
        intersection_fits(a, b),
        a.width <= i32::MAX,
        a.height <= i32::MAX,
        b.width <= i32::MAX,
        b.height <= i32::MAX,
    ensures
        ({
            let r = spec_intersection(a, b);
            &&& r.x >= a.x && r.x >= b.x
            &&& r.y >= a.y && r.y >= b.y
            &&& r.width > 0 ==> r.x + r.width <= a.x + a.width && r.x + r.width <= b.x + b.width
            &&& r.height > 0 ==> r.y + r.height <= a.y + a.height && r.y + r.height <= b.y
                + b.height
        }),
{
}

impl From<Viewport> for ScissorBox {
    fn from(viewport: Viewport) -> (r: Self) {
        ScissorBox { x: viewport.x, y: viewport.y, width: viewport.width, height: viewport.height }
    }
}

impl FromSpecImpl<Viewport> for ScissorBox {
    open spec fn obeys_from_spec() -> bool {
        true
    }

    open spec fn from_spec(v: Viewport) -> ScissorBox {
        ScissorBox { x: v.x, y: v.y, width: v.width, height: v.height }
    }
}

impl From<ScissorBox> for Viewport {
    fn from(scissor_box: ScissorBox) -> (r: Self) {
        Viewport {
            x: scissor_box.x,
            y: scissor_box.y,
            width: scissor_box.width,
            height: scissor_box.height,
        }
    }
}

impl FromSpecImpl<ScissorBox> for Viewport {
    open spec fn obeys_from_spec() -> bool {
        true
    }

    open spec fn from_spec(v: ScissorBox) -> Viewport {
        Viewport { x: v.x, y: v.y, width: v.width, height: v.height }
    }
}

/// Converting a viewport into a scissor box and back gives the viewport again.
pub proof fn lemma_viewport_round_trip(v: Viewport)
    ensures
        <Viewport as FromSpec<ScissorBox>>::from_spec(
            <ScissorBox as FromSpec<Viewport>>::from_spec(v),
        ) == v,
{
}

} // verus!
