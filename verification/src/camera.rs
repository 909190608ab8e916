//! Camera model: pure data mapping world position, zoom and aspect ratio
//! to a view configuration.
//!
//! The camera is a value object with no hidden state: its state is fully
//! determined by (position, zoom, aspect ratio). World positions and zoom
//! factors are exact rationals, so the aspect-ratio arithmetic can be
//! stated and proved exactly; the GPU backend converts them to its own
//! floating-point form outside the library.

use vstd::prelude::*;

verus! {

/// An exact rational number `num / den` with a positive denominator.
#[derive(Clone, Copy, Debug, PartialEq, Eq, Structural)]
pub struct Frac {
    pub num: i64,
    pub den: i64,
}

impl Frac {
    /// A rational is well formed when its denominator is positive.
    pub open spec fn wf(self) -> bool {
        self.den > 0
    }

    /// Two rationals are equal as numbers when they cross-multiply equally.
    pub open spec fn same_value(self, other: Frac) -> bool {
        self.num * other.den == other.num * self.den
    }

    pub fn new(num: i64, den: i64) -> (r: Frac)
        requires
            den > 0,
        ensures
            r == (Frac { num, den }),
            r.wf(),
    {
        Frac { num, den }
    }

    /// The rational for a whole number.
    pub fn whole(num: i64) -> (r: Frac)
        ensures
            r == (Frac { num, den: 1 }),
            r.wf(),
    {
        Frac { num, den: 1 }
    }
}

/// Camera that defines a view into the map.
///
/// The aspect ratio is kept as the exact pair width:height of the output
/// resolution it was switched to, so `aspect ratio == W / H` holds by
/// construction and proportional resolutions give the same ratio.
#[derive(Clone, Copy, Debug, PartialEq, Eq, Structural)]
pub struct Camera {
    /// World position of the camera center, in tiles.
    pub pos_x: Frac,
    pub pos_y: Frac,
    /// Zoom per axis; may be non-uniform.
    pub zoom_x: Frac,
    pub zoom_y: Frac,
    /// Aspect ratio numerator (output width) and denominator (output height).
    pub aspect_w: u32,
    pub aspect_h: u32,
}

impl Camera {
    pub open spec fn wf(self) -> bool {
        &&& self.pos_x.wf()
        &&& self.pos_y.wf()
        &&& self.zoom_x.wf()
        &&& self.zoom_y.wf()
        &&& self.aspect_w > 0
        &&& self.aspect_h > 0
    }

    /// The camera's aspect ratio equals `w / h`, as exact rationals.
    pub open spec fn aspect_ratio_is(self, w: u32, h: u32) -> bool {
        self.aspect_w * h == w * self.aspect_h
    }

    /// The camera state after `new(initial_zoom)`: origin position, the
    /// given zoom on both axes, square aspect ratio.
    pub open spec fn spec_new(initial_zoom: Frac) -> Camera {
        Camera {
            pos_x: Frac { num: 0, den: 1 },
            pos_y: Frac { num: 0, den: 1 },
            zoom_x: initial_zoom,
            zoom_y: initial_zoom,
            aspect_w: 1,
            aspect_h: 1,
        }
    }

    /// Default zoom, position (0, 0), aspect ratio 1:1.
    pub fn new(initial_zoom: Frac) -> (c: Camera)
        requires
            initial_zoom.wf(),
        ensures
            c == Camera::spec_new(initial_zoom),
            c.wf(),
    {
        Camera {
            pos_x: Frac { num: 0, den: 1 },
            pos_y: Frac { num: 0, den: 1 },
            zoom_x: initial_zoom,
            zoom_y: initial_zoom,
            aspect_w: 1,
            aspect_h: 1,
        }
    }

    /// Recompute the projection for a new output resolution, so that one
    /// world unit maps consistently regardless of the output aspect.
    /// Position and zoom are untouched.
    pub fn switch_aspect_ratio(&mut self, width: u32, height: u32)
        requires
            width > 0,
            height > 0,
        ensures
            final(self).aspect_w == width,
            final(self).aspect_h == height,
            final(self).pos_x == old(self).pos_x,
            final(self).pos_y == old(self).pos_y,
            final(self).zoom_x == old(self).zoom_x,
            final(self).zoom_y == old(self).zoom_y,
            final(self).aspect_ratio_is(width, height),
    {
        self.aspect_w = width;
        self.aspect_h = height;
    }

    /// Pure mutation of the zoom; no other state changes.
    pub fn set_zoom(&mut self, zoom_x: Frac, zoom_y: Frac)
        requires
            zoom_x.wf(),
            zoom_y.wf(),
        ensures
            *final(self) == (Camera { zoom_x, zoom_y, ..*old(self) }),
    {
        self.zoom_x = zoom_x;
        self.zoom_y = zoom_y;
    }

    /// Pure mutation of the position; no other state changes.
    pub fn set_position(&mut self, pos_x: Frac, pos_y: Frac)
        requires
            pos_x.wf(),
            pos_y.wf(),
        ensures
            *final(self) == (Camera { pos_x, pos_y, ..*old(self) }),
    {
        self.pos_x = pos_x;
        self.pos_y = pos_y;
    }

    /// Configure the camera for one frame from the requested render
    /// parameters: aspect ratio from the output resolution, uniform zoom,
    /// world position. After this call the camera state is fully determined
    /// by the arguments — there is no hidden state and no history.
    pub fn configure(&mut self, zoom: Frac, width: u32, height: u32, pos_x: Frac, pos_y: Frac)
        requires
            zoom.wf(),
            pos_x.wf(),
            pos_y.wf(),
            width > 0,
            height > 0,
        ensures
            *final(self) == (Camera {
                pos_x,
                pos_y,
                zoom_x: zoom,
                zoom_y: zoom,
                aspect_w: width,
                aspect_h: height,
            }),
            final(self).wf(),
            final(self).aspect_ratio_is(width, height),
    {
        self.switch_aspect_ratio(width, height);
        self.set_zoom(zoom, zoom);
        self.set_position(pos_x, pos_y);
    }
}

/// Two resolutions with proportional width/height give the same aspect
/// ratio: a camera configured with identical zoom and position at `(W, H)`
/// and one at `(k·W, k·H)` agree on position and zoom, and their aspect
/// ratios are the same rational number — the framing is identical, only
/// the scale differs.
pub proof fn lemma_proportional_resolutions_same_framing(
    a: Camera,
    b: Camera,
    zoom: Frac,
    pos_x: Frac,
    pos_y: Frac,
    width: u32,
    height: u32,
    k: u32,
)
    requires
        width > 0,
        height > 0,
        k > 0,
        k * width <= u32::MAX,
        k * height <= u32::MAX,
        a == (Camera { pos_x, pos_y, zoom_x: zoom, zoom_y: zoom, aspect_w: width, aspect_h: height }),
        b == (Camera {
            pos_x,
            pos_y,
            zoom_x: zoom,
            zoom_y: zoom,
            aspect_w: (k * width) as u32,
            aspect_h: (k * height) as u32,
        }),
    ensures
        a.pos_x == b.pos_x && a.pos_y == b.pos_y,
        a.zoom_x == b.zoom_x && a.zoom_y == b.zoom_y,
        a.aspect_w * b.aspect_h == b.aspect_w * a.aspect_h,
{
    assert(width * (k * height) == (k * width) * height) by (nonlinear_arith);
}

} // verus!
