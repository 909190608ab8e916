//! The draw-order model of the render pass.
//!
//! One render pass records exactly two draw phases in fixed order:
//! background first, foreground second. This module states what that order
//! means for the output: at each pixel, the draws are composited in order,
//! and the last visible sample covers everything drawn below it. A sample
//! with alpha zero leaves the pixel untouched; samples are otherwise taken
//! as solid — fractional blending between layers is the GPU backend's
//! concern and is not modeled here.

use vstd::prelude::*;

use crate::image::{Image, Rgba};

verus! {

/// The two draw phases of one render pass, in their required order.
#[derive(Clone, Copy, Debug, PartialEq, Eq, Structural)]
pub enum DrawPhase {
    /// Tile layers behind the game layer.
    Background,
    /// Layers above and including the interactive elements.
    Foreground,
}

/// The phases a render pass records, in order: background, then
/// foreground. Reversing this order is a visible-output defect.
pub fn draw_phases() -> (v: Vec<DrawPhase>)
    ensures
        v@.len() == 2,
        v@[0] is Background,
        v@[1] is Foreground,
{
    let mut v: Vec<DrawPhase> = Vec::new();
    v.push(DrawPhase::Background);
    v.push(DrawPhase::Foreground);
    v
}

/// A drawn sample covers the pixel when it is visible at all.
pub open spec fn covers(draw: Option<Rgba>) -> bool {
    draw is Some && draw->0.a != 0
}

/// The color of one pixel after compositing `draws` in order over the
/// clear color: the last covering sample wins; where nothing covers, the
/// clear color remains.
pub open spec fn composite(clear: Rgba, draws: Seq<Option<Rgba>>) -> Rgba
    decreases draws.len(),
{
    if draws.len() == 0 {
        clear
    } else if covers(draws.last()) {
        draws.last()->0
    } else {
        composite(clear, draws.drop_last())
    }
}

/// Composite the samples drawn at one pixel, in draw order, over the clear
/// color.
pub fn composite_pixel(clear: Rgba, draws: &Vec<Option<Rgba>>) -> (r: Rgba)
    ensures
        r == composite(clear, draws@),
{
    let n: usize = draws.len();
    let mut acc: Rgba = clear;
    let mut i: usize = 0;
    while i < n
        invariant
            i <= n,
            n == draws@.len(),
            acc == composite(clear, draws@.take(i as int)),
        decreases n - i,
    {
        proof {
            assert(draws@.take(i + 1).drop_last() =~= draws@.take(i as int));
            assert(draws@.take(i + 1).last() == draws@[i as int]);
        }
        match draws[i] {
            Some(c) => {
                if c.a != 0 {
                    acc = c;
                }
            },
            None => {},
        }
        i += 1;
    }
    proof {
        assert(draws@.take(n as int) =~= draws@);
    }
    acc
}

/// The draw order is observable: a visible sample drawn in a later phase
/// covers everything drawn below it at the same pixel. If position `i`
/// draws the visible color `c` and nothing after `i` covers the pixel, the
/// composited pixel is exactly `c`, whatever the earlier phases drew.
pub proof fn lemma_last_visible_draw_wins(
    clear: Rgba,
    draws: Seq<Option<Rgba>>,
    i: int,
    c: Rgba,
)
    requires
        0 <= i < draws.len(),
        draws[i] == Some(c),
        c.a != 0,
        forall|j: int| i < j < draws.len() ==> !covers(draws[j]),
    ensures
        composite(clear, draws) == c,
    decreases draws.len(),
{
    if i == draws.len() - 1 {
        assert(covers(draws.last()));
    } else {
        assert(!covers(draws.last()));
        lemma_last_visible_draw_wins(clear, draws.drop_last(), i, c);
    }
}

/// A foreground-layer sample placed exactly over a background-layer sample
/// at the same pixel shows the foreground color in the output.
pub proof fn lemma_foreground_over_background(clear: Rgba, background: Rgba, foreground: Rgba)
    requires
        foreground.a != 0,
    ensures
        composite(clear, seq![Some(background), Some(foreground)]) == foreground,
{
    lemma_last_visible_draw_wins(clear, seq![Some(background), Some(foreground)], 1, foreground);
}

/// The color every pixel of a frame takes when each layer is a flat,
/// frame-covering color, composited in draw order over the clear color.
pub open spec fn flat_result(clear: Rgba, colors: Seq<Rgba>) -> Rgba {
    composite(clear, colors.map_values(|c: Rgba| Some(c)))
}

/// Render one frame of flat, frame-covering layers: every layer paints the
/// whole frame with one color, in draw order, over the clear color. Every
/// output pixel therefore takes the composited color, and the output has
/// exactly `width * height` RGBA8 pixels.
pub fn render_flat_frame(width: u32, height: u32, clear: Rgba, layer_colors: &Vec<Rgba>) -> (img:
    Image)
    requires
        width * height <= usize::MAX,
    ensures
        img.wf(),
        img.width == width,
        img.height == height,
        forall|i: int|
            0 <= i < width * height ==> img.pixels@[i] == flat_result(clear, layer_colors@),
    {
    let n: usize = layer_colors.len();
    let mut draws: Vec<Option<Rgba>> = Vec::new();
    let mut i: usize = 0;
    while i < n
        invariant
            i <= n,
            n == layer_colors@.len(),
            draws@.len() == i,
            forall|j: int| 0 <= j < i ==> draws@[j] == Some(layer_colors@[j]),
        decreases n - i,
    {
        draws.push(Some(layer_colors[i]));
        i += 1;
    }
    proof {
        assert(draws@ =~= layer_colors@.map_values(|c: Rgba| Some(c)));
    }
    let color = composite_pixel(clear, &draws);
    Image::filled(width, height, color)
}

/// Rendering is deterministic: two frames rendered from identical
/// parameters — same resolution, same clear color, same layer colors in
/// the same order — hold identical pixels.
pub proof fn lemma_flat_frame_deterministic(
    a: Image,
    b: Image,
    width: u32,
    height: u32,
    clear: Rgba,
    colors: Seq<Rgba>,
)
    requires
        a.wf(),
        b.wf(),
        a.width == width && a.height == height,
        b.width == width && b.height == height,
        forall|i: int| 0 <= i < width * height ==> a.pixels@[i] == flat_result(clear, colors),
        forall|i: int| 0 <= i < width * height ==> b.pixels@[i] == flat_result(clear, colors),
    ensures
        a.pixels@ =~= b.pixels@,
{
}

} // verus!
