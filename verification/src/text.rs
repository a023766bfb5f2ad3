//! A line of text: glyphs laid side by side into an image.
//!
//! The glyphs come rasterized, each a rectangle of coverage values with its
//! place relative to the pen.  This module lays them out: it measures the
//! line, picks where it starts, and paints every covered pixel.

use crate::colour::Rgba;
use crate::compose::laid_before;
use crate::layout::{DrawingUtils, TextAlign};
use crate::raster::{
    lemma_images_equal, lemma_index_in_bounds, transparent, Image, ImageView, MAX_DIMENSION,
};
use vstd::prelude::*;

verus! {

/// A rasterized glyph as mathematical values.
pub struct GlyphView {
    /// Width of the bitmap.
    pub width: int,
    /// Height of the bitmap.
    pub height: int,
    /// Distance from the pen to the left edge of the bitmap.
    pub xmin: int,
    /// Distance from the baseline up to the bottom edge of the bitmap.
    pub ymin: int,
    /// How far the pen moves on.
    pub advance: int,
    /// Coverage of each pixel, row after row from the top.
    pub bitmap: Seq<u8>,
}

impl GlyphView {
    /// The bitmap has as many values as its size says.
    pub open spec fn wf(self) -> bool {
        &&& 0 <= self.width <= MAX_DIMENSION
        &&& 0 <= self.height <= MAX_DIMENSION
        &&& 0 <= self.advance <= u32::MAX
        &&& self.bitmap.len() == self.width * self.height
    }

    /// Coverage of the image pixel `(px, py)` by this glyph when the top left
    /// corner of its bitmap stands at `(left, top)`; 0 outside the bitmap.
    pub open spec fn coverage_at(self, left: int, top: int, px: int, py: int) -> u8 {
        if 0 <= px - left < self.width && 0 <= py - top < self.height {
            self.bitmap[(py - top) * self.width + (px - left)]
        } else {
            0
        }
    }
}

/// A rasterized glyph.
#[derive(Debug, Clone)]
pub struct Glyph {
    width: u32,
    height: u32,
    xmin: i32,
    ymin: i32,
    advance: u32,
    bitmap: Vec<u8>,
}

impl View for Glyph {
    type V = GlyphView;

    closed spec fn view(&self) -> GlyphView {
        GlyphView {
            width: self.width as int,
            height: self.height as int,
            xmin: self.xmin as int,
            ymin: self.ymin as int,
            advance: self.advance as int,
            bitmap: self.bitmap@,
        }
    }
}

impl Glyph {
    /// A glyph from its metrics and its bitmap; `None` unless the bitmap has
    /// `width * height` values and neither side is above the largest
    /// dimension of an image.
    pub fn new(width: u32, height: u32, xmin: i32, ymin: i32, advance: u32, bitmap: Vec<u8>) -> (glyph:
        Option<Glyph>)
        ensures
            glyph is Some <==> (width <= MAX_DIMENSION && height <= MAX_DIMENSION && bitmap@.len()
                == width * height),
            glyph matches Some(g) ==> g@.wf() && g@ == (GlyphView {
                width: width as int,
                height: height as int,
                xmin: xmin as int,
                ymin: ymin as int,
                advance: advance as int,
                bitmap: bitmap@,
            }),
    {
        if width > MAX_DIMENSION || height > MAX_DIMENSION {
            return None;
        }
        assert(width * height <= MAX_DIMENSION * MAX_DIMENSION) by (nonlinear_arith)
            requires
                width <= MAX_DIMENSION,
                height <= MAX_DIMENSION,
        ;
        if bitmap.len() != (width as usize) * (height as usize) {
            return None;
        }
        Some(Glyph { width, height, xmin, ymin, advance, bitmap })
    }
}

/// The views of the glyphs of a line.
pub open spec fn glyph_views(glyphs: Seq<Glyph>) -> Seq<GlyphView> {
    Seq::new(glyphs.len(), |i: int| glyphs[i]@)
}

/// Where the pen stands after the first `n` glyphs of a line that starts at
/// `start`.
pub open spec fn pen_after(glyphs: Seq<GlyphView>, start: int, n: int) -> int
    decreases n,
{
    if n <= 0 {
        start
    } else {
        pen_after(glyphs, start, n - 1) + glyphs[n - 1].advance
    }
}

/// The width of a line: the sum of the advances of its glyphs.
pub open spec fn line_width(glyphs: Seq<GlyphView>) -> int {
    pen_after(glyphs, 0, glyphs.len() as int)
}

/// Where a line of width `text_width` starts in a box of width `width`: at
/// the left edge; so that it ends at the right edge; or in the middle, and
/// at the left edge where the line is wider than the box.
pub open spec fn line_start(width: int, text_width: int, align: TextAlign) -> int {
    match align {
        TextAlign::Left => 0,
        TextAlign::Right => width - text_width,
        TextAlign::Center => if width >= text_width {
            (width - text_width) / 2
        } else {
            0
        },
    }
}

/// Coverage of the pixel `(px, py)` by the first `n` glyphs of a line whose
/// pen starts at `start` on the baseline `baseline`: that of the last glyph
/// that covers the pixel at all.  A glyph's bitmap stands `xmin` right of
/// the pen, its bottom edge `ymin` above the baseline.
pub open spec fn text_coverage(
    glyphs: Seq<GlyphView>,
    start: int,
    baseline: int,
    n: int,
    px: int,
    py: int,
) -> u8
    decreases n,
{
    if n <= 0 {
        0
    } else {
        let glyph = glyphs[n - 1];
        let left = pen_after(glyphs, start, n - 1) + glyph.xmin;
        let top = baseline - glyph.ymin - glyph.height;
        let own = glyph.coverage_at(left, top, px, py);
        if own > 0 {
            own
        } else {
            text_coverage(glyphs, start, baseline, n - 1, px, py)
        }
    }
}

/// A pixel of text: `colour` with the coverage as its alpha, or nothing
/// where the coverage is 0.
pub open spec fn text_pixel(colour: Rgba, coverage: u8) -> Rgba {
    if coverage > 0 {
        colour.with_alpha(coverage)
    } else {
        transparent()
    }
}

/// The picture of a line of glyphs in a box of `width` by `height` pixels.
pub open spec fn text_view(
    glyphs: Seq<GlyphView>,
    width: int,
    height: int,
    baseline: int,
    colour: Rgba,
    align: TextAlign,
) -> ImageView {
    ImageView {
        width,
        height,
        pixels: Seq::new(
            (width * height) as nat,
            |k: int|
                text_pixel(
                    colour,
                    text_coverage(
                        glyphs,
                        line_start(width, line_width(glyphs), align),
                        baseline,
                        glyphs.len() as int,
                        k % width,
                        k / width,
                    ),
                ),
        ),
    }
}

/// Every pixel of the picture of a line shows the coverage of its place.
pub proof fn lemma_text_view(
    glyphs: Seq<GlyphView>,
    width: int,
    height: int,
    baseline: int,
    colour: Rgba,
    align: TextAlign,
)
    requires
        0 <= width <= MAX_DIMENSION,
        0 <= height <= MAX_DIMENSION,
    ensures
        text_view(glyphs, width, height, baseline, colour, align).wf(),
        forall|x: int, y: int|
            text_view(glyphs, width, height, baseline, colour, align).contains(x, y)
                ==> #[trigger] text_view(glyphs, width, height, baseline, colour, align).at(x, y)
                == text_pixel(
                colour,
                text_coverage(
                    glyphs,
                    line_start(width, line_width(glyphs), align),
                    baseline,
                    glyphs.len() as int,
                    x,
                    y,
                ),
            ),
{
    let out = text_view(glyphs, width, height, baseline, colour, align);
    assert(0 <= width * height) by (nonlinear_arith)
        requires
            0 <= width,
            0 <= height,
    ;
    assert forall|x: int, y: int| out.contains(x, y) implies #[trigger] out.at(x, y) == text_pixel(
        colour,
        text_coverage(
            glyphs,
            line_start(width, line_width(glyphs), align),
            baseline,
            glyphs.len() as int,
            x,
            y,
        ),
    ) by {
        lemma_index_in_bounds(width, height, x, y);
    }
}

/// The pen never moves left.
pub proof fn lemma_pen_moves_right(glyphs: Seq<GlyphView>, start: int, n: int)
    requires
        0 <= n <= glyphs.len(),
        forall|i: int| 0 <= i < glyphs.len() ==> (#[trigger] glyphs[i]).wf(),
    ensures
        start <= pen_after(glyphs, start, n) <= start + n * u32::MAX,
        pen_after(glyphs, start, n) == start + pen_after(glyphs, 0, n),
    decreases n,
{
    if n > 0 {
        lemma_pen_moves_right(glyphs, start, n - 1);
        assert((n - 1) * u32::MAX + u32::MAX == n * u32::MAX) by (nonlinear_arith);
    }
}

impl DrawingUtils {
    /// The width of a line of glyphs.
    fn measure(glyphs: &Vec<Glyph>) -> (width: i128)
        requires
            forall|i: int| 0 <= i < glyphs@.len() ==> (#[trigger] glyphs@[i])@.wf(),
        ensures
            width == line_width(glyph_views(glyphs@)),
            0 <= width <= glyphs@.len() * u32::MAX,
    {
        let ghost views = glyph_views(glyphs@);
        let mut width: i128 = 0;
        let mut i: usize = 0;
        while i < glyphs.len()
            invariant
                i <= glyphs.len(),
                views == glyph_views(glyphs@),
                forall|k: int| 0 <= k < glyphs@.len() ==> (#[trigger] glyphs@[k])@.wf(),
                width == pen_after(views, 0, i as int),
                0 <= width <= i * u32::MAX,
            decreases glyphs.len() - i,
        {
            assert(views[i as int] == glyphs@[i as int]@);
            assert(glyphs@[i as int]@.wf());
            assert(i * u32::MAX + u32::MAX == (i + 1) * u32::MAX) by (nonlinear_arith);
            assert(glyphs@.len() * u32::MAX <= usize::MAX * u32::MAX) by (nonlinear_arith)
                requires
                    glyphs@.len() <= usize::MAX,
            ;
            width = width + glyphs[i].advance as i128;
            i += 1;
        }
        width
    }

    /// Lays a line of glyphs into an image of `width` by `height` pixels, in
    /// `colour`, on the baseline `baseline_y`.  Pixels that no glyph covers
    /// stay transparent; what falls outside the image is dropped.
    pub fn draw_text(
        glyphs: &Vec<Glyph>,
        width: u32,
        height: u32,
        baseline_y: i32,
        colour: Rgba,
        align: TextAlign,
    ) -> (image: Image)
        requires
            width <= MAX_DIMENSION,
            height <= MAX_DIMENSION,
            forall|i: int| 0 <= i < glyphs@.len() ==> (#[trigger] glyphs@[i])@.wf(),
        ensures
            image@ == text_view(
                glyph_views(glyphs@),
                width as int,
                height as int,
                baseline_y as int,
                colour,
                align,
            ),
            image@.wf(),
    {
        let ghost views = glyph_views(glyphs@);
        let text_width = Self::measure(glyphs);
        let start: i128 = match align {
            TextAlign::Left => 0,
            TextAlign::Right => width as i128 - text_width,
            TextAlign::Center => if width as i128 >= text_width {
                (width as i128 - text_width) / 2
            } else {
                0
            },
        };
        let count = glyphs.len();
        assert(usize::MAX * u32::MAX <= 0x1_0000_0000_0000_0000 * 0x1_0000_0000) by (nonlinear_arith);
        assert(glyphs@.len() * u32::MAX <= usize::MAX * u32::MAX) by (nonlinear_arith)
            requires
                glyphs@.len() == count,
                count <= usize::MAX,
        ;
        let baseline: i128 = baseline_y as i128;
        let mut image = Image::new(width, height);
        let mut pen: i128 = start;
        let mut n: usize = 0;
        while n < glyphs.len()
            invariant
                n <= glyphs.len(),
                views == glyph_views(glyphs@),
                forall|i: int| 0 <= i < glyphs@.len() ==> (#[trigger] glyphs@[i])@.wf(),
                forall|i: int| 0 <= i < views.len() ==> (#[trigger] views[i]).wf(),
                width <= MAX_DIMENSION,
                height <= MAX_DIMENSION,
                baseline == baseline_y,
                start == line_start(width as int, line_width(views), align),
                -0x1_0000_0000_0000_0000_0000_0000 <= start <= MAX_DIMENSION,
                glyphs@.len() * u32::MAX <= 0x1_0000_0000_0000_0000 * 0x1_0000_0000,
                pen == pen_after(views, start as int, n as int),
                image@.wf(),
                image@.width == width,
                image@.height == height,
                forall|u: int, v: int|
                    image@.contains(u, v) ==> #[trigger] image@.at(u, v) == text_pixel(
                        colour,
                        text_coverage(views, start as int, baseline as int, n as int, u, v),
                    ),
            decreases glyphs.len() - n,
        {
            let glyph = &glyphs[n];
            let ghost g = views[n as int];
            assert(g == glyphs@[n as int]@);
            assert(g.wf());
            proof {
                lemma_pen_moves_right(views, start as int, n as int);
                assert(n * u32::MAX <= glyphs@.len() * u32::MAX) by (nonlinear_arith)
                    requires
                        n <= glyphs@.len(),
                ;
            }
            let left: i128 = pen + glyph.xmin as i128;
            let top: i128 = baseline - glyph.ymin as i128 - glyph.height as i128;
            let ghost before = image@;
            let mut gy: u32 = 0;
            while gy < glyph.height
                invariant
                    gy <= glyph.height,
                    glyph@ == g,
                    g.wf(),
                    left == pen + g.xmin,
                    top == baseline - g.ymin - g.height,
                    -0x1_0000_0000_0000_0000_0000_0000_0000 <= left
                        <= 0x1_0000_0000_0000_0000_0000_0000_0000,
                    -0x1_0000_0000_0000 <= top <= 0x1_0000_0000_0000,
                    width <= MAX_DIMENSION,
                    height <= MAX_DIMENSION,
                    before.wf(),
                    before.width == width,
                    before.height == height,
                    image@.wf(),
                    image@.width == width,
                    image@.height == height,
                    forall|u: int, v: int|
                        image@.contains(u, v) ==> #[trigger] image@.at(u, v) == if g.coverage_at(
                            left as int,
                            top as int,
                            u,
                            v,
                        ) > 0 && v - top < gy {
                            colour.with_alpha(g.coverage_at(left as int, top as int, u, v))
                        } else {
                            before.at(u, v)
                        },
                decreases glyph.height - gy,
            {
                let py: i128 = top + gy as i128;
                let mut gx: u32 = 0;
                while gx < glyph.width
                    invariant
                        gx <= glyph.width,
                        gy < glyph.height,
                        py == top + gy,
                        glyph@ == g,
                        g.wf(),
                        -0x1_0000_0000_0000_0000_0000_0000_0000 <= left
                            <= 0x1_0000_0000_0000_0000_0000_0000_0000,
                        -0x1_0000_0000_0000 <= top <= 0x1_0000_0000_0000,
                        width <= MAX_DIMENSION,
                        height <= MAX_DIMENSION,
                        before.wf(),
                        before.width == width,
                        before.height == height,
                        image@.wf(),
                        image@.width == width,
                        image@.height == height,
                        forall|u: int, v: int|
                            image@.contains(u, v) ==> #[trigger] image@.at(u, v) == if g.coverage_at(
                                left as int,
                                top as int,
                                u,
                                v,
                            ) > 0 && laid_before(u - left, v - top, gx as int, gy as int) {
                                colour.with_alpha(g.coverage_at(left as int, top as int, u, v))
                            } else {
                                before.at(u, v)
                            },
                    decreases glyph.width - gx,
                {
                    proof {
                        lemma_index_in_bounds(g.width, g.height, gx as int, gy as int);
                        assert(g.width * g.height <= MAX_DIMENSION * MAX_DIMENSION)
                            by (nonlinear_arith)
                            requires
                                0 <= g.width <= MAX_DIMENSION,
                                0 <= g.height <= MAX_DIMENSION,
                        ;
                    }
                    let alpha = glyph.bitmap[(gy as usize) * (glyph.width as usize) + (gx as usize)];
                    let px: i128 = left + gx as i128;
                    assert(alpha == g.coverage_at(left as int, top as int, px as int, py as int));
                    if alpha > 0 && px >= 0 && py >= 0 && px < width as i128 && py < height as i128 {
                        image.put_pixel(px as u32, py as u32, colour.with_alpha(alpha));
                    }
                    gx += 1;
                }
                gy += 1;
            }
            pen = pen + glyph.advance as i128;
            n += 1;
        }
        proof {
            lemma_text_view(views, width as int, height as int, baseline_y as int, colour, align);
            lemma_images_equal(
                image@,
                text_view(views, width as int, height as int, baseline_y as int, colour, align),
            );
        }
        image
    }
}

} // verus!
