//! Alpha compositing: laying one image over another, and flattening an image
//! onto an opaque background.

use crate::colour::{Rgb, Rgba};
use crate::raster::{lemma_images_equal, lemma_index_in_bounds, Image, ImageView};
use crate::layout::DrawingUtils;
use vstd::prelude::*;

verus! {

/// Denominator of the source-over blend: the resulting alpha, scaled by
/// 255 * 255.
pub open spec fn blend_weight(src_alpha: u8, dst_alpha: u8) -> int {
    src_alpha * 255 + dst_alpha * (255 - src_alpha)
}

/// One colour channel of `src` over `dst`:
/// `(src * src_a + dst * dst_a * (1 - src_a)) / out_a` with the alphas as
/// fractions of 255, rounded down.
pub open spec fn blend_channel(src: u8, dst: u8, src_alpha: u8, dst_alpha: u8) -> int {
    (src * src_alpha * 255 + dst * dst_alpha * (255 - src_alpha)) / blend_weight(
        src_alpha,
        dst_alpha,
    )
}

/// Alpha of `src` over `dst`: `src_a + dst_a * (1 - src_a)` as a fraction of
/// 255, rounded down.
pub open spec fn blend_alpha(src_alpha: u8, dst_alpha: u8) -> int {
    blend_weight(src_alpha, dst_alpha) / 255
}

/// The pixel that results from laying `src` over `dst`.  A fully transparent
/// source leaves the destination as it is.
pub open spec fn source_over(src: Rgba, dst: Rgba) -> Rgba {
    if src.alpha == 0 {
        dst
    } else {
        Rgba {
            red: blend_channel(src.red, dst.red, src.alpha, dst.alpha) as u8,
            green: blend_channel(src.green, dst.green, src.alpha, dst.alpha) as u8,
            blue: blend_channel(src.blue, dst.blue, src.alpha, dst.alpha) as u8,
            alpha: blend_alpha(src.alpha, dst.alpha) as u8,
        }
    }
}

/// The blend of a visible source stays within a byte.
pub proof fn lemma_blend_in_range(src: u8, dst: u8, src_alpha: u8, dst_alpha: u8)
    requires
        src_alpha > 0,
    ensures
        blend_weight(src_alpha, dst_alpha) >= 255,
        0 <= blend_channel(src, dst, src_alpha, dst_alpha) <= 255,
        0 <= blend_alpha(src_alpha, dst_alpha) <= 255,
        0 <= src * src_alpha * 255 + dst * dst_alpha * (255 - src_alpha) <= 255 * blend_weight(
            src_alpha,
            dst_alpha,
        ),
        blend_weight(src_alpha, dst_alpha) <= 255 * 255,
{
    let w = blend_weight(src_alpha, dst_alpha);
    let n = src * src_alpha * 255 + dst * dst_alpha * (255 - src_alpha);
    assert(0 <= dst_alpha * (255 - src_alpha) <= 255 * (255 - src_alpha)) by (nonlinear_arith)
        requires
            0 <= dst_alpha <= 255,
            0 <= src_alpha <= 255,
    ;
    assert(0 <= src * src_alpha * 255 <= 255 * (src_alpha * 255)) by (nonlinear_arith)
        requires
            0 <= src <= 255,
            0 <= src_alpha <= 255,
    ;
    assert(0 <= dst * dst_alpha * (255 - src_alpha) <= 255 * (dst_alpha * (255 - src_alpha)))
        by (nonlinear_arith)
        requires
            0 <= dst <= 255,
            0 <= dst_alpha <= 255,
            0 <= src_alpha <= 255,
    ;
    assert(0 <= n / w <= 255) by (nonlinear_arith)
        requires
            0 <= n <= 255 * w,
            w >= 255,
    ;
    assert(0 <= w / 255 <= 255) by (nonlinear_arith)
        requires
            255 <= w <= 255 * 255,
    ;
}

/// The pixel at `(x, y)` of `base` once `overlay` is laid over it with its
/// top left corner at `(left, top)`.
pub open spec fn composite_at(
    base: ImageView,
    overlay: ImageView,
    left: int,
    top: int,
    x: int,
    y: int,
) -> Rgba {
    if overlay.contains(x - left, y - top) {
        source_over(overlay.at(x - left, y - top), base.at(x, y))
    } else {
        base.at(x, y)
    }
}

/// `base` with `overlay` laid over it at `(left, top)`.  What of the overlay
/// falls outside the base is dropped.
pub open spec fn composite(base: ImageView, overlay: ImageView, left: int, top: int) -> ImageView {
    ImageView {
        width: base.width,
        height: base.height,
        pixels: Seq::new(
            base.pixels.len(),
            |k: int| composite_at(base, overlay, left, top, k % base.width, k / base.width),
        ),
    }
}

/// The composite has the size of the base, and its pixel at each place is the
/// overlay's pixel over the base's.
pub proof fn lemma_composite_pixels(base: ImageView, overlay: ImageView, left: int, top: int)
    requires
        base.wf(),
    ensures
        composite(base, overlay, left, top).wf(),
        composite(base, overlay, left, top).width == base.width,
        composite(base, overlay, left, top).height == base.height,
        forall|x: int, y: int|
            base.contains(x, y) ==> #[trigger] composite(base, overlay, left, top).at(x, y)
                == composite_at(base, overlay, left, top, x, y),
{
    assert forall|x: int, y: int| base.contains(x, y) implies #[trigger] composite(
        base,
        overlay,
        left,
        top,
    ).at(x, y) == composite_at(base, overlay, left, top, x, y) by {
        lemma_index_in_bounds(base.width, base.height, x, y);
    }
}

/// Laying a fully transparent overlay over an image changes no pixel of it,
/// wherever the overlay is put.
pub proof fn lemma_transparent_overlay_is_identity(
    base: ImageView,
    overlay: ImageView,
    left: int,
    top: int,
)
    requires
        base.wf(),
        forall|x: int, y: int| overlay.contains(x, y) ==> (#[trigger] overlay.at(x, y)).alpha == 0,
    ensures
        composite(base, overlay, left, top) == base,
{
    lemma_composite_pixels(base, overlay, left, top);
    let out = composite(base, overlay, left, top);
    assert forall|x: int, y: int| out.contains(x, y) implies #[trigger] out.at(x, y) == base.at(
        x,
        y,
    ) by {
        if overlay.contains(x - left, y - top) {
            assert(overlay.at(x - left, y - top).alpha == 0);
        }
    }
    lemma_images_equal(out, base);
}

/// True when the overlay pixel `(ox, oy)` comes before `(col, row)` in
/// row-major order.
pub open spec fn laid_before(ox: int, oy: int, col: int, row: int) -> bool {
    oy < row || (oy == row && ox < col)
}

/// One colour channel of a pixel flattened onto a background: the
/// source-over blend divided by the resulting alpha, rounded to the nearest
/// integer (a half rounds up).
pub open spec fn flatten_channel(fg: u8, bg: u8, fg_alpha: u8, bg_alpha: u8) -> int {
    let weight = blend_weight(fg_alpha, bg_alpha);
    (2 * (fg * fg_alpha * 255 + bg * bg_alpha * (255 - fg_alpha)) + weight) / (2 * weight)
}

/// `pixel` flattened onto `background`.  Black where both are fully
/// transparent.
pub open spec fn flatten(pixel: Rgba, background: Rgba) -> Rgb {
    if blend_weight(pixel.alpha, background.alpha) == 0 {
        Rgb { red: 0, green: 0, blue: 0 }
    } else {
        Rgb {
            red: flatten_channel(pixel.red, background.red, pixel.alpha, background.alpha) as u8,
            green: flatten_channel(
                pixel.green,
                background.green,
                pixel.alpha,
                background.alpha,
            ) as u8,
            blue: flatten_channel(pixel.blue, background.blue, pixel.alpha, background.alpha) as u8,
        }
    }
}

/// A flattened channel stays within a byte.
pub proof fn lemma_flatten_in_range(fg: u8, bg: u8, fg_alpha: u8, bg_alpha: u8)
    requires
        blend_weight(fg_alpha, bg_alpha) > 0,
    ensures
        0 <= flatten_channel(fg, bg, fg_alpha, bg_alpha) <= 255,
        0 <= fg * fg_alpha * 255 + bg * bg_alpha * (255 - fg_alpha) <= 255 * blend_weight(
            fg_alpha,
            bg_alpha,
        ),
        blend_weight(fg_alpha, bg_alpha) <= 255 * 255,
{
    let w = blend_weight(fg_alpha, bg_alpha);
    let n = fg * fg_alpha * 255 + bg * bg_alpha * (255 - fg_alpha);
    assert(0 <= bg_alpha * (255 - fg_alpha) <= 255 * (255 - fg_alpha)) by (nonlinear_arith)
        requires
            0 <= bg_alpha <= 255,
            0 <= fg_alpha <= 255,
    ;
    assert(0 <= fg * fg_alpha * 255 <= 255 * (fg_alpha * 255)) by (nonlinear_arith)
        requires
            0 <= fg <= 255,
            0 <= fg_alpha <= 255,
    ;
    assert(0 <= bg * bg_alpha * (255 - fg_alpha) <= 255 * (bg_alpha * (255 - fg_alpha)))
        by (nonlinear_arith)
        requires
            0 <= bg <= 255,
            0 <= bg_alpha <= 255,
            0 <= fg_alpha <= 255,
    ;
    assert(0 <= (2 * n + w) / (2 * w) <= 255) by (nonlinear_arith)
        requires
            0 <= n <= 255 * w,
            w > 0,
    ;
}

/// The red, green or blue byte of `colour`, by its position 0, 1 or 2.
pub open spec fn rgb_byte(colour: Rgb, channel: int) -> u8 {
    if channel == 0 {
        colour.red
    } else if channel == 1 {
        colour.green
    } else {
        colour.blue
    }
}

/// The bytes of `pixels` flattened onto `background`: three for each pixel,
/// red, green, blue.
pub open spec fn flattened_bytes(pixels: Seq<Rgba>, background: Rgba) -> Seq<u8> {
    Seq::new(3 * pixels.len(), |i: int| rgb_byte(flatten(pixels[i / 3], background), i % 3))
}

impl DrawingUtils {
    /// One colour channel of a visible source over a destination.
    fn blend_one(src: u8, dst: u8, src_alpha: u8, dst_alpha: u8) -> (out: u8)
        requires
            src_alpha > 0,
        ensures
            out == blend_channel(src, dst, src_alpha, dst_alpha),
    {
        proof {
            lemma_blend_in_range(src, dst, src_alpha, dst_alpha);
        }
        let sa: u32 = src_alpha as u32;
        let da: u32 = dst_alpha as u32;
        assert(da * (255 - sa) <= 255 * 255) by (nonlinear_arith)
            requires
                da <= 255,
                sa <= 255,
        ;
        let rest: u32 = da * (255 - sa);
        let weight: u32 = sa * 255 + rest;
        assert((src as u32) * sa <= 255 * 255) by (nonlinear_arith)
            requires
                src <= 255,
                sa <= 255,
        ;
        assert((dst as u32) * rest <= 255 * 255 * 255 && (dst as u32) * rest == dst * dst_alpha * (255
            - src_alpha)) by (nonlinear_arith)
            requires
                dst <= 255,
                rest <= 255 * 255,
                rest == dst_alpha * (255 - src_alpha),
        ;
        let out: u32 = ((src as u32) * sa * 255 + (dst as u32) * rest) / weight;
        out as u8
    }

    /// Lays `src` over `dst`.
    pub fn blend_pixel(src: Rgba, dst: Rgba) -> (out: Rgba)
        ensures
            out == source_over(src, dst),
    {
        if src.alpha == 0 {
            return dst;
        }
        proof {
            lemma_blend_in_range(src.red, dst.red, src.alpha, dst.alpha);
        }
        let weight: u32 = (src.alpha as u32) * 255 + (dst.alpha as u32) * (255 - src.alpha as u32);
        Rgba {
            red: Self::blend_one(src.red, dst.red, src.alpha, dst.alpha),
            green: Self::blend_one(src.green, dst.green, src.alpha, dst.alpha),
            blue: Self::blend_one(src.blue, dst.blue, src.alpha, dst.alpha),
            alpha: (weight / 255) as u8,
        }
    }

    /// Lays `overlay` over `base` with its top left corner at `(x, y)`.
    pub fn composite_from(base: &mut Image, overlay: &Image, x: u32, y: u32)
        requires
            old(base)@.wf(),
            overlay@.wf(),
        ensures
            final(base)@ == composite(old(base)@, overlay@, x as int, y as int),
            final(base)@.wf(),
    {
        let base_width: u64 = base.width() as u64;
        let base_height: u64 = base.height() as u64;
        let overlay_width = overlay.width();
        let overlay_height = overlay.height();
        let ghost before = base@;
        let mut oy: u32 = 0;
        while oy < overlay_height
            invariant
                oy <= overlay_height,
                overlay_width == overlay@.width,
                overlay_height == overlay@.height,
                base_width == before.width,
                base_height == before.height,
                before.wf(),
                overlay@.wf(),
                base@.wf(),
                base@.width == before.width,
                base@.height == before.height,
                forall|u: int, v: int|
                    before.contains(u, v) ==> #[trigger] base@.at(u, v) == if overlay@.contains(
                        u - x,
                        v - y,
                    ) && v - y < oy {
                        composite_at(before, overlay@, x as int, y as int, u, v)
                    } else {
                        before.at(u, v)
                    },
            decreases overlay_height - oy,
        {
            let dest_y: u64 = y as u64 + oy as u64;
            let mut ox: u32 = 0;
            while ox < overlay_width
                invariant
                    ox <= overlay_width,
                    oy < overlay_height,
                    dest_y == y + oy,
                    overlay_width == overlay@.width,
                    overlay_height == overlay@.height,
                    base_width == before.width,
                    base_height == before.height,
                    before.wf(),
                    overlay@.wf(),
                    base@.wf(),
                    base@.width == before.width,
                    base@.height == before.height,
                    forall|u: int, v: int|
                        before.contains(u, v) ==> #[trigger] base@.at(u, v) == if overlay@.contains(
                            u - x,
                            v - y,
                        ) && laid_before(u - x, v - y, ox as int, oy as int) {
                            composite_at(before, overlay@, x as int, y as int, u, v)
                        } else {
                            before.at(u, v)
                        },
                decreases overlay_width - ox,
            {
                let dest_x: u64 = x as u64 + ox as u64;
                if dest_x < base_width && dest_y < base_height {
                    let src = overlay.get_pixel(ox, oy);
                    if src.alpha != 0 {
                        let dst = base.get_pixel(dest_x as u32, dest_y as u32);
                        base.put_pixel(dest_x as u32, dest_y as u32, Self::blend_pixel(src, dst));
                    }
                }
                ox += 1;
            }
            oy += 1;
        }
        proof {
            lemma_composite_pixels(before, overlay@, x as int, y as int);
            lemma_images_equal(base@, composite(before, overlay@, x as int, y as int));
        }
    }

    /// Lays `overlay` over `base` with its top left corner at `position`.
    pub fn composite_from_pos(base: &mut Image, overlay: &Image, position: (u32, u32))
        requires
            old(base)@.wf(),
            overlay@.wf(),
        ensures
            final(base)@ == composite(old(base)@, overlay@, position.0 as int, position.1 as int),
            final(base)@.wf(),
    {
        Self::composite_from(base, overlay, position.0, position.1);
    }

    /// One channel of a pixel flattened onto a background of which one of the
    /// two is not fully transparent.
    fn flatten_one(fg: u8, bg: u8, fg_alpha: u8, bg_alpha: u8) -> (out: u8)
        requires
            blend_weight(fg_alpha, bg_alpha) > 0,
        ensures
            out == flatten_channel(fg, bg, fg_alpha, bg_alpha),
    {
        proof {
            lemma_flatten_in_range(fg, bg, fg_alpha, bg_alpha);
        }
        let fa: u32 = fg_alpha as u32;
        let ba: u32 = bg_alpha as u32;
        assert(ba * (255 - fa) <= 255 * 255) by (nonlinear_arith)
            requires
                ba <= 255,
                fa <= 255,
        ;
        let rest: u32 = ba * (255 - fa);
        let weight: u32 = fa * 255 + rest;
        assert((fg as u32) * fa <= 255 * 255) by (nonlinear_arith)
            requires
                fg <= 255,
                fa <= 255,
        ;
        assert((bg as u32) * rest <= 255 * 255 * 255 && (bg as u32) * rest == bg * bg_alpha * (255
            - fg_alpha)) by (nonlinear_arith)
            requires
                bg <= 255,
                rest <= 255 * 255,
                rest == bg_alpha * (255 - fg_alpha),
        ;
        let sum: u32 = (fg as u32) * fa * 255 + (bg as u32) * rest;
        let out: u32 = (2 * sum + weight) / (2 * weight);
        out as u8
    }

    /// Flattens `pixel` onto `background`.
    pub fn flatten_rgba_pixel(pixel: Rgba, background: Rgba) -> (out: Rgb)
        ensures
            out == flatten(pixel, background),
    {
        if pixel.alpha == 0 && background.alpha == 0 {
            return Rgb { red: 0, green: 0, blue: 0 };
        }
        assert(blend_weight(pixel.alpha, background.alpha) > 0) by (nonlinear_arith)
            requires
                pixel.alpha > 0 || background.alpha > 0,
                pixel.alpha <= 255,
                background.alpha <= 255,
        ;
        Rgb {
            red: Self::flatten_one(pixel.red, background.red, pixel.alpha, background.alpha),
            green: Self::flatten_one(pixel.green, background.green, pixel.alpha, background.alpha),
            blue: Self::flatten_one(pixel.blue, background.blue, pixel.alpha, background.alpha),
        }
    }

    /// Flattens every pixel of `image` onto `background` and returns the bytes,
    /// three for each pixel, row after row.
    pub fn flatten_rgba_image(image: &Image, background: Rgba) -> (bytes: Vec<u8>)
        requires
            image@.wf(),
        ensures
            bytes@ == flattened_bytes(image@.pixels, background),
    {
        let pixels = image.pixels();
        let mut bytes: Vec<u8> = Vec::new();
        let mut i: usize = 0;
        while i < pixels.len()
            invariant
                i <= pixels.len(),
                bytes@.len() == 3 * i,
                forall|k: int|
                    0 <= k < 3 * i ==> bytes@[k] == rgb_byte(
                        flatten(pixels@[k / 3], background),
                        k % 3,
                    ),
            decreases pixels.len() - i,
        {
            let flat = Self::flatten_rgba_pixel(pixels[i], background);
            bytes.push(flat.red);
            bytes.push(flat.green);
            bytes.push(flat.blue);
            i += 1;
        }
        assert(bytes@ =~= flattened_bytes(image@.pixels, background));
        bytes
    }
}

} // verus!
