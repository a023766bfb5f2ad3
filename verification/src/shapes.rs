//! Gradients and boxes.

use crate::colour::Rgba;
use crate::layout::{BorderRadius, BorderThickness, DrawingUtils, GradientDirection};
use crate::raster::{lemma_images_equal, lemma_index_in_bounds, Image, ImageView, MAX_DIMENSION};
use vstd::prelude::*;

verus! {

/// Alpha of row `y` of a gradient of `height` rows that reaches
/// `source_alpha`: the share `y / (height - 1)` of it, counted from the top
/// or from the bottom, rounded to the nearest integer (a half rounds up).
/// A gradient of a single row is fully transparent.
pub open spec fn gradient_alpha(
    source_alpha: u8,
    y: int,
    height: int,
    direction: GradientDirection,
) -> int {
    if height <= 1 {
        0
    } else {
        let step = match direction {
            GradientDirection::TopToBottom => y,
            GradientDirection::BottomToTop => height - 1 - y,
        };
        (2 * source_alpha * step + (height - 1)) / (2 * (height - 1))
    }
}

/// A gradient: `colour` with an alpha that grows row by row.
pub open spec fn gradient_view(
    width: int,
    height: int,
    colour: Rgba,
    direction: GradientDirection,
) -> ImageView {
    ImageView {
        width,
        height,
        pixels: Seq::new(
            (width * height) as nat,
            |k: int|
                colour.with_alpha(gradient_alpha(colour.alpha, k / width, height, direction) as u8),
        ),
    }
}

/// Every row of a gradient has the alpha of its place.
pub proof fn lemma_gradient_view(width: int, height: int, colour: Rgba, direction: GradientDirection)
    requires
        0 <= width <= MAX_DIMENSION,
        0 <= height <= MAX_DIMENSION,
    ensures
        gradient_view(width, height, colour, direction).wf(),
        forall|x: int, y: int|
            gradient_view(width, height, colour, direction).contains(x, y)
                ==> #[trigger] gradient_view(width, height, colour, direction).at(x, y)
                == colour.with_alpha(gradient_alpha(colour.alpha, y, height, direction) as u8),
{
    let out = gradient_view(width, height, colour, direction);
    assert(0 <= width * height) by (nonlinear_arith)
        requires
            0 <= width,
            0 <= height,
    ;
    assert forall|x: int, y: int| out.contains(x, y) implies #[trigger] out.at(x, y)
        == colour.with_alpha(gradient_alpha(colour.alpha, y, height, direction) as u8) by {
        lemma_index_in_bounds(width, height, x, y);
    }
}

/// The alpha of a gradient never exceeds the alpha it reaches.
pub proof fn lemma_gradient_alpha_in_range(
    source_alpha: u8,
    y: int,
    height: int,
    direction: GradientDirection,
)
    requires
        0 <= y < height,
    ensures
        0 <= gradient_alpha(source_alpha, y, height, direction) <= source_alpha,
        height > 1 && direction == GradientDirection::TopToBottom && y == 0 ==> gradient_alpha(
            source_alpha,
            y,
            height,
            direction,
        ) == 0,
        height > 1 && direction == GradientDirection::TopToBottom && y == height - 1
            ==> gradient_alpha(source_alpha, y, height, direction) == source_alpha,
        height > 1 && direction == GradientDirection::BottomToTop && y == 0 ==> gradient_alpha(
            source_alpha,
            y,
            height,
            direction,
        ) == source_alpha,
        height > 1 && direction == GradientDirection::BottomToTop && y == height - 1
            ==> gradient_alpha(source_alpha, y, height, direction) == 0,
{
    if height > 1 {
        let step = match direction {
            GradientDirection::TopToBottom => y,
            GradientDirection::BottomToTop => height - 1 - y,
        };
        let d = height - 1;
        let a = source_alpha as int;
        assert(0 <= (2 * a * step + d) / (2 * d) <= a) by (nonlinear_arith)
            requires
                0 <= step <= d,
                d >= 1,
                0 <= a,
        ;
        assert(step == 0 ==> (2 * a * step + d) / (2 * d) == 0) by (nonlinear_arith)
            requires
                d >= 1,
                0 <= a,
        ;
        assert(step == d ==> (2 * a * step + d) / (2 * d) == a) by (nonlinear_arith)
            requires
                d >= 1,
                0 <= a,
        ;
    }
}

/// A corner of a box.
#[derive(Debug, Clone, Copy, PartialEq, Eq, Structural)]
pub enum Corner {
    TopLeft,
    TopRight,
    BottomLeft,
    BottomRight,
}

/// The outline of a box: its size, the thickness of its border and the radii
/// of its corners.
pub struct BoxOutline {
    pub width: int,
    pub height: int,
    pub thickness: BorderThickness,
    pub radius: BorderRadius,
}

impl BoxOutline {
    /// The radius of `corner`.
    pub open spec fn corner_radius(self, corner: Corner) -> int {
        match corner {
            Corner::TopLeft => self.radius.top_left as int,
            Corner::TopRight => self.radius.top_right as int,
            Corner::BottomLeft => self.radius.bottom_left as int,
            Corner::BottomRight => self.radius.bottom_right as int,
        }
    }

    /// The centre of the circle that rounds `corner`.
    pub open spec fn corner_centre(self, corner: Corner) -> (int, int) {
        let r = self.corner_radius(corner);
        match corner {
            Corner::TopLeft => (r, r),
            Corner::TopRight => (self.width - r, r),
            Corner::BottomLeft => (r, self.height - r),
            Corner::BottomRight => (self.width - r, self.height - r),
        }
    }

    /// The border at `corner`: the thicker of the two edges that meet there.
    pub open spec fn corner_border(self, corner: Corner) -> int {
        let (a, b) = match corner {
            Corner::TopLeft => (self.thickness.top, self.thickness.left),
            Corner::TopRight => (self.thickness.top, self.thickness.right),
            Corner::BottomLeft => (self.thickness.bottom, self.thickness.left),
            Corner::BottomRight => (self.thickness.bottom, self.thickness.right),
        };
        if a >= b {
            a as int
        } else {
            b as int
        }
    }

    /// The radius of the inner edge of the border at `corner`.
    pub open spec fn inner_radius(self, corner: Corner) -> int {
        let inner = self.corner_radius(corner) - self.corner_border(corner);
        if inner < 0 {
            0
        } else {
            inner
        }
    }

    /// True when the centre of the pixel `(x, y)` lies in the square of
    /// `corner`, whose side is the corner's radius.
    pub open spec fn in_corner_square(self, corner: Corner, x: int, y: int) -> bool {
        let r = self.corner_radius(corner);
        match corner {
            Corner::TopLeft => 2 * x + 1 < 2 * r && 2 * y + 1 < 2 * r,
            Corner::TopRight => 2 * x + 1 >= 2 * (self.width - r) && 2 * y + 1 < 2 * r,
            Corner::BottomLeft => 2 * x + 1 < 2 * r && 2 * y + 1 > 2 * (self.height - r),
            Corner::BottomRight => 2 * x + 1 >= 2 * (self.width - r) && 2 * y + 1 >= 2 * (
            self.height - r),
        }
    }

    /// The corner to which the pixel `(x, y)` belongs: the first of top left,
    /// top right, bottom left and bottom right in whose square its centre
    /// lies.
    pub open spec fn corner_of(self, x: int, y: int) -> Option<Corner> {
        if self.in_corner_square(Corner::TopLeft, x, y) {
            Some(Corner::TopLeft)
        } else if self.in_corner_square(Corner::TopRight, x, y) {
            Some(Corner::TopRight)
        } else if self.in_corner_square(Corner::BottomLeft, x, y) {
            Some(Corner::BottomLeft)
        } else if self.in_corner_square(Corner::BottomRight, x, y) {
            Some(Corner::BottomRight)
        } else {
            None
        }
    }

    /// Four times the square of the distance from the centre of the pixel
    /// `(x, y)` to the centre of `corner`.
    pub open spec fn distance4(self, corner: Corner, x: int, y: int) -> int {
        let (cx, cy) = self.corner_centre(corner);
        (2 * x + 1 - 2 * cx) * (2 * x + 1 - 2 * cx) + (2 * y + 1 - 2 * cy) * (2 * y + 1 - 2 * cy)
    }

    /// True when the centre of the pixel `(x, y)` lies inside the border.
    pub open spec fn in_content(self, x: int, y: int) -> bool {
        &&& 2 * x + 1 >= 2 * self.thickness.left
        &&& 2 * x + 1 <= 2 * (self.width - self.thickness.right)
        &&& 2 * y + 1 >= 2 * self.thickness.top
        &&& 2 * y + 1 < 2 * (self.height - self.thickness.bottom)
    }
}

/// What a pixel of a box shows.
pub enum BoxZone {
    /// Inside the border.
    Foreground,
    /// On the border.
    Border,
    /// Outside a rounded corner.
    Background,
    /// On the border of a rounded corner, less than the feather's width from
    /// its outer edge: border over foreground, with the border's share in
    /// 256ths.
    Rim(int),
}

/// True when `k / 256` is at most the square root of 2 times the distance of
/// a point from the circle of radius `radius`, for a point inside the circle
/// at the distance whose square, times 4, is `distance4`.
///
/// The feather is one pixel over the square root of 2 wide, so this says
/// that the border covers at least `k` 256ths of the pixel.
pub open spec fn covers(k: int, radius: int, distance4: int) -> bool {
    let margin = 131072 * radius * radius - 32768 * distance4 - k * k;
    margin >= 0 && 131072 * k * k * distance4 <= margin * margin
}

/// The largest share up to `k`, in 256ths, that the border covers; 0 where
/// it covers none.
pub open spec fn coverage_below(k: int, radius: int, distance4: int) -> int
    decreases k,
{
    if k <= 0 {
        0
    } else if covers(k, radius, distance4) {
        k
    } else {
        coverage_below(k - 1, radius, distance4)
    }
}

/// The share of the border in a pixel of the rim, in 256ths: the distance to
/// the outer edge over the feather's width, rounded down, and 256 at most.
pub open spec fn rim_coverage(radius: int, distance4: int) -> int {
    coverage_below(256, radius, distance4)
}

/// What the pixel `(x, y)` of a box shows.
pub open spec fn box_zone(outline: BoxOutline, x: int, y: int) -> BoxZone {
    match outline.corner_of(x, y) {
        Some(corner) => {
            let d4 = outline.distance4(corner, x, y);
            let inner = outline.inner_radius(corner);
            let outer = outline.corner_radius(corner);
            if d4 <= 4 * inner * inner {
                BoxZone::Foreground
            } else if d4 <= 4 * outer * outer {
                BoxZone::Rim(rim_coverage(outer, d4))
            } else {
                BoxZone::Background
            }
        },
        None => if outline.in_content(x, y) {
            BoxZone::Foreground
        } else {
            BoxZone::Border
        },
    }
}

/// One channel of border over foreground with the border's share `share` in
/// 256ths, rounded to the nearest integer.
pub open spec fn feather_channel(border: u8, foreground: u8, share: int) -> int {
    (border * share + foreground * (256 - share) + 128) / 256
}

/// The colour of a pixel of a box.
pub open spec fn box_colour(zone: BoxZone, border: Rgba, background: Rgba, foreground: Rgba) -> Rgba {
    match zone {
        BoxZone::Foreground => foreground,
        BoxZone::Border => border,
        BoxZone::Background => background,
        BoxZone::Rim(share) => Rgba {
            red: feather_channel(border.red, foreground.red, share) as u8,
            green: feather_channel(border.green, foreground.green, share) as u8,
            blue: feather_channel(border.blue, foreground.blue, share) as u8,
            alpha: feather_channel(border.alpha, foreground.alpha, share) as u8,
        },
    }
}

/// The picture of a box.
pub open spec fn box_view(
    outline: BoxOutline,
    border: Rgba,
    background: Rgba,
    foreground: Rgba,
) -> ImageView {
    ImageView {
        width: outline.width,
        height: outline.height,
        pixels: Seq::new(
            (outline.width * outline.height) as nat,
            |k: int|
                box_colour(
                    box_zone(outline, k % outline.width, k / outline.width),
                    border,
                    background,
                    foreground,
                ),
        ),
    }
}

/// Every pixel of the picture of a box has the colour of its zone.
pub proof fn lemma_box_view(outline: BoxOutline, border: Rgba, background: Rgba, foreground: Rgba)
    requires
        0 <= outline.width <= MAX_DIMENSION,
        0 <= outline.height <= MAX_DIMENSION,
    ensures
        box_view(outline, border, background, foreground).wf(),
        forall|x: int, y: int|
            box_view(outline, border, background, foreground).contains(x, y)
                ==> #[trigger] box_view(outline, border, background, foreground).at(x, y)
                == box_colour(box_zone(outline, x, y), border, background, foreground),
{
    let out = box_view(outline, border, background, foreground);
    assert(0 <= outline.width * outline.height) by (nonlinear_arith)
        requires
            0 <= outline.width,
            0 <= outline.height,
    ;
    assert forall|x: int, y: int| out.contains(x, y) implies #[trigger] out.at(x, y) == box_colour(
        box_zone(outline, x, y),
        border,
        background,
        foreground,
    ) by {
        lemma_index_in_bounds(outline.width, outline.height, x, y);
    }
}

/// A feathered channel stays within a byte, and is the border's or the
/// foreground's where the share is all or nothing.
pub proof fn lemma_feather_in_range(border: u8, foreground: u8, share: int)
    requires
        0 <= share <= 256,
    ensures
        0 <= feather_channel(border, foreground, share) <= 255,
        share == 256 ==> feather_channel(border, foreground, share) == border,
        share == 0 ==> feather_channel(border, foreground, share) == foreground,
{
    assert(0 <= border * share <= 255 * share) by (nonlinear_arith)
        requires
            0 <= border <= 255,
            0 <= share,
    ;
    assert(0 <= foreground * (256 - share) <= 255 * (256 - share)) by (nonlinear_arith)
        requires
            0 <= foreground <= 255,
            0 <= 256 - share,
    ;
    if share == 0 {
        assert(border * share == 0);
        assert(foreground * (256 - share) == foreground * 256);
    }
    if share == 256 {
        assert(border * share == border * 256);
        assert(foreground * (256 - share) == 0);
    }
}

/// In the picture of a box, in the square of each corner, a pixel whose
/// centre is no farther from the corner's centre than the inner edge of the
/// border has the foreground colour, and one that is farther than the radius
/// has the background colour.  This holds of every corner on its own where
/// no radius is more than half the box's width or height.
pub proof fn lemma_box_corners(
    outline: BoxOutline,
    corner: Corner,
    x: int,
    y: int,
    border: Rgba,
    background: Rgba,
    foreground: Rgba,
)
    requires
        outline.width <= MAX_DIMENSION,
        outline.height <= MAX_DIMENSION,
        0 <= x < outline.width,
        0 <= y < outline.height,
        outline.in_corner_square(corner, x, y),
        2 * outline.radius.top_left <= outline.width,
        2 * outline.radius.top_right <= outline.width,
        2 * outline.radius.bottom_left <= outline.width,
        2 * outline.radius.bottom_right <= outline.width,
        2 * outline.radius.top_left <= outline.height,
        2 * outline.radius.top_right <= outline.height,
        2 * outline.radius.bottom_left <= outline.height,
        2 * outline.radius.bottom_right <= outline.height,
    ensures
        outline.corner_of(x, y) == Some(corner),
        outline.distance4(corner, x, y) <= 4 * outline.inner_radius(corner) * outline.inner_radius(
            corner,
        ) ==> box_view(outline, border, background, foreground).at(x, y) == foreground,
        outline.distance4(corner, x, y) > 4 * outline.corner_radius(corner) * outline.corner_radius(
            corner,
        ) ==> box_view(outline, border, background, foreground).at(x, y) == background,
{
    let r = outline.corner_radius(corner);
    let inner = outline.inner_radius(corner);
    assert(4 * inner * inner <= 4 * r * r) by (nonlinear_arith)
        requires
            0 <= inner <= r,
    ;
    lemma_box_view(outline, border, background, foreground);
    assert(box_view(outline, border, background, foreground).contains(x, y));
}

/// The outline of a box of the given size, border and radii.
pub open spec fn outline_of(
    width: u32,
    height: u32,
    thickness: BorderThickness,
    radius: BorderRadius,
) -> BoxOutline {
    BoxOutline { width: width as int, height: height as int, thickness, radius }
}

/// True when no radius and no thickness is above the largest dimension of an
/// image.
pub open spec fn outline_in_range(thickness: BorderThickness, radius: BorderRadius) -> bool {
    &&& thickness.top <= MAX_DIMENSION
    &&& thickness.right <= MAX_DIMENSION
    &&& thickness.bottom <= MAX_DIMENSION
    &&& thickness.left <= MAX_DIMENSION
    &&& radius.top_left <= MAX_DIMENSION
    &&& radius.top_right <= MAX_DIMENSION
    &&& radius.bottom_left <= MAX_DIMENSION
    &&& radius.bottom_right <= MAX_DIMENSION
}

/// The square of a number of moderate size.
fn square(v: i64) -> (out: i64)
    requires
        -131072 <= v <= 131072,
    ensures
        out == v * v,
        0 <= out <= 131072 * 131072,
{
    assert(0 <= v * v <= 131072 * 131072) by (nonlinear_arith)
        requires
            -131072 <= v <= 131072,
    ;
    v * v
}

/// True when the border covers at least `k` 256ths of a pixel of the rim.
fn covers_share(k: i64, radius: i64, distance4: i64) -> (covered: bool)
    requires
        0 <= k <= 256,
        0 <= radius <= MAX_DIMENSION,
        0 <= distance4 <= 4 * radius * radius,
    ensures
        covered == covers(k as int, radius as int, distance4 as int),
{
    assert(0 <= radius * radius <= 16384 * 16384) by (nonlinear_arith)
        requires
            0 <= radius <= 16384,
    ;
    assert(0 <= k * k <= 65536) by (nonlinear_arith)
        requires
            0 <= k <= 256,
    ;
    assert(4 * radius * radius == 4 * (radius * radius)) by (nonlinear_arith);
    let r2: i128 = (radius as i128) * (radius as i128);
    let k2: i128 = (k as i128) * (k as i128);
    let d: i128 = distance4 as i128;
    let margin: i128 = 131072 * r2 - 32768 * d - k2;
    assert(131072 * radius * radius == 131072 * (radius * radius)) by (nonlinear_arith);
    assert(131072 * k * k * distance4 == 131072 * (k * k) * distance4) by (nonlinear_arith);
    if margin < 0 {
        return false;
    }
    assert(0 <= margin * margin <= 35184372088832 * 35184372088832) by (nonlinear_arith)
        requires
            0 <= margin <= 35184372088832,
    ;
    assert(0 <= 131072 * k2 * d <= 131072 * 65536 * 1073741824) by (nonlinear_arith)
        requires
            0 <= k2 <= 65536,
            0 <= d <= 1073741824,
    ;
    131072 * k2 * d <= margin * margin
}

/// The share of the border in a pixel of the rim.
fn coverage(radius: i64, distance4: i64) -> (share: i64)
    requires
        0 <= radius <= MAX_DIMENSION,
        0 <= distance4 <= 4 * radius * radius,
    ensures
        share == rim_coverage(radius as int, distance4 as int),
        0 <= share <= 256,
{
    let mut k: i64 = 256;
    while k > 0
        invariant
            0 <= k <= 256,
            0 <= radius <= MAX_DIMENSION,
            0 <= distance4 <= 4 * radius * radius,
            rim_coverage(radius as int, distance4 as int) == coverage_below(
                k as int,
                radius as int,
                distance4 as int,
            ),
        decreases k,
    {
        if covers_share(k, radius, distance4) {
            return k;
        }
        k -= 1;
    }
    0
}

/// One channel of border over foreground.
fn feather(border: u8, foreground: u8, share: i64) -> (out: u8)
    requires
        0 <= share <= 256,
    ensures
        out == feather_channel(border, foreground, share as int),
{
    proof {
        lemma_feather_in_range(border, foreground, share as int);
    }
    let t: u32 = share as u32;
    assert((border as u32) * t <= 255 * 256 && (foreground as u32) * (256 - t) <= 255 * 256)
        by (nonlinear_arith)
        requires
            border <= 255,
            foreground <= 255,
            0 <= t <= 256,
    ;
    (((border as u32) * t + (foreground as u32) * (256 - t) + 128) / 256) as u8
}

impl DrawingUtils {
    /// The corner to which the pixel `(x, y)` belongs.
    fn find_corner(
        width: u32,
        height: u32,
        thickness: BorderThickness,
        radius: BorderRadius,
        x: u32,
        y: u32,
    ) -> (corner: Option<Corner>)
        requires
            x < width <= MAX_DIMENSION,
            y < height <= MAX_DIMENSION,
            outline_in_range(thickness, radius),
        ensures
            corner == outline_of(width, height, thickness, radius).corner_of(x as int, y as int),
    {
        let px: i64 = 2 * (x as i64) + 1;
        let py: i64 = 2 * (y as i64) + 1;
        let w: i64 = width as i64;
        let h: i64 = height as i64;
        let tl: i64 = radius.top_left as i64;
        let tr: i64 = radius.top_right as i64;
        let bl: i64 = radius.bottom_left as i64;
        let br: i64 = radius.bottom_right as i64;
        if px < 2 * tl && py < 2 * tl {
            Some(Corner::TopLeft)
        } else if px >= 2 * (w - tr) && py < 2 * tr {
            Some(Corner::TopRight)
        } else if px < 2 * bl && py > 2 * (h - bl) {
            Some(Corner::BottomLeft)
        } else if px >= 2 * (w - br) && py >= 2 * (h - br) {
            Some(Corner::BottomRight)
        } else {
            None
        }
    }

    /// The colour of the pixel `(x, y)` of a box.
    fn box_pixel(
        width: u32,
        height: u32,
        thickness: BorderThickness,
        radius: BorderRadius,
        x: u32,
        y: u32,
        border: Rgba,
        background: Rgba,
        foreground: Rgba,
    ) -> (pixel: Rgba)
        requires
            x < width <= MAX_DIMENSION,
            y < height <= MAX_DIMENSION,
            outline_in_range(thickness, radius),
        ensures
            pixel == box_colour(
                box_zone(outline_of(width, height, thickness, radius), x as int, y as int),
                border,
                background,
                foreground,
            ),
    {
        let ghost outline = outline_of(width, height, thickness, radius);
        let px: i64 = 2 * (x as i64) + 1;
        let py: i64 = 2 * (y as i64) + 1;
        let w: i64 = width as i64;
        let h: i64 = height as i64;
        match Self::find_corner(width, height, thickness, radius, x, y) {
            None => {
                let inside = px >= 2 * (thickness.left as i64) && px <= 2 * (w
                    - thickness.right as i64) && py >= 2 * (thickness.top as i64) && py < 2 * (h
                    - thickness.bottom as i64);
                if inside {
                    foreground
                } else {
                    border
                }
            },
            Some(corner) => {
                let (r, cx, cy, a, b): (i64, i64, i64, u32, u32) = match corner {
                    Corner::TopLeft => (
                        radius.top_left as i64,
                        radius.top_left as i64,
                        radius.top_left as i64,
                        thickness.top,
                        thickness.left,
                    ),
                    Corner::TopRight => (
                        radius.top_right as i64,
                        w - radius.top_right as i64,
                        radius.top_right as i64,
                        thickness.top,
                        thickness.right,
                    ),
                    Corner::BottomLeft => (
                        radius.bottom_left as i64,
                        radius.bottom_left as i64,
                        h - radius.bottom_left as i64,
                        thickness.bottom,
                        thickness.left,
                    ),
                    Corner::BottomRight => (
                        radius.bottom_right as i64,
                        w - radius.bottom_right as i64,
                        h - radius.bottom_right as i64,
                        thickness.bottom,
                        thickness.right,
                    ),
                };
                assert(r == outline.corner_radius(corner));
                assert((cx as int, cy as int) == outline.corner_centre(corner));
                let adjusted: i64 = if a >= b {
                    a as i64
                } else {
                    b as i64
                };
                assert(adjusted == outline.corner_border(corner));
                let inner: i64 = if r - adjusted < 0 {
                    0
                } else {
                    r - adjusted
                };
                let d4: i64 = square(px - 2 * cx) + square(py - 2 * cy);
                assert(d4 == outline.distance4(corner, x as int, y as int));
                let inner4: i64 = 4 * square(inner);
                let outer4: i64 = 4 * square(r);
                assert(inner4 == 4 * outline.inner_radius(corner) * outline.inner_radius(corner))
                    by (nonlinear_arith)
                    requires
                        inner4 == 4 * (inner * inner),
                        inner == outline.inner_radius(corner),
                ;
                assert(outer4 == 4 * outline.corner_radius(corner) * outline.corner_radius(corner)
                    && outer4 == 4 * r * r) by (nonlinear_arith)
                    requires
                        outer4 == 4 * (r * r),
                        r == outline.corner_radius(corner),
                ;
                if d4 <= inner4 {
                    foreground
                } else if d4 <= outer4 {
                    let share = coverage(r, d4);
                    Rgba {
                        red: feather(border.red, foreground.red, share),
                        green: feather(border.green, foreground.green, share),
                        blue: feather(border.blue, foreground.blue, share),
                        alpha: feather(border.alpha, foreground.alpha, share),
                    }
                } else {
                    background
                }
            },
        }
    }

    /// A box with a border: foreground inside the border, the border's colour
    /// on it, and at each rounded corner the background outside the radius
    /// and a feathered rim just inside it.
    pub fn draw_box(
        width: u32,
        height: u32,
        border_thickness: BorderThickness,
        border_radius: BorderRadius,
        border_colour: Rgba,
        background_colour: Rgba,
        foreground_colour: Rgba,
    ) -> (image: Image)
        requires
            width <= MAX_DIMENSION,
            height <= MAX_DIMENSION,
            outline_in_range(border_thickness, border_radius),
        ensures
            image@ == box_view(
                outline_of(width, height, border_thickness, border_radius),
                border_colour,
                background_colour,
                foreground_colour,
            ),
            image@.wf(),
    {
        let ghost outline = outline_of(width, height, border_thickness, border_radius);
        let mut image = Image::new(width, height);
        let mut y: u32 = 0;
        while y < height
            invariant
                y <= height,
                width <= MAX_DIMENSION,
                height <= MAX_DIMENSION,
                outline_in_range(border_thickness, border_radius),
                outline == outline_of(width, height, border_thickness, border_radius),
                image@.wf(),
                image@.width == width,
                image@.height == height,
                forall|u: int, v: int|
                    image@.contains(u, v) && v < y ==> #[trigger] image@.at(u, v) == box_colour(
                        box_zone(outline, u, v),
                        border_colour,
                        background_colour,
                        foreground_colour,
                    ),
            decreases height - y,
        {
            let mut x: u32 = 0;
            while x < width
                invariant
                    x <= width,
                    y < height,
                    width <= MAX_DIMENSION,
                    height <= MAX_DIMENSION,
                    outline_in_range(border_thickness, border_radius),
                    outline == outline_of(width, height, border_thickness, border_radius),
                    image@.wf(),
                    image@.width == width,
                    image@.height == height,
                    forall|u: int, v: int|
                        image@.contains(u, v) && (v < y || (v == y && u < x))
                            ==> #[trigger] image@.at(u, v) == box_colour(
                            box_zone(outline, u, v),
                            border_colour,
                            background_colour,
                            foreground_colour,
                        ),
                decreases width - x,
            {
                let pixel = Self::box_pixel(
                    width,
                    height,
                    border_thickness,
                    border_radius,
                    x,
                    y,
                    border_colour,
                    background_colour,
                    foreground_colour,
                );
                image.put_pixel(x, y, pixel);
                x += 1;
            }
            y += 1;
        }
        proof {
            lemma_box_view(outline, border_colour, background_colour, foreground_colour);
            lemma_images_equal(
                image@,
                box_view(outline, border_colour, background_colour, foreground_colour),
            );
        }
        image
    }

    /// The alpha of row `y` of a gradient.
    fn gradient_row_alpha(source_alpha: u8, y: u32, height: u32, direction: GradientDirection) -> (alpha:
        u8)
        requires
            y < height <= MAX_DIMENSION,
        ensures
            alpha == gradient_alpha(source_alpha, y as int, height as int, direction),
    {
        if height <= 1 {
            return 0;
        }
        proof {
            lemma_gradient_alpha_in_range(source_alpha, y as int, height as int, direction);
        }
        let step: u32 = match direction {
            GradientDirection::TopToBottom => y,
            GradientDirection::BottomToTop => height - 1 - y,
        };
        let d: u32 = height - 1;
        assert(2 * (source_alpha as u32) * step <= 2 * 255 * MAX_DIMENSION) by (nonlinear_arith)
            requires
                source_alpha <= 255,
                step <= MAX_DIMENSION,
        ;
        ((2 * (source_alpha as u32) * step + d) / (2 * d)) as u8
    }

    /// An image of `colour` whose alpha grows row by row from nothing to the
    /// alpha of `colour`, downwards or upwards.
    pub fn draw_gradient(w: u32, h: u32, colour: Rgba, direction: GradientDirection) -> (image:
        Image)
        requires
            w <= MAX_DIMENSION,
            h <= MAX_DIMENSION,
        ensures
            image@ == gradient_view(w as int, h as int, colour, direction),
            image@.wf(),
    {
        let mut image = Image::new(w, h);
        let mut y: u32 = 0;
        while y < h
            invariant
                y <= h,
                h <= MAX_DIMENSION,
                image@.wf(),
                image@.width == w,
                image@.height == h,
                forall|u: int, v: int|
                    image@.contains(u, v) && v < y ==> #[trigger] image@.at(u, v)
                        == colour.with_alpha(
                        gradient_alpha(colour.alpha, v, h as int, direction) as u8,
                    ),
            decreases h - y,
        {
            let alpha = Self::gradient_row_alpha(colour.alpha, y, h, direction);
            let pixel = colour.with_alpha(alpha);
            let mut x: u32 = 0;
            while x < w
                invariant
                    x <= w,
                    y < h,
                    image@.wf(),
                    image@.width == w,
                    image@.height == h,
                    pixel == colour.with_alpha(
                        gradient_alpha(colour.alpha, y as int, h as int, direction) as u8,
                    ),
                    forall|u: int, v: int|
                        image@.contains(u, v) && (v < y || (v == y && u < x))
                            ==> #[trigger] image@.at(u, v) == colour.with_alpha(
                            gradient_alpha(colour.alpha, v, h as int, direction) as u8,
                        ),
                decreases w - x,
            {
                image.put_pixel(x, y, pixel);
                x += 1;
            }
            y += 1;
        }
        proof {
            lemma_gradient_view(w as int, h as int, colour, direction);
            lemma_images_equal(image@, gradient_view(w as int, h as int, colour, direction));
        }
        image
    }
}

} // verus!
