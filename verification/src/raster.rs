//! A raster image: a rectangle of RGBA pixels.

use crate::colour::Rgba;
use vstd::prelude::*;

verus! {

/// Largest width and height an image can have.
pub const MAX_DIMENSION: u32 = 16384;

/// Fully transparent black.
pub open spec fn transparent() -> Rgba {
    Rgba { red: 0, green: 0, blue: 0, alpha: 0 }
}

/// The content of an image: its size and its pixels, row after row.
pub struct ImageView {
    pub width: int,
    pub height: int,
    pub pixels: Seq<Rgba>,
}

impl ImageView {
    /// True when `(x, y)` is a pixel of the image.
    pub open spec fn contains(self, x: int, y: int) -> bool {
        0 <= x < self.width && 0 <= y < self.height
    }

    /// True when the image has a pixel at all.
    pub open spec fn has_pixels(self) -> bool {
        self.width > 0 && self.height > 0
    }

    /// The pixel at column `x` of row `y`.
    pub open spec fn at(self, x: int, y: int) -> Rgba {
        self.pixels[y * self.width + x]
    }

    /// The image has as many pixels as its size says.
    pub open spec fn wf(self) -> bool {
        &&& 0 <= self.width <= MAX_DIMENSION
        &&& 0 <= self.height <= MAX_DIMENSION
        &&& self.pixels.len() == self.width * self.height
    }
}

/// The position of a pixel in the row-major sequence lies inside it.
pub proof fn lemma_index_in_bounds(width: int, height: int, x: int, y: int)
    requires
        0 <= x < width,
        0 <= y < height,
    ensures
        0 <= y * width + x < width * height,
        (y * width + x) / width == y,
        (y * width + x) % width == x,
{
    assert(0 <= y * width && y * width + width <= width * height) by (nonlinear_arith)
        requires
            0 <= y < height,
            0 < width,
    ;
    vstd::arithmetic::div_mod::lemma_fundamental_div_mod_converse(y * width + x, width, y, x);
}

/// Two images of one size with the same pixel at every place are equal.
pub proof fn lemma_images_equal(a: ImageView, b: ImageView)
    requires
        a.wf(),
        b.wf(),
        a.width == b.width,
        a.height == b.height,
        forall|x: int, y: int| a.contains(x, y) ==> #[trigger] a.at(x, y) == b.at(x, y),
    ensures
        a == b,
{
    assert forall|k: int| 0 <= k < a.pixels.len() implies a.pixels[k] == b.pixels[k] by {
        let w = a.width;
        assert(w > 0) by (nonlinear_arith)
            requires
                0 <= k < w * a.height,
                w >= 0,
        ;
        let x = k % w;
        let y = k / w;
        vstd::arithmetic::div_mod::lemma_fundamental_div_mod(k, w);
        assert(0 <= x < w) by (nonlinear_arith)
            requires
                x == k % w,
                w > 0,
        ;
        assert(0 <= y < a.height) by (nonlinear_arith)
            requires
                0 <= k < w * a.height,
                w > 0,
                k == w * y + x,
                0 <= x < w,
        ;
        assert(y * w + x == k) by (nonlinear_arith)
            requires
                k == w * y + x,
        ;
        assert(a.at(x, y) == b.at(x, y));
    }
    assert(a.pixels =~= b.pixels);
}

/// The image of `width` by `height` pixels that are all `colour`.
pub open spec fn filled(width: int, height: int, colour: Rgba) -> ImageView {
    ImageView { width, height, pixels: Seq::new((width * height) as nat, |k: int| colour) }
}

/// The part of `image` that a crop at `(x, y)` of `width` by `height` pixels
/// yields: the corner is moved into the image, and the size cut to what the
/// image has right of and below the corner.
pub open spec fn cropped(image: ImageView, x: int, y: int, width: int, height: int) -> ImageView {
    let left = if x < image.width {
        x
    } else {
        image.width
    };
    let top = if y < image.height {
        y
    } else {
        image.height
    };
    let w = if width < image.width - left {
        width
    } else {
        image.width - left
    };
    let h = if height < image.height - top {
        height
    } else {
        image.height - top
    };
    ImageView {
        width: w,
        height: h,
        pixels: Seq::new((w * h) as nat, |k: int| image.at(left + k % w, top + k / w)),
    }
}

/// A crop holds the pixels of the image from the crop's corner on.
pub proof fn lemma_cropped(image: ImageView, x: int, y: int, width: int, height: int)
    requires
        image.wf(),
        0 <= x,
        0 <= y,
        0 <= width,
        0 <= height,
    ensures
        cropped(image, x, y, width, height).wf(),
        cropped(image, x, y, width, height).width <= width,
        cropped(image, x, y, width, height).height <= height,
        x + width <= image.width ==> cropped(image, x, y, width, height).width == width,
        y + height <= image.height ==> cropped(image, x, y, width, height).height == height,
        forall|u: int, v: int|
            cropped(image, x, y, width, height).contains(u, v) ==> #[trigger] cropped(
                image,
                x,
                y,
                width,
                height,
            ).at(u, v) == image.at(
                (if x < image.width {
                    x
                } else {
                    image.width
                }) + u,
                (if y < image.height {
                    y
                } else {
                    image.height
                }) + v,
            ),
{
    let out = cropped(image, x, y, width, height);
    assert(0 <= out.width * out.height) by (nonlinear_arith)
        requires
            0 <= out.width,
            0 <= out.height,
    ;
    assert forall|u: int, v: int| out.contains(u, v) implies #[trigger] out.at(u, v) == image.at(
        (if x < image.width {
            x
        } else {
            image.width
        }) + u,
        (if y < image.height {
            y
        } else {
            image.height
        }) + v,
    ) by {
        lemma_index_in_bounds(out.width, out.height, u, v);
    }
}

/// A raster image of RGBA pixels.
#[derive(Debug, Clone)]
pub struct Image {
    width: u32,
    height: u32,
    pixels: Vec<Rgba>,
}

impl View for Image {
    type V = ImageView;

    closed spec fn view(&self) -> ImageView {
        ImageView { width: self.width as int, height: self.height as int, pixels: self.pixels@ }
    }
}

impl Image {
    /// An image of `width` by `height` pixels, each of them `colour`.
    pub fn from_pixel(width: u32, height: u32, colour: Rgba) -> (image: Image)
        requires
            width <= MAX_DIMENSION,
            height <= MAX_DIMENSION,
        ensures
            image@.wf(),
            image@ == filled(width as int, height as int, colour),
            image@.width == width,
            image@.height == height,
            forall|x: int, y: int| image@.contains(x, y) ==> #[trigger] image@.at(x, y) == colour,
    {
        assert(width * height <= MAX_DIMENSION * MAX_DIMENSION) by (nonlinear_arith)
            requires
                width <= MAX_DIMENSION,
                height <= MAX_DIMENSION,
        ;
        let count: usize = (width as usize) * (height as usize);
        let mut pixels: Vec<Rgba> = Vec::with_capacity(count);
        let mut i: usize = 0;
        while i < count
            invariant
                i <= count,
                pixels@.len() == i,
                forall|k: int| 0 <= k < i ==> pixels@[k] == colour,
            decreases count - i,
        {
            pixels.push(colour);
            i += 1;
        }
        let image = Image { width, height, pixels };
        assert forall|x: int, y: int| image@.contains(x, y) implies #[trigger] image@.at(x, y)
            == colour by {
            lemma_index_in_bounds(width as int, height as int, x, y);
        }
        assert(image@.pixels =~= filled(width as int, height as int, colour).pixels);
        image
    }

    /// A fully transparent image of `width` by `height` pixels.
    pub fn new(width: u32, height: u32) -> (image: Image)
        requires
            width <= MAX_DIMENSION,
            height <= MAX_DIMENSION,
        ensures
            image@.wf(),
            image@ == filled(width as int, height as int, transparent()),
            image@.width == width,
            image@.height == height,
            forall|x: int, y: int|
                image@.contains(x, y) ==> #[trigger] image@.at(x, y) == transparent(),
    {
        Image::from_pixel(width, height, Rgba { red: 0, green: 0, blue: 0, alpha: 0 })
    }

    /// An image from its pixels, row after row; `None` unless there are
    /// `width * height` of them and neither side exceeds the largest
    /// dimension.
    pub fn from_pixels(width: u32, height: u32, pixels: Vec<Rgba>) -> (image: Option<Image>)
        ensures
            image is Some <==> (width <= MAX_DIMENSION && height <= MAX_DIMENSION && pixels@.len()
                == width * height),
            image matches Some(i) ==> i@ == (ImageView {
                width: width as int,
                height: height as int,
                pixels: pixels@,
            }) && i@.wf(),
    {
        if width > MAX_DIMENSION || height > MAX_DIMENSION {
            return None;
        }
        assert(width * height <= MAX_DIMENSION * MAX_DIMENSION) by (nonlinear_arith)
            requires
                width <= MAX_DIMENSION,
                height <= MAX_DIMENSION,
        ;
        if pixels.len() != (width as usize) * (height as usize) {
            return None;
        }
        Some(Image { width, height, pixels })
    }

    /// The part of the image that a crop at `(x, y)` of `width` by `height`
    /// pixels yields.
    pub fn crop(&self, x: u32, y: u32, width: u32, height: u32) -> (out: Image)
        requires
            self@.wf(),
        ensures
            out@ == cropped(self@, x as int, y as int, width as int, height as int),
            out@.wf(),
    {
        let left: u32 = if x < self.width {
            x
        } else {
            self.width
        };
        let top: u32 = if y < self.height {
            y
        } else {
            self.height
        };
        let w: u32 = if width < self.width - left {
            width
        } else {
            self.width - left
        };
        let h: u32 = if height < self.height - top {
            height
        } else {
            self.height - top
        };
        let ghost goal = cropped(self@, x as int, y as int, width as int, height as int);
        proof {
            lemma_cropped(self@, x as int, y as int, width as int, height as int);
        }
        let mut out = Image::new(w, h);
        let mut v: u32 = 0;
        while v < h
            invariant
                v <= h,
                self@.wf(),
                left + w <= self@.width,
                top + h <= self@.height,
                out@.wf(),
                out@.width == w,
                out@.height == h,
                forall|a: int, b: int|
                    out@.contains(a, b) && b < v ==> #[trigger] out@.at(a, b) == self@.at(
                        left + a,
                        top + b,
                    ),
            decreases h - v,
        {
            let mut u: u32 = 0;
            while u < w
                invariant
                    u <= w,
                    v < h,
                    self@.wf(),
                    left + w <= self@.width,
                    top + h <= self@.height,
                    out@.wf(),
                    out@.width == w,
                    out@.height == h,
                    forall|a: int, b: int|
                        out@.contains(a, b) && (b < v || (b == v && a < u)) ==> #[trigger] out@.at(
                            a,
                            b,
                        ) == self@.at(left + a, top + b),
                decreases w - u,
            {
                let pixel = self.get_pixel(left + u, top + v);
                out.put_pixel(u, v, pixel);
                u += 1;
            }
            v += 1;
        }
        proof {
            lemma_images_equal(out@, goal);
        }
        out
    }

    /// An image with the same pixels.
    pub fn duplicate(&self) -> (copy: Image)
        requires
            self@.wf(),
        ensures
            copy@ == self@,
    {
        let mut pixels: Vec<Rgba> = Vec::with_capacity(self.pixels.len());
        let mut i: usize = 0;
        while i < self.pixels.len()
            invariant
                i <= self.pixels.len(),
                pixels@ == self.pixels@.subrange(0, i as int),
            decreases self.pixels.len() - i,
        {
            pixels.push(self.pixels[i]);
            i += 1;
            assert(pixels@ =~= self.pixels@.subrange(0, i as int));
        }
        assert(self.pixels@.subrange(0, self.pixels@.len() as int) =~= self.pixels@);
        Image { width: self.width, height: self.height, pixels }
    }

    /// Width in pixels.
    pub fn width(&self) -> (width: u32)
        ensures
            width == self@.width,
    {
        self.width
    }

    /// Height in pixels.
    pub fn height(&self) -> (height: u32)
        ensures
            height == self@.height,
    {
        self.height
    }

    /// The pixels, row after row.
    pub fn pixels(&self) -> (pixels: &Vec<Rgba>)
        ensures
            pixels@ == self@.pixels,
    {
        &self.pixels
    }

    /// The pixel at column `x` of row `y`.
    pub fn get_pixel(&self, x: u32, y: u32) -> (pixel: Rgba)
        requires
            self@.wf(),
            self@.contains(x as int, y as int),
        ensures
            pixel == self@.at(x as int, y as int),
    {
        proof {
            lemma_index_in_bounds(self.width as int, self.height as int, x as int, y as int);
            assert(self.width * self.height <= MAX_DIMENSION * MAX_DIMENSION) by (nonlinear_arith)
                requires
                    self.width <= MAX_DIMENSION,
                    self.height <= MAX_DIMENSION,
            ;
        }
        self.pixels[(y as usize) * (self.width as usize) + (x as usize)]
    }

    /// Sets the pixel at column `x` of row `y` and leaves every other pixel
    /// as it is.
    pub fn put_pixel(&mut self, x: u32, y: u32, pixel: Rgba)
        requires
            old(self)@.wf(),
            old(self)@.contains(x as int, y as int),
        ensures
            final(self)@.wf(),
            final(self)@.width == old(self)@.width,
            final(self)@.height == old(self)@.height,
            final(self)@.at(x as int, y as int) == pixel,
            forall|u: int, v: int|
                old(self)@.contains(u, v) && (u != x || v != y) ==> #[trigger] final(self)@.at(u, v)
                    == old(self)@.at(u, v),
    {
        proof {
            lemma_index_in_bounds(self.width as int, self.height as int, x as int, y as int);
            assert(self.width * self.height <= MAX_DIMENSION * MAX_DIMENSION) by (nonlinear_arith)
                requires
                    self.width <= MAX_DIMENSION,
                    self.height <= MAX_DIMENSION,
            ;
        }
        let index: usize = (y as usize) * (self.width as usize) + (x as usize);
        self.pixels.set(index, pixel);
        proof {
            assert forall|u: int, v: int|
                old(self)@.contains(u, v) && (u != x || v != y) implies #[trigger] self@.at(u, v)
                == old(self)@.at(u, v) by {
                lemma_index_in_bounds(self.width as int, self.height as int, u, v);
                if v * self.width + u == index {
                    assert(false);
                }
            }
        }
    }
}

} // verus!
