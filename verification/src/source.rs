//! The source image: a grid of RGBA pixels, read-only once built.

use vstd::prelude::*;

verus! {

/// The image as mathematics. `rgba` holds four bytes for each pixel (red,
/// green, blue, alpha), rows from the top, pixels from the left within a
/// row.
pub struct ImageView {
    pub width: nat,
    pub height: nat,
    pub rgba: Seq<u8>,
}

impl ImageView {
    /// The buffer holds exactly the pixels of a `width` by `height` grid.
    pub open spec fn wf(self) -> bool {
        self.rgba.len() == 4 * self.width * self.height
    }

    /// `(x, y)` names a pixel of the image.
    pub open spec fn contains(self, x: int, y: int) -> bool {
        0 <= x < self.width && 0 <= y < self.height
    }

    /// Where the four bytes of pixel `(x, y)` start in `rgba`.
    pub open spec fn offset(self, x: int, y: int) -> int {
        4 * (y * self.width + x)
    }

    /// The four channels of pixel `(x, y)`.
    pub open spec fn pixel(self, x: int, y: int) -> (u8, u8, u8, u8) {
        let at = self.offset(x, y);
        (self.rgba[at], self.rgba[at + 1], self.rgba[at + 2], self.rgba[at + 3])
    }

    /// The alpha channel of pixel `(x, y)`.
    pub open spec fn alpha(self, x: int, y: int) -> u8 {
        self.pixel(x, y).3
    }

    /// Pixel `(x, y)` is not fully transparent.
    pub open spec fn opaque(self, x: int, y: int) -> bool {
        self.alpha(x, y) != 0
    }
}

/// Every pixel of a well-formed image lies inside its buffer.
pub proof fn lemma_pixel_in_buffer(img: ImageView, x: int, y: int)
    requires
        img.wf(),
        img.contains(x, y),
    ensures
        0 <= y * img.width <= img.offset(x, y),
        img.offset(x, y) + 4 <= img.rgba.len(),
{
    let w = img.width as int;
    let h = img.height as int;
    assert(0 <= y * w && y * w + w <= h * w) by (nonlinear_arith)
        requires
            0 <= y < h,
            0 <= w,
    ;
    assert(4 * w * h == 4 * (h * w)) by (nonlinear_arith);
}

/// A decoded image. Its buffer always matches its dimensions.
pub struct SourceImage {
    width: u32,
    height: u32,
    rgba: Vec<u8>,
}

impl View for SourceImage {
    type V = ImageView;

    closed spec fn view(&self) -> ImageView {
        ImageView { width: self.width as nat, height: self.height as nat, rgba: self.rgba@ }
    }
}

impl SourceImage {
    #[verifier::type_invariant]
    spec fn inv(self) -> bool {
        self@.wf()
    }

    /// Takes over an RGBA buffer (four bytes per pixel, rows from the top).
    /// `None` when the buffer's length is not `4 * width * height`.
    pub fn new(width: u32, height: u32, rgba: Vec<u8>) -> (r: Option<SourceImage>)
        ensures
            r is Some <==> rgba@.len() == 4 * width * height,
            r matches Some(img) ==> img@ == (ImageView {
                width: width as nat,
                height: height as nat,
                rgba: rgba@,
            }),
    {
        assert(width * height <= 0xffff_ffff * 0xffff_ffff) by (nonlinear_arith)
            requires
                width <= 0xffff_ffff,
                height <= 0xffff_ffff,
        ;
        assert(4 * width * height == 4 * (width * height)) by (nonlinear_arith);
        let pixels: u128 = (width as u128) * (height as u128);
        if rgba.len() as u128 == 4 * pixels {
            Some(SourceImage { width, height, rgba })
        } else {
            None
        }
    }

    /// The dimensions of an image fit in 32 bits.
    pub proof fn lemma_dimensions_fit(&self)
        ensures
            self@.width <= u32::MAX,
            self@.height <= u32::MAX,
    {
    }

    /// The width in pixels.
    pub fn width(&self) -> (w: u32)
        ensures
            w == self@.width,
    {
        self.width
    }

    /// The height in pixels.
    pub fn height(&self) -> (h: u32)
        ensures
            h == self@.height,
    {
        self.height
    }

    /// The alpha channel of the pixel in column `x` of row `y`.
    pub fn alpha(&self, x: u32, y: u32) -> (a: u8)
        requires
            self@.contains(x as int, y as int),
        ensures
            a == self@.alpha(x as int, y as int),
    {
        proof {
            use_type_invariant(self);
            lemma_pixel_in_buffer(self@, x as int, y as int);
            assert(self@.rgba.len() == self.rgba.len() <= usize::MAX);
        }
        let row: usize = y as usize * self.width as usize;
        self.rgba[(row + x as usize) * 4 + 3]
    }

    /// The red, green, blue and alpha channels of the pixel in column `x` of
    /// row `y`.
    pub fn get_pixel(&self, x: u32, y: u32) -> (p: (u8, u8, u8, u8))
        requires
            self@.contains(x as int, y as int),
        ensures
            p == self@.pixel(x as int, y as int),
    {
        proof {
            use_type_invariant(self);
            lemma_pixel_in_buffer(self@, x as int, y as int);
            assert(self@.rgba.len() == self.rgba.len() <= usize::MAX);
        }
        let row: usize = y as usize * self.width as usize;
        let at: usize = (row + x as usize) * 4;
        (self.rgba[at], self.rgba[at + 1], self.rgba[at + 2], self.rgba[at + 3])
    }
}

} // verus!
