//! Rendered images: a rectangle of RGBA pixels, and its hand-over to the user interface.

use slint::{Rgba8Pixel, SharedPixelBuffer};
use vstd::prelude::*;

verus! {

/// `slint::SharedPixelBuffer`, the pixel container that the user interface shows.
#[verifier::external_type_specification]
#[verifier::external_body]
#[verifier::reject_recursive_types(Pixel)]
pub struct ExSharedPixelBuffer<Pixel>(SharedPixelBuffer<Pixel>);

/// `rgb::Rgba`, the pixel type behind `slint::Rgba8Pixel`. Named only because the buffer is
/// made of it.
#[verifier::external_type_specification]
#[verifier::external_body]
#[verifier::reject_recursive_types(T)]
#[verifier::reject_recursive_types(A)]
pub struct ExRgba<T, A>(rgb::Rgba<T, A>);

/// The width in pixels that `SharedPixelBuffer::width` gives of `buffer`.
pub uninterp spec fn buffer_width(buffer: SharedPixelBuffer<Rgba8Pixel>) -> nat;

/// The height in pixels that `SharedPixelBuffer::height` gives of `buffer`.
pub uninterp spec fn buffer_height(buffer: SharedPixelBuffer<Rgba8Pixel>) -> nat;

/// The pixel bytes that `SharedPixelBuffer::as_bytes` gives of `buffer`.
pub uninterp spec fn buffer_bytes(buffer: SharedPixelBuffer<Rgba8Pixel>) -> Seq<u8>;

/// Calls `slint::SharedPixelBuffer::clone_from_slice`, which copies the bytes into a buffer of
/// the given size. It panics unless the bytes are four for each pixel of that size.
#[verifier::external_body]
fn rgba_buffer(pixels: &Vec<u8>, width: u32, height: u32) -> (buffer: SharedPixelBuffer<
    Rgba8Pixel,
>)
    requires
        pixels@.len() == width * height * 4,
    ensures
        buffer_width(buffer) == width,
        buffer_height(buffer) == height,
        buffer_bytes(buffer) == pixels@,
{
    SharedPixelBuffer::clone_from_slice(pixels.as_slice(), width, height)
}

/// An image as contracts see it.
pub struct ImageView {
    pub width: nat,
    pub height: nat,
    pub pixels: Seq<u8>,
}

impl ImageView {
    /// The pixel bytes cover the rectangle exactly: four for each pixel, red, green, blue and
    /// alpha.
    pub open spec fn well_formed(self) -> bool {
        self.pixels.len() == self.width * self.height * 4
    }

    /// The image is as wide as it is high.
    pub open spec fn is_square(self) -> bool {
        self.width == self.height
    }
}

/// What a buffer of the user interface holds, as an image.
pub open spec fn buffer_view(buffer: SharedPixelBuffer<Rgba8Pixel>) -> ImageView {
    ImageView {
        width: buffer_width(buffer),
        height: buffer_height(buffer),
        pixels: buffer_bytes(buffer),
    }
}

/// The image of `width` by `height` pixels that holds `pixels`.
pub open spec fn image_of(width: u32, height: u32, pixels: Seq<u8>) -> ImageView {
    ImageView { width: width as nat, height: height as nat, pixels }
}

/// A rendered image. Its pixel bytes always cover its rectangle exactly, row by row, four
/// bytes to the pixel.
#[derive(Debug)]
pub struct PixelMap {
    width: u32,
    height: u32,
    pixels: Vec<u8>,
}

impl View for PixelMap {
    type V = ImageView;

    closed spec fn view(&self) -> ImageView {
        image_of(self.width, self.height, self.pixels@)
    }
}

/// What a request comes to: the image, or the reason why there is none.
pub type PixelMapResult = Result<PixelMap, String>;

/// A result as contracts see it.
pub open spec fn result_view(result: PixelMapResult) -> Result<ImageView, Seq<char>> {
    match result {
        Ok(image) => Ok(image@),
        Err(message) => Err(message@),
    }
}

impl PixelMap {
    #[verifier::type_invariant]
    spec fn covered(&self) -> bool {
        self.pixels@.len() == self.width * self.height * 4
    }

    /// Holds of every image: its pixel bytes cover its rectangle.
    pub open spec fn well_formed(&self) -> bool {
        self@.well_formed()
    }

    /// Makes an image of `pixels`, if they cover `width` by `height` pixels exactly.
    pub fn new(width: u32, height: u32, pixels: Vec<u8>) -> (image: Option<PixelMap>)
        ensures
            image is Some <==> pixels@.len() == width * height * 4,
            image matches Some(made) ==> made@ == image_of(width, height, pixels@)
                && made.well_formed(),
    {
        let area: u64 = PixelMap::area(width, height);
        if (pixels.len() as u128) == (area as u128) * 4 {
            Some(PixelMap { width, height, pixels })
        } else {
            None
        }
    }

    /// Makes an image of pixels that are known to cover the rectangle.
    pub(crate) fn assemble(width: u32, height: u32, pixels: Vec<u8>) -> (image: PixelMap)
        requires
            pixels@.len() == width * height * 4,
        ensures
            image@ == image_of(width, height, pixels@),
            image.well_formed(),
    {
        PixelMap { width, height, pixels }
    }

    fn area(width: u32, height: u32) -> (area: u64)
        ensures
            area == width * height,
    {
        assert(width * height <= u64::MAX) by (nonlinear_arith)
            requires
                width <= u32::MAX,
                height <= u32::MAX,
        ;
        (width as u64) * (height as u64)
    }

    /// Width in pixels.
    pub fn width(&self) -> (width: u32)
        ensures
            width == self@.width,
    {
        self.width
    }

    /// Height in pixels.
    pub fn height(&self) -> (height: u32)
        ensures
            height == self@.height,
    {
        self.height
    }

    /// The pixel bytes, row by row.
    pub fn pixels(&self) -> (pixels: &Vec<u8>)
        ensures
            pixels@ == self@.pixels,
            self.well_formed(),
    {
        proof {
            use_type_invariant(self);
        }
        &self.pixels
    }

    /// Copies the image into a buffer that the user interface can show.
    pub fn to_shared_pixel_buffer(&self) -> (buffer: SharedPixelBuffer<Rgba8Pixel>)
        ensures
            buffer_view(buffer) == self@,
    {
        proof {
            use_type_invariant(self);
        }
        rgba_buffer(&self.pixels, self.width, self.height)
    }

    /// Gives up the image for its pixel bytes.
    pub fn into_pixels(self) -> (pixels: Vec<u8>)
        ensures
            pixels@ == self@.pixels,
    {
        self.pixels
    }
}

} // verus!
