//! Textures: decoded RGBA pixels with dimensions that the GPU can take.
//!
//! Reading and decoding an image file is the host's part. What it hands
//! over is checked here before it is called a texture.

use vstd::prelude::*;

verus! {

/// The widest and highest texture the GPU takes.
pub const MAX_TEXTURE_SIDE: u32 = 0xFFFF;

/// Why decoded pixels did not become a texture.
#[derive(Clone, Copy, Debug, PartialEq, Eq)]
pub enum TextureError {
    /// A side is longer than `MAX_TEXTURE_SIDE`.
    TooLarge,
    /// The number of bytes is not four per pixel.
    Malformed,
}

/// A decoded image as the host hands it over: its sides in pixels and the
/// red, green, blue and alpha of each pixel, row by row. Nothing is known of
/// it yet.
#[derive(Clone, Debug, PartialEq, Eq)]
pub struct RgbaImage {
    pub width: u32,
    pub height: u32,
    pub pixels: Vec<u8>,
}

/// What a [`Texture`] stands for in contracts.
pub ghost struct TextureView {
    pub width: u16,
    pub height: u16,
    /// Red, green, blue and alpha of each pixel, row by row.
    pub pixels: Seq<u8>,
}

impl TextureView {
    /// The invariant of every texture: four bytes for each pixel.
    pub open spec fn wf(self) -> bool {
        self.pixels.len() == 4 * self.width * self.height
    }
}

/// Decoded RGBA pixels, ready for upload.
pub struct Texture {
    width: u16,
    height: u16,
    pixels: Vec<u8>,
}

impl View for Texture {
    type V = TextureView;

    closed spec fn view(&self) -> TextureView {
        TextureView { width: self.width, height: self.height, pixels: self.pixels@ }
    }
}

/// The texture made of decoded pixels, or the reason why there is none.
/// The sides are checked before the number of bytes.
pub open spec fn framed(width: u32, height: u32, pixels: Seq<u8>) -> Result<
    TextureView,
    TextureError,
> {
    if width > MAX_TEXTURE_SIDE || height > MAX_TEXTURE_SIDE {
        Err(TextureError::TooLarge)
    } else if pixels.len() != 4 * width * height {
        Err(TextureError::Malformed)
    } else {
        Ok(TextureView { width: width as u16, height: height as u16, pixels })
    }
}

/// Whether `result` is `model` with the texture taken by its view.
pub open spec fn texture_result_is(
    result: Result<Texture, TextureError>,
    model: Result<TextureView, TextureError>,
) -> bool {
    match result {
        Ok(texture) => model == Ok::<TextureView, TextureError>(texture@),
        Err(error) => model == Err::<TextureView, TextureError>(error),
    }
}

impl Texture {
    #[verifier::type_invariant]
    closed spec fn inv(self) -> bool {
        self@.wf()
    }

    pub fn width(&self) -> (w: u16)
        ensures
            w == self@.width,
    {
        self.width
    }

    pub fn height(&self) -> (h: u16)
        ensures
            h == self@.height,
    {
        self.height
    }

    /// The RGBA bytes, four for each pixel.
    pub fn pixels(&self) -> (p: &Vec<u8>)
        ensures
            p@ == self@.pixels,
            p@.len() == 4 * self@.width * self@.height,
    {
        proof {
            use_type_invariant(self);
        }
        &self.pixels
    }
}

/// Makes a texture of a decoded image.
///
/// The result is an error where the image is wider or higher than the GPU
/// takes, and where there are not exactly four bytes for each pixel. The
/// texture holds the pixels as they were given.
pub fn load_texture(image: RgbaImage) -> (result: Result<Texture, TextureError>)
    ensures
        texture_result_is(result, framed(image.width, image.height, image.pixels@)),
        result matches Ok(texture) ==> texture@.wf(),
{
    let RgbaImage { width, height, pixels } = image;
    if width > MAX_TEXTURE_SIDE || height > MAX_TEXTURE_SIDE {
        return Err(TextureError::TooLarge);
    }
    assert(4 * width * height <= 4 * 0xFFFF * 0xFFFF) by (nonlinear_arith)
        requires
            0 <= width <= 0xFFFF,
            0 <= height <= 0xFFFF,
    ;
    assert(4 * (width as u64) * (height as u64) == 4 * width * height) by (nonlinear_arith)
        requires
            0 <= width <= 0xFFFF,
            0 <= height <= 0xFFFF,
    ;
    let bytes: u64 = 4 * (width as u64) * (height as u64);
    if pixels.len() as u64 != bytes {
        return Err(TextureError::Malformed);
    }
    Ok(Texture { width: width as u16, height: height as u16, pixels })
}

} // verus!
