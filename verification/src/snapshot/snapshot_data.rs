use base64::Engine;
use base64::engine::general_purpose::STANDARD;
use tiny_skia::Pixmap;
use vstd::prelude::*;
use vstd::slice::slice_to_vec;

verus! {

/// A raster of pixels, four bytes each.
#[verifier::external_type_specification]
#[verifier::external_body]
pub struct ExPixmap(Pixmap);

/// The width of a raster in pixels.
pub uninterp spec fn pixmap_width(pixmap: Pixmap) -> u32;

/// The height of a raster in pixels.
pub uninterp spec fn pixmap_height(pixmap: Pixmap) -> u32;

/// The bytes of a raster: red, green, blue and alpha of each pixel, row by
/// row.
pub uninterp spec fn pixmap_data(pixmap: Pixmap) -> Seq<u8>;

/// The PNG image of a raster of the given size and bytes, where it can be
/// encoded.
pub uninterp spec fn encoded_png(width: u32, height: u32, data: Seq<u8>) -> Option<Seq<u8>>;

/// The given bytes in base64, with the standard alphabet and padding.
pub uninterp spec fn base64_standard(bytes: Seq<u8>) -> Seq<char>;

/// The most bytes that are encoded in base64: four characters for every
/// three bytes have to fit a `usize`.
pub const MAX_BASE64_INPUT: usize = usize::MAX / 4 * 3;

/// `tiny_skia::Pixmap::width` returns the width the raster was made with.
pub assume_specification[ Pixmap::width ](pixmap: &Pixmap) -> (width: u32)
    ensures
        width == pixmap_width(*pixmap),
;

/// `tiny_skia::Pixmap::height` returns the height the raster was made with.
pub assume_specification[ Pixmap::height ](pixmap: &Pixmap) -> (height: u32)
    ensures
        height == pixmap_height(*pixmap),
;

/// `tiny_skia::Pixmap::data` hands out the bytes of the raster.
pub assume_specification<'a>[ Pixmap::data ](pixmap: &'a Pixmap) -> (data: &'a [u8])
    ensures
        data@ == pixmap_data(*pixmap),
;

/// Calls `tiny_skia::Pixmap::encode_png`. The image is a function of the
/// size and the bytes of the raster alone and is named `encoded_png`; an
/// error of the encoder becomes `None`.
#[verifier::external_body]
pub(crate) fn encode_png(pixmap: &Pixmap) -> (png: Option<Vec<u8>>)
    ensures
        match encoded_png(pixmap_width(*pixmap), pixmap_height(*pixmap), pixmap_data(*pixmap)) {
            Some(expected) => png is Some && png.unwrap()@ == expected,
            None => png is None,
        },
{
    match pixmap.encode_png() {
        Ok(png) => Some(png),
        Err(_) => None,
    }
}

/// Calls `encode` of base64's `STANDARD` engine. The text is a function of
/// the bytes alone and is named `base64_standard`. The engine panics where
/// the length of the text does not fit a `usize`; such input is left out.
#[verifier::external_body]
fn encode_base64(bytes: &Vec<u8>) -> (text: String)
    requires
        bytes@.len() <= MAX_BASE64_INPUT,
    ensures
        text@ == base64_standard(bytes@),
{
    STANDARD.encode(bytes)
}

/// Why a snapshot could not be handed out.
#[derive(Clone, Copy, Debug, PartialEq, Eq, Structural)]
pub enum SnapshotError {
    /// The raster could not be encoded as a PNG image.
    EncodingFailed,
    /// The PNG image is too long to be encoded in base64.
    TooLarge,
    /// The snapshot is a text, and a picture was asked for.
    NotAnImage,
    /// The content is no code, and a snapshot as text was asked for.
    NotCode,
}

/// Encodes a PNG image in base64, where it is not too long for that.
pub fn encode_png_base64(png: &Vec<u8>) -> (text: Result<String, SnapshotError>)
    ensures
        png@.len() > MAX_BASE64_INPUT ==> text == Err::<String, SnapshotError>(
            SnapshotError::TooLarge,
        ),
        png@.len() <= MAX_BASE64_INPUT ==> text is Ok && text.unwrap()@ == base64_standard(png@),
{
    if png.len() > MAX_BASE64_INPUT {
        Err(SnapshotError::TooLarge)
    } else {
        Ok(encode_base64(png))
    }
}

/// A snapshot as it is handed out: a picture or a text.
pub enum SnapshotData {
    Image { data: Vec<u8>, width: usize, height: usize },
    Text(String),
}

impl SnapshotData {
    /// The snapshot is a picture of the size of the given raster, with the
    /// given bytes.
    pub open spec fn is_image_of(&self, pixmap: Pixmap, bytes: Seq<u8>) -> bool {
        &&& *self matches SnapshotData::Image { data, width, height }
        &&& data@ == bytes
        &&& width == pixmap_width(pixmap)
        &&& height == pixmap_height(pixmap)
    }

    /// The snapshot is the given text.
    pub open spec fn is_text(&self, expected: Seq<char>) -> bool {
        &&& *self matches SnapshotData::Text(text)
        &&& text@ == expected
    }

    /// The picture of a raster: its PNG image, or its pixels as they are.
    pub fn from_pixmap(pixmap: &Pixmap, is_png_format: bool) -> (snapshot: Result<
        SnapshotData,
        SnapshotError,
    >)
        ensures
            !is_png_format ==> snapshot is Ok && snapshot.unwrap().is_image_of(
                *pixmap,
                pixmap_data(*pixmap),
            ),
            is_png_format ==> match encoded_png(
                pixmap_width(*pixmap),
                pixmap_height(*pixmap),
                pixmap_data(*pixmap),
            ) {
                Some(png) => snapshot is Ok && snapshot.unwrap().is_image_of(*pixmap, png),
                None => snapshot is Err && snapshot->Err_0 == SnapshotError::EncodingFailed,
            },
    {
        let data = if is_png_format {
            match encode_png(pixmap) {
                Some(png) => png,
                None => {
                    return Err(SnapshotError::EncodingFailed);
                },
            }
        } else {
            slice_to_vec(pixmap.data())
        };
        Ok(
            SnapshotData::Image {
                width: pixmap.width() as usize,
                height: pixmap.height() as usize,
                data,
            },
        )
    }
}

/// A picture as it is handed to a page: its size and its bytes.
pub struct ImageData {
    pub width: usize,
    pub height: usize,
    pub data: Vec<u8>,
}

impl ImageData {
    /// The picture that a snapshot holds, where it holds one.
    pub fn from(value: SnapshotData) -> (image: Result<ImageData, SnapshotError>)
        ensures
            match value {
                SnapshotData::Image { data, width, height } => {
                    &&& image is Ok
                    &&& image.unwrap().data@ == data@
                    &&& image.unwrap().width == width
                    &&& image.unwrap().height == height
                },
                SnapshotData::Text(_) => image is Err && image->Err_0 == SnapshotError::NotAnImage,
            },
    {
        match value {
            SnapshotData::Image { data, width, height } => Ok(ImageData { data, width, height }),
            SnapshotData::Text(_) => Err(SnapshotError::NotAnImage),
        }
    }

    /// A copy of the bytes of the picture.
    pub fn data(&self) -> (data: Vec<u8>)
        ensures
            data@ == self.data@,
    {
        self.data.clone()
    }
}

} // verus!
