//! The two collaborators that turn a request into an image: the generator, which encodes text
//! as a QR code, and the renderer, which draws the code. Both are `fast_qr`'s; this module
//! states what the library relies on and chains them.

use vstd::prelude::*;
use vstd::utf8::encode_utf8;
use fast_qr::convert::Builder;
use crate::capacity::{lemma_long_payload_does_not_fit, lemma_short_payload_fits, payload_fits};
use crate::image::{image_of, ImageView, PixelMap, PixelMapResult, result_view};
use crate::request::{QrGenerationRequest, RequestView};

verus! {

/// `fast_qr::QRCode`, an encoded symbol. The library hands it from the generator to the renderer
/// and never looks inside.
#[verifier::external_type_specification]
#[verifier::external_body]
pub struct ExQrCode(fast_qr::QRCode);

/// `fast_qr::Module`, one cell of a symbol. Named only because `fast_qr::QRCode` is indexed by it.
#[verifier::external_type_specification]
#[verifier::external_body]
pub struct ExModule(fast_qr::Module);

/// `fast_qr::qr::QRCodeError`, the two reasons for which the generator refuses.
#[verifier::external_type_specification]
pub struct ExQrCodeError(fast_qr::qr::QRCodeError);

/// The symbol that `fast_qr::QRBuilder::build` makes of a `payload` that fits, when the builder
/// was given `level`, or no level for `None`, and nothing else. Encoding involves no chance: the
/// same payload and level give the same symbol.
pub uninterp spec fn built_code(payload: Seq<u8>, level: Option<fast_qr::ECL>) -> fast_qr::QRCode;

/// The image that `fast_qr`'s `ImageBuilder::to_pixmap` draws of `code` with square modules and
/// otherwise default settings.
pub uninterp spec fn rendered_image(code: fast_qr::QRCode) -> ImageView;

/// `code` is a symbol that the generator made: the one of some payload that fits.
pub open spec fn is_built(code: fast_qr::QRCode) -> bool {
    exists|payload: Seq<u8>, level: Option<fast_qr::ECL>|
        payload_fits(payload, level) && code == #[trigger] built_code(payload, level)
}

/// What the generator writes for each of its errors.
pub open spec fn error_message(error: fast_qr::qr::QRCodeError) -> Seq<char> {
    match error {
        fast_qr::qr::QRCodeError::EncodedData => "Data too big to be encoded"@,
        fast_qr::qr::QRCodeError::SpecifiedVersion => "Specified version too low to contain data"@,
    }
}

/// Calls `fast_qr::QRBuilder::new(data).build()`. The builder picks the densest encoding that
/// can represent the text's bytes and the smallest version that holds them at level Q. It
/// succeeds exactly when some version does, and otherwise reports `EncodedData`.
#[verifier::external_body]
fn build_code(data: String) -> (built: Result<fast_qr::QRCode, fast_qr::qr::QRCodeError>)
    ensures
        built is Ok <==> payload_fits(encode_utf8(data@), None),
        built matches Ok(code) ==> code == built_code(encode_utf8(data@), None),
        built matches Err(error) ==> error is EncodedData,
{
    fast_qr::QRBuilder::new(data).build()
}

/// Calls `fast_qr::QRBuilder::new(data).ecl(level).build()`: as `build_code`, at `level`.
#[verifier::external_body]
fn build_code_at(data: String, level: fast_qr::ECL) -> (built: Result<
    fast_qr::QRCode,
    fast_qr::qr::QRCodeError,
>)
    ensures
        built is Ok <==> payload_fits(encode_utf8(data@), Some(level)),
        built matches Ok(code) ==> code == built_code(encode_utf8(data@), Some(level)),
        built matches Err(error) ==> error is EncodedData,
{
    fast_qr::QRBuilder::new(data).ecl(level).build()
}

/// Calls `to_string` on the generator's error, which writes the text of `error_message`.
#[verifier::external_body]
fn error_text(error: &fast_qr::qr::QRCodeError) -> (text: String)
    ensures
        text@ == error_message(*error),
{
    error.to_string()
}

/// Calls `fast_qr`'s `ImageBuilder::default().shape(Shape::Square).to_pixmap(code)` and takes
/// the pixmap apart. The drawing is square, one pixel or more wide, and the pixmap holds four
/// bytes for each pixel. The renderer indexes the symbol by its own size, which is sound for
/// the symbols that the generator makes.
#[verifier::external_body]
fn render_square(code: &fast_qr::QRCode) -> (drawn: (u32, u32, Vec<u8>))
    requires
        is_built(*code),
    ensures
        image_of(drawn.0, drawn.1, drawn.2@) == rendered_image(*code),
        drawn.0 == drawn.1,
        drawn.0 >= 1,
        drawn.2@.len() == drawn.0 * drawn.1 * 4,
{
    let pixmap = fast_qr::convert::image::ImageBuilder::default()
        .shape(fast_qr::convert::Shape::Square)
        .to_pixmap(code);
    (pixmap.width(), pixmap.height(), pixmap.take())
}

/// The text that a refused request is answered with.
pub open spec fn too_big_message() -> Seq<char> {
    "Data too big to be encoded"@
}

/// The bytes that the generator encodes for `request`: its text in UTF-8.
pub open spec fn payload_of(request: RequestView) -> Seq<u8> {
    encode_utf8(request.data)
}

/// `request` can be encoded: its payload fits the largest symbol at its level.
pub open spec fn can_encode(request: RequestView) -> bool {
    payload_fits(payload_of(request), request.correction_level)
}

/// What `request` comes to: the drawing of its symbol where it can be encoded, and the
/// generator's message where it cannot.
pub open spec fn outcome_of(request: RequestView) -> Result<ImageView, Seq<char>> {
    if can_encode(request) {
        Ok(rendered_image(built_code(payload_of(request), request.correction_level)))
    } else {
        Err(too_big_message())
    }
}

/// A request of at most 1273 bytes comes to an image, whatever its text and level.
pub proof fn lemma_short_request_is_rendered(request: RequestView)
    requires
        payload_of(request).len() <= 1273,
    ensures
        outcome_of(request) is Ok,
{
    lemma_short_payload_fits(payload_of(request), request.correction_level);
}

/// A request of more than 7089 bytes comes to the generator's message, whatever its text and
/// level.
pub proof fn lemma_long_request_is_refused(request: RequestView)
    requires
        payload_of(request).len() > 7089,
    ensures
        outcome_of(request) == Err::<ImageView, Seq<char>>(too_big_message()),
{
    lemma_long_payload_does_not_fit(payload_of(request), request.correction_level);
}

/// Encodes a request as a QR code, at the level it names or at the generator's own.
pub fn new_qr_code_image(settings: QrGenerationRequest) -> (code: Result<fast_qr::QRCode, String>)
    ensures
        code is Ok <==> can_encode(settings@),
        code matches Ok(symbol) ==> symbol == built_code(
            payload_of(settings@),
            settings@.correction_level,
        ),
        code matches Err(message) ==> message@ == too_big_message(),
{
    let built = match settings.correction_level {
        Some(correction_level) => build_code_at(settings.data, correction_level),
        None => build_code(settings.data),
    };
    match built {
        Ok(qr_code) => Ok(qr_code),
        Err(error) => Err(error_text(&error)),
    }
}

/// Draws a symbol that the generator made.
pub fn render_code(code: &fast_qr::QRCode) -> (image: PixelMap)
    requires
        is_built(*code),
    ensures
        image@ == rendered_image(*code),
        image.well_formed(),
        image@.is_square(),
        image@.width >= 1,
{
    let (width, height, pixels) = render_square(code);
    PixelMap::assemble(width, height, pixels)
}

/// Turns a request into its image: encodes it, then draws the symbol. A request that cannot be
/// encoded comes to the generator's message instead.
pub fn generate_image(request: QrGenerationRequest) -> (result: PixelMapResult)
    ensures
        result_view(result) == outcome_of(request@),
        result matches Ok(image) ==> image.well_formed() && image@.is_square() && image@.width >= 1,
{
    match new_qr_code_image(request) {
        Ok(code) => Ok(render_code(&code)),
        Err(message) => Err(message),
    }
}

} // verus!
