use crate::error::BridgeError;
use vstd::prelude::*;
use vstd::string::StringExecFns;

verus! {

/// An image held as plain values: 8-bit RGBA samples, row by row.
#[derive(Debug)]
pub struct Bitmap {
    pub width: u32,
    pub height: u32,
    pub pixels: Vec<u8>,
}

/// A bitmap has a pixel on each side and four samples for each pixel.
pub open spec fn well_formed_image(width: u32, height: u32, pixels: Seq<u8>) -> bool {
    &&& width >= 1
    &&& height >= 1
    &&& pixels.len() == 4 * width * height
}

impl Bitmap {
    pub open spec fn well_formed(&self) -> bool {
        well_formed_image(self.width, self.height, self.pixels@)
    }
}

#[verifier::external_type_specification]
#[verifier::external_body]
pub struct ExImageError(image::ImageError);

/// What `image::load_from_memory_with_format` makes of `bytes`, read in the
/// format that `image::guess_format` finds in them and converted to 8-bit
/// RGBA: width, height and samples, or `None` where either reports an error.
pub uninterp spec fn decoded_image(bytes: Seq<u8>) -> Option<(u32, u32, Seq<u8>)>;

/// The PNG file that `image::DynamicImage::write_to` writes for an 8-bit
/// RGBA image, or `None` where it reports an error.
pub uninterp spec fn png_encoding(width: u32, height: u32, pixels: Seq<u8>) -> Option<Seq<u8>>;

/// The text that `base64`'s `STANDARD` engine encodes `bytes` to.
pub uninterp spec fn base64_text(bytes: Seq<u8>) -> Seq<char>;

/// The eight bytes every PNG file begins with.
pub open spec fn png_signature() -> Seq<u8> {
    seq![137u8, 80u8, 78u8, 71u8, 13u8, 10u8, 26u8, 10u8]
}

/// The bytes begin with the PNG signature.
pub open spec fn is_png_stream(bytes: Seq<u8>) -> bool {
    bytes.len() >= 8 && bytes.subrange(0, 8) == png_signature()
}

/// The length of padded Base64 text: four characters for every three bytes
/// begun.
pub open spec fn base64_len(bytes: int) -> int {
    4 * ((bytes + 2) / 3)
}

/// The longest input whose padded Base64 text still has a `usize` length.
pub open spec fn base64_input_limit() -> int {
    (usize::MAX / 4) * 3
}

/// Calls `image::guess_format`, which tells the format from the first bytes
/// by the crate's built-in signatures, then
/// `image::load_from_memory_with_format` with that format, and converts the
/// result to 8-bit RGBA. Trusted: the outcome is a function of the bytes
/// alone, named `decoded_image`.
#[verifier::external_body]
fn load_rgba(bytes: &Vec<u8>) -> (loaded: Result<Bitmap, image::ImageError>)
    ensures
        match loaded {
            Ok(bitmap) => decoded_image(bytes@) == Some((bitmap.width, bitmap.height, bitmap.pixels@)),
            Err(_) => decoded_image(bytes@) is None,
        },
{
    let format = image::guess_format(bytes.as_slice())?;
    let rgba = image::load_from_memory_with_format(bytes.as_slice(), format)?.into_rgba8();
    Ok(Bitmap { width: rgba.width(), height: rgba.height(), pixels: rgba.into_raw() })
}

/// Calls `image::DynamicImage::resize_exact` with the Lanczos3 filter.
/// Trusted: the result is a well-formed bitmap of exactly `width` x `height`.
/// Nothing is claimed of the samples: the filter's kernel is computed with
/// the floating-point sine, whose last digits may differ between machines.
#[verifier::external_body]
fn resample(source: &Bitmap, width: u32, height: u32) -> (resized: Bitmap)
    requires
        source.well_formed(),
        width >= 1,
        height >= 1,
    ensures
        resized.well_formed(),
        resized.width == width,
        resized.height == height,
{
    let buffer = image::RgbaImage::from_raw(source.width, source.height, source.pixels.clone()).unwrap();
    let scaled = image::DynamicImage::ImageRgba8(buffer)
        .resize_exact(width, height, image::imageops::FilterType::Lanczos3)
        .into_rgba8();
    Bitmap { width: scaled.width(), height: scaled.height(), pixels: scaled.into_raw() }
}

/// Calls `image::DynamicImage::write_to` with `ImageFormat::Png` on an
/// in-memory buffer. Trusted: the outcome is a function of the image alone,
/// named `png_encoding`, and a file that was written begins with the PNG
/// signature.
#[verifier::external_body]
fn write_png(bitmap: &Bitmap) -> (written: Result<Vec<u8>, image::ImageError>)
    requires
        bitmap.well_formed(),
    ensures
        match written {
            Ok(png) => png_encoding(bitmap.width, bitmap.height, bitmap.pixels@) == Some(png@)
                && is_png_stream(png@),
            Err(_) => png_encoding(bitmap.width, bitmap.height, bitmap.pixels@) is None,
        },
{
    let buffer = image::RgbaImage::from_raw(bitmap.width, bitmap.height, bitmap.pixels.clone()).unwrap();
    let mut png: Vec<u8> = Vec::new();
    image::DynamicImage::ImageRgba8(buffer)
        .write_to(&mut std::io::Cursor::new(&mut png), image::ImageFormat::Png)?;
    Ok(png)
}

/// Calls `base64::Engine::encode` on the `STANDARD` engine (standard
/// alphabet, padded, no line breaks). Trusted: the text is a function of the
/// bytes, named `base64_text`, four characters for every three bytes begun.
/// The engine panics where that length overflows, which `requires` excludes.
#[verifier::external_body]
fn encode_base64(bytes: &Vec<u8>) -> (text: String)
    requires
        bytes@.len() <= base64_input_limit(),
    ensures
        text@ == base64_text(bytes@),
        text@.len() == base64_len(bytes@.len() as int),
{
    base64::Engine::encode(&base64::engine::general_purpose::STANDARD, bytes)
}

/// Calls `to_string` on an `image::ImageError` for its message. Nothing is
/// claimed of the text.
#[verifier::external_body]
fn image_error_text(error: &image::ImageError) -> String {
    error.to_string()
}

/// The bytes decode to an image with at least one pixel.
pub open spec fn decodable(bytes: Seq<u8>) -> bool {
    match decoded_image(bytes) {
        Some(image) => well_formed_image(image.0, image.1, image.2),
        None => false,
    }
}

/// The Base64 text of an image's PNG file, where one can be written.
pub open spec fn rendered_text(width: u32, height: u32, pixels: Seq<u8>) -> Option<Seq<char>> {
    match png_encoding(width, height, pixels) {
        Some(png) => if png.len() <= base64_input_limit() {
            Some(base64_text(png))
        } else {
            None
        },
        None => None,
    }
}

/// `outcome` is what rendering the given image owes: the padded Base64 text
/// of its PNG file, or an `IoError` exactly where no text can be written.
pub open spec fn renders_as(
    outcome: Result<String, BridgeError>,
    width: u32,
    height: u32,
    pixels: Seq<u8>,
) -> bool {
    match outcome {
        Ok(text) => {
            &&& rendered_text(width, height, pixels) == Some(text@)
            &&& is_png_stream(png_encoding(width, height, pixels)->Some_0)
            &&& text@.len() == base64_len(png_encoding(width, height, pixels)->Some_0.len() as int)
        },
        Err(error) => error is IoError && rendered_text(width, height, pixels) is None,
    }
}

/// True when the image is wider or taller than the bounding box.
pub open spec fn exceeds_box(width: int, height: int, max_width: int, max_height: int) -> bool {
    width > max_width || height > max_height
}

/// `side * bound / longest`, rounded to the nearest integer, halves upward.
pub open spec fn scaled_side(side: int, longest: int, bound: int) -> int {
    (2 * (side * bound) + longest) / (2 * longest)
}

pub open spec fn longest_side(width: int, height: int) -> int {
    if width >= height { width } else { height }
}

pub open spec fn box_bound(max_width: int, max_height: int) -> int {
    if max_width <= max_height { max_width } else { max_height }
}

/// The dimensions asked of the resampler: the image's own when it fits the
/// box, else both sides scaled by `bound / longest side`.
pub open spec fn target_dimensions(width: int, height: int, max_width: int, max_height: int) -> (int, int) {
    if exceeds_box(width, height, max_width, max_height) {
        let longest = longest_side(width, height);
        let bound = box_bound(max_width, max_height);
        (scaled_side(width, longest, bound), scaled_side(height, longest, bound))
    } else {
        (width, height)
    }
}

/// A side of the thumbnail: the target, but never less than one pixel.
pub open spec fn at_least_one(side: int) -> int {
    if side < 1 { 1 } else { side }
}

/// The size of the thumbnail: the image's own when it fits the box, else the
/// target of the scaling with each side kept to at least one pixel.
pub open spec fn thumbnail_dimensions(width: int, height: int, max_width: int, max_height: int) -> (int, int) {
    let target = target_dimensions(width, height, max_width, max_height);
    if exceeds_box(width, height, max_width, max_height) {
        (at_least_one(target.0), at_least_one(target.1))
    } else {
        target
    }
}

/// A scaled side is the nearest integer to `side * bound / longest`: twice its
/// distance from the exact quotient, times `longest`, is at most `longest`.
pub proof fn lemma_scaled_side_is_nearest(side: int, longest: int, bound: int)
    requires
        0 <= side <= longest,
        1 <= longest,
        0 <= bound,
    ensures
        0 <= scaled_side(side, longest, bound) <= bound,
        -longest < 2 * (longest * scaled_side(side, longest, bound)) - 2 * (side * bound) <= longest,
{
    let product = side * bound;
    let n = 2 * product + longest;
    let d = 2 * longest;
    let q = n / d;
    assert(0 <= product <= longest * bound) by (nonlinear_arith)
        requires
            product == side * bound,
            0 <= side <= longest,
            0 <= bound,
    ;
    assert(q * d <= n < q * d + d && 0 <= q) by (nonlinear_arith)
        requires
            q == n / d,
            d > 0,
            n >= 0,
    ;
    assert(q * d == 2 * (longest * q)) by (nonlinear_arith)
        requires
            d == 2 * longest,
    ;
    assert(q <= bound) by (nonlinear_arith)
        requires
            2 * (longest * q) <= 2 * (longest * bound) + longest,
            longest >= 1,
    ;
}

/// Scaling keeps the aspect ratio up to rounding, stated without division:
/// `|w'/h' - w/h| <= (w + h) / (2 * h * h')` whenever `h' > 0`.
pub proof fn lemma_target_keeps_aspect(width: int, height: int, max_width: int, max_height: int)
    requires
        0 <= width,
        0 <= height,
        0 <= max_width,
        0 <= max_height,
        exceeds_box(width, height, max_width, max_height),
    ensures
        ({
            let t = target_dimensions(width, height, max_width, max_height);
            &&& 0 <= t.0 <= max_width
            &&& 0 <= t.1 <= max_height
            &&& -(width + height) <= 2 * (t.0 * height - t.1 * width) <= width + height
        }),
{
    let m = longest_side(width, height);
    let b = box_bound(max_width, max_height);
    let tw = scaled_side(width, m, b);
    let th = scaled_side(height, m, b);
    lemma_scaled_side_is_nearest(width, m, b);
    lemma_scaled_side_is_nearest(height, m, b);
    let a1 = m * tw;
    let a2 = m * th;
    let c1 = width * b;
    let c2 = height * b;
    let e1 = 2 * a1 - 2 * c1;
    let e2 = 2 * a2 - 2 * c2;
    let x = tw * height;
    let y = th * width;
    let k = x - y;
    assert(e1 * height == 2 * (a1 * height) - 2 * (c1 * height)) by (nonlinear_arith)
        requires
            e1 == 2 * a1 - 2 * c1,
    ;
    assert(e2 * width == 2 * (a2 * width) - 2 * (c2 * width)) by (nonlinear_arith)
        requires
            e2 == 2 * a2 - 2 * c2,
    ;
    assert(c1 * height == c2 * width) by (nonlinear_arith)
        requires
            c1 == width * b,
            c2 == height * b,
    ;
    assert(a1 * height == m * x) by (nonlinear_arith)
        requires
            a1 == m * tw,
            x == tw * height,
    ;
    assert(a2 * width == m * y) by (nonlinear_arith)
        requires
            a2 == m * th,
            y == th * width,
    ;
    assert(m * k == m * x - m * y) by (nonlinear_arith)
        requires
            k == x - y,
    ;
    assert(-(m * height) <= e1 * height <= m * height) by (nonlinear_arith)
        requires
            -m < e1 <= m,
            0 <= height,
    ;
    assert(-(m * width) <= e2 * width <= m * width) by (nonlinear_arith)
        requires
            -m < e2 <= m,
            0 <= width,
    ;
    assert(-(width + height) <= 2 * k <= width + height) by (nonlinear_arith)
        requires
            -(m * height + m * width) <= 2 * (m * k) <= m * height + m * width,
            m >= 1,
    ;
}

fn scale_side(side: u32, longest: u32, bound: u32) -> (scaled: u32)
    requires
        side <= longest,
        1 <= longest,
    ensures
        scaled == scaled_side(side as int, longest as int, bound as int),
        scaled <= bound,
{
    proof {
        lemma_scaled_side_is_nearest(side as int, longest as int, bound as int);
        assert(0 <= side * bound <= 0xFFFF_FFFF * 0xFFFF_FFFF) by (nonlinear_arith)
            requires 0 <= side <= 0xFFFF_FFFF, 0 <= bound <= 0xFFFF_FFFF;
    }
    let product: u128 = (side as u128) * (bound as u128);
    let numerator: u128 = 2 * product + (longest as u128);
    let denominator: u128 = 2 * (longest as u128);
    let quotient: u128 = numerator / denominator;
    quotient as u32
}

/// Computes the size a thumbnail is resampled to.
///
/// An image that fits the box keeps its size. One that is wider or taller is
/// scaled on both sides by the smaller bound over its longer side, each side
/// rounded to the nearest integer, so that neither side leaves the box and
/// the aspect ratio is kept up to that rounding.
pub fn fit_dimensions(width: u32, height: u32, max_width: u32, max_height: u32) -> (fitted: (u32, u32))
    ensures
        (fitted.0 as int, fitted.1 as int) == target_dimensions(
            width as int,
            height as int,
            max_width as int,
            max_height as int,
        ),
        !exceeds_box(width as int, height as int, max_width as int, max_height as int) ==> fitted == (
            width,
            height,
        ),
        exceeds_box(width as int, height as int, max_width as int, max_height as int) ==> {
            &&& fitted.0 <= max_width
            &&& fitted.1 <= max_height
            &&& -(width + height) <= 2 * (fitted.0 * height - fitted.1 * width) <= width + height
        },
{
    if width > max_width || height > max_height {
        let longest: u32 = if width >= height { width } else { height };
        let bound: u32 = if max_width <= max_height { max_width } else { max_height };
        proof {
            lemma_target_keeps_aspect(width as int, height as int, max_width as int, max_height as int);
        }
        (scale_side(width, longest, bound), scale_side(height, longest, bound))
    } else {
        (width, height)
    }
}

/// Decodes an image of any supported format, detected from its content.
///
/// Succeeds exactly on bytes that decode to an image with at least one
/// pixel; everything else is a `DecodeError`.
pub fn decode(bytes: &Vec<u8>) -> (decoded: Result<Bitmap, BridgeError>)
    ensures
        decoded is Ok <==> decodable(bytes@),
        match decoded {
            Ok(bitmap) => bitmap.well_formed() && decoded_image(bytes@) == Some(
                (bitmap.width, bitmap.height, bitmap.pixels@),
            ),
            Err(error) => error is DecodeError,
        },
{
    match load_rgba(bytes) {
        Ok(bitmap) => {
            if bitmap.width == 0 || bitmap.height == 0 {
                return Err(BridgeError::DecodeError(String::from_str("Failed to decode image: it has no pixels")));
            }
            proof {
                assert(0 <= bitmap.width * bitmap.height <= 0xFFFF_FFFF * 0xFFFF_FFFF
                    && 4 * bitmap.width * bitmap.height == 4 * (bitmap.width * bitmap.height))
                    by (nonlinear_arith)
                    requires
                        0 <= bitmap.width <= 0xFFFF_FFFF,
                        0 <= bitmap.height <= 0xFFFF_FFFF,
                ;
            }
            let area: u128 = (bitmap.width as u128) * (bitmap.height as u128);
            let samples: u128 = 4 * area;
            if bitmap.pixels.len() as u128 != samples {
                return Err(BridgeError::DecodeError(String::from_str("Failed to decode image: its buffer is incomplete")));
            }
            Ok(bitmap)
        },
        Err(error) => Err(
            BridgeError::DecodeError(
                String::from_str("Failed to decode image: ").concat(image_error_text(&error).as_str()),
            ),
        ),
    }
}

/// Brings a bitmap inside the bounding box.
///
/// A bitmap that fits is returned as it is. A larger one is resampled to
/// exactly the size `fit_dimensions` gives, where a side that rounds to zero
/// is kept at one pixel; the result never leaves the box.
pub fn shrink_to_fit(bitmap: Bitmap, max_width: u32, max_height: u32) -> (thumb: Bitmap)
    requires
        bitmap.well_formed(),
        max_width >= 1,
        max_height >= 1,
    ensures
        thumb.well_formed(),
        (thumb.width as int, thumb.height as int) == thumbnail_dimensions(
            bitmap.width as int,
            bitmap.height as int,
            max_width as int,
            max_height as int,
        ),
        thumb.width <= max_width,
        thumb.height <= max_height,
        !exceeds_box(bitmap.width as int, bitmap.height as int, max_width as int, max_height as int)
            ==> thumb == bitmap,
{
    if bitmap.width > max_width || bitmap.height > max_height {
        let target = fit_dimensions(bitmap.width, bitmap.height, max_width, max_height);
        let width: u32 = if target.0 < 1 { 1 } else { target.0 };
        let height: u32 = if target.1 < 1 { 1 } else { target.1 };
        resample(&bitmap, width, height)
    } else {
        bitmap
    }
}

/// Writes a bitmap as a PNG file and returns the file as Base64 text.
pub fn render(bitmap: &Bitmap) -> (text: Result<String, BridgeError>)
    requires
        bitmap.well_formed(),
    ensures
        renders_as(text, bitmap.width, bitmap.height, bitmap.pixels@),
        text is Ok ==> text->Ok_0@.len() % 4 == 0,
{
    match write_png(bitmap) {
        Ok(png) => {
            if png.len() > (usize::MAX / 4) * 3 {
                return Err(BridgeError::IoError(String::from_str("Failed to write image to buffer: it is too large")));
            }
            Ok(encode_base64(&png))
        },
        Err(error) => Err(
            BridgeError::IoError(
                String::from_str("Failed to write image to buffer: ").concat(
                    image_error_text(&error).as_str(),
                ),
            ),
        ),
    }
}

/// Produces the thumbnail of an image file's content: decode, shrink to the
/// bounding box, write as PNG, encode as Base64.
///
/// Bytes that do not decode give a `DecodeError`. An image that fits the box
/// is rendered unscaled, with its own pixels; a larger one is rendered from
/// a bitmap of exactly the size `thumbnail_dimensions` gives, which lies
/// inside the box. The text is padded Base64 of a PNG file.
pub fn encode(bytes: &Vec<u8>, max_width: u32, max_height: u32) -> (text: Result<String, BridgeError>)
    requires
        max_width >= 1,
        max_height >= 1,
    ensures
        !decodable(bytes@) ==> text is Err && text->Err_0 is DecodeError,
        text is Ok ==> text->Ok_0@.len() % 4 == 0,
        decodable(bytes@) ==> {
            let image = decoded_image(bytes@)->Some_0;
            if exceeds_box(image.0 as int, image.1 as int, max_width as int, max_height as int) {
                let size = thumbnail_dimensions(
                    image.0 as int,
                    image.1 as int,
                    max_width as int,
                    max_height as int,
                );
                &&& 1 <= size.0 <= max_width
                &&& 1 <= size.1 <= max_height
                &&& exists|pixels: Seq<u8>|
                    {
                        &&& well_formed_image(size.0 as u32, size.1 as u32, pixels)
                        &&& #[trigger] renders_as(text, size.0 as u32, size.1 as u32, pixels)
                    }
            } else {
                renders_as(text, image.0, image.1, image.2)
            }
        },
{
    match decode(bytes) {
        Ok(bitmap) => {
            let thumb = shrink_to_fit(bitmap, max_width, max_height);
            let text = render(&thumb);
            proof {
                let size = thumbnail_dimensions(
                    decoded_image(bytes@)->Some_0.0 as int,
                    decoded_image(bytes@)->Some_0.1 as int,
                    max_width as int,
                    max_height as int,
                );
                assert(size.0 as u32 == thumb.width && size.1 as u32 == thumb.height);
                assert(well_formed_image(size.0 as u32, size.1 as u32, thumb.pixels@));
                assert(renders_as(text, size.0 as u32, size.1 as u32, thumb.pixels@));
            }
            text
        },
        Err(error) => Err(error),
    }
}

} // verus!
