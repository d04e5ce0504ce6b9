//! Encoding a screenshot: PNG when it stays under the size threshold, JPEG
//! when it does not.

use image::ImageEncoder;
use vstd::prelude::*;

use crate::avfoundation::chars_of;
use crate::text::push_char;

verus! {

/// What `image`'s PNG encoder writes for an RGBA8 buffer of `width` x
/// `height` pixels: the file's bytes, or the error's text.
pub uninterp spec fn png_encoding(rgba: Seq<u8>, width: u32, height: u32) -> Result<
    Seq<u8>,
    Seq<char>,
>;

/// What `image`'s JPEG encoder writes at `quality` for an RGB8 buffer of
/// `width` x `height` pixels: the file's bytes, or the error's text.
pub uninterp spec fn jpeg_encoding(rgb: Seq<u8>, width: u32, height: u32, quality: u8) -> Result<
    Seq<u8>,
    Seq<char>,
>;

/// `image::codecs::png::PngEncoder::write_image` into a fresh buffer, as
/// RGBA8. The encoder panics unless the buffer holds exactly four bytes per
/// pixel; otherwise the bytes written, or the error's text, are what
/// [`png_encoding`] names for these arguments.
#[verifier::external_body]
fn encode_png(rgba: &[u8], width: u32, height: u32) -> (res: Result<Vec<u8>, String>)
    requires
        rgba@.len() == width * height * 4,
    ensures
        match res {
            Ok(bytes) => png_encoding(rgba@, width, height) == Ok::<Seq<u8>, Seq<char>>(bytes@),
            Err(text) => png_encoding(rgba@, width, height) == Err::<Seq<u8>, Seq<char>>(text@),
        },
{
    let mut encoded = Vec::new();
    match image::codecs::png::PngEncoder::new(&mut encoded).write_image(
        rgba,
        width,
        height,
        image::ExtendedColorType::Rgba8,
    ) {
        Ok(()) => Ok(encoded),
        Err(error) => Err(error.to_string()),
    }
}

/// `image::codecs::jpeg::JpegEncoder::new_with_quality(..).encode` into a
/// fresh buffer, as RGB8. The encoder panics unless the buffer holds
/// exactly three bytes per pixel; otherwise the bytes written, or the
/// error's text, are what [`jpeg_encoding`] names for these arguments.
#[verifier::external_body]
fn encode_jpeg(rgb: &[u8], width: u32, height: u32, quality: u8) -> (res: Result<Vec<u8>, String>)
    requires
        rgb@.len() == width * height * 3,
    ensures
        match res {
            Ok(bytes) => jpeg_encoding(rgb@, width, height, quality) == Ok::<Seq<u8>, Seq<char>>(
                bytes@,
            ),
            Err(text) => jpeg_encoding(rgb@, width, height, quality) == Err::<Seq<u8>, Seq<char>>(
                text@,
            ),
        },
{
    let mut encoded = Vec::new();
    match image::codecs::jpeg::JpegEncoder::new_with_quality(&mut encoded, quality).encode(
        rgb,
        width,
        height,
        image::ExtendedColorType::Rgb8,
    ) {
        Ok(()) => Ok(encoded),
        Err(error) => Err(error.to_string()),
    }
}

/// Why a screenshot file was not written.
#[derive(Debug, PartialEq, Eq)]
pub enum ImageFileError {
    InvalidPixels,
    Encode(String),
    Io(String),
}

impl Clone for ImageFileError {
    fn clone(&self) -> (res: Self)
        ensures
            res == *self,
    {
        match self {
            ImageFileError::InvalidPixels => ImageFileError::InvalidPixels,
            ImageFileError::Encode(m) => ImageFileError::Encode(m.clone()),
            ImageFileError::Io(m) => ImageFileError::Io(m.clone()),
        }
    }
}

pub open spec fn image_error_text(e: ImageFileError) -> Seq<char> {
    match e {
        ImageFileError::InvalidPixels => "pixel buffer dimensions do not match"@,
        ImageFileError::Encode(m) => "image encoding failed: "@ + m@,
        ImageFileError::Io(m) => "image file I/O failed: "@ + m@,
    }
}

impl ImageFileError {
    /// The error as a sentence.
    pub fn message(&self) -> (res: String)
        ensures
            res@ == image_error_text(*self),
    {
        match self {
            ImageFileError::InvalidPixels => String::from_str("pixel buffer dimensions do not match"),
            ImageFileError::Encode(m) => {
                let mut out = String::from_str("image encoding failed: ");
                out.append(m.as_str());
                out
            },
            ImageFileError::Io(m) => {
                let mut out = String::from_str("image file I/O failed: ");
                out.append(m.as_str());
                out
            },
        }
    }
}

/// The two file formats a screenshot is saved in.
#[derive(Clone, Copy, Debug, PartialEq, Eq, Structural)]
pub enum ImageFormat {
    Png,
    Jpeg,
}

pub open spec fn format_extension(format: ImageFormat) -> Seq<char> {
    match format {
        ImageFormat::Png => "png"@,
        ImageFormat::Jpeg => "jpg"@,
    }
}

impl ImageFormat {
    /// The file extension: `png` or `jpg`.
    pub fn extension(self) -> (res: &'static str)
        ensures
            res@ == format_extension(self),
    {
        match self {
            ImageFormat::Png => "png",
            ImageFormat::Jpeg => "jpg",
        }
    }
}

/// An encoded screenshot, ready to be written.
#[derive(Debug, PartialEq, Eq)]
pub struct EncodedImage {
    pub bytes: Vec<u8>,
    pub format: ImageFormat,
}

/// The pixels a caller handed over describe a `width` x `height` image.
pub open spec fn pixels_fit(rgba: Seq<u8>, width: u32, height: u32) -> bool {
    width != 0 && height != 0 && rgba.len() == width * height * 4
}

/// The RGBA pixels with their alpha dropped, for the JPEG encoder.
pub open spec fn rgb_of(rgba: Seq<u8>) -> Seq<u8> {
    Seq::new(((rgba.len() / 4) * 3) as nat, |i: int| rgba[(i / 3) * 4 + i % 3])
}

/// What a screenshot is saved as: the PNG, unless it is larger than the
/// threshold, in which case the JPEG at the configured quality. An encoder
/// failure is an `Encode` error carrying its text.
pub open spec fn encoding_outcome(
    rgba: Seq<u8>,
    width: u32,
    height: u32,
    threshold: usize,
    quality: u8,
) -> Result<(Seq<u8>, ImageFormat), Seq<char>> {
    match png_encoding(rgba, width, height) {
        Err(e) => Err(e),
        Ok(png) => if png.len() <= threshold {
            Ok((png, ImageFormat::Png))
        } else {
            match jpeg_encoding(rgb_of(rgba), width, height, quality) {
                Err(e) => Err(e),
                Ok(jpeg) => Ok((jpeg, ImageFormat::Jpeg)),
            }
        },
    }
}

/// The RGB bytes of an RGBA buffer, in pixel order.
pub fn drop_alpha(rgba: &[u8]) -> (res: Vec<u8>)
    ensures
        res@ == rgb_of(rgba@),
{
    let total: usize = (rgba.len() / 4) * 3;
    let mut rgb: Vec<u8> = Vec::new();
    let mut i: usize = 0;
    while i < total
        invariant
            total == (rgba@.len() / 4) * 3,
            i <= total,
            rgb@.len() == i,
            forall|j: int| 0 <= j < i ==> #[trigger] rgb@[j] == rgba@[(j / 3) * 4 + j % 3],
        decreases total - i,
    {
        proof {
            let n = rgba@.len() as int;
            let k = i as int;
            assert(0 <= (k / 3) * 4 && (k / 3) * 4 + k % 3 < n) by (nonlinear_arith)
                requires
                    0 <= k < (n / 4) * 3,
                    n >= 0,
            ;
        }
        let pixel: usize = i / 3;
        let channel: usize = i % 3;
        assert(pixel * 4 + channel < rgba@.len());
        assert(rgba@.len() == rgba.len());
        rgb.push(rgba[pixel * 4 + channel]);
        i = i + 1;
    }
    assert(rgb@ =~= rgb_of(rgba@));
    rgb
}

/// What becomes of a PNG encoding: an error, the file itself when it is no
/// larger than `threshold`, or `None` when it has to be re-encoded as JPEG.
pub fn settle_png(png: Result<Vec<u8>, String>, threshold: usize) -> (res: Result<
    Option<EncodedImage>,
    ImageFileError,
>)
    ensures
        match png {
            Err(e) => res matches Err(ImageFileError::Encode(m)) && m@ == e@,
            Ok(bytes) => if bytes@.len() <= threshold {
                res matches Ok(Some(image)) && image.bytes@ == bytes@ && image.format
                    == ImageFormat::Png
            } else {
                res matches Ok(None)
            },
        },
{
    match png {
        Err(e) => Err(ImageFileError::Encode(e)),
        Ok(bytes) => {
            if bytes.len() <= threshold {
                Ok(Some(EncodedImage { bytes, format: ImageFormat::Png }))
            } else {
                Ok(None)
            }
        },
    }
}

/// What becomes of a JPEG encoding: the file, or an `Encode` error.
pub fn settle_jpeg(jpeg: Result<Vec<u8>, String>) -> (res: Result<EncodedImage, ImageFileError>)
    ensures
        match jpeg {
            Err(e) => res matches Err(ImageFileError::Encode(m)) && m@ == e@,
            Ok(bytes) => res matches Ok(image) && image.bytes@ == bytes@ && image.format
                == ImageFormat::Jpeg,
        },
{
    match jpeg {
        Err(e) => Err(ImageFileError::Encode(e)),
        Ok(bytes) => Ok(EncodedImage { bytes, format: ImageFormat::Jpeg }),
    }
}

/// Encodes a screenshot for saving: PNG, or JPEG when the PNG is larger
/// than `png_to_jpeg_threshold_bytes`. Pixels that do not describe a
/// `width` x `height` image are refused before any encoding.
pub fn encode_screenshot(
    rgba: &[u8],
    width: u32,
    height: u32,
    png_to_jpeg_threshold_bytes: usize,
    jpeg_quality: u8,
) -> (res: Result<EncodedImage, ImageFileError>)
    ensures
        !pixels_fit(rgba@, width, height) ==> res == Err::<EncodedImage, ImageFileError>(
            ImageFileError::InvalidPixels,
        ),
        pixels_fit(rgba@, width, height) ==> match encoding_outcome(
            rgba@,
            width,
            height,
            png_to_jpeg_threshold_bytes,
            jpeg_quality,
        ) {
            Err(e) => res matches Err(ImageFileError::Encode(m)) && m@ == e,
            Ok((bytes, format)) => res matches Ok(image) && image.bytes@ == bytes && image.format
                == format,
        },
{
    proof {
        let a = width as int;
        let b = height as int;
        assert(a * b * 4 <= 0xffff_ffff * 0xffff_ffff * 4) by (nonlinear_arith)
            requires
                0 <= a <= 0xffff_ffff,
                0 <= b <= 0xffff_ffff,
        ;
    }
    let expected: u128 = width as u128 * height as u128 * 4;
    if width == 0 || height == 0 || rgba.len() as u128 != expected {
        return Err(ImageFileError::InvalidPixels);
    }
    let png = encode_png(rgba, width, height);
    match settle_png(png, png_to_jpeg_threshold_bytes) {
        Err(e) => Err(e),
        Ok(Some(image)) => Ok(image),
        Ok(None) => {
            let rgb = drop_alpha(rgba);
            proof {
                let a = width as int;
                let b = height as int;
                assert((a * b * 4) / 4 * 3 == a * b * 3) by (nonlinear_arith);
            }
            let jpeg = encode_jpeg(rgb.as_slice(), width, height, jpeg_quality);
            settle_jpeg(jpeg)
        },
    }
}

/// The length `s` keeps of its first `n` characters once trailing `/`
/// separators and trailing `/.` components are dropped, the way a path's
/// components are read from the back. A lone `/` or `.` is kept.
pub open spec fn trimmed_len(s: Seq<char>, n: int) -> int
    decreases n,
{
    if n >= 2 && s[n - 1] == '/' {
        trimmed_len(s, n - 1)
    } else if n >= 2 && s[n - 1] == '.' && s[n - 2] == '/' {
        trimmed_len(s, n - 1)
    } else {
        n
    }
}

/// Where the last component of `s`'s first `n` characters starts: just
/// after its last `/`, or at the start when there is none.
pub open spec fn component_start(s: Seq<char>, n: int) -> int
    decreases n,
{
    if n <= 0 {
        0
    } else if s[n - 1] == '/' {
        n
    } else {
        component_start(s, n - 1)
    }
}

/// A `/` to put between `p` and a name pushed onto it, unless `p` is empty
/// or already ends in one.
pub open spec fn separator_after(p: Seq<char>) -> Seq<char> {
    if p.len() > 0 && p.last() != '/' {
        seq!['/']
    } else {
        Seq::empty()
    }
}

/// `base` with `.extension` added to its file name, as a path reads it
/// under the `/` rules: the last component, trailing separators and `.`
/// components aside, gets the suffix and is put back on its parent. A path
/// with no file name (empty, the root, `.` or ending in `..`) gets a file
/// named `.extension` inside it.
pub open spec fn suffixed(base: Seq<char>, extension: Seq<char>) -> Seq<char> {
    let t = trimmed_len(base, base.len() as int);
    let start = component_start(base, t);
    let name = base.subrange(start, t);
    if name.len() == 0 || name == seq!['.'] || name == seq!['.', '.'] {
        base + separator_after(base) + seq!['.'] + extension
    } else {
        let parent = base.subrange(0, trimmed_len(base, start));
        parent + separator_after(parent) + name + seq!['.'] + extension
    }
}

proof fn lemma_trimmed_len(s: Seq<char>, n: int)
    requires
        0 <= n <= s.len(),
    ensures
        0 <= trimmed_len(s, n) <= n,
        n >= 1 ==> trimmed_len(s, n) >= 1,
    decreases n,
{
    if n >= 2 && (s[n - 1] == '/' || (s[n - 1] == '.' && s[n - 2] == '/')) {
        lemma_trimmed_len(s, n - 1);
    }
}

proof fn lemma_component_start(s: Seq<char>, n: int)
    requires
        0 <= n <= s.len(),
    ensures
        0 <= component_start(s, n) <= n,
    decreases n,
{
    if n > 0 && s[n - 1] != '/' {
        lemma_component_start(s, n - 1);
    }
}

fn trim_path(s: &Vec<char>, n: usize) -> (res: usize)
    requires
        n <= s@.len(),
    ensures
        res == trimmed_len(s@, n as int),
{
    let mut k: usize = n;
    while k >= 2 && (s[k - 1] == '/' || (s[k - 1] == '.' && s[k - 2] == '/'))
        invariant
            k <= n <= s@.len(),
            trimmed_len(s@, n as int) == trimmed_len(s@, k as int),
        decreases k,
    {
        k = k - 1;
    }
    k
}

fn last_component_start(s: &Vec<char>, n: usize) -> (res: usize)
    requires
        n <= s@.len(),
    ensures
        res == component_start(s@, n as int),
{
    let mut k: usize = n;
    while k > 0 && s[k - 1] != '/'
        invariant
            k <= n <= s@.len(),
            component_start(s@, n as int) == component_start(s@, k as int),
        decreases k,
    {
        k = k - 1;
    }
    k
}

fn push_range(out: &mut String, s: &Vec<char>, from: usize, to: usize)
    requires
        from <= to <= s@.len(),
    ensures
        final(out)@ == old(out)@ + s@.subrange(from as int, to as int),
{
    let ghost start = out@;
    let mut i: usize = from;
    while i < to
        invariant
            from <= i <= to <= s@.len(),
            out@ == start + s@.subrange(from as int, i as int),
        decreases to - i,
    {
        push_char(out, s[i]);
        i = i + 1;
        assert(out@ =~= start + s@.subrange(from as int, i as int));
    }
}

/// `base` with `.extension` added to its file name - appended, not
/// swapped for an extension, which would cut a dotted process name short:
/// `Microsoft.Photos_ab12` must not become `Microsoft.png`.
pub fn with_suffix(base: &str, extension: &str) -> (res: String)
    ensures
        res@ == suffixed(base@, extension@),
{
    let chars = chars_of(base);
    let n = chars.len();
    let t = trim_path(&chars, n);
    proof {
        lemma_trimmed_len(chars@, n as int);
    }
    let start = last_component_start(&chars, t);
    proof {
        lemma_component_start(chars@, t as int);
    }
    let len = t - start;
    let no_name = len == 0 || (len == 1 && chars[start] == '.') || (len == 2 && chars[start] == '.'
        && chars[start + 1] == '.');
    let ghost name = chars@.subrange(start as int, t as int);
    proof {
        if len == 1 && chars@[start as int] == '.' {
            assert(name =~= seq!['.']);
        }
        if len == 2 && chars@[start as int] == '.' && chars@[start + 1] == '.' {
            assert(name =~= seq!['.', '.']);
        }
        if name == seq!['.'] {
            assert(name[0] == '.');
        }
        if name == seq!['.', '.'] {
            assert(name[0] == '.' && name[1] == '.');
        }
    }
    let mut out = String::new();
    if no_name {
        push_range(&mut out, &chars, 0, n);
        if n > 0 && chars[n - 1] != '/' {
            push_char(&mut out, '/');
        }
    } else {
        let parent = trim_path(&chars, start);
        proof {
            lemma_trimmed_len(chars@, start as int);
        }
        push_range(&mut out, &chars, 0, parent);
        if parent > 0 && chars[parent - 1] != '/' {
            push_char(&mut out, '/');
        }
        push_range(&mut out, &chars, start, t);
    }
    push_char(&mut out, '.');
    out.append(extension);
    proof {
        assert(chars@.subrange(0, n as int) =~= base@);
    }
    assert(out@ =~= suffixed(base@, extension@));
    out
}

/// Dropping the alpha keeps every pixel's red, green and blue, in pixel
/// order: three bytes a pixel where there were four.
pub proof fn lemma_rgb_keeps_each_pixel(rgba: Seq<u8>, pixel: int, channel: int)
    requires
        0 <= pixel < rgba.len() / 4,
        0 <= channel < 3,
    ensures
        rgb_of(rgba).len() == (rgba.len() / 4) * 3,
        rgb_of(rgba)[pixel * 3 + channel] == rgba[pixel * 4 + channel],
{
    let i = pixel * 3 + channel;
    assert(i / 3 == pixel && i % 3 == channel) by (nonlinear_arith)
        requires
            i == pixel * 3 + channel,
            0 <= channel < 3,
            0 <= pixel,
    ;
    assert(i < (rgba.len() / 4) * 3) by (nonlinear_arith)
        requires
            i == pixel * 3 + channel,
            channel < 3,
            pixel < rgba.len() / 4,
    ;
}

/// A screenshot whose PNG is no larger than the threshold is saved as that
/// PNG; a larger one as the JPEG of its own pixels, alpha dropped, at the
/// image's own width and height in that order and the configured quality.
pub proof fn lemma_encoding_picks_png_or_the_images_jpeg(
    rgba: Seq<u8>,
    width: u32,
    height: u32,
    threshold: usize,
    quality: u8,
)
    ensures
        match png_encoding(rgba, width, height) {
            Err(e) => encoding_outcome(rgba, width, height, threshold, quality) == Err::<
                (Seq<u8>, ImageFormat),
                Seq<char>,
            >(e),
            Ok(png) => if png.len() <= threshold {
                encoding_outcome(rgba, width, height, threshold, quality) == Ok::<
                    (Seq<u8>, ImageFormat),
                    Seq<char>,
                >((png, ImageFormat::Png))
            } else {
                match jpeg_encoding(rgb_of(rgba), width, height, quality) {
                    Ok(jpeg) => encoding_outcome(rgba, width, height, threshold, quality) == Ok::<
                        (Seq<u8>, ImageFormat),
                        Seq<char>,
                    >((jpeg, ImageFormat::Jpeg)),
                    Err(e) => encoding_outcome(rgba, width, height, threshold, quality) == Err::<
                        (Seq<u8>, ImageFormat),
                        Seq<char>,
                    >(e),
                }
            },
        },
{
}

} // verus!
