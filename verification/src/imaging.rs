use vstd::prelude::*;
use base64::Engine;
use image::ImageEncoder;
use crate::error::{CaptureError, CaptureErrorView};
use crate::overlay::min_int;

verus! {

/// The character of a six-bit value in the standard base64 alphabet.
pub open spec fn base64_char(v: int) -> char {
    if v < 26 {
        (65 + v) as char
    } else if v < 52 {
        (71 + v) as char
    } else if v < 62 {
        (v - 4) as char
    } else if v == 62 {
        '+'
    } else {
        '/'
    }
}

/// Standard base64 with `=` padding: each group of three bytes becomes four
/// characters, and a last group of one or two bytes is padded.
pub open spec fn base64_standard(b: Seq<u8>) -> Seq<char>
    decreases b.len(),
{
    let b0 = b[0] as int;
    let b1 = b[1] as int;
    let b2 = b[2] as int;
    if b.len() == 0 {
        Seq::empty()
    } else if b.len() == 1 {
        seq![base64_char(b0 / 4), base64_char((b0 % 4) * 16), '=', '=']
    } else if b.len() == 2 {
        seq![base64_char(b0 / 4), base64_char((b0 % 4) * 16 + b1 / 16), base64_char((b1 % 16) * 4), '=']
    } else {
        seq![
            base64_char(b0 / 4),
            base64_char((b0 % 4) * 16 + b1 / 16),
            base64_char((b1 % 16) * 4 + b2 / 64),
            base64_char(b2 % 64),
        ] + base64_standard(b.subrange(3, b.len() as int))
    }
}

/// The six-bit value of a character of the standard base64 alphabet.
pub open spec fn base64_value(c: char) -> int {
    if 'A' <= c && c <= 'Z' {
        c as int - 65
    } else if 'a' <= c && c <= 'z' {
        c as int - 71
    } else if '0' <= c && c <= '9' {
        c as int + 4
    } else if c == '+' {
        62
    } else {
        63
    }
}

/// Reading standard base64 back: each group of four characters gives three
/// bytes, or fewer where the group ends in `=` padding.
pub open spec fn base64_decode(s: Seq<char>) -> Seq<u8>
    decreases s.len(),
{
    if s.len() < 4 {
        Seq::empty()
    } else {
        let v0 = base64_value(s[0]);
        let v1 = base64_value(s[1]);
        let v2 = base64_value(s[2]);
        let v3 = base64_value(s[3]);
        let b0 = (v0 * 4 + v1 / 16) as u8;
        let b1 = ((v1 % 16) * 16 + v2 / 4) as u8;
        let b2 = ((v2 % 4) * 64 + v3) as u8;
        let group = if s[2] == '=' {
            seq![b0]
        } else if s[3] == '=' {
            seq![b0, b1]
        } else {
            seq![b0, b1, b2]
        };
        group + base64_decode(s.subrange(4, s.len() as int))
    }
}

proof fn lemma_base64_char(v: int)
    requires
        0 <= v < 64,
    ensures
        base64_value(base64_char(v)) == v,
        base64_char(v) != '=',
{
}

/// Standard base64 reads back as the bytes it encodes, and it is four
/// characters for every three bytes or part of them.
pub proof fn lemma_base64_round_trip(b: Seq<u8>)
    ensures
        base64_decode(base64_standard(b)) == b,
        base64_standard(b).len() == (b.len() + 2) / 3 * 4,
    decreases b.len(),
{
    if b.len() > 0 {
        let b0 = b[0] as int;
        let b1 = b[1] as int;
        let b2 = b[2] as int;
        lemma_base64_char(b0 / 4);
        lemma_base64_char((b0 % 4) * 16);
        lemma_base64_char((b0 % 4) * 16 + b1 / 16);
        lemma_base64_char((b1 % 16) * 4);
        lemma_base64_char((b1 % 16) * 4 + b2 / 64);
        lemma_base64_char(b2 % 64);
        let e = base64_standard(b);
        if b.len() == 1 {
            assert(e[2] == '=');
            assert(e.subrange(4, e.len() as int) =~= Seq::<char>::empty());
            assert(base64_decode(Seq::<char>::empty()) =~= Seq::<u8>::empty());
            assert(((b0 / 4) * 4 + ((b0 % 4) * 16) / 16) as u8 == b[0]);
            assert(base64_decode(e) =~= b);
        } else if b.len() == 2 {
            assert(e[2] != '=');
            assert(e[3] == '=');
            assert(e.subrange(4, e.len() as int) =~= Seq::<char>::empty());
            assert(base64_decode(Seq::<char>::empty()) =~= Seq::<u8>::empty());
            assert(base64_decode(e) =~= b);
        } else {
            let rest = b.subrange(3, b.len() as int);
            lemma_base64_round_trip(rest);
            assert(e.subrange(4, e.len() as int) =~= base64_standard(rest));
            assert(base64_decode(e) =~= b);
        }
    }
}

/// The first column (or row) of a crop, clamped to the image.
pub open spec fn crop_origin(start: u32, size: u32) -> int {
    min_int(start as int, size as int)
}

/// The width (or height) of a crop, clamped to the image.
pub open spec fn crop_extent(start: u32, length: u32, size: u32) -> int {
    min_int(length as int, size - crop_origin(start, size))
}

/// The RGBA bytes of the part of a `width` by `height` RGBA image that
/// starts at `(x, y)` and is `w` by `h` pixels, clamped to the image, row by row.
pub open spec fn cropped_rgba(
    raw: Seq<u8>,
    width: u32,
    height: u32,
    x: u32,
    y: u32,
    w: u32,
    h: u32,
) -> Seq<u8> {
    let x0 = crop_origin(x, width);
    let y0 = crop_origin(y, height);
    let cw = crop_extent(x, w, width);
    let ch = crop_extent(y, h, height);
    Seq::new(
        (cw * ch * 4) as nat,
        |i: int| raw[((y0 + i / (cw * 4)) * width + x0) * 4 + i % (cw * 4)],
    )
}

/// The crop holds exactly the screenshot's pixels inside the rectangle,
/// clamped to the image, row by row: it is `cw` by `ch` pixels, where the
/// rectangle starts at `x0 = min(x, width)`, `y0 = min(y, height)` and is cut
/// at the image's right and bottom edges, and byte `k` of its pixel
/// `(col, row)` is byte `k` of the screenshot's pixel `(x0 + col, y0 + row)`.
pub proof fn lemma_cropped_pixels(
    raw: Seq<u8>,
    width: u32,
    height: u32,
    x: u32,
    y: u32,
    w: u32,
    h: u32,
)
    ensures
        ({
            let x0 = if x <= width {
                x as int
            } else {
                width as int
            };
            let y0 = if y <= height {
                y as int
            } else {
                height as int
            };
            let cw = if w <= width - x0 {
                w as int
            } else {
                width - x0
            };
            let ch = if h <= height - y0 {
                h as int
            } else {
                height - y0
            };
            let c = cropped_rgba(raw, width, height, x, y, w, h);
            &&& c.len() == cw * ch * 4
            &&& forall|row: int, col: int, k: int|
                0 <= row < ch && 0 <= col < cw && 0 <= k < 4 ==> #[trigger] c[(row * cw + col) * 4
                    + k] == raw[((y0 + row) * width + x0 + col) * 4 + k]
        }),
{
    let x0 = crop_origin(x, width);
    let y0 = crop_origin(y, height);
    let cw = crop_extent(x, w, width);
    let ch = crop_extent(y, h, height);
    let c = cropped_rgba(raw, width, height, x, y, w, h);
    assert forall|row: int, col: int, k: int|
        0 <= row < ch && 0 <= col < cw && 0 <= k < 4 implies #[trigger] c[(row * cw + col) * 4 + k]
        == raw[((y0 + row) * width + x0 + col) * 4 + k] by {
        let i = (row * cw + col) * 4 + k;
        assert(i == row * (cw * 4) + (col * 4 + k)) by (nonlinear_arith)
            requires
                i == (row * cw + col) * 4 + k,
        ;
        assert(0 <= col * 4 + k < cw * 4) by (nonlinear_arith)
            requires
                0 <= col < cw,
                0 <= k < 4,
        ;
        assert(0 <= i < cw * ch * 4) by (nonlinear_arith)
            requires
                i == row * (cw * 4) + (col * 4 + k),
                0 <= col * 4 + k < cw * 4,
                0 <= row < ch,
        ;
        vstd::arithmetic::div_mod::lemma_fundamental_div_mod_converse(
            i,
            cw * 4,
            row,
            col * 4 + k,
        );
        assert(((y0 + row) * width + x0) * 4 + (col * 4 + k) == ((y0 + row) * width + x0 + col) * 4
            + k) by (nonlinear_arith);
    }
}

/// The PNG file that `image`'s PNG encoder writes for an RGBA image of the
/// given size, or the message of the error that the encoder reports.
pub uninterp spec fn png_encoding(rgba: Seq<u8>, width: u32, height: u32) -> Result<
    Seq<u8>,
    Seq<char>,
>;

/// An encoder's result, with the file and the message taken by their views.
pub open spec fn encoded_view(r: Result<Vec<u8>, String>) -> Result<Seq<u8>, Seq<char>> {
    match r {
        Ok(png) => Ok(png@),
        Err(message) => Err(message@),
    }
}

/// `image::imageops::crop_imm` followed by `SubImage::to_image` on an RGBA
/// image: copies the pixels of the rectangle, clamped to the image as
/// `crop_imm` clamps it, row by row into a new buffer. The image is built
/// with `ImageBuffer::from_raw`, which accepts a buffer of exactly this length.
#[verifier::external_body]
fn crop_rgba(raw: Vec<u8>, width: u32, height: u32, x: u32, y: u32, w: u32, h: u32) -> (cropped:
    Vec<u8>)
    requires
        raw@.len() == width * height * 4,
    ensures
        cropped@ == cropped_rgba(raw@, width, height, x, y, w, h),
{
    let image = image::RgbaImage::from_raw(width, height, raw).unwrap();
    image::imageops::crop_imm(&image, x, y, w, h).to_image().into_raw()
}

/// `image`'s `PngEncoder::write_image` on an RGBA buffer of the given size.
/// It panics on a buffer of another length, which `requires` rules out. What
/// it writes, and the message of an error it reports, are named `png_encoding`.
#[verifier::external_body]
fn encode_png(rgba: &Vec<u8>, width: u32, height: u32) -> (r: Result<Vec<u8>, String>)
    requires
        rgba@.len() == width * height * 4,
    ensures
        png_encoding(rgba@, width, height) == encoded_view(r),
{
    let mut png = Vec::new();
    match image::codecs::png::PngEncoder::new(&mut png).write_image(
        rgba,
        width,
        height,
        image::ExtendedColorType::Rgba8,
    ) {
        Ok(()) => Ok(png),
        Err(error) => Err(error.to_string()),
    }
}

/// `base64`'s `BASE64_STANDARD.encode`: standard base64 with padding.
#[verifier::external_body]
fn base64_encode(bytes: &Vec<u8>) -> (encoded: String)
    ensures
        encoded@ == base64_standard(bytes@),
{
    base64::prelude::BASE64_STANDARD.encode(bytes)
}

/// The data URL under which the page shows a PNG file.
pub fn png_data_url(png: &Vec<u8>) -> (url: String)
    ensures
        url@ == "data:image/png;base64,"@ + base64_standard(png@),
{
    let mut url = String::from_str("data:image/png;base64,");
    let encoded = base64_encode(png);
    url.append(encoded.as_str());
    url
}

/// A cropped capture, encoded as PNG and as a data URL.
pub struct EncodedCapture {
    pub png: Vec<u8>,
    pub data_url: String,
    pub width: u32,
    pub height: u32,
}

fn min_u32(a: u32, b: u32) -> (r: u32)
    ensures
        r == min_int(a as int, b as int),
{
    if a <= b {
        a
    } else {
        b
    }
}

/// Crops the selected spans out of a captured RGBA screenshot and encodes the
/// crop as PNG and as a data URL. The spans are `(start, length)` in image
/// pixels, clamped to the image; an encoder failure is a `Save` error with
/// the encoder's message.
pub fn crop_and_encode(
    screenshot: Vec<u8>,
    image_width: u32,
    image_height: u32,
    x_span: (u32, u32),
    y_span: (u32, u32),
) -> (r: Result<EncodedCapture, CaptureError>)
    requires
        screenshot@.len() == image_width * image_height * 4,
    ensures
        ({
            let cw = crop_extent(x_span.0, x_span.1, image_width);
            let ch = crop_extent(y_span.0, y_span.1, image_height);
            let pixels = cropped_rgba(
                screenshot@,
                image_width,
                image_height,
                x_span.0,
                y_span.0,
                x_span.1,
                y_span.1,
            );
            &&& r is Ok <==> png_encoding(pixels, cw as u32, ch as u32) is Ok
            &&& r matches Ok(c) ==> {
                &&& c.width == cw
                &&& c.height == ch
                &&& png_encoding(pixels, c.width, c.height) == Ok::<Seq<u8>, Seq<char>>(c.png@)
                &&& c.data_url@ == "data:image/png;base64,"@ + base64_standard(c.png@)
            }
            &&& r matches Err(e) ==> e@ == CaptureErrorView::Save(
                png_encoding(pixels, cw as u32, ch as u32)->Err_0,
            )
        }),
{
    let x0 = min_u32(x_span.0, image_width);
    let y0 = min_u32(y_span.0, image_height);
    let width = min_u32(x_span.1, image_width - x0);
    let height = min_u32(y_span.1, image_height - y0);
    let pixels = crop_rgba(
        screenshot,
        image_width,
        image_height,
        x_span.0,
        y_span.0,
        x_span.1,
        y_span.1,
    );
    assert(pixels@.len() == width * height * 4);
    match encode_png(&pixels, width, height) {
        Ok(png) => {
            let data_url = png_data_url(&png);
            Ok(EncodedCapture { png, data_url, width, height })
        },
        Err(message) => Err(CaptureError::Save(message)),
    }
}

} // verus!
