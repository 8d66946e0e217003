//! Image emission: the read-back buffer of a render is in bottom-up row order;
//! it is flipped to top-down order and encoded as an RGBA8 PNG.
use image::ImageEncoder;
use vstd::prelude::*;

verus! {

/// Bytes per RGBA8 pixel.
pub const BYTES_PER_PIXEL: usize = 4;

#[verifier::external_type_specification]
#[verifier::external_body]
pub struct ExImageError(image::ImageError);

/// Why a pixel buffer could not be emitted as an image.
#[derive(Clone, Copy, Debug, PartialEq, Eq, Structural)]
pub enum EmitError {
    /// The buffer does not hold exactly `width * height` RGBA8 pixels.
    BufferSize { width: u32, height: u32, actual: usize },
    /// The PNG encoder refused the image.
    Encoding,
}

/// `s`, read as `rows` rows of `row_len` bytes, with its rows in reverse order.
pub open spec fn flip_rows(s: Seq<u8>, row_len: nat, rows: nat) -> Seq<u8> {
    Seq::new(
        row_len * rows,
        |i: int| s[(rows - 1 - i / (row_len as int)) * row_len + i % (row_len as int)],
    )
}

/// Length in bytes of one row of a `width` pixels wide RGBA8 buffer.
pub open spec fn row_len(width: u32) -> nat {
    (BYTES_PER_PIXEL as nat) * (width as nat)
}

/// Length in bytes of a `width` x `height` RGBA8 buffer.
pub open spec fn rgba_len(width: u32, height: u32) -> nat {
    row_len(width) * (height as nat)
}

/// The eight bytes that open every PNG file.
pub open spec fn png_signature() -> Seq<u8> {
    seq![137u8, 80, 78, 71, 13, 10, 26, 10]
}

/// What the PNG encoder makes of an RGBA8 buffer of the given size, or `None`
/// where it refuses it.
pub uninterp spec fn png_rgba8(width: u32, height: u32, pixels: Seq<u8>) -> Option<Seq<u8>>;

/// Relies on `image::RgbaImage::from_raw`, which accepts a buffer of at least
/// `4 * width * height` bytes, and `image::imageops::flip_vertical`, which puts
/// pixel `(x, y)` at `(x, height - 1 - y)` in a fresh buffer of exactly that size.
#[verifier::external_body]
fn flip_rgba_rows(pixels: Vec<u8>, width: u32, height: u32) -> (r: Option<Vec<u8>>)
    ensures
        r is Some <==> rgba_len(width, height) <= pixels@.len(),
        r matches Some(v) ==> v@ == flip_rows(
            pixels@.take(rgba_len(width, height) as int),
            row_len(width),
            height as nat,
        ),
{
    match image::RgbaImage::from_raw(width, height, pixels) {
        Some(img) => Some(image::imageops::flip_vertical(&img).into_raw()),
        None => None,
    }
}

/// Relies on `image::codecs::png::PngEncoder::write_image` with
/// `ColorType::Rgba8`, writing into a fresh `Vec`; it asserts that the buffer
/// holds exactly `4 * width * height` bytes. The `png` encoder it drives
/// refuses only a zero width or height; otherwise it writes the signature and
/// then the image into the in-memory `Vec`, which never fails.
#[verifier::external_body]
fn encode_png_rgba8(pixels: &[u8], width: u32, height: u32) -> (r: Result<Vec<u8>, image::ImageError>)
    requires
        pixels@.len() == rgba_len(width, height),
    ensures
        r is Ok <==> png_rgba8(width, height, pixels@) is Some,
        r matches Ok(v) ==> png_rgba8(width, height, pixels@) == Some(v@),
        r is Ok <==> (width > 0 && height > 0),
        r matches Ok(v) ==> v@.len() >= 8 && v@.take(8) == png_signature(),
{
    let mut out: Vec<u8> = Vec::new();
    match image::codecs::png::PngEncoder::new(&mut out).write_image(
        pixels,
        width,
        height,
        image::ColorType::Rgba8,
    ) {
        Ok(()) => Ok(out),
        Err(e) => Err(e),
    }
}

/// Whether `len` bytes are exactly a `width` x `height` RGBA8 buffer.
fn holds_rgba(len: usize, width: u32, height: u32) -> (r: bool)
    ensures
        r == (len == rgba_len(width, height)),
{
    proof {
        assert((width as int) * (height as int) <= u64::MAX) by (nonlinear_arith)
            requires
                width <= u32::MAX,
                height <= u32::MAX,
        ;
        assert(rgba_len(width, height) == BYTES_PER_PIXEL * ((width as int) * (height as int)))
            by (nonlinear_arith);
    }
    let pixels = (width as u64) * (height as u64);
    match pixels.checked_mul(BYTES_PER_PIXEL as u64) {
        Some(n) => n as u128 == len as u128,
        None => false,
    }
}

/// Reverses the row order of a `width` x `height` RGBA8 buffer; `None` where
/// the buffer is not of that size.
pub fn flip_vertical(pixels: &Vec<u8>, width: u32, height: u32) -> (r: Option<Vec<u8>>)
    ensures
        r is Some <==> pixels@.len() == rgba_len(width, height),
        r matches Some(v) ==> v@ == flip_rows(pixels@, row_len(width), height as nat),
{
    if !holds_rgba(pixels.len(), width, height) {
        return None;
    }
    let r = flip_rgba_rows(pixels.clone(), width, height);
    assert(pixels@.take(rgba_len(width, height) as int) =~= pixels@);
    r
}

/// Turns a bottom-up RGBA8 read-back buffer into the bytes of a top-down PNG.
pub fn emit_png(pixels: &Vec<u8>, width: u32, height: u32) -> (r: Result<Vec<u8>, EmitError>)
    ensures
        pixels@.len() != rgba_len(width, height) ==> r == Err::<Vec<u8>, EmitError>(
            EmitError::BufferSize { width, height, actual: pixels@.len() as usize },
        ),
        pixels@.len() == rgba_len(width, height) ==> match png_rgba8(
            width,
            height,
            flip_rows(pixels@, row_len(width), height as nat),
        ) {
            Some(png) => r matches Ok(v) && v@ == png,
            None => r == Err::<Vec<u8>, EmitError>(EmitError::Encoding),
        },
        pixels@.len() == rgba_len(width, height) && width > 0 && height > 0 ==> (r matches Ok(v)
            && v@.len() >= 8 && v@.take(8) == png_signature()),
        pixels@.len() == rgba_len(width, height) && (width == 0 || height == 0) ==> r == Err::<
            Vec<u8>,
            EmitError,
        >(EmitError::Encoding),
{
    match flip_vertical(pixels, width, height) {
        None => Err(EmitError::BufferSize { width, height, actual: pixels.len() }),
        Some(top_down) => {
            assert(top_down@.len() == rgba_len(width, height)) by (nonlinear_arith)
                requires
                    top_down@ == flip_rows(pixels@, row_len(width), height as nat),
            ;
            match encode_png_rgba8(top_down.as_slice(), width, height) {
                Ok(png) => Ok(png),
                Err(_) => Err(EmitError::Encoding),
            }
        },
    }
}

/// Flipping the rows twice gives back the original buffer.
pub proof fn lemma_flip_rows_involution(s: Seq<u8>, row_len: nat, rows: nat)
    requires
        s.len() == row_len * rows,
    ensures
        flip_rows(flip_rows(s, row_len, rows), row_len, rows) == s,
{
    let f = flip_rows(s, row_len, rows);
    let ff = flip_rows(f, row_len, rows);
    if row_len == 0 {
        assert(ff =~= s);
    } else {
        assert forall|i: int| 0 <= i < s.len() implies #[trigger] ff[i] == s[i] by {
            let w = row_len as int;
            let h = rows as int;
            let y = i / w;
            let x = i % w;
            vstd::arithmetic::div_mod::lemma_fundamental_div_mod(i, w);
            assert(0 <= x < w);
            assert(0 <= y < h) by (nonlinear_arith)
                requires
                    i == w * y + x,
                    0 <= x < w,
                    0 <= i < w * h,
            ;
            let j = (h - 1 - y) * w + x;
            assert(0 <= j < w * h) by (nonlinear_arith)
                requires
                    j == (h - 1 - y) * w + x,
                    0 <= x < w,
                    0 <= y < h,
            ;
            vstd::arithmetic::div_mod::lemma_fundamental_div_mod_converse(j, w, h - 1 - y, x);
            assert(ff[i] == f[j]);
            assert((h - 1 - (h - 1 - y)) * w + x == i) by (nonlinear_arith)
                requires
                    i == w * y + x,
            ;
        }
        assert(ff =~= s);
    }
}

} // verus!
