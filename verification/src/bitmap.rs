//! The byte layout of an uncompressed bitmap file: a 14-byte file header, a
//! 40-byte info header, and the pixel rows from top to bottom.
//!
//! Rows are written as they are given, without padding. Readers of the format
//! expect each row to fill a multiple of four bytes, so a file written for a
//! width whose rows do not is only understood by readers that skip that rule.
use vstd::prelude::*;
use crate::error::CamError;

verus! {

/// Length of the two headers together, and so the offset of the first pixel
/// byte: 14 bytes of file header and 40 bytes of info header.
pub const HEADER_LEN: usize = 54;

/// How the bytes of one pixel are laid out.
#[derive(Clone, Copy, Debug, PartialEq, Eq, Structural)]
pub enum PixelFormat {
    /// Three bytes per pixel.
    Rgb,
    /// Four bytes per pixel.
    Rgba,
}

impl PixelFormat {
    /// Number of bytes that one pixel takes.
    pub open spec fn spec_bytes_per_pixel(self) -> nat {
        match self {
            PixelFormat::Rgb => 3,
            PixelFormat::Rgba => 4,
        }
    }

    /// Number of bytes that one pixel takes.
    pub fn bytes_per_pixel(self) -> (n: usize)
        ensures
            n == self.spec_bytes_per_pixel(),
    {
        match self {
            PixelFormat::Rgb => 3,
            PixelFormat::Rgba => 4,
        }
    }

    /// The bit depth written to the info header: eight bits for each byte.
    pub open spec fn spec_bits_per_pixel(self) -> nat {
        8 * self.spec_bytes_per_pixel()
    }

    /// The bit depth written to the info header.
    pub fn bits_per_pixel(self) -> (n: u16)
        ensures
            n == self.spec_bits_per_pixel(),
    {
        match self {
            PixelFormat::Rgb => 24,
            PixelFormat::Rgba => 32,
        }
    }
}

/// The fields of a bitmap file's headers that describe the picture.
#[derive(Clone, Copy, Debug, PartialEq, Eq, Structural)]
pub struct BitmapHeader {
    /// Total size of the file in bytes, as the file header states it.
    pub file_size: u32,
    /// Offset of the first pixel byte from the start of the file.
    pub pixel_offset: u32,
    /// Pixels per row.
    pub width: u32,
    /// Number of rows.
    pub height: u32,
    /// Whether the first row in the file is the top row of the picture.
    pub top_down: bool,
    /// Bits per pixel.
    pub bits_per_pixel: u16,
}

/// The two bytes of `v`, least significant first.
pub open spec fn le16(v: int) -> Seq<u8> {
    seq![(v % 256) as u8, (v / 256 % 256) as u8]
}

/// The four bytes of `v`, least significant first.
pub open spec fn le32(v: int) -> Seq<u8> {
    seq![
        (v % 256) as u8,
        (v / 256 % 256) as u8,
        (v / 65536 % 256) as u8,
        (v / 16777216 % 256) as u8,
    ]
}

/// The number that the two bytes of `s` from `at` on spell, least significant
/// first.
pub open spec fn read16(s: Seq<u8>, at: int) -> int {
    s[at] + 256 * s[at + 1]
}

/// The number that the four bytes of `s` from `at` on spell, least significant
/// first.
pub open spec fn read32(s: Seq<u8>, at: int) -> int {
    s[at] + 256 * s[at + 1] + 65536 * s[at + 2] + 16777216 * s[at + 3]
}

/// The height field of a picture of `height` rows stored top row first: the
/// negated row count as a 32-bit two's complement number.
pub open spec fn stored_rows(height: int) -> int {
    if height == 0 {
        0
    } else {
        0x1_0000_0000 - height
    }
}

/// The 14 bytes of the file header of a file of `file_size` bytes.
pub open spec fn file_header(file_size: int) -> Seq<u8> {
    seq![0x42u8, 0x4Du8] + le32(file_size) + le16(0) + le16(0) + le32(54)
}

/// The 40 bytes of the info header.
pub open spec fn info_header(width: int, height: int, format: PixelFormat, payload: int) -> Seq<u8> {
    le32(40) + le32(width) + le32(stored_rows(height)) + le16(1) + le16(
        format.spec_bits_per_pixel() as int,
    ) + le32(0) + le32(payload) + le32(0) + le32(0) + le32(0) + le32(0)
}

/// The whole file: both headers, then the pixel bytes as they were given.
pub open spec fn bitmap_file(width: u32, height: u32, format: PixelFormat, pixels: Seq<u8>) -> Seq<u8> {
    file_header(54 + pixels.len() as int) + info_header(
        width as int,
        height as int,
        format,
        pixels.len() as int,
    ) + pixels
}

/// Whether a picture of these dimensions with `len` pixel bytes can be
/// written: the bytes are exactly those of `width` x `height` pixels, and
/// every header field can hold its value.
pub open spec fn spec_bitmap_fits(width: u32, height: u32, format: PixelFormat, len: nat) -> bool {
    &&& len == width * height * format.spec_bytes_per_pixel()
    &&& width <= 0x7FFF_FFFF
    &&& height <= 0x8000_0000
    &&& 54 + len <= 0xFFFF_FFFF
}

/// Tells whether `encode_bitmap` can write a picture of these dimensions from
/// `len` pixel bytes.
pub fn bitmap_fits(width: u32, height: u32, format: PixelFormat, len: usize) -> (ok: bool)
    ensures
        ok == spec_bitmap_fits(width, height, format, len as nat),
{
    if width > 0x7FFF_FFFF || height > 0x8000_0000 {
        return false;
    }
    let bpp: u128 = format.bytes_per_pixel() as u128;
    assert(width * height * bpp <= 0x7FFF_FFFF * 0x8000_0000 * 4) by (nonlinear_arith)
        requires
            width <= 0x7FFF_FFFF,
            height <= 0x8000_0000,
            bpp <= 4,
    ;
    let wanted: u128 = (width as u128) * (height as u128) * bpp;
    (len as u128) == wanted && wanted <= 0xFFFF_FFFF - 54
}

/// Appends the two bytes of `v`, least significant first.
fn put_u16(out: &mut Vec<u8>, v: u16)
    ensures
        final(out)@ == old(out)@ + le16(v as int),
{
    out.push((v % 256) as u8);
    out.push((v / 256) as u8);
    assert(final(out)@ =~= old(out)@ + le16(v as int));
}

/// Appends the four bytes of `v`, least significant first.
fn put_u32(out: &mut Vec<u8>, v: u32)
    ensures
        final(out)@ == old(out)@ + le32(v as int),
{
    out.push((v % 256) as u8);
    out.push((v / 256 % 256) as u8);
    out.push((v / 65536 % 256) as u8);
    out.push((v / 16777216) as u8);
    assert(final(out)@ =~= old(out)@ + le32(v as int));
}

/// Lays out a bitmap file for a picture of `width` x `height` pixels.
///
/// The result is the file header (the magic bytes `BM`, the total size, the
/// offset of the pixel data), the info header (width, negated height for rows
/// stored top row first, bit depth, no compression), and then `pixels`
/// unchanged, with no padding between the rows. Its length is 54 plus the
/// length of `pixels`.
pub fn encode_bitmap(width: u32, height: u32, format: PixelFormat, pixels: &[u8]) -> (out: Vec<u8>)
    requires
        spec_bitmap_fits(width, height, format, pixels@.len()),
    ensures
        out@ == bitmap_file(width, height, format, pixels@),
        out@.len() == 54 + pixels@.len(),
        out@[0] == 0x42 && out@[1] == 0x4D,
{
    let payload: u32 = pixels.len() as u32;
    let rows: u32 = if height == 0 {
        0
    } else {
        (u32::MAX - height) + 1
    };
    let mut out: Vec<u8> = Vec::new();
    out.push(0x42);
    out.push(0x4D);
    put_u32(&mut out, 54 + payload);
    put_u16(&mut out, 0);
    put_u16(&mut out, 0);
    put_u32(&mut out, 54);
    put_u32(&mut out, 40);
    put_u32(&mut out, width);
    put_u32(&mut out, rows);
    put_u16(&mut out, 1);
    put_u16(&mut out, format.bits_per_pixel());
    put_u32(&mut out, 0);
    put_u32(&mut out, payload);
    put_u32(&mut out, 0);
    put_u32(&mut out, 0);
    put_u32(&mut out, 0);
    put_u32(&mut out, 0);
    let ghost headers = out@;
    out.extend_from_slice(pixels);
    proof {
        assert(headers =~= file_header(54 + pixels@.len() as int) + info_header(
            width as int,
            height as int,
            format,
            pixels@.len() as int,
        ));
        assert(out@ =~= headers + pixels@);
    }
    out
}

/// The error of std's input and output. Nothing inside it is visible here.
#[verifier::external_type_specification]
#[verifier::external_body]
pub struct ExIoError(std::io::Error);

/// What writing a bitmap file came to, given what the file system answered:
/// success if the file was written, and `IoError` if it was not.
pub fn write_outcome(written: Result<(), std::io::Error>) -> (res: Result<(), CamError>)
    ensures
        res is Ok <==> written is Ok,
        res matches Err(e) ==> e == CamError::IoError,
{
    match written {
        Ok(()) => Ok(()),
        Err(_) => Err(CamError::IoError),
    }
}

/// What the headers at the start of `s` say, if `s` starts like a bitmap
/// file: it holds both headers, begins with the magic bytes `BM`, and its
/// width field is not negative.
///
/// A height field with its sign bit set stands for that many rows stored top
/// row first.
pub open spec fn parsed_header(s: Seq<u8>) -> Option<BitmapHeader> {
    if s.len() >= 54 && s[0] == 0x42 && s[1] == 0x4D && read32(s, 18) <= 0x7FFF_FFFF {
        let rows = read32(s, 22);
        Some(
            BitmapHeader {
                file_size: read32(s, 2) as u32,
                pixel_offset: read32(s, 10) as u32,
                width: read32(s, 18) as u32,
                height: (if rows >= 0x8000_0000 {
                    0x1_0000_0000 - rows
                } else {
                    rows
                }) as u32,
                top_down: rows >= 0x8000_0000,
                bits_per_pixel: read16(s, 28) as u16,
            },
        )
    } else {
        None
    }
}

/// Reads the two bytes from `at` on as one number, least significant first.
fn get_u16(bytes: &[u8], at: usize) -> (v: u16)
    requires
        at + 2 <= bytes@.len(),
    ensures
        v == read16(bytes@, at as int),
{
    bytes[at] as u16 + 256 * (bytes[at + 1] as u16)
}

/// Reads the four bytes from `at` on as one number, least significant first.
fn get_u32(bytes: &[u8], at: usize) -> (v: u32)
    requires
        at + 4 <= bytes@.len(),
    ensures
        v == read32(bytes@, at as int),
{
    bytes[at] as u32 + 256 * (bytes[at + 1] as u32) + 65536 * (bytes[at + 2] as u32) + 16777216 * (
    bytes[at + 3] as u32)
}

/// Reads the headers of a bitmap file back.
///
/// Returns `None` exactly when `bytes` is shorter than the two headers, does
/// not begin with `BM`, or states a negative width.
pub fn parse_bitmap_header(bytes: &[u8]) -> (header: Option<BitmapHeader>)
    ensures
        header == parsed_header(bytes@),
{
    if bytes.len() < HEADER_LEN || bytes[0] != 0x42 || bytes[1] != 0x4D {
        return None;
    }
    let width = get_u32(bytes, 18);
    if width > 0x7FFF_FFFF {
        return None;
    }
    let rows = get_u32(bytes, 22);
    let top_down = rows >= 0x8000_0000;
    let height: u32 = if top_down {
        (u32::MAX - rows) + 1
    } else {
        rows
    };
    Some(
        BitmapHeader {
            file_size: get_u32(bytes, 2),
            pixel_offset: get_u32(bytes, 10),
            width,
            height,
            top_down,
            bits_per_pixel: get_u16(bytes, 28),
        },
    )
}

/// Reading back the four bytes written for `v` gives `v`.
proof fn lemma_read32_of_le32(s: Seq<u8>, at: int, v: int)
    requires
        0 <= v <= 0xFFFF_FFFF,
        0 <= at,
        at + 4 <= s.len(),
        s.subrange(at, at + 4) == le32(v),
    ensures
        read32(s, at) == v,
{
    let part = s.subrange(at, at + 4);
    assert(part[0] == s[at] && part[1] == s[at + 1] && part[2] == s[at + 2] && part[3] == s[at
        + 3]);
}

/// Reading back the two bytes written for `v` gives `v`.
proof fn lemma_read16_of_le16(s: Seq<u8>, at: int, v: int)
    requires
        0 <= v <= 0xFFFF,
        0 <= at,
        at + 2 <= s.len(),
        s.subrange(at, at + 2) == le16(v),
    ensures
        read16(s, at) == v,
{
    let part = s.subrange(at, at + 2);
    assert(part[0] == s[at] && part[1] == s[at + 1]);
}

/// A file that `encode_bitmap` laid out reads back as it was written: the
/// headers of the file for `width`, `height`, `format` and `pixels` parse, and
/// give back the width and the height, the offset 54, the total size of 54
/// bytes plus the pixel bytes, and the bit depth of the format. The rows are
/// reported as stored top row first whenever there is a row.
pub proof fn lemma_header_round_trip(width: u32, height: u32, format: PixelFormat, pixels: Seq<u8>)
    requires
        spec_bitmap_fits(width, height, format, pixels.len()),
    ensures
        parsed_header(bitmap_file(width, height, format, pixels)) == Some(
            BitmapHeader {
                file_size: (54 + pixels.len()) as u32,
                pixel_offset: 54,
                width,
                height,
                top_down: height > 0,
                bits_per_pixel: format.spec_bits_per_pixel() as u16,
            },
        ),
{
    let file = bitmap_file(width, height, format, pixels);
    let rows = stored_rows(height as int);
    assert(file.len() == 54 + pixels.len());
    assert(file[0] == 0x42 && file[1] == 0x4D);
    assert(file.subrange(2, 6) =~= le32(54 + pixels.len() as int));
    assert(file.subrange(10, 14) =~= le32(54));
    assert(file.subrange(18, 22) =~= le32(width as int));
    assert(file.subrange(22, 26) =~= le32(rows));
    assert(file.subrange(28, 30) =~= le16(format.spec_bits_per_pixel() as int));
    lemma_read32_of_le32(file, 2, 54 + pixels.len() as int);
    lemma_read32_of_le32(file, 10, 54);
    lemma_read32_of_le32(file, 18, width as int);
    lemma_read32_of_le32(file, 22, rows);
    lemma_read16_of_le16(file, 28, format.spec_bits_per_pixel() as int);
}

} // verus!
