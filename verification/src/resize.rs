//! Resizing of an encoded image to exact dimensions.
//!
//! Decoding and resampling are the `image` crate's work. What this module
//! adds is the order of the steps, the error that a caller sees, the test
//! whether a target can be had at all, and the shape of what comes back.
use vstd::prelude::*;
use vstd::slice::slice_to_vec;
use image::imageops::FilterType;
use image::{ColorType, DynamicImage, ImageError};
use crate::error::CamError;

verus! {

/// A decoded picture of the `image` crate. Nothing inside it is visible here.
#[verifier::external_type_specification]
#[verifier::external_body]
pub struct ExDynamicImage(DynamicImage);

/// The `image` crate's error. Nothing inside it is visible here.
#[verifier::external_type_specification]
#[verifier::external_body]
pub struct ExImageError(ImageError);

/// The `image` crate's choice of resampling filter. It is only handed on.
#[verifier::external_type_specification]
#[verifier::external_body]
pub struct ExFilterType(FilterType);

/// The `image` crate's name for a pixel type. It is only asked for its size.
#[verifier::external_type_specification]
#[verifier::external_body]
pub struct ExColorType(ColorType);

/// The bytes that a picture holds: what `DynamicImage::as_bytes` returns for
/// it, the samples of its buffer in the machine's byte order.
pub uninterp spec fn stored_bytes(img: DynamicImage) -> Seq<u8>;

/// The number of bytes that one pixel of a picture takes: what
/// `ColorType::bytes_per_pixel` returns for the picture's `color()`.
pub uninterp spec fn pixel_size(img: DynamicImage) -> nat;

/// The number of pixels in a row of a picture: what `DynamicImage::width`
/// returns for it.
pub uninterp spec fn image_width(img: DynamicImage) -> nat;

/// The number of rows of a picture: what `DynamicImage::height` returns for
/// it.
pub uninterp spec fn image_height(img: DynamicImage) -> nat;

/// The number of bytes that one pixel of a pixel type takes: what
/// `ColorType::bytes_per_pixel` returns for it.
pub uninterp spec fn color_bytes(color: ColorType) -> nat;

/// `image::load_from_memory` guesses the container format from the first
/// bytes and decodes the picture. Which bytes it accepts is not stated: it
/// depends on the decoders that are compiled in and on the detection hooks
/// registered in the running process.
pub assume_specification[ image::load_from_memory ](buffer: &[u8]) -> (res: Result<
    DynamicImage,
    ImageError,
>)
;

/// `DynamicImage::width` returns the number of pixels in a row.
pub assume_specification[ DynamicImage::width ](img: &DynamicImage) -> (w: u32)
    ensures
        w == image_width(*img),
;

/// `DynamicImage::height` returns the number of rows.
pub assume_specification[ DynamicImage::height ](img: &DynamicImage) -> (h: u32)
    ensures
        h == image_height(*img),
;

/// `DynamicImage::color` returns the pixel type of the picture.
pub assume_specification[ DynamicImage::color ](img: &DynamicImage) -> (color: ColorType)
    ensures
        color_bytes(color) == pixel_size(*img),
;

/// `ColorType::bytes_per_pixel` returns the number of bytes that one pixel
/// of the pixel type takes: between 1 and 16.
pub assume_specification[ ColorType::bytes_per_pixel ](color: ColorType) -> (n: u8)
    ensures
        n == color_bytes(color),
        1 <= n <= 16,
;

/// `DynamicImage::resize_exact` resamples a picture to `nwidth` x `nheight`
/// pixels without regard to its aspect ratio. The result is `nwidth` wide and
/// `nheight` high, has the pixel type of the source, which takes between 1
/// and 16 bytes, and a buffer made for exactly `nwidth * nheight` pixels.
/// Which values the samples have is not stated: the filters' weights come
/// from floating-point functions whose precision the machine decides.
///
/// It panics where a buffer that it makes would not fit the address space,
/// and where a dimension is too large for its `f32` arithmetic;
/// `spec_target_fits` leaves both out.
pub assume_specification[ DynamicImage::resize_exact ](
    img: &DynamicImage,
    nwidth: u32,
    nheight: u32,
    filter: FilterType,
) -> (out: DynamicImage)
    requires
        picture_fits(*img, nwidth, nheight),
    ensures
        image_width(out) == nwidth,
        image_height(out) == nheight,
        pixel_size(out) == pixel_size(*img),
        1 <= pixel_size(out) <= 16,
        stored_bytes(out).len() == nwidth * nheight * pixel_size(out),
;

/// `DynamicImage::as_bytes` lends the bytes that the picture holds.
pub assume_specification[ DynamicImage::as_bytes ](img: &DynamicImage) -> (bytes: &[u8])
    ensures
        bytes@ == stored_bytes(*img),
;

/// The largest width or height, of the source or of the target, with which a
/// picture is resampled: 2^23.
pub const MAX_RESAMPLED: u32 = 0x80_0000;

/// Whether resizing a picture of `source_width` x `source_height` pixels to
/// `width` x `height` pixels resamples it. A picture without pixels is
/// replaced by a blank one, and a picture that has the target's size already
/// is copied.
pub open spec fn is_resampled(source_width: nat, source_height: nat, width: u32, height: u32) -> bool {
    source_width != 0 && source_height != 0 && !(source_width == width && source_height == height)
}

/// Whether a picture of `source_width` x `source_height` pixels of
/// `pixel_bytes` bytes each can be resized to `width` x `height` pixels.
///
/// No buffer can be larger than `isize::MAX` bytes. The resized picture has
/// the pixels of the source. Where the picture is resampled, there is between
/// the two passes a picture as wide as the source and as high as the target,
/// with 16 bytes for each pixel.
///
/// Resampling finds the place of each target pixel in the source in `f32`:
/// the pixel's index plus one half, times the ratio of the two sizes. Up to
/// 2^23 the half is exact and the place does not leave the source, so the
/// source pixel nearest to it is among those that are weighed, and has a
/// weight of at least one half of the largest, which the small negative
/// weights that some filters give to pixels further away do not cancel.
/// Beyond 2^23 the half is rounded away, all weights of a target pixel can be
/// zero, and dividing them by their sum gives a sample that is no number,
/// which cannot be converted. A target without pixels has no sample to
/// convert.
pub open spec fn spec_target_fits(
    source_width: nat,
    source_height: nat,
    pixel_bytes: nat,
    width: u32,
    height: u32,
) -> bool {
    &&& pixel_bytes * width * height <= isize::MAX
    &&& is_resampled(source_width, source_height, width, height) ==> {
        &&& 16 * source_width * height <= isize::MAX
        &&& width == 0 || height == 0 || {
            &&& source_width <= 0x80_0000
            &&& source_height <= 0x80_0000
            &&& width <= 0x80_0000
            &&& height <= 0x80_0000
        }
    }
}

/// Whether the picture `img` can be resized to `width` x `height` pixels.
pub open spec fn picture_fits(img: DynamicImage, width: u32, height: u32) -> bool {
    spec_target_fits(image_width(img), image_height(img), pixel_size(img), width, height)
}

/// The number of bytes of `width * height` pixels of `pixel_bytes` bytes each.
pub open spec fn byte_count(width: u32, height: u32, pixel_bytes: nat) -> nat {
    width as nat * height as nat * pixel_bytes
}

/// Whether `out` holds the picture `picture`, and that picture is `width`
/// pixels wide and `height` pixels high: then `out` is the bytes of exactly
/// `width * height` pixels.
pub open spec fn holds_picture(out: Seq<u8>, picture: DynamicImage, width: u32, height: u32) -> bool {
    &&& out == stored_bytes(picture)
    &&& image_width(picture) == width
    &&& image_height(picture) == height
    &&& 1 <= pixel_size(picture) <= 16
    &&& out.len() == byte_count(width, height, pixel_size(picture))
}

/// Whether `out` holds some picture that is `width` pixels wide and `height`
/// pixels high.
pub open spec fn is_picture(out: Seq<u8>, width: u32, height: u32) -> bool {
    exists|picture: DynamicImage| #[trigger] holds_picture(out, picture, width, height)
}

/// Whether `out` holds some picture that is `width` pixels wide and `height`
/// pixels high and has pixels of the size of those of `source`.
pub open spec fn is_resized(out: Seq<u8>, source: DynamicImage, width: u32, height: u32) -> bool {
    exists|picture: DynamicImage| #[trigger]
        holds_picture(out, picture, width, height) && pixel_size(picture) == pixel_size(source)
}

/// What holds a resized picture holds a picture.
proof fn lemma_resized_is_picture(out: Seq<u8>, source: DynamicImage, width: u32, height: u32)
    requires
        is_resized(out, source, width, height),
    ensures
        is_picture(out, width, height),
{
    let picture = choose|picture: DynamicImage| #[trigger]
        holds_picture(out, picture, width, height) && pixel_size(picture) == pixel_size(source);
    assert(holds_picture(out, picture, width, height));
}

/// Tells whether a picture of `source_width` x `source_height` pixels of
/// `pixel_bytes` bytes each can be resized to `width` x `height` pixels on
/// this machine.
pub fn target_fits(
    source_width: u32,
    source_height: u32,
    pixel_bytes: u8,
    width: u32,
    height: u32,
) -> (ok: bool)
    ensures
        ok == spec_target_fits(
            source_width as nat,
            source_height as nat,
            pixel_bytes as nat,
            width,
            height,
        ),
{
    let limit: u128 = isize::MAX as u128;
    let rows: u128 = height as u128;
    assert((pixel_bytes as u128) * (width as u128) <= 0xFF * 0xFFFF_FFFF) by (nonlinear_arith)
        requires
            pixel_bytes <= 0xFF,
            width <= 0xFFFF_FFFF,
    ;
    let row_bytes: u128 = (pixel_bytes as u128) * (width as u128);
    let between: u128 = 16 * (source_width as u128);
    assert(row_bytes * rows <= 0xFF_FFFF_FF01 * 0xFFFF_FFFF && between * rows <= 0xF_FFFF_FFF0
        * 0xFFFF_FFFF) by (nonlinear_arith)
        requires
            row_bytes <= 0xFF_FFFF_FF01,
            between <= 0xF_FFFF_FFF0,
            rows <= 0xFFFF_FFFF,
    ;
    if row_bytes * rows > limit {
        return false;
    }
    let resampled = source_width != 0 && source_height != 0 && !(source_width == width
        && source_height == height);
    if !resampled {
        return true;
    }
    if between * rows > limit {
        return false;
    }
    width == 0 || height == 0 || (source_width <= MAX_RESAMPLED && source_height <= MAX_RESAMPLED
        && width <= MAX_RESAMPLED && height <= MAX_RESAMPLED)
}

/// Tells whether the picture `img` can be resized to `width` x `height`
/// pixels on this machine.
pub fn picture_target_fits(img: &DynamicImage, width: u32, height: u32) -> (ok: bool)
    ensures
        ok == picture_fits(*img, width, height),
{
    target_fits(img.width(), img.height(), img.color().bytes_per_pixel(), width, height)
}

/// Finishes a resize from what decoding gave: resamples the decoded picture to
/// exactly `width` x `height` pixels and hands out its bytes.
///
/// Succeeds exactly when decoding did, and fails with `DecodeError` when it
/// did not, whatever the target. The bytes handed out are those of a picture
/// that is `width` wide and `height` high and has the pixel type of the
/// decoded one. A target has to fit only where there is a picture to resize.
pub fn resize_decoded(
    decoded: Result<DynamicImage, ImageError>,
    width: u32,
    height: u32,
    filter: FilterType,
) -> (res: Result<Vec<u8>, CamError>)
    requires
        decoded matches Ok(img) ==> picture_fits(img, width, height),
    ensures
        res is Ok <==> decoded is Ok,
        res matches Err(e) ==> e == CamError::DecodeError,
        res matches Ok(out) ==> decoded matches Ok(img) && is_resized(out@, img, width, height),
{
    match decoded {
        Ok(img) => {
            let resized = img.resize_exact(width, height, filter);
            let out = slice_to_vec(resized.as_bytes());
            assert(holds_picture(out@, resized, width, height) && pixel_size(resized)
                == pixel_size(img));
            Ok(out)
        },
        Err(_) => Err(CamError::DecodeError),
    }
}

/// Finishes a resize like `resize_decoded`, for every target: the result is
/// `None` exactly when there is a decoded picture and it cannot be resized to
/// `width` x `height` pixels on this machine. A failed decode is a
/// `DecodeError`, whatever the target.
pub fn try_resize_decoded(
    decoded: Result<DynamicImage, ImageError>,
    width: u32,
    height: u32,
    filter: FilterType,
) -> (res: Option<Result<Vec<u8>, CamError>>)
    ensures
        decoded is Err ==> res == Some(Err::<Vec<u8>, CamError>(CamError::DecodeError)),
        decoded matches Ok(img) ==> (res is Some <==> picture_fits(img, width, height)),
        decoded matches Ok(img) ==> (res matches Some(r) ==> r matches Ok(out) && is_resized(
            out@,
            img,
            width,
            height,
        )),
{
    match decoded {
        Ok(img) => {
            if picture_target_fits(&img, width, height) {
                Some(resize_decoded(Ok(img), width, height, filter))
            } else {
                None
            }
        },
        Err(e) => Some(resize_decoded(Err(e), width, height, filter)),
    }
}

/// Resizes an encoded image to exactly `width` x `height` pixels, without
/// regard to its aspect ratio, and hands out the bytes of the resized
/// picture.
///
/// `formatted_image_bytes` must be an image in a container format, not raw
/// pixels. They are decoded first. When they cannot be decoded the result is
/// a `DecodeError`, whatever the target; there is no other error. The bytes
/// handed out are those of a picture that is `width` wide and `height` high.
///
/// Whether a target can be had shows only once the source is decoded: the
/// result is `None` only when the bytes were decoded and the picture cannot
/// be resized to `width` x `height` pixels on this machine.
pub fn resize_image_from_bytes(
    formatted_image_bytes: &[u8],
    width: u32,
    height: u32,
    filter: FilterType,
) -> (res: Option<Result<Vec<u8>, CamError>>)
    ensures
        res matches Some(Err(e)) ==> e == CamError::DecodeError,
        res matches Some(Ok(out)) ==> is_picture(out@, width, height),
        res is None ==> exists|source: DynamicImage| !#[trigger] picture_fits(source, width, height),
{
    let decoded = image::load_from_memory(formatted_image_bytes);
    let ghost given = decoded;
    let res = try_resize_decoded(decoded, width, height, filter);
    proof {
        if given is Ok && res is Some {
            lemma_resized_is_picture(res.unwrap().unwrap()@, given.unwrap(), width, height);
        }
        if res is None {
            assert(!picture_fits(given.unwrap(), width, height));
        }
    }
    res
}

} // verus!
