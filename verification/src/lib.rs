//! Capture-side building blocks for a webcam tool: the life cycle of a capture
//! handle, the conversion of captured frames to RGB, exact resizing of encoded
//! images, and the byte layout of uncompressed bitmap files.
//!
//! Talking to the capture device and to the file system is left to the caller;
//! this crate decides what is done with what they report.

pub mod bitmap;
pub mod color;
pub mod error;
pub mod resize;
pub mod webcam;

pub use bitmap::{
    bitmap_fits, encode_bitmap, parse_bitmap_header, write_outcome, BitmapHeader, PixelFormat,
    HEADER_LEN,
};
pub use color::bgr_to_rgb;
pub use error::CamError;
pub use resize::{
    picture_target_fits, resize_decoded, resize_image_from_bytes, target_fits,
    try_resize_decoded, MAX_RESAMPLED,
};
pub use webcam::{FrameSize, OpenReply, RawFrame, Webcam, WebcamView, CAP_ANY};
