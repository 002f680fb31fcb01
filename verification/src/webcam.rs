//! The life cycle of a capture handle: opened, read from, released.
//!
//! The handle does not talk to the device. The caller does, and tells the
//! handle what the device answered; the handle decides what that means for
//! the caller: a handle or an error, a frame in RGB order or an error.
use vstd::prelude::*;
use crate::color::{bgr_to_rgb, channels_swapped};
use crate::error::CamError;

verus! {

/// The backend preference that leaves the choice of backend to the capture
/// layer, and the index of the device that auto-detection opens.
pub const CAP_ANY: i32 = 0;

/// Width and height of a frame in pixels.
#[derive(Clone, Copy, Debug, PartialEq, Eq, Structural)]
pub struct FrameSize {
    pub width: i32,
    pub height: i32,
}

impl FrameSize {
    /// The number of pixels of a frame of this size.
    pub open spec fn spec_area(self) -> int {
        self.width * self.height
    }

    /// The number of pixels of a frame of this size.
    pub fn area(&self) -> (a: i32)
        requires
            i32::MIN <= self.spec_area() <= i32::MAX,
        ensures
            a == self.spec_area(),
    {
        self.width * self.height
    }
}

/// What the capture device delivered for one read: the frame's size and its
/// bytes, three per pixel in blue-green-red order, row by row.
#[derive(Debug)]
pub struct RawFrame {
    pub bytes: Vec<u8>,
    pub size: FrameSize,
}

impl RawFrame {
    /// Whether this is a frame that can be handed on: it has at least one
    /// pixel, and exactly three bytes for each.
    pub open spec fn is_valid(self) -> bool {
        &&& self.size.width > 0
        &&& self.size.height > 0
        &&& self.bytes@.len() == self.size.width * self.size.height * 3
    }

    /// Tells whether this is a frame that can be handed on.
    pub fn check(&self) -> (ok: bool)
        ensures
            ok == self.is_valid(),
    {
        if self.size.width <= 0 || self.size.height <= 0 {
            return false;
        }
        let w: u128 = self.size.width as u128;
        let h: u128 = self.size.height as u128;
        assert(w * h * 3 <= 0x7FFF_FFFF * 0x7FFF_FFFF * 3) by (nonlinear_arith)
            requires
                w <= 0x7FFF_FFFF,
                h <= 0x7FFF_FFFF,
        ;
        (self.bytes.len() as u128) == w * h * 3
    }
}

/// What the capture layer answered to the request to open a device.
#[derive(Clone, Copy, Debug, PartialEq, Eq, Structural)]
pub enum OpenReply {
    /// The request itself failed.
    Failed,
    /// The request returned, but the device reports that it is not open.
    NotOpened,
    /// The device is open.
    Opened,
}

/// What a capture handle is, to its users.
#[derive(Debug)]
pub struct WebcamView {
    /// Index of the device that was opened.
    pub camera_idx: i32,
    /// Backend that was asked for.
    pub api_preference: i32,
    /// Whether the handle has been released.
    pub released: bool,
}

impl WebcamView {
    /// The handle after a release.
    pub open spec fn after_release(self) -> WebcamView {
        WebcamView { released: true, ..self }
    }
}

/// A handle on one open capture device.
///
/// A handle exists only for a device that was opened, and is read from until
/// it is released. After that no frame is handed out any more: to capture
/// again, open a new handle.
#[derive(Debug)]
pub struct Webcam {
    camera_idx: i32,
    api_preference: i32,
    released: bool,
}

impl View for Webcam {
    type V = WebcamView;

    closed spec fn view(&self) -> WebcamView {
        WebcamView {
            camera_idx: self.camera_idx,
            api_preference: self.api_preference,
            released: self.released,
        }
    }
}

/// What opening device `camera_idx` with backend `api_preference` comes to,
/// given the capture layer's answer: a fresh handle if the device is open,
/// and no handle at all otherwise.
pub open spec fn open_outcome(camera_idx: i32, api_preference: i32, reply: OpenReply) -> Result<
    WebcamView,
    CamError,
> {
    if reply == OpenReply::Opened {
        Ok(WebcamView { camera_idx, api_preference, released: false })
    } else {
        Err(CamError::DeviceUnavailable)
    }
}

/// What a read comes to on a handle in state `cam`, given what the device
/// delivered (`None` where its read failed): the frame's bytes in
/// red-green-blue order with its size, if the handle is not released and the
/// frame is valid.
pub open spec fn read_outcome(cam: WebcamView, captured: Option<RawFrame>) -> Result<
    (Seq<u8>, FrameSize),
    CamError,
> {
    match captured {
        Some(raw) => if !cam.released && raw.is_valid() {
            Ok((channels_swapped(raw.bytes@), raw.size))
        } else {
            Err(CamError::CaptureError)
        },
        None => Err(CamError::CaptureError),
    }
}

/// What a query for the backend's name comes to on a handle in state `cam`,
/// given what the device reported (`None` where it knows no open device).
pub open spec fn backend_outcome(cam: WebcamView, reported: Option<String>) -> Result<
    String,
    CamError,
> {
    match reported {
        Some(name) => if !cam.released {
            Ok(name)
        } else {
            Err(CamError::DeviceUnavailable)
        },
        None => Err(CamError::DeviceUnavailable),
    }
}

impl Webcam {
    /// Makes the handle for device `camera_idx`, opened with the backend
    /// `api_preference`, from the capture layer's answer to the request.
    ///
    /// Fails with `DeviceUnavailable` unless the device is open.
    pub fn new(camera_idx: i32, api_preference: i32, reply: OpenReply) -> (res: Result<
        Webcam,
        CamError,
    >)
        ensures
            res is Ok <==> reply == OpenReply::Opened,
            match res {
                Ok(cam) => open_outcome(camera_idx, api_preference, reply) == Ok::<WebcamView, CamError>(cam@),
                Err(e) => open_outcome(camera_idx, api_preference, reply) == Err::<WebcamView, CamError>(e),
            },
    {
        match reply {
            OpenReply::Opened => Ok(Webcam { camera_idx, api_preference, released: false }),
            _ => Err(CamError::DeviceUnavailable),
        }
    }

    /// Makes the handle for the auto-detected device: device `CAP_ANY` with
    /// the backend left to the capture layer.
    pub fn new_def_auto_detect(reply: OpenReply) -> (res: Result<Webcam, CamError>)
        ensures
            res is Ok <==> reply == OpenReply::Opened,
            match res {
                Ok(cam) => open_outcome(CAP_ANY, CAP_ANY, reply) == Ok::<WebcamView, CamError>(cam@),
                Err(e) => open_outcome(CAP_ANY, CAP_ANY, reply) == Err::<WebcamView, CamError>(e),
            },
    {
        Webcam::new(CAP_ANY, CAP_ANY, reply)
    }

    /// Makes the handle for device `camera_idx` with the backend left to the
    /// capture layer.
    pub fn new_def(camera_idx: i32, reply: OpenReply) -> (res: Result<Webcam, CamError>)
        ensures
            res is Ok <==> reply == OpenReply::Opened,
            match res {
                Ok(cam) => open_outcome(camera_idx, CAP_ANY, reply) == Ok::<WebcamView, CamError>(cam@),
                Err(e) => open_outcome(camera_idx, CAP_ANY, reply) == Err::<WebcamView, CamError>(e),
            },
    {
        Webcam::new(camera_idx, CAP_ANY, reply)
    }

    /// Hands out the frame that the device delivered, converted from
    /// blue-green-red to red-green-blue order, together with its size.
    ///
    /// `captured` is `None` where the device's read failed. Fails with
    /// `CaptureError` if it did, if the frame is not valid, or if the handle
    /// has been released. A frame that is handed out has three bytes for each
    /// of its pixels. The handle stays as it was.
    pub fn get_frame(&mut self, captured: Option<RawFrame>) -> (res: Result<
        (Vec<u8>, FrameSize),
        CamError,
    >)
        ensures
            final(self)@ == old(self)@,
            match res {
                Ok((bytes, size)) => read_outcome(old(self)@, captured) == Ok::<
                    (Seq<u8>, FrameSize),
                    CamError,
                >((bytes@, size)),
                Err(e) => read_outcome(old(self)@, captured) == Err::<
                    (Seq<u8>, FrameSize),
                    CamError,
                >(e),
            },
            res matches Ok((bytes, size)) ==> bytes@.len() == size.width * size.height * 3,
    {
        match captured {
            Some(raw) => {
                if self.released || !raw.check() {
                    return Err(CamError::CaptureError);
                }
                Ok((bgr_to_rgb(raw.bytes.as_slice()), raw.size))
            },
            None => Err(CamError::CaptureError),
        }
    }

    /// Hands out the name of the capture backend that the device reported.
    ///
    /// `reported` is `None` where the device knows no open device. Fails with
    /// `DeviceUnavailable` if so, or if the handle has been released.
    pub fn get_backend_name(&self, reported: Option<String>) -> (res: Result<String, CamError>)
        ensures
            res == backend_outcome(self@, reported),
    {
        match reported {
            Some(name) => {
                if self.released {
                    Err(CamError::DeviceUnavailable)
                } else {
                    Ok(name)
                }
            },
            None => Err(CamError::DeviceUnavailable),
        }
    }

    /// Releases the handle. A handle that is released already stays so, and
    /// releasing it again is no error.
    pub fn release(&mut self) -> (res: Result<(), CamError>)
        ensures
            res is Ok,
            final(self)@ == old(self)@.after_release(),
    {
        self.released = true;
        Ok(())
    }

    /// Tells whether the handle has been released.
    pub fn is_released(&self) -> (released: bool)
        ensures
            released == self@.released,
    {
        self.released
    }

    /// Index of the device that the handle was opened for.
    pub fn camera_idx(&self) -> (idx: i32)
        ensures
            idx == self@.camera_idx,
    {
        self.camera_idx
    }

    /// Backend that the handle was opened with.
    pub fn api_preference(&self) -> (api: i32)
        ensures
            api == self@.api_preference,
    {
        self.api_preference
    }
}

/// Releasing twice is the same as releasing once, and on a released handle
/// every read fails, whatever the device delivered.
pub proof fn lemma_release_is_final(cam: WebcamView, captured: Option<RawFrame>)
    ensures
        cam.after_release().after_release() == cam.after_release(),
        cam.after_release().released,
        read_outcome(cam.after_release(), captured) == Err::<(Seq<u8>, FrameSize), CamError>(
            CamError::CaptureError,
        ),
{
}

/// Every frame that a read hands out has three bytes for each pixel of its
/// size.
pub proof fn lemma_frame_length(cam: WebcamView, captured: Option<RawFrame>)
    ensures
        read_outcome(cam, captured) matches Ok((bytes, size)) ==> bytes.len() == size.width
            * size.height * 3,
{
}

} // verus!
