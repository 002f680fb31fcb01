use vstd::prelude::*;

verus! {

/// Why an operation of this library did not produce its result.
///
/// Every error is terminal for the call that returned it: nothing is retried
/// and no partial result is handed out.
#[derive(Clone, Copy, Debug, PartialEq, Eq, Structural)]
pub enum CamError {
    /// The capture device could not be opened, or reports that it is not open.
    DeviceUnavailable,
    /// No usable frame could be read from the capture device.
    CaptureError,
    /// The bytes handed in are not an image in a recognised container format.
    DecodeError,
    /// A file could not be written.
    IoError,
}

impl CamError {
    /// The text of `message`, as a sequence of characters.
    pub open spec fn message_text(self) -> Seq<char> {
        match self {
            CamError::DeviceUnavailable => "Failed to open capture device."@,
            CamError::CaptureError => "Failed to read a frame from the capture device."@,
            CamError::DecodeError => "The bytes are not an image in a known format."@,
            CamError::IoError => "Failed to write the file."@,
        }
    }

    /// A short description of the error for people to read.
    pub fn message(&self) -> (text: &'static str)
        ensures
            text@ == self.message_text(),
    {
        match self {
            CamError::DeviceUnavailable => "Failed to open capture device.",
            CamError::CaptureError => "Failed to read a frame from the capture device.",
            CamError::DecodeError => "The bytes are not an image in a known format.",
            CamError::IoError => "Failed to write the file.",
        }
    }
}

} // verus!
