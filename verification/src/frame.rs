//! Compressed video frames and the single pixel format the pipeline accepts.

use vstd::prelude::*;

verus! {

/// The FourCC tag of the one compressed format the pipeline supports,
/// motion-JPEG, as the four bytes `MJPG`.
pub open spec fn mjpg_tag() -> Seq<u8> {
    seq![0x4Du8, 0x4Au8, 0x50u8, 0x47u8]
}

/// One compressed still image as captured from the device: its byte content
/// and the FourCC tag of the pixel format the device reported for it.
pub struct Frame {
    /// The compressed image bytes.
    pub data: Vec<u8>,
    /// The FourCC format tag reported by the device.
    pub format: [u8; 4],
}

impl Frame {
    /// The frame's format tag is the one the pipeline supports.
    pub open spec fn format_ok(self) -> bool {
        self.format@ == mjpg_tag()
    }

    /// Checks that the device reported the supported compressed format for
    /// this frame. A mismatch is a fatal precondition violation for the
    /// pipeline, not a recoverable error.
    pub fn check_format(&self) -> (r: bool)
        ensures
            r == self.format_ok(),
    {
        let r = self.format[0] == 0x4Du8 && self.format[1] == 0x4Au8
            && self.format[2] == 0x50u8 && self.format[3] == 0x47u8;
        proof {
            if r {
                assert(self.format@ =~= mjpg_tag());
            } else {
                assert(self.format@ != mjpg_tag());
            }
        }
        r
    }
}

} // verus!
