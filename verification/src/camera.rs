//! Camera frames, pixel-format conversion, and the hardware-free stub camera.
use vstd::prelude::*;

use crate::error::FaceRsError;
use crate::text::{owned, push_decimal, string_push_str, decimal};

verus! {

/// RGB24 frame ready for ML preprocessing.
#[derive(Debug, Clone)]
pub struct Frame {
    /// Raw RGB bytes, row-major, 3 bytes per pixel.
    pub data: Vec<u8>,
    pub width: u32,
    pub height: u32,
    /// Capture time stamped when the frame was dequeued, in milliseconds.
    pub captured_at_ms: u64,
}

/// Each grey byte expanded to an RGB triple.
pub open spec fn grey_expanded(g: Seq<u8>) -> Seq<u8> {
    Seq::new(3 * g.len(), |i: int| g[i / 3])
}

/// The message of a too-small capture buffer.
pub open spec fn buffer_too_small_message(kind: Seq<char>, got: nat, expected: nat) -> Seq<char> {
    kind + " buffer too small: "@ + decimal(got) + " < "@ + decimal(expected)
}

/// Converts a GREY (8-bit luminance) buffer of `width * height` pixels to RGB24.
/// Bytes past the frame are ignored; a short buffer is an error.
pub fn grey_to_rgb(buf: &[u8], width: u32, height: u32) -> (res: Result<Vec<u8>, FaceRsError>)
    requires
        width * height <= u32::MAX,
    ensures
        buf@.len() >= width * height ==> (res matches Ok(v) && v@ == grey_expanded(
            buf@.take(width * height),
        )),
        buf@.len() < width * height ==> (res matches Err(FaceRsError::Camera(m))
            && m@ == buffer_too_small_message("GREY"@, buf@.len(), (width * height) as nat)),
{
    let expected = (width * height) as usize;
    if buf.len() < expected {
        let mut m = owned("GREY buffer too small: ");
        push_decimal(&mut m, buf.len() as u64);
        string_push_str(&mut m, " < ");
        push_decimal(&mut m, expected as u64);
        proof {
            reveal_strlit("GREY buffer too small: ");
            reveal_strlit(" < ");
            reveal_strlit("GREY");
            reveal_strlit(" buffer too small: ");
        }
        return Err(FaceRsError::Camera(m));
    }
    let mut rgb: Vec<u8> = Vec::new();
    let mut k: usize = 0;
    while k < expected
        invariant
            k <= expected <= buf@.len(),
            rgb@.len() == 3 * k,
            forall|i: int| 0 <= i < 3 * k ==> #[trigger] rgb@[i] == buf@[i / 3],
        decreases expected - k,
    {
        let y = buf[k];
        rgb.push(y);
        rgb.push(y);
        rgb.push(y);
        assert forall|i: int| 0 <= i < 3 * (k + 1) implies #[trigger] rgb@[i] == buf@[i / 3] by {
            if i >= 3 * k {
                assert(i / 3 == k as int);
            }
        }
        k += 1;
    }
    assert(rgb@ == grey_expanded(buf@.take(expected as int)));
    Ok(rgb)
}

/// A camera that opens without hardware and never delivers a frame.
pub struct StubCamera {
    device: String,
    width: u32,
    height: u32,
}

impl StubCamera {
    /// The device path the camera was opened with.
    pub closed spec fn spec_device(&self) -> Seq<char> {
        self.device@
    }

    /// The requested width.
    pub closed spec fn spec_width(&self) -> u32 {
        self.width
    }

    /// The requested height.
    pub closed spec fn spec_height(&self) -> u32 {
        self.height
    }

    /// Opens the stub; this always succeeds and records the requested geometry.
    pub fn open(device: &str, width: u32, height: u32, _fps: u32) -> (res: Result<Self, FaceRsError>)
        ensures
            res matches Ok(c) && c.spec_device() == device@ && c.spec_width() == width
                && c.spec_height() == height,
    {
        Ok(StubCamera { device: owned(device), width, height })
    }

    /// The device path.
    pub fn device_path(&self) -> (p: &str)
        ensures
            p@ == self.spec_device(),
    {
        self.device.as_str()
    }

    /// The frame width.
    pub fn width(&self) -> (w: u32)
        ensures
            w == self.spec_width(),
    {
        self.width
    }

    /// The frame height.
    pub fn height(&self) -> (h: u32)
        ensures
            h == self.spec_height(),
    {
        self.height
    }

    /// Discards warm-up frames; the stub has none, so nothing changes.
    pub fn warmup(&mut self, _n: u32)
        ensures
            *final(self) == *old(self),
    {
    }

    /// Always fails with a camera error: there is no hardware behind the stub.
    pub fn capture_frame(&mut self) -> (res: Result<Frame, FaceRsError>)
        ensures
            *final(self) == *old(self),
            res matches Err(FaceRsError::Camera(m)) && m@ == "stub camera: no hardware available"@,
    {
        Err(FaceRsError::Camera(owned("stub camera: no hardware available")))
    }
}

} // verus!
