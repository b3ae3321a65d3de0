//! The hardware-free stand-in for the face detector, used where no model is installed.
use vstd::prelude::*;

use crate::camera::Frame;
use crate::error::FaceRsError;
use crate::text::owned;

verus! {

/// A detector without a model: it loads from any path and never detects a face.
pub struct StubDetector;

impl StubDetector {
    /// Loads the stub; the model path is ignored and loading always succeeds.
    pub fn load(_model_path: &str) -> (r: Result<StubDetector, FaceRsError>)
        ensures
            r is Ok,
    {
        Ok(StubDetector)
    }

    /// Refuses to run detection: there is no model. (A real detector returns the
    /// detected faces; this one only ever fails.)
    pub fn detect(&mut self, _frame: &Frame, _min_face_size: u32) -> (r: Result<(), FaceRsError>)
        ensures
            r matches Err(FaceRsError::Detection(m)) && m@ == "stub detector: no model loaded"@,
    {
        Err(FaceRsError::Detection(owned("stub detector: no model loaded")))
    }
}

} // verus!
