//! The hardware-free stand-in for the face embedder, used where no model is installed.
use vstd::prelude::*;

use crate::camera::Frame;
use crate::error::FaceRsError;
use crate::text::owned;

verus! {

/// An embedder without a model: it loads from any path and never produces an
/// embedding.
pub struct StubEmbedder;

impl StubEmbedder {
    /// Loads the stub; the model path is ignored and loading always succeeds.
    pub fn load(_model_path: &str) -> (r: Result<StubEmbedder, FaceRsError>)
        ensures
            r is Ok,
    {
        Ok(StubEmbedder)
    }

    /// Refuses to compute an embedding: there is no model.
    pub fn extract(&mut self, _frame: &Frame) -> (r: Result<Vec<u32>, FaceRsError>)
        ensures
            r matches Err(FaceRsError::Embedding(m)) && m@ == "stub embedder: no model loaded"@,
    {
        Err(FaceRsError::Embedding(owned("stub embedder: no model loaded")))
    }
}

} // verus!
