//! The ways a capture run can fail.
use vstd::prelude::*;

verus! {

/// A fatal failure of a run; every one ends it.
#[derive(Debug, Clone, Copy, PartialEq, Eq, Structural)]
pub enum PipelineError {
    /// The browser session could not be opened or navigated.
    SessionError,
    /// The viewer never became ready.
    ReadinessTimeout,
    /// Capturing the screenshot of a slide, or advancing past it, failed.
    CaptureError { frame: usize },
    /// A captured frame is not a decodable RGBA raster.
    DecodeError { frame: usize },
    /// Building or saving the output document failed.
    AssemblyError,
}

} // verus!
