//! The failure taxonomy of the border-removal pipeline.

use vstd::prelude::*;

verus! {

/// Everything that can abort a pipeline run.
///
/// `NoBordersDetected` is deliberately absent: an empty directive stream is
/// a valid terminal outcome, not an error.
#[derive(Clone, Copy, Debug, PartialEq, Eq, Structural)]
pub enum PipelineError {
    /// The external diagnostic or transcoding tool could not be started.
    ProcessSpawnError,
    /// The diagnostic channel of the external tool could not be attached.
    StreamCaptureError,
    /// The diagnostic pass exited with a failure status.  A crop estimate
    /// derived from a partially failed diagnostic run is never acted on,
    /// even when directive lines were captured.
    DiagnosticExitError,
    /// A retained directive is present but malformed: a labeled field is
    /// absent, mislabeled or non-numeric, or the directive has too few
    /// tokens to reach the expected positions.
    ParseError,
    /// The dimension probe failed to return a `WIDTHxHEIGHT` line.
    DimensionProbeError,
    /// The probe output could not be split and converted to two
    /// non-negative integers.
    NumericConversionError,
    /// A margin came out negative or overflowed: the probe and the detector
    /// disagree about the frame, and cropping on such data would be
    /// destructive.
    MarginRangeError,
    /// The final crop invocation reported failure.
    TranscodeError,
}

} // verus!
