//! Border-detection and crop-geometry resolution for a video post-processing
//! pipeline.
//!
//! The library scans the diagnostic text stream of an external
//! border-detection pass for crop directives, extracts the reported crop
//! rectangle, derives per-side margins relative to the original frame, and
//! decides every step of the border-removal pipeline.  All external process
//! work (running the detector, probing dimensions, transcoding) is left to
//! the caller, which feeds the resulting text back in as plain byte lines.

pub mod directive;
pub mod errors;
pub mod geometry;
pub mod pipeline;
pub mod text;
