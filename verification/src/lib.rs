//! Host-side core of a non-destructive RAW editor's rendering pipeline.
//!
//! The GPU does the per-pixel work; this library holds everything the host
//! has to get right around it: the uniform block's layout, the two render
//! targets and their read-back layout, histograms of rendered frames, the
//! editor's lifecycle, and the fail-safe decisions of the colour science.

pub mod bytes;
pub mod color;
pub mod data;
pub mod debayer;
pub mod edit;
pub mod editor;
pub mod export;
pub mod histogram;
pub mod import;
pub mod jpeg;
pub mod loader;
pub mod pipeline;
pub mod queue;
pub mod scalar;
pub mod shaders;
pub mod target;
pub mod thumbnail;
pub mod uniform;
