//! Batch conversion of camera RAW files to TIFF: output-path derivation,
//! decoded-buffer validation, per-job progress accounting and log lines,
//! with the RAW decoder and the TIFF encoder as external collaborators.

pub mod digits;
pub mod driver;
pub mod errors;
pub mod image_buf;
pub mod lines;
pub mod paths;
pub mod pipeline;
pub mod progress;
