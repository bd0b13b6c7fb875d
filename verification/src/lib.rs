//! Batch conversion orchestration for turning JPEG/PNG images into AVIF.
//!
//! The crate models the decision logic of a converter command: classifying
//! input tokens, deriving encoder quality settings, resolving where each
//! output is written, stepping a per-file conversion job through its phases,
//! and aggregating the outcomes of a whole batch. All I/O and the pixel
//! decoder / AV1 encoder collaborators live outside this crate; they hand the
//! library plain values and take plain values back.

pub mod batch;
pub mod config;
pub mod endpoints;
pub mod errors;
pub mod job;
pub mod outputs;
pub mod pathnames;
pub mod resolver;
pub mod text;
