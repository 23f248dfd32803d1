//! Helpers around the pipeline.

pub mod credentials;
