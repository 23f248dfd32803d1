//! The rendering pipeline: segment content, styling and layout.

pub mod compose;
pub mod segments;
pub mod spans;
pub mod statusline;
pub mod style;
pub mod wrap;
