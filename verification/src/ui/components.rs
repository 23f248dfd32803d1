//! The panels of the editor.

pub mod preview;
pub mod segment_list;
pub mod settings;
