//! Statusline composition and adaptive layout: a colour model shared by three
//! colour depths, threshold-driven style overrides, composition of ordered
//! segments into one styled line, and greedy wrapping of the same units into
//! width-bounded lines.

pub mod config;
pub mod engine;
pub mod string_map;
pub mod text;
pub mod ui;
pub mod utils;
