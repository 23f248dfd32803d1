//! The interactive editor: its state, the panels it shows and the themes it
//! offers.

pub mod app;
pub mod components;
pub mod events;
pub mod themes;
