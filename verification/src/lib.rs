//! The decisions behind Tangent's user interface.
//!
//! Everything here is plain data in and plain data out: which rows the menu
//! offers, what a key does, whether a tuning may be committed, which plugins a
//! filter leaves on screen. Drawing, devices and files belong to whoever calls.

pub mod color;
pub mod dialogs;
pub mod fonts;
pub mod fretboard;
pub mod fretboard_panel;
pub mod host;
pub mod keys;
pub mod laws;
pub mod menu;
pub mod midi_event;
pub mod mixer_panel;
pub mod notes;
pub mod ports;
pub mod recorder;
pub mod settings;
pub mod text;
pub mod theory_panel;
