//! What the operations are for.
//!
//! Each law speaks of an operation by what goes into it and what comes out, in
//! plain terms: labels as they are read, pitches as numbers, strings by their
//! place. How an operation arrives at its result is its own module's business.

pub mod desk;
pub mod dialogs;
pub mod export;
pub mod fonts;
pub mod hover;
pub mod keys;
pub mod menu;
pub mod midi;
pub mod neck;
pub mod plugins;
pub mod text;
pub mod tuning;
pub mod values;
