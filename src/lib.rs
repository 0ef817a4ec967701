//! Modal input state machine and focus navigation for a terminal
//! fitness-tracking front end.
//!
//! The library holds the dialogs' buffers, focus and error slots, decides
//! how every key moves them, and turns a dialog's buffers into a typed
//! request for the fitness service. Talking to the service, the terminal and
//! the clock is left to the caller, who hands results back as plain values.

mod text_util;

pub mod errors;
pub mod fields;
pub mod focus;
pub mod numeric;
pub mod selection;
pub mod suggest;
pub mod identifiers;
pub mod dates;
pub mod events;
pub mod workout_modal;
pub mod exercise_modal;
pub mod small_modals;
pub mod modal;
pub mod tabs;
pub mod data;

pub use text_util::{chars_of, lower_of, trim_of};
