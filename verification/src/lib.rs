//! Back end of a small desktop helper: a greeting formatter, and the
//! decisions behind an operation that types text into whichever application
//! holds the input focus.
//!
//! The decisions are kept apart from the effects. [`greeting`] is a pure
//! function on text. [`typing`] is a step function: it says what has to be
//! done next (wait, acquire the input-simulation capability, submit the
//! text) and the caller performs it and reports back what happened.

pub mod greeting;
pub mod order;
pub mod typing;

pub use greeting::greet;
pub use typing::{type_text, Action, Event, Stage, TypeError, Typist, FOCUS_DELAY_MS};
