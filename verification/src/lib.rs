//! A terminal countdown: the timer, its block-digit face, the loop that
//! drives it and the rule that centers it on the screen.

pub mod color;
pub mod digit;
pub mod event;
pub mod face;
pub mod layout;
pub mod timer;

pub use color::{color, Color};
pub use digit::{digit, Glyph};
pub use event::{Action, Countdown, Event, Key, Outcome, State};
pub use layout::{center_area, margin, Area};
pub use timer::Timer;
