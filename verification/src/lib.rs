//! Protocol core of a write-only HD44780 character-LCD driver.
//!
//! The crate decides which line transitions and settle delays each controller
//! operation consists of; performing them on real pins is left to the caller.
//! An operation appends its [`Step`]s to a list; a [`playback::Playback`] of
//! that list hands them out one by one and ends the operation on the first
//! line error. The busy flag is never read: every wait is a fixed delay, long
//! enough for the slower compatible controllers.
//!
//! [`model`] says what a controller makes of a run of steps, and [`delivery`]
//! proves that each operation of [`nonblocking::Lcd`] delivers the
//! instructions and characters it stands for.

pub mod bus;
pub mod config;
pub mod delivery;
pub mod error;
pub mod model;
pub mod nonblocking;
pub mod playback;

pub use bus::{Bus, BusSend, FullWidthBus, HalfWidthBus, LcdPinConfiguration, Pin, Step};
pub use config::{DisplayControl, EntryMode, IncrementMode, Lines};
pub use error::LcdIOError;
