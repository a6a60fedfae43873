//! The engine of a viewer that follows the output of a command.
//!
//! Lines arrive from a producer, get a timestamp (the one they carry, or the
//! time of arrival), and are kept in a bounded buffer. A filter on level,
//! search text and time window decides which of them are shown. The owner of
//! the viewer reads the clock, runs the command and draws the window; what is
//! decided is decided here, and is proved against the contracts.
//!
//! Trusted, and not proved, are the calls into `chrono` (module `calendar`),
//! into `regex` (module `pattern`) and two functions of the standard library
//! (head of module `text`).

pub mod buffer;
pub mod calendar;
pub mod extract;
pub mod favorites;
pub mod filter;
pub mod instant;
pub mod pattern;
pub mod settings;
pub mod text;
pub mod timespan;
pub mod viewer;
pub mod worker;
