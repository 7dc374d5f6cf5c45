//! Clocking in and out of a web timecard service, as a verified library.
//!
//! The library holds everything the program decides: which element of a page
//! matches a visible-text label (`finder`), which label belongs to each of the
//! four clock actions (`actions`), the credential record (`config`), and the
//! whole login-and-dispatch control flow as a state machine (`sequencer`).
//! Driving a real browser is left to the thin binary around the library, which
//! performs each `PageAction` the sequencer hands out and feeds the outcome
//! back in as an `Event`.

pub mod actions;
pub mod config;
pub mod finder;
pub mod sequencer;
