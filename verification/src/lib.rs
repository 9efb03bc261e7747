//! Modal key handling for a terminal front-end whose editing is done by a
//! separate backend process.
//!
//! A report of the terminal is read as a key event ([`terminal`]). The key
//! is looked up in the bindings of the mode in force ([`keyboard`],
//! [`actions`], [`mode`]). What it is bound to becomes the notification
//! that the backend is to receive ([`protocol`], [`controller`]). Reading
//! from the terminal and sending to the backend are the caller's part: the
//! library decides, and proves what it decides.

pub mod actions;
pub mod controller;
pub mod keyboard;
pub mod mode;
pub mod protocol;
pub mod terminal;
