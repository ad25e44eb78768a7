//! The core of a live-tail monitor for nostr relays: it counts the events that
//! arrive by kind, makes their text safe for a terminal, and decides, input by
//! input, what a session shows and when it ends.
//!
//! The library does no input or output of its own. A program around it reads
//! the relay notifications and the terminal, hands each input to
//! [`session::Session::step`], and prints the line that comes back.

pub mod display;
pub mod sanitize;
pub mod session;
pub mod stats;
pub mod std_specs;
pub mod trace;
