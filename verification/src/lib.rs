//! Decision logic of a command-line controller for a remote music player.
//!
//! The crate holds the rules only: what a playback snapshot means for each
//! command, when a cached access token may still be used, and how the token
//! is laid out in its cache file. Reading the environment, the disk and the
//! network is left to the program around it, which feeds plain values in and
//! carries out the calls this crate names.

pub mod command;
pub mod controller;
pub mod decimal;
pub mod error;
pub mod playback;
pub mod query;
pub mod session;
pub mod settings;
pub mod store;
pub mod token;
