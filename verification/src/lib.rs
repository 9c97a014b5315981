//! A notification daemon's decisions.
//!
//! The daemon takes a short text over HTTP, has an external engine turn it
//! into an audio file, and plays the file on the local speaker or casts it to
//! a networked device. This crate holds everything the daemon decides: which
//! engine and locale to use, how the file is named, which programs are run
//! with which arguments, what a request is answered with, and when the file
//! is removed. It does no input or output of its own: `router` says what is
//! to be done, and is told what came of it.

pub mod artifact;
pub mod caster;
pub mod command;
pub mod engine;
pub mod error;
pub mod laws;
pub mod notifyd;
pub mod numerals;
pub mod player;
pub mod protocol;
pub mod router;
pub mod text;
pub mod tts;
pub mod web;
