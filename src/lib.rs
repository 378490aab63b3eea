//! Verified decision logic of an interactive command-line front end that
//! encrypts or decrypts a single file through the zeppelin crypto engine.
//!
//! The library decides everything that does not touch the terminal, the
//! file system or the worker thread: which mode a run takes, where its output
//! goes, which cost parameters the engine receives, how every terminal
//! condition maps to a message and an exit code, and in which order the
//! coordinator hides the cursor, renders, joins and cleans the terminal.
use vstd::prelude::*;

pub mod outcome;
pub mod paths;
pub mod session;
pub mod settings;

verus! {

} // verus!
