//! Supervision of one child server process: starting it, stopping it and
//! reporting what the supervisor believes about it.
//!
//! The supervisor decides; the caller performs the operating-system work
//! (spawning, killing, reaping) through closures that it hands in.
pub mod error;
pub mod launch;
pub mod lifecycle;
pub mod manager;
pub mod status;
