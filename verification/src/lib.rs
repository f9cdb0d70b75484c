//! The verified part of DroidBridge: the contract that the outside world talks to the device
//! through, and the decisions of the daemon that owns root execution on it.
//!
//! Nothing here does input or output. A function takes what was read, and says what is to be done
//! or answered; the program around it reads, acts and comes back with what happened. Where work
//! alternates with decisions, a step takes a state and an event, and gives the next state and an
//! action.

pub mod bytes;
pub mod contract;
pub mod daemon;
pub mod digest;
pub mod error;
pub mod json;
pub mod text;
pub mod words;
