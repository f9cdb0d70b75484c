//! The daemon: the process that owns root execution on the device.

pub mod android;
pub mod attachment;
pub mod capability;
pub mod command;
pub mod companion;
pub mod executor;
pub mod guard;
pub mod helper;
pub mod host;
pub mod keepalive;
pub mod ledger;
pub mod magisk;
pub mod maintenance;
pub mod network;
pub mod process;
pub mod property;
pub mod protocol;
pub mod transport;
pub mod visual;
pub mod wake;
