//! The public contract: what callers send, what they get back, and the descriptors of both.

pub mod artifacts;
pub mod automation;
pub mod common;
pub mod decode;
pub mod descriptor;
pub mod descriptor_table;
pub mod envelope;
pub mod internal;
pub mod results;
pub mod schemas;
pub mod tools;
