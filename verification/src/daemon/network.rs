//! The network as the daemon sees it: what the kernel reports, what is answered about it, and what
//! is captured from it.

pub mod address;
pub mod capture;
pub mod dump;
pub mod inspect;
pub mod netlink;
pub mod observer;
pub mod routes;
pub mod sockets;
