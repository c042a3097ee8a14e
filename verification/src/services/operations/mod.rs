//! The requests of each part of the API, as methods of the client.

pub mod access;
pub mod cluster;
pub mod datacenter;
pub mod lxc;
pub mod node;
pub mod qemu;
pub mod raw;
pub mod storage;
pub mod system;
pub mod task;
