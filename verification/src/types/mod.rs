//! Request and response types, grouped by the part of the API they belong to.

pub mod access;
pub mod backup;
pub mod cluster;
pub mod common;
pub mod datacenter;
pub mod lxc;
pub mod node;
pub mod qemu;
pub mod storage;
pub mod task;
