//! Every response type under one path.

pub use crate::types::access::TicketInfo;
pub use crate::types::common::VersionInfo;
pub use crate::types::task::{TaskLogLine, TaskStatus};
