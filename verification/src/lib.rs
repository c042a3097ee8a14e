//! Typed request construction, validation and task tracking for the
//! Proxmox VE management API.
//!
//! The library decides what is sent and what an answer means; it performs
//! no I/O itself. A caller takes an [`ApiRequest`] from a [`PveClient`],
//! sends it with the HTTP stack of its choice, and hands status and body
//! back to [`transport::check_response`]. Waiting for a task works the
//! same way, one [`types::task::wait_for_task_step`] per poll.

pub mod auth;
pub mod client;
pub mod client_api;
pub mod client_option;
pub mod error;
pub mod models;
pub mod params;
pub mod requests;
pub mod services;
pub mod text;
pub mod transport;
pub mod types;

pub use auth::{Auth, HttpMethod};
pub use client::{ApiRequest, ClientStart, PveClient};
pub use client_option::{ClientAuth, ClientOption};
pub use error::PveError;
pub use models::{TaskLogLine, TaskStatus, TicketInfo, VersionInfo};
pub use params::PveParams;
pub use requests::{
    AccessAclQuery, AccessCreateGroupRequest, AccessCreateTokenRequest, AccessCreateUserRequest,
    AccessDeleteAclRequest, AccessSetAclRequest, AccessUpdateGroupRequest,
    AccessUpdateTokenRequest, AccessUpdateUserRequest, ClusterResourceType, ClusterResourcesQuery,
    DatacenterConfigUpdateRequest, LxcActionRequest, LxcConfigQuery, LxcCreateRequest,
    LxcMigrateRequest, LxcSetConfigRequest, LxcSnapshotCreateRequest,
    LxcSnapshotRollbackRequest, MailNotification, NodeNetworkQuery, NodeStorageQuery,
    NodeTasksQuery, QemuActionRequest, QemuBios, QemuCloneRequest, QemuConfigQuery,
    QemuCreateRequest, QemuMigrateRequest, QemuOsType, QemuSetConfigRequest,
    QemuSnapshotCreateRequest, QemuSnapshotRollbackRequest, StorageAllocateDiskRequest,
    StorageContentQuery, StorageDeleteVolumeRequest, StorageUploadRequest, TaskLogQuery,
    TaskSource, TicketRequest, VzdumpCompress, VzdumpMode, VzdumpRequest, WaitTaskOptions,
};
