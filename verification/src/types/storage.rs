//! Storage queries and volume requests.

use crate::params::{opt_decimal_u32, opt_flag, put_opt, PveParams};
use crate::text::{decimal, opt_str, opt_view};
use vstd::prelude::*;

verus! {

/// Which storages of a node to list.
#[derive(Debug, Clone)]
pub struct NodeStorageQuery {
    pub content: Option<String>,
    pub enabled: Option<bool>,
    pub format: Option<bool>,
    pub storage: Option<String>,
    pub target: Option<String>,
}

impl NodeStorageQuery {
    /// The parameters that this value puts on the wire: one entry for
    /// each field that is set.
    pub open spec fn params(&self) -> Map<Seq<char>, Seq<char>> {
        let m = Map::<Seq<char>, Seq<char>>::empty();
        let m = put_opt(m, "content"@, opt_view(self.content));
        let m = put_opt(m, "enabled"@, opt_flag(self.enabled));
        let m = put_opt(m, "format"@, opt_flag(self.format));
        let m = put_opt(m, "storage"@, opt_view(self.storage));
        put_opt(m, "target"@, opt_view(self.target))
    }

    /// Writes the fields that are set into a parameter map.
    pub fn to_params(&self) -> (r: PveParams)
        ensures
            r@ == self.params(),
    {
        let mut params = PveParams::new();
        params.insert_opt("content", opt_str(&self.content));
        params.insert_opt_bool("enabled", self.enabled);
        params.insert_opt_bool("format", self.format);
        params.insert_opt("storage", opt_str(&self.storage));
        params.insert_opt("target", opt_str(&self.target));
        params
    }
}

impl Default for NodeStorageQuery {
    fn default() -> (r: Self)
        ensures
            r.content is None,
            r.enabled is None,
            r.format is None,
            r.storage is None,
            r.target is None,
    {
        NodeStorageQuery {
            content: None,
            enabled: None,
            format: None,
            storage: None,
            target: None,
        }
    }
}

/// Which volumes of a storage to list.
#[derive(Debug, Clone)]
pub struct StorageContentQuery {
    pub content: Option<String>,
    pub vmid: Option<u32>,
}

impl StorageContentQuery {
    /// The parameters that this value puts on the wire: one entry for
    /// each field that is set.
    pub open spec fn params(&self) -> Map<Seq<char>, Seq<char>> {
        let m = Map::<Seq<char>, Seq<char>>::empty();
        let m = put_opt(m, "content"@, opt_view(self.content));
        put_opt(m, "vmid"@, opt_decimal_u32(self.vmid))
    }

    /// Writes the fields that are set into a parameter map.
    pub fn to_params(&self) -> (r: PveParams)
        ensures
            r@ == self.params(),
    {
        let mut params = PveParams::new();
        params.insert_opt("content", opt_str(&self.content));
        params.insert_opt_u32("vmid", self.vmid);
        params
    }
}

impl Default for StorageContentQuery {
    fn default() -> (r: Self)
        ensures
            r.content is None,
            r.vmid is None,
    {
        StorageContentQuery {
            content: None,
            vmid: None,
        }
    }
}

/// A new disk image on a storage.
#[derive(Debug, Clone)]
pub struct StorageAllocateDiskRequest {
    pub vmid: u32,
    pub filename: String,
    pub size: String,
    pub format: Option<String>,
    pub extra: PveParams,
}

impl StorageAllocateDiskRequest {
    /// A value with `vmid`, `filename`, `size` given and everything else left out.
    pub fn new(vmid: u32, filename: &str, size: &str) -> (r: Self)
        ensures
            r.vmid == vmid,
            r.filename@ == filename@,
            r.size@ == size@,
            r.format is None,
            r.extra@ == Map::<Seq<char>, Seq<char>>::empty(),
    {
        StorageAllocateDiskRequest {
            vmid,
            filename: String::from_str(filename),
            size: String::from_str(size),
            format: None,
            extra: PveParams::new(),
        }
    }

    /// The parameters that this value puts on the wire: one entry for
    /// each field that is set, then the entries of `extra`, which win.
    pub open spec fn params(&self) -> Map<Seq<char>, Seq<char>> {
        let m = Map::<Seq<char>, Seq<char>>::empty();
        let m = m.insert("vmid"@, decimal(self.vmid as nat));
        let m = m.insert("filename"@, self.filename@);
        let m = m.insert("size"@, self.size@);
        let m = put_opt(m, "format"@, opt_view(self.format));
        m.union_prefer_right(self.extra@)
    }

    /// Writes the fields that are set into a parameter map.
    pub fn to_params(&self) -> (r: PveParams)
        ensures
            r@ == self.params(),
    {
        let mut params = PveParams::new();
        params.insert_number("vmid", self.vmid as u64);
        params.insert("filename", self.filename.as_str());
        params.insert("size", self.size.as_str());
        params.insert_opt("format", opt_str(&self.format));
        params.extend(&self.extra);
        params
    }
}

/// A file to upload to a storage.
#[derive(Debug, Clone)]
pub struct StorageUploadRequest {
    pub content: String,
    pub file_path: String,
    pub checksum: Option<String>,
    pub checksum_algorithm: Option<String>,
}

impl StorageUploadRequest {
    /// A value with `content` and `file_path` given and everything else left out.
    pub fn new(content: &str, file_path: &str) -> (r: Self)
        ensures
            r.content@ == content@,
            r.file_path@ == file_path@,
            r.checksum is None,
            r.checksum_algorithm is None,
    {
        StorageUploadRequest {
            content: String::from_str(content),
            file_path: String::from_str(file_path),
            checksum: None,
            checksum_algorithm: None,
        }
    }
}

/// Options for deleting a volume.
#[derive(Debug, Clone)]
pub struct StorageDeleteVolumeRequest {
    pub delay: Option<u32>,
}

impl Default for StorageDeleteVolumeRequest {
    fn default() -> (r: Self)
        ensures
            r.delay is None,
    {
        StorageDeleteVolumeRequest {
            delay: None,
        }
    }
}

} // verus!
