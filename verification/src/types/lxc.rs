//! Containers.

use crate::params::{opt_decimal_u32, opt_decimal_u64, opt_flag, put_opt, PveParams};
use crate::text::{decimal, opt_str, opt_view};
use vstd::prelude::*;

verus! {

/// A new container.
#[derive(Debug, Clone)]
pub struct LxcCreateRequest {
    pub vmid: u32,
    pub ostemplate: String,
    pub hostname: Option<String>,
    pub memory: Option<u32>,
    pub cores: Option<u32>,
    pub rootfs: Option<String>,
    pub net0: Option<String>,
    pub swap: Option<u32>,
    pub onboot: Option<bool>,
    pub unprivileged: Option<bool>,
    pub features: Option<String>,
    pub extra: PveParams,
}

impl LxcCreateRequest {
    /// A value with `vmid` and `ostemplate` given and everything else left out.
    pub fn new(vmid: u32, ostemplate: &str) -> (r: Self)
        ensures
            r.vmid == vmid,
            r.ostemplate@ == ostemplate@,
            r.hostname is None,
            r.memory is None,
            r.cores is None,
            r.rootfs is None,
            r.net0 is None,
            r.swap is None,
            r.onboot is None,
            r.unprivileged is None,
            r.features is None,
            r.extra@ == Map::<Seq<char>, Seq<char>>::empty(),
    {
        LxcCreateRequest {
            vmid,
            ostemplate: String::from_str(ostemplate),
            hostname: None,
            memory: None,
            cores: None,
            rootfs: None,
            net0: None,
            swap: None,
            onboot: None,
            unprivileged: None,
            features: None,
            extra: PveParams::new(),
        }
    }

    /// The parameters that this value puts on the wire: one entry for
    /// each field that is set, then the entries of `extra`, which win.
    pub open spec fn params(&self) -> Map<Seq<char>, Seq<char>> {
        let m = Map::<Seq<char>, Seq<char>>::empty();
        let m = m.insert("vmid"@, decimal(self.vmid as nat));
        let m = m.insert("ostemplate"@, self.ostemplate@);
        let m = put_opt(m, "hostname"@, opt_view(self.hostname));
        let m = put_opt(m, "memory"@, opt_decimal_u32(self.memory));
        let m = put_opt(m, "cores"@, opt_decimal_u32(self.cores));
        let m = put_opt(m, "rootfs"@, opt_view(self.rootfs));
        let m = put_opt(m, "net0"@, opt_view(self.net0));
        let m = put_opt(m, "swap"@, opt_decimal_u32(self.swap));
        let m = put_opt(m, "onboot"@, opt_flag(self.onboot));
        let m = put_opt(m, "unprivileged"@, opt_flag(self.unprivileged));
        let m = put_opt(m, "features"@, opt_view(self.features));
        m.union_prefer_right(self.extra@)
    }

    /// Writes the fields that are set into a parameter map.
    pub fn to_params(&self) -> (r: PveParams)
        ensures
            r@ == self.params(),
    {
        let mut params = PveParams::new();
        params.insert_number("vmid", self.vmid as u64);
        params.insert("ostemplate", self.ostemplate.as_str());
        params.insert_opt("hostname", opt_str(&self.hostname));
        params.insert_opt_u32("memory", self.memory);
        params.insert_opt_u32("cores", self.cores);
        params.insert_opt("rootfs", opt_str(&self.rootfs));
        params.insert_opt("net0", opt_str(&self.net0));
        params.insert_opt_u32("swap", self.swap);
        params.insert_opt_bool("onboot", self.onboot);
        params.insert_opt_bool("unprivileged", self.unprivileged);
        params.insert_opt("features", opt_str(&self.features));
        params.extend(&self.extra);
        params
    }
}

/// Which configuration of a container to read.
#[derive(Debug, Clone)]
pub struct LxcConfigQuery {
    pub current: Option<bool>,
    pub snapshot: Option<String>,
}

impl LxcConfigQuery {
    /// The parameters that this value puts on the wire: one entry for
    /// each field that is set.
    pub open spec fn params(&self) -> Map<Seq<char>, Seq<char>> {
        let m = Map::<Seq<char>, Seq<char>>::empty();
        let m = put_opt(m, "current"@, opt_flag(self.current));
        put_opt(m, "snapshot"@, opt_view(self.snapshot))
    }

    /// Writes the fields that are set into a parameter map.
    pub fn to_params(&self) -> (r: PveParams)
        ensures
            r@ == self.params(),
    {
        let mut params = PveParams::new();
        params.insert_opt_bool("current", self.current);
        params.insert_opt("snapshot", opt_str(&self.snapshot));
        params
    }
}

impl Default for LxcConfigQuery {
    fn default() -> (r: Self)
        ensures
            r.current is None,
            r.snapshot is None,
    {
        LxcConfigQuery {
            current: None,
            snapshot: None,
        }
    }
}

/// Changes to the configuration of a container.
#[derive(Debug, Clone)]
pub struct LxcSetConfigRequest {
    pub delete: Option<String>,
    pub digest: Option<String>,
    pub memory: Option<u32>,
    pub cores: Option<u32>,
    pub rootfs: Option<String>,
    pub net0: Option<String>,
    pub mp0: Option<String>,
    pub swap: Option<u32>,
    pub onboot: Option<bool>,
    pub unprivileged: Option<bool>,
    pub features: Option<String>,
    pub tags: Option<String>,
    pub extra: PveParams,
}

impl LxcSetConfigRequest {
    /// The parameters that this value puts on the wire: one entry for
    /// each field that is set, then the entries of `extra`, which win.
    pub open spec fn params(&self) -> Map<Seq<char>, Seq<char>> {
        let m = Map::<Seq<char>, Seq<char>>::empty();
        let m = put_opt(m, "delete"@, opt_view(self.delete));
        let m = put_opt(m, "digest"@, opt_view(self.digest));
        let m = put_opt(m, "memory"@, opt_decimal_u32(self.memory));
        let m = put_opt(m, "cores"@, opt_decimal_u32(self.cores));
        let m = put_opt(m, "rootfs"@, opt_view(self.rootfs));
        let m = put_opt(m, "net0"@, opt_view(self.net0));
        let m = put_opt(m, "mp0"@, opt_view(self.mp0));
        let m = put_opt(m, "swap"@, opt_decimal_u32(self.swap));
        let m = put_opt(m, "onboot"@, opt_flag(self.onboot));
        let m = put_opt(m, "unprivileged"@, opt_flag(self.unprivileged));
        let m = put_opt(m, "features"@, opt_view(self.features));
        let m = put_opt(m, "tags"@, opt_view(self.tags));
        m.union_prefer_right(self.extra@)
    }

    /// Writes the fields that are set into a parameter map.
    pub fn to_params(&self) -> (r: PveParams)
        ensures
            r@ == self.params(),
    {
        let mut params = PveParams::new();
        params.insert_opt("delete", opt_str(&self.delete));
        params.insert_opt("digest", opt_str(&self.digest));
        params.insert_opt_u32("memory", self.memory);
        params.insert_opt_u32("cores", self.cores);
        params.insert_opt("rootfs", opt_str(&self.rootfs));
        params.insert_opt("net0", opt_str(&self.net0));
        params.insert_opt("mp0", opt_str(&self.mp0));
        params.insert_opt_u32("swap", self.swap);
        params.insert_opt_bool("onboot", self.onboot);
        params.insert_opt_bool("unprivileged", self.unprivileged);
        params.insert_opt("features", opt_str(&self.features));
        params.insert_opt("tags", opt_str(&self.tags));
        params.extend(&self.extra);
        params
    }
}

impl Default for LxcSetConfigRequest {
    fn default() -> (r: Self)
        ensures
            r.delete is None,
            r.digest is None,
            r.memory is None,
            r.cores is None,
            r.rootfs is None,
            r.net0 is None,
            r.mp0 is None,
            r.swap is None,
            r.onboot is None,
            r.unprivileged is None,
            r.features is None,
            r.tags is None,
            r.extra@ == Map::<Seq<char>, Seq<char>>::empty(),
    {
        LxcSetConfigRequest {
            delete: None,
            digest: None,
            memory: None,
            cores: None,
            rootfs: None,
            net0: None,
            mp0: None,
            swap: None,
            onboot: None,
            unprivileged: None,
            features: None,
            tags: None,
            extra: PveParams::new(),
        }
    }
}

/// Options of a container power action.
#[derive(Debug, Clone)]
pub struct LxcActionRequest {
    pub timeout: Option<u64>,
    pub skiplock: Option<bool>,
    pub debug: Option<bool>,
    pub force_stop: Option<bool>,
    pub overrule_shutdown: Option<bool>,
    pub extra: PveParams,
}

impl LxcActionRequest {
    /// The parameters that this value puts on the wire: one entry for
    /// each field that is set, then the entries of `extra`, which win.
    pub open spec fn params(&self) -> Map<Seq<char>, Seq<char>> {
        let m = Map::<Seq<char>, Seq<char>>::empty();
        let m = put_opt(m, "timeout"@, opt_decimal_u64(self.timeout));
        let m = put_opt(m, "skiplock"@, opt_flag(self.skiplock));
        let m = put_opt(m, "debug"@, opt_flag(self.debug));
        let m = put_opt(m, "forceStop"@, opt_flag(self.force_stop));
        let m = put_opt(m, "overrule-shutdown"@, opt_flag(self.overrule_shutdown));
        m.union_prefer_right(self.extra@)
    }

    /// Writes the fields that are set into a parameter map.
    pub fn to_params(&self) -> (r: PveParams)
        ensures
            r@ == self.params(),
    {
        let mut params = PveParams::new();
        params.insert_opt_u64("timeout", self.timeout);
        params.insert_opt_bool("skiplock", self.skiplock);
        params.insert_opt_bool("debug", self.debug);
        params.insert_opt_bool("forceStop", self.force_stop);
        params.insert_opt_bool("overrule-shutdown", self.overrule_shutdown);
        params.extend(&self.extra);
        params
    }
}

impl Default for LxcActionRequest {
    fn default() -> (r: Self)
        ensures
            r.timeout is None,
            r.skiplock is None,
            r.debug is None,
            r.force_stop is None,
            r.overrule_shutdown is None,
            r.extra@ == Map::<Seq<char>, Seq<char>>::empty(),
    {
        LxcActionRequest {
            timeout: None,
            skiplock: None,
            debug: None,
            force_stop: None,
            overrule_shutdown: None,
            extra: PveParams::new(),
        }
    }
}

/// A new container snapshot.
#[derive(Debug, Clone)]
pub struct LxcSnapshotCreateRequest {
    pub snapname: String,
    pub description: Option<String>,
}

impl LxcSnapshotCreateRequest {
    /// A value with `snapname` given and everything else left out.
    pub fn new(snapname: &str) -> (r: Self)
        ensures
            r.snapname@ == snapname@,
            r.description is None,
    {
        LxcSnapshotCreateRequest {
            snapname: String::from_str(snapname),
            description: None,
        }
    }

    /// The parameters that this value puts on the wire: one entry for
    /// each field that is set.
    pub open spec fn params(&self) -> Map<Seq<char>, Seq<char>> {
        let m = Map::<Seq<char>, Seq<char>>::empty();
        let m = m.insert("snapname"@, self.snapname@);
        put_opt(m, "description"@, opt_view(self.description))
    }

    /// Writes the fields that are set into a parameter map.
    pub fn to_params(&self) -> (r: PveParams)
        ensures
            r@ == self.params(),
    {
        let mut params = PveParams::new();
        params.insert("snapname", self.snapname.as_str());
        params.insert_opt("description", opt_str(&self.description));
        params
    }
}

/// A rollback of a container to a snapshot.
#[derive(Debug, Clone)]
pub struct LxcSnapshotRollbackRequest {
    pub snapname: String,
    pub start: Option<bool>,
}

impl LxcSnapshotRollbackRequest {
    /// A value with `snapname` given and everything else left out.
    pub fn new(snapname: &str) -> (r: Self)
        ensures
            r.snapname@ == snapname@,
            r.start is None,
    {
        LxcSnapshotRollbackRequest {
            snapname: String::from_str(snapname),
            start: None,
        }
    }

    /// The parameters that this value puts on the wire: one entry for
    /// each field that is set.
    pub open spec fn params(&self) -> Map<Seq<char>, Seq<char>> {
        let m = Map::<Seq<char>, Seq<char>>::empty();
        put_opt(m, "start"@, opt_flag(self.start))
    }

    /// Writes the fields that are set into a parameter map.
    pub fn to_params(&self) -> (r: PveParams)
        ensures
            r@ == self.params(),
    {
        let mut params = PveParams::new();
        params.insert_opt_bool("start", self.start);
        params
    }
}

/// A migration of a container to another node.
#[derive(Debug, Clone)]
pub struct LxcMigrateRequest {
    pub target: String,
    pub online: Option<bool>,
    pub restart: Option<bool>,
    pub target_storage: Option<String>,
    pub bwlimit: Option<u64>,
    pub timeout: Option<u64>,
    pub extra: PveParams,
}

impl LxcMigrateRequest {
    /// A value with `target` given and everything else left out.
    pub fn new(target: &str) -> (r: Self)
        ensures
            r.target@ == target@,
            r.online is None,
            r.restart is None,
            r.target_storage is None,
            r.bwlimit is None,
            r.timeout is None,
            r.extra@ == Map::<Seq<char>, Seq<char>>::empty(),
    {
        LxcMigrateRequest {
            target: String::from_str(target),
            online: None,
            restart: None,
            target_storage: None,
            bwlimit: None,
            timeout: None,
            extra: PveParams::new(),
        }
    }

    /// The parameters that this value puts on the wire: one entry for
    /// each field that is set, then the entries of `extra`, which win.
    pub open spec fn params(&self) -> Map<Seq<char>, Seq<char>> {
        let m = Map::<Seq<char>, Seq<char>>::empty();
        let m = m.insert("target"@, self.target@);
        let m = put_opt(m, "online"@, opt_flag(self.online));
        let m = put_opt(m, "restart"@, opt_flag(self.restart));
        let m = put_opt(m, "target-storage"@, opt_view(self.target_storage));
        let m = put_opt(m, "bwlimit"@, opt_decimal_u64(self.bwlimit));
        let m = put_opt(m, "timeout"@, opt_decimal_u64(self.timeout));
        m.union_prefer_right(self.extra@)
    }

    /// Writes the fields that are set into a parameter map.
    pub fn to_params(&self) -> (r: PveParams)
        ensures
            r@ == self.params(),
    {
        let mut params = PveParams::new();
        params.insert("target", self.target.as_str());
        params.insert_opt_bool("online", self.online);
        params.insert_opt_bool("restart", self.restart);
        params.insert_opt("target-storage", opt_str(&self.target_storage));
        params.insert_opt_u64("bwlimit", self.bwlimit);
        params.insert_opt_u64("timeout", self.timeout);
        params.extend(&self.extra);
        params
    }
}

} // verus!
