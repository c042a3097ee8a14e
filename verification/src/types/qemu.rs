//! Virtual machines.

use crate::params::{opt_decimal_u32, opt_decimal_u64, opt_flag, put_opt, PveParams};
use crate::text::{decimal, opt_str, opt_view};
use vstd::prelude::*;

verus! {

/// The firmware of a virtual machine.
#[derive(Debug, Clone, Copy, PartialEq, Eq, Structural)]
pub enum QemuBios {
    SeaBios,
    Ovmf,
}

impl QemuBios {
    /// The word the API uses for this value.
    pub open spec fn text(self) -> Seq<char> {
        match self {
            QemuBios::SeaBios => "seabios"@,
            QemuBios::Ovmf => "ovmf"@,
        }
    }

    /// The word the API uses for this value.
    pub fn as_str(self) -> (r: &'static str)
        ensures
            r@ == self.text(),
    {
        match self {
            QemuBios::SeaBios => "seabios",
            QemuBios::Ovmf => "ovmf",
        }
    }
}

/// The guest operating system of a virtual machine.
#[derive(Debug, Clone, Copy, PartialEq, Eq, Structural)]
pub enum QemuOsType {
    Other,
    Linux26,
    Win10,
    Win11,
}

impl QemuOsType {
    /// The word the API uses for this value.
    pub open spec fn text(self) -> Seq<char> {
        match self {
            QemuOsType::Other => "other"@,
            QemuOsType::Linux26 => "l26"@,
            QemuOsType::Win10 => "win10"@,
            QemuOsType::Win11 => "win11"@,
        }
    }

    /// The word the API uses for this value.
    pub fn as_str(self) -> (r: &'static str)
        ensures
            r@ == self.text(),
    {
        match self {
            QemuOsType::Other => "other",
            QemuOsType::Linux26 => "l26",
            QemuOsType::Win10 => "win10",
            QemuOsType::Win11 => "win11",
        }
    }
}

/// A new virtual machine.
#[derive(Debug, Clone)]
pub struct QemuCreateRequest {
    pub vmid: u32,
    pub name: Option<String>,
    pub memory: Option<u32>,
    pub cores: Option<u32>,
    pub sockets: Option<u32>,
    pub cpu: Option<String>,
    pub bios: Option<QemuBios>,
    pub ostype: Option<QemuOsType>,
    pub agent: Option<String>,
    pub net0: Option<String>,
    pub scsi0: Option<String>,
    pub virtio0: Option<String>,
    pub machine: Option<String>,
    pub onboot: Option<bool>,
    pub tags: Option<String>,
    pub extra: PveParams,
}

impl QemuCreateRequest {
    /// A value with `vmid` given and everything else left out.
    pub fn new(vmid: u32) -> (r: Self)
        ensures
            r.vmid == vmid,
            r.name is None,
            r.memory is None,
            r.cores is None,
            r.sockets is None,
            r.cpu is None,
            r.bios is None,
            r.ostype is None,
            r.agent is None,
            r.net0 is None,
            r.scsi0 is None,
            r.virtio0 is None,
            r.machine is None,
            r.onboot is None,
            r.tags is None,
            r.extra@ == Map::<Seq<char>, Seq<char>>::empty(),
    {
        QemuCreateRequest {
            vmid,
            name: None,
            memory: None,
            cores: None,
            sockets: None,
            cpu: None,
            bios: None,
            ostype: None,
            agent: None,
            net0: None,
            scsi0: None,
            virtio0: None,
            machine: None,
            onboot: None,
            tags: None,
            extra: PveParams::new(),
        }
    }

    /// The parameters that this value puts on the wire: one entry for
    /// each field that is set, then the entries of `extra`, which win.
    pub open spec fn params(&self) -> Map<Seq<char>, Seq<char>> {
        let m = Map::<Seq<char>, Seq<char>>::empty();
        let m = m.insert("vmid"@, decimal(self.vmid as nat));
        let m = put_opt(m, "name"@, opt_view(self.name));
        let m = put_opt(m, "memory"@, opt_decimal_u32(self.memory));
        let m = put_opt(m, "cores"@, opt_decimal_u32(self.cores));
        let m = put_opt(m, "sockets"@, opt_decimal_u32(self.sockets));
        let m = put_opt(m, "cpu"@, opt_view(self.cpu));
        let m = put_opt(
            m,
            "bios"@,
            match self.bios {
                Some(v) => Some(v.text()),
                None => None,
            },
        );
        let m = put_opt(
            m,
            "ostype"@,
            match self.ostype {
                Some(v) => Some(v.text()),
                None => None,
            },
        );
        let m = put_opt(m, "agent"@, opt_view(self.agent));
        let m = put_opt(m, "net0"@, opt_view(self.net0));
        let m = put_opt(m, "scsi0"@, opt_view(self.scsi0));
        let m = put_opt(m, "virtio0"@, opt_view(self.virtio0));
        let m = put_opt(m, "machine"@, opt_view(self.machine));
        let m = put_opt(m, "onboot"@, opt_flag(self.onboot));
        let m = put_opt(m, "tags"@, opt_view(self.tags));
        m.union_prefer_right(self.extra@)
    }

    /// Writes the fields that are set into a parameter map.
    pub fn to_params(&self) -> (r: PveParams)
        ensures
            r@ == self.params(),
    {
        let mut params = PveParams::new();
        params.insert_number("vmid", self.vmid as u64);
        params.insert_opt("name", opt_str(&self.name));
        params.insert_opt_u32("memory", self.memory);
        params.insert_opt_u32("cores", self.cores);
        params.insert_opt_u32("sockets", self.sockets);
        params.insert_opt("cpu", opt_str(&self.cpu));
        params.insert_opt(
            "bios",
            match self.bios {
                Some(v) => Some(v.as_str()),
                None => None,
            },
        );
        params.insert_opt(
            "ostype",
            match self.ostype {
                Some(v) => Some(v.as_str()),
                None => None,
            },
        );
        params.insert_opt("agent", opt_str(&self.agent));
        params.insert_opt("net0", opt_str(&self.net0));
        params.insert_opt("scsi0", opt_str(&self.scsi0));
        params.insert_opt("virtio0", opt_str(&self.virtio0));
        params.insert_opt("machine", opt_str(&self.machine));
        params.insert_opt_bool("onboot", self.onboot);
        params.insert_opt("tags", opt_str(&self.tags));
        params.extend(&self.extra);
        params
    }
}

/// Which configuration of a virtual machine to read.
#[derive(Debug, Clone)]
pub struct QemuConfigQuery {
    pub current: Option<bool>,
    pub snapshot: Option<String>,
}

impl QemuConfigQuery {
    /// The parameters that this value puts on the wire: one entry for
    /// each field that is set.
    pub open spec fn params(&self) -> Map<Seq<char>, Seq<char>> {
        let m = Map::<Seq<char>, Seq<char>>::empty();
        let m = put_opt(m, "current"@, opt_flag(self.current));
        put_opt(m, "snapshot"@, opt_view(self.snapshot))
    }

    /// Writes the fields that are set into a parameter map.
    pub fn to_params(&self) -> (r: PveParams)
        ensures
            r@ == self.params(),
    {
        let mut params = PveParams::new();
        params.insert_opt_bool("current", self.current);
        params.insert_opt("snapshot", opt_str(&self.snapshot));
        params
    }
}

impl Default for QemuConfigQuery {
    fn default() -> (r: Self)
        ensures
            r.current is None,
            r.snapshot is None,
    {
        QemuConfigQuery {
            current: None,
            snapshot: None,
        }
    }
}

/// Changes to the configuration of a virtual machine.
#[derive(Debug, Clone)]
pub struct QemuSetConfigRequest {
    pub delete: Option<String>,
    pub digest: Option<String>,
    pub memory: Option<u32>,
    pub cores: Option<u32>,
    pub sockets: Option<u32>,
    pub cpu: Option<String>,
    pub agent: Option<String>,
    pub boot: Option<String>,
    pub bootdisk: Option<String>,
    pub net0: Option<String>,
    pub scsi0: Option<String>,
    pub virtio0: Option<String>,
    pub hotplug: Option<String>,
    pub onboot: Option<bool>,
    pub tags: Option<String>,
    pub extra: PveParams,
}

impl QemuSetConfigRequest {
    /// The parameters that this value puts on the wire: one entry for
    /// each field that is set, then the entries of `extra`, which win.
    pub open spec fn params(&self) -> Map<Seq<char>, Seq<char>> {
        let m = Map::<Seq<char>, Seq<char>>::empty();
        let m = put_opt(m, "delete"@, opt_view(self.delete));
        let m = put_opt(m, "digest"@, opt_view(self.digest));
        let m = put_opt(m, "memory"@, opt_decimal_u32(self.memory));
        let m = put_opt(m, "cores"@, opt_decimal_u32(self.cores));
        let m = put_opt(m, "sockets"@, opt_decimal_u32(self.sockets));
        let m = put_opt(m, "cpu"@, opt_view(self.cpu));
        let m = put_opt(m, "agent"@, opt_view(self.agent));
        let m = put_opt(m, "boot"@, opt_view(self.boot));
        let m = put_opt(m, "bootdisk"@, opt_view(self.bootdisk));
        let m = put_opt(m, "net0"@, opt_view(self.net0));
        let m = put_opt(m, "scsi0"@, opt_view(self.scsi0));
        let m = put_opt(m, "virtio0"@, opt_view(self.virtio0));
        let m = put_opt(m, "hotplug"@, opt_view(self.hotplug));
        let m = put_opt(m, "onboot"@, opt_flag(self.onboot));
        let m = put_opt(m, "tags"@, opt_view(self.tags));
        m.union_prefer_right(self.extra@)
    }

    /// Writes the fields that are set into a parameter map.
    pub fn to_params(&self) -> (r: PveParams)
        ensures
            r@ == self.params(),
    {
        let mut params = PveParams::new();
        params.insert_opt("delete", opt_str(&self.delete));
        params.insert_opt("digest", opt_str(&self.digest));
        params.insert_opt_u32("memory", self.memory);
        params.insert_opt_u32("cores", self.cores);
        params.insert_opt_u32("sockets", self.sockets);
        params.insert_opt("cpu", opt_str(&self.cpu));
        params.insert_opt("agent", opt_str(&self.agent));
        params.insert_opt("boot", opt_str(&self.boot));
        params.insert_opt("bootdisk", opt_str(&self.bootdisk));
        params.insert_opt("net0", opt_str(&self.net0));
        params.insert_opt("scsi0", opt_str(&self.scsi0));
        params.insert_opt("virtio0", opt_str(&self.virtio0));
        params.insert_opt("hotplug", opt_str(&self.hotplug));
        params.insert_opt_bool("onboot", self.onboot);
        params.insert_opt("tags", opt_str(&self.tags));
        params.extend(&self.extra);
        params
    }
}

impl Default for QemuSetConfigRequest {
    fn default() -> (r: Self)
        ensures
            r.delete is None,
            r.digest is None,
            r.memory is None,
            r.cores is None,
            r.sockets is None,
            r.cpu is None,
            r.agent is None,
            r.boot is None,
            r.bootdisk is None,
            r.net0 is None,
            r.scsi0 is None,
            r.virtio0 is None,
            r.hotplug is None,
            r.onboot is None,
            r.tags is None,
            r.extra@ == Map::<Seq<char>, Seq<char>>::empty(),
    {
        QemuSetConfigRequest {
            delete: None,
            digest: None,
            memory: None,
            cores: None,
            sockets: None,
            cpu: None,
            agent: None,
            boot: None,
            bootdisk: None,
            net0: None,
            scsi0: None,
            virtio0: None,
            hotplug: None,
            onboot: None,
            tags: None,
            extra: PveParams::new(),
        }
    }
}

/// Options of a virtual machine power action.
#[derive(Debug, Clone)]
pub struct QemuActionRequest {
    pub timeout: Option<u64>,
    pub skiplock: Option<bool>,
    pub force_stop: Option<bool>,
    pub keep_active: Option<bool>,
    pub overrule_shutdown: Option<bool>,
    pub todisk: Option<bool>,
    pub statestorage: Option<String>,
    pub nocheck: Option<bool>,
    pub migration_network: Option<String>,
    pub targetstorage: Option<String>,
    pub extra: PveParams,
}

impl QemuActionRequest {
    /// The parameters that this value puts on the wire: one entry for
    /// each field that is set, then the entries of `extra`, which win.
    pub open spec fn params(&self) -> Map<Seq<char>, Seq<char>> {
        let m = Map::<Seq<char>, Seq<char>>::empty();
        let m = put_opt(m, "timeout"@, opt_decimal_u64(self.timeout));
        let m = put_opt(m, "skiplock"@, opt_flag(self.skiplock));
        let m = put_opt(m, "forceStop"@, opt_flag(self.force_stop));
        let m = put_opt(m, "keepActive"@, opt_flag(self.keep_active));
        let m = put_opt(m, "overrule-shutdown"@, opt_flag(self.overrule_shutdown));
        let m = put_opt(m, "todisk"@, opt_flag(self.todisk));
        let m = put_opt(m, "nocheck"@, opt_flag(self.nocheck));
        let m = put_opt(m, "statestorage"@, opt_view(self.statestorage));
        let m = put_opt(m, "migration_network"@, opt_view(self.migration_network));
        let m = put_opt(m, "targetstorage"@, opt_view(self.targetstorage));
        m.union_prefer_right(self.extra@)
    }

    /// Writes the fields that are set into a parameter map.
    pub fn to_params(&self) -> (r: PveParams)
        ensures
            r@ == self.params(),
    {
        let mut params = PveParams::new();
        params.insert_opt_u64("timeout", self.timeout);
        params.insert_opt_bool("skiplock", self.skiplock);
        params.insert_opt_bool("forceStop", self.force_stop);
        params.insert_opt_bool("keepActive", self.keep_active);
        params.insert_opt_bool("overrule-shutdown", self.overrule_shutdown);
        params.insert_opt_bool("todisk", self.todisk);
        params.insert_opt_bool("nocheck", self.nocheck);
        params.insert_opt("statestorage", opt_str(&self.statestorage));
        params.insert_opt("migration_network", opt_str(&self.migration_network));
        params.insert_opt("targetstorage", opt_str(&self.targetstorage));
        params.extend(&self.extra);
        params
    }
}

impl Default for QemuActionRequest {
    fn default() -> (r: Self)
        ensures
            r.timeout is None,
            r.skiplock is None,
            r.force_stop is None,
            r.keep_active is None,
            r.overrule_shutdown is None,
            r.todisk is None,
            r.statestorage is None,
            r.nocheck is None,
            r.migration_network is None,
            r.targetstorage is None,
            r.extra@ == Map::<Seq<char>, Seq<char>>::empty(),
    {
        QemuActionRequest {
            timeout: None,
            skiplock: None,
            force_stop: None,
            keep_active: None,
            overrule_shutdown: None,
            todisk: None,
            statestorage: None,
            nocheck: None,
            migration_network: None,
            targetstorage: None,
            extra: PveParams::new(),
        }
    }
}

/// A new virtual machine snapshot.
#[derive(Debug, Clone)]
pub struct QemuSnapshotCreateRequest {
    pub snapname: String,
    pub description: Option<String>,
    pub vmstate: Option<bool>,
}

impl QemuSnapshotCreateRequest {
    /// A value with `snapname` given and everything else left out.
    pub fn new(snapname: &str) -> (r: Self)
        ensures
            r.snapname@ == snapname@,
            r.description is None,
            r.vmstate is None,
    {
        QemuSnapshotCreateRequest {
            snapname: String::from_str(snapname),
            description: None,
            vmstate: None,
        }
    }

    /// The parameters that this value puts on the wire: one entry for
    /// each field that is set.
    pub open spec fn params(&self) -> Map<Seq<char>, Seq<char>> {
        let m = Map::<Seq<char>, Seq<char>>::empty();
        let m = m.insert("snapname"@, self.snapname@);
        let m = put_opt(m, "description"@, opt_view(self.description));
        put_opt(m, "vmstate"@, opt_flag(self.vmstate))
    }

    /// Writes the fields that are set into a parameter map.
    pub fn to_params(&self) -> (r: PveParams)
        ensures
            r@ == self.params(),
    {
        let mut params = PveParams::new();
        params.insert("snapname", self.snapname.as_str());
        params.insert_opt("description", opt_str(&self.description));
        params.insert_opt_bool("vmstate", self.vmstate);
        params
    }
}

/// A rollback of a virtual machine to a snapshot.
#[derive(Debug, Clone)]
pub struct QemuSnapshotRollbackRequest {
    pub snapname: String,
    pub start: Option<bool>,
}

impl QemuSnapshotRollbackRequest {
    /// A value with `snapname` given and everything else left out.
    pub fn new(snapname: &str) -> (r: Self)
        ensures
            r.snapname@ == snapname@,
            r.start is None,
    {
        QemuSnapshotRollbackRequest {
            snapname: String::from_str(snapname),
            start: None,
        }
    }

    /// The parameters that this value puts on the wire: one entry for
    /// each field that is set.
    pub open spec fn params(&self) -> Map<Seq<char>, Seq<char>> {
        let m = Map::<Seq<char>, Seq<char>>::empty();
        put_opt(m, "start"@, opt_flag(self.start))
    }

    /// Writes the fields that are set into a parameter map.
    pub fn to_params(&self) -> (r: PveParams)
        ensures
            r@ == self.params(),
    {
        let mut params = PveParams::new();
        params.insert_opt_bool("start", self.start);
        params
    }
}

/// A clone of a virtual machine.
#[derive(Debug, Clone)]
pub struct QemuCloneRequest {
    pub newid: u32,
    pub name: Option<String>,
    pub target: Option<String>,
    pub storage: Option<String>,
    pub full: Option<bool>,
    pub pool: Option<String>,
    pub snapname: Option<String>,
    pub bwlimit: Option<u64>,
    pub format: Option<String>,
    pub description: Option<String>,
    pub extra: PveParams,
}

impl QemuCloneRequest {
    /// A value with `newid` given and everything else left out.
    pub fn new(newid: u32) -> (r: Self)
        ensures
            r.newid == newid,
            r.name is None,
            r.target is None,
            r.storage is None,
            r.full is None,
            r.pool is None,
            r.snapname is None,
            r.bwlimit is None,
            r.format is None,
            r.description is None,
            r.extra@ == Map::<Seq<char>, Seq<char>>::empty(),
    {
        QemuCloneRequest {
            newid,
            name: None,
            target: None,
            storage: None,
            full: None,
            pool: None,
            snapname: None,
            bwlimit: None,
            format: None,
            description: None,
            extra: PveParams::new(),
        }
    }

    /// The parameters that this value puts on the wire: one entry for
    /// each field that is set, then the entries of `extra`, which win.
    pub open spec fn params(&self) -> Map<Seq<char>, Seq<char>> {
        let m = Map::<Seq<char>, Seq<char>>::empty();
        let m = m.insert("newid"@, decimal(self.newid as nat));
        let m = put_opt(m, "name"@, opt_view(self.name));
        let m = put_opt(m, "target"@, opt_view(self.target));
        let m = put_opt(m, "storage"@, opt_view(self.storage));
        let m = put_opt(m, "full"@, opt_flag(self.full));
        let m = put_opt(m, "pool"@, opt_view(self.pool));
        let m = put_opt(m, "snapname"@, opt_view(self.snapname));
        let m = put_opt(m, "bwlimit"@, opt_decimal_u64(self.bwlimit));
        let m = put_opt(m, "format"@, opt_view(self.format));
        let m = put_opt(m, "description"@, opt_view(self.description));
        m.union_prefer_right(self.extra@)
    }

    /// Writes the fields that are set into a parameter map.
    pub fn to_params(&self) -> (r: PveParams)
        ensures
            r@ == self.params(),
    {
        let mut params = PveParams::new();
        params.insert_number("newid", self.newid as u64);
        params.insert_opt("name", opt_str(&self.name));
        params.insert_opt("target", opt_str(&self.target));
        params.insert_opt("storage", opt_str(&self.storage));
        params.insert_opt_bool("full", self.full);
        params.insert_opt("pool", opt_str(&self.pool));
        params.insert_opt("snapname", opt_str(&self.snapname));
        params.insert_opt_u64("bwlimit", self.bwlimit);
        params.insert_opt("format", opt_str(&self.format));
        params.insert_opt("description", opt_str(&self.description));
        params.extend(&self.extra);
        params
    }
}

/// A migration of a virtual machine to another node.
#[derive(Debug, Clone)]
pub struct QemuMigrateRequest {
    pub target: String,
    pub online: Option<bool>,
    pub with_local_disks: Option<bool>,
    pub targetstorage: Option<String>,
    pub migration_network: Option<String>,
    pub migration_type: Option<String>,
    pub bwlimit: Option<u64>,
    pub force: Option<bool>,
    pub with_conntrack_state: Option<bool>,
    pub extra: PveParams,
}

impl QemuMigrateRequest {
    /// A value with `target` given and everything else left out.
    pub fn new(target: &str) -> (r: Self)
        ensures
            r.target@ == target@,
            r.online is None,
            r.with_local_disks is None,
            r.targetstorage is None,
            r.migration_network is None,
            r.migration_type is None,
            r.bwlimit is None,
            r.force is None,
            r.with_conntrack_state is None,
            r.extra@ == Map::<Seq<char>, Seq<char>>::empty(),
    {
        QemuMigrateRequest {
            target: String::from_str(target),
            online: None,
            with_local_disks: None,
            targetstorage: None,
            migration_network: None,
            migration_type: None,
            bwlimit: None,
            force: None,
            with_conntrack_state: None,
            extra: PveParams::new(),
        }
    }

    /// The parameters that this value puts on the wire: one entry for
    /// each field that is set, then the entries of `extra`, which win.
    pub open spec fn params(&self) -> Map<Seq<char>, Seq<char>> {
        let m = Map::<Seq<char>, Seq<char>>::empty();
        let m = m.insert("target"@, self.target@);
        let m = put_opt(m, "online"@, opt_flag(self.online));
        let m = put_opt(m, "with-local-disks"@, opt_flag(self.with_local_disks));
        let m = put_opt(m, "force"@, opt_flag(self.force));
        let m = put_opt(m, "with-conntrack-state"@, opt_flag(self.with_conntrack_state));
        let m = put_opt(m, "targetstorage"@, opt_view(self.targetstorage));
        let m = put_opt(m, "migration_network"@, opt_view(self.migration_network));
        let m = put_opt(m, "migration_type"@, opt_view(self.migration_type));
        let m = put_opt(m, "bwlimit"@, opt_decimal_u64(self.bwlimit));
        m.union_prefer_right(self.extra@)
    }

    /// Writes the fields that are set into a parameter map.
    pub fn to_params(&self) -> (r: PveParams)
        ensures
            r@ == self.params(),
    {
        let mut params = PveParams::new();
        params.insert("target", self.target.as_str());
        params.insert_opt_bool("online", self.online);
        params.insert_opt_bool("with-local-disks", self.with_local_disks);
        params.insert_opt_bool("force", self.force);
        params.insert_opt_bool("with-conntrack-state", self.with_conntrack_state);
        params.insert_opt("targetstorage", opt_str(&self.targetstorage));
        params.insert_opt("migration_network", opt_str(&self.migration_network));
        params.insert_opt("migration_type", opt_str(&self.migration_type));
        params.insert_opt_u64("bwlimit", self.bwlimit);
        params.extend(&self.extra);
        params
    }
}

} // verus!
