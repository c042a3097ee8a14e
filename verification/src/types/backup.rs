//! Backup jobs.

use crate::params::{opt_decimal_u64, opt_flag, put_opt, PveParams};
use crate::text::{opt_str, opt_view};
use vstd::prelude::*;

verus! {

/// How a guest is treated while it is backed up.
#[derive(Debug, Clone, Copy, PartialEq, Eq, Structural)]
pub enum VzdumpMode {
    Snapshot,
    Suspend,
    Stop,
}

impl VzdumpMode {
    /// The word the API uses for this value.
    pub open spec fn text(self) -> Seq<char> {
        match self {
            VzdumpMode::Snapshot => "snapshot"@,
            VzdumpMode::Suspend => "suspend"@,
            VzdumpMode::Stop => "stop"@,
        }
    }

    /// The word the API uses for this value.
    pub fn as_str(self) -> (r: &'static str)
        ensures
            r@ == self.text(),
    {
        match self {
            VzdumpMode::Snapshot => "snapshot",
            VzdumpMode::Suspend => "suspend",
            VzdumpMode::Stop => "stop",
        }
    }
}

/// How a backup is compressed.
#[derive(Debug, Clone, Copy, PartialEq, Eq, Structural)]
pub enum VzdumpCompress {
    Off,
    Gzip,
    Lzo,
    Zstd,
}

impl VzdumpCompress {
    /// The word the API uses for this value.
    pub open spec fn text(self) -> Seq<char> {
        match self {
            VzdumpCompress::Off => "0"@,
            VzdumpCompress::Gzip => "gzip"@,
            VzdumpCompress::Lzo => "lzo"@,
            VzdumpCompress::Zstd => "zstd"@,
        }
    }

    /// The word the API uses for this value.
    pub fn as_str(self) -> (r: &'static str)
        ensures
            r@ == self.text(),
    {
        match self {
            VzdumpCompress::Off => "0",
            VzdumpCompress::Gzip => "gzip",
            VzdumpCompress::Lzo => "lzo",
            VzdumpCompress::Zstd => "zstd",
        }
    }
}

/// When a backup job sends mail.
#[derive(Debug, Clone, Copy, PartialEq, Eq, Structural)]
pub enum MailNotification {
    Always,
    Failure,
}

impl MailNotification {
    /// The word the API uses for this value.
    pub open spec fn text(self) -> Seq<char> {
        match self {
            MailNotification::Always => "always"@,
            MailNotification::Failure => "failure"@,
        }
    }

    /// The word the API uses for this value.
    pub fn as_str(self) -> (r: &'static str)
        ensures
            r@ == self.text(),
    {
        match self {
            MailNotification::Always => "always",
            MailNotification::Failure => "failure",
        }
    }
}

/// A backup job.
#[derive(Debug, Clone)]
pub struct VzdumpRequest {
    pub all: Option<bool>,
    pub vmid: Option<String>,
    pub mode: Option<VzdumpMode>,
    pub storage: Option<String>,
    pub compress: Option<VzdumpCompress>,
    pub mailnotification: Option<MailNotification>,
    pub mailto: Option<String>,
    pub notes_template: Option<String>,
    pub remove: Option<bool>,
    pub stopwait: Option<u64>,
    pub extra: PveParams,
}

impl VzdumpRequest {
    /// The parameters that this value puts on the wire: one entry for
    /// each field that is set, then the entries of `extra`, which win.
    pub open spec fn params(&self) -> Map<Seq<char>, Seq<char>> {
        let m = Map::<Seq<char>, Seq<char>>::empty();
        let m = put_opt(m, "all"@, opt_flag(self.all));
        let m = put_opt(m, "vmid"@, opt_view(self.vmid));
        let m = put_opt(
            m,
            "mode"@,
            match self.mode {
                Some(v) => Some(v.text()),
                None => None,
            },
        );
        let m = put_opt(m, "storage"@, opt_view(self.storage));
        let m = put_opt(
            m,
            "compress"@,
            match self.compress {
                Some(v) => Some(v.text()),
                None => None,
            },
        );
        let m = put_opt(
            m,
            "mailnotification"@,
            match self.mailnotification {
                Some(v) => Some(v.text()),
                None => None,
            },
        );
        let m = put_opt(m, "mailto"@, opt_view(self.mailto));
        let m = put_opt(m, "notes-template"@, opt_view(self.notes_template));
        let m = put_opt(m, "remove"@, opt_flag(self.remove));
        let m = put_opt(m, "stopwait"@, opt_decimal_u64(self.stopwait));
        m.union_prefer_right(self.extra@)
    }

    /// Writes the fields that are set into a parameter map.
    pub fn to_params(&self) -> (r: PveParams)
        ensures
            r@ == self.params(),
    {
        let mut params = PveParams::new();
        params.insert_opt_bool("all", self.all);
        params.insert_opt("vmid", opt_str(&self.vmid));
        params.insert_opt(
            "mode",
            match self.mode {
                Some(v) => Some(v.as_str()),
                None => None,
            },
        );
        params.insert_opt("storage", opt_str(&self.storage));
        params.insert_opt(
            "compress",
            match self.compress {
                Some(v) => Some(v.as_str()),
                None => None,
            },
        );
        params.insert_opt(
            "mailnotification",
            match self.mailnotification {
                Some(v) => Some(v.as_str()),
                None => None,
            },
        );
        params.insert_opt("mailto", opt_str(&self.mailto));
        params.insert_opt("notes-template", opt_str(&self.notes_template));
        params.insert_opt_bool("remove", self.remove);
        params.insert_opt_u64("stopwait", self.stopwait);
        params.extend(&self.extra);
        params
    }
}

impl Default for VzdumpRequest {
    fn default() -> (r: Self)
        ensures
            r.all is None,
            r.vmid is None,
            r.mode is None,
            r.storage is None,
            r.compress is None,
            r.mailnotification is None,
            r.mailto is None,
            r.notes_template is None,
            r.remove is None,
            r.stopwait is None,
            r.extra@ == Map::<Seq<char>, Seq<char>>::empty(),
    {
        VzdumpRequest {
            all: None,
            vmid: None,
            mode: None,
            storage: None,
            compress: None,
            mailnotification: None,
            mailto: None,
            notes_template: None,
            remove: None,
            stopwait: None,
            extra: PveParams::new(),
        }
    }
}

} // verus!
