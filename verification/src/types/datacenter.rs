//! Datacenter options.

use crate::params::{opt_decimal_u32, put_opt, PveParams};
use crate::text::{opt_str, opt_view};
use vstd::prelude::*;

verus! {

/// Changes to the datacenter options.
#[derive(Debug, Clone)]
pub struct DatacenterConfigUpdateRequest {
    pub keyboard: Option<String>,
    pub language: Option<String>,
    pub migration: Option<String>,
    pub console: Option<String>,
    pub email_from: Option<String>,
    pub max_workers: Option<u32>,
    pub next_id: Option<u32>,
    pub extra: PveParams,
}

impl DatacenterConfigUpdateRequest {
    /// The parameters that this value puts on the wire: one entry for
    /// each field that is set, then the entries of `extra`, which win.
    pub open spec fn params(&self) -> Map<Seq<char>, Seq<char>> {
        let m = Map::<Seq<char>, Seq<char>>::empty();
        let m = put_opt(m, "keyboard"@, opt_view(self.keyboard));
        let m = put_opt(m, "language"@, opt_view(self.language));
        let m = put_opt(m, "migration"@, opt_view(self.migration));
        let m = put_opt(m, "console"@, opt_view(self.console));
        let m = put_opt(m, "email-from"@, opt_view(self.email_from));
        let m = put_opt(m, "max_workers"@, opt_decimal_u32(self.max_workers));
        let m = put_opt(m, "next-id"@, opt_decimal_u32(self.next_id));
        m.union_prefer_right(self.extra@)
    }

    /// Writes the fields that are set into a parameter map.
    pub fn to_params(&self) -> (r: PveParams)
        ensures
            r@ == self.params(),
    {
        let mut params = PveParams::new();
        params.insert_opt("keyboard", opt_str(&self.keyboard));
        params.insert_opt("language", opt_str(&self.language));
        params.insert_opt("migration", opt_str(&self.migration));
        params.insert_opt("console", opt_str(&self.console));
        params.insert_opt("email-from", opt_str(&self.email_from));
        params.insert_opt_u32("max_workers", self.max_workers);
        params.insert_opt_u32("next-id", self.next_id);
        params.extend(&self.extra);
        params
    }
}

impl Default for DatacenterConfigUpdateRequest {
    fn default() -> (r: Self)
        ensures
            r.keyboard is None,
            r.language is None,
            r.migration is None,
            r.console is None,
            r.email_from is None,
            r.max_workers is None,
            r.next_id is None,
            r.extra@ == Map::<Seq<char>, Seq<char>>::empty(),
    {
        DatacenterConfigUpdateRequest {
            keyboard: None,
            language: None,
            migration: None,
            console: None,
            email_from: None,
            max_workers: None,
            next_id: None,
            extra: PveParams::new(),
        }
    }
}

} // verus!
