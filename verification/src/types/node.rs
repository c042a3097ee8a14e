//! Per-node queries.

use crate::params::{opt_decimal_u32, opt_decimal_u64, opt_flag, put_opt, PveParams};
use crate::text::{opt_str, opt_view};
use vstd::prelude::*;

verus! {

/// Where listed tasks come from.
#[derive(Debug, Clone, Copy, PartialEq, Eq, Structural)]
pub enum TaskSource {
    Archive,
    Active,
    All,
}

impl TaskSource {
    /// The word the API uses for this value.
    pub open spec fn text(self) -> Seq<char> {
        match self {
            TaskSource::Archive => "archive"@,
            TaskSource::Active => "active"@,
            TaskSource::All => "all"@,
        }
    }

    /// The word the API uses for this value.
    pub fn as_str(self) -> (r: &'static str)
        ensures
            r@ == self.text(),
    {
        match self {
            TaskSource::Archive => "archive",
            TaskSource::Active => "active",
            TaskSource::All => "all",
        }
    }
}

/// Which tasks of a node to list.
#[derive(Debug, Clone)]
pub struct NodeTasksQuery {
    pub errors: Option<bool>,
    pub limit: Option<u64>,
    pub since: Option<u64>,
    pub source: Option<TaskSource>,
    pub start: Option<u64>,
    pub statusfilter: Option<String>,
    pub typefilter: Option<String>,
    pub until: Option<u64>,
    pub userfilter: Option<String>,
    pub vmid: Option<u32>,
}

impl NodeTasksQuery {
    /// A value with every field given.
    pub fn all(
        errors: Option<bool>,
        limit: Option<u64>,
        since: Option<u64>,
        source: Option<TaskSource>,
        start: Option<u64>,
        statusfilter: Option<String>,
        typefilter: Option<String>,
        until: Option<u64>,
        userfilter: Option<String>,
        vmid: Option<u32>,
    ) -> (r: Self)
        ensures
            r.errors == errors,
            r.limit == limit,
            r.since == since,
            r.source == source,
            r.start == start,
            r.statusfilter == statusfilter,
            r.typefilter == typefilter,
            r.until == until,
            r.userfilter == userfilter,
            r.vmid == vmid,
    {
        NodeTasksQuery {
            errors,
            limit,
            since,
            source,
            start,
            statusfilter,
            typefilter,
            until,
            userfilter,
            vmid,
        }
    }

    /// This value with `errors` set.
    pub fn errors(self, errors: bool) -> (r: Self)
        ensures
            r == (NodeTasksQuery { errors: Some(errors), ..self }),
    {
        NodeTasksQuery { errors: Some(errors), ..self }
    }

    /// This value with `limit` set.
    pub fn limit(self, limit: u64) -> (r: Self)
        ensures
            r == (NodeTasksQuery { limit: Some(limit), ..self }),
    {
        NodeTasksQuery { limit: Some(limit), ..self }
    }

    /// This value with `since` set.
    pub fn since(self, since: u64) -> (r: Self)
        ensures
            r == (NodeTasksQuery { since: Some(since), ..self }),
    {
        NodeTasksQuery { since: Some(since), ..self }
    }

    /// This value with `source` set.
    pub fn source(self, source: TaskSource) -> (r: Self)
        ensures
            r == (NodeTasksQuery { source: Some(source), ..self }),
    {
        NodeTasksQuery { source: Some(source), ..self }
    }

    /// This value with `start` set.
    pub fn start(self, start: u64) -> (r: Self)
        ensures
            r == (NodeTasksQuery { start: Some(start), ..self }),
    {
        NodeTasksQuery { start: Some(start), ..self }
    }

    /// This value with `statusfilter` set.
    pub fn statusfilter(self, statusfilter: &str) -> (r: Self)
        ensures
            opt_view(r.statusfilter) == Some(statusfilter@),
            r == (NodeTasksQuery { statusfilter: r.statusfilter, ..self }),
    {
        NodeTasksQuery { statusfilter: Some(String::from_str(statusfilter)), ..self }
    }

    /// This value with `typefilter` set.
    pub fn typefilter(self, typefilter: &str) -> (r: Self)
        ensures
            opt_view(r.typefilter) == Some(typefilter@),
            r == (NodeTasksQuery { typefilter: r.typefilter, ..self }),
    {
        NodeTasksQuery { typefilter: Some(String::from_str(typefilter)), ..self }
    }

    /// This value with `until` set.
    pub fn until(self, until: u64) -> (r: Self)
        ensures
            r == (NodeTasksQuery { until: Some(until), ..self }),
    {
        NodeTasksQuery { until: Some(until), ..self }
    }

    /// This value with `userfilter` set.
    pub fn userfilter(self, userfilter: &str) -> (r: Self)
        ensures
            opt_view(r.userfilter) == Some(userfilter@),
            r == (NodeTasksQuery { userfilter: r.userfilter, ..self }),
    {
        NodeTasksQuery { userfilter: Some(String::from_str(userfilter)), ..self }
    }

    /// This value with `vmid` set.
    pub fn vmid(self, vmid: u32) -> (r: Self)
        ensures
            r == (NodeTasksQuery { vmid: Some(vmid), ..self }),
    {
        NodeTasksQuery { vmid: Some(vmid), ..self }
    }

    /// The parameters that this value puts on the wire: one entry for
    /// each field that is set.
    pub open spec fn params(&self) -> Map<Seq<char>, Seq<char>> {
        let m = Map::<Seq<char>, Seq<char>>::empty();
        let m = put_opt(m, "errors"@, opt_flag(self.errors));
        let m = put_opt(m, "limit"@, opt_decimal_u64(self.limit));
        let m = put_opt(m, "since"@, opt_decimal_u64(self.since));
        let m = put_opt(
            m,
            "source"@,
            match self.source {
                Some(v) => Some(v.text()),
                None => None,
            },
        );
        let m = put_opt(m, "start"@, opt_decimal_u64(self.start));
        let m = put_opt(m, "statusfilter"@, opt_view(self.statusfilter));
        let m = put_opt(m, "typefilter"@, opt_view(self.typefilter));
        let m = put_opt(m, "until"@, opt_decimal_u64(self.until));
        let m = put_opt(m, "userfilter"@, opt_view(self.userfilter));
        put_opt(m, "vmid"@, opt_decimal_u32(self.vmid))
    }

    /// Writes the fields that are set into a parameter map.
    pub fn to_params(&self) -> (r: PveParams)
        ensures
            r@ == self.params(),
    {
        let mut params = PveParams::new();
        params.insert_opt_bool("errors", self.errors);
        params.insert_opt_u64("limit", self.limit);
        params.insert_opt_u64("since", self.since);
        params.insert_opt(
            "source",
            match self.source {
                Some(v) => Some(v.as_str()),
                None => None,
            },
        );
        params.insert_opt_u64("start", self.start);
        params.insert_opt("statusfilter", opt_str(&self.statusfilter));
        params.insert_opt("typefilter", opt_str(&self.typefilter));
        params.insert_opt_u64("until", self.until);
        params.insert_opt("userfilter", opt_str(&self.userfilter));
        params.insert_opt_u32("vmid", self.vmid);
        params
    }
}

impl Default for NodeTasksQuery {
    fn default() -> (r: Self)
        ensures
            r.errors is None,
            r.limit is None,
            r.since is None,
            r.source is None,
            r.start is None,
            r.statusfilter is None,
            r.typefilter is None,
            r.until is None,
            r.userfilter is None,
            r.vmid is None,
    {
        NodeTasksQuery {
            errors: None,
            limit: None,
            since: None,
            source: None,
            start: None,
            statusfilter: None,
            typefilter: None,
            until: None,
            userfilter: None,
            vmid: None,
        }
    }
}

/// Which network interfaces of a node to list.
#[derive(Debug, Clone)]
pub struct NodeNetworkQuery {
    pub interface_type: Option<String>,
}

impl NodeNetworkQuery {
    /// A query that asks for everything.
    pub fn new() -> (r: Self)
        ensures
            r.interface_type is None,
    {
        NodeNetworkQuery { interface_type: None }
    }

    /// A value with every field given.
    pub fn all(interface_type: Option<String>) -> (r: Self)
        ensures
            r.interface_type == interface_type,
    {
        NodeNetworkQuery {
            interface_type,
        }
    }

    /// This value with `interface_type` set.
    pub fn interface_type(self, interface_type: &str) -> (r: Self)
        ensures
            opt_view(r.interface_type) == Some(interface_type@),
            r == (NodeNetworkQuery { interface_type: r.interface_type, ..self }),
    {
        NodeNetworkQuery { interface_type: Some(String::from_str(interface_type)), ..self }
    }

    /// The parameters that this value puts on the wire: one entry for
    /// each field that is set.
    pub open spec fn params(&self) -> Map<Seq<char>, Seq<char>> {
        let m = Map::<Seq<char>, Seq<char>>::empty();
        put_opt(m, "type"@, opt_view(self.interface_type))
    }

    /// Writes the fields that are set into a parameter map.
    pub fn to_params(&self) -> (r: PveParams)
        ensures
            r@ == self.params(),
    {
        let mut params = PveParams::new();
        params.insert_opt("type", opt_str(&self.interface_type));
        params
    }
}

impl Default for NodeNetworkQuery {
    fn default() -> (r: Self)
        ensures
            r.interface_type is None,
    {
        NodeNetworkQuery {
            interface_type: None,
        }
    }
}

} // verus!
