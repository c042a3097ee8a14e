//! Cluster-wide queries.

use crate::params::{put_opt, PveParams};
use vstd::prelude::*;

verus! {

/// The kind of a cluster resource.
#[derive(Debug, Clone, Copy, PartialEq, Eq, Structural)]
pub enum ClusterResourceType {
    Vm,
    Storage,
    Node,
    Sdn,
}

impl ClusterResourceType {
    /// The word the API uses for this value.
    pub open spec fn text(self) -> Seq<char> {
        match self {
            ClusterResourceType::Vm => "vm"@,
            ClusterResourceType::Storage => "storage"@,
            ClusterResourceType::Node => "node"@,
            ClusterResourceType::Sdn => "sdn"@,
        }
    }

    /// The word the API uses for this value.
    pub fn as_str(self) -> (r: &'static str)
        ensures
            r@ == self.text(),
    {
        match self {
            ClusterResourceType::Vm => "vm",
            ClusterResourceType::Storage => "storage",
            ClusterResourceType::Node => "node",
            ClusterResourceType::Sdn => "sdn",
        }
    }
}

/// Which cluster resources to list.
#[derive(Debug, Clone)]
pub struct ClusterResourcesQuery {
    pub resource_type: Option<ClusterResourceType>,
}

impl ClusterResourcesQuery {
    /// A query that asks for everything.
    pub fn new() -> (r: Self)
        ensures
            r.resource_type is None,
    {
        ClusterResourcesQuery { resource_type: None }
    }

    /// A value with every field given.
    pub fn all(resource_type: Option<ClusterResourceType>) -> (r: Self)
        ensures
            r.resource_type == resource_type,
    {
        ClusterResourcesQuery {
            resource_type,
        }
    }

    /// This value with `resource_type` set.
    pub fn resource_type(self, resource_type: ClusterResourceType) -> (r: Self)
        ensures
            r == (ClusterResourcesQuery { resource_type: Some(resource_type), ..self }),
    {
        ClusterResourcesQuery { resource_type: Some(resource_type), ..self }
    }

    /// The parameters that this value puts on the wire: one entry for
    /// each field that is set.
    pub open spec fn params(&self) -> Map<Seq<char>, Seq<char>> {
        let m = Map::<Seq<char>, Seq<char>>::empty();
        put_opt(
            m,
            "type"@,
            match self.resource_type {
                Some(v) => Some(v.text()),
                None => None,
            },
        )
    }

    /// Writes the fields that are set into a parameter map.
    pub fn to_params(&self) -> (r: PveParams)
        ensures
            r@ == self.params(),
    {
        let mut params = PveParams::new();
        params.insert_opt(
            "type",
            match self.resource_type {
                Some(v) => Some(v.as_str()),
                None => None,
            },
        );
        params
    }
}

impl Default for ClusterResourcesQuery {
    fn default() -> (r: Self)
        ensures
            r.resource_type is None,
    {
        ClusterResourcesQuery {
            resource_type: None,
        }
    }
}

} // verus!
