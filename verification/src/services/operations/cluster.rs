//! Requests for cluster-wide information.

use crate::auth::HttpMethod;
use crate::client::{ApiRequest, PveClient};
use crate::error::{result_view, PveError};
use crate::params::{opt_decimal_u32, put_opt, PveParams};
use crate::text::opt_str_view;
use crate::types::cluster::ClusterResourcesQuery;
use vstd::prelude::*;

verus! {

impl PveClient {
    /// The request `GET /nodes`.
    pub fn nodes(&self) -> (r: Result<ApiRequest, PveError>)
        ensures
            result_view(r) == self.request_outcome(HttpMethod::Get, "/nodes"@, None, None),
    {
        self.send(HttpMethod::Get, "/nodes", None, None)
    }

    /// The request `GET /cluster/status`.
    pub fn cluster_status(&self) -> (r: Result<ApiRequest, PveError>)
        ensures
            result_view(r) == self.request_outcome(
                HttpMethod::Get,
                "/cluster/status"@,
                None,
                None,
            ),
    {
        self.send(HttpMethod::Get, "/cluster/status", None, None)
    }

    /// The request `GET /cluster/resources`, with `type` as its query.
    pub fn cluster_resources(
        &self,
        resource_type: Option<&str>,
    ) -> (r: Result<ApiRequest, PveError>)
        ensures
            result_view(r) == self.request_outcome(
                HttpMethod::Get,
                "/cluster/resources"@,
                Some(
                    put_opt(
                        Map::<Seq<char>,
                        Seq<char>>::empty(),
                        "type"@,
                        opt_str_view(resource_type),
                    ),
                ),
                None,
            ),
    {
        let mut query = PveParams::new();
        query.insert_opt("type", resource_type);
        self.send(HttpMethod::Get, "/cluster/resources", Some(&query), None)
    }

    /// The request `GET /cluster/resources`, with the parameters of `query` as
    /// its query.
    pub fn cluster_resources_with(
        &self,
        query: &ClusterResourcesQuery,
    ) -> (r: Result<ApiRequest, PveError>)
        ensures
            result_view(r) == self.request_outcome(
                HttpMethod::Get,
                "/cluster/resources"@,
                Some(query.params()),
                None,
            ),
    {
        let params = query.to_params();
        self.send(HttpMethod::Get, "/cluster/resources", Some(&params), None)
    }

    /// The request `GET /cluster/nextid`, with `vmid` as its query.
    pub fn cluster_next_id(&self, vmid: Option<u32>) -> (r: Result<ApiRequest, PveError>)
        ensures
            result_view(r) == self.request_outcome(
                HttpMethod::Get,
                "/cluster/nextid"@,
                Some(put_opt(Map::<Seq<char>, Seq<char>>::empty(), "vmid"@, opt_decimal_u32(vmid))),
                None,
            ),
    {
        let mut query = PveParams::new();
        query.insert_opt_u32("vmid", vmid);
        self.send(HttpMethod::Get, "/cluster/nextid", Some(&query), None)
    }
}

} // verus!
