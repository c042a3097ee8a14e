//! Requests for one node.

use crate::auth::HttpMethod;
use crate::client::{ApiRequest, PveClient};
use crate::error::{result_view, PveError};
use crate::params::{put_opt, PveParams};
use crate::text::opt_str_view;
use crate::transport::{percent_encoded, ApiPath};
use crate::types::node::{NodeNetworkQuery, NodeTasksQuery};
use vstd::prelude::*;

verus! {

impl PveClient {
    /// The request `GET /nodes/{node}/status`.
    pub fn node_status(&self, node: &str) -> (r: Result<ApiRequest, PveError>)
        ensures
            result_view(r) == self.request_outcome(
                HttpMethod::Get,
                "/nodes/"@ + percent_encoded(node@) + "/status"@,
                None,
                None,
            ),
    {
        let path = ApiPath::new("/nodes/").segment(node).text("/status");
        self.send(HttpMethod::Get, path.as_str(), None, None)
    }

    /// The request `GET /nodes/{node}/tasks`, with `query` as its query.
    pub fn node_tasks(&self, node: &str, query: &PveParams) -> (r: Result<ApiRequest, PveError>)
        ensures
            result_view(r) == self.request_outcome(
                HttpMethod::Get,
                "/nodes/"@ + percent_encoded(node@) + "/tasks"@,
                Some(query@),
                None,
            ),
    {
        let path = ApiPath::new("/nodes/").segment(node).text("/tasks");
        self.send(HttpMethod::Get, path.as_str(), Some(query), None)
    }

    /// The request `GET /nodes/{node}/tasks`, with the parameters of `query` as
    /// its query.
    pub fn node_tasks_with(
        &self,
        node: &str,
        query: &NodeTasksQuery,
    ) -> (r: Result<ApiRequest, PveError>)
        ensures
            result_view(r) == self.request_outcome(
                HttpMethod::Get,
                "/nodes/"@ + percent_encoded(node@) + "/tasks"@,
                Some(query.params()),
                None,
            ),
    {
        let params = query.to_params();
        self.node_tasks(node, &params)
    }

    /// The request `GET /nodes/{node}/network`, with `type` as its query.
    pub fn node_network(
        &self,
        node: &str,
        interface_type: Option<&str>,
    ) -> (r: Result<ApiRequest, PveError>)
        ensures
            result_view(r) == self.request_outcome(
                HttpMethod::Get,
                "/nodes/"@ + percent_encoded(node@) + "/network"@,
                Some(
                    put_opt(
                        Map::<Seq<char>,
                        Seq<char>>::empty(),
                        "type"@,
                        opt_str_view(interface_type),
                    ),
                ),
                None,
            ),
    {
        let mut query = PveParams::new();
        query.insert_opt("type", interface_type);
        let path = ApiPath::new("/nodes/").segment(node).text("/network");
        self.send(HttpMethod::Get, path.as_str(), Some(&query), None)
    }

    /// The request `GET /nodes/{node}/network`, with the parameters of `query` as
    /// its query.
    pub fn node_network_with(
        &self,
        node: &str,
        query: &NodeNetworkQuery,
    ) -> (r: Result<ApiRequest, PveError>)
        ensures
            result_view(r) == self.request_outcome(
                HttpMethod::Get,
                "/nodes/"@ + percent_encoded(node@) + "/network"@,
                Some(query.params()),
                None,
            ),
    {
        let params = query.to_params();
        let path = ApiPath::new("/nodes/").segment(node).text("/network");
        self.send(HttpMethod::Get, path.as_str(), Some(&params), None)
    }
}

} // verus!
