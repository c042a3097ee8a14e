//! Requests for the datacenter options.

use crate::auth::HttpMethod;
use crate::client::{ApiRequest, PveClient};
use crate::error::{result_view, PveError};
use crate::params::PveParams;
use crate::types::datacenter::DatacenterConfigUpdateRequest;
use vstd::prelude::*;

verus! {

impl PveClient {
    /// The request `GET /cluster/options`.
    pub fn datacenter_config(&self) -> (r: Result<ApiRequest, PveError>)
        ensures
            result_view(r) == self.request_outcome(
                HttpMethod::Get,
                "/cluster/options"@,
                None,
                None,
            ),
    {
        self.send(HttpMethod::Get, "/cluster/options", None, None)
    }

    /// The request `PUT /cluster/options`, with `params` as its form.
    pub fn datacenter_update_config(&self, params: &PveParams) -> (r: Result<ApiRequest, PveError>)
        ensures
            result_view(r) == self.request_outcome(
                HttpMethod::Put,
                "/cluster/options"@,
                None,
                Some(params@),
            ),
    {
        self.send(HttpMethod::Put, "/cluster/options", None, Some(params))
    }

    /// The request `PUT /cluster/options`, with the parameters of `request` as
    /// its form.
    pub fn datacenter_update_config_with(
        &self,
        request: &DatacenterConfigUpdateRequest,
    ) -> (r: Result<ApiRequest, PveError>)
        ensures
            result_view(r) == self.request_outcome(
                HttpMethod::Put,
                "/cluster/options"@,
                None,
                Some(request.params()),
            ),
    {
        let params = request.to_params();
        self.datacenter_update_config(&params)
    }
}

} // verus!
