//! Requests for the server itself.

use crate::auth::HttpMethod;
use crate::client::{ApiRequest, PveClient};
use crate::error::{result_view, PveError};
use vstd::prelude::*;

verus! {

impl PveClient {
    /// The request `GET /version`.
    pub fn version(&self) -> (r: Result<ApiRequest, PveError>)
        ensures
            result_view(r) == self.request_outcome(HttpMethod::Get, "/version"@, None, None),
    {
        self.send(HttpMethod::Get, "/version", None, None)
    }
}

} // verus!
