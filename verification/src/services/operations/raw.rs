//! Requests for paths that have no typed method.

use crate::auth::HttpMethod;
use crate::client::{opt_params_ref_view, ApiRequest, PveClient};
use crate::error::{result_view, PveError};
use crate::params::PveParams;
use vstd::prelude::*;

verus! {

impl PveClient {
    /// The request for `{path}` with the verb `method`, with `query` as its query
    /// and with `form` as its form.
    pub fn raw_json(
        &self,
        method: HttpMethod,
        path: &str,
        query: Option<&PveParams>,
        form: Option<&PveParams>,
    ) -> (r: Result<ApiRequest, PveError>)
        ensures
            result_view(r) == self.request_outcome(
                method,
                path@,
                opt_params_ref_view(query),
                opt_params_ref_view(form),
            ),
    {
        self.send(method, path, query, form)
    }

    /// The request `GET {path}`, with `query` as its query.
    pub fn raw_get(
        &self,
        path: &str,
        query: Option<&PveParams>,
    ) -> (r: Result<ApiRequest, PveError>)
        ensures
            result_view(r) == self.request_outcome(
                HttpMethod::Get,
                path@,
                opt_params_ref_view(query),
                None,
            ),
    {
        self.raw_json(HttpMethod::Get, path, query, None)
    }

    /// The request `POST {path}`, with `form` as its form.
    pub fn raw_post(
        &self,
        path: &str,
        form: Option<&PveParams>,
    ) -> (r: Result<ApiRequest, PveError>)
        ensures
            result_view(r) == self.request_outcome(
                HttpMethod::Post,
                path@,
                None,
                opt_params_ref_view(form),
            ),
    {
        self.raw_json(HttpMethod::Post, path, None, form)
    }

    /// The request `PUT {path}`, with `form` as its form.
    pub fn raw_put(&self, path: &str, form: Option<&PveParams>) -> (r: Result<ApiRequest, PveError>)
        ensures
            result_view(r) == self.request_outcome(
                HttpMethod::Put,
                path@,
                None,
                opt_params_ref_view(form),
            ),
    {
        self.raw_json(HttpMethod::Put, path, None, form)
    }

    /// The request `DELETE {path}`, with `query` as its query.
    pub fn raw_delete(
        &self,
        path: &str,
        query: Option<&PveParams>,
    ) -> (r: Result<ApiRequest, PveError>)
        ensures
            result_view(r) == self.request_outcome(
                HttpMethod::Delete,
                path@,
                opt_params_ref_view(query),
                None,
            ),
    {
        self.raw_json(HttpMethod::Delete, path, query, None)
    }
}

} // verus!
