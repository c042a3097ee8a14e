//! Requests for users, groups, roles, tokens and access-control lists.

use crate::auth::HttpMethod;
use crate::client::{acl_check, validate_acl_params, ApiRequest, PveClient};
use crate::error::{result_view, PveError};
use crate::params::{opt_flag, put_opt, PveParams};
use crate::text::opt_str_view;
use crate::transport::{percent_encoded, ApiPath};
use crate::types::access::{
    AccessAclQuery, AccessCreateGroupRequest, AccessCreateTokenRequest, AccessCreateUserRequest,
    AccessDeleteAclRequest, AccessSetAclRequest, AccessUpdateGroupRequest, AccessUpdateTokenRequest,
    AccessUpdateUserRequest,
};
use vstd::prelude::*;

verus! {

impl PveClient {
    /// The request `GET /access/users`.
    pub fn access_users(&self) -> (r: Result<ApiRequest, PveError>)
        ensures
            result_view(r) == self.request_outcome(HttpMethod::Get, "/access/users"@, None, None),
    {
        self.send(HttpMethod::Get, "/access/users", None, None)
    }

    /// The request `GET /access/users/{userid}`.
    pub fn access_user(&self, userid: &str) -> (r: Result<ApiRequest, PveError>)
        ensures
            result_view(r) == self.request_outcome(
                HttpMethod::Get,
                "/access/users/"@ + percent_encoded(userid@),
                None,
                None,
            ),
    {
        let path = ApiPath::new("/access/users/").segment(userid);
        self.send(HttpMethod::Get, path.as_str(), None, None)
    }

    /// The request `POST /access/users`, with `params` as its form.
    pub fn access_create_user(&self, params: &PveParams) -> (r: Result<ApiRequest, PveError>)
        ensures
            result_view(r) == self.request_outcome(
                HttpMethod::Post,
                "/access/users"@,
                None,
                Some(params@),
            ),
    {
        self.send(HttpMethod::Post, "/access/users", None, Some(params))
    }

    /// The request `POST /access/users`, with the parameters of `request` as its
    /// form.
    pub fn access_create_user_with(
        &self,
        request: &AccessCreateUserRequest,
    ) -> (r: Result<ApiRequest, PveError>)
        ensures
            result_view(r) == self.request_outcome(
                HttpMethod::Post,
                "/access/users"@,
                None,
                Some(request.params()),
            ),
    {
        let params = request.to_params();
        self.access_create_user(&params)
    }

    /// The request `PUT /access/users/{userid}`, with `params` as its form.
    pub fn access_update_user(
        &self,
        userid: &str,
        params: &PveParams,
    ) -> (r: Result<ApiRequest, PveError>)
        ensures
            result_view(r) == self.request_outcome(
                HttpMethod::Put,
                "/access/users/"@ + percent_encoded(userid@),
                None,
                Some(params@),
            ),
    {
        let path = ApiPath::new("/access/users/").segment(userid);
        self.send(HttpMethod::Put, path.as_str(), None, Some(params))
    }

    /// The request `PUT /access/users/{userid}`, with the parameters of `request`
    /// as its form.
    pub fn access_update_user_with(
        &self,
        userid: &str,
        request: &AccessUpdateUserRequest,
    ) -> (r: Result<ApiRequest, PveError>)
        ensures
            result_view(r) == self.request_outcome(
                HttpMethod::Put,
                "/access/users/"@ + percent_encoded(userid@),
                None,
                Some(request.params()),
            ),
    {
        let params = request.to_params();
        self.access_update_user(userid, &params)
    }

    /// The request `DELETE /access/users/{userid}`.
    pub fn access_delete_user(&self, userid: &str) -> (r: Result<ApiRequest, PveError>)
        ensures
            result_view(r) == self.request_outcome(
                HttpMethod::Delete,
                "/access/users/"@ + percent_encoded(userid@),
                None,
                None,
            ),
    {
        let path = ApiPath::new("/access/users/").segment(userid);
        self.send(HttpMethod::Delete, path.as_str(), None, None)
    }

    /// The request `GET /access/groups`.
    pub fn access_groups(&self) -> (r: Result<ApiRequest, PveError>)
        ensures
            result_view(r) == self.request_outcome(HttpMethod::Get, "/access/groups"@, None, None),
    {
        self.send(HttpMethod::Get, "/access/groups", None, None)
    }

    /// The request `GET /access/groups/{groupid}`.
    pub fn access_group(&self, groupid: &str) -> (r: Result<ApiRequest, PveError>)
        ensures
            result_view(r) == self.request_outcome(
                HttpMethod::Get,
                "/access/groups/"@ + percent_encoded(groupid@),
                None,
                None,
            ),
    {
        let path = ApiPath::new("/access/groups/").segment(groupid);
        self.send(HttpMethod::Get, path.as_str(), None, None)
    }

    /// The request `POST /access/groups`, with `params` as its form.
    pub fn access_create_group(&self, params: &PveParams) -> (r: Result<ApiRequest, PveError>)
        ensures
            result_view(r) == self.request_outcome(
                HttpMethod::Post,
                "/access/groups"@,
                None,
                Some(params@),
            ),
    {
        self.send(HttpMethod::Post, "/access/groups", None, Some(params))
    }

    /// The request `POST /access/groups`, with the parameters of `request` as its
    /// form.
    pub fn access_create_group_with(
        &self,
        request: &AccessCreateGroupRequest,
    ) -> (r: Result<ApiRequest, PveError>)
        ensures
            result_view(r) == self.request_outcome(
                HttpMethod::Post,
                "/access/groups"@,
                None,
                Some(request.params()),
            ),
    {
        let params = request.to_params();
        self.access_create_group(&params)
    }

    /// The request `PUT /access/groups/{groupid}`, with `params` as its form.
    pub fn access_update_group(
        &self,
        groupid: &str,
        params: &PveParams,
    ) -> (r: Result<ApiRequest, PveError>)
        ensures
            result_view(r) == self.request_outcome(
                HttpMethod::Put,
                "/access/groups/"@ + percent_encoded(groupid@),
                None,
                Some(params@),
            ),
    {
        let path = ApiPath::new("/access/groups/").segment(groupid);
        self.send(HttpMethod::Put, path.as_str(), None, Some(params))
    }

    /// The request `PUT /access/groups/{groupid}`, with the parameters of
    /// `request` as its form.
    pub fn access_update_group_with(
        &self,
        groupid: &str,
        request: &AccessUpdateGroupRequest,
    ) -> (r: Result<ApiRequest, PveError>)
        ensures
            result_view(r) == self.request_outcome(
                HttpMethod::Put,
                "/access/groups/"@ + percent_encoded(groupid@),
                None,
                Some(request.params()),
            ),
    {
        let params = request.to_params();
        self.access_update_group(groupid, &params)
    }

    /// The request `DELETE /access/groups/{groupid}`.
    pub fn access_delete_group(&self, groupid: &str) -> (r: Result<ApiRequest, PveError>)
        ensures
            result_view(r) == self.request_outcome(
                HttpMethod::Delete,
                "/access/groups/"@ + percent_encoded(groupid@),
                None,
                None,
            ),
    {
        let path = ApiPath::new("/access/groups/").segment(groupid);
        self.send(HttpMethod::Delete, path.as_str(), None, None)
    }

    /// The request `GET /access/roles`.
    pub fn access_roles(&self) -> (r: Result<ApiRequest, PveError>)
        ensures
            result_view(r) == self.request_outcome(HttpMethod::Get, "/access/roles"@, None, None),
    {
        self.send(HttpMethod::Get, "/access/roles", None, None)
    }

    /// The request `GET /access/acl`, with `path`, `exact` as its query.
    pub fn access_acl(
        &self,
        path: Option<&str>,
        exact: Option<bool>,
    ) -> (r: Result<ApiRequest, PveError>)
        ensures
            result_view(r) == self.request_outcome(
                HttpMethod::Get,
                "/access/acl"@,
                Some(
                    put_opt(
                        put_opt(Map::<Seq<char>, Seq<char>>::empty(), "path"@, opt_str_view(path)),
                        "exact"@,
                        opt_flag(exact),
                    ),
                ),
                None,
            ),
    {
        let mut query = PveParams::new();
        query.insert_opt("path", path);
        query.insert_opt_bool("exact", exact);
        self.send(HttpMethod::Get, "/access/acl", Some(&query), None)
    }

    /// The request `GET /access/acl`, with the parameters of `query` as its
    /// query.
    pub fn access_acl_with(&self, query: &AccessAclQuery) -> (r: Result<ApiRequest, PveError>)
        ensures
            result_view(r) == self.request_outcome(
                HttpMethod::Get,
                "/access/acl"@,
                Some(query.params()),
                None,
            ),
    {
        let params = query.to_params();
        self.send(HttpMethod::Get, "/access/acl", Some(&params), None)
    }

    /// The request `PUT /access/acl`, with `params` as its form. The parameters
    /// are checked first; see `validate_acl_params`.
    pub fn access_set_acl(&self, params: &PveParams) -> (r: Result<ApiRequest, PveError>)
        ensures
            match acl_check(params@) {
                Err(e) => r is Err && r->Err_0@ == e,
                Ok(_) => result_view(r) == self.request_outcome(
                    HttpMethod::Put,
                    "/access/acl"@,
                    None,
                    Some(params@),
                ),
            },
    {
        match validate_acl_params(params) {
            Ok(_) => {},
            Err(e) => {
                return Err(e);
            },
        }
        self.send(HttpMethod::Put, "/access/acl", None, Some(params))
    }

    /// The request `PUT /access/acl`, with the parameters of `request` as its
    /// form. The parameters are checked first; see `validate_acl_params`.
    pub fn access_set_acl_with(
        &self,
        request: &AccessSetAclRequest,
    ) -> (r: Result<ApiRequest, PveError>)
        ensures
            match acl_check(request.params()) {
                Err(e) => r is Err && r->Err_0@ == e,
                Ok(_) => result_view(r) == self.request_outcome(
                    HttpMethod::Put,
                    "/access/acl"@,
                    None,
                    Some(request.params()),
                ),
            },
    {
        let params = request.to_params();
        self.access_set_acl(&params)
    }

    /// The request `PUT /access/acl`, with the parameters of `request` as its
    /// form. The parameters are checked first; see `validate_acl_params`.
    pub fn access_delete_acl_with(
        &self,
        request: &AccessDeleteAclRequest,
    ) -> (r: Result<ApiRequest, PveError>)
        ensures
            match acl_check(request.params()) {
                Err(e) => r is Err && r->Err_0@ == e,
                Ok(_) => result_view(r) == self.request_outcome(
                    HttpMethod::Put,
                    "/access/acl"@,
                    None,
                    Some(request.params()),
                ),
            },
    {
        let params = request.to_params();
        self.access_set_acl(&params)
    }

    /// The request `GET /access/users/{userid}/token`.
    pub fn access_user_tokens(&self, userid: &str) -> (r: Result<ApiRequest, PveError>)
        ensures
            result_view(r) == self.request_outcome(
                HttpMethod::Get,
                "/access/users/"@ + percent_encoded(userid@) + "/token"@,
                None,
                None,
            ),
    {
        let path = ApiPath::new("/access/users/").segment(userid).text("/token");
        self.send(HttpMethod::Get, path.as_str(), None, None)
    }

    /// The request `POST /access/users/{userid}/token`, with `params` and
    /// `tokenid` as its form.
    pub fn access_create_user_token(
        &self,
        userid: &str,
        tokenid: &str,
        params: &PveParams,
    ) -> (r: Result<ApiRequest, PveError>)
        ensures
            result_view(r) == self.request_outcome(
                HttpMethod::Post,
                "/access/users/"@ + percent_encoded(userid@) + "/token"@,
                None,
                Some(params@.insert("tokenid"@, tokenid@)),
            ),
    {
        let path = ApiPath::new("/access/users/").segment(userid).text("/token");
        let mut body = params.clone();
        body.insert("tokenid", tokenid);
        self.send(HttpMethod::Post, path.as_str(), None, Some(&body))
    }

    /// The request `POST /access/users/{userid}/token`, with the parameters of
    /// `request` and `tokenid` as its form.
    pub fn access_create_user_token_with(
        &self,
        userid: &str,
        request: &AccessCreateTokenRequest,
    ) -> (r: Result<ApiRequest, PveError>)
        ensures
            result_view(r) == self.request_outcome(
                HttpMethod::Post,
                "/access/users/"@ + percent_encoded(userid@) + "/token"@,
                None,
                Some(request.params().insert("tokenid"@, request.tokenid@)),
            ),
    {
        let params = request.to_params();
        self.access_create_user_token(userid, request.tokenid.as_str(), &params)
    }

    /// The request `PUT /access/users/{userid}/token/{tokenid}`, with `params` as
    /// its form.
    pub fn access_update_user_token(
        &self,
        userid: &str,
        tokenid: &str,
        params: &PveParams,
    ) -> (r: Result<ApiRequest, PveError>)
        ensures
            result_view(r) == self.request_outcome(
                HttpMethod::Put,
                "/access/users/"@ + percent_encoded(userid@) + "/token/"@
                    + percent_encoded(tokenid@),
                None,
                Some(params@),
            ),
    {
        let path = ApiPath::new("/access/users/").segment(userid).text("/token/").segment(tokenid);
        self.send(HttpMethod::Put, path.as_str(), None, Some(params))
    }

    /// The request `PUT /access/users/{userid}/token/{tokenid}`, with the
    /// parameters of `request` as its form.
    pub fn access_update_user_token_with(
        &self,
        userid: &str,
        tokenid: &str,
        request: &AccessUpdateTokenRequest,
    ) -> (r: Result<ApiRequest, PveError>)
        ensures
            result_view(r) == self.request_outcome(
                HttpMethod::Put,
                "/access/users/"@ + percent_encoded(userid@) + "/token/"@
                    + percent_encoded(tokenid@),
                None,
                Some(request.params()),
            ),
    {
        let params = request.to_params();
        self.access_update_user_token(userid, tokenid, &params)
    }

    /// The request `DELETE /access/users/{userid}/token/{tokenid}`.
    pub fn access_delete_user_token(
        &self,
        userid: &str,
        tokenid: &str,
    ) -> (r: Result<ApiRequest, PveError>)
        ensures
            result_view(r) == self.request_outcome(
                HttpMethod::Delete,
                "/access/users/"@ + percent_encoded(userid@) + "/token/"@
                    + percent_encoded(tokenid@),
                None,
                None,
            ),
    {
        let path = ApiPath::new("/access/users/").segment(userid).text("/token/").segment(tokenid);
        self.send(HttpMethod::Delete, path.as_str(), None, None)
    }
}

} // verus!
