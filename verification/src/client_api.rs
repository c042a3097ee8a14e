//! The requests of the client, grouped by the part of the API they address.

use crate::auth::HttpMethod;
use crate::client::{acl_check, opt_params_ref_view, ApiRequest, PveClient};
use crate::error::{result_view, ErrorView, PveError};
use crate::params::{opt_decimal_u32, opt_decimal_u64, opt_flag, put_opt, PveParams};
use crate::services::operations::storage::{
    msg_upload_path, parts_view, upload_parts_spec, UploadPlan,
};
use crate::text::{decimal, opt_str_view, opt_view};
use crate::transport::percent_encoded;
use crate::types::access::{
    AccessAclQuery, AccessCreateGroupRequest, AccessCreateTokenRequest, AccessCreateUserRequest,
    AccessDeleteAclRequest, AccessSetAclRequest, AccessUpdateGroupRequest, AccessUpdateTokenRequest,
    AccessUpdateUserRequest, TicketRequest,
};
use crate::types::backup::VzdumpRequest;
use crate::types::cluster::ClusterResourcesQuery;
use crate::types::datacenter::DatacenterConfigUpdateRequest;
use crate::types::lxc::{
    LxcActionRequest, LxcConfigQuery, LxcCreateRequest, LxcMigrateRequest, LxcSetConfigRequest,
    LxcSnapshotCreateRequest, LxcSnapshotRollbackRequest,
};
use crate::types::node::{NodeNetworkQuery, NodeTasksQuery};
use crate::types::qemu::{
    QemuActionRequest, QemuCloneRequest, QemuConfigQuery, QemuCreateRequest, QemuMigrateRequest,
    QemuSetConfigRequest, QemuSnapshotCreateRequest, QemuSnapshotRollbackRequest,
};
use crate::types::storage::{
    NodeStorageQuery, StorageAllocateDiskRequest, StorageContentQuery, StorageDeleteVolumeRequest,
    StorageUploadRequest,
};
use crate::types::task::{wait_step_spec, TaskLogQuery, TaskStatus, WaitStep, WaitTaskOptions};
use std::time::Duration;
use vstd::prelude::*;

verus! {

/// The requests for users, groups, roles, tokens and access-control lists.
#[derive(Debug)]
pub struct AccessApi<'a> {
    pub client: &'a PveClient,
}

impl<'a> AccessApi<'a> {
    /// The request `POST /access/ticket` that logs in with a user name
    /// and password.
    pub fn ticket(
        &self,
        username: &str,
        password: &str,
        otp: Option<&str>,
        realm: Option<&str>,
        tfa_challenge: Option<&str>,
    ) -> (r: Result<ApiRequest, PveError>)
        ensures
            result_view(r) == self.client.request_outcome(
                HttpMethod::Post,
                "/access/ticket"@,
                None,
                Some(
                    PveClient::ticket_params(
                        username@,
                        password@,
                        opt_str_view(otp),
                        opt_str_view(realm),
                        opt_str_view(tfa_challenge),
                    ),
                ),
            ),
    {
        self.client.request_ticket(username, password, otp, realm, tfa_challenge)
    }

    /// The request `POST /access/ticket`, with the parameters of `request`
    /// as its form.
    pub fn ticket_with(&self, request: &TicketRequest) -> (r: Result<ApiRequest, PveError>)
        ensures
            result_view(r) == self.client.request_outcome(
                HttpMethod::Post,
                "/access/ticket"@,
                None,
                Some(request.params()),
            ),
    {
        self.client.request_ticket_with(request)
    }

    /// The request `GET /access/users`.
    pub fn users(&self) -> (r: Result<ApiRequest, PveError>)
        ensures
            result_view(r) == self.client.request_outcome(
                HttpMethod::Get,
                "/access/users"@,
                None,
                None,
            ),
    {
        self.client.access_users()
    }

    /// The request `GET /access/users/{userid}`.
    pub fn user(&self, userid: &str) -> (r: Result<ApiRequest, PveError>)
        ensures
            result_view(r) == self.client.request_outcome(
                HttpMethod::Get,
                "/access/users/"@ + percent_encoded(userid@),
                None,
                None,
            ),
    {
        self.client.access_user(userid)
    }

    /// The request `POST /access/users`, with `params` as its form.
    pub fn create_user(&self, params: &PveParams) -> (r: Result<ApiRequest, PveError>)
        ensures
            result_view(r) == self.client.request_outcome(
                HttpMethod::Post,
                "/access/users"@,
                None,
                Some(params@),
            ),
    {
        self.client.access_create_user(params)
    }

    /// The request `POST /access/users`, with the parameters of `request` as its
    /// form.
    pub fn create_user_with(
        &self,
        request: &AccessCreateUserRequest,
    ) -> (r: Result<ApiRequest, PveError>)
        ensures
            result_view(r) == self.client.request_outcome(
                HttpMethod::Post,
                "/access/users"@,
                None,
                Some(request.params()),
            ),
    {
        self.client.access_create_user_with(request)
    }

    /// The request `PUT /access/users/{userid}`, with `params` as its form.
    pub fn update_user(&self, userid: &str, params: &PveParams) -> (r: Result<ApiRequest, PveError>)
        ensures
            result_view(r) == self.client.request_outcome(
                HttpMethod::Put,
                "/access/users/"@ + percent_encoded(userid@),
                None,
                Some(params@),
            ),
    {
        self.client.access_update_user(userid, params)
    }

    /// The request `PUT /access/users/{userid}`, with the parameters of `request`
    /// as its form.
    pub fn update_user_with(
        &self,
        userid: &str,
        request: &AccessUpdateUserRequest,
    ) -> (r: Result<ApiRequest, PveError>)
        ensures
            result_view(r) == self.client.request_outcome(
                HttpMethod::Put,
                "/access/users/"@ + percent_encoded(userid@),
                None,
                Some(request.params()),
            ),
    {
        self.client.access_update_user_with(userid, request)
    }

    /// The request `DELETE /access/users/{userid}`.
    pub fn delete_user(&self, userid: &str) -> (r: Result<ApiRequest, PveError>)
        ensures
            result_view(r) == self.client.request_outcome(
                HttpMethod::Delete,
                "/access/users/"@ + percent_encoded(userid@),
                None,
                None,
            ),
    {
        self.client.access_delete_user(userid)
    }

    /// The request `GET /access/groups`.
    pub fn groups(&self) -> (r: Result<ApiRequest, PveError>)
        ensures
            result_view(r) == self.client.request_outcome(
                HttpMethod::Get,
                "/access/groups"@,
                None,
                None,
            ),
    {
        self.client.access_groups()
    }

    /// The request `GET /access/groups/{groupid}`.
    pub fn group(&self, groupid: &str) -> (r: Result<ApiRequest, PveError>)
        ensures
            result_view(r) == self.client.request_outcome(
                HttpMethod::Get,
                "/access/groups/"@ + percent_encoded(groupid@),
                None,
                None,
            ),
    {
        self.client.access_group(groupid)
    }

    /// The request `POST /access/groups`, with `params` as its form.
    pub fn create_group(&self, params: &PveParams) -> (r: Result<ApiRequest, PveError>)
        ensures
            result_view(r) == self.client.request_outcome(
                HttpMethod::Post,
                "/access/groups"@,
                None,
                Some(params@),
            ),
    {
        self.client.access_create_group(params)
    }

    /// The request `POST /access/groups`, with the parameters of `request` as its
    /// form.
    pub fn create_group_with(
        &self,
        request: &AccessCreateGroupRequest,
    ) -> (r: Result<ApiRequest, PveError>)
        ensures
            result_view(r) == self.client.request_outcome(
                HttpMethod::Post,
                "/access/groups"@,
                None,
                Some(request.params()),
            ),
    {
        self.client.access_create_group_with(request)
    }

    /// The request `PUT /access/groups/{groupid}`, with `params` as its form.
    pub fn update_group(
        &self,
        groupid: &str,
        params: &PveParams,
    ) -> (r: Result<ApiRequest, PveError>)
        ensures
            result_view(r) == self.client.request_outcome(
                HttpMethod::Put,
                "/access/groups/"@ + percent_encoded(groupid@),
                None,
                Some(params@),
            ),
    {
        self.client.access_update_group(groupid, params)
    }

    /// The request `PUT /access/groups/{groupid}`, with the parameters of
    /// `request` as its form.
    pub fn update_group_with(
        &self,
        groupid: &str,
        request: &AccessUpdateGroupRequest,
    ) -> (r: Result<ApiRequest, PveError>)
        ensures
            result_view(r) == self.client.request_outcome(
                HttpMethod::Put,
                "/access/groups/"@ + percent_encoded(groupid@),
                None,
                Some(request.params()),
            ),
    {
        self.client.access_update_group_with(groupid, request)
    }

    /// The request `DELETE /access/groups/{groupid}`.
    pub fn delete_group(&self, groupid: &str) -> (r: Result<ApiRequest, PveError>)
        ensures
            result_view(r) == self.client.request_outcome(
                HttpMethod::Delete,
                "/access/groups/"@ + percent_encoded(groupid@),
                None,
                None,
            ),
    {
        self.client.access_delete_group(groupid)
    }

    /// The request `GET /access/roles`.
    pub fn roles(&self) -> (r: Result<ApiRequest, PveError>)
        ensures
            result_view(r) == self.client.request_outcome(
                HttpMethod::Get,
                "/access/roles"@,
                None,
                None,
            ),
    {
        self.client.access_roles()
    }

    /// The request `GET /access/acl`, with `path`, `exact` as its query.
    pub fn acl(&self, path: Option<&str>, exact: Option<bool>) -> (r: Result<ApiRequest, PveError>)
        ensures
            result_view(r) == self.client.request_outcome(
                HttpMethod::Get,
                "/access/acl"@,
                Some(
                    put_opt(
                        put_opt(Map::<Seq<char>, Seq<char>>::empty(), "path"@, opt_str_view(path)),
                        "exact"@,
                        opt_flag(exact),
                    ),
                ),
                None,
            ),
    {
        self.client.access_acl(path, exact)
    }

    /// The request `GET /access/acl`, with the parameters of `query` as its
    /// query.
    pub fn acl_with(&self, query: &AccessAclQuery) -> (r: Result<ApiRequest, PveError>)
        ensures
            result_view(r) == self.client.request_outcome(
                HttpMethod::Get,
                "/access/acl"@,
                Some(query.params()),
                None,
            ),
    {
        self.client.access_acl_with(query)
    }

    /// The request `PUT /access/acl`, with `params` as its form. The parameters
    /// are checked first; see `validate_acl_params`.
    pub fn set_acl(&self, params: &PveParams) -> (r: Result<ApiRequest, PveError>)
        ensures
            match acl_check(params@) {
                Err(e) => r is Err && r->Err_0@ == e,
                Ok(_) => result_view(r) == self.client.request_outcome(
                    HttpMethod::Put,
                    "/access/acl"@,
                    None,
                    Some(params@),
                ),
            },
    {
        self.client.access_set_acl(params)
    }

    /// The request `PUT /access/acl`, with the parameters of `request` as its
    /// form. The parameters are checked first; see `validate_acl_params`.
    pub fn set_acl_with(&self, request: &AccessSetAclRequest) -> (r: Result<ApiRequest, PveError>)
        ensures
            match acl_check(request.params()) {
                Err(e) => r is Err && r->Err_0@ == e,
                Ok(_) => result_view(r) == self.client.request_outcome(
                    HttpMethod::Put,
                    "/access/acl"@,
                    None,
                    Some(request.params()),
                ),
            },
    {
        self.client.access_set_acl_with(request)
    }

    /// The request `PUT /access/acl`, with the parameters of `request` as its
    /// form. The parameters are checked first; see `validate_acl_params`.
    pub fn delete_acl_with(
        &self,
        request: &AccessDeleteAclRequest,
    ) -> (r: Result<ApiRequest, PveError>)
        ensures
            match acl_check(request.params()) {
                Err(e) => r is Err && r->Err_0@ == e,
                Ok(_) => result_view(r) == self.client.request_outcome(
                    HttpMethod::Put,
                    "/access/acl"@,
                    None,
                    Some(request.params()),
                ),
            },
    {
        self.client.access_delete_acl_with(request)
    }

    /// The request `GET /access/users/{userid}/token`.
    pub fn user_tokens(&self, userid: &str) -> (r: Result<ApiRequest, PveError>)
        ensures
            result_view(r) == self.client.request_outcome(
                HttpMethod::Get,
                "/access/users/"@ + percent_encoded(userid@) + "/token"@,
                None,
                None,
            ),
    {
        self.client.access_user_tokens(userid)
    }

    /// The request `POST /access/users/{userid}/token`, with `params` and
    /// `tokenid` as its form.
    pub fn create_user_token(
        &self,
        userid: &str,
        tokenid: &str,
        params: &PveParams,
    ) -> (r: Result<ApiRequest, PveError>)
        ensures
            result_view(r) == self.client.request_outcome(
                HttpMethod::Post,
                "/access/users/"@ + percent_encoded(userid@) + "/token"@,
                None,
                Some(params@.insert("tokenid"@, tokenid@)),
            ),
    {
        self.client.access_create_user_token(userid, tokenid, params)
    }

    /// The request `POST /access/users/{userid}/token`, with the parameters of
    /// `request` and `tokenid` as its form.
    pub fn create_user_token_with(
        &self,
        userid: &str,
        request: &AccessCreateTokenRequest,
    ) -> (r: Result<ApiRequest, PveError>)
        ensures
            result_view(r) == self.client.request_outcome(
                HttpMethod::Post,
                "/access/users/"@ + percent_encoded(userid@) + "/token"@,
                None,
                Some(request.params().insert("tokenid"@, request.tokenid@)),
            ),
    {
        self.client.access_create_user_token_with(userid, request)
    }

    /// The request `PUT /access/users/{userid}/token/{tokenid}`, with `params` as
    /// its form.
    pub fn update_user_token(
        &self,
        userid: &str,
        tokenid: &str,
        params: &PveParams,
    ) -> (r: Result<ApiRequest, PveError>)
        ensures
            result_view(r) == self.client.request_outcome(
                HttpMethod::Put,
                "/access/users/"@ + percent_encoded(userid@) + "/token/"@
                    + percent_encoded(tokenid@),
                None,
                Some(params@),
            ),
    {
        self.client.access_update_user_token(userid, tokenid, params)
    }

    /// The request `PUT /access/users/{userid}/token/{tokenid}`, with the
    /// parameters of `request` as its form.
    pub fn update_user_token_with(
        &self,
        userid: &str,
        tokenid: &str,
        request: &AccessUpdateTokenRequest,
    ) -> (r: Result<ApiRequest, PveError>)
        ensures
            result_view(r) == self.client.request_outcome(
                HttpMethod::Put,
                "/access/users/"@ + percent_encoded(userid@) + "/token/"@
                    + percent_encoded(tokenid@),
                None,
                Some(request.params()),
            ),
    {
        self.client.access_update_user_token_with(userid, tokenid, request)
    }

    /// The request `DELETE /access/users/{userid}/token/{tokenid}`.
    pub fn delete_user_token(
        &self,
        userid: &str,
        tokenid: &str,
    ) -> (r: Result<ApiRequest, PveError>)
        ensures
            result_view(r) == self.client.request_outcome(
                HttpMethod::Delete,
                "/access/users/"@ + percent_encoded(userid@) + "/token/"@
                    + percent_encoded(tokenid@),
                None,
                None,
            ),
    {
        self.client.access_delete_user_token(userid, tokenid)
    }
}

/// The requests for cluster-wide information.
#[derive(Debug)]
pub struct ClusterApi<'a> {
    pub client: &'a PveClient,
}

impl<'a> ClusterApi<'a> {
    /// The request `GET /cluster/resources`, with `type` as its query.
    pub fn resources(&self, resource_type: Option<&str>) -> (r: Result<ApiRequest, PveError>)
        ensures
            result_view(r) == self.client.request_outcome(
                HttpMethod::Get,
                "/cluster/resources"@,
                Some(
                    put_opt(
                        Map::<Seq<char>,
                        Seq<char>>::empty(),
                        "type"@,
                        opt_str_view(resource_type),
                    ),
                ),
                None,
            ),
    {
        self.client.cluster_resources(resource_type)
    }

    /// The request `GET /cluster/resources`, with the parameters of `query` as
    /// its query.
    pub fn resources_with(&self, query: &ClusterResourcesQuery) -> (r: Result<ApiRequest, PveError>)
        ensures
            result_view(r) == self.client.request_outcome(
                HttpMethod::Get,
                "/cluster/resources"@,
                Some(query.params()),
                None,
            ),
    {
        self.client.cluster_resources_with(query)
    }

    /// The request `GET /cluster/status`.
    pub fn status(&self) -> (r: Result<ApiRequest, PveError>)
        ensures
            result_view(r) == self.client.request_outcome(
                HttpMethod::Get,
                "/cluster/status"@,
                None,
                None,
            ),
    {
        self.client.cluster_status()
    }

    /// The request `GET /cluster/nextid`, with `vmid` as its query.
    pub fn next_id(&self, vmid: Option<u32>) -> (r: Result<ApiRequest, PveError>)
        ensures
            result_view(r) == self.client.request_outcome(
                HttpMethod::Get,
                "/cluster/nextid"@,
                Some(put_opt(Map::<Seq<char>, Seq<char>>::empty(), "vmid"@, opt_decimal_u32(vmid))),
                None,
            ),
    {
        self.client.cluster_next_id(vmid)
    }
}

/// The requests for one node.
#[derive(Debug)]
pub struct NodeApi<'a> {
    pub client: &'a PveClient,
}

impl<'a> NodeApi<'a> {
    /// The request `GET /nodes`.
    pub fn list(&self) -> (r: Result<ApiRequest, PveError>)
        ensures
            result_view(r) == self.client.request_outcome(HttpMethod::Get, "/nodes"@, None, None),
    {
        self.client.nodes()
    }

    /// The request `GET /nodes/{node}/status`.
    pub fn status(&self, node: &str) -> (r: Result<ApiRequest, PveError>)
        ensures
            result_view(r) == self.client.request_outcome(
                HttpMethod::Get,
                "/nodes/"@ + percent_encoded(node@) + "/status"@,
                None,
                None,
            ),
    {
        self.client.node_status(node)
    }

    /// The request `GET /nodes/{node}/tasks`, with `query` as its query.
    pub fn tasks(&self, node: &str, query: &PveParams) -> (r: Result<ApiRequest, PveError>)
        ensures
            result_view(r) == self.client.request_outcome(
                HttpMethod::Get,
                "/nodes/"@ + percent_encoded(node@) + "/tasks"@,
                Some(query@),
                None,
            ),
    {
        self.client.node_tasks(node, query)
    }

    /// The request `GET /nodes/{node}/tasks`, with the parameters of `query` as
    /// its query.
    pub fn tasks_with(
        &self,
        node: &str,
        query: &NodeTasksQuery,
    ) -> (r: Result<ApiRequest, PveError>)
        ensures
            result_view(r) == self.client.request_outcome(
                HttpMethod::Get,
                "/nodes/"@ + percent_encoded(node@) + "/tasks"@,
                Some(query.params()),
                None,
            ),
    {
        self.client.node_tasks_with(node, query)
    }

    /// The request `GET /nodes/{node}/network`, with `type` as its query.
    pub fn network(
        &self,
        node: &str,
        interface_type: Option<&str>,
    ) -> (r: Result<ApiRequest, PveError>)
        ensures
            result_view(r) == self.client.request_outcome(
                HttpMethod::Get,
                "/nodes/"@ + percent_encoded(node@) + "/network"@,
                Some(
                    put_opt(
                        Map::<Seq<char>,
                        Seq<char>>::empty(),
                        "type"@,
                        opt_str_view(interface_type),
                    ),
                ),
                None,
            ),
    {
        self.client.node_network(node, interface_type)
    }

    /// The request `GET /nodes/{node}/network`, with the parameters of `query` as
    /// its query.
    pub fn network_with(
        &self,
        node: &str,
        query: &NodeNetworkQuery,
    ) -> (r: Result<ApiRequest, PveError>)
        ensures
            result_view(r) == self.client.request_outcome(
                HttpMethod::Get,
                "/nodes/"@ + percent_encoded(node@) + "/network"@,
                Some(query.params()),
                None,
            ),
    {
        self.client.node_network_with(node, query)
    }
}

/// The requests for the datacenter options.
#[derive(Debug)]
pub struct DatacenterApi<'a> {
    pub client: &'a PveClient,
}

impl<'a> DatacenterApi<'a> {
    /// The request `GET /cluster/options`.
    pub fn config(&self) -> (r: Result<ApiRequest, PveError>)
        ensures
            result_view(r) == self.client.request_outcome(
                HttpMethod::Get,
                "/cluster/options"@,
                None,
                None,
            ),
    {
        self.client.datacenter_config()
    }

    /// The request `PUT /cluster/options`, with `params` as its form.
    pub fn update_config(&self, params: &PveParams) -> (r: Result<ApiRequest, PveError>)
        ensures
            result_view(r) == self.client.request_outcome(
                HttpMethod::Put,
                "/cluster/options"@,
                None,
                Some(params@),
            ),
    {
        self.client.datacenter_update_config(params)
    }

    /// The request `PUT /cluster/options`, with the parameters of `request` as
    /// its form.
    pub fn update_config_with(
        &self,
        request: &DatacenterConfigUpdateRequest,
    ) -> (r: Result<ApiRequest, PveError>)
        ensures
            result_view(r) == self.client.request_outcome(
                HttpMethod::Put,
                "/cluster/options"@,
                None,
                Some(request.params()),
            ),
    {
        self.client.datacenter_update_config_with(request)
    }
}

/// The requests for virtual machines.
#[derive(Debug)]
pub struct QemuApi<'a> {
    pub client: &'a PveClient,
}

impl<'a> QemuApi<'a> {
    /// The request `GET /nodes/{node}/qemu`, with `full` as its query.
    pub fn list(&self, node: &str, full: Option<bool>) -> (r: Result<ApiRequest, PveError>)
        ensures
            result_view(r) == self.client.request_outcome(
                HttpMethod::Get,
                "/nodes/"@ + percent_encoded(node@) + "/qemu"@,
                Some(put_opt(Map::<Seq<char>, Seq<char>>::empty(), "full"@, opt_flag(full))),
                None,
            ),
    {
        self.client.qemu_list(node, full)
    }

    /// The request `POST /nodes/{node}/qemu`, with `params` and `vmid` as its
    /// form.
    pub fn create(
        &self,
        node: &str,
        vmid: u32,
        params: &PveParams,
    ) -> (r: Result<ApiRequest, PveError>)
        ensures
            result_view(r) == self.client.request_outcome(
                HttpMethod::Post,
                "/nodes/"@ + percent_encoded(node@) + "/qemu"@,
                None,
                Some(params@.insert("vmid"@, decimal(vmid as nat))),
            ),
    {
        self.client.qemu_create(node, vmid, params)
    }

    /// The request `POST /nodes/{node}/qemu`, with the parameters of `request` as
    /// its form.
    pub fn create_with(
        &self,
        node: &str,
        request: &QemuCreateRequest,
    ) -> (r: Result<ApiRequest, PveError>)
        ensures
            result_view(r) == self.client.request_outcome(
                HttpMethod::Post,
                "/nodes/"@ + percent_encoded(node@) + "/qemu"@,
                None,
                Some(request.params()),
            ),
    {
        self.client.qemu_create_with(node, request)
    }

    /// The request `GET /nodes/{node}/qemu/{vmid}/config`, with `current`,
    /// `snapshot` as its query.
    pub fn config(
        &self,
        node: &str,
        vmid: u32,
        current: Option<bool>,
        snapshot: Option<&str>,
    ) -> (r: Result<ApiRequest, PveError>)
        ensures
            result_view(r) == self.client.request_outcome(
                HttpMethod::Get,
                "/nodes/"@ + percent_encoded(node@) + "/qemu/"@ + decimal(vmid as nat) + "/config"@,
                Some(
                    put_opt(
                        put_opt(
                            Map::<Seq<char>,
                            Seq<char>>::empty(),
                            "current"@,
                            opt_flag(current),
                        ),
                        "snapshot"@,
                        opt_str_view(snapshot),
                    ),
                ),
                None,
            ),
    {
        self.client.qemu_config(node, vmid, current, snapshot)
    }

    /// The request `GET /nodes/{node}/qemu/{vmid}/config`, with the parameters of
    /// `query` as its query.
    pub fn config_with(
        &self,
        node: &str,
        vmid: u32,
        query: &QemuConfigQuery,
    ) -> (r: Result<ApiRequest, PveError>)
        ensures
            result_view(r) == self.client.request_outcome(
                HttpMethod::Get,
                "/nodes/"@ + percent_encoded(node@) + "/qemu/"@ + decimal(vmid as nat) + "/config"@,
                Some(query.params()),
                None,
            ),
    {
        self.client.qemu_config_with(node, vmid, query)
    }

    /// The request `POST /nodes/{node}/qemu/{vmid}/config`, with `params` as its
    /// form.
    pub fn set_config_async(
        &self,
        node: &str,
        vmid: u32,
        params: &PveParams,
    ) -> (r: Result<ApiRequest, PveError>)
        ensures
            result_view(r) == self.client.request_outcome(
                HttpMethod::Post,
                "/nodes/"@ + percent_encoded(node@) + "/qemu/"@ + decimal(vmid as nat) + "/config"@,
                None,
                Some(params@),
            ),
    {
        self.client.qemu_set_config_async(node, vmid, params)
    }

    /// The request `POST /nodes/{node}/qemu/{vmid}/config`, with the parameters
    /// of `request` as its form.
    pub fn set_config_async_with(
        &self,
        node: &str,
        vmid: u32,
        request: &QemuSetConfigRequest,
    ) -> (r: Result<ApiRequest, PveError>)
        ensures
            result_view(r) == self.client.request_outcome(
                HttpMethod::Post,
                "/nodes/"@ + percent_encoded(node@) + "/qemu/"@ + decimal(vmid as nat) + "/config"@,
                None,
                Some(request.params()),
            ),
    {
        self.client.qemu_set_config_async_with(node, vmid, request)
    }

    /// The request `PUT /nodes/{node}/qemu/{vmid}/config`, with `params` as its
    /// form.
    pub fn set_config_sync(
        &self,
        node: &str,
        vmid: u32,
        params: &PveParams,
    ) -> (r: Result<ApiRequest, PveError>)
        ensures
            result_view(r) == self.client.request_outcome(
                HttpMethod::Put,
                "/nodes/"@ + percent_encoded(node@) + "/qemu/"@ + decimal(vmid as nat) + "/config"@,
                None,
                Some(params@),
            ),
    {
        self.client.qemu_set_config_sync(node, vmid, params)
    }

    /// The request `PUT /nodes/{node}/qemu/{vmid}/config`, with the parameters of
    /// `request` as its form.
    pub fn set_config_sync_with(
        &self,
        node: &str,
        vmid: u32,
        request: &QemuSetConfigRequest,
    ) -> (r: Result<ApiRequest, PveError>)
        ensures
            result_view(r) == self.client.request_outcome(
                HttpMethod::Put,
                "/nodes/"@ + percent_encoded(node@) + "/qemu/"@ + decimal(vmid as nat) + "/config"@,
                None,
                Some(request.params()),
            ),
    {
        self.client.qemu_set_config_sync_with(node, vmid, request)
    }

    /// The request `GET /nodes/{node}/qemu/{vmid}/status/current`.
    pub fn status(&self, node: &str, vmid: u32) -> (r: Result<ApiRequest, PveError>)
        ensures
            result_view(r) == self.client.request_outcome(
                HttpMethod::Get,
                "/nodes/"@ + percent_encoded(node@) + "/qemu/"@ + decimal(vmid as nat)
                    + "/status/current"@,
                None,
                None,
            ),
    {
        self.client.qemu_status(node, vmid)
    }

    /// The request `POST /nodes/{node}/qemu/{vmid}/status/start`, with `params`
    /// as its form.
    pub fn start(
        &self,
        node: &str,
        vmid: u32,
        params: &PveParams,
    ) -> (r: Result<ApiRequest, PveError>)
        ensures
            result_view(r) == self.client.request_outcome(
                HttpMethod::Post,
                "/nodes/"@ + percent_encoded(node@) + "/qemu/"@ + decimal(vmid as nat) + "/status/"@
                    + "start"@,
                None,
                Some(params@),
            ),
    {
        self.client.qemu_start(node, vmid, params)
    }

    /// The request `POST /nodes/{node}/qemu/{vmid}/status/start`, with the
    /// parameters of `request` as its form.
    pub fn start_with(
        &self,
        node: &str,
        vmid: u32,
        request: &QemuActionRequest,
    ) -> (r: Result<ApiRequest, PveError>)
        ensures
            result_view(r) == self.client.request_outcome(
                HttpMethod::Post,
                "/nodes/"@ + percent_encoded(node@) + "/qemu/"@ + decimal(vmid as nat) + "/status/"@
                    + "start"@,
                None,
                Some(request.params()),
            ),
    {
        self.client.qemu_start_with(node, vmid, request)
    }

    /// The request `POST /nodes/{node}/qemu/{vmid}/status/shutdown`, with
    /// `params` as its form.
    pub fn shutdown(
        &self,
        node: &str,
        vmid: u32,
        params: &PveParams,
    ) -> (r: Result<ApiRequest, PveError>)
        ensures
            result_view(r) == self.client.request_outcome(
                HttpMethod::Post,
                "/nodes/"@ + percent_encoded(node@) + "/qemu/"@ + decimal(vmid as nat) + "/status/"@
                    + "shutdown"@,
                None,
                Some(params@),
            ),
    {
        self.client.qemu_shutdown(node, vmid, params)
    }

    /// The request `POST /nodes/{node}/qemu/{vmid}/status/shutdown`, with the
    /// parameters of `request` as its form.
    pub fn shutdown_with(
        &self,
        node: &str,
        vmid: u32,
        request: &QemuActionRequest,
    ) -> (r: Result<ApiRequest, PveError>)
        ensures
            result_view(r) == self.client.request_outcome(
                HttpMethod::Post,
                "/nodes/"@ + percent_encoded(node@) + "/qemu/"@ + decimal(vmid as nat) + "/status/"@
                    + "shutdown"@,
                None,
                Some(request.params()),
            ),
    {
        self.client.qemu_shutdown_with(node, vmid, request)
    }

    /// The request `POST /nodes/{node}/qemu/{vmid}/status/stop`, with `params` as
    /// its form.
    pub fn stop(
        &self,
        node: &str,
        vmid: u32,
        params: &PveParams,
    ) -> (r: Result<ApiRequest, PveError>)
        ensures
            result_view(r) == self.client.request_outcome(
                HttpMethod::Post,
                "/nodes/"@ + percent_encoded(node@) + "/qemu/"@ + decimal(vmid as nat) + "/status/"@
                    + "stop"@,
                None,
                Some(params@),
            ),
    {
        self.client.qemu_stop(node, vmid, params)
    }

    /// The request `POST /nodes/{node}/qemu/{vmid}/status/stop`, with the
    /// parameters of `request` as its form.
    pub fn stop_with(
        &self,
        node: &str,
        vmid: u32,
        request: &QemuActionRequest,
    ) -> (r: Result<ApiRequest, PveError>)
        ensures
            result_view(r) == self.client.request_outcome(
                HttpMethod::Post,
                "/nodes/"@ + percent_encoded(node@) + "/qemu/"@ + decimal(vmid as nat) + "/status/"@
                    + "stop"@,
                None,
                Some(request.params()),
            ),
    {
        self.client.qemu_stop_with(node, vmid, request)
    }

    /// The request `POST /nodes/{node}/qemu/{vmid}/status/reboot`, with `params`
    /// as its form.
    pub fn reboot(
        &self,
        node: &str,
        vmid: u32,
        params: &PveParams,
    ) -> (r: Result<ApiRequest, PveError>)
        ensures
            result_view(r) == self.client.request_outcome(
                HttpMethod::Post,
                "/nodes/"@ + percent_encoded(node@) + "/qemu/"@ + decimal(vmid as nat) + "/status/"@
                    + "reboot"@,
                None,
                Some(params@),
            ),
    {
        self.client.qemu_reboot(node, vmid, params)
    }

    /// The request `POST /nodes/{node}/qemu/{vmid}/status/reboot`, with the
    /// parameters of `request` as its form.
    pub fn reboot_with(
        &self,
        node: &str,
        vmid: u32,
        request: &QemuActionRequest,
    ) -> (r: Result<ApiRequest, PveError>)
        ensures
            result_view(r) == self.client.request_outcome(
                HttpMethod::Post,
                "/nodes/"@ + percent_encoded(node@) + "/qemu/"@ + decimal(vmid as nat) + "/status/"@
                    + "reboot"@,
                None,
                Some(request.params()),
            ),
    {
        self.client.qemu_reboot_with(node, vmid, request)
    }

    /// The request `POST /nodes/{node}/qemu/{vmid}/status/suspend`, with `params`
    /// as its form.
    pub fn suspend(
        &self,
        node: &str,
        vmid: u32,
        params: &PveParams,
    ) -> (r: Result<ApiRequest, PveError>)
        ensures
            result_view(r) == self.client.request_outcome(
                HttpMethod::Post,
                "/nodes/"@ + percent_encoded(node@) + "/qemu/"@ + decimal(vmid as nat) + "/status/"@
                    + "suspend"@,
                None,
                Some(params@),
            ),
    {
        self.client.qemu_suspend(node, vmid, params)
    }

    /// The request `POST /nodes/{node}/qemu/{vmid}/status/suspend`, with the
    /// parameters of `request` as its form.
    pub fn suspend_with(
        &self,
        node: &str,
        vmid: u32,
        request: &QemuActionRequest,
    ) -> (r: Result<ApiRequest, PveError>)
        ensures
            result_view(r) == self.client.request_outcome(
                HttpMethod::Post,
                "/nodes/"@ + percent_encoded(node@) + "/qemu/"@ + decimal(vmid as nat) + "/status/"@
                    + "suspend"@,
                None,
                Some(request.params()),
            ),
    {
        self.client.qemu_suspend_with(node, vmid, request)
    }

    /// The request `POST /nodes/{node}/qemu/{vmid}/status/resume`, with `params`
    /// as its form.
    pub fn resume(
        &self,
        node: &str,
        vmid: u32,
        params: &PveParams,
    ) -> (r: Result<ApiRequest, PveError>)
        ensures
            result_view(r) == self.client.request_outcome(
                HttpMethod::Post,
                "/nodes/"@ + percent_encoded(node@) + "/qemu/"@ + decimal(vmid as nat) + "/status/"@
                    + "resume"@,
                None,
                Some(params@),
            ),
    {
        self.client.qemu_resume(node, vmid, params)
    }

    /// The request `POST /nodes/{node}/qemu/{vmid}/status/resume`, with the
    /// parameters of `request` as its form.
    pub fn resume_with(
        &self,
        node: &str,
        vmid: u32,
        request: &QemuActionRequest,
    ) -> (r: Result<ApiRequest, PveError>)
        ensures
            result_view(r) == self.client.request_outcome(
                HttpMethod::Post,
                "/nodes/"@ + percent_encoded(node@) + "/qemu/"@ + decimal(vmid as nat) + "/status/"@
                    + "resume"@,
                None,
                Some(request.params()),
            ),
    {
        self.client.qemu_resume_with(node, vmid, request)
    }

    /// The request `GET /nodes/{node}/qemu/{vmid}/snapshot`.
    pub fn snapshots(&self, node: &str, vmid: u32) -> (r: Result<ApiRequest, PveError>)
        ensures
            result_view(r) == self.client.request_outcome(
                HttpMethod::Get,
                "/nodes/"@ + percent_encoded(node@) + "/qemu/"@ + decimal(vmid as nat)
                    + "/snapshot"@,
                None,
                None,
            ),
    {
        self.client.qemu_snapshots(node, vmid)
    }

    /// The request `POST /nodes/{node}/qemu/{vmid}/snapshot`, with `params` and
    /// `snapname` as its form.
    pub fn snapshot_create(
        &self,
        node: &str,
        vmid: u32,
        snapname: &str,
        params: &PveParams,
    ) -> (r: Result<ApiRequest, PveError>)
        ensures
            result_view(r) == self.client.request_outcome(
                HttpMethod::Post,
                "/nodes/"@ + percent_encoded(node@) + "/qemu/"@ + decimal(vmid as nat)
                    + "/snapshot"@,
                None,
                Some(params@.insert("snapname"@, snapname@)),
            ),
    {
        self.client.qemu_snapshot_create(node, vmid, snapname, params)
    }

    /// The request `POST /nodes/{node}/qemu/{vmid}/snapshot`, with the parameters
    /// of `request` as its form.
    pub fn snapshot_create_with(
        &self,
        node: &str,
        vmid: u32,
        request: &QemuSnapshotCreateRequest,
    ) -> (r: Result<ApiRequest, PveError>)
        ensures
            result_view(r) == self.client.request_outcome(
                HttpMethod::Post,
                "/nodes/"@ + percent_encoded(node@) + "/qemu/"@ + decimal(vmid as nat)
                    + "/snapshot"@,
                None,
                Some(request.params()),
            ),
    {
        self.client.qemu_snapshot_create_with(node, vmid, request)
    }

    /// The request `POST /nodes/{node}/qemu/{vmid}/snapshot/{snapname}/rollback`,
    /// with `params` as its form.
    pub fn snapshot_rollback(
        &self,
        node: &str,
        vmid: u32,
        snapname: &str,
        params: &PveParams,
    ) -> (r: Result<ApiRequest, PveError>)
        ensures
            result_view(r) == self.client.request_outcome(
                HttpMethod::Post,
                "/nodes/"@ + percent_encoded(node@) + "/qemu/"@ + decimal(vmid as nat)
                    + "/snapshot/"@ + percent_encoded(snapname@) + "/rollback"@,
                None,
                Some(params@),
            ),
    {
        self.client.qemu_snapshot_rollback(node, vmid, snapname, params)
    }

    /// The request `POST /nodes/{node}/qemu/{vmid}/snapshot/{snapname}/rollback`,
    /// with the parameters of `request` as its form.
    pub fn snapshot_rollback_with(
        &self,
        node: &str,
        vmid: u32,
        request: &QemuSnapshotRollbackRequest,
    ) -> (r: Result<ApiRequest, PveError>)
        ensures
            result_view(r) == self.client.request_outcome(
                HttpMethod::Post,
                "/nodes/"@ + percent_encoded(node@) + "/qemu/"@ + decimal(vmid as nat)
                    + "/snapshot/"@ + percent_encoded(request.snapname@) + "/rollback"@,
                None,
                Some(request.params()),
            ),
    {
        self.client.qemu_snapshot_rollback_with(node, vmid, request)
    }

    /// The request `POST /nodes/{node}/qemu/{vmid}/clone`, with `params` and
    /// `newid` as its form.
    pub fn clone(
        &self,
        node: &str,
        vmid: u32,
        newid: u32,
        params: &PveParams,
    ) -> (r: Result<ApiRequest, PveError>)
        ensures
            result_view(r) == self.client.request_outcome(
                HttpMethod::Post,
                "/nodes/"@ + percent_encoded(node@) + "/qemu/"@ + decimal(vmid as nat) + "/clone"@,
                None,
                Some(params@.insert("newid"@, decimal(newid as nat))),
            ),
    {
        self.client.qemu_clone(node, vmid, newid, params)
    }

    /// The request `POST /nodes/{node}/qemu/{vmid}/clone`, with the parameters of
    /// `request` as its form.
    pub fn clone_with(
        &self,
        node: &str,
        vmid: u32,
        request: &QemuCloneRequest,
    ) -> (r: Result<ApiRequest, PveError>)
        ensures
            result_view(r) == self.client.request_outcome(
                HttpMethod::Post,
                "/nodes/"@ + percent_encoded(node@) + "/qemu/"@ + decimal(vmid as nat) + "/clone"@,
                None,
                Some(request.params()),
            ),
    {
        self.client.qemu_clone_with(node, vmid, request)
    }

    /// The request `POST /nodes/{node}/qemu/{vmid}/migrate`, with `params` and
    /// `target` as its form.
    pub fn migrate(
        &self,
        node: &str,
        vmid: u32,
        target: &str,
        params: &PveParams,
    ) -> (r: Result<ApiRequest, PveError>)
        ensures
            result_view(r) == self.client.request_outcome(
                HttpMethod::Post,
                "/nodes/"@ + percent_encoded(node@) + "/qemu/"@ + decimal(vmid as nat)
                    + "/migrate"@,
                None,
                Some(params@.insert("target"@, target@)),
            ),
    {
        self.client.qemu_migrate(node, vmid, target, params)
    }

    /// The request `POST /nodes/{node}/qemu/{vmid}/migrate`, with the parameters
    /// of `request` as its form.
    pub fn migrate_with(
        &self,
        node: &str,
        vmid: u32,
        request: &QemuMigrateRequest,
    ) -> (r: Result<ApiRequest, PveError>)
        ensures
            result_view(r) == self.client.request_outcome(
                HttpMethod::Post,
                "/nodes/"@ + percent_encoded(node@) + "/qemu/"@ + decimal(vmid as nat)
                    + "/migrate"@,
                None,
                Some(request.params()),
            ),
    {
        self.client.qemu_migrate_with(node, vmid, request)
    }
}

/// The requests for containers.
#[derive(Debug)]
pub struct LxcApi<'a> {
    pub client: &'a PveClient,
}

impl<'a> LxcApi<'a> {
    /// The request `GET /nodes/{node}/lxc`.
    pub fn list(&self, node: &str) -> (r: Result<ApiRequest, PveError>)
        ensures
            result_view(r) == self.client.request_outcome(
                HttpMethod::Get,
                "/nodes/"@ + percent_encoded(node@) + "/lxc"@,
                None,
                None,
            ),
    {
        self.client.lxc_list(node)
    }

    /// The request `POST /nodes/{node}/lxc`, with `params` and `vmid`,
    /// `ostemplate` as its form.
    pub fn create(
        &self,
        node: &str,
        vmid: u32,
        ostemplate: &str,
        params: &PveParams,
    ) -> (r: Result<ApiRequest, PveError>)
        ensures
            result_view(r) == self.client.request_outcome(
                HttpMethod::Post,
                "/nodes/"@ + percent_encoded(node@) + "/lxc"@,
                None,
                Some(
                    params@.insert("vmid"@, decimal(vmid as nat)).insert(
                        "ostemplate"@,
                        ostemplate@,
                    ),
                ),
            ),
    {
        self.client.lxc_create(node, vmid, ostemplate, params)
    }

    /// The request `POST /nodes/{node}/lxc`, with the parameters of `request` as
    /// its form.
    pub fn create_with(
        &self,
        node: &str,
        request: &LxcCreateRequest,
    ) -> (r: Result<ApiRequest, PveError>)
        ensures
            result_view(r) == self.client.request_outcome(
                HttpMethod::Post,
                "/nodes/"@ + percent_encoded(node@) + "/lxc"@,
                None,
                Some(request.params()),
            ),
    {
        self.client.lxc_create_with(node, request)
    }

    /// The request `GET /nodes/{node}/lxc/{vmid}/config`, with `current`,
    /// `snapshot` as its query.
    pub fn config(
        &self,
        node: &str,
        vmid: u32,
        current: Option<bool>,
        snapshot: Option<&str>,
    ) -> (r: Result<ApiRequest, PveError>)
        ensures
            result_view(r) == self.client.request_outcome(
                HttpMethod::Get,
                "/nodes/"@ + percent_encoded(node@) + "/lxc/"@ + decimal(vmid as nat) + "/config"@,
                Some(
                    put_opt(
                        put_opt(
                            Map::<Seq<char>,
                            Seq<char>>::empty(),
                            "current"@,
                            opt_flag(current),
                        ),
                        "snapshot"@,
                        opt_str_view(snapshot),
                    ),
                ),
                None,
            ),
    {
        self.client.lxc_config(node, vmid, current, snapshot)
    }

    /// The request `GET /nodes/{node}/lxc/{vmid}/config`, with the parameters of
    /// `query` as its query.
    pub fn config_with(
        &self,
        node: &str,
        vmid: u32,
        query: &LxcConfigQuery,
    ) -> (r: Result<ApiRequest, PveError>)
        ensures
            result_view(r) == self.client.request_outcome(
                HttpMethod::Get,
                "/nodes/"@ + percent_encoded(node@) + "/lxc/"@ + decimal(vmid as nat) + "/config"@,
                Some(query.params()),
                None,
            ),
    {
        self.client.lxc_config_with(node, vmid, query)
    }

    /// The request `PUT /nodes/{node}/lxc/{vmid}/config`, with `params` as its
    /// form.
    pub fn set_config(
        &self,
        node: &str,
        vmid: u32,
        params: &PveParams,
    ) -> (r: Result<ApiRequest, PveError>)
        ensures
            result_view(r) == self.client.request_outcome(
                HttpMethod::Put,
                "/nodes/"@ + percent_encoded(node@) + "/lxc/"@ + decimal(vmid as nat) + "/config"@,
                None,
                Some(params@),
            ),
    {
        self.client.lxc_set_config(node, vmid, params)
    }

    /// The request `PUT /nodes/{node}/lxc/{vmid}/config`, with the parameters of
    /// `request` as its form.
    pub fn set_config_with(
        &self,
        node: &str,
        vmid: u32,
        request: &LxcSetConfigRequest,
    ) -> (r: Result<ApiRequest, PveError>)
        ensures
            result_view(r) == self.client.request_outcome(
                HttpMethod::Put,
                "/nodes/"@ + percent_encoded(node@) + "/lxc/"@ + decimal(vmid as nat) + "/config"@,
                None,
                Some(request.params()),
            ),
    {
        self.client.lxc_set_config_with(node, vmid, request)
    }

    /// The request `GET /nodes/{node}/lxc/{vmid}/status/current`.
    pub fn status(&self, node: &str, vmid: u32) -> (r: Result<ApiRequest, PveError>)
        ensures
            result_view(r) == self.client.request_outcome(
                HttpMethod::Get,
                "/nodes/"@ + percent_encoded(node@) + "/lxc/"@ + decimal(vmid as nat)
                    + "/status/current"@,
                None,
                None,
            ),
    {
        self.client.lxc_status(node, vmid)
    }

    /// The request `POST /nodes/{node}/lxc/{vmid}/status/start`, with `params` as
    /// its form.
    pub fn start(
        &self,
        node: &str,
        vmid: u32,
        params: &PveParams,
    ) -> (r: Result<ApiRequest, PveError>)
        ensures
            result_view(r) == self.client.request_outcome(
                HttpMethod::Post,
                "/nodes/"@ + percent_encoded(node@) + "/lxc/"@ + decimal(vmid as nat) + "/status/"@
                    + "start"@,
                None,
                Some(params@),
            ),
    {
        self.client.lxc_start(node, vmid, params)
    }

    /// The request `POST /nodes/{node}/lxc/{vmid}/status/start`, with the
    /// parameters of `request` as its form.
    pub fn start_with(
        &self,
        node: &str,
        vmid: u32,
        request: &LxcActionRequest,
    ) -> (r: Result<ApiRequest, PveError>)
        ensures
            result_view(r) == self.client.request_outcome(
                HttpMethod::Post,
                "/nodes/"@ + percent_encoded(node@) + "/lxc/"@ + decimal(vmid as nat) + "/status/"@
                    + "start"@,
                None,
                Some(request.params()),
            ),
    {
        self.client.lxc_start_with(node, vmid, request)
    }

    /// The request `POST /nodes/{node}/lxc/{vmid}/status/shutdown`, with `params`
    /// as its form.
    pub fn shutdown(
        &self,
        node: &str,
        vmid: u32,
        params: &PveParams,
    ) -> (r: Result<ApiRequest, PveError>)
        ensures
            result_view(r) == self.client.request_outcome(
                HttpMethod::Post,
                "/nodes/"@ + percent_encoded(node@) + "/lxc/"@ + decimal(vmid as nat) + "/status/"@
                    + "shutdown"@,
                None,
                Some(params@),
            ),
    {
        self.client.lxc_shutdown(node, vmid, params)
    }

    /// The request `POST /nodes/{node}/lxc/{vmid}/status/shutdown`, with the
    /// parameters of `request` as its form.
    pub fn shutdown_with(
        &self,
        node: &str,
        vmid: u32,
        request: &LxcActionRequest,
    ) -> (r: Result<ApiRequest, PveError>)
        ensures
            result_view(r) == self.client.request_outcome(
                HttpMethod::Post,
                "/nodes/"@ + percent_encoded(node@) + "/lxc/"@ + decimal(vmid as nat) + "/status/"@
                    + "shutdown"@,
                None,
                Some(request.params()),
            ),
    {
        self.client.lxc_shutdown_with(node, vmid, request)
    }

    /// The request `POST /nodes/{node}/lxc/{vmid}/status/stop`, with `params` as
    /// its form.
    pub fn stop(
        &self,
        node: &str,
        vmid: u32,
        params: &PveParams,
    ) -> (r: Result<ApiRequest, PveError>)
        ensures
            result_view(r) == self.client.request_outcome(
                HttpMethod::Post,
                "/nodes/"@ + percent_encoded(node@) + "/lxc/"@ + decimal(vmid as nat) + "/status/"@
                    + "stop"@,
                None,
                Some(params@),
            ),
    {
        self.client.lxc_stop(node, vmid, params)
    }

    /// The request `POST /nodes/{node}/lxc/{vmid}/status/stop`, with the
    /// parameters of `request` as its form.
    pub fn stop_with(
        &self,
        node: &str,
        vmid: u32,
        request: &LxcActionRequest,
    ) -> (r: Result<ApiRequest, PveError>)
        ensures
            result_view(r) == self.client.request_outcome(
                HttpMethod::Post,
                "/nodes/"@ + percent_encoded(node@) + "/lxc/"@ + decimal(vmid as nat) + "/status/"@
                    + "stop"@,
                None,
                Some(request.params()),
            ),
    {
        self.client.lxc_stop_with(node, vmid, request)
    }

    /// The request `POST /nodes/{node}/lxc/{vmid}/status/reboot`, with `params`
    /// as its form.
    pub fn reboot(
        &self,
        node: &str,
        vmid: u32,
        params: &PveParams,
    ) -> (r: Result<ApiRequest, PveError>)
        ensures
            result_view(r) == self.client.request_outcome(
                HttpMethod::Post,
                "/nodes/"@ + percent_encoded(node@) + "/lxc/"@ + decimal(vmid as nat) + "/status/"@
                    + "reboot"@,
                None,
                Some(params@),
            ),
    {
        self.client.lxc_reboot(node, vmid, params)
    }

    /// The request `POST /nodes/{node}/lxc/{vmid}/status/reboot`, with the
    /// parameters of `request` as its form.
    pub fn reboot_with(
        &self,
        node: &str,
        vmid: u32,
        request: &LxcActionRequest,
    ) -> (r: Result<ApiRequest, PveError>)
        ensures
            result_view(r) == self.client.request_outcome(
                HttpMethod::Post,
                "/nodes/"@ + percent_encoded(node@) + "/lxc/"@ + decimal(vmid as nat) + "/status/"@
                    + "reboot"@,
                None,
                Some(request.params()),
            ),
    {
        self.client.lxc_reboot_with(node, vmid, request)
    }

    /// The request `GET /nodes/{node}/lxc/{vmid}/snapshot`.
    pub fn snapshots(&self, node: &str, vmid: u32) -> (r: Result<ApiRequest, PveError>)
        ensures
            result_view(r) == self.client.request_outcome(
                HttpMethod::Get,
                "/nodes/"@ + percent_encoded(node@) + "/lxc/"@ + decimal(vmid as nat)
                    + "/snapshot"@,
                None,
                None,
            ),
    {
        self.client.lxc_snapshots(node, vmid)
    }

    /// The request `POST /nodes/{node}/lxc/{vmid}/snapshot`, with `params` and
    /// `snapname` as its form.
    pub fn snapshot_create(
        &self,
        node: &str,
        vmid: u32,
        snapname: &str,
        params: &PveParams,
    ) -> (r: Result<ApiRequest, PveError>)
        ensures
            result_view(r) == self.client.request_outcome(
                HttpMethod::Post,
                "/nodes/"@ + percent_encoded(node@) + "/lxc/"@ + decimal(vmid as nat)
                    + "/snapshot"@,
                None,
                Some(params@.insert("snapname"@, snapname@)),
            ),
    {
        self.client.lxc_snapshot_create(node, vmid, snapname, params)
    }

    /// The request `POST /nodes/{node}/lxc/{vmid}/snapshot`, with the parameters
    /// of `request` as its form.
    pub fn snapshot_create_with(
        &self,
        node: &str,
        vmid: u32,
        request: &LxcSnapshotCreateRequest,
    ) -> (r: Result<ApiRequest, PveError>)
        ensures
            result_view(r) == self.client.request_outcome(
                HttpMethod::Post,
                "/nodes/"@ + percent_encoded(node@) + "/lxc/"@ + decimal(vmid as nat)
                    + "/snapshot"@,
                None,
                Some(request.params()),
            ),
    {
        self.client.lxc_snapshot_create_with(node, vmid, request)
    }

    /// The request `POST /nodes/{node}/lxc/{vmid}/snapshot/{snapname}/rollback`,
    /// with `params` as its form.
    pub fn snapshot_rollback(
        &self,
        node: &str,
        vmid: u32,
        snapname: &str,
        params: &PveParams,
    ) -> (r: Result<ApiRequest, PveError>)
        ensures
            result_view(r) == self.client.request_outcome(
                HttpMethod::Post,
                "/nodes/"@ + percent_encoded(node@) + "/lxc/"@ + decimal(vmid as nat)
                    + "/snapshot/"@ + percent_encoded(snapname@) + "/rollback"@,
                None,
                Some(params@),
            ),
    {
        self.client.lxc_snapshot_rollback(node, vmid, snapname, params)
    }

    /// The request `POST /nodes/{node}/lxc/{vmid}/snapshot/{snapname}/rollback`,
    /// with the parameters of `request` as its form.
    pub fn snapshot_rollback_with(
        &self,
        node: &str,
        vmid: u32,
        request: &LxcSnapshotRollbackRequest,
    ) -> (r: Result<ApiRequest, PveError>)
        ensures
            result_view(r) == self.client.request_outcome(
                HttpMethod::Post,
                "/nodes/"@ + percent_encoded(node@) + "/lxc/"@ + decimal(vmid as nat)
                    + "/snapshot/"@ + percent_encoded(request.snapname@) + "/rollback"@,
                None,
                Some(request.params()),
            ),
    {
        self.client.lxc_snapshot_rollback_with(node, vmid, request)
    }

    /// The request `POST /nodes/{node}/lxc/{vmid}/migrate`, with `params` and
    /// `target` as its form.
    pub fn migrate(
        &self,
        node: &str,
        vmid: u32,
        target: &str,
        params: &PveParams,
    ) -> (r: Result<ApiRequest, PveError>)
        ensures
            result_view(r) == self.client.request_outcome(
                HttpMethod::Post,
                "/nodes/"@ + percent_encoded(node@) + "/lxc/"@ + decimal(vmid as nat) + "/migrate"@,
                None,
                Some(params@.insert("target"@, target@)),
            ),
    {
        self.client.lxc_migrate(node, vmid, target, params)
    }

    /// The request `POST /nodes/{node}/lxc/{vmid}/migrate`, with the parameters
    /// of `request` as its form.
    pub fn migrate_with(
        &self,
        node: &str,
        vmid: u32,
        request: &LxcMigrateRequest,
    ) -> (r: Result<ApiRequest, PveError>)
        ensures
            result_view(r) == self.client.request_outcome(
                HttpMethod::Post,
                "/nodes/"@ + percent_encoded(node@) + "/lxc/"@ + decimal(vmid as nat) + "/migrate"@,
                None,
                Some(request.params()),
            ),
    {
        self.client.lxc_migrate_with(node, vmid, request)
    }
}

/// The requests for storages and their volumes.
#[derive(Debug)]
pub struct StorageApi<'a> {
    pub client: &'a PveClient,
}

impl<'a> StorageApi<'a> {
    /// The request `GET /storage`, with `type` as its query.
    pub fn index(&self, storage_type: Option<&str>) -> (r: Result<ApiRequest, PveError>)
        ensures
            result_view(r) == self.client.request_outcome(
                HttpMethod::Get,
                "/storage"@,
                Some(
                    put_opt(
                        Map::<Seq<char>,
                        Seq<char>>::empty(),
                        "type"@,
                        opt_str_view(storage_type),
                    ),
                ),
                None,
            ),
    {
        self.client.storage_index(storage_type)
    }

    /// The request `GET /nodes/{node}/storage`, with `query` as its query.
    pub fn node_storage(&self, node: &str, query: &PveParams) -> (r: Result<ApiRequest, PveError>)
        ensures
            result_view(r) == self.client.request_outcome(
                HttpMethod::Get,
                "/nodes/"@ + percent_encoded(node@) + "/storage"@,
                Some(query@),
                None,
            ),
    {
        self.client.node_storage(node, query)
    }

    /// The request `GET /nodes/{node}/storage`, with the parameters of `query` as
    /// its query.
    pub fn node_storage_with(
        &self,
        node: &str,
        query: &NodeStorageQuery,
    ) -> (r: Result<ApiRequest, PveError>)
        ensures
            result_view(r) == self.client.request_outcome(
                HttpMethod::Get,
                "/nodes/"@ + percent_encoded(node@) + "/storage"@,
                Some(query.params()),
                None,
            ),
    {
        self.client.node_storage_with(node, query)
    }

    /// The request `GET /nodes/{node}/storage/{storage}/content`, with `query` as
    /// its query.
    pub fn content(
        &self,
        node: &str,
        storage: &str,
        query: &PveParams,
    ) -> (r: Result<ApiRequest, PveError>)
        ensures
            result_view(r) == self.client.request_outcome(
                HttpMethod::Get,
                "/nodes/"@ + percent_encoded(node@) + "/storage/"@ + percent_encoded(storage@)
                    + "/content"@,
                Some(query@),
                None,
            ),
    {
        self.client.storage_content(node, storage, query)
    }

    /// The request `GET /nodes/{node}/storage/{storage}/content`, with the
    /// parameters of `query` as its query.
    pub fn content_with(
        &self,
        node: &str,
        storage: &str,
        query: &StorageContentQuery,
    ) -> (r: Result<ApiRequest, PveError>)
        ensures
            result_view(r) == self.client.request_outcome(
                HttpMethod::Get,
                "/nodes/"@ + percent_encoded(node@) + "/storage/"@ + percent_encoded(storage@)
                    + "/content"@,
                Some(query.params()),
                None,
            ),
    {
        self.client.storage_content_with(node, storage, query)
    }

    /// The request `POST /nodes/{node}/storage/{storage}/content`, with `params`
    /// and `vmid`, `filename`, `size` as its form.
    pub fn allocate_disk(
        &self,
        node: &str,
        storage: &str,
        vmid: u32,
        filename: &str,
        size: &str,
        params: &PveParams,
    ) -> (r: Result<ApiRequest, PveError>)
        ensures
            result_view(r) == self.client.request_outcome(
                HttpMethod::Post,
                "/nodes/"@ + percent_encoded(node@) + "/storage/"@ + percent_encoded(storage@)
                    + "/content"@,
                None,
                Some(
                    params@.insert("vmid"@, decimal(vmid as nat)).insert(
                        "filename"@,
                        filename@,
                    ).insert("size"@, size@),
                ),
            ),
    {
        self.client.storage_allocate_disk(node, storage, vmid, filename, size, params)
    }

    /// The request `POST /nodes/{node}/storage/{storage}/content`, with the
    /// parameters of `request` as its form.
    pub fn allocate_disk_with(
        &self,
        node: &str,
        storage: &str,
        request: &StorageAllocateDiskRequest,
    ) -> (r: Result<ApiRequest, PveError>)
        ensures
            result_view(r) == self.client.request_outcome(
                HttpMethod::Post,
                "/nodes/"@ + percent_encoded(node@) + "/storage/"@ + percent_encoded(storage@)
                    + "/content"@,
                None,
                Some(request.params()),
            ),
    {
        self.client.storage_allocate_disk_with(node, storage, request)
    }

    /// The request `POST /nodes/{node}/storage/{storage}/upload`, to which the
    /// caller attaches the multipart body.
    pub fn upload_form(&self, node: &str, storage: &str) -> (r: Result<ApiRequest, PveError>)
        ensures
            result_view(r) == self.client.request_outcome(
                HttpMethod::Post,
                "/nodes/"@ + percent_encoded(node@) + "/storage/"@ + percent_encoded(storage@)
                    + "/upload"@,
                None,
                None,
            ),
    {
        self.client.storage_upload_form(node, storage)
    }

    /// Plans the upload of a file; see `PveClient::storage_upload_file`.
    pub fn upload_file(
        &self,
        node: &str,
        storage: &str,
        content: &str,
        file_name: Option<&str>,
        checksum: Option<&str>,
        checksum_algorithm: Option<&str>,
    ) -> (r: Result<UploadPlan, PveError>)
        ensures
            match file_name {
                None => r is Err && r->Err_0@ == ErrorView::InvalidArgument(msg_upload_path()),
                Some(name) => match self.client.request_outcome(
                    HttpMethod::Post,
                    "/nodes/"@ + percent_encoded(node@) + "/storage/"@ + percent_encoded(storage@)
                        + "/upload"@,
                    None,
                    None,
                ) {
                    Err(e) => r is Err && r->Err_0@ == e,
                    Ok(request) => {
                        &&& r is Ok
                        &&& r->Ok_0.request@ == request
                        &&& parts_view(r->Ok_0.parts@) == upload_parts_spec(
                            content@,
                            name@,
                            opt_str_view(checksum),
                            opt_str_view(checksum_algorithm),
                        )
                    },
                },
            },
    {
        self.client.storage_upload_file(
            node,
            storage,
            content,
            file_name,
            checksum,
            checksum_algorithm,
        )
    }

    /// Plans the upload that `request` describes; see
    /// `PveClient::storage_upload_with`.
    pub fn upload_with(
        &self,
        node: &str,
        storage: &str,
        request: &StorageUploadRequest,
        file_name: Option<&str>,
    ) -> (r: Result<UploadPlan, PveError>)
        ensures
            match file_name {
                None => r is Err && r->Err_0@ == ErrorView::InvalidArgument(msg_upload_path()),
                Some(name) => match self.client.request_outcome(
                    HttpMethod::Post,
                    "/nodes/"@ + percent_encoded(node@) + "/storage/"@ + percent_encoded(storage@)
                        + "/upload"@,
                    None,
                    None,
                ) {
                    Err(e) => r is Err && r->Err_0@ == e,
                    Ok(planned) => {
                        &&& r is Ok
                        &&& r->Ok_0.request@ == planned
                        &&& parts_view(r->Ok_0.parts@) == upload_parts_spec(
                            request.content@,
                            name@,
                            opt_view(request.checksum),
                            opt_view(request.checksum_algorithm),
                        )
                    },
                },
            },
    {
        self.client.storage_upload_with(node, storage, request, file_name)
    }

    /// The request `DELETE /nodes/{node}/storage/{storage}/content/{volume}`,
    /// with `delay` as its query.
    pub fn delete_volume(
        &self,
        node: &str,
        storage: &str,
        volume: &str,
        delay: Option<u32>,
    ) -> (r: Result<ApiRequest, PveError>)
        ensures
            result_view(r) == self.client.request_outcome(
                HttpMethod::Delete,
                "/nodes/"@ + percent_encoded(node@) + "/storage/"@ + percent_encoded(storage@)
                    + "/content/"@ + percent_encoded(volume@),
                Some(
                    put_opt(Map::<Seq<char>, Seq<char>>::empty(), "delay"@, opt_decimal_u32(delay)),
                ),
                None,
            ),
    {
        self.client.storage_delete_volume(node, storage, volume, delay)
    }

    /// The request `DELETE /nodes/{node}/storage/{storage}/content/{volume}`,
    /// with `delay` as its query.
    pub fn delete_volume_with(
        &self,
        node: &str,
        storage: &str,
        volume: &str,
        request: &StorageDeleteVolumeRequest,
    ) -> (r: Result<ApiRequest, PveError>)
        ensures
            result_view(r) == self.client.request_outcome(
                HttpMethod::Delete,
                "/nodes/"@ + percent_encoded(node@) + "/storage/"@ + percent_encoded(storage@)
                    + "/content/"@ + percent_encoded(volume@),
                Some(
                    put_opt(
                        Map::<Seq<char>,
                        Seq<char>>::empty(),
                        "delay"@,
                        opt_decimal_u32(request.delay),
                    ),
                ),
                None,
            ),
    {
        self.client.storage_delete_volume_with(node, storage, volume, request)
    }
}

/// The requests for backup jobs.
#[derive(Debug)]
pub struct BackupApi<'a> {
    pub client: &'a PveClient,
}

impl<'a> BackupApi<'a> {
    /// The request `POST /nodes/{node}/vzdump`, with `params` as its form.
    pub fn vzdump(&self, node: &str, params: &PveParams) -> (r: Result<ApiRequest, PveError>)
        ensures
            result_view(r) == self.client.request_outcome(
                HttpMethod::Post,
                "/nodes/"@ + percent_encoded(node@) + "/vzdump"@,
                None,
                Some(params@),
            ),
    {
        self.client.vzdump_backup(node, params)
    }

    /// The request `POST /nodes/{node}/vzdump`, with the parameters of `request`
    /// as its form.
    pub fn vzdump_with(
        &self,
        node: &str,
        request: &VzdumpRequest,
    ) -> (r: Result<ApiRequest, PveError>)
        ensures
            result_view(r) == self.client.request_outcome(
                HttpMethod::Post,
                "/nodes/"@ + percent_encoded(node@) + "/vzdump"@,
                None,
                Some(request.params()),
            ),
    {
        self.client.vzdump_backup_with(node, request)
    }
}

/// The requests for tasks.
#[derive(Debug)]
pub struct TaskApi<'a> {
    pub client: &'a PveClient,
}

impl<'a> TaskApi<'a> {
    /// The request `GET /nodes/{node}/tasks/{upid}/status`.
    pub fn status(&self, node: &str, upid: &str) -> (r: Result<ApiRequest, PveError>)
        ensures
            result_view(r) == self.client.request_outcome(
                HttpMethod::Get,
                "/nodes/"@ + percent_encoded(node@) + "/tasks/"@ + percent_encoded(upid@)
                    + "/status"@,
                None,
                None,
            ),
    {
        self.client.task_status(node, upid)
    }

    /// The request `GET /nodes/{node}/tasks/{upid}/log`, with `start`, `limit` as
    /// its query.
    pub fn log(
        &self,
        node: &str,
        upid: &str,
        start: Option<u64>,
        limit: Option<u64>,
    ) -> (r: Result<ApiRequest, PveError>)
        ensures
            result_view(r) == self.client.request_outcome(
                HttpMethod::Get,
                "/nodes/"@ + percent_encoded(node@) + "/tasks/"@ + percent_encoded(upid@) + "/log"@,
                Some(
                    put_opt(
                        put_opt(
                            Map::<Seq<char>,
                            Seq<char>>::empty(),
                            "start"@,
                            opt_decimal_u64(start),
                        ),
                        "limit"@,
                        opt_decimal_u64(limit),
                    ),
                ),
                None,
            ),
    {
        self.client.task_log(node, upid, start, limit)
    }

    /// The request `GET /nodes/{node}/tasks/{upid}/log`, with the parameters of
    /// `query` as its query.
    pub fn log_with(
        &self,
        node: &str,
        upid: &str,
        query: &TaskLogQuery,
    ) -> (r: Result<ApiRequest, PveError>)
        ensures
            result_view(r) == self.client.request_outcome(
                HttpMethod::Get,
                "/nodes/"@ + percent_encoded(node@) + "/tasks/"@ + percent_encoded(upid@) + "/log"@,
                Some(query.params()),
                None,
            ),
    {
        self.client.task_log_with(node, upid, query)
    }

    /// Decides what follows one poll of the task `upid`; see
    /// `wait_for_task_step`.
    pub fn wait(
        &self,
        upid: &str,
        polled: Result<TaskStatus, PveError>,
        elapsed: Duration,
        poll_interval: Duration,
        timeout: Option<Duration>,
    ) -> (r: WaitStep)
        ensures
            wait_step_spec(upid@, polled, elapsed, poll_interval, timeout, r),
    {
        self.client.wait_for_task(upid, polled, elapsed, poll_interval, timeout)
    }

    /// Decides what follows one poll of the task `upid`, with the poll
    /// interval and the deadline of `options`.
    pub fn wait_with_options(
        &self,
        upid: &str,
        polled: Result<TaskStatus, PveError>,
        elapsed: Duration,
        options: &WaitTaskOptions,
    ) -> (r: WaitStep)
        ensures
            wait_step_spec(upid@, polled, elapsed, options.poll_interval, options.timeout, r),
    {
        self.client.wait_for_task_with_options(upid, polled, elapsed, options)
    }
}

/// The requests for paths that have no typed method.
#[derive(Debug)]
pub struct RawApi<'a> {
    pub client: &'a PveClient,
}

impl<'a> RawApi<'a> {
    /// The request for `{path}` with the verb `method`, with `query` as its query
    /// and with `form` as its form.
    pub fn json(
        &self,
        method: HttpMethod,
        path: &str,
        query: Option<&PveParams>,
        form: Option<&PveParams>,
    ) -> (r: Result<ApiRequest, PveError>)
        ensures
            result_view(r) == self.client.request_outcome(
                method,
                path@,
                opt_params_ref_view(query),
                opt_params_ref_view(form),
            ),
    {
        self.client.raw_json(method, path, query, form)
    }

    /// The request `GET {path}`, with `query` as its query.
    pub fn get(&self, path: &str, query: Option<&PveParams>) -> (r: Result<ApiRequest, PveError>)
        ensures
            result_view(r) == self.client.request_outcome(
                HttpMethod::Get,
                path@,
                opt_params_ref_view(query),
                None,
            ),
    {
        self.client.raw_get(path, query)
    }

    /// The request `POST {path}`, with `form` as its form.
    pub fn post(&self, path: &str, form: Option<&PveParams>) -> (r: Result<ApiRequest, PveError>)
        ensures
            result_view(r) == self.client.request_outcome(
                HttpMethod::Post,
                path@,
                None,
                opt_params_ref_view(form),
            ),
    {
        self.client.raw_post(path, form)
    }

    /// The request `PUT {path}`, with `form` as its form.
    pub fn put(&self, path: &str, form: Option<&PveParams>) -> (r: Result<ApiRequest, PveError>)
        ensures
            result_view(r) == self.client.request_outcome(
                HttpMethod::Put,
                path@,
                None,
                opt_params_ref_view(form),
            ),
    {
        self.client.raw_put(path, form)
    }

    /// The request `DELETE {path}`, with `query` as its query.
    pub fn delete(&self, path: &str, query: Option<&PveParams>) -> (r: Result<ApiRequest, PveError>)
        ensures
            result_view(r) == self.client.request_outcome(
                HttpMethod::Delete,
                path@,
                opt_params_ref_view(query),
                None,
            ),
    {
        self.client.raw_delete(path, query)
    }
}

impl PveClient {
    /// This client, for the requests for users, groups, roles, tokens and access-control lists.
    pub fn access(&self) -> (r: AccessApi<'_>)
        ensures
            *r.client == *self,
    {
        AccessApi { client: self }
    }

    /// This client, for the requests for cluster-wide information.
    pub fn cluster(&self) -> (r: ClusterApi<'_>)
        ensures
            *r.client == *self,
    {
        ClusterApi { client: self }
    }

    /// This client, for the requests for the datacenter options.
    pub fn datacenter(&self) -> (r: DatacenterApi<'_>)
        ensures
            *r.client == *self,
    {
        DatacenterApi { client: self }
    }

    /// This client, for the requests for one node.
    pub fn node(&self) -> (r: NodeApi<'_>)
        ensures
            *r.client == *self,
    {
        NodeApi { client: self }
    }

    /// This client, for the requests for virtual machines.
    pub fn qemu(&self) -> (r: QemuApi<'_>)
        ensures
            *r.client == *self,
    {
        QemuApi { client: self }
    }

    /// This client, for the requests for containers.
    pub fn lxc(&self) -> (r: LxcApi<'_>)
        ensures
            *r.client == *self,
    {
        LxcApi { client: self }
    }

    /// This client, for the requests for storages and their volumes.
    pub fn storage(&self) -> (r: StorageApi<'_>)
        ensures
            *r.client == *self,
    {
        StorageApi { client: self }
    }

    /// This client, for the requests for backup jobs.
    pub fn backup(&self) -> (r: BackupApi<'_>)
        ensures
            *r.client == *self,
    {
        BackupApi { client: self }
    }

    /// This client, for the requests for tasks.
    pub fn task(&self) -> (r: TaskApi<'_>)
        ensures
            *r.client == *self,
    {
        TaskApi { client: self }
    }

    /// This client, for the requests for paths that have no typed method.
    pub fn raw(&self) -> (r: RawApi<'_>)
        ensures
            *r.client == *self,
    {
        RawApi { client: self }
    }
}

} // verus!
