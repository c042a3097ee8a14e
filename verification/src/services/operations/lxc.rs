//! Requests for containers.

use crate::auth::HttpMethod;
use crate::client::{ApiRequest, PveClient};
use crate::error::{result_view, PveError};
use crate::params::{opt_flag, put_opt, PveParams};
use crate::text::{decimal, opt_str_view};
use crate::transport::{percent_encoded, ApiPath};
use crate::types::lxc::{
    LxcActionRequest, LxcConfigQuery, LxcCreateRequest, LxcMigrateRequest, LxcSetConfigRequest,
    LxcSnapshotCreateRequest, LxcSnapshotRollbackRequest,
};
use vstd::prelude::*;

verus! {

impl PveClient {
    /// The request `GET /nodes/{node}/lxc`.
    pub fn lxc_list(&self, node: &str) -> (r: Result<ApiRequest, PveError>)
        ensures
            result_view(r) == self.request_outcome(
                HttpMethod::Get,
                "/nodes/"@ + percent_encoded(node@) + "/lxc"@,
                None,
                None,
            ),
    {
        let path = ApiPath::new("/nodes/").segment(node).text("/lxc");
        self.send(HttpMethod::Get, path.as_str(), None, None)
    }

    /// The request `POST /nodes/{node}/lxc`, with `params` and `vmid`,
    /// `ostemplate` as its form.
    pub fn lxc_create(
        &self,
        node: &str,
        vmid: u32,
        ostemplate: &str,
        params: &PveParams,
    ) -> (r: Result<ApiRequest, PveError>)
        ensures
            result_view(r) == self.request_outcome(
                HttpMethod::Post,
                "/nodes/"@ + percent_encoded(node@) + "/lxc"@,
                None,
                Some(
                    params@.insert("vmid"@, decimal(vmid as nat)).insert(
                        "ostemplate"@,
                        ostemplate@,
                    ),
                ),
            ),
    {
        let mut body = params.clone();
        body.insert_number("vmid", vmid as u64);
        body.insert("ostemplate", ostemplate);
        let path = ApiPath::new("/nodes/").segment(node).text("/lxc");
        self.send(HttpMethod::Post, path.as_str(), None, Some(&body))
    }

    /// The request `POST /nodes/{node}/lxc`, with the parameters of `request` as
    /// its form.
    pub fn lxc_create_with(
        &self,
        node: &str,
        request: &LxcCreateRequest,
    ) -> (r: Result<ApiRequest, PveError>)
        ensures
            result_view(r) == self.request_outcome(
                HttpMethod::Post,
                "/nodes/"@ + percent_encoded(node@) + "/lxc"@,
                None,
                Some(request.params()),
            ),
    {
        let body = request.to_params();
        let path = ApiPath::new("/nodes/").segment(node).text("/lxc");
        self.send(HttpMethod::Post, path.as_str(), None, Some(&body))
    }

    /// The request `GET /nodes/{node}/lxc/{vmid}/config`, with `current`,
    /// `snapshot` as its query.
    pub fn lxc_config(
        &self,
        node: &str,
        vmid: u32,
        current: Option<bool>,
        snapshot: Option<&str>,
    ) -> (r: Result<ApiRequest, PveError>)
        ensures
            result_view(r) == self.request_outcome(
                HttpMethod::Get,
                "/nodes/"@ + percent_encoded(node@) + "/lxc/"@ + decimal(vmid as nat) + "/config"@,
                Some(
                    put_opt(
                        put_opt(
                            Map::<Seq<char>,
                            Seq<char>>::empty(),
                            "current"@,
                            opt_flag(current),
                        ),
                        "snapshot"@,
                        opt_str_view(snapshot),
                    ),
                ),
                None,
            ),
    {
        let mut query = PveParams::new();
        query.insert_opt_bool("current", current);
        query.insert_opt("snapshot", snapshot);
        let path = ApiPath::new("/nodes/").segment(node).text("/lxc/").number(vmid).text("/config");
        self.send(HttpMethod::Get, path.as_str(), Some(&query), None)
    }

    /// The request `GET /nodes/{node}/lxc/{vmid}/config`, with the parameters of
    /// `query` as its query.
    pub fn lxc_config_with(
        &self,
        node: &str,
        vmid: u32,
        query: &LxcConfigQuery,
    ) -> (r: Result<ApiRequest, PveError>)
        ensures
            result_view(r) == self.request_outcome(
                HttpMethod::Get,
                "/nodes/"@ + percent_encoded(node@) + "/lxc/"@ + decimal(vmid as nat) + "/config"@,
                Some(query.params()),
                None,
            ),
    {
        let params = query.to_params();
        let path = ApiPath::new("/nodes/").segment(node).text("/lxc/").number(vmid).text("/config");
        self.send(HttpMethod::Get, path.as_str(), Some(&params), None)
    }

    /// The request `PUT /nodes/{node}/lxc/{vmid}/config`, with `params` as its
    /// form.
    pub fn lxc_set_config(
        &self,
        node: &str,
        vmid: u32,
        params: &PveParams,
    ) -> (r: Result<ApiRequest, PveError>)
        ensures
            result_view(r) == self.request_outcome(
                HttpMethod::Put,
                "/nodes/"@ + percent_encoded(node@) + "/lxc/"@ + decimal(vmid as nat) + "/config"@,
                None,
                Some(params@),
            ),
    {
        let path = ApiPath::new("/nodes/").segment(node).text("/lxc/").number(vmid).text("/config");
        self.send(HttpMethod::Put, path.as_str(), None, Some(params))
    }

    /// The request `PUT /nodes/{node}/lxc/{vmid}/config`, with the parameters of
    /// `request` as its form.
    pub fn lxc_set_config_with(
        &self,
        node: &str,
        vmid: u32,
        request: &LxcSetConfigRequest,
    ) -> (r: Result<ApiRequest, PveError>)
        ensures
            result_view(r) == self.request_outcome(
                HttpMethod::Put,
                "/nodes/"@ + percent_encoded(node@) + "/lxc/"@ + decimal(vmid as nat) + "/config"@,
                None,
                Some(request.params()),
            ),
    {
        let params = request.to_params();
        self.lxc_set_config(node, vmid, &params)
    }

    /// The request `GET /nodes/{node}/lxc/{vmid}/status/current`.
    pub fn lxc_status(&self, node: &str, vmid: u32) -> (r: Result<ApiRequest, PveError>)
        ensures
            result_view(r) == self.request_outcome(
                HttpMethod::Get,
                "/nodes/"@ + percent_encoded(node@) + "/lxc/"@ + decimal(vmid as nat)
                    + "/status/current"@,
                None,
                None,
            ),
    {
        let path = ApiPath::new("/nodes/")
            .segment(node)
            .text("/lxc/")
            .number(vmid)
            .text("/status/current");
        self.send(HttpMethod::Get, path.as_str(), None, None)
    }

    /// The request `POST /nodes/{node}/lxc/{vmid}/status/start`, with `params` as
    /// its form.
    pub fn lxc_start(
        &self,
        node: &str,
        vmid: u32,
        params: &PveParams,
    ) -> (r: Result<ApiRequest, PveError>)
        ensures
            result_view(r) == self.request_outcome(
                HttpMethod::Post,
                "/nodes/"@ + percent_encoded(node@) + "/lxc/"@ + decimal(vmid as nat) + "/status/"@
                    + "start"@,
                None,
                Some(params@),
            ),
    {
        self.lxc_action(node, vmid, "start", params)
    }

    /// The request `POST /nodes/{node}/lxc/{vmid}/status/start`, with the
    /// parameters of `request` as its form.
    pub fn lxc_start_with(
        &self,
        node: &str,
        vmid: u32,
        request: &LxcActionRequest,
    ) -> (r: Result<ApiRequest, PveError>)
        ensures
            result_view(r) == self.request_outcome(
                HttpMethod::Post,
                "/nodes/"@ + percent_encoded(node@) + "/lxc/"@ + decimal(vmid as nat) + "/status/"@
                    + "start"@,
                None,
                Some(request.params()),
            ),
    {
        let params = request.to_params();
        self.lxc_start(node, vmid, &params)
    }

    /// The request `POST /nodes/{node}/lxc/{vmid}/status/shutdown`, with `params`
    /// as its form.
    pub fn lxc_shutdown(
        &self,
        node: &str,
        vmid: u32,
        params: &PveParams,
    ) -> (r: Result<ApiRequest, PveError>)
        ensures
            result_view(r) == self.request_outcome(
                HttpMethod::Post,
                "/nodes/"@ + percent_encoded(node@) + "/lxc/"@ + decimal(vmid as nat) + "/status/"@
                    + "shutdown"@,
                None,
                Some(params@),
            ),
    {
        self.lxc_action(node, vmid, "shutdown", params)
    }

    /// The request `POST /nodes/{node}/lxc/{vmid}/status/shutdown`, with the
    /// parameters of `request` as its form.
    pub fn lxc_shutdown_with(
        &self,
        node: &str,
        vmid: u32,
        request: &LxcActionRequest,
    ) -> (r: Result<ApiRequest, PveError>)
        ensures
            result_view(r) == self.request_outcome(
                HttpMethod::Post,
                "/nodes/"@ + percent_encoded(node@) + "/lxc/"@ + decimal(vmid as nat) + "/status/"@
                    + "shutdown"@,
                None,
                Some(request.params()),
            ),
    {
        let params = request.to_params();
        self.lxc_shutdown(node, vmid, &params)
    }

    /// The request `POST /nodes/{node}/lxc/{vmid}/status/stop`, with `params` as
    /// its form.
    pub fn lxc_stop(
        &self,
        node: &str,
        vmid: u32,
        params: &PveParams,
    ) -> (r: Result<ApiRequest, PveError>)
        ensures
            result_view(r) == self.request_outcome(
                HttpMethod::Post,
                "/nodes/"@ + percent_encoded(node@) + "/lxc/"@ + decimal(vmid as nat) + "/status/"@
                    + "stop"@,
                None,
                Some(params@),
            ),
    {
        self.lxc_action(node, vmid, "stop", params)
    }

    /// The request `POST /nodes/{node}/lxc/{vmid}/status/stop`, with the
    /// parameters of `request` as its form.
    pub fn lxc_stop_with(
        &self,
        node: &str,
        vmid: u32,
        request: &LxcActionRequest,
    ) -> (r: Result<ApiRequest, PveError>)
        ensures
            result_view(r) == self.request_outcome(
                HttpMethod::Post,
                "/nodes/"@ + percent_encoded(node@) + "/lxc/"@ + decimal(vmid as nat) + "/status/"@
                    + "stop"@,
                None,
                Some(request.params()),
            ),
    {
        let params = request.to_params();
        self.lxc_stop(node, vmid, &params)
    }

    /// The request `POST /nodes/{node}/lxc/{vmid}/status/reboot`, with `params`
    /// as its form.
    pub fn lxc_reboot(
        &self,
        node: &str,
        vmid: u32,
        params: &PveParams,
    ) -> (r: Result<ApiRequest, PveError>)
        ensures
            result_view(r) == self.request_outcome(
                HttpMethod::Post,
                "/nodes/"@ + percent_encoded(node@) + "/lxc/"@ + decimal(vmid as nat) + "/status/"@
                    + "reboot"@,
                None,
                Some(params@),
            ),
    {
        self.lxc_action(node, vmid, "reboot", params)
    }

    /// The request `POST /nodes/{node}/lxc/{vmid}/status/reboot`, with the
    /// parameters of `request` as its form.
    pub fn lxc_reboot_with(
        &self,
        node: &str,
        vmid: u32,
        request: &LxcActionRequest,
    ) -> (r: Result<ApiRequest, PveError>)
        ensures
            result_view(r) == self.request_outcome(
                HttpMethod::Post,
                "/nodes/"@ + percent_encoded(node@) + "/lxc/"@ + decimal(vmid as nat) + "/status/"@
                    + "reboot"@,
                None,
                Some(request.params()),
            ),
    {
        let params = request.to_params();
        self.lxc_reboot(node, vmid, &params)
    }

    /// The request `GET /nodes/{node}/lxc/{vmid}/snapshot`.
    pub fn lxc_snapshots(&self, node: &str, vmid: u32) -> (r: Result<ApiRequest, PveError>)
        ensures
            result_view(r) == self.request_outcome(
                HttpMethod::Get,
                "/nodes/"@ + percent_encoded(node@) + "/lxc/"@ + decimal(vmid as nat)
                    + "/snapshot"@,
                None,
                None,
            ),
    {
        let path = ApiPath::new("/nodes/")
            .segment(node)
            .text("/lxc/")
            .number(vmid)
            .text("/snapshot");
        self.send(HttpMethod::Get, path.as_str(), None, None)
    }

    /// The request `POST /nodes/{node}/lxc/{vmid}/snapshot`, with `params` and
    /// `snapname` as its form.
    pub fn lxc_snapshot_create(
        &self,
        node: &str,
        vmid: u32,
        snapname: &str,
        params: &PveParams,
    ) -> (r: Result<ApiRequest, PveError>)
        ensures
            result_view(r) == self.request_outcome(
                HttpMethod::Post,
                "/nodes/"@ + percent_encoded(node@) + "/lxc/"@ + decimal(vmid as nat)
                    + "/snapshot"@,
                None,
                Some(params@.insert("snapname"@, snapname@)),
            ),
    {
        let mut body = params.clone();
        body.insert("snapname", snapname);
        let path = ApiPath::new("/nodes/")
            .segment(node)
            .text("/lxc/")
            .number(vmid)
            .text("/snapshot");
        self.send(HttpMethod::Post, path.as_str(), None, Some(&body))
    }

    /// The request `POST /nodes/{node}/lxc/{vmid}/snapshot`, with the parameters
    /// of `request` as its form.
    pub fn lxc_snapshot_create_with(
        &self,
        node: &str,
        vmid: u32,
        request: &LxcSnapshotCreateRequest,
    ) -> (r: Result<ApiRequest, PveError>)
        ensures
            result_view(r) == self.request_outcome(
                HttpMethod::Post,
                "/nodes/"@ + percent_encoded(node@) + "/lxc/"@ + decimal(vmid as nat)
                    + "/snapshot"@,
                None,
                Some(request.params()),
            ),
    {
        let body = request.to_params();
        let path = ApiPath::new("/nodes/")
            .segment(node)
            .text("/lxc/")
            .number(vmid)
            .text("/snapshot");
        self.send(HttpMethod::Post, path.as_str(), None, Some(&body))
    }

    /// The request `POST /nodes/{node}/lxc/{vmid}/snapshot/{snapname}/rollback`,
    /// with `params` as its form.
    pub fn lxc_snapshot_rollback(
        &self,
        node: &str,
        vmid: u32,
        snapname: &str,
        params: &PveParams,
    ) -> (r: Result<ApiRequest, PveError>)
        ensures
            result_view(r) == self.request_outcome(
                HttpMethod::Post,
                "/nodes/"@ + percent_encoded(node@) + "/lxc/"@ + decimal(vmid as nat)
                    + "/snapshot/"@ + percent_encoded(snapname@) + "/rollback"@,
                None,
                Some(params@),
            ),
    {
        let path = ApiPath::new("/nodes/")
            .segment(node)
            .text("/lxc/")
            .number(vmid)
            .text("/snapshot/")
            .segment(snapname)
            .text("/rollback");
        self.send(HttpMethod::Post, path.as_str(), None, Some(params))
    }

    /// The request `POST /nodes/{node}/lxc/{vmid}/snapshot/{snapname}/rollback`,
    /// with the parameters of `request` as its form.
    pub fn lxc_snapshot_rollback_with(
        &self,
        node: &str,
        vmid: u32,
        request: &LxcSnapshotRollbackRequest,
    ) -> (r: Result<ApiRequest, PveError>)
        ensures
            result_view(r) == self.request_outcome(
                HttpMethod::Post,
                "/nodes/"@ + percent_encoded(node@) + "/lxc/"@ + decimal(vmid as nat)
                    + "/snapshot/"@ + percent_encoded(request.snapname@) + "/rollback"@,
                None,
                Some(request.params()),
            ),
    {
        let params = request.to_params();
        self.lxc_snapshot_rollback(node, vmid, request.snapname.as_str(), &params)
    }

    /// The request `POST /nodes/{node}/lxc/{vmid}/migrate`, with `params` and
    /// `target` as its form.
    pub fn lxc_migrate(
        &self,
        node: &str,
        vmid: u32,
        target: &str,
        params: &PveParams,
    ) -> (r: Result<ApiRequest, PveError>)
        ensures
            result_view(r) == self.request_outcome(
                HttpMethod::Post,
                "/nodes/"@ + percent_encoded(node@) + "/lxc/"@ + decimal(vmid as nat) + "/migrate"@,
                None,
                Some(params@.insert("target"@, target@)),
            ),
    {
        let mut body = params.clone();
        body.insert("target", target);
        let path = ApiPath::new("/nodes/")
            .segment(node)
            .text("/lxc/")
            .number(vmid)
            .text("/migrate");
        self.send(HttpMethod::Post, path.as_str(), None, Some(&body))
    }

    /// The request `POST /nodes/{node}/lxc/{vmid}/migrate`, with the parameters
    /// of `request` as its form.
    pub fn lxc_migrate_with(
        &self,
        node: &str,
        vmid: u32,
        request: &LxcMigrateRequest,
    ) -> (r: Result<ApiRequest, PveError>)
        ensures
            result_view(r) == self.request_outcome(
                HttpMethod::Post,
                "/nodes/"@ + percent_encoded(node@) + "/lxc/"@ + decimal(vmid as nat) + "/migrate"@,
                None,
                Some(request.params()),
            ),
    {
        let body = request.to_params();
        let path = ApiPath::new("/nodes/")
            .segment(node)
            .text("/lxc/")
            .number(vmid)
            .text("/migrate");
        self.send(HttpMethod::Post, path.as_str(), None, Some(&body))
    }

    /// The request `POST /nodes/{node}/lxc/{vmid}/status/{action}`, with `params`
    /// as its form.
    fn lxc_action(
        &self,
        node: &str,
        vmid: u32,
        action: &str,
        params: &PveParams,
    ) -> (r: Result<ApiRequest, PveError>)
        ensures
            result_view(r) == self.request_outcome(
                HttpMethod::Post,
                "/nodes/"@ + percent_encoded(node@) + "/lxc/"@ + decimal(vmid as nat) + "/status/"@
                    + action@,
                None,
                Some(params@),
            ),
    {
        let path = ApiPath::new("/nodes/")
            .segment(node)
            .text("/lxc/")
            .number(vmid)
            .text("/status/")
            .text(action);
        self.send(HttpMethod::Post, path.as_str(), None, Some(params))
    }
}

} // verus!
