//! Requests for virtual machines.

use crate::auth::HttpMethod;
use crate::client::{ApiRequest, PveClient};
use crate::error::{result_view, PveError};
use crate::params::{opt_flag, put_opt, PveParams};
use crate::text::{decimal, opt_str_view};
use crate::transport::{percent_encoded, ApiPath};
use crate::types::qemu::{
    QemuActionRequest, QemuCloneRequest, QemuConfigQuery, QemuCreateRequest, QemuMigrateRequest,
    QemuSetConfigRequest, QemuSnapshotCreateRequest, QemuSnapshotRollbackRequest,
};
use vstd::prelude::*;

verus! {

impl PveClient {
    /// The request `GET /nodes/{node}/qemu`, with `full` as its query.
    pub fn qemu_list(&self, node: &str, full: Option<bool>) -> (r: Result<ApiRequest, PveError>)
        ensures
            result_view(r) == self.request_outcome(
                HttpMethod::Get,
                "/nodes/"@ + percent_encoded(node@) + "/qemu"@,
                Some(put_opt(Map::<Seq<char>, Seq<char>>::empty(), "full"@, opt_flag(full))),
                None,
            ),
    {
        let mut query = PveParams::new();
        query.insert_opt_bool("full", full);
        let path = ApiPath::new("/nodes/").segment(node).text("/qemu");
        self.send(HttpMethod::Get, path.as_str(), Some(&query), None)
    }

    /// The request `POST /nodes/{node}/qemu`, with `params` and `vmid` as its
    /// form.
    pub fn qemu_create(
        &self,
        node: &str,
        vmid: u32,
        params: &PveParams,
    ) -> (r: Result<ApiRequest, PveError>)
        ensures
            result_view(r) == self.request_outcome(
                HttpMethod::Post,
                "/nodes/"@ + percent_encoded(node@) + "/qemu"@,
                None,
                Some(params@.insert("vmid"@, decimal(vmid as nat))),
            ),
    {
        let mut body = params.clone();
        body.insert_number("vmid", vmid as u64);
        let path = ApiPath::new("/nodes/").segment(node).text("/qemu");
        self.send(HttpMethod::Post, path.as_str(), None, Some(&body))
    }

    /// The request `POST /nodes/{node}/qemu`, with the parameters of `request` as
    /// its form.
    pub fn qemu_create_with(
        &self,
        node: &str,
        request: &QemuCreateRequest,
    ) -> (r: Result<ApiRequest, PveError>)
        ensures
            result_view(r) == self.request_outcome(
                HttpMethod::Post,
                "/nodes/"@ + percent_encoded(node@) + "/qemu"@,
                None,
                Some(request.params()),
            ),
    {
        let body = request.to_params();
        let path = ApiPath::new("/nodes/").segment(node).text("/qemu");
        self.send(HttpMethod::Post, path.as_str(), None, Some(&body))
    }

    /// The request `GET /nodes/{node}/qemu/{vmid}/config`, with `current`,
    /// `snapshot` as its query.
    pub fn qemu_config(
        &self,
        node: &str,
        vmid: u32,
        current: Option<bool>,
        snapshot: Option<&str>,
    ) -> (r: Result<ApiRequest, PveError>)
        ensures
            result_view(r) == self.request_outcome(
                HttpMethod::Get,
                "/nodes/"@ + percent_encoded(node@) + "/qemu/"@ + decimal(vmid as nat) + "/config"@,
                Some(
                    put_opt(
                        put_opt(
                            Map::<Seq<char>,
                            Seq<char>>::empty(),
                            "current"@,
                            opt_flag(current),
                        ),
                        "snapshot"@,
                        opt_str_view(snapshot),
                    ),
                ),
                None,
            ),
    {
        let mut query = PveParams::new();
        query.insert_opt_bool("current", current);
        query.insert_opt("snapshot", snapshot);
        let path = ApiPath::new("/nodes/")
            .segment(node)
            .text("/qemu/")
            .number(vmid)
            .text("/config");
        self.send(HttpMethod::Get, path.as_str(), Some(&query), None)
    }

    /// The request `GET /nodes/{node}/qemu/{vmid}/config`, with the parameters of
    /// `query` as its query.
    pub fn qemu_config_with(
        &self,
        node: &str,
        vmid: u32,
        query: &QemuConfigQuery,
    ) -> (r: Result<ApiRequest, PveError>)
        ensures
            result_view(r) == self.request_outcome(
                HttpMethod::Get,
                "/nodes/"@ + percent_encoded(node@) + "/qemu/"@ + decimal(vmid as nat) + "/config"@,
                Some(query.params()),
                None,
            ),
    {
        let params = query.to_params();
        let path = ApiPath::new("/nodes/")
            .segment(node)
            .text("/qemu/")
            .number(vmid)
            .text("/config");
        self.send(HttpMethod::Get, path.as_str(), Some(&params), None)
    }

    /// The request `POST /nodes/{node}/qemu/{vmid}/config`, with `params` as its
    /// form.
    pub fn qemu_set_config_async(
        &self,
        node: &str,
        vmid: u32,
        params: &PveParams,
    ) -> (r: Result<ApiRequest, PveError>)
        ensures
            result_view(r) == self.request_outcome(
                HttpMethod::Post,
                "/nodes/"@ + percent_encoded(node@) + "/qemu/"@ + decimal(vmid as nat) + "/config"@,
                None,
                Some(params@),
            ),
    {
        let path = ApiPath::new("/nodes/")
            .segment(node)
            .text("/qemu/")
            .number(vmid)
            .text("/config");
        self.send(HttpMethod::Post, path.as_str(), None, Some(params))
    }

    /// The request `POST /nodes/{node}/qemu/{vmid}/config`, with the parameters
    /// of `request` as its form.
    pub fn qemu_set_config_async_with(
        &self,
        node: &str,
        vmid: u32,
        request: &QemuSetConfigRequest,
    ) -> (r: Result<ApiRequest, PveError>)
        ensures
            result_view(r) == self.request_outcome(
                HttpMethod::Post,
                "/nodes/"@ + percent_encoded(node@) + "/qemu/"@ + decimal(vmid as nat) + "/config"@,
                None,
                Some(request.params()),
            ),
    {
        let params = request.to_params();
        self.qemu_set_config_async(node, vmid, &params)
    }

    /// The request `PUT /nodes/{node}/qemu/{vmid}/config`, with `params` as its
    /// form.
    pub fn qemu_set_config_sync(
        &self,
        node: &str,
        vmid: u32,
        params: &PveParams,
    ) -> (r: Result<ApiRequest, PveError>)
        ensures
            result_view(r) == self.request_outcome(
                HttpMethod::Put,
                "/nodes/"@ + percent_encoded(node@) + "/qemu/"@ + decimal(vmid as nat) + "/config"@,
                None,
                Some(params@),
            ),
    {
        let path = ApiPath::new("/nodes/")
            .segment(node)
            .text("/qemu/")
            .number(vmid)
            .text("/config");
        self.send(HttpMethod::Put, path.as_str(), None, Some(params))
    }

    /// The request `PUT /nodes/{node}/qemu/{vmid}/config`, with the parameters of
    /// `request` as its form.
    pub fn qemu_set_config_sync_with(
        &self,
        node: &str,
        vmid: u32,
        request: &QemuSetConfigRequest,
    ) -> (r: Result<ApiRequest, PveError>)
        ensures
            result_view(r) == self.request_outcome(
                HttpMethod::Put,
                "/nodes/"@ + percent_encoded(node@) + "/qemu/"@ + decimal(vmid as nat) + "/config"@,
                None,
                Some(request.params()),
            ),
    {
        let params = request.to_params();
        self.qemu_set_config_sync(node, vmid, &params)
    }

    /// The request `GET /nodes/{node}/qemu/{vmid}/status/current`.
    pub fn qemu_status(&self, node: &str, vmid: u32) -> (r: Result<ApiRequest, PveError>)
        ensures
            result_view(r) == self.request_outcome(
                HttpMethod::Get,
                "/nodes/"@ + percent_encoded(node@) + "/qemu/"@ + decimal(vmid as nat)
                    + "/status/current"@,
                None,
                None,
            ),
    {
        let path = ApiPath::new("/nodes/")
            .segment(node)
            .text("/qemu/")
            .number(vmid)
            .text("/status/current");
        self.send(HttpMethod::Get, path.as_str(), None, None)
    }

    /// The request `POST /nodes/{node}/qemu/{vmid}/status/start`, with `params`
    /// as its form.
    pub fn qemu_start(
        &self,
        node: &str,
        vmid: u32,
        params: &PveParams,
    ) -> (r: Result<ApiRequest, PveError>)
        ensures
            result_view(r) == self.request_outcome(
                HttpMethod::Post,
                "/nodes/"@ + percent_encoded(node@) + "/qemu/"@ + decimal(vmid as nat) + "/status/"@
                    + "start"@,
                None,
                Some(params@),
            ),
    {
        self.qemu_action(node, vmid, "start", params)
    }

    /// The request `POST /nodes/{node}/qemu/{vmid}/status/start`, with the
    /// parameters of `request` as its form.
    pub fn qemu_start_with(
        &self,
        node: &str,
        vmid: u32,
        request: &QemuActionRequest,
    ) -> (r: Result<ApiRequest, PveError>)
        ensures
            result_view(r) == self.request_outcome(
                HttpMethod::Post,
                "/nodes/"@ + percent_encoded(node@) + "/qemu/"@ + decimal(vmid as nat) + "/status/"@
                    + "start"@,
                None,
                Some(request.params()),
            ),
    {
        let params = request.to_params();
        self.qemu_start(node, vmid, &params)
    }

    /// The request `POST /nodes/{node}/qemu/{vmid}/status/shutdown`, with
    /// `params` as its form.
    pub fn qemu_shutdown(
        &self,
        node: &str,
        vmid: u32,
        params: &PveParams,
    ) -> (r: Result<ApiRequest, PveError>)
        ensures
            result_view(r) == self.request_outcome(
                HttpMethod::Post,
                "/nodes/"@ + percent_encoded(node@) + "/qemu/"@ + decimal(vmid as nat) + "/status/"@
                    + "shutdown"@,
                None,
                Some(params@),
            ),
    {
        self.qemu_action(node, vmid, "shutdown", params)
    }

    /// The request `POST /nodes/{node}/qemu/{vmid}/status/shutdown`, with the
    /// parameters of `request` as its form.
    pub fn qemu_shutdown_with(
        &self,
        node: &str,
        vmid: u32,
        request: &QemuActionRequest,
    ) -> (r: Result<ApiRequest, PveError>)
        ensures
            result_view(r) == self.request_outcome(
                HttpMethod::Post,
                "/nodes/"@ + percent_encoded(node@) + "/qemu/"@ + decimal(vmid as nat) + "/status/"@
                    + "shutdown"@,
                None,
                Some(request.params()),
            ),
    {
        let params = request.to_params();
        self.qemu_shutdown(node, vmid, &params)
    }

    /// The request `POST /nodes/{node}/qemu/{vmid}/status/stop`, with `params` as
    /// its form.
    pub fn qemu_stop(
        &self,
        node: &str,
        vmid: u32,
        params: &PveParams,
    ) -> (r: Result<ApiRequest, PveError>)
        ensures
            result_view(r) == self.request_outcome(
                HttpMethod::Post,
                "/nodes/"@ + percent_encoded(node@) + "/qemu/"@ + decimal(vmid as nat) + "/status/"@
                    + "stop"@,
                None,
                Some(params@),
            ),
    {
        self.qemu_action(node, vmid, "stop", params)
    }

    /// The request `POST /nodes/{node}/qemu/{vmid}/status/stop`, with the
    /// parameters of `request` as its form.
    pub fn qemu_stop_with(
        &self,
        node: &str,
        vmid: u32,
        request: &QemuActionRequest,
    ) -> (r: Result<ApiRequest, PveError>)
        ensures
            result_view(r) == self.request_outcome(
                HttpMethod::Post,
                "/nodes/"@ + percent_encoded(node@) + "/qemu/"@ + decimal(vmid as nat) + "/status/"@
                    + "stop"@,
                None,
                Some(request.params()),
            ),
    {
        let params = request.to_params();
        self.qemu_stop(node, vmid, &params)
    }

    /// The request `POST /nodes/{node}/qemu/{vmid}/status/reboot`, with `params`
    /// as its form.
    pub fn qemu_reboot(
        &self,
        node: &str,
        vmid: u32,
        params: &PveParams,
    ) -> (r: Result<ApiRequest, PveError>)
        ensures
            result_view(r) == self.request_outcome(
                HttpMethod::Post,
                "/nodes/"@ + percent_encoded(node@) + "/qemu/"@ + decimal(vmid as nat) + "/status/"@
                    + "reboot"@,
                None,
                Some(params@),
            ),
    {
        self.qemu_action(node, vmid, "reboot", params)
    }

    /// The request `POST /nodes/{node}/qemu/{vmid}/status/reboot`, with the
    /// parameters of `request` as its form.
    pub fn qemu_reboot_with(
        &self,
        node: &str,
        vmid: u32,
        request: &QemuActionRequest,
    ) -> (r: Result<ApiRequest, PveError>)
        ensures
            result_view(r) == self.request_outcome(
                HttpMethod::Post,
                "/nodes/"@ + percent_encoded(node@) + "/qemu/"@ + decimal(vmid as nat) + "/status/"@
                    + "reboot"@,
                None,
                Some(request.params()),
            ),
    {
        let params = request.to_params();
        self.qemu_reboot(node, vmid, &params)
    }

    /// The request `POST /nodes/{node}/qemu/{vmid}/status/suspend`, with `params`
    /// as its form.
    pub fn qemu_suspend(
        &self,
        node: &str,
        vmid: u32,
        params: &PveParams,
    ) -> (r: Result<ApiRequest, PveError>)
        ensures
            result_view(r) == self.request_outcome(
                HttpMethod::Post,
                "/nodes/"@ + percent_encoded(node@) + "/qemu/"@ + decimal(vmid as nat) + "/status/"@
                    + "suspend"@,
                None,
                Some(params@),
            ),
    {
        self.qemu_action(node, vmid, "suspend", params)
    }

    /// The request `POST /nodes/{node}/qemu/{vmid}/status/suspend`, with the
    /// parameters of `request` as its form.
    pub fn qemu_suspend_with(
        &self,
        node: &str,
        vmid: u32,
        request: &QemuActionRequest,
    ) -> (r: Result<ApiRequest, PveError>)
        ensures
            result_view(r) == self.request_outcome(
                HttpMethod::Post,
                "/nodes/"@ + percent_encoded(node@) + "/qemu/"@ + decimal(vmid as nat) + "/status/"@
                    + "suspend"@,
                None,
                Some(request.params()),
            ),
    {
        let params = request.to_params();
        self.qemu_suspend(node, vmid, &params)
    }

    /// The request `POST /nodes/{node}/qemu/{vmid}/status/resume`, with `params`
    /// as its form.
    pub fn qemu_resume(
        &self,
        node: &str,
        vmid: u32,
        params: &PveParams,
    ) -> (r: Result<ApiRequest, PveError>)
        ensures
            result_view(r) == self.request_outcome(
                HttpMethod::Post,
                "/nodes/"@ + percent_encoded(node@) + "/qemu/"@ + decimal(vmid as nat) + "/status/"@
                    + "resume"@,
                None,
                Some(params@),
            ),
    {
        self.qemu_action(node, vmid, "resume", params)
    }

    /// The request `POST /nodes/{node}/qemu/{vmid}/status/resume`, with the
    /// parameters of `request` as its form.
    pub fn qemu_resume_with(
        &self,
        node: &str,
        vmid: u32,
        request: &QemuActionRequest,
    ) -> (r: Result<ApiRequest, PveError>)
        ensures
            result_view(r) == self.request_outcome(
                HttpMethod::Post,
                "/nodes/"@ + percent_encoded(node@) + "/qemu/"@ + decimal(vmid as nat) + "/status/"@
                    + "resume"@,
                None,
                Some(request.params()),
            ),
    {
        let params = request.to_params();
        self.qemu_resume(node, vmid, &params)
    }

    /// The request `GET /nodes/{node}/qemu/{vmid}/snapshot`.
    pub fn qemu_snapshots(&self, node: &str, vmid: u32) -> (r: Result<ApiRequest, PveError>)
        ensures
            result_view(r) == self.request_outcome(
                HttpMethod::Get,
                "/nodes/"@ + percent_encoded(node@) + "/qemu/"@ + decimal(vmid as nat)
                    + "/snapshot"@,
                None,
                None,
            ),
    {
        let path = ApiPath::new("/nodes/")
            .segment(node)
            .text("/qemu/")
            .number(vmid)
            .text("/snapshot");
        self.send(HttpMethod::Get, path.as_str(), None, None)
    }

    /// The request `POST /nodes/{node}/qemu/{vmid}/snapshot`, with `params` and
    /// `snapname` as its form.
    pub fn qemu_snapshot_create(
        &self,
        node: &str,
        vmid: u32,
        snapname: &str,
        params: &PveParams,
    ) -> (r: Result<ApiRequest, PveError>)
        ensures
            result_view(r) == self.request_outcome(
                HttpMethod::Post,
                "/nodes/"@ + percent_encoded(node@) + "/qemu/"@ + decimal(vmid as nat)
                    + "/snapshot"@,
                None,
                Some(params@.insert("snapname"@, snapname@)),
            ),
    {
        let mut body = params.clone();
        body.insert("snapname", snapname);
        let path = ApiPath::new("/nodes/")
            .segment(node)
            .text("/qemu/")
            .number(vmid)
            .text("/snapshot");
        self.send(HttpMethod::Post, path.as_str(), None, Some(&body))
    }

    /// The request `POST /nodes/{node}/qemu/{vmid}/snapshot`, with the parameters
    /// of `request` as its form.
    pub fn qemu_snapshot_create_with(
        &self,
        node: &str,
        vmid: u32,
        request: &QemuSnapshotCreateRequest,
    ) -> (r: Result<ApiRequest, PveError>)
        ensures
            result_view(r) == self.request_outcome(
                HttpMethod::Post,
                "/nodes/"@ + percent_encoded(node@) + "/qemu/"@ + decimal(vmid as nat)
                    + "/snapshot"@,
                None,
                Some(request.params()),
            ),
    {
        let body = request.to_params();
        let path = ApiPath::new("/nodes/")
            .segment(node)
            .text("/qemu/")
            .number(vmid)
            .text("/snapshot");
        self.send(HttpMethod::Post, path.as_str(), None, Some(&body))
    }

    /// The request `POST /nodes/{node}/qemu/{vmid}/snapshot/{snapname}/rollback`,
    /// with `params` as its form.
    pub fn qemu_snapshot_rollback(
        &self,
        node: &str,
        vmid: u32,
        snapname: &str,
        params: &PveParams,
    ) -> (r: Result<ApiRequest, PveError>)
        ensures
            result_view(r) == self.request_outcome(
                HttpMethod::Post,
                "/nodes/"@ + percent_encoded(node@) + "/qemu/"@ + decimal(vmid as nat)
                    + "/snapshot/"@ + percent_encoded(snapname@) + "/rollback"@,
                None,
                Some(params@),
            ),
    {
        let path = ApiPath::new("/nodes/")
            .segment(node)
            .text("/qemu/")
            .number(vmid)
            .text("/snapshot/")
            .segment(snapname)
            .text("/rollback");
        self.send(HttpMethod::Post, path.as_str(), None, Some(params))
    }

    /// The request `POST /nodes/{node}/qemu/{vmid}/snapshot/{snapname}/rollback`,
    /// with the parameters of `request` as its form.
    pub fn qemu_snapshot_rollback_with(
        &self,
        node: &str,
        vmid: u32,
        request: &QemuSnapshotRollbackRequest,
    ) -> (r: Result<ApiRequest, PveError>)
        ensures
            result_view(r) == self.request_outcome(
                HttpMethod::Post,
                "/nodes/"@ + percent_encoded(node@) + "/qemu/"@ + decimal(vmid as nat)
                    + "/snapshot/"@ + percent_encoded(request.snapname@) + "/rollback"@,
                None,
                Some(request.params()),
            ),
    {
        let params = request.to_params();
        self.qemu_snapshot_rollback(node, vmid, request.snapname.as_str(), &params)
    }

    /// The request `POST /nodes/{node}/qemu/{vmid}/clone`, with `params` and
    /// `newid` as its form.
    pub fn qemu_clone(
        &self,
        node: &str,
        vmid: u32,
        newid: u32,
        params: &PveParams,
    ) -> (r: Result<ApiRequest, PveError>)
        ensures
            result_view(r) == self.request_outcome(
                HttpMethod::Post,
                "/nodes/"@ + percent_encoded(node@) + "/qemu/"@ + decimal(vmid as nat) + "/clone"@,
                None,
                Some(params@.insert("newid"@, decimal(newid as nat))),
            ),
    {
        let mut body = params.clone();
        body.insert_number("newid", newid as u64);
        let path = ApiPath::new("/nodes/").segment(node).text("/qemu/").number(vmid).text("/clone");
        self.send(HttpMethod::Post, path.as_str(), None, Some(&body))
    }

    /// The request `POST /nodes/{node}/qemu/{vmid}/clone`, with the parameters of
    /// `request` as its form.
    pub fn qemu_clone_with(
        &self,
        node: &str,
        vmid: u32,
        request: &QemuCloneRequest,
    ) -> (r: Result<ApiRequest, PveError>)
        ensures
            result_view(r) == self.request_outcome(
                HttpMethod::Post,
                "/nodes/"@ + percent_encoded(node@) + "/qemu/"@ + decimal(vmid as nat) + "/clone"@,
                None,
                Some(request.params()),
            ),
    {
        let body = request.to_params();
        let path = ApiPath::new("/nodes/").segment(node).text("/qemu/").number(vmid).text("/clone");
        self.send(HttpMethod::Post, path.as_str(), None, Some(&body))
    }

    /// The request `POST /nodes/{node}/qemu/{vmid}/migrate`, with `params` and
    /// `target` as its form.
    pub fn qemu_migrate(
        &self,
        node: &str,
        vmid: u32,
        target: &str,
        params: &PveParams,
    ) -> (r: Result<ApiRequest, PveError>)
        ensures
            result_view(r) == self.request_outcome(
                HttpMethod::Post,
                "/nodes/"@ + percent_encoded(node@) + "/qemu/"@ + decimal(vmid as nat)
                    + "/migrate"@,
                None,
                Some(params@.insert("target"@, target@)),
            ),
    {
        let mut body = params.clone();
        body.insert("target", target);
        let path = ApiPath::new("/nodes/")
            .segment(node)
            .text("/qemu/")
            .number(vmid)
            .text("/migrate");
        self.send(HttpMethod::Post, path.as_str(), None, Some(&body))
    }

    /// The request `POST /nodes/{node}/qemu/{vmid}/migrate`, with the parameters
    /// of `request` as its form.
    pub fn qemu_migrate_with(
        &self,
        node: &str,
        vmid: u32,
        request: &QemuMigrateRequest,
    ) -> (r: Result<ApiRequest, PveError>)
        ensures
            result_view(r) == self.request_outcome(
                HttpMethod::Post,
                "/nodes/"@ + percent_encoded(node@) + "/qemu/"@ + decimal(vmid as nat)
                    + "/migrate"@,
                None,
                Some(request.params()),
            ),
    {
        let body = request.to_params();
        let path = ApiPath::new("/nodes/")
            .segment(node)
            .text("/qemu/")
            .number(vmid)
            .text("/migrate");
        self.send(HttpMethod::Post, path.as_str(), None, Some(&body))
    }

    /// The request `POST /nodes/{node}/qemu/{vmid}/status/{action}`, with
    /// `params` as its form.
    fn qemu_action(
        &self,
        node: &str,
        vmid: u32,
        action: &str,
        params: &PveParams,
    ) -> (r: Result<ApiRequest, PveError>)
        ensures
            result_view(r) == self.request_outcome(
                HttpMethod::Post,
                "/nodes/"@ + percent_encoded(node@) + "/qemu/"@ + decimal(vmid as nat) + "/status/"@
                    + action@,
                None,
                Some(params@),
            ),
    {
        let path = ApiPath::new("/nodes/")
            .segment(node)
            .text("/qemu/")
            .number(vmid)
            .text("/status/")
            .text(action);
        self.send(HttpMethod::Post, path.as_str(), None, Some(params))
    }
}

} // verus!
