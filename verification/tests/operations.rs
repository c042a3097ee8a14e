use pve_sdk_rs::auth::HttpMethod;
use pve_sdk_rs::client::{ApiRequest, ClientStart, PveClient};
use pve_sdk_rs::client_option::ClientOption;
use pve_sdk_rs::error::PveError;
use pve_sdk_rs::params::PveParams;
use pve_sdk_rs::requests::{
    AccessCreateTokenRequest, LxcCreateRequest, NodeTasksQuery, QemuActionRequest,
    QemuSnapshotRollbackRequest, StorageDeleteVolumeRequest, StorageUploadRequest, TaskLogQuery,
    TaskSource, VzdumpCompress, VzdumpMode, VzdumpRequest,
};
use pve_sdk_rs::services::operations::storage::{upload_file_name, upload_parts, UploadPart};
use pve_sdk_rs::transport::check_response;

const BASE: &str = "https://pve.example.com:8006/api2/json";

fn client_with_token() -> PveClient {
    let option = ClientOption::new("pve.example.com").api_token("root@pam!ci=token");
    match PveClient::from_option(option).expect("must build") {
        ClientStart::Ready(client) => client,
        ClientStart::Login { .. } => panic!("expected a ready client"),
    }
}

fn pairs(params: Option<PveParams>) -> Vec<(String, String)> {
    params.map(PveParams::into_inner).unwrap_or_default()
}

fn expect(
    request: Result<ApiRequest, PveError>,
    method: HttpMethod,
    path: &str,
    query: &[(&str, &str)],
    form: Option<&[(&str, &str)]>,
) {
    let request = request.expect("request");
    assert_eq!(request.method, method, "{path}");
    assert_eq!(request.url, format!("{BASE}{path}"));
    let own = |list: &[(&str, &str)]| -> Vec<(String, String)> {
        list.iter()
            .map(|(k, v)| (k.to_string(), v.to_string()))
            .collect()
    };
    assert_eq!(request.query.is_some(), !query.is_empty(), "{path}");
    assert_eq!(pairs(request.query), own(query), "{path}");
    assert_eq!(request.form.is_some(), form.is_some(), "{path}");
    assert_eq!(pairs(request.form), own(form.unwrap_or(&[])), "{path}");
    assert_eq!(
        request.headers,
        vec![(
            "authorization".to_string(),
            "PVEAPIToken=root@pam!ci=token".to_string()
        )]
    );
}

fn local_client(port: u16) -> PveClient {
    let option = ClientOption::new("127.0.0.1")
        .port(port)
        .https(false)
        .auth_none();
    match PveClient::from_option(option).expect("build client") {
        ClientStart::Ready(client) => client,
        ClientStart::Login { .. } => panic!("expected a ready client"),
    }
}

#[test]
fn version_parses_data_envelope() {
    let client = local_client(18006);
    let request = client.version().expect("version request");
    assert_eq!(request.method, HttpMethod::Get);
    assert_eq!(request.url, "http://127.0.0.1:18006/api2/json/version");
    assert!(request.url.ends_with("/api2/json/version"));
    assert!(request.query.is_none());
    assert!(request.form.is_none());
    assert!(request.headers.is_empty());

    let answer = "{\"data\":{\"version\":\"8.2.1\",\"release\":\"8.2\"}}";
    let body = check_response(200, answer.to_string()).expect("version response");
    assert_eq!(body, answer);
    let decoded: serde_json::Value = serde_json::from_str(&body).expect("json");
    assert_eq!(decoded["data"]["version"].as_str(), Some("8.2.1"));
    assert_eq!(decoded["data"]["release"].as_str(), Some("8.2"));

    expect(client_with_token().connect(), HttpMethod::Get, "/version", &[], None);
}

#[test]
fn api_status_error_surfaces_401_body() {
    let err = check_response(401, "{\"error\":\"token rejected\"}".to_string())
        .expect_err("expected auth error");

    match &err {
        PveError::ApiStatus { status, body } => {
            assert_eq!(*status, 401);
            assert!(body.contains("token rejected"));
        }
        other => panic!("expected ApiStatus for 401, got: {other:?}"),
    }
    assert_eq!(
        err.to_string(),
        "pve api returned status 401: {\"error\":\"token rejected\"}"
    );
}

#[test]
fn api_status_error_surfaces_5xx_body() {
    let err = check_response(500, "temporary upstream failure".to_string())
        .expect_err("expected server error");

    match err {
        PveError::ApiStatus { status, body } => {
            assert_eq!(status, 500);
            assert!(body.contains("temporary upstream failure"));
            assert_eq!(body, "temporary upstream failure");
        }
        other => panic!("expected ApiStatus for 500, got: {other:?}"),
    }
}

#[test]
fn path_segments_are_percent_encoded() {
    let client = client_with_token();
    expect(
        client.access_user("dev@pve"),
        HttpMethod::Get,
        "/access/users/dev%40pve",
        &[],
        None,
    );
    expect(
        client.access_delete_user_token("dev@pve", "ci token"),
        HttpMethod::Delete,
        "/access/users/dev%40pve/token/ci%20token",
        &[],
        None,
    );
    expect(
        client.task_status("pve-1", "UPID:pve1:0001E240:00A1:qmstart:100:root@pam:"),
        HttpMethod::Get,
        "/nodes/pve%2D1/tasks/UPID%3Apve1%3A0001E240%3A00A1%3Aqmstart%3A100%3Aroot%40pam%3A/status",
        &[],
        None,
    );
    expect(
        client.node_status("nœud/../x_y~z.A0"),
        HttpMethod::Get,
        "/nodes/n%C5%93ud%2F%2E%2E%2Fx%5Fy%7Ez%2EA0/status",
        &[],
        None,
    );
    expect(
        client.node_status("日本\u{7f}\u{0}"),
        HttpMethod::Get,
        "/nodes/%E6%97%A5%E6%9C%AC%7F%00/status",
        &[],
        None,
    );
    expect(client.node_status("AZaz09"), HttpMethod::Get, "/nodes/AZaz09/status", &[], None);
}

#[test]
fn queries_built_from_arguments() {
    let client = client_with_token();
    expect(
        client.access_acl(Some("/vms"), Some(true)),
        HttpMethod::Get,
        "/access/acl",
        &[("exact", "1"), ("path", "/vms")],
        None,
    );
    expect(client.access_acl(None, None), HttpMethod::Get, "/access/acl", &[], None);
    expect(
        client.cluster_next_id(Some(120)),
        HttpMethod::Get,
        "/cluster/nextid",
        &[("vmid", "120")],
        None,
    );
    expect(
        client.qemu_list("pve1", Some(false)),
        HttpMethod::Get,
        "/nodes/pve1/qemu",
        &[("full", "0")],
        None,
    );
    expect(
        client.qemu_config("pve1", 100, None, Some("before-upgrade")),
        HttpMethod::Get,
        "/nodes/pve1/qemu/100/config",
        &[("snapshot", "before-upgrade")],
        None,
    );
    expect(
        client.task_log("pve1", "UPID", Some(0), Some(50)),
        HttpMethod::Get,
        "/nodes/pve1/tasks/UPID/log",
        &[("limit", "50"), ("start", "0")],
        None,
    );
    expect(
        client.storage_delete_volume("pve1", "local", "local:iso/x.iso", Some(5)),
        HttpMethod::Delete,
        "/nodes/pve1/storage/local/content/local%3Aiso%2Fx%2Eiso",
        &[("delay", "5")],
        None,
    );
    expect(
        client.storage_delete_volume_with(
            "pve1",
            "local",
            "vol",
            &StorageDeleteVolumeRequest { delay: None },
        ),
        HttpMethod::Delete,
        "/nodes/pve1/storage/local/content/vol",
        &[],
        None,
    );
}

#[test]
fn queries_built_from_typed_requests() {
    let client = client_with_token();
    let query = NodeTasksQuery::default()
        .errors(true)
        .limit(10)
        .source(TaskSource::Active)
        .userfilter("root@pam")
        .vmid(100);
    expect(
        client.node_tasks_with("pve1", &query),
        HttpMethod::Get,
        "/nodes/pve1/tasks",
        &[
            ("errors", "1"),
            ("limit", "10"),
            ("source", "active"),
            ("userfilter", "root@pam"),
            ("vmid", "100"),
        ],
        None,
    );
    expect(
        client.task_log_with(
            "pve1",
            "UPID",
            &TaskLogQuery {
                start: None,
                limit: Some(3),
            },
        ),
        HttpMethod::Get,
        "/nodes/pve1/tasks/UPID/log",
        &[("limit", "3")],
        None,
    );
}

#[test]
fn forms_built_from_arguments() {
    let client = client_with_token();
    let extra = PveParams::new().with("comment", "robot").with("tokenid", "ignored");
    expect(
        client.access_create_user_token("dev@pve", "ci", &extra),
        HttpMethod::Post,
        "/access/users/dev%40pve/token",
        &[],
        Some(&[("comment", "robot"), ("tokenid", "ci")]),
    );
    let request = AccessCreateTokenRequest::new("ci");
    expect(
        client.access_create_user_token_with("dev@pve", &request),
        HttpMethod::Post,
        "/access/users/dev%40pve/token",
        &[],
        Some(&[("tokenid", "ci")]),
    );
    expect(
        client.qemu_create("pve1", 100, &PveParams::new().with("name", "vm")),
        HttpMethod::Post,
        "/nodes/pve1/qemu",
        &[],
        Some(&[("name", "vm"), ("vmid", "100")]),
    );
    expect(
        client.qemu_clone("pve1", 100, 101, &PveParams::new()),
        HttpMethod::Post,
        "/nodes/pve1/qemu/100/clone",
        &[],
        Some(&[("newid", "101")]),
    );
    expect(
        client.lxc_create("pve1", 200, "local:vztmpl/debian.tar.zst", &PveParams::new()),
        HttpMethod::Post,
        "/nodes/pve1/lxc",
        &[],
        Some(&[("ostemplate", "local:vztmpl/debian.tar.zst"), ("vmid", "200")]),
    );
    expect(
        client.lxc_create_with("pve1", &LxcCreateRequest::new(200, "tmpl")),
        HttpMethod::Post,
        "/nodes/pve1/lxc",
        &[],
        Some(&[("ostemplate", "tmpl"), ("vmid", "200")]),
    );
    expect(
        client.storage_allocate_disk("pve1", "local-lvm", 100, "vm-100-disk-1", "32G", &PveParams::new()),
        HttpMethod::Post,
        "/nodes/pve1/storage/local%2Dlvm/content",
        &[],
        Some(&[("filename", "vm-100-disk-1"), ("size", "32G"), ("vmid", "100")]),
    );
    expect(
        client.datacenter_update_config(&PveParams::new()),
        HttpMethod::Put,
        "/cluster/options",
        &[],
        Some(&[]),
    );
}

#[test]
fn power_actions() {
    let client = client_with_token();
    let none = PveParams::new();
    expect(client.qemu_start("pve1", 100, &none), HttpMethod::Post, "/nodes/pve1/qemu/100/status/start", &[], Some(&[]));
    expect(client.qemu_shutdown("pve1", 100, &none), HttpMethod::Post, "/nodes/pve1/qemu/100/status/shutdown", &[], Some(&[]));
    expect(client.qemu_stop("pve1", 100, &none), HttpMethod::Post, "/nodes/pve1/qemu/100/status/stop", &[], Some(&[]));
    expect(client.qemu_reboot("pve1", 100, &none), HttpMethod::Post, "/nodes/pve1/qemu/100/status/reboot", &[], Some(&[]));
    expect(client.qemu_suspend("pve1", 100, &none), HttpMethod::Post, "/nodes/pve1/qemu/100/status/suspend", &[], Some(&[]));
    expect(client.qemu_resume("pve1", 100, &none), HttpMethod::Post, "/nodes/pve1/qemu/100/status/resume", &[], Some(&[]));
    expect(client.lxc_start("pve1", 200, &none), HttpMethod::Post, "/nodes/pve1/lxc/200/status/start", &[], Some(&[]));
    expect(client.lxc_shutdown("pve1", 200, &none), HttpMethod::Post, "/nodes/pve1/lxc/200/status/shutdown", &[], Some(&[]));
    expect(client.lxc_stop("pve1", 200, &none), HttpMethod::Post, "/nodes/pve1/lxc/200/status/stop", &[], Some(&[]));
    expect(client.lxc_reboot("pve1", 200, &none), HttpMethod::Post, "/nodes/pve1/lxc/200/status/reboot", &[], Some(&[]));
    let request = QemuActionRequest {
        timeout: Some(30),
        force_stop: Some(true),
        overrule_shutdown: Some(false),
        ..QemuActionRequest::default()
    };
    expect(
        client.qemu_stop_with("pve1", 100, &request),
        HttpMethod::Post,
        "/nodes/pve1/qemu/100/status/stop",
        &[],
        Some(&[("forceStop", "1"), ("overrule-shutdown", "0"), ("timeout", "30")]),
    );
}

#[test]
fn snapshot_rollback_takes_the_name_from_the_request() {
    let client = client_with_token();
    let mut request = QemuSnapshotRollbackRequest::new("before upgrade");
    request.start = Some(true);
    expect(
        client.qemu_snapshot_rollback_with("pve1", 100, &request),
        HttpMethod::Post,
        "/nodes/pve1/qemu/100/snapshot/before%20upgrade/rollback",
        &[],
        Some(&[("start", "1")]),
    );
}

#[test]
fn backup_request() {
    let client = client_with_token();
    let request = VzdumpRequest {
        vmid: Some("100,101".to_string()),
        mode: Some(VzdumpMode::Snapshot),
        compress: Some(VzdumpCompress::Off),
        notes_template: Some("{{guestname}}".to_string()),
        ..VzdumpRequest::default()
    };
    expect(
        client.vzdump_backup_with("pve1", &request),
        HttpMethod::Post,
        "/nodes/pve1/vzdump",
        &[],
        Some(&[
            ("compress", "0"),
            ("mode", "snapshot"),
            ("notes-template", "{{guestname}}"),
            ("vmid", "100,101"),
        ]),
    );
    assert_eq!(VzdumpCompress::Zstd.as_str(), "zstd");
    assert_eq!(VzdumpCompress::Gzip.as_str(), "gzip");
    assert_eq!(VzdumpCompress::Lzo.as_str(), "lzo");
}

#[test]
fn raw_requests() {
    let client = client_with_token();
    let query = PveParams::new().with("type", "vm");
    expect(
        client.raw_get("cluster/resources", Some(&query)),
        HttpMethod::Get,
        "/cluster/resources",
        &[("type", "vm")],
        None,
    );
    expect(client.raw_post("/api2/json/nodes", None), HttpMethod::Post, "/nodes", &[], None);
    expect(client.raw_put("/x", Some(&query)), HttpMethod::Put, "/x", &[], Some(&[("type", "vm")]));
    expect(client.raw_delete("/x", None), HttpMethod::Delete, "/x", &[], None);
    expect(
        client.raw_json(HttpMethod::Other("PROPFIND".to_string()), "/x", None, None),
        HttpMethod::Other("PROPFIND".to_string()),
        "/x",
        &[],
        None,
    );
    expect(
        client.raw_json(HttpMethod::Patch, "/x", Some(&query), Some(&query)),
        HttpMethod::Patch,
        "/x",
        &[("type", "vm")],
        Some(&[("type", "vm")]),
    );
}

#[test]
fn grouped_requests_are_the_same_requests() {
    let client = client_with_token();
    expect(client.access().users(), HttpMethod::Get, "/access/users", &[], None);
    expect(client.cluster().status(), HttpMethod::Get, "/cluster/status", &[], None);
    expect(client.datacenter().config(), HttpMethod::Get, "/cluster/options", &[], None);
    expect(client.node().list(), HttpMethod::Get, "/nodes", &[], None);
    expect(client.qemu().status("pve1", 100), HttpMethod::Get, "/nodes/pve1/qemu/100/status/current", &[], None);
    expect(client.lxc().snapshots("pve1", 200), HttpMethod::Get, "/nodes/pve1/lxc/200/snapshot", &[], None);
    expect(client.storage().index(Some("dir")), HttpMethod::Get, "/storage", &[("type", "dir")], None);
    expect(client.backup().vzdump("pve1", &PveParams::new()), HttpMethod::Post, "/nodes/pve1/vzdump", &[], Some(&[]));
    expect(client.task().status("pve1", "UPID"), HttpMethod::Get, "/nodes/pve1/tasks/UPID/status", &[], None);
    expect(client.raw().get("/version", None), HttpMethod::Get, "/version", &[], None);
    expect(
        client.access().ticket("root@pam", "pw", None, Some("pam"), None),
        HttpMethod::Post,
        "/access/ticket",
        &[],
        Some(&[("password", "pw"), ("realm", "pam"), ("username", "root@pam")]),
    );
}

#[test]
fn upload_plan() {
    let client = client_with_token();
    let plan = client
        .storage_upload_file(
            "pve1",
            "local",
            "iso",
            Some("debian.iso"),
            Some("abc123"),
            Some("sha256"),
        )
        .expect("plan");
    assert_eq!(plan.request.method, HttpMethod::Post);
    assert_eq!(plan.request.url, format!("{BASE}/nodes/pve1/storage/local/upload"));
    assert!(plan.request.form.is_none());
    assert_eq!(plan.parts.len(), 4);
    assert!(matches!(&plan.parts[0], UploadPart::Text { name, value } if name == "content" && value == "iso"));
    assert!(matches!(&plan.parts[1], UploadPart::File { name, file_name } if name == "filename" && file_name == "debian.iso"));
    assert!(matches!(&plan.parts[2], UploadPart::Text { name, value } if name == "checksum" && value == "abc123"));
    assert!(matches!(&plan.parts[3], UploadPart::Text { name, value } if name == "checksum-algorithm" && value == "sha256"));

    let parts = upload_parts("vztmpl", "x.tar.zst", None, Some("sha512"));
    assert_eq!(parts.len(), 3);
    assert!(matches!(&parts[2], UploadPart::Text { name, .. } if name == "checksum-algorithm"));
    assert_eq!(upload_parts("iso", "x.iso", None, None).len(), 2);

    let err = client
        .storage_upload_file("pve1", "local", "iso", None, None, None)
        .expect_err("must fail");
    assert_eq!(err.to_string(), "invalid argument: invalid upload file path");
    assert_eq!(upload_file_name(Some("a.iso")).expect("name"), "a.iso");

    let request = StorageUploadRequest::new("iso", "/tmp/images/debian.iso");
    assert_eq!(request.file_path, "/tmp/images/debian.iso");
    let plan = client
        .storage_upload_with("pve1", "local", &request, Some("debian.iso"))
        .expect("plan");
    assert_eq!(plan.parts.len(), 2);
}
