use pve_sdk_rs::params::PveParams;
use pve_sdk_rs::requests::{QemuCreateRequest, QemuMigrateRequest};
use pve_sdk_rs::types::access::{
    AccessAclQuery, AccessCreateTokenRequest, AccessCreateUserRequest, AccessDeleteAclRequest,
    AccessSetAclRequest, AccessUpdateTokenRequest, AccessUpdateUserRequest,
};
use pve_sdk_rs::types::datacenter::DatacenterConfigUpdateRequest;
use pve_sdk_rs::types::qemu;

#[test]
fn requests_qemu_create_maps_bool_and_required_fields() {
    let mut req = QemuCreateRequest::new(220);
    req.onboot = Some(true);
    req.name = Some("demo".to_string());

    let params = req.to_params();
    assert_eq!(params.get("vmid"), Some("220"));
    assert_eq!(params.get("onboot"), Some("1"));
    assert_eq!(params.get("name"), Some("demo"));
}

#[test]
fn requests_qemu_migrate_maps_target_and_flags() {
    let mut req = QemuMigrateRequest::new("pve2");
    req.online = Some(true);
    req.with_local_disks = Some(false);
    let params = req.to_params();

    assert_eq!(params.get("target"), Some("pve2"));
    assert_eq!(params.get("online"), Some("1"));
    assert_eq!(params.get("with-local-disks"), Some("0"));
}

#[test]
fn qemu_qemu_create_maps_bool_and_required_fields() {
    let mut req = qemu::QemuCreateRequest::new(220);
    req.onboot = Some(true);
    req.name = Some("demo".to_string());

    let params = req.to_params();
    assert_eq!(params.get("vmid"), Some("220"));
    assert_eq!(params.get("onboot"), Some("1"));
    assert_eq!(params.get("name"), Some("demo"));
}

#[test]
fn qemu_qemu_migrate_maps_target_and_flags() {
    let mut req = qemu::QemuMigrateRequest::new("pve2");
    req.online = Some(true);
    req.with_local_disks = Some(false);
    let params = req.to_params();

    assert_eq!(params.get("target"), Some("pve2"));
    assert_eq!(params.get("online"), Some("1"));
    assert_eq!(params.get("with-local-disks"), Some("0"));
}

#[test]
fn access_acl_query_maps_bool() {
    let query = AccessAclQuery {
        path: Some("/".to_string()),
        exact: Some(true),
    };
    let params = query.to_params();
    assert_eq!(params.get("path"), Some("/"));
    assert_eq!(params.get("exact"), Some("1"));
}

#[test]
fn access_create_token_maps_fields() {
    let mut req = AccessCreateTokenRequest::new("ci");
    req.comment = Some("robot".to_string());
    req.privsep = Some(false);
    let params = req.to_params();
    assert_eq!(params.get("tokenid"), Some("ci"));
    assert_eq!(params.get("comment"), Some("robot"));
    assert_eq!(params.get("privsep"), Some("0"));
}

#[test]
fn access_update_token_maps_optional_fields() {
    let req = AccessUpdateTokenRequest {
        comment: Some("rotated".to_string()),
        enable: Some(true),
        expire: Some(3600),
    };
    let params = req.to_params();
    assert_eq!(params.get("comment"), Some("rotated"));
    assert_eq!(params.get("enable"), Some("1"));
    assert_eq!(params.get("expire"), Some("3600"));
}

#[test]
fn access_create_user_maps_fields() {
    let mut req = AccessCreateUserRequest::new("dev@pve");
    req.password = Some("secret".to_string());
    req.enable = Some(true);
    req.groups = Some("devops".to_string());
    let params = req.to_params();
    assert_eq!(params.get("userid"), Some("dev@pve"));
    assert_eq!(params.get("password"), Some("secret"));
    assert_eq!(params.get("enable"), Some("1"));
    assert_eq!(params.get("groups"), Some("devops"));
}

#[test]
fn access_update_user_maps_optional_fields() {
    let req = AccessUpdateUserRequest {
        comment: Some("updated".to_string()),
        email: None,
        enable: Some(false),
        expire: Some(99),
        firstname: None,
        lastname: None,
        groups: None,
        keys: None,
        password: None,
    };
    let params = req.to_params();
    assert_eq!(params.get("comment"), Some("updated"));
    assert_eq!(params.get("enable"), Some("0"));
    assert_eq!(params.get("expire"), Some("99"));
}

#[test]
fn access_set_acl_maps_required_fields() {
    let mut req = AccessSetAclRequest::new("/vms", "PVEVMAdmin");
    req.users = Some("dev@pve".to_string());
    req.propagate = Some(true);
    let params = req.to_params();
    assert_eq!(params.get("path"), Some("/vms"));
    assert_eq!(params.get("roles"), Some("PVEVMAdmin"));
    assert_eq!(params.get("users"), Some("dev@pve"));
    assert_eq!(params.get("propagate"), Some("1"));
}

#[test]
fn access_delete_acl_sets_delete_flag() {
    let mut req = AccessDeleteAclRequest::new("/vms");
    req.users = Some("dev@pve".to_string());
    let params = req.to_params();
    assert_eq!(params.get("path"), Some("/vms"));
    assert_eq!(params.get("users"), Some("dev@pve"));
    assert_eq!(params.get("delete"), Some("1"));
}

#[test]
fn datacenter_update_config_maps_known_fields() {
    let req = DatacenterConfigUpdateRequest {
        keyboard: Some("en-us".to_string()),
        language: Some("en".to_string()),
        migration: None,
        console: None,
        email_from: Some("noreply@example.com".to_string()),
        max_workers: Some(8),
        next_id: Some(200),
        extra: Default::default(),
    };
    let params = req.to_params();
    assert_eq!(params.get("keyboard"), Some("en-us"));
    assert_eq!(params.get("language"), Some("en"));
    assert_eq!(params.get("email-from"), Some("noreply@example.com"));
    assert_eq!(params.get("max_workers"), Some("8"));
    assert_eq!(params.get("next-id"), Some("200"));
}

#[test]
fn extra_parameters_override_typed_fields() {
    let mut req = QemuCreateRequest::new(220);
    req.name = Some("demo".to_string());
    req.extra = PveParams::new().with("name", "override").with("ide2", "none,media=cdrom");
    let params = req.to_params();
    assert_eq!(params.get("name"), Some("override"));
    assert_eq!(params.get("ide2"), Some("none,media=cdrom"));
    assert_eq!(params.get("vmid"), Some("220"));
    assert_eq!(params.get("memory"), None);
}
