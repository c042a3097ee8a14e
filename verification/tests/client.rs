use std::time::Duration;

use pve_sdk_rs::auth::{Auth, HttpMethod};
use pve_sdk_rs::client::{validate_acl_params, ClientStart, PveClient};
use pve_sdk_rs::client_option::{ClientAuth, ClientOption};
use pve_sdk_rs::error::PveError;
use pve_sdk_rs::params::PveParams;
use pve_sdk_rs::requests;
use pve_sdk_rs::types::access::TicketInfo;

fn ready(option: ClientOption) -> PveClient {
    match PveClient::from_option(option).expect("must build") {
        ClientStart::Ready(client) => client,
        ClientStart::Login { .. } => panic!("expected a ready client"),
    }
}

fn token_client() -> PveClient {
    ready(ClientOption::new("pve.example.com").api_token("root@pam!ci=token"))
}

#[test]
fn client_option_chain_builds_client() {
    let client = ready(
        ClientOption::new("pve.example.com")
            .port(8443)
            .https(false)
            .insecure_tls(false)
            .timeout(Duration::from_secs(10))
            .connect_timeout(Duration::from_secs(3))
            .api_token("root@pam!ci=token"),
    );

    assert_eq!(
        client.url("/version").expect("url").as_str(),
        "http://pve.example.com:8443/api2/json/version"
    );
    assert!(matches!(client.auth(), Auth::ApiToken(_)));
    assert_eq!(client.timeout(), Some(Duration::from_secs(10)));
    assert_eq!(client.connect_timeout(), Some(Duration::from_secs(3)));
}

#[test]
fn client_option_all_builds_client() {
    let options = ClientOption::all("pve.example.com", 9443, true, true, ClientAuth::Anonymous);
    let client = ready(options);
    assert_eq!(
        client.url("/nodes").expect("url").as_str(),
        "https://pve.example.com:9443/api2/json/nodes"
    );
}

#[test]
fn client_option_all_with_timeouts_builds_client() {
    let options = ClientOption::all_with_timeouts(
        "pve.example.com",
        9443,
        true,
        true,
        Some(Duration::from_secs(10)),
        Some(Duration::from_secs(3)),
        ClientAuth::Anonymous,
    );
    let client = ready(options);
    assert_eq!(
        client.url("/nodes").expect("url").as_str(),
        "https://pve.example.com:9443/api2/json/nodes"
    );
}

#[test]
fn client_option_api_token_partial_builds_token() {
    let client =
        ready(ClientOption::new("pve.example.com").api_token_partial("root", "pam", "ci", "secret"));
    match client.auth() {
        Auth::ApiToken(token) => assert_eq!(token, "root@pam!ci=secret"),
        _ => panic!("expected api token auth"),
    }
}

#[test]
fn client_option_api_token_rejects_invalid_format() {
    let err = PveClient::from_option(ClientOption::new("pve.example.com").api_token("invalid-token"))
        .expect_err("must fail");
    assert!(err.to_string().contains("PVE_API_TOKEN format invalid"));
}

#[test]
fn access_set_acl_rejects_missing_subject() {
    let client = token_client();
    let request = requests::AccessSetAclRequest::new("/vms", "PVEVMAdmin");
    let err = client
        .access_set_acl_with(&request)
        .expect_err("must reject missing subject");
    assert!(matches!(err, PveError::InvalidArgument(_)));
}

#[test]
fn access_delete_acl_rejects_missing_targets() {
    let client = token_client();
    let request = requests::AccessDeleteAclRequest::new("/vms");
    let err = client
        .access_delete_acl_with(&request)
        .expect_err("must reject missing target");
    assert!(matches!(err, PveError::InvalidArgument(_)));
}

#[test]
fn grouped_accessors_are_available() {
    let client = token_client();
    let _ = client.access();
    let _ = client.cluster();
    let _ = client.datacenter();
    let _ = client.node();
    let _ = client.qemu();
    let _ = client.lxc();
    let _ = client.storage();
    let _ = client.backup();
    let _ = client.task();
    let _ = client.raw();
}

#[test]
fn access_api_set_acl_with_propagates_validation_error() {
    let client = token_client();
    let request = requests::AccessSetAclRequest::new("/vms", "PVEVMAdmin");
    let err = client
        .access()
        .set_acl_with(&request)
        .expect_err("must reject missing subject");
    assert!(matches!(err, PveError::InvalidArgument(_)));
}

#[test]
fn partial_token_fields_are_trimmed_and_must_not_be_blank() {
    let client = ready(
        ClientOption::new("pve.example.com").api_token_partial(" root ", "pam\n", "\tci", "secret"),
    );
    match client.auth() {
        Auth::ApiToken(token) => assert_eq!(token, "root@pam!ci=secret"),
        _ => panic!("expected api token auth"),
    }
    let err = PveClient::from_option(
        ClientOption::new("pve.example.com").api_token_partial("root", "  ", "ci", "secret"),
    )
    .expect_err("must fail");
    assert_eq!(
        err.to_string(),
        "invalid argument: api token partial fields must be non-empty"
    );
    let err = PveClient::from_option(
        ClientOption::new("pve.example.com").api_token_partial("ro!ot", "pam", "ci", "secret"),
    )
    .expect_err("must fail");
    assert!(err.to_string().contains("PVE_API_TOKEN format invalid"));
}

#[test]
fn base_url_error_comes_before_credential_error() {
    let err = PveClient::from_option(ClientOption::new("pve.example.com:8006").api_token("bad"))
        .expect_err("must fail");
    assert!(matches!(err, PveError::InvalidBaseUrl(_)));
}

#[test]
fn ticket_credentials_are_taken_as_they_are() {
    let client = ready(ClientOption::new("pve.example.com").ticket("PVE:t", "csrf"));
    match client.auth() {
        Auth::Ticket { ticket, csrf } => {
            assert_eq!(ticket, "PVE:t");
            assert_eq!(csrf.as_deref(), Some("csrf"));
        }
        _ => panic!("expected ticket auth"),
    }
    let client = ready(ClientOption::new("pve.example.com").ticket_without_csrf("PVE:t"));
    match client.auth() {
        Auth::Ticket { csrf, .. } => assert!(csrf.is_none()),
        _ => panic!("expected ticket auth"),
    }
}

#[test]
fn password_calls_for_a_login() {
    let option = ClientOption::new("pve.example.com").password_with_opts(
        "root@pam",
        "secret",
        Some("123456".to_string()),
        None,
        None,
    );
    let (client, request) = match PveClient::from_option(option).expect("must build") {
        ClientStart::Login { client, request } => (client, request),
        ClientStart::Ready(_) => panic!("expected a login"),
    };
    assert!(matches!(client.auth(), Auth::Anonymous));
    assert_eq!(request.username, "root@pam");
    assert_eq!(request.password, "secret");
    assert_eq!(request.otp.as_deref(), Some("123456"));

    let login = client.request_ticket_with(&request).expect("request");
    assert_eq!(login.method, HttpMethod::Post);
    assert_eq!(
        login.url,
        "https://pve.example.com:8006/api2/json/access/ticket"
    );
    assert!(login.headers.is_empty());
    let form = login.form.expect("form");
    assert_eq!(form.get("username"), Some("root@pam"));
    assert_eq!(form.get("password"), Some("secret"));
    assert_eq!(form.get("otp"), Some("123456"));
    assert_eq!(form.get("realm"), None);

    let client = client.complete_login(TicketInfo {
        username: "root@pam".to_string(),
        ticket: "PVE:root@pam:ABCD".to_string(),
        csrf_prevention_token: "csrf-1".to_string(),
        clustername: None,
    });
    match client.auth() {
        Auth::Ticket { ticket, csrf } => {
            assert_eq!(ticket, "PVE:root@pam:ABCD");
            assert_eq!(csrf.as_deref(), Some("csrf-1"));
        }
        _ => panic!("expected ticket auth"),
    }
}

#[test]
fn set_auth_replaces_the_credentials() {
    let mut client = token_client();
    client.set_auth(Auth::Anonymous);
    assert!(matches!(client.auth(), Auth::Anonymous));
    assert_eq!(client.base_url().as_str(), "https://pve.example.com:8006/");
}

#[test]
fn send_leaves_out_an_empty_query() {
    let client = token_client();
    let empty = PveParams::new();
    let request = client
        .send(HttpMethod::Get, "/nodes", Some(&empty), None)
        .expect("request");
    assert!(request.query.is_none());
    let query = PveParams::new().with("type", "vm");
    let request = client
        .send(HttpMethod::Get, "/cluster/resources", Some(&query), None)
        .expect("request");
    assert_eq!(request.query.expect("query").get("type"), Some("vm"));
    assert_eq!(
        request.headers,
        vec![(
            "authorization".to_string(),
            "PVEAPIToken=root@pam!ci=token".to_string()
        )]
    );
}

#[test]
fn send_keeps_an_empty_form() {
    let client = token_client();
    let empty = PveParams::new();
    let request = client
        .send(HttpMethod::Post, "/nodes/pve1/vzdump", None, Some(&empty))
        .expect("request");
    assert!(request.form.expect("form").is_empty());
}

#[test]
fn send_fails_before_anything_is_sent_without_csrf() {
    let client = ready(ClientOption::new("pve.example.com").ticket_without_csrf("PVE:t"));
    let err = client
        .send(HttpMethod::Post, "/nodes", None, None)
        .expect_err("must fail");
    assert!(matches!(err, PveError::MissingCsrfToken));
    let request = client
        .send(HttpMethod::Get, "/nodes", None, None)
        .expect("request");
    assert_eq!(
        request.headers,
        vec![("cookie".to_string(), "PVEAuthCookie=PVE:t".to_string())]
    );
}

fn acl(pairs: &[(&str, &str)]) -> PveParams {
    let mut params = PveParams::new();
    for (k, v) in pairs {
        params.insert(k, v);
    }
    params
}

#[test]
fn acl_blank_path_is_rejected_for_set_and_delete() {
    for pairs in [
        vec![("roles", "PVEAdmin"), ("users", "dev@pve")],
        vec![("path", "   "), ("roles", "PVEAdmin"), ("users", "dev@pve")],
        vec![("path", ""), ("delete", "1"), ("users", "dev@pve")],
        vec![("delete", "true"), ("roles", "PVEAdmin")],
    ] {
        let err = validate_acl_params(&acl(&pairs)).expect_err("must fail");
        assert_eq!(
            err.to_string(),
            "invalid argument: access acl requires non-empty path"
        );
    }
}

#[test]
fn acl_set_needs_roles_and_a_subject() {
    let err = validate_acl_params(&acl(&[("path", "/vms"), ("roles", "PVEAdmin")]))
        .expect_err("must fail");
    assert_eq!(
        err.to_string(),
        "invalid argument: access acl set requires at least one of users/groups/tokens"
    );
    let err = validate_acl_params(&acl(&[("path", "/vms"), ("users", "dev@pve")]))
        .expect_err("must fail");
    assert_eq!(
        err.to_string(),
        "invalid argument: access acl set requires non-empty roles"
    );
    let err = validate_acl_params(&acl(&[
        ("path", "/vms"),
        ("roles", "PVEAdmin"),
        ("users", " \t"),
    ]))
    .expect_err("must fail");
    assert!(matches!(err, PveError::InvalidArgument(_)));
    for subject in ["users", "groups", "tokens"] {
        validate_acl_params(&acl(&[("path", "/vms"), ("roles", "PVEAdmin"), (subject, "x")]))
            .expect("must pass");
    }
    validate_acl_params(&acl(&[
        ("path", "/vms"),
        ("roles", "PVEAdmin"),
        ("users", "x"),
        ("delete", "0"),
    ]))
    .expect("must pass");
}

#[test]
fn acl_delete_needs_roles_or_a_subject() {
    for flag in ["1", "true", "TRUE", "True"] {
        let err = validate_acl_params(&acl(&[("path", "/vms"), ("delete", flag)]))
            .expect_err("must fail");
        assert_eq!(
            err.to_string(),
            "invalid argument: access acl delete requires at least one of roles/users/groups/tokens"
        );
        validate_acl_params(&acl(&[("path", "/vms"), ("delete", flag), ("roles", "PVEAdmin")]))
            .expect("roles alone");
        validate_acl_params(&acl(&[("path", "/vms"), ("delete", flag), ("groups", "ops")]))
            .expect("subject alone");
    }
    for flag in ["yes", "on", " 1", "0", ""] {
        let err = validate_acl_params(&acl(&[("path", "/vms"), ("delete", flag), ("users", "x")]))
            .expect_err("not a deletion, so roles are needed");
        assert_eq!(
            err.to_string(),
            "invalid argument: access acl set requires non-empty roles"
        );
    }
}

#[test]
fn acl_requests_pass_once_they_name_a_subject() {
    let client = token_client();
    let mut request = requests::AccessSetAclRequest::new("/vms", "PVEVMAdmin");
    request.groups = Some("ops".to_string());
    let sent = client.access_set_acl_with(&request).expect("request");
    assert_eq!(sent.method, HttpMethod::Put);
    assert_eq!(sent.url, "https://pve.example.com:8006/api2/json/access/acl");
    let form = sent.form.expect("form");
    assert_eq!(form.get("groups"), Some("ops"));
    assert_eq!(form.get("delete"), None);

    let mut request = requests::AccessDeleteAclRequest::new("/vms");
    request.roles = Some("PVEVMAdmin".to_string());
    let sent = client.access_delete_acl_with(&request).expect("request");
    assert_eq!(sent.form.expect("form").get("delete"), Some("1"));
}
