use pve_sdk_rs::error::PveError;
use pve_sdk_rs::transport::{build_base_url, check_response, join_api_url, normalize_api_path};

#[test]
fn normalize_path_adds_api_prefix() {
    assert_eq!(normalize_api_path("/nodes"), "/api2/json/nodes");
    assert_eq!(normalize_api_path("nodes"), "/api2/json/nodes");
    assert_eq!(
        normalize_api_path("/api2/json/version"),
        "/api2/json/version"
    );
}

#[test]
fn build_base_url_from_host_and_port() {
    let url = build_base_url("pve.example.com", 8006, true).expect("must parse");
    assert_eq!(url.as_str(), "https://pve.example.com:8006/");
}

#[test]
fn build_base_url_rejects_embedded_port() {
    let err = build_base_url("pve.example.com:8006", 8006, true).expect_err("must fail");
    assert!(err.to_string().contains("use ClientOption::port()"));
}

#[test]
fn build_base_url_rejects_embedded_path() {
    let err = build_base_url("pve.example.com/api2/json", 8006, true).expect_err("must fail");
    assert!(err.to_string().contains("must not include path"));
}

#[test]
fn build_base_url_supports_ipv6_without_brackets() {
    let url = build_base_url("2001:db8::1", 8006, true).expect("must parse");
    assert_eq!(url.as_str(), "https://[2001:db8::1]:8006/");
}

#[test]
fn build_base_url_plain_http() {
    let url = build_base_url("10.0.0.7", 80, false).expect("must parse");
    assert_eq!(url.as_str(), "http://10.0.0.7/");
    let url = build_base_url("10.0.0.7", 8080, false).expect("must parse");
    assert_eq!(url.as_str(), "http://10.0.0.7:8080/");
}

#[test]
fn build_base_url_trims_space_and_trailing_slashes() {
    let url = build_base_url("  pve.example.com//  ", 8006, true).expect("must parse");
    assert_eq!(url.as_str(), "https://pve.example.com:8006/");
}

#[test]
fn build_base_url_accepts_a_url_that_names_only_a_host() {
    let url = build_base_url("https://pve.example.com", 8006, true).expect("must parse");
    assert_eq!(url.as_str(), "https://pve.example.com:8006/");
    let url = build_base_url("http://pve.example.com/", 8443, true).expect("must parse");
    assert_eq!(url.as_str(), "https://pve.example.com:8443/");
}

#[test]
fn build_base_url_accepts_a_url_with_the_default_port() {
    let url = build_base_url("https://pve.example.com:443", 8006, true).expect("must parse");
    assert_eq!(url.as_str(), "https://pve.example.com:8006/");
}

#[test]
fn build_base_url_rejects_what_a_url_carries_beyond_a_host() {
    let cases = [
        ("https://pve.example.com:8006", "use ClientOption::port()"),
        ("https://pve.example.com/api2", "use API methods with relative paths"),
        ("https://pve.example.com/?x=1", "query or fragment"),
        ("https://pve.example.com/#top", "query or fragment"),
        ("https://root@pve.example.com", "credentials"),
        ("https://root:pw@pve.example.com", "credentials"),
        ("https://", "invalid host URL"),
    ];
    for (host, needle) in cases {
        let err = build_base_url(host, 8006, true).expect_err("must fail");
        assert!(matches!(err, PveError::InvalidBaseUrl(_)), "{host}");
        assert!(err.to_string().contains(needle), "{host}: {}", err.to_string());
    }
}

#[test]
fn build_base_url_rejects_what_a_host_carries_beyond_a_host() {
    let cases = [
        ("pve.example.com?x=1", "query or fragment"),
        ("pve.example.com#top", "query or fragment"),
        ("root@pve.example.com", "credentials"),
        ("[2001:db8::1]:8006", "use ClientOption::port()"),
        ("a/b", "ClientOption::host"),
        ("", "host is empty"),
        ("   ", "host is empty"),
        ("///", "host is empty"),
    ];
    for (host, needle) in cases {
        let err = build_base_url(host, 8006, true).expect_err("must fail");
        assert!(matches!(err, PveError::InvalidBaseUrl(_)), "{host}");
        assert!(err.to_string().contains(needle), "{host}: {}", err.to_string());
    }
}

#[test]
fn build_base_url_keeps_a_bracketed_ipv6_literal() {
    let url = build_base_url("[2001:db8::1]", 8006, false).expect("must parse");
    assert_eq!(url.as_str(), "http://[2001:db8::1]:8006/");
}

#[test]
fn build_base_url_reports_the_text_that_did_not_parse() {
    let err = build_base_url("not:a:host", 8006, true).expect_err("must fail");
    match err {
        PveError::InvalidBaseUrl(text) => assert_eq!(text, "https://[not:a:host]:8006/"),
        other => panic!("unexpected error: {}", other.to_string()),
    }
}

#[test]
fn normalize_path_is_idempotent() {
    for path in ["", "/", "nodes", "/nodes/pve1/qemu", "/api2/json", "/api2/jsonx", "api2/json"] {
        let once = normalize_api_path(path);
        assert_eq!(normalize_api_path(&once), once);
        assert!(once.starts_with("/api2/json"));
    }
    assert_eq!(normalize_api_path(""), "/api2/json/");
    assert_eq!(normalize_api_path("api2/json"), "/api2/json/api2/json");
    assert_eq!(normalize_api_path("/api2/jsonx"), "/api2/jsonx");
}

#[test]
fn join_api_url_prefixes_and_joins() {
    let base = build_base_url("pve.example.com", 8006, true).expect("must parse");
    assert_eq!(
        join_api_url(&base, "/version").expect("url"),
        "https://pve.example.com:8006/api2/json/version"
    );
    assert_eq!(
        join_api_url(&base, "nodes/pve1/status").expect("url"),
        "https://pve.example.com:8006/api2/json/nodes/pve1/status"
    );
    assert_eq!(
        join_api_url(&base, "/api2/json/nodes").expect("url"),
        "https://pve.example.com:8006/api2/json/nodes"
    );
}

#[test]
fn check_response_passes_success_bodies_on() {
    for status in [200u16, 201, 204, 299] {
        let body = check_response(status, "{\"data\":null}".to_string()).expect("success");
        assert_eq!(body, "{\"data\":null}");
    }
}

#[test]
fn check_response_keeps_status_and_body_of_a_failure() {
    for status in [100u16, 199, 300, 301, 400, 401, 404, 500, 503, 599] {
        let err = check_response(status, "<html>no json</html>".to_string()).expect_err("failure");
        match err {
            PveError::ApiStatus { status: got, body } => {
                assert_eq!(got, status);
                assert_eq!(body, "<html>no json</html>");
            }
            other => panic!("unexpected error: {}", other.to_string()),
        }
    }
}
