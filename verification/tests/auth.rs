use pve_sdk_rs::auth::{select_auth_headers, Auth, HttpMethod};
use pve_sdk_rs::client::{apply_auth, ApiRequest};
use pve_sdk_rs::error::PveError;

fn request(method: HttpMethod, url: &str) -> ApiRequest {
    ApiRequest {
        method,
        url: url.to_string(),
        query: None,
        headers: Vec::new(),
        form: None,
    }
}

fn header<'a>(request: &'a ApiRequest, name: &str) -> Option<&'a str> {
    request
        .headers
        .iter()
        .find(|(n, _)| n.eq_ignore_ascii_case(name))
        .map(|(_, v)| v.as_str())
}

const WRITES: [HttpMethod; 4] = [
    HttpMethod::Post,
    HttpMethod::Put,
    HttpMethod::Delete,
    HttpMethod::Patch,
];

const READS: [HttpMethod; 5] = [
    HttpMethod::Get,
    HttpMethod::Head,
    HttpMethod::Options,
    HttpMethod::Connect,
    HttpMethod::Trace,
];

#[test]
fn apply_auth_sets_api_token_header() {
    let auth = Auth::ApiToken("root@pam!ci=secret".to_string());
    let request = request(
        HttpMethod::Get,
        "https://pve.example.com:8006/api2/json/version",
    );
    let request = apply_auth(&auth, request, HttpMethod::Get).expect("must apply auth");
    let header = header(&request, "authorization").expect("authorization header");
    assert_eq!(header, "PVEAPIToken=root@pam!ci=secret");
}

#[test]
fn apply_auth_ticket_get_does_not_require_csrf() {
    let auth = Auth::Ticket {
        ticket: "PVE:ticket-value".to_string(),
        csrf: None,
    };
    let request = request(
        HttpMethod::Get,
        "https://pve.example.com:8006/api2/json/version",
    );
    let request = apply_auth(&auth, request, HttpMethod::Get).expect("must apply auth");
    assert!(header(&request, "CSRFPreventionToken").is_none());
    let cookie = header(&request, "cookie").expect("cookie header");
    assert_eq!(cookie, "PVEAuthCookie=PVE:ticket-value");
}

#[test]
fn apply_auth_ticket_write_requires_csrf() {
    let auth = Auth::Ticket {
        ticket: "PVE:ticket-value".to_string(),
        csrf: None,
    };
    let request = request(HttpMethod::Post, "https://pve.example.com:8006/api2/json/nodes");
    let err = apply_auth(&auth, request, HttpMethod::Post).expect_err("must reject missing csrf");
    assert!(matches!(err, PveError::MissingCsrfToken));
}

#[test]
fn apply_auth_ticket_write_sets_csrf_header() {
    let auth = Auth::Ticket {
        ticket: "PVE:ticket-value".to_string(),
        csrf: Some("csrf-token-value".to_string()),
    };
    let request = request(HttpMethod::Post, "https://pve.example.com:8006/api2/json/nodes");
    let request = apply_auth(&auth, request, HttpMethod::Post).expect("must apply auth");
    let csrf = header(&request, "CSRFPreventionToken").expect("csrf header");
    assert_eq!(csrf, "csrf-token-value");
}

#[test]
fn no_credentials_add_no_header() {
    for method in WRITES.into_iter().chain(READS) {
        let headers = select_auth_headers(&Auth::Anonymous, method).expect("headers");
        assert!(headers.is_empty());
    }
}

#[test]
fn api_token_header_goes_out_on_every_verb() {
    let auth = Auth::ApiToken("root@pam!ci=secret".to_string());
    for method in WRITES.into_iter().chain(READS) {
        let headers = select_auth_headers(&auth, method).expect("headers");
        assert_eq!(
            headers,
            vec![(
                "authorization".to_string(),
                "PVEAPIToken=root@pam!ci=secret".to_string()
            )]
        );
    }
}

#[test]
fn ticket_cookie_goes_out_on_every_verb() {
    let auth = Auth::Ticket {
        ticket: "PVE:t".to_string(),
        csrf: Some("c".to_string()),
    };
    for method in READS {
        let headers = select_auth_headers(&auth, method).expect("headers");
        assert_eq!(
            headers,
            vec![("cookie".to_string(), "PVEAuthCookie=PVE:t".to_string())]
        );
    }
    for method in WRITES {
        let headers = select_auth_headers(&auth, method).expect("headers");
        assert_eq!(
            headers,
            vec![
                ("cookie".to_string(), "PVEAuthCookie=PVE:t".to_string()),
                ("CSRFPreventionToken".to_string(), "c".to_string()),
            ]
        );
    }
}

#[test]
fn missing_csrf_fails_on_writes_only() {
    let auth = Auth::Ticket {
        ticket: "PVE:t".to_string(),
        csrf: None,
    };
    for method in WRITES {
        let err = select_auth_headers(&auth, method).expect_err("must fail");
        assert!(matches!(err, PveError::MissingCsrfToken));
        assert_eq!(
            err.to_string(),
            "missing csrf token for write request in ticket mode"
        );
    }
    for method in READS {
        let headers = select_auth_headers(&auth, method).expect("headers");
        assert_eq!(headers.len(), 1);
    }
}

#[test]
fn apply_auth_keeps_the_rest_of_the_request() {
    let auth = Auth::ApiToken("root@pam!ci=secret".to_string());
    let mut before = request(HttpMethod::Put, "https://pve.example.com:8006/api2/json/x");
    before
        .headers
        .push(("accept".to_string(), "application/json".to_string()));
    let after = apply_auth(&auth, before, HttpMethod::Put).expect("must apply auth");
    assert_eq!(after.method, HttpMethod::Put);
    assert_eq!(after.url, "https://pve.example.com:8006/api2/json/x");
    assert!(after.query.is_none());
    assert!(after.form.is_none());
    assert_eq!(after.headers.len(), 2);
    assert_eq!(after.headers[0].0, "accept");
    assert_eq!(after.headers[1].0, "authorization");
}

#[test]
fn method_names_and_write_verbs() {
    assert_eq!(HttpMethod::Get.as_str(), "GET");
    assert_eq!(HttpMethod::Delete.as_str(), "DELETE");
    assert_eq!(HttpMethod::Patch.as_str(), "PATCH");
    for method in WRITES {
        assert!(method.writes());
    }
    for method in READS {
        assert!(!method.writes());
    }
}

#[test]
fn api_token_with_a_control_character_is_refused() {
    for token in ["root@pam!ci=sec\nret", "root@pam!ci=\u{0}", "root@pam!ci=\u{7f}", "\r"] {
        let auth = Auth::ApiToken(token.to_string());
        for method in WRITES.into_iter().chain(READS) {
            let err = select_auth_headers(&auth, method).expect_err("must fail");
            assert_eq!(
                err.to_string(),
                "invalid argument: invalid api token header value"
            );
        }
    }
    for token in ["root@pam!ci=sec\tret", "root@pam!ci=sécret", "root@pam!ci= ~", ""] {
        let auth = Auth::ApiToken(token.to_string());
        let headers = select_auth_headers(&auth, HttpMethod::Get).expect("headers");
        assert_eq!(headers[0].1, format!("PVEAPIToken={token}"));
    }
}

#[test]
fn a_verb_given_by_name_is_a_write_where_its_name_is_one() {
    for name in ["POST", "PUT", "DELETE", "PATCH"] {
        assert!(HttpMethod::Other(name.to_string()).writes());
    }
    for name in ["post", "PROPFIND", "REPORT", "GET", ""] {
        let method = HttpMethod::Other(name.to_string());
        assert!(!method.writes());
        assert_eq!(method.as_str(), name);
    }
    let auth = Auth::Ticket {
        ticket: "PVE:t".to_string(),
        csrf: None,
    };
    let headers = select_auth_headers(&auth, HttpMethod::Other("PROPFIND".to_string()))
        .expect("a read needs no anti-CSRF token");
    assert_eq!(headers.len(), 1);
    let err = select_auth_headers(&auth, HttpMethod::Other("PATCH".to_string()))
        .expect_err("a write does");
    assert!(matches!(err, PveError::MissingCsrfToken));
}
