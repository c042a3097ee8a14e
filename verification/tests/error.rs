use pve_sdk_rs::error::PveError;

#[test]
fn messages_of_plain_errors() {
    let cases = [
        (
            PveError::InvalidBaseUrl("host is empty".to_string()),
            "invalid base url: host is empty",
        ),
        (
            PveError::InvalidArgument("x".to_string()),
            "invalid argument: x",
        ),
        (
            PveError::ApiStatus {
                status: 404,
                body: "".to_string(),
            },
            "pve api returned status 404: ",
        ),
        (
            PveError::MissingCsrfToken,
            "missing csrf token for write request in ticket mode",
        ),
        (
            PveError::TaskFailed {
                upid: "UPID:1".to_string(),
                exitstatus: "FAIL".to_string(),
            },
            "task UPID:1 failed with exitstatus FAIL",
        ),
        (
            PveError::TaskTimeout {
                upid: "UPID:1".to_string(),
                timeout_secs: 0,
            },
            "task UPID:1 timed out after 0s",
        ),
    ];
    for (error, text) in cases {
        assert_eq!(error.to_string(), text);
    }
}

#[test]
fn messages_of_wrapped_errors() {
    let io = std::io::Error::new(std::io::ErrorKind::NotFound, "no such file");
    assert_eq!(PveError::Io(io).to_string(), "io error: no such file");

    let json = serde_json::from_str::<serde_json::Value>("{").expect_err("not json");
    let text = json.to_string();
    assert_eq!(
        PveError::Decode(json).to_string(),
        format!("failed to decode api response: {text}")
    );

    let http = reqwest::Client::new()
        .get("not a url")
        .build()
        .expect_err("not a url");
    let text = http.to_string();
    assert_eq!(
        PveError::Http(http).to_string(),
        format!("http request failed: {text}")
    );
}

#[test]
fn wrapped_errors_convert_into_their_variant() {
    let io = std::io::Error::new(std::io::ErrorKind::NotFound, "no such file");
    assert!(matches!(PveError::from(io), PveError::Io(_)));
    let json = serde_json::from_str::<serde_json::Value>("{").expect_err("not json");
    assert!(matches!(PveError::from(json), PveError::Decode(_)));
    let http = reqwest::Client::new()
        .get("not a url")
        .build()
        .expect_err("not a url");
    assert!(matches!(PveError::from(http), PveError::Http(_)));
}
