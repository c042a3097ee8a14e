use pve_sdk_rs::client_option::{validate_api_token_format, ClientAuth, ClientOption};
use pve_sdk_rs::client::PveClient;
use pve_sdk_rs::error::PveError;
use pve_sdk_rs::params::PveParams;

fn vars(pairs: &[(&str, &str)]) -> PveParams {
    let mut vars = PveParams::new();
    for (k, v) in pairs {
        vars.insert(k, v);
    }
    vars
}

#[test]
fn from_env_parses_api_token() {
    let env = vars(&[
        ("PVE_AUTH_METHOD", "API_TOKEN"),
        ("PVE_API_TOKEN", "root@pam!ci=secret"),
    ]);

    let auth = ClientAuth::from_env(&env).expect("must parse");
    match auth {
        ClientAuth::ApiToken(token) => assert_eq!(token, "root@pam!ci=secret"),
        _ => panic!("expected api token"),
    }
}

#[test]
fn from_env_parses_api_token_partial() {
    let env = vars(&[
        ("PVE_AUTH_METHOD", "API_TOKEN_PARTIAL"),
        ("PVE_API_TOKEN_USER", "root"),
        ("PVE_API_TOKEN_REALM", "pam"),
        ("PVE_API_TOKEN_ID", "ci"),
        ("PVE_API_TOKEN_SECRET", "secret"),
    ]);

    let auth = ClientAuth::from_env(&env).expect("must parse");
    match auth {
        ClientAuth::ApiTokenPartial {
            user,
            realm,
            token_id,
            secret,
        } => {
            assert_eq!(user, "root");
            assert_eq!(realm, "pam");
            assert_eq!(token_id, "ci");
            assert_eq!(secret, "secret");
        }
        _ => panic!("expected api token partial"),
    }
}

#[test]
fn from_env_parses_username_password_with_optional_fields() {
    let env = vars(&[
        ("PVE_AUTH_METHOD", "USERNAME_PASSWORD"),
        ("PVE_USERNAME", "root@pam"),
        ("PVE_PASSWORD", "secret"),
        ("PVE_OTP", "123456"),
        ("PVE_REALM", "pam"),
        ("PVE_TFA_CHALLENGE", "challenge"),
    ]);

    let auth = ClientAuth::from_env(&env).expect("must parse");
    match auth {
        ClientAuth::Password {
            username,
            password,
            otp,
            realm,
            tfa_challenge,
        } => {
            assert_eq!(username, "root@pam");
            assert_eq!(password, "secret");
            assert_eq!(otp.as_deref(), Some("123456"));
            assert_eq!(realm.as_deref(), Some("pam"));
            assert_eq!(tfa_challenge.as_deref(), Some("challenge"));
        }
        _ => panic!("expected username/password"),
    }
}

#[test]
fn from_env_fails_for_invalid_method() {
    let env = vars(&[("PVE_AUTH_METHOD", "INVALID")]);
    let err = ClientAuth::from_env(&env).expect_err("must fail");
    assert!(err.to_string().contains("unsupported PVE_AUTH_METHOD"));
    assert_eq!(
        err.to_string(),
        "invalid argument: unsupported PVE_AUTH_METHOD=INVALID, expected API_TOKEN | API_TOKEN_PARTIAL | USERNAME_PASSWORD"
    );
}

#[test]
fn from_env_fails_for_missing_required_var() {
    let env = vars(&[("PVE_AUTH_METHOD", "API_TOKEN")]);
    let err = ClientAuth::from_env(&env).expect_err("must fail");
    assert!(err.to_string().contains("missing env var PVE_API_TOKEN"));
}

#[test]
fn from_env_fails_for_bad_api_token_format() {
    let env = vars(&[
        ("PVE_AUTH_METHOD", "API_TOKEN"),
        ("PVE_API_TOKEN", "just-secret"),
    ]);
    let err = ClientAuth::from_env(&env).expect_err("must fail");
    assert!(err.to_string().contains("PVE_API_TOKEN format invalid"));
}

#[test]
fn from_env_fails_for_api_token_with_empty_secret() {
    let env = vars(&[
        ("PVE_AUTH_METHOD", "API_TOKEN"),
        ("PVE_API_TOKEN", "root@pam!ci="),
    ]);
    let err = ClientAuth::from_env(&env).expect_err("must fail");
    assert!(err.to_string().contains("PVE_API_TOKEN format invalid"));
}

#[test]
fn from_env_trims_values_and_rejects_blank_ones() {
    let env = vars(&[
        ("PVE_AUTH_METHOD", "  USERNAME_PASSWORD\n"),
        ("PVE_USERNAME", " root@pam "),
        ("PVE_PASSWORD", "secret"),
        ("PVE_OTP", "   "),
    ]);
    match ClientAuth::from_env(&env).expect("must parse") {
        ClientAuth::Password {
            username,
            otp,
            realm,
            ..
        } => {
            assert_eq!(username, "root@pam");
            assert!(otp.is_none());
            assert!(realm.is_none());
        }
        _ => panic!("expected username/password"),
    }
    let env = vars(&[("PVE_AUTH_METHOD", "   ")]);
    let err = ClientAuth::from_env(&env).expect_err("must fail");
    assert_eq!(
        err.to_string(),
        "invalid argument: env var PVE_AUTH_METHOD must not be empty"
    );
    let err = ClientAuth::from_env(&PveParams::new()).expect_err("must fail");
    assert_eq!(
        err.to_string(),
        "invalid argument: missing env var PVE_AUTH_METHOD"
    );
}

#[test]
fn from_env_does_not_check_the_parts_of_a_partial_token() {
    let env = vars(&[
        ("PVE_AUTH_METHOD", "API_TOKEN_PARTIAL"),
        ("PVE_API_TOKEN_USER", "ro!ot"),
        ("PVE_API_TOKEN_REALM", "pam"),
        ("PVE_API_TOKEN_ID", "ci"),
        ("PVE_API_TOKEN_SECRET", "secret"),
    ]);
    let auth = ClientAuth::from_env(&env).expect("must parse");
    let err = PveClient::from_option(ClientOption::new("pve.example.com").auth(auth))
        .expect_err("the client checks the token");
    assert!(matches!(err, PveError::InvalidArgument(_)));
}

#[test]
fn api_token_format() {
    for good in [
        "root@pam!ci=secret",
        "a@b!c=d",
        "user@realm!id=se=cr=et",
        "user@realm!id=se!cret",
        "us er@re alm!i d=s",
        "u@r@x!t=s",
    ] {
        validate_api_token_format(good).expect(good);
    }
    for bad in [
        "",
        "just-secret",
        "root@pam!ci=",
        "root@pam!=secret",
        "root@!ci=secret",
        "@pam!ci=secret",
        "root@pam!ci",
        "rootpam!ci=secret",
        "root@pam=ci!secret",
        "root!pam@ci=secret",
        "a!b@c!d=e",
    ] {
        let err = validate_api_token_format(bad).expect_err(bad);
        assert_eq!(
            err.to_string(),
            "invalid argument: PVE_API_TOKEN format invalid, expected <user>@<realm>!<tokenid>=<secret>"
        );
    }
}

#[test]
fn client_option_defaults() {
    let option = ClientOption::new("pve.example.com");
    assert_eq!(option.host, "pve.example.com");
    assert_eq!(option.port, 8006);
    assert_eq!(option.port, PveClient::DEFAULT_PORT);
    assert!(option.https);
    assert!(option.insecure_tls);
    assert!(option.timeout.is_none());
    assert!(option.connect_timeout.is_none());
    assert!(matches!(option.auth, ClientAuth::Anonymous));
    let option = option.host("other.example.com").auth_none();
    assert_eq!(option.host, "other.example.com");
    assert_eq!(option.port, 8006);
}
