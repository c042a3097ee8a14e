//! Connection settings and the credentials a client is configured with.

use crate::client::PveClient;
use crate::error::{ErrorView, PveError};
use crate::params::PveParams;
use crate::text::{
    clone_opt, concat2, concat3, opt_view, same_text, split_at_first, split_once, trim, trimmed,
};
use std::time::Duration;
use vstd::prelude::*;

verus! {

/// The credentials a client is configured with, before they are checked
/// or exchanged for a session.
#[derive(Debug)]
pub enum ClientAuth {
    /// No credentials.
    Anonymous,
    /// A complete API token.
    ApiToken(String),
    /// An API token given as its four parts.
    ApiTokenPartial { user: String, realm: String, token_id: String, secret: String },
    /// A session ticket obtained earlier.
    Ticket { ticket: String, csrf: Option<String> },
    /// A user name and password, to be exchanged for a ticket.
    Password {
        username: String,
        password: String,
        otp: Option<String>,
        realm: Option<String>,
        tfa_challenge: Option<String>,
    },
}

/// Configured credentials with their texts as character sequences.
pub enum ClientAuthView {
    Anonymous,
    ApiToken(Seq<char>),
    ApiTokenPartial { user: Seq<char>, realm: Seq<char>, token_id: Seq<char>, secret: Seq<char> },
    Ticket { ticket: Seq<char>, csrf: Option<Seq<char>> },
    Password {
        username: Seq<char>,
        password: Seq<char>,
        otp: Option<Seq<char>>,
        realm: Option<Seq<char>>,
        tfa_challenge: Option<Seq<char>>,
    },
}

impl View for ClientAuth {
    type V = ClientAuthView;

    open spec fn view(&self) -> ClientAuthView {
        match self {
            ClientAuth::Anonymous => ClientAuthView::Anonymous,
            ClientAuth::ApiToken(token) => ClientAuthView::ApiToken(token@),
            ClientAuth::ApiTokenPartial { user, realm, token_id, secret } => {
                ClientAuthView::ApiTokenPartial {
                    user: user@,
                    realm: realm@,
                    token_id: token_id@,
                    secret: secret@,
                }
            },
            ClientAuth::Ticket { ticket, csrf } => ClientAuthView::Ticket {
                ticket: ticket@,
                csrf: opt_view(*csrf),
            },
            ClientAuth::Password { username, password, otp, realm, tfa_challenge } => {
                ClientAuthView::Password {
                    username: username@,
                    password: password@,
                    otp: opt_view(*otp),
                    realm: opt_view(*realm),
                    tfa_challenge: opt_view(*tfa_challenge),
                }
            },
        }
    }
}

impl Clone for ClientAuth {
    fn clone(&self) -> (r: Self)
        ensures
            r == *self,
    {
        match self {
            ClientAuth::Anonymous => ClientAuth::Anonymous,
            ClientAuth::ApiToken(token) => ClientAuth::ApiToken(token.clone()),
            ClientAuth::ApiTokenPartial { user, realm, token_id, secret } => {
                ClientAuth::ApiTokenPartial {
                    user: user.clone(),
                    realm: realm.clone(),
                    token_id: token_id.clone(),
                    secret: secret.clone(),
                }
            },
            ClientAuth::Ticket { ticket, csrf } => ClientAuth::Ticket {
                ticket: ticket.clone(),
                csrf: clone_opt(csrf),
            },
            ClientAuth::Password { username, password, otp, realm, tfa_challenge } => {
                ClientAuth::Password {
                    username: username.clone(),
                    password: password.clone(),
                    otp: clone_opt(otp),
                    realm: clone_opt(realm),
                    tfa_challenge: clone_opt(tfa_challenge),
                }
            },
        }
    }
}

/// Whether `token` has the shape `<user>@<realm>!<tokenid>=<secret>`
/// with none of the four parts empty. The token is cut at its first `!`,
/// the part before at its first `@`, the part after at its first `=`.
pub open spec fn token_shape_ok(token: Seq<char>) -> bool {
    match split_at_first(token, '!') {
        None => false,
        Some((user_realm, token_part)) => match (
            split_at_first(user_realm, '@'),
            split_at_first(token_part, '='),
        ) {
            (Some((user, realm)), Some((token_id, secret))) => user.len() > 0 && realm.len() > 0
                && token_id.len() > 0 && secret.len() > 0,
            _ => false,
        },
    }
}

/// What is said of a token that does not have the token shape.
pub open spec fn msg_token_format() -> Seq<char> {
    "PVE_API_TOKEN format invalid, expected <user>@<realm>!<tokenid>=<secret>"@
}

/// The error for a token that does not have the token shape.
fn token_format_error() -> (e: PveError)
    ensures
        e@ == ErrorView::InvalidArgument(msg_token_format()),
{
    PveError::InvalidArgument(
        String::from_str(
            "PVE_API_TOKEN format invalid, expected <user>@<realm>!<tokenid>=<secret>",
        ),
    )
}

/// Accepts a token of the shape `<user>@<realm>!<tokenid>=<secret>` and
/// rejects every other text. The characters inside the parts are not
/// looked at.
pub fn validate_api_token_format(token: &str) -> (r: Result<(), PveError>)
    ensures
        r is Ok <==> token_shape_ok(token@),
        r is Err ==> r->Err_0@ == ErrorView::InvalidArgument(msg_token_format()),
{
    let (user_realm, token_part) = match split_once(token, '!') {
        Some(pair) => pair,
        None => {
            return Err(token_format_error());
        },
    };
    let (user, realm) = match split_once(user_realm, '@') {
        Some(pair) => pair,
        None => {
            return Err(token_format_error());
        },
    };
    let (token_id, secret) = match split_once(token_part, '=') {
        Some(pair) => pair,
        None => {
            return Err(token_format_error());
        },
    };
    if user.unicode_len() == 0 || realm.unicode_len() == 0 || token_id.unicode_len() == 0
        || secret.unicode_len() == 0 {
        return Err(token_format_error());
    }
    Ok(())
}

/// The trimmed value of a variable that must be set and must not be blank.
pub open spec fn required_var(vars: Map<Seq<char>, Seq<char>>, name: Seq<char>) -> Result<
    Seq<char>,
    ErrorView,
> {
    if !vars.contains_key(name) {
        Err(ErrorView::InvalidArgument("missing env var "@ + name))
    } else if trimmed(vars[name]).len() == 0 {
        Err(ErrorView::InvalidArgument("env var "@ + name + " must not be empty"@))
    } else {
        Ok(trimmed(vars[name]))
    }
}

/// The trimmed value of a variable that may be left out; a blank value
/// counts as left out.
pub open spec fn optional_var(vars: Map<Seq<char>, Seq<char>>, name: Seq<char>) -> Option<
    Seq<char>,
> {
    if vars.contains_key(name) && trimmed(vars[name]).len() > 0 {
        Some(trimmed(vars[name]))
    } else {
        None
    }
}

/// Reads a variable that must be set and must not be blank.
pub fn required_env(vars: &PveParams, name: &str) -> (r: Result<String, PveError>)
    ensures
        crate::error::result_view(r) == required_var(vars@, name@),
{
    match vars.get(name) {
        None => Err(PveError::InvalidArgument(concat2("missing env var ", name))),
        Some(value) => {
            let value = trim(value);
            if value.unicode_len() == 0 {
                Err(PveError::InvalidArgument(concat3("env var ", name, " must not be empty")))
            } else {
                Ok(String::from_str(value))
            }
        },
    }
}

/// Reads a variable that may be left out.
pub fn optional_env(vars: &PveParams, name: &str) -> (r: Option<String>)
    ensures
        opt_view(r) == optional_var(vars@, name@),
{
    match vars.get(name) {
        None => None,
        Some(value) => {
            let value = trim(value);
            if value.unicode_len() == 0 {
                None
            } else {
                Some(String::from_str(value))
            }
        },
    }
}

/// What is said of an authentication mode that is not known.
pub open spec fn msg_unsupported_method(method: Seq<char>) -> Seq<char> {
    "unsupported PVE_AUTH_METHOD="@ + method
        + ", expected API_TOKEN | API_TOKEN_PARTIAL | USERNAME_PASSWORD"@
}

/// The credentials that a set of `PVE_*` variables describes.
pub open spec fn auth_from_vars(vars: Map<Seq<char>, Seq<char>>) -> Result<
    ClientAuthView,
    ErrorView,
> {
    match required_var(vars, "PVE_AUTH_METHOD"@) {
        Err(e) => Err(e),
        Ok(method) => if method == "API_TOKEN"@ {
            match required_var(vars, "PVE_API_TOKEN"@) {
                Err(e) => Err(e),
                Ok(token) => if token_shape_ok(token) {
                    Ok(ClientAuthView::ApiToken(token))
                } else {
                    Err(ErrorView::InvalidArgument(msg_token_format()))
                },
            }
        } else if method == "API_TOKEN_PARTIAL"@ {
            match required_var(vars, "PVE_API_TOKEN_USER"@) {
                Err(e) => Err(e),
                Ok(user) => match required_var(vars, "PVE_API_TOKEN_REALM"@) {
                    Err(e) => Err(e),
                    Ok(realm) => match required_var(vars, "PVE_API_TOKEN_ID"@) {
                        Err(e) => Err(e),
                        Ok(token_id) => match required_var(vars, "PVE_API_TOKEN_SECRET"@) {
                            Err(e) => Err(e),
                            Ok(secret) => Ok(
                                ClientAuthView::ApiTokenPartial { user, realm, token_id, secret },
                            ),
                        },
                    },
                },
            }
        } else if method == "USERNAME_PASSWORD"@ {
            match required_var(vars, "PVE_USERNAME"@) {
                Err(e) => Err(e),
                Ok(username) => match required_var(vars, "PVE_PASSWORD"@) {
                    Err(e) => Err(e),
                    Ok(password) => Ok(
                        ClientAuthView::Password {
                            username,
                            password,
                            otp: optional_var(vars, "PVE_OTP"@),
                            realm: optional_var(vars, "PVE_REALM"@),
                            tfa_challenge: optional_var(vars, "PVE_TFA_CHALLENGE"@),
                        },
                    ),
                },
            }
        } else {
            Err(ErrorView::InvalidArgument(msg_unsupported_method(method)))
        },
    }
}

impl ClientAuth {
    /// Reads the credentials from the `PVE_*` variables of an environment,
    /// given as a map from each variable that is set to its value.
    ///
    /// `PVE_AUTH_METHOD` selects the mode: `API_TOKEN`,
    /// `API_TOKEN_PARTIAL` or `USERNAME_PASSWORD`.
    pub fn from_env(vars: &PveParams) -> (r: Result<ClientAuth, PveError>)
        ensures
            crate::error::result_view(r) == auth_from_vars(vars@),
    {
        let method = match required_env(vars, "PVE_AUTH_METHOD") {
            Ok(m) => m,
            Err(e) => {
                return Err(e);
            },
        };
        if same_text(method.as_str(), "API_TOKEN") {
            let token = match required_env(vars, "PVE_API_TOKEN") {
                Ok(t) => t,
                Err(e) => {
                    return Err(e);
                },
            };
            match validate_api_token_format(token.as_str()) {
                Ok(_) => Ok(ClientAuth::ApiToken(token)),
                Err(e) => Err(e),
            }
        } else if same_text(method.as_str(), "API_TOKEN_PARTIAL") {
            let user = match required_env(vars, "PVE_API_TOKEN_USER") {
                Ok(v) => v,
                Err(e) => {
                    return Err(e);
                },
            };
            let realm = match required_env(vars, "PVE_API_TOKEN_REALM") {
                Ok(v) => v,
                Err(e) => {
                    return Err(e);
                },
            };
            let token_id = match required_env(vars, "PVE_API_TOKEN_ID") {
                Ok(v) => v,
                Err(e) => {
                    return Err(e);
                },
            };
            let secret = match required_env(vars, "PVE_API_TOKEN_SECRET") {
                Ok(v) => v,
                Err(e) => {
                    return Err(e);
                },
            };
            Ok(ClientAuth::ApiTokenPartial { user, realm, token_id, secret })
        } else if same_text(method.as_str(), "USERNAME_PASSWORD") {
            let username = match required_env(vars, "PVE_USERNAME") {
                Ok(v) => v,
                Err(e) => {
                    return Err(e);
                },
            };
            let password = match required_env(vars, "PVE_PASSWORD") {
                Ok(v) => v,
                Err(e) => {
                    return Err(e);
                },
            };
            let otp = optional_env(vars, "PVE_OTP");
            let realm = optional_env(vars, "PVE_REALM");
            let tfa_challenge = optional_env(vars, "PVE_TFA_CHALLENGE");
            Ok(ClientAuth::Password { username, password, otp, realm, tfa_challenge })
        } else {
            let mut text = String::from_str("unsupported PVE_AUTH_METHOD=");
            text.append(method.as_str());
            text.append(", expected API_TOKEN | API_TOKEN_PARTIAL | USERNAME_PASSWORD");
            Err(PveError::InvalidArgument(text))
        }
    }
}


/// Everything needed to set up a client: where the server is, how to
/// reach it and which credentials to use.
#[derive(Debug)]
pub struct ClientOption {
    pub host: String,
    pub port: u16,
    pub https: bool,
    pub insecure_tls: bool,
    pub timeout: Option<Duration>,
    pub connect_timeout: Option<Duration>,
    pub auth: ClientAuth,
}

impl Clone for ClientOption {
    fn clone(&self) -> (r: Self)
        ensures
            r == *self,
    {
        ClientOption {
            host: self.host.clone(),
            port: self.port,
            https: self.https,
            insecure_tls: self.insecure_tls,
            timeout: self.timeout,
            connect_timeout: self.connect_timeout,
            auth: self.auth.clone(),
        }
    }
}

impl ClientOption {
    /// Settings for `host` with the defaults: port 8006, HTTPS, no
    /// certificate verification, no timeouts, no credentials.
    pub fn new(host: &str) -> (r: Self)
        ensures
            r.host@ == host@,
            r.port == PveClient::DEFAULT_PORT,
            r.https,
            r.insecure_tls,
            r.timeout is None,
            r.connect_timeout is None,
            r.auth is Anonymous,
    {
        ClientOption {
            host: String::from_str(host),
            port: PveClient::DEFAULT_PORT,
            https: true,
            insecure_tls: true,
            timeout: None,
            connect_timeout: None,
            auth: ClientAuth::Anonymous,
        }
    }

    /// Settings with every field but the timeouts given.
    pub fn all(host: &str, port: u16, https: bool, insecure_tls: bool, auth: ClientAuth) -> (r:
        Self)
        ensures
            r.host@ == host@,
            r.port == port,
            r.https == https,
            r.insecure_tls == insecure_tls,
            r.timeout is None,
            r.connect_timeout is None,
            r.auth == auth,
    {
        ClientOption {
            host: String::from_str(host),
            port,
            https,
            insecure_tls,
            timeout: None,
            connect_timeout: None,
            auth,
        }
    }

    /// Settings with every field given.
    pub fn all_with_timeouts(
        host: &str,
        port: u16,
        https: bool,
        insecure_tls: bool,
        timeout: Option<Duration>,
        connect_timeout: Option<Duration>,
        auth: ClientAuth,
    ) -> (r: Self)
        ensures
            r.host@ == host@,
            r.port == port,
            r.https == https,
            r.insecure_tls == insecure_tls,
            r.timeout == timeout,
            r.connect_timeout == connect_timeout,
            r.auth == auth,
    {
        ClientOption {
            host: String::from_str(host),
            port,
            https,
            insecure_tls,
            timeout,
            connect_timeout,
            auth,
        }
    }

    /// These settings with another host.
    pub fn host(self, host: &str) -> (r: Self)
        ensures
            r.host@ == host@,
            r == (ClientOption { host: r.host, ..self }),
    {
        ClientOption { host: String::from_str(host), ..self }
    }

    /// These settings with another port.
    pub fn port(self, port: u16) -> (r: Self)
        ensures
            r == (ClientOption { port, ..self }),
    {
        ClientOption { port, ..self }
    }

    /// These settings with HTTPS switched on or off.
    pub fn https(self, https: bool) -> (r: Self)
        ensures
            r == (ClientOption { https, ..self }),
    {
        ClientOption { https, ..self }
    }

    /// These settings with certificate verification switched off (`true`)
    /// or on (`false`).
    pub fn insecure_tls(self, insecure_tls: bool) -> (r: Self)
        ensures
            r == (ClientOption { insecure_tls, ..self }),
    {
        ClientOption { insecure_tls, ..self }
    }

    /// These settings with a limit on the time of each request.
    pub fn timeout(self, timeout: Duration) -> (r: Self)
        ensures
            r == (ClientOption { timeout: Some(timeout), ..self }),
    {
        ClientOption { timeout: Some(timeout), ..self }
    }

    /// These settings with a limit on the time to connect.
    pub fn connect_timeout(self, connect_timeout: Duration) -> (r: Self)
        ensures
            r == (ClientOption { connect_timeout: Some(connect_timeout), ..self }),
    {
        ClientOption { connect_timeout: Some(connect_timeout), ..self }
    }

    /// These settings with other credentials.
    pub fn auth(self, auth: ClientAuth) -> (r: Self)
        ensures
            r == (ClientOption { auth, ..self }),
    {
        ClientOption { auth, ..self }
    }

    /// These settings without credentials.
    pub fn auth_none(self) -> (r: Self)
        ensures
            r == (ClientOption { auth: ClientAuth::Anonymous, ..self }),
    {
        ClientOption { auth: ClientAuth::Anonymous, ..self }
    }

    /// These settings with a complete API token.
    pub fn api_token(self, token: &str) -> (r: Self)
        ensures
            r.auth@ == ClientAuthView::ApiToken(token@),
            r == (ClientOption { auth: r.auth, ..self }),
    {
        ClientOption { auth: ClientAuth::ApiToken(String::from_str(token)), ..self }
    }

    /// These settings with an API token given as its four parts.
    pub fn api_token_partial(self, user: &str, realm: &str, tokenid: &str, secret: &str) -> (r:
        Self)
        ensures
            r.auth@ == (ClientAuthView::ApiTokenPartial {
                user: user@,
                realm: realm@,
                token_id: tokenid@,
                secret: secret@,
            }),
            r == (ClientOption { auth: r.auth, ..self }),
    {
        ClientOption {
            auth: ClientAuth::ApiTokenPartial {
                user: String::from_str(user),
                realm: String::from_str(realm),
                token_id: String::from_str(tokenid),
                secret: String::from_str(secret),
            },
            ..self
        }
    }

    /// These settings with a session ticket and its anti-CSRF token.
    pub fn ticket(self, ticket: &str, csrf: &str) -> (r: Self)
        ensures
            r.auth@ == (ClientAuthView::Ticket { ticket: ticket@, csrf: Some(csrf@) }),
            r == (ClientOption { auth: r.auth, ..self }),
    {
        ClientOption {
            auth: ClientAuth::Ticket {
                ticket: String::from_str(ticket),
                csrf: Some(String::from_str(csrf)),
            },
            ..self
        }
    }

    /// These settings with a session ticket that can only read.
    pub fn ticket_without_csrf(self, ticket: &str) -> (r: Self)
        ensures
            r.auth@ == (ClientAuthView::Ticket { ticket: ticket@, csrf: None }),
            r == (ClientOption { auth: r.auth, ..self }),
    {
        ClientOption {
            auth: ClientAuth::Ticket { ticket: String::from_str(ticket), csrf: None },
            ..self
        }
    }

    /// These settings with a user name and password.
    pub fn password(self, username: &str, password: &str) -> (r: Self)
        ensures
            r.auth@ == (ClientAuthView::Password {
                username: username@,
                password: password@,
                otp: None,
                realm: None,
                tfa_challenge: None,
            }),
            r == (ClientOption { auth: r.auth, ..self }),
    {
        ClientOption {
            auth: ClientAuth::Password {
                username: String::from_str(username),
                password: String::from_str(password),
                otp: None,
                realm: None,
                tfa_challenge: None,
            },
            ..self
        }
    }

    /// These settings with a user name, a password and the optional
    /// one-time password, realm and second-factor challenge.
    pub fn password_with_opts(
        self,
        username: &str,
        password: &str,
        otp: Option<String>,
        realm: Option<String>,
        tfa_challenge: Option<String>,
    ) -> (r: Self)
        ensures
            r.auth@ == (ClientAuthView::Password {
                username: username@,
                password: password@,
                otp: opt_view(otp),
                realm: opt_view(realm),
                tfa_challenge: opt_view(tfa_challenge),
            }),
            r == (ClientOption { auth: r.auth, ..self }),
    {
        ClientOption {
            auth: ClientAuth::Password {
                username: String::from_str(username),
                password: String::from_str(password),
                otp,
                realm,
                tfa_challenge,
            },
            ..self
        }
    }
}

} // verus!
