//! The client: where the server is, who is asking, and how each request
//! is put together before it is sent.

use crate::auth::{
    auth_headers, headers_view, select_auth_headers, Auth, AuthView, HeaderView, HttpMethod,
};
use crate::client_option::{
    msg_token_format, token_shape_ok, validate_api_token_format, ClientAuth, ClientAuthView,
    ClientOption,
};
use crate::error::{result_view, ErrorView, PveError};
use crate::params::{put_opt, PveParams};
use crate::text::{
    is_blank, lemma_blank_iff_trimmed_empty, lemma_first_position, lemma_first_position_props,
    opt_str_view, opt_view, same_ignoring_ascii_case,
    same_text, same_text_ignoring_ascii_case, trim, trimmed,
};
use crate::transport::{
    api_url_outcome, base_url_outcome, build_base_url, join_api_url, BaseUrl,
};
use crate::types::access::{TicketInfo, TicketRequest};
use std::time::Duration;
use vstd::prelude::*;

verus! {

/// A request that is ready to be sent.
#[derive(Debug)]
pub struct ApiRequest {
    pub method: HttpMethod,
    /// The full URL, without the query.
    pub url: String,
    /// The query parameters; `None` where there are none to send.
    pub query: Option<PveParams>,
    /// The headers that authenticate the request, in the order in which
    /// they are attached.
    pub headers: Vec<(String, String)>,
    /// The form body; `None` for a request without a body.
    pub form: Option<PveParams>,
}

/// A request with its texts as character sequences and its parameters as maps.
pub struct ApiRequestView {
    pub method: HttpMethod,
    pub url: Seq<char>,
    pub query: Option<Map<Seq<char>, Seq<char>>>,
    pub headers: Seq<HeaderView>,
    pub form: Option<Map<Seq<char>, Seq<char>>>,
}

/// The view of an optional parameter map.
pub open spec fn opt_params_view(p: Option<PveParams>) -> Option<Map<Seq<char>, Seq<char>>> {
    match p {
        Some(m) => Some(m@),
        None => None,
    }
}

/// The view of an optional borrowed parameter map.
pub open spec fn opt_params_ref_view(p: Option<&PveParams>) -> Option<Map<Seq<char>, Seq<char>>> {
    match p {
        Some(m) => Some(m@),
        None => None,
    }
}

impl View for ApiRequest {
    type V = ApiRequestView;

    open spec fn view(&self) -> ApiRequestView {
        ApiRequestView {
            method: self.method,
            url: self.url@,
            query: opt_params_view(self.query),
            headers: headers_view(self.headers@),
            form: opt_params_view(self.form),
        }
    }
}

/// Adds the headers that `auth` calls for on a request with the verb
/// `method` to `request`, after the headers it already has.
///
/// Fails with `MissingCsrfToken` for a ticket session without an
/// anti-CSRF token on POST, PUT, DELETE or PATCH, and with
/// `InvalidArgument` for an API token that cannot stand in a header.
pub fn apply_auth(auth: &Auth, request: ApiRequest, method: HttpMethod) -> (r: Result<
    ApiRequest,
    PveError,
>)
    ensures
        match auth_headers(auth@, method) {
            Ok(added) => r is Ok && r->Ok_0@ == (ApiRequestView {
                headers: request@.headers + added,
                ..request@
            }),
            Err(e) => r is Err && r->Err_0@ == e,
        },
{
    match select_auth_headers(auth, method) {
        Ok(added) => {
            let mut request = request;
            let ghost before = request@;
            let mut added = added;
            let ghost extra = headers_view(added@);
            request.headers.append(&mut added);
            proof {
                assert(headers_view(request.headers@) =~= before.headers + extra);
            }
            Ok(request)
        },
        Err(e) => Err(e),
    }
}

/// The outcome of preparing a client: either it is ready, or it still has
/// to log in with the given request and then take the ticket it gets.
#[derive(Debug)]
pub enum AuthStart {
    Ready(Auth),
    Login(TicketRequest),
}

/// The outcome of preparing credentials, with texts as character sequences.
pub enum AuthStartView {
    Ready(AuthView),
    Login {
        username: Seq<char>,
        password: Seq<char>,
        otp: Option<Seq<char>>,
        realm: Option<Seq<char>>,
        tfa_challenge: Option<Seq<char>>,
    },
}

impl View for AuthStart {
    type V = AuthStartView;

    open spec fn view(&self) -> AuthStartView {
        match self {
            AuthStart::Ready(auth) => AuthStartView::Ready(auth@),
            AuthStart::Login(request) => AuthStartView::Login {
                username: request.username@,
                password: request.password@,
                otp: opt_view(request.otp),
                realm: opt_view(request.realm),
                tfa_challenge: opt_view(request.tfa_challenge),
            },
        }
    }
}

/// What is said of a token part that is blank.
pub open spec fn msg_partial_fields() -> Seq<char> {
    "api token partial fields must be non-empty"@
}

/// The token that four parts make: `<user>@<realm>!<tokenid>=<secret>`.
pub open spec fn assembled_token(
    user: Seq<char>,
    realm: Seq<char>,
    token_id: Seq<char>,
    secret: Seq<char>,
) -> Seq<char> {
    user + "@"@ + realm + "!"@ + token_id + "="@ + secret
}

/// Four non-empty parts make a token of the token shape where the user
/// holds neither `@` nor `!`, the realm holds no `!` and the token id
/// holds no `=`; the secret may hold anything.
pub proof fn lemma_assembled_token_shape(
    user: Seq<char>,
    realm: Seq<char>,
    token_id: Seq<char>,
    secret: Seq<char>,
)
    requires
        user.len() > 0,
        realm.len() > 0,
        token_id.len() > 0,
        secret.len() > 0,
        !user.contains('@'),
        !user.contains('!'),
        !realm.contains('!'),
        !token_id.contains('='),
    ensures
        token_shape_ok(assembled_token(user, realm, token_id, secret)),
{
    reveal_strlit("@");
    reveal_strlit("!");
    reveal_strlit("=");
    let token = assembled_token(user, realm, token_id, secret);
    let user_realm = user + "@"@ + realm;
    let token_part = token_id + "="@ + secret;
    let cut = user_realm.len() as int;
    assert(token =~= user_realm + "!"@ + token_part);
    assert forall|k: int| 0 <= k < cut implies #[trigger] token[k] != '!' by {
        if k < user.len() {
            assert(token[k] == user[k]);
            assert(user.contains(user[k]));
        } else if k > user.len() {
            assert(token[k] == realm[k - user.len() - 1]);
            assert(realm.contains(realm[k - user.len() - 1]));
        }
    }
    assert(token[cut] == '!');
    lemma_first_position(token, '!', cut);
    lemma_first_position_props(token, '!');
    assert(token.subrange(0, cut) =~= user_realm);
    assert(token.subrange(cut + 1, token.len() as int) =~= token_part);
    assert forall|k: int| 0 <= k < user.len() implies #[trigger] user_realm[k] != '@' by {
        assert(user_realm[k] == user[k]);
        assert(user.contains(user[k]));
    }
    assert(user_realm[user.len() as int] == '@');
    lemma_first_position(user_realm, '@', user.len() as int);
    lemma_first_position_props(user_realm, '@');
    assert(user_realm.subrange(0, user.len() as int) =~= user);
    assert(user_realm.subrange(user.len() as int + 1, user_realm.len() as int) =~= realm);
    assert forall|k: int| 0 <= k < token_id.len() implies #[trigger] token_part[k] != '=' by {
        assert(token_part[k] == token_id[k]);
        assert(token_id.contains(token_id[k]));
    }
    assert(token_part[token_id.len() as int] == '=');
    lemma_first_position(token_part, '=', token_id.len() as int);
    lemma_first_position_props(token_part, '=');
    assert(token_part.subrange(0, token_id.len() as int) =~= token_id);
    assert(token_part.subrange(token_id.len() as int + 1, token_part.len() as int) =~= secret);
}

/// What configured credentials turn into when a client is set up.
///
/// A complete token must have the token shape. The parts of a token are
/// trimmed, must each be non-empty, and the token they make must have
/// the token shape. A ticket is taken as it is. A password calls for a login.
pub open spec fn auth_start(auth: ClientAuthView) -> Result<AuthStartView, ErrorView> {
    match auth {
        ClientAuthView::Anonymous => Ok(AuthStartView::Ready(AuthView::Anonymous)),
        ClientAuthView::ApiToken(token) => if token_shape_ok(token) {
            Ok(AuthStartView::Ready(AuthView::ApiToken(token)))
        } else {
            Err(ErrorView::InvalidArgument(msg_token_format()))
        },
        ClientAuthView::ApiTokenPartial { user, realm, token_id, secret } => {
            let user = trimmed(user);
            let realm = trimmed(realm);
            let token_id = trimmed(token_id);
            let secret = trimmed(secret);
            if user.len() == 0 || realm.len() == 0 || token_id.len() == 0 || secret.len() == 0 {
                Err(ErrorView::InvalidArgument(msg_partial_fields()))
            } else if token_shape_ok(assembled_token(user, realm, token_id, secret)) {
                Ok(
                    AuthStartView::Ready(
                        AuthView::ApiToken(assembled_token(user, realm, token_id, secret)),
                    ),
                )
            } else {
                Err(ErrorView::InvalidArgument(msg_token_format()))
            }
        },
        ClientAuthView::Ticket { ticket, csrf } => Ok(
            AuthStartView::Ready(AuthView::Ticket { ticket, csrf }),
        ),
        ClientAuthView::Password { username, password, otp, realm, tfa_challenge } => Ok(
            AuthStartView::Login { username, password, otp, realm, tfa_challenge },
        ),
    }
}

/// Checks configured credentials and turns them into the credentials of
/// a client, or into the login that will produce them.
pub fn resolve_auth(auth: ClientAuth) -> (r: Result<AuthStart, PveError>)
    ensures
        result_view(r) == auth_start(auth@),
{
    match auth {
        ClientAuth::Anonymous => Ok(AuthStart::Ready(Auth::Anonymous)),
        ClientAuth::ApiToken(token) => {
            match validate_api_token_format(token.as_str()) {
                Ok(_) => Ok(AuthStart::Ready(Auth::ApiToken(token))),
                Err(e) => Err(e),
            }
        },
        ClientAuth::ApiTokenPartial { user, realm, token_id, secret } => {
            let user = trim(user.as_str());
            let realm = trim(realm.as_str());
            let token_id = trim(token_id.as_str());
            let secret = trim(secret.as_str());
            if user.unicode_len() == 0 || realm.unicode_len() == 0 || token_id.unicode_len() == 0
                || secret.unicode_len() == 0 {
                return Err(
                    PveError::InvalidArgument(
                        String::from_str("api token partial fields must be non-empty"),
                    ),
                );
            }
            let mut token = String::from_str(user);
            token.append("@");
            token.append(realm);
            token.append("!");
            token.append(token_id);
            token.append("=");
            token.append(secret);
            match validate_api_token_format(token.as_str()) {
                Ok(_) => Ok(AuthStart::Ready(Auth::ApiToken(token))),
                Err(e) => Err(e),
            }
        },
        ClientAuth::Ticket { ticket, csrf } => Ok(AuthStart::Ready(Auth::Ticket { ticket, csrf })),
        ClientAuth::Password { username, password, otp, realm, tfa_challenge } => Ok(
            AuthStart::Login(TicketRequest { username, password, otp, realm, tfa_challenge }),
        ),
    }
}

/// The credentials that a login returns: the ticket, with its anti-CSRF token.
pub fn auth_from_ticket(info: TicketInfo) -> (r: Auth)
    ensures
        r@ == (AuthView::Ticket { ticket: info.ticket@, csrf: Some(info.csrf_prevention_token@) }),
{
    Auth::Ticket { ticket: info.ticket, csrf: Some(info.csrf_prevention_token) }
}

/// A handle on one server: its validated base URL, the timeouts to use
/// and the credentials.
#[derive(Debug)]
pub struct PveClient {
    base_url: BaseUrl,
    timeout: Option<Duration>,
    connect_timeout: Option<Duration>,
    auth: Auth,
}

impl Clone for PveClient {
    fn clone(&self) -> (r: Self)
        ensures
            r.base() == self.base(),
            r.credentials() == self.credentials(),
            r.request_timeout() == self.request_timeout(),
            r.connection_timeout() == self.connection_timeout(),
    {
        PveClient {
            base_url: self.base_url.clone(),
            timeout: self.timeout,
            connect_timeout: self.connect_timeout,
            auth: self.auth.clone(),
        }
    }
}

/// A client as it comes out of its settings.
#[derive(Debug)]
pub enum ClientStart {
    /// The client can be used.
    Ready(PveClient),
    /// The client has no credentials yet: send `request` to the ticket
    /// endpoint and hand what comes back to `PveClient::complete_login`.
    Login { client: PveClient, request: TicketRequest },
}

impl PveClient {
    /// The port on which the API listens unless told otherwise.
    pub const DEFAULT_PORT: u16 = 8006;

    /// The base URL as text.
    pub closed spec fn base(&self) -> Seq<char> {
        self.base_url@
    }

    /// The credentials.
    pub closed spec fn credentials(&self) -> Auth {
        self.auth
    }

    /// The limit on the time of each request.
    pub closed spec fn request_timeout(&self) -> Option<Duration> {
        self.timeout
    }

    /// The limit on the time to connect.
    pub closed spec fn connection_timeout(&self) -> Option<Duration> {
        self.connect_timeout
    }

    /// Sets a client up from its settings.
    ///
    /// The base URL is built first, so its error comes first. Credentials
    /// are then checked; a password is not sent here but handed back as
    /// the login to perform, with a client that has no credentials yet.
    pub fn from_option(option: ClientOption) -> (r: Result<ClientStart, PveError>)
        ensures
            match base_url_outcome(option.host@, option.port, option.https) {
                Err(e) => r is Err && r->Err_0@ == e,
                Ok(base) => match auth_start(option.auth@) {
                    Err(e) => r is Err && r->Err_0@ == e,
                    Ok(AuthStartView::Ready(auth)) => {
                        &&& r matches Ok(ClientStart::Ready(client))
                        &&& client.base() == base
                        &&& client.credentials()@ == auth
                        &&& client.request_timeout() == option.timeout
                        &&& client.connection_timeout() == option.connect_timeout
                    },
                    Ok(login) => {
                        &&& r matches Ok(ClientStart::Login { client, request })
                        &&& client.base() == base
                        &&& client.credentials() is Anonymous
                        &&& client.request_timeout() == option.timeout
                        &&& client.connection_timeout() == option.connect_timeout
                        &&& AuthStart::Login(request)@ == login
                    },
                },
            },
    {
        let base_url = match build_base_url(option.host.as_str(), option.port, option.https) {
            Ok(url) => url,
            Err(e) => {
                return Err(e);
            },
        };
        let timeout = option.timeout;
        let connect_timeout = option.connect_timeout;
        match resolve_auth(option.auth) {
            Err(e) => Err(e),
            Ok(AuthStart::Ready(auth)) => Ok(
                ClientStart::Ready(PveClient { base_url, timeout, connect_timeout, auth }),
            ),
            Ok(AuthStart::Login(request)) => Ok(
                ClientStart::Login {
                    client: PveClient { base_url, timeout, connect_timeout, auth: Auth::Anonymous },
                    request,
                },
            ),
        }
    }

    /// This client with the ticket of a completed login as its credentials.
    pub fn complete_login(self, info: TicketInfo) -> (r: Self)
        ensures
            r.base() == self.base(),
            r.request_timeout() == self.request_timeout(),
            r.connection_timeout() == self.connection_timeout(),
            r.credentials()@ == (AuthView::Ticket {
                ticket: info.ticket@,
                csrf: Some(info.csrf_prevention_token@),
            }),
    {
        PveClient { auth: auth_from_ticket(info), ..self }
    }

    /// The credentials in use.
    pub fn auth(&self) -> (r: &Auth)
        ensures
            *r == self.credentials(),
    {
        &self.auth
    }

    /// Replaces the credentials.
    pub fn set_auth(&mut self, auth: Auth)
        ensures
            final(self).credentials() == auth,
            final(self).base() == old(self).base(),
            final(self).request_timeout() == old(self).request_timeout(),
            final(self).connection_timeout() == old(self).connection_timeout(),
    {
        self.auth = auth;
    }

    /// The base URL.
    pub fn base_url(&self) -> (r: &BaseUrl)
        ensures
            r@ == self.base(),
    {
        &self.base_url
    }

    /// The limit on the time of each request.
    pub fn timeout(&self) -> (r: Option<Duration>)
        ensures
            r == self.request_timeout(),
    {
        self.timeout
    }

    /// The limit on the time to connect.
    pub fn connect_timeout(&self) -> (r: Option<Duration>)
        ensures
            r == self.connection_timeout(),
    {
        self.connect_timeout
    }

    /// The full URL of an API path.
    pub fn url(&self, path: &str) -> (r: Result<String, PveError>)
        ensures
            result_view(r) == api_url_outcome(self.base(), path@),
    {
        join_api_url(&self.base_url, path)
    }

    /// What `send` hands to the transport for a call, or why it refuses.
    ///
    /// The URL is built first, so its error comes first. A query without
    /// entries is left out. The headers are those that the credentials
    /// call for on this verb.
    pub open spec fn request_outcome(
        &self,
        method: HttpMethod,
        path: Seq<char>,
        query: Option<Map<Seq<char>, Seq<char>>>,
        form: Option<Map<Seq<char>, Seq<char>>>,
    ) -> Result<ApiRequestView, ErrorView> {
        match api_url_outcome(self.base(), path) {
            Err(e) => Err(e),
            Ok(url) => match auth_headers(self.credentials()@, method) {
                Err(e) => Err(e),
                Ok(headers) => Ok(
                    ApiRequestView {
                        method,
                        url,
                        query: match query {
                            Some(q) => if q == Map::<Seq<char>, Seq<char>>::empty() {
                                None
                            } else {
                                Some(q)
                            },
                            None => None,
                        },
                        headers,
                        form,
                    },
                ),
            },
        }
    }

    /// The parameters of a login.
    pub open spec fn ticket_params(
        username: Seq<char>,
        password: Seq<char>,
        otp: Option<Seq<char>>,
        realm: Option<Seq<char>>,
        tfa_challenge: Option<Seq<char>>,
    ) -> Map<Seq<char>, Seq<char>> {
        let m = Map::<Seq<char>, Seq<char>>::empty();
        let m = m.insert("username"@, username);
        let m = m.insert("password"@, password);
        let m = put_opt(m, "otp"@, otp);
        let m = put_opt(m, "realm"@, realm);
        put_opt(m, "tfa-challenge"@, tfa_challenge)
    }

    /// The request `POST /access/ticket` that logs in with a user name
    /// and password.
    pub fn request_ticket(
        &self,
        username: &str,
        password: &str,
        otp: Option<&str>,
        realm: Option<&str>,
        tfa_challenge: Option<&str>,
    ) -> (r: Result<ApiRequest, PveError>)
        ensures
            result_view(r) == self.request_outcome(
                HttpMethod::Post,
                "/access/ticket"@,
                None,
                Some(
                    Self::ticket_params(
                        username@,
                        password@,
                        opt_str_view(otp),
                        opt_str_view(realm),
                        opt_str_view(tfa_challenge),
                    ),
                ),
            ),
    {
        let mut params = PveParams::new();
        params.insert("username", username);
        params.insert("password", password);
        params.insert_opt("otp", otp);
        params.insert_opt("realm", realm);
        params.insert_opt("tfa-challenge", tfa_challenge);
        self.send(HttpMethod::Post, "/access/ticket", None, Some(&params))
    }

    /// The request `POST /access/ticket`, with the parameters of `request`
    /// as its form.
    pub fn request_ticket_with(&self, request: &TicketRequest) -> (r: Result<ApiRequest, PveError>)
        ensures
            result_view(r) == self.request_outcome(
                HttpMethod::Post,
                "/access/ticket"@,
                None,
                Some(request.params()),
            ),
    {
        let params = request.to_params();
        self.send(HttpMethod::Post, "/access/ticket", None, Some(&params))
    }

    /// The request that checks that the server answers: `GET /version`.
    pub fn connect(&self) -> (r: Result<ApiRequest, PveError>)
        ensures
            result_view(r) == self.request_outcome(HttpMethod::Get, "/version"@, None, None),
    {
        self.connect_with_version()
    }

    /// The request that checks that the server answers and asks for its
    /// version: `GET /version`.
    pub fn connect_with_version(&self) -> (r: Result<ApiRequest, PveError>)
        ensures
            result_view(r) == self.request_outcome(HttpMethod::Get, "/version"@, None, None),
    {
        self.version()
    }

    /// Puts a request together: URL, query, authentication headers and form.
    pub fn send(
        &self,
        method: HttpMethod,
        path: &str,
        query: Option<&PveParams>,
        form: Option<&PveParams>,
    ) -> (r: Result<ApiRequest, PveError>)
        ensures
            result_view(r) == self.request_outcome(
                method,
                path@,
                opt_params_ref_view(query),
                opt_params_ref_view(form),
            ),
    {
        let url = match self.url(path) {
            Ok(url) => url,
            Err(e) => {
                return Err(e);
            },
        };
        let query: Option<PveParams> = match query {
            Some(q) => if q.is_empty() {
                None
            } else {
                Some(q.clone())
            },
            None => None,
        };
        let form: Option<PveParams> = match form {
            Some(f) => Some(f.clone()),
            None => None,
        };
        let request = ApiRequest { method: method.clone(), url, query, headers: Vec::new(), form };
        proof {
            assert(request@.headers =~= Seq::empty());
            if let Ok(added) = auth_headers(self.credentials()@, method) {
                assert(request@.headers + added =~= added);
            }
        }
        apply_auth(&self.auth, request, method)
    }
}

/// Whether `key` is set to something other than white space.
pub open spec fn has_text(params: Map<Seq<char>, Seq<char>>, key: Seq<char>) -> bool {
    params.contains_key(key) && !is_blank(params[key])
}

/// Whether a parameter value switches a flag on: `1`, or `true` in any case.
pub open spec fn is_truthy(value: Seq<char>) -> bool {
    value == "1"@ || same_ignoring_ascii_case(value, "true"@)
}

/// Whether the parameters ask for entries to be deleted rather than set.
pub open spec fn acl_deletes(params: Map<Seq<char>, Seq<char>>) -> bool {
    params.contains_key("delete"@) && is_truthy(params["delete"@])
}

/// Whether the parameters name a user, a group or a token.
pub open spec fn acl_has_subject(params: Map<Seq<char>, Seq<char>>) -> bool {
    has_text(params, "users"@) || has_text(params, "groups"@) || has_text(params, "tokens"@)
}

/// What is said of an access-control request without a path.
pub open spec fn msg_acl_path() -> Seq<char> {
    "access acl requires non-empty path"@
}

/// What is said of a deletion that names neither roles nor a subject.
pub open spec fn msg_acl_delete_target() -> Seq<char> {
    "access acl delete requires at least one of roles/users/groups/tokens"@
}

/// What is said of a grant without roles.
pub open spec fn msg_acl_roles() -> Seq<char> {
    "access acl set requires non-empty roles"@
}

/// What is said of a grant without a subject.
pub open spec fn msg_acl_subject() -> Seq<char> {
    "access acl set requires at least one of users/groups/tokens"@
}

/// Whether parameters for the ACL endpoint may be sent, and if not, why.
///
/// The path must not be blank. A deletion must name roles or a subject.
/// Anything else sets roles and must name both roles and a subject.
pub open spec fn acl_check(params: Map<Seq<char>, Seq<char>>) -> Result<(), ErrorView> {
    if !has_text(params, "path"@) {
        Err(ErrorView::InvalidArgument(msg_acl_path()))
    } else if acl_deletes(params) {
        if has_text(params, "roles"@) || acl_has_subject(params) {
            Ok(())
        } else {
            Err(ErrorView::InvalidArgument(msg_acl_delete_target()))
        }
    } else if !has_text(params, "roles"@) {
        Err(ErrorView::InvalidArgument(msg_acl_roles()))
    } else if !acl_has_subject(params) {
        Err(ErrorView::InvalidArgument(msg_acl_subject()))
    } else {
        Ok(())
    }
}

/// Whether `key` is set to something other than white space.
pub fn has_non_empty(params: &PveParams, key: &str) -> (r: bool)
    ensures
        r == has_text(params@, key@),
{
    match params.get(key) {
        Some(v) => {
            proof {
                lemma_blank_iff_trimmed_empty(v@);
            }
            trim(v).unicode_len() > 0
        },
        None => false,
    }
}

/// Checks parameters for the ACL endpoint before they are sent.
pub fn validate_acl_params(params: &PveParams) -> (r: Result<(), PveError>)
    ensures
        match r {
            Ok(_) => acl_check(params@) is Ok,
            Err(e) => acl_check(params@) == Err::<(), ErrorView>(e@),
        },
{
    if !has_non_empty(params, "path") {
        return Err(
            PveError::InvalidArgument(String::from_str("access acl requires non-empty path")),
        );
    }
    let delete_acl = match params.get("delete") {
        Some(v) => same_text(v, "1") || same_text_ignoring_ascii_case(v, "true"),
        None => false,
    };
    let has_target = has_non_empty(params, "users") || has_non_empty(params, "groups")
        || has_non_empty(params, "tokens");
    if delete_acl {
        let has_roles = has_non_empty(params, "roles");
        if !(has_roles || has_target) {
            return Err(
                PveError::InvalidArgument(
                    String::from_str(
                        "access acl delete requires at least one of roles/users/groups/tokens",
                    ),
                ),
            );
        }
        return Ok(());
    }
    if !has_non_empty(params, "roles") {
        return Err(
            PveError::InvalidArgument(String::from_str("access acl set requires non-empty roles")),
        );
    }
    if !has_target {
        return Err(
            PveError::InvalidArgument(
                String::from_str("access acl set requires at least one of users/groups/tokens"),
            ),
        );
    }
    Ok(())
}

/// A blank or missing path is rejected, for a deletion as for a grant.
pub proof fn lemma_acl_blank_path_rejected(params: Map<Seq<char>, Seq<char>>)
    requires
        !has_text(params, "path"@),
    ensures
        acl_check(params) == Err::<(), ErrorView>(ErrorView::InvalidArgument(msg_acl_path())),
{
}

/// A grant is accepted exactly when it names a path, roles and a subject.
pub proof fn lemma_acl_set_rule(params: Map<Seq<char>, Seq<char>>)
    requires
        !acl_deletes(params),
    ensures
        acl_check(params) is Ok <==> (has_text(params, "path"@) && has_text(params, "roles"@)
            && acl_has_subject(params)),
        has_text(params, "path"@) && has_text(params, "roles"@) && !acl_has_subject(params)
            ==> acl_check(params) == Err::<(), ErrorView>(
            ErrorView::InvalidArgument(msg_acl_subject()),
        ),
        acl_check(params) is Err ==> acl_check(params)->Err_0 is InvalidArgument,
{
}

/// A deletion is accepted exactly when it names a path and either roles
/// or a subject; roles alone are enough, and so is a subject alone.
pub proof fn lemma_acl_delete_rule(params: Map<Seq<char>, Seq<char>>)
    requires
        acl_deletes(params),
    ensures
        acl_check(params) is Ok <==> (has_text(params, "path"@) && (has_text(params, "roles"@)
            || acl_has_subject(params))),
        has_text(params, "path"@) && !has_text(params, "roles"@) && !acl_has_subject(params)
            ==> acl_check(params) == Err::<(), ErrorView>(
            ErrorView::InvalidArgument(msg_acl_delete_target()),
        ),
        acl_check(params) is Err ==> acl_check(params)->Err_0 is InvalidArgument,
{
}


} // verus!
