//! Credentials and the headers that carry them.

use crate::error::{ErrorView, PveError};
use crate::text::{clone_opt, concat2, opt_view, same_text};
use vstd::prelude::*;
use vstd::utf8::encode_utf8;

verus! {

/// The HTTP verb of a request.
#[derive(Debug, PartialEq, Eq)]
pub enum HttpMethod {
    Get,
    Head,
    Post,
    Put,
    Delete,
    Patch,
    Options,
    Connect,
    Trace,
    /// Any other verb, by the name under which it is sent.
    Other(String),
}

impl Clone for HttpMethod {
    fn clone(&self) -> (r: Self)
        ensures
            r == *self,
    {
        match self {
            HttpMethod::Get => HttpMethod::Get,
            HttpMethod::Head => HttpMethod::Head,
            HttpMethod::Post => HttpMethod::Post,
            HttpMethod::Put => HttpMethod::Put,
            HttpMethod::Delete => HttpMethod::Delete,
            HttpMethod::Patch => HttpMethod::Patch,
            HttpMethod::Options => HttpMethod::Options,
            HttpMethod::Connect => HttpMethod::Connect,
            HttpMethod::Trace => HttpMethod::Trace,
            HttpMethod::Other(name) => HttpMethod::Other(name.clone()),
        }
    }
}

impl HttpMethod {
    /// Whether the verb changes state on the server: POST, PUT, DELETE or
    /// PATCH, also where one of these is given by its name.
    pub open spec fn is_write(self) -> bool {
        match self {
            HttpMethod::Post | HttpMethod::Put | HttpMethod::Delete | HttpMethod::Patch => true,
            HttpMethod::Other(name) => name@ == "POST"@ || name@ == "PUT"@ || name@ == "DELETE"@
                || name@ == "PATCH"@,
            _ => false,
        }
    }

    /// Whether the verb changes state on the server.
    pub fn writes(&self) -> (r: bool)
        ensures
            r == self.is_write(),
    {
        match self {
            HttpMethod::Post | HttpMethod::Put | HttpMethod::Delete | HttpMethod::Patch => true,
            HttpMethod::Other(name) => same_text(name.as_str(), "POST") || same_text(
                name.as_str(),
                "PUT",
            ) || same_text(name.as_str(), "DELETE") || same_text(name.as_str(), "PATCH"),
            _ => false,
        }
    }

    /// The verb as it is written in a request line.
    pub fn as_str(&self) -> (r: &str)
        ensures
            r@ == self.name(),
    {
        match self {
            HttpMethod::Get => "GET",
            HttpMethod::Head => "HEAD",
            HttpMethod::Post => "POST",
            HttpMethod::Put => "PUT",
            HttpMethod::Delete => "DELETE",
            HttpMethod::Patch => "PATCH",
            HttpMethod::Options => "OPTIONS",
            HttpMethod::Connect => "CONNECT",
            HttpMethod::Trace => "TRACE",
            HttpMethod::Other(name) => name.as_str(),
        }
    }

    /// The verb as it is written in a request line.
    pub open spec fn name(self) -> Seq<char> {
        match self {
            HttpMethod::Get => "GET"@,
            HttpMethod::Head => "HEAD"@,
            HttpMethod::Post => "POST"@,
            HttpMethod::Put => "PUT"@,
            HttpMethod::Delete => "DELETE"@,
            HttpMethod::Patch => "PATCH"@,
            HttpMethod::Options => "OPTIONS"@,
            HttpMethod::Connect => "CONNECT"@,
            HttpMethod::Trace => "TRACE"@,
            HttpMethod::Other(name) => name@,
        }
    }
}

/// How a client proves who it is.
#[derive(Debug)]
pub enum Auth {
    /// No credentials.
    Anonymous,
    /// An API token of the form `<user>@<realm>!<tokenid>=<secret>`.
    ApiToken(String),
    /// A session ticket, with the anti-CSRF token that writes need.
    Ticket { ticket: String, csrf: Option<String> },
}

/// Credentials with their texts as character sequences.
pub enum AuthView {
    Anonymous,
    ApiToken(Seq<char>),
    Ticket { ticket: Seq<char>, csrf: Option<Seq<char>> },
}

impl View for Auth {
    type V = AuthView;

    open spec fn view(&self) -> AuthView {
        match self {
            Auth::Anonymous => AuthView::Anonymous,
            Auth::ApiToken(token) => AuthView::ApiToken(token@),
            Auth::Ticket { ticket, csrf } => AuthView::Ticket {
                ticket: ticket@,
                csrf: opt_view(*csrf),
            },
        }
    }
}

impl Clone for Auth {
    fn clone(&self) -> (r: Self)
        ensures
            r == *self,
    {
        match self {
            Auth::Anonymous => Auth::Anonymous,
            Auth::ApiToken(token) => Auth::ApiToken(token.clone()),
            Auth::Ticket { ticket, csrf } => Auth::Ticket {
                ticket: ticket.clone(),
                csrf: clone_opt(csrf),
            },
        }
    }
}

/// A header as name and value.
pub type HeaderView = (Seq<char>, Seq<char>);

/// The views of a list of headers, in order.
pub open spec fn headers_view(headers: Seq<(String, String)>) -> Seq<HeaderView> {
    Seq::new(headers.len(), |i: int| (headers[i].0@, headers[i].1@))
}

/// The header that carries an API token.
pub open spec fn token_header(token: Seq<char>) -> HeaderView {
    ("authorization"@, "PVEAPIToken="@ + token)
}

/// Whether a byte may stand in the value of a header: a tab, or anything
/// from the space upwards but the delete character.
pub open spec fn is_header_byte(b: u8) -> bool {
    (b >= 32 && b != 127) || b == 9
}

/// Whether a text may be the value of a header: every byte of its UTF-8
/// form may stand there.
pub open spec fn header_value_ok(value: Seq<char>) -> bool {
    forall|i: int|
        0 <= i < encode_utf8(value).len() ==> is_header_byte(#[trigger] encode_utf8(value)[i])
}

/// Whether `value` may be the value of a header.
///
/// Trusted: calls `reqwest::header::HeaderValue::from_str` and asks
/// whether it succeeded. The contract claims that it succeeds exactly
/// where no byte of the text is a control character other than the tab.
#[verifier::external_body]
fn header_value_valid(value: &str) -> (r: bool)
    ensures
        r == header_value_ok(value@),
{
    reqwest::header::HeaderValue::from_str(value).is_ok()
}

/// What is said of an API token that cannot stand in a header.
pub open spec fn msg_token_header() -> Seq<char> {
    "invalid api token header value"@
}

/// The header that carries a session ticket.
pub open spec fn cookie_header(ticket: Seq<char>) -> HeaderView {
    ("cookie"@, "PVEAuthCookie="@ + ticket)
}

/// The header that carries the anti-CSRF token.
pub open spec fn csrf_header(csrf: Seq<char>) -> HeaderView {
    ("CSRFPreventionToken"@, csrf)
}

/// The headers that `auth` adds to a request with the given verb, or the
/// error for an API token that cannot stand in a header and for a ticket
/// session that would write without an anti-CSRF token.
pub open spec fn auth_headers(auth: AuthView, method: HttpMethod) -> Result<
    Seq<HeaderView>,
    ErrorView,
> {
    match auth {
        AuthView::Anonymous => Ok(Seq::empty()),
        AuthView::ApiToken(token) => if header_value_ok(token_header(token).1) {
            Ok(seq![token_header(token)])
        } else {
            Err(ErrorView::InvalidArgument(msg_token_header()))
        },
        AuthView::Ticket { ticket, csrf } => {
            if method.is_write() {
                match csrf {
                    Some(c) => Ok(seq![cookie_header(ticket), csrf_header(c)]),
                    None => Err(ErrorView::MissingCsrfToken),
                }
            } else {
                Ok(seq![cookie_header(ticket)])
            }
        },
    }
}

/// Chooses the authentication headers for one request.
///
/// No credentials add nothing. An API token adds one `authorization`
/// header on every verb; a token with a control character in it cannot
/// go into a header and is refused. A ticket adds the `cookie` header on
/// every verb and, on POST, PUT, DELETE and PATCH, the anti-CSRF header;
/// a write without an anti-CSRF token fails before anything is sent.
pub fn select_auth_headers(auth: &Auth, method: HttpMethod) -> (r: Result<
    Vec<(String, String)>,
    PveError,
>)
    ensures
        match r {
            Ok(headers) => auth_headers(auth@, method) == Ok::<Seq<HeaderView>, ErrorView>(
                headers_view(headers@),
            ),
            Err(e) => auth_headers(auth@, method) == Err::<Seq<HeaderView>, ErrorView>(e@),
        },
{
    let mut headers: Vec<(String, String)> = Vec::new();
    match auth {
        Auth::Anonymous => {
            assert(headers_view(headers@) =~= Seq::empty());
        },
        Auth::ApiToken(token) => {
            let value = concat2("PVEAPIToken=", token.as_str());
            if !header_value_valid(value.as_str()) {
                return Err(
                    PveError::InvalidArgument(String::from_str("invalid api token header value")),
                );
            }
            headers.push((String::from_str("authorization"), value));
            assert(headers_view(headers@) =~= seq![token_header(token@)]);
        },
        Auth::Ticket { ticket, csrf } => {
            headers.push((String::from_str("cookie"), concat2("PVEAuthCookie=", ticket.as_str())));
            if method.writes() {
                match csrf {
                    Some(c) => {
                        headers.push((String::from_str("CSRFPreventionToken"), c.clone()));
                        assert(headers_view(headers@) =~= seq![
                            cookie_header(ticket@),
                            csrf_header(c@),
                        ]);
                    },
                    None => {
                        return Err(PveError::MissingCsrfToken);
                    },
                }
            } else {
                assert(headers_view(headers@) =~= seq![cookie_header(ticket@)]);
            }
        },
    }
    Ok(headers)
}

/// An API token that can stand in a header goes out in the same single
/// header whatever the verb, and what happens to any token does not
/// depend on the verb.
pub proof fn lemma_token_header_on_every_verb(
    token: Seq<char>,
    method: HttpMethod,
    other: HttpMethod,
)
    ensures
        header_value_ok(token_header(token).1) ==> auth_headers(AuthView::ApiToken(token), method)
            == Ok::<Seq<HeaderView>, ErrorView>(seq![token_header(token)]),
        auth_headers(AuthView::ApiToken(token), method) == auth_headers(
            AuthView::ApiToken(token),
            other,
        ),
{
}

/// A ticket session sends its cookie first on every verb on which it
/// sends anything, and it fails only on a write without an anti-CSRF token.
pub proof fn lemma_ticket_cookie_on_every_verb(
    ticket: Seq<char>,
    csrf: Option<Seq<char>>,
    method: HttpMethod,
)
    ensures
        auth_headers(AuthView::Ticket { ticket, csrf }, method) is Err <==> (method.is_write()
            && csrf is None),
        auth_headers(AuthView::Ticket { ticket, csrf }, method) is Err ==> auth_headers(
            AuthView::Ticket { ticket, csrf },
            method,
        )->Err_0 == ErrorView::MissingCsrfToken,
        auth_headers(AuthView::Ticket { ticket, csrf }, method) is Ok ==> {
            let headers = auth_headers(AuthView::Ticket { ticket, csrf }, method)->Ok_0;
            &&& headers.len() >= 1
            &&& headers[0] == cookie_header(ticket)
        },
{
}

/// The anti-CSRF header goes out exactly on writes of a ticket session
/// that has the token; a read sends the cookie alone, token or not.
pub proof fn lemma_csrf_header_only_on_writes(
    ticket: Seq<char>,
    csrf: Option<Seq<char>>,
    method: HttpMethod,
)
    ensures
        !method.is_write() ==> auth_headers(AuthView::Ticket { ticket, csrf }, method) == Ok::<
            Seq<HeaderView>,
            ErrorView,
        >(seq![cookie_header(ticket)]),
        method.is_write() && csrf is Some ==> auth_headers(
            AuthView::Ticket { ticket, csrf },
            method,
        ) == Ok::<Seq<HeaderView>, ErrorView>(seq![cookie_header(ticket), csrf_header(csrf->0)]),
        HttpMethod::Post.is_write() && HttpMethod::Put.is_write() && HttpMethod::Delete.is_write()
            && HttpMethod::Patch.is_write(),
        !HttpMethod::Get.is_write() && !HttpMethod::Head.is_write(),
{
}

} // verus!
