//! Paths, base URLs and response classification.

use crate::error::{ErrorView, PveError};
use crate::text::{
    concat2, concat3, contains_char, contains_pair, count_char, decimal, decimal_text, has_pair,
    occurrences, starts_with, strip_end, strip_end_of, strip_start, strip_start_of, trim, trimmed,
    CharClass,
};
use vstd::prelude::*;
use vstd::utf8::encode_utf8;

verus! {

/// Trusted: `url::ParseError`, the reason why a text is not a URL. It is
/// only passed on; nothing is read from it.
#[verifier::external_type_specification]
#[verifier::external_body]
pub struct ExUrlParseError(url::ParseError);

/// The namespace under which every API path lives.
pub open spec fn api_prefix() -> Seq<char> {
    "/api2/json"@
}

/// `path` under the API prefix: unchanged where it already starts with
/// the prefix, else prefixed, with exactly one `/` between the two.
pub open spec fn normalized_path(path: Seq<char>) -> Seq<char> {
    if api_prefix().is_prefix_of(path) {
        path
    } else if path.len() > 0 && path[0] == '/' {
        api_prefix() + path
    } else {
        api_prefix() + seq!['/'] + path
    }
}

/// Normalizing a path twice gives the same as normalizing it once, and a
/// path that already carries the prefix is left as it is.
pub proof fn lemma_normalize_idempotent(path: Seq<char>)
    ensures
        normalized_path(normalized_path(path)) == normalized_path(path),
        api_prefix().is_prefix_of(path) ==> normalized_path(path) == path,
        api_prefix().is_prefix_of(normalized_path(path)),
{
    let once = normalized_path(path);
    if !api_prefix().is_prefix_of(path) {
        assert(once.subrange(0, api_prefix().len() as int) =~= api_prefix());
    }
}

/// Puts `path` under the API prefix unless it is there already.
pub fn normalize_api_path(path: &str) -> (r: String)
    ensures
        r@ == normalized_path(path@),
{
    if starts_with(path, "/api2/json") {
        String::from_str(path)
    } else if starts_with(path, "/") {
        proof {
            reveal_strlit("/");
            assert("/"@.len() == 1);
            assert(path@.subrange(0, 1)[0] == path@[0]);
        }
        concat2("/api2/json", path)
    } else {
        proof {
            reveal_strlit("/");
            reveal_strlit("/api2/json/");
            reveal_strlit("/api2/json");
            assert("/api2/json/"@ =~= "/api2/json"@ + seq!['/']);
            if path@.len() > 0 && path@[0] == '/' {
                assert(path@.subrange(0, 1) =~= "/"@);
            }
        }
        concat2("/api2/json/", path)
    }
}

/// The upper-case hexadecimal digit for `n`.
pub open spec fn hex_upper(n: nat) -> char
    recommends
        n < 16,
{
    if n < 10 {
        crate::text::digit_char(n)
    } else if n == 10 {
        'A'
    } else if n == 11 {
        'B'
    } else if n == 12 {
        'C'
    } else if n == 13 {
        'D'
    } else if n == 14 {
        'E'
    } else {
        'F'
    }
}

/// An ASCII letter or digit.
pub open spec fn is_ascii_alphanumeric(b: u8) -> bool {
    ||| 0x30 <= b <= 0x39
    ||| 0x41 <= b <= 0x5A
    ||| 0x61 <= b <= 0x7A
}

/// One byte as it appears in an encoded path segment: itself where it is
/// an ASCII letter or digit, else `%` and two upper-case hex digits.
pub open spec fn encoded_byte(b: u8) -> Seq<char> {
    if is_ascii_alphanumeric(b) {
        seq![b as char]
    } else {
        seq!['%', hex_upper((b / 16) as nat), hex_upper((b % 16) as nat)]
    }
}

/// The encoded form of a byte string, byte by byte.
pub open spec fn encoded_bytes(bytes: Seq<u8>) -> Seq<char>
    decreases bytes.len(),
{
    if bytes.len() == 0 {
        Seq::empty()
    } else {
        encoded_bytes(bytes.drop_last()) + encoded_byte(bytes.last())
    }
}

/// The percent-encoding of a text: that of its UTF-8 bytes.
pub open spec fn percent_encoded(value: Seq<char>) -> Seq<char> {
    encoded_bytes(encode_utf8(value))
}

/// Whether `c` may stand in an encoded segment: an ASCII letter, an
/// ASCII digit or the percent sign.
pub open spec fn is_segment_char(c: char) -> bool {
    let u = c as u32;
    ||| 0x30 <= u <= 0x39
    ||| 0x41 <= u <= 0x5A
    ||| 0x61 <= u <= 0x7A
    ||| c == '%'
}

/// An encoded byte string holds nothing but ASCII letters, ASCII digits
/// and percent signs.
pub proof fn lemma_encoded_bytes_chars(bytes: Seq<u8>)
    ensures
        forall|i: int|
            0 <= i < encoded_bytes(bytes).len() ==> is_segment_char(
                #[trigger] encoded_bytes(bytes)[i],
            ),
    decreases bytes.len(),
{
    if bytes.len() > 0 {
        lemma_encoded_bytes_chars(bytes.drop_last());
        let front = encoded_bytes(bytes.drop_last());
        let last = encoded_byte(bytes.last());
        assert forall|i: int| 0 <= i < last.len() implies is_segment_char(#[trigger] last[i]) by {
            let b = bytes.last();
            if !is_ascii_alphanumeric(b) {
                assert(is_segment_char(hex_upper((b / 16) as nat)));
                assert(is_segment_char(hex_upper((b % 16) as nat)));
            }
        }
        assert forall|i: int| 0 <= i < encoded_bytes(bytes).len() implies is_segment_char(
            #[trigger] encoded_bytes(bytes)[i],
        ) by {
            if i < front.len() {
                assert(encoded_bytes(bytes)[i] == front[i]);
            } else {
                assert(encoded_bytes(bytes)[i] == last[i - front.len()]);
            }
        }
    }
}

/// Whatever the text, its encoded form holds no `/`, `?`, `#` or any
/// other character that could end the segment it stands in.
pub proof fn lemma_encoded_segment_is_closed(value: Seq<char>)
    ensures
        forall|i: int|
            0 <= i < percent_encoded(value).len() ==> is_segment_char(
                #[trigger] percent_encoded(value)[i],
            ),
        !percent_encoded(value).contains('/'),
        !percent_encoded(value).contains('?'),
        !percent_encoded(value).contains('#'),
{
    lemma_encoded_bytes_chars(encode_utf8(value));
}

/// Percent-encodes `value` for use as one path segment.
///
/// Trusted: calls `percent_encoding::utf8_percent_encode` with the set
/// `NON_ALPHANUMERIC`. The contract claims that every UTF-8 byte of the
/// input that is not an ASCII letter or digit comes out as `%XX` in
/// upper-case hex and that every other byte comes out unchanged.
#[verifier::external_body]
pub(crate) fn enc(value: &str) -> (r: String)
    ensures
        r@ == percent_encoded(value@),
{
    percent_encoding::utf8_percent_encode(value, percent_encoding::NON_ALPHANUMERIC).to_string()
}

/// An API path under construction: fixed text, encoded segments and numbers.
#[derive(Debug)]
pub struct ApiPath {
    text: String,
}

impl View for ApiPath {
    type V = Seq<char>;

    closed spec fn view(&self) -> Seq<char> {
        self.text@
    }
}

impl ApiPath {
    /// A path that starts with `lead`.
    pub fn new(lead: &str) -> (r: Self)
        ensures
            r@ == lead@,
    {
        ApiPath { text: String::from_str(lead) }
    }

    /// This path followed by `text` as it is.
    pub fn text(self, text: &str) -> (r: Self)
        ensures
            r@ == self@ + text@,
    {
        let mut out = self.text;
        out.append(text);
        ApiPath { text: out }
    }

    /// This path followed by `value`, percent-encoded as one segment.
    pub fn segment(self, value: &str) -> (r: Self)
        ensures
            r@ == self@ + percent_encoded(value@),
    {
        let mut out = self.text;
        let encoded = enc(value);
        out.append(encoded.as_str());
        ApiPath { text: out }
    }

    /// This path followed by `n` in decimal.
    pub fn number(self, n: u32) -> (r: Self)
        ensures
            r@ == self@ + decimal(n as nat),
    {
        let mut out = self.text;
        let digits = decimal_text(n as u64);
        out.append(digits.as_str());
        ApiPath { text: out }
    }

    /// The path as text.
    pub fn as_str(&self) -> (r: &str)
        ensures
            r@ == self@,
    {
        self.text.as_str()
    }
}

/// What the library reads from a parsed URL.
#[derive(Debug)]
pub struct UrlParts {
    /// The URL as it is written out after parsing.
    pub text: String,
    /// The port, where the URL names one that is not its scheme's default.
    pub port: Option<u16>,
    pub path: String,
    pub query: Option<String>,
    pub fragment: Option<String>,
    pub username: String,
    pub password: Option<String>,
    pub host: Option<String>,
}

/// The parts of a URL with their texts as character sequences.
pub struct UrlPartsView {
    pub text: Seq<char>,
    pub port: Option<u16>,
    pub path: Seq<char>,
    pub query: Option<Seq<char>>,
    pub fragment: Option<Seq<char>>,
    pub username: Seq<char>,
    pub password: Option<Seq<char>>,
    pub host: Option<Seq<char>>,
}

impl View for UrlParts {
    type V = UrlPartsView;

    open spec fn view(&self) -> UrlPartsView {
        UrlPartsView {
            text: self.text@,
            port: self.port,
            path: self.path@,
            query: crate::text::opt_view(self.query),
            fragment: crate::text::opt_view(self.fragment),
            username: self.username@,
            password: crate::text::opt_view(self.password),
            host: crate::text::opt_view(self.host),
        }
    }
}

/// The parts of `text` read as an absolute URL, or `None` where it is not one.
pub uninterp spec fn parsed_url(text: Seq<char>) -> Option<UrlPartsView>;

/// The URL that `reference` denotes relative to the URL `base`, written
/// out; `None` where either does not parse.
pub uninterp spec fn joined_url(base: Seq<char>, reference: Seq<char>) -> Option<Seq<char>>;

/// Parses `text` as an absolute URL and reads its parts.
///
/// Trusted: calls `url::Url::parse` and then the accessors `as_str`,
/// `port`, `path`, `query`, `fragment`, `username`, `password` and
/// `host_str`. The contract only names the result: the same text always
/// parses to the same parts, or always fails.
#[verifier::external_body]
fn parse_url(text: &str) -> (r: Result<UrlParts, url::ParseError>)
    ensures
        match r {
            Ok(parts) => parsed_url(text@) == Some(parts@),
            Err(_) => parsed_url(text@) is None,
        },
{
    let u = url::Url::parse(text)?;
    Ok(UrlParts {
        text: u.as_str().to_string(),
        port: u.port(),
        path: u.path().to_string(),
        query: u.query().map(str::to_string),
        fragment: u.fragment().map(str::to_string),
        username: u.username().to_string(),
        password: u.password().map(str::to_string),
        host: u.host_str().map(str::to_string),
    })
}

/// Resolves `reference` against the URL `base`.
///
/// Trusted: parses `base` with `url::Url::parse` and calls `Url::join`
/// on it. The contract only names the result.
#[verifier::external_body]
fn join_url(base: &str, reference: &str) -> (r: Result<String, url::ParseError>)
    ensures
        match r {
            Ok(text) => joined_url(base@, reference@) == Some(text@),
            Err(_) => joined_url(base@, reference@) is None,
        },
{
    let joined = url::Url::parse(base)?.join(reference)?;
    Ok(joined.as_str().to_string())
}


/// The validated endpoint base: scheme, host and port, as parsed.
#[derive(Debug)]
pub struct BaseUrl {
    text: String,
}

impl View for BaseUrl {
    type V = Seq<char>;

    closed spec fn view(&self) -> Seq<char> {
        self.text@
    }
}

impl BaseUrl {
    /// The URL as text.
    pub fn as_str(&self) -> (r: &str)
        ensures
            r@ == self@,
    {
        self.text.as_str()
    }
}

impl Clone for BaseUrl {
    fn clone(&self) -> (r: Self)
        ensures
            r@ == self@,
    {
        BaseUrl { text: self.text.clone() }
    }
}

/// Whether a host text opens with an HTTP scheme.
pub open spec fn has_scheme(host: Seq<char>) -> bool {
    "https://"@.is_prefix_of(host) || "http://"@.is_prefix_of(host)
}

/// What is said of a host given as a URL that does not parse.
pub open spec fn msg_invalid_host_url() -> Seq<char> {
    "invalid host URL, expected a hostname or IP without path/port"@
}

/// What is said of a host that carries a port.
pub open spec fn msg_port() -> Seq<char> {
    "host must not include port, use ClientOption::port()"@
}

/// What is said of a host given as a URL that carries a path.
pub open spec fn msg_url_path() -> Seq<char> {
    "host must not include path, use API methods with relative paths"@
}

/// What is said of a host that carries a path.
pub open spec fn msg_host_path() -> Seq<char> {
    "host must not include path, use ClientOption::host(\"pve.example.com\")"@
}

/// What is said of a host that carries a query or a fragment.
pub open spec fn msg_query() -> Seq<char> {
    "host must not include query or fragment"@
}

/// What is said of a host that carries credentials.
pub open spec fn msg_credentials() -> Seq<char> {
    "host must not include credentials"@
}

/// What is said of a host that is empty.
pub open spec fn msg_empty() -> Seq<char> {
    "host is empty"@
}

/// The host of a URL that was given in place of a host name, or the
/// reason why the URL says more than a host.
pub open spec fn embedded_host(parts: UrlPartsView) -> Result<Seq<char>, ErrorView> {
    if parts.port is Some {
        Err(ErrorView::InvalidBaseUrl(msg_port()))
    } else if parts.path != "/"@ {
        Err(ErrorView::InvalidBaseUrl(msg_url_path()))
    } else if parts.query is Some || parts.fragment is Some {
        Err(ErrorView::InvalidBaseUrl(msg_query()))
    } else if parts.username.len() > 0 || parts.password is Some {
        Err(ErrorView::InvalidBaseUrl(msg_credentials()))
    } else {
        Ok(
            match parts.host {
                Some(h) => h,
                None => Seq::empty(),
            },
        )
    }
}

/// Reads the host out of a URL given in place of a host name; fails
/// where the URL carries a port, a path, a query, a fragment or credentials.
pub fn host_of_parts(parts: &UrlParts) -> (r: Result<String, PveError>)
    ensures
        crate::error::result_view(r) == embedded_host(parts@),
{
    if parts.port.is_some() {
        return Err(
            PveError::InvalidBaseUrl(
                String::from_str("host must not include port, use ClientOption::port()"),
            ),
        );
    }
    if !crate::text::same_text(parts.path.as_str(), "/") {
        return Err(
            PveError::InvalidBaseUrl(
                String::from_str("host must not include path, use API methods with relative paths"),
            ),
        );
    }
    if parts.query.is_some() || parts.fragment.is_some() {
        return Err(
            PveError::InvalidBaseUrl(String::from_str("host must not include query or fragment")),
        );
    }
    if parts.username.as_str().unicode_len() > 0 || parts.password.is_some() {
        return Err(PveError::InvalidBaseUrl(String::from_str("host must not include credentials")));
    }
    match &parts.host {
        Some(h) => Ok(h.clone()),
        None => Ok(String::new()),
    }
}

/// The host that a parse of a URL given in place of a host name yields.
pub fn host_of_parsed(parsed: Result<UrlParts, url::ParseError>) -> (r: Result<String, PveError>)
    ensures
        match parsed {
            Ok(parts) => crate::error::result_view(r) == embedded_host(parts@),
            Err(_) => r is Err && r->Err_0@ == ErrorView::InvalidBaseUrl(msg_invalid_host_url()),
        },
{
    match parsed {
        Ok(parts) => host_of_parts(&parts),
        Err(_) => Err(
            PveError::InvalidBaseUrl(
                String::from_str("invalid host URL, expected a hostname or IP without path/port"),
            ),
        ),
    }
}

/// Whether `host` opens with `[`.
pub open spec fn opens_bracket(host: Seq<char>) -> bool {
    host.len() > 0 && host[0] == '['
}

/// Whether `host` closes with `]`.
pub open spec fn closes_bracket(host: Seq<char>) -> bool {
    host.len() > 0 && host.last() == ']'
}

/// `host` between square brackets.
pub open spec fn bracketed(host: Seq<char>) -> Seq<char> {
    seq!['['] + host + seq![']']
}

/// Whether a host text carries a port: `]:` somewhere, or exactly one
/// colon in a text that does not open a bracket.
pub open spec fn carries_port(host: Seq<char>) -> bool {
    has_pair(host, ']', ':') || (occurrences(host, ':') == 1 && !opens_bracket(host))
}

/// Whether a host text is an IPv6 literal written without brackets.
pub open spec fn is_bare_ipv6(host: Seq<char>) -> bool {
    occurrences(host, ':') > 1 && !opens_bracket(host) && !closes_bracket(host)
}

/// The host as it goes into the base URL, or the reason why the text is
/// more than a host: trailing slashes are dropped, an IPv6 literal
/// without brackets gets them, everything else must be nothing but a host.
pub open spec fn bare_host(host: Seq<char>) -> Result<Seq<char>, ErrorView> {
    let h = strip_end(host, CharClass::Exactly('/'));
    if h.contains('/') {
        Err(ErrorView::InvalidBaseUrl(msg_host_path()))
    } else if h.contains('?') || h.contains('#') {
        Err(ErrorView::InvalidBaseUrl(msg_query()))
    } else if h.contains('@') {
        Err(ErrorView::InvalidBaseUrl(msg_credentials()))
    } else if carries_port(h) {
        Err(ErrorView::InvalidBaseUrl(msg_port()))
    } else if is_bare_ipv6(h) {
        Ok(bracketed(h))
    } else if h.len() == 0 {
        Err(ErrorView::InvalidBaseUrl(msg_empty()))
    } else {
        Ok(h)
    }
}

/// Checks that `host` is nothing but a host and brackets a bare IPv6 literal.
pub fn check_bare_host(host: &str) -> (r: Result<String, PveError>)
    ensures
        crate::error::result_view(r) == bare_host(host@),
{
    let h = strip_end_of(host, CharClass::Exactly('/'));
    if contains_char(h, '/') {
        return Err(
            PveError::InvalidBaseUrl(
                String::from_str(
                    "host must not include path, use ClientOption::host(\"pve.example.com\")",
                ),
            ),
        );
    }
    if contains_char(h, '?') || contains_char(h, '#') {
        return Err(
            PveError::InvalidBaseUrl(String::from_str("host must not include query or fragment")),
        );
    }
    if contains_char(h, '@') {
        return Err(PveError::InvalidBaseUrl(String::from_str("host must not include credentials")));
    }
    let v = crate::text::chars_of(h);
    let colons = count_char(h, ':');
    let opens = v.len() > 0 && v[0] == '[';
    let closes = v.len() > 0 && v[v.len() - 1] == ']';
    if contains_pair(h, ']', ':') || (colons == 1 && !opens) {
        return Err(
            PveError::InvalidBaseUrl(
                String::from_str("host must not include port, use ClientOption::port()"),
            ),
        );
    }
    if colons > 1 && !opens && !closes {
        proof {
            reveal_strlit("[");
            reveal_strlit("]");
            assert("["@ =~= seq!['[']);
            assert("]"@ =~= seq![']']);
        }
        return Ok(concat3("[", h, "]"));
    }
    if v.len() == 0 {
        return Err(PveError::InvalidBaseUrl(String::from_str("host is empty")));
    }
    Ok(String::from_str(h))
}

/// The text that is parsed into the base URL.
pub open spec fn base_text(host: Seq<char>, port: u16, https: bool) -> Seq<char> {
    (if https {
        "https"@
    } else {
        "http"@
    }) + "://"@ + host + ":"@ + decimal(port as nat) + "/"@
}

/// The base URL for an already checked host, or the error for a text
/// that does not parse as a URL.
pub open spec fn assembled_base(host: Seq<char>, port: u16, https: bool) -> Result<
    Seq<char>,
    ErrorView,
> {
    let base = base_text(host, port, https);
    match parsed_url(base) {
        Some(parts) => Ok(parts.text),
        None => Err(ErrorView::InvalidBaseUrl(base)),
    }
}

/// What `build_base_url` returns for each input.
pub open spec fn base_url_outcome(host: Seq<char>, port: u16, https: bool) -> Result<
    Seq<char>,
    ErrorView,
> {
    let h = trimmed(host);
    let named = if has_scheme(h) {
        match parsed_url(h) {
            Some(parts) => embedded_host(parts),
            None => Err(ErrorView::InvalidBaseUrl(msg_invalid_host_url())),
        }
    } else {
        Ok(h)
    };
    match named {
        Err(e) => Err(e),
        Ok(h1) => match bare_host(h1) {
            Err(e) => Err(e),
            Ok(h2) => assembled_base(h2, port, https),
        },
    }
}

/// The base URL that a parse of `base` yields, or the error that
/// carries the text that did not parse.
pub fn base_from_parsed(base: String, parsed: Result<UrlParts, url::ParseError>) -> (r: Result<
    BaseUrl,
    PveError,
>)
    ensures
        match parsed {
            Ok(parts) => r is Ok && r->Ok_0@ == parts.text@,
            Err(_) => r is Err && r->Err_0@ == ErrorView::InvalidBaseUrl(base@),
        },
{
    match parsed {
        Ok(parts) => Ok(BaseUrl { text: parts.text }),
        Err(_) => Err(PveError::InvalidBaseUrl(base)),
    }
}

/// Parses scheme, checked host and port into the base URL.
pub fn assemble_base(host: &str, port: u16, https: bool) -> (r: Result<BaseUrl, PveError>)
    ensures
        crate::error::result_view(r) == assembled_base(host@, port, https),
{
    let mut base = String::from_str(
        if https {
            "https"
        } else {
            "http"
        },
    );
    base.append("://");
    base.append(host);
    base.append(":");
    let digits = decimal_text(port as u64);
    base.append(digits.as_str());
    base.append("/");
    let parsed = parse_url(base.as_str());
    base_from_parsed(base, parsed)
}

/// Builds the endpoint base from a host name or IP literal, a port and
/// the choice of scheme.
///
/// A host given as an `http://` or `https://` URL is accepted where it
/// names nothing but a host. Anything that carries a port, a path, a
/// query, a fragment or credentials is rejected, never repaired.
pub fn build_base_url(host: &str, port: u16, https: bool) -> (r: Result<BaseUrl, PveError>)
    ensures
        crate::error::result_view(r) == base_url_outcome(host@, port, https),
{
    let h = trim(host);
    let named: String = if starts_with(h, "https://") || starts_with(h, "http://") {
        match host_of_parsed(parse_url(h)) {
            Ok(found) => found,
            Err(e) => {
                return Err(e);
            },
        }
    } else {
        String::from_str(h)
    };
    match check_bare_host(named.as_str()) {
        Ok(checked) => assemble_base(checked.as_str(), port, https),
        Err(e) => Err(e),
    }
}


/// Every failure to build a base URL is an `InvalidBaseUrl` error.
pub proof fn lemma_base_url_failure_kind(host: Seq<char>, port: u16, https: bool)
    ensures
        base_url_outcome(host, port, https) is Err ==> base_url_outcome(
            host,
            port,
            https,
        )->Err_0 is InvalidBaseUrl,
{
}

/// A host text without a scheme is rejected where, after trimming, it
/// holds a path, a query, a fragment, credentials or a port.
pub proof fn lemma_host_with_extra_parts_rejected(host: Seq<char>, port: u16, https: bool)
    requires
        !has_scheme(trimmed(host)),
        ({
            let h = strip_end(trimmed(host), CharClass::Exactly('/'));
            h.contains('/') || h.contains('?') || h.contains('#') || h.contains('@')
                || carries_port(h)
        }),
    ensures
        base_url_outcome(host, port, https) is Err,
        base_url_outcome(host, port, https)->Err_0 is InvalidBaseUrl,
{
}

/// A host given as a URL is rejected where the URL parses but carries a
/// port, a path, a query, a fragment or credentials, and where it does not parse.
pub proof fn lemma_url_with_extra_parts_rejected(host: Seq<char>, port: u16, https: bool)
    requires
        has_scheme(trimmed(host)),
        match parsed_url(trimmed(host)) {
            Some(parts) => parts.port is Some || parts.path != "/"@ || parts.query is Some
                || parts.fragment is Some || parts.username.len() > 0 || parts.password is Some,
            None => true,
        },
    ensures
        base_url_outcome(host, port, https) is Err,
        base_url_outcome(host, port, https)->Err_0 is InvalidBaseUrl,
{
}

/// An IPv6 literal written without brackets goes into the base URL
/// between brackets.
pub proof fn lemma_bare_ipv6_is_bracketed(host: Seq<char>, port: u16, https: bool)
    requires
        !has_scheme(trimmed(host)),
        ({
            let h = strip_end(trimmed(host), CharClass::Exactly('/'));
            is_bare_ipv6(h) && !h.contains('/') && !h.contains('?') && !h.contains('#')
                && !h.contains('@') && !has_pair(h, ']', ':')
        }),
    ensures
        bare_host(trimmed(host)) == Ok::<Seq<char>, ErrorView>(
            bracketed(strip_end(trimmed(host), CharClass::Exactly('/'))),
        ),
        base_url_outcome(host, port, https) == assembled_base(
            bracketed(strip_end(trimmed(host), CharClass::Exactly('/'))),
            port,
            https,
        ),
{
}

/// The full URL of an API path, or the error for a path that cannot be
/// joined to the base.
pub open spec fn api_url_outcome(base: Seq<char>, path: Seq<char>) -> Result<Seq<char>, ErrorView> {
    let normalized = normalized_path(path);
    match joined_url(base, strip_start(normalized, CharClass::Exactly('/'))) {
        Some(url) => Ok(url),
        None => Err(ErrorView::InvalidBaseUrl("unable to join path: "@ + normalized)),
    }
}

/// The URL that joining a normalized path to the base yields, or the
/// error that carries the path that could not be joined.
pub fn url_from_joined(normalized: &str, joined: Result<String, url::ParseError>) -> (r: Result<
    String,
    PveError,
>)
    ensures
        match joined {
            Ok(url) => r is Ok && r->Ok_0@ == url@,
            Err(_) => r is Err && r->Err_0@ == ErrorView::InvalidBaseUrl(
                "unable to join path: "@ + normalized@,
            ),
        },
{
    match joined {
        Ok(url) => Ok(url),
        Err(_) => Err(PveError::InvalidBaseUrl(concat2("unable to join path: ", normalized))),
    }
}

/// The full URL of `path`: the path is put under the API prefix and then
/// resolved against the base.
pub fn join_api_url(base_url: &BaseUrl, path: &str) -> (r: Result<String, PveError>)
    ensures
        crate::error::result_view(r) == api_url_outcome(base_url@, path@),
{
    let normalized = normalize_api_path(path);
    let relative = strip_start_of(normalized.as_str(), CharClass::Exactly('/'));
    let joined = join_url(base_url.as_str(), relative);
    url_from_joined(normalized.as_str(), joined)
}

/// Whether an HTTP status is in the 2xx range.
pub open spec fn is_success(status: u16) -> bool {
    200 <= status < 300
}

/// What a response with the given status and body amounts to: the body
/// of a success, or the status error with the body kept as it came.
pub open spec fn response_outcome(status: u16, body: Seq<char>) -> Result<Seq<char>, ErrorView> {
    if is_success(status) {
        Ok(body)
    } else {
        Err(ErrorView::ApiStatus { status, body })
    }
}

/// Turns a response outside the 2xx range into an `ApiStatus` error that
/// carries the status and the unmodified body; hands the body of a
/// success on for decoding.
pub fn check_response(status: u16, body: String) -> (r: Result<String, PveError>)
    ensures
        crate::error::result_view(r) == response_outcome(status, body@),
{
    if 200 <= status && status < 300 {
        Ok(body)
    } else {
        Err(PveError::ApiStatus { status, body })
    }
}

} // verus!
