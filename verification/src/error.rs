//! The error type shared by every operation of the library.

use crate::text::{concat2, decimal, decimal_text};
use vstd::prelude::*;

verus! {

/// Trusted: `reqwest::Error`, a failure of the HTTP exchange. It is only
/// carried and printed; nothing is read from it.
#[verifier::external_type_specification]
#[verifier::external_body]
pub struct ExHttpError(reqwest::Error);

/// Trusted: `std::io::Error`, a failure to read local data. It is only
/// carried and printed; nothing is read from it.
#[verifier::external_type_specification]
#[verifier::external_body]
pub struct ExIoError(std::io::Error);

/// Trusted: `serde_json::Error`, a failure to decode JSON. It is only
/// carried and printed; nothing is read from it.
#[verifier::external_type_specification]
#[verifier::external_body]
pub struct ExJsonError(serde_json::Error);

/// Why an operation failed.
#[derive(Debug)]
pub enum PveError {
    /// The host, port and scheme do not make a usable base URL.
    InvalidBaseUrl(String),
    /// A caller-supplied value was rejected before anything was sent.
    InvalidArgument(String),
    /// The HTTP exchange itself failed.
    Http(reqwest::Error),
    /// Reading local data failed.
    Io(std::io::Error),
    /// The response body was not the expected JSON.
    Decode(serde_json::Error),
    /// The server answered outside the 2xx range.
    ApiStatus { status: u16, body: String },
    /// A ticket session tried to write without an anti-CSRF token.
    MissingCsrfToken,
    /// The task stopped with an exit status other than `OK`.
    TaskFailed { upid: String, exitstatus: String },
    /// The task was still running when the deadline passed;
    /// `timeout_secs` is the time waited, in whole seconds.
    TaskTimeout { upid: String, timeout_secs: u64 },
}

impl From<reqwest::Error> for PveError {
    fn from(source: reqwest::Error) -> (r: Self) {
        PveError::Http(source)
    }
}

impl vstd::std_specs::convert::FromSpecImpl<reqwest::Error> for PveError {
    open spec fn obeys_from_spec() -> bool {
        true
    }

    open spec fn from_spec(source: reqwest::Error) -> Self {
        PveError::Http(source)
    }
}

impl From<std::io::Error> for PveError {
    fn from(source: std::io::Error) -> (r: Self) {
        PveError::Io(source)
    }
}

impl vstd::std_specs::convert::FromSpecImpl<std::io::Error> for PveError {
    open spec fn obeys_from_spec() -> bool {
        true
    }

    open spec fn from_spec(source: std::io::Error) -> Self {
        PveError::Io(source)
    }
}

impl From<serde_json::Error> for PveError {
    fn from(source: serde_json::Error) -> (r: Self) {
        PveError::Decode(source)
    }
}

impl vstd::std_specs::convert::FromSpecImpl<serde_json::Error> for PveError {
    open spec fn obeys_from_spec() -> bool {
        true
    }

    open spec fn from_spec(source: serde_json::Error) -> Self {
        PveError::Decode(source)
    }
}

/// What an error says, with texts as character sequences; a failure of
/// the HTTP, I/O or JSON layer is carried as it is.
pub enum ErrorView {
    InvalidBaseUrl(Seq<char>),
    InvalidArgument(Seq<char>),
    Http(reqwest::Error),
    Io(std::io::Error),
    Decode(serde_json::Error),
    ApiStatus { status: u16, body: Seq<char> },
    MissingCsrfToken,
    TaskFailed { upid: Seq<char>, exitstatus: Seq<char> },
    TaskTimeout { upid: Seq<char>, timeout_secs: u64 },
}

impl View for PveError {
    type V = ErrorView;

    open spec fn view(&self) -> ErrorView {
        match self {
            PveError::InvalidBaseUrl(m) => ErrorView::InvalidBaseUrl(m@),
            PveError::InvalidArgument(m) => ErrorView::InvalidArgument(m@),
            PveError::Http(source) => ErrorView::Http(*source),
            PveError::Io(source) => ErrorView::Io(*source),
            PveError::Decode(source) => ErrorView::Decode(*source),
            PveError::ApiStatus { status, body } => ErrorView::ApiStatus {
                status: *status,
                body: body@,
            },
            PveError::MissingCsrfToken => ErrorView::MissingCsrfToken,
            PveError::TaskFailed { upid, exitstatus } => ErrorView::TaskFailed {
                upid: upid@,
                exitstatus: exitstatus@,
            },
            PveError::TaskTimeout { upid, timeout_secs } => ErrorView::TaskTimeout {
                upid: upid@,
                timeout_secs: *timeout_secs,
            },
        }
    }
}

/// A result with its value and its error replaced by their views.
pub open spec fn result_view<T: View>(r: Result<T, PveError>) -> Result<T::V, ErrorView> {
    match r {
        Ok(v) => Ok(v@),
        Err(e) => Err(e@),
    }
}

/// The fixed words that open the message of each kind of error.
pub open spec fn message_lead(e: ErrorView) -> Seq<char> {
    match e {
        ErrorView::InvalidBaseUrl(_) => "invalid base url: "@,
        ErrorView::InvalidArgument(_) => "invalid argument: "@,
        ErrorView::Http(_) => "http request failed: "@,
        ErrorView::Io(_) => "io error: "@,
        ErrorView::Decode(_) => "failed to decode api response: "@,
        ErrorView::ApiStatus { .. } => "pve api returned status "@,
        ErrorView::MissingCsrfToken => "missing csrf token for write request in ticket mode"@,
        ErrorView::TaskFailed { .. } => "task "@,
        ErrorView::TaskTimeout { .. } => "task "@,
    }
}

/// The whole message of an error whose content is text and numbers; for
/// an error that wraps a failure of the HTTP, I/O or JSON layer, only the
/// lead is fixed and `None` stands for the rest.
pub open spec fn message(e: ErrorView) -> Option<Seq<char>> {
    match e {
        ErrorView::InvalidBaseUrl(m) => Some(message_lead(e) + m),
        ErrorView::InvalidArgument(m) => Some(message_lead(e) + m),
        ErrorView::Http(_) => None,
        ErrorView::Io(_) => None,
        ErrorView::Decode(_) => None,
        ErrorView::ApiStatus { status, body } => Some(
            message_lead(e) + decimal(status as nat) + ": "@ + body,
        ),
        ErrorView::MissingCsrfToken => Some(message_lead(e)),
        ErrorView::TaskFailed { upid, exitstatus } => Some(
            message_lead(e) + upid + " failed with exitstatus "@ + exitstatus,
        ),
        ErrorView::TaskTimeout { upid, timeout_secs } => Some(
            message_lead(e) + upid + " timed out after "@ + decimal(timeout_secs as nat) + "s"@,
        ),
    }
}

/// Trusted: what `reqwest::Error` prints through `Display`; nothing is
/// claimed of the text.
#[verifier::external_body]
fn http_error_text(e: &reqwest::Error) -> String {
    e.to_string()
}

/// Trusted: what `std::io::Error` prints through `Display`; nothing is
/// claimed of the text.
#[verifier::external_body]
fn io_error_text(e: &std::io::Error) -> String {
    e.to_string()
}

/// Trusted: what `serde_json::Error` prints through `Display`; nothing is
/// claimed of the text.
#[verifier::external_body]
fn json_error_text(e: &serde_json::Error) -> String {
    e.to_string()
}

impl PveError {
    /// The message of this error.
    pub fn to_string(&self) -> (r: String)
        ensures
            message_lead(self@).is_prefix_of(r@),
            message(self@) matches Some(text) ==> r@ == text,
    {
        match self {
            PveError::InvalidBaseUrl(m) => concat2("invalid base url: ", m.as_str()),
            PveError::InvalidArgument(m) => concat2("invalid argument: ", m.as_str()),
            PveError::Http(e) => {
                let detail = http_error_text(e);
                concat2("http request failed: ", detail.as_str())
            },
            PveError::Io(e) => {
                let detail = io_error_text(e);
                concat2("io error: ", detail.as_str())
            },
            PveError::Decode(e) => {
                let detail = json_error_text(e);
                concat2("failed to decode api response: ", detail.as_str())
            },
            PveError::ApiStatus { status, body } => {
                let mut out = String::from_str("pve api returned status ");
                let code = decimal_text(*status as u64);
                out.append(code.as_str());
                out.append(": ");
                out.append(body.as_str());
                out
            },
            PveError::MissingCsrfToken => String::from_str(
                "missing csrf token for write request in ticket mode",
            ),
            PveError::TaskFailed { upid, exitstatus } => {
                let mut out = String::from_str("task ");
                out.append(upid.as_str());
                out.append(" failed with exitstatus ");
                out.append(exitstatus.as_str());
                out
            },
            PveError::TaskTimeout { upid, timeout_secs } => {
                let mut out = String::from_str("task ");
                out.append(upid.as_str());
                out.append(" timed out after ");
                let secs = decimal_text(*timeout_secs);
                out.append(secs.as_str());
                out.append("s");
                out
            },
        }
    }
}

} // verus!
