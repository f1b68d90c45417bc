//! The HTTP checker's decision logic: method dispatch over a closed set
//! of six verbs and the mapping from a request's outcome to the check
//! result. A transport failure yields an empty result with only the
//! error set; a response whose body fails to decode keeps its status and
//! headers as a partial result.
use crate::models::{HttpCheckResult, HttpConfig};
use crate::strutil::str_eq;
use vstd::prelude::*;
use vstd::string::*;

verus! {

/// The closed set of HTTP verbs the checker dispatches on; any other
/// method string is rejected with no request sent.
#[derive(Debug, Clone, Copy, PartialEq, Eq, Structural)]
pub enum HttpMethodKind {
    Get,
    Post,
    Put,
    Delete,
    Patch,
    Head,
    Unsupported,
}

pub open spec fn http_method_of(s: Seq<char>) -> HttpMethodKind {
    if s == "GET"@ {
        HttpMethodKind::Get
    } else if s == "POST"@ {
        HttpMethodKind::Post
    } else if s == "PUT"@ {
        HttpMethodKind::Put
    } else if s == "DELETE"@ {
        HttpMethodKind::Delete
    } else if s == "PATCH"@ {
        HttpMethodKind::Patch
    } else if s == "HEAD"@ {
        HttpMethodKind::Head
    } else {
        HttpMethodKind::Unsupported
    }
}

pub fn classify_http_method(method: &str) -> (k: HttpMethodKind)
    ensures
        k == http_method_of(method@),
{
    if str_eq(method, "GET") {
        HttpMethodKind::Get
    } else if str_eq(method, "POST") {
        HttpMethodKind::Post
    } else if str_eq(method, "PUT") {
        HttpMethodKind::Put
    } else if str_eq(method, "DELETE") {
        HttpMethodKind::Delete
    } else if str_eq(method, "PATCH") {
        HttpMethodKind::Patch
    } else if str_eq(method, "HEAD") {
        HttpMethodKind::Head
    } else {
        HttpMethodKind::Unsupported
    }
}

/// The immediate result for an unsupported method: no request is sent.
pub fn http_unsupported_result(config: &HttpConfig) -> (r: HttpCheckResult)
    ensures
        !r.success,
        r.url@ == config.url@,
        r.method@ == config.method@,
        r.status_code is None,
        r.response_headers is None,
        r.response_body is None,
        r.error matches Some(e) && e@ == "Unsupported HTTP method: "@ + config.method@,
{
    let mut msg = String::from_str("Unsupported HTTP method: ");
    msg.append(config.method.as_str());
    HttpCheckResult {
        success: false,
        url: config.url.clone(),
        method: config.method.clone(),
        status_code: None,
        response_headers: None,
        response_body: None,
        error: Some(msg),
    }
}

/// What sending one request came to.
pub enum HttpProbeOutcome {
    /// The transport failed: no response was received at all.
    RequestFailed(String),
    /// A response arrived but its body could not be decoded as text.
    BodyFailed { status: u16, headers: Vec<(String, String)>, message: String },
    /// A response arrived and its body decoded.
    Completed { status: u16, headers: Vec<(String, String)>, body: String },
}

/// Builds the check result of one endpoint from its request's outcome: a
/// transport failure carries only the error, a body-decoding failure
/// keeps the status and headers as a partial result, and only a decoded
/// body counts as success.
pub fn http_outcome_result(config: &HttpConfig, outcome: HttpProbeOutcome) -> (r: HttpCheckResult)
    ensures
        r.url@ == config.url@,
        r.method@ == config.method@,
        match outcome {
            HttpProbeOutcome::RequestFailed(m) => !r.success && r.status_code is None
                && r.response_headers is None && r.response_body is None && (
            r.error matches Some(e) && e@ == "Request failed: "@ + m@),
            HttpProbeOutcome::BodyFailed { status, headers, message } => !r.success
                && r.status_code == Some(status) && r.response_headers == Some(headers)
                && r.response_body is None && (r.error matches Some(e) && e@
                == "Failed to read response body: "@ + message@),
            HttpProbeOutcome::Completed { status, headers, body } => r.success && r.status_code
                == Some(status) && r.response_headers == Some(headers) && r.response_body == Some(
                body,
            ) && r.error is None,
        },
{
    match outcome {
        HttpProbeOutcome::RequestFailed(m) => {
            let mut msg = String::from_str("Request failed: ");
            msg.append(m.as_str());
            HttpCheckResult {
                success: false,
                url: config.url.clone(),
                method: config.method.clone(),
                status_code: None,
                response_headers: None,
                response_body: None,
                error: Some(msg),
            }
        },
        HttpProbeOutcome::BodyFailed { status, headers, message } => {
            let mut msg = String::from_str("Failed to read response body: ");
            msg.append(message.as_str());
            HttpCheckResult {
                success: false,
                url: config.url.clone(),
                method: config.method.clone(),
                status_code: Some(status),
                response_headers: Some(headers),
                response_body: None,
                error: Some(msg),
            }
        },
        HttpProbeOutcome::Completed { status, headers, body } => HttpCheckResult {
            success: true,
            url: config.url.clone(),
            method: config.method.clone(),
            status_code: Some(status),
            response_headers: Some(headers),
            response_body: Some(body),
            error: None,
        },
    }
}

} // verus!
