//! The ad hoc outbound HTTP proxy's decision logic: the method string is
//! upper-cased and dispatched over a closed set of six verbs with GET as
//! the fallback, and the response shapes mirror what the transport
//! reported.
use crate::models::HttpClientResponse;
use crate::strutil::{str_eq, upper_seq, upper_str};
use vstd::prelude::*;
use vstd::string::*;

verus! {

/// The closed set of verbs the proxy sends; an unrecognized method falls
/// back to GET.
#[derive(Debug, Clone, Copy, PartialEq, Eq, Structural)]
pub enum ClientMethodKind {
    Get,
    Post,
    Put,
    Delete,
    Patch,
    Options,
}

pub open spec fn client_method_of(s: Seq<char>) -> ClientMethodKind {
    let u = upper_seq(s);
    if u == "POST"@ {
        ClientMethodKind::Post
    } else if u == "PUT"@ {
        ClientMethodKind::Put
    } else if u == "DELETE"@ {
        ClientMethodKind::Delete
    } else if u == "PATCH"@ {
        ClientMethodKind::Patch
    } else if u == "OPTIONS"@ {
        ClientMethodKind::Options
    } else {
        ClientMethodKind::Get
    }
}

/// Upper-cases the method string and dispatches it, falling back to GET.
pub fn classify_client_method(method: &str) -> (k: ClientMethodKind)
    ensures
        k == client_method_of(method@),
{
    let u = upper_str(method);
    if str_eq(u.as_str(), "POST") {
        ClientMethodKind::Post
    } else if str_eq(u.as_str(), "PUT") {
        ClientMethodKind::Put
    } else if str_eq(u.as_str(), "DELETE") {
        ClientMethodKind::Delete
    } else if str_eq(u.as_str(), "PATCH") {
        ClientMethodKind::Patch
    } else if str_eq(u.as_str(), "OPTIONS") {
        ClientMethodKind::Options
    } else {
        ClientMethodKind::Get
    }
}

/// The response for a failed transport: only the error is set and the
/// transport's own message passes through unchanged.
pub fn client_error_response(message: String) -> (r: HttpClientResponse)
    ensures
        !r.success,
        r.status_code is None,
        r.headers@.len() == 0,
        r.body is None,
        r.error == Some(message),
{
    HttpClientResponse {
        success: false,
        status_code: None,
        headers: Vec::new(),
        body: None,
        error: Some(message),
    }
}

/// The response for a received reply: the status and headers pass
/// through, the body stays absent when it could not be read, and the
/// call still counts as a success.
pub fn client_success_response(status: u16, headers: Vec<(String, String)>, body: Option<String>)
    -> (r: HttpClientResponse)
    ensures
        r.success,
        r.status_code == Some(status),
        r.headers == headers,
        r.body == body,
        r.error is None,
{
    HttpClientResponse { success: true, status_code: Some(status), headers, body, error: None }
}

} // verus!
