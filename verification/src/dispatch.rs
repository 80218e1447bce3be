//! The outcome of dispatching a request to a Python handler.
//!
//! The Python framework answers each request with a dictionary holding
//! `success`, `code`, `data` and `error`; [`parse_dispatch_response`] turns
//! what was read from it into a [`DispatchResult`].

use vstd::prelude::*;

verus! {

/// Status code of a handled request.
pub const STATUS_OK: u16 = 200;

/// Status code of a request that failed inside the runtime.
pub const STATUS_INTERNAL_ERROR: u16 = 500;

/// Result of dispatching a request to Python.
#[derive(Debug)]
pub struct DispatchResult {
    /// Whether the request was handled successfully.
    pub success: bool,
    /// HTTP status code.
    pub code: u16,
    /// Response data (if successful).
    pub data: Option<serde_json::Value>,
    /// Error message (if failed).
    pub error: Option<String>,
}

/// The fields read from a handler's response dictionary, each `None` when
/// it is missing or of the wrong type (for `data`: not convertible to JSON).
#[derive(Debug)]
pub struct ResponseFields {
    pub success: Option<bool>,
    pub code: Option<u16>,
    pub data: Option<serde_json::Value>,
    pub error: Option<String>,
}

/// A response dictionary read as a result: `success` defaults to false, the
/// code to 200 on success and 500 otherwise; data is kept only on success
/// and the error message only on failure.
pub open spec fn parse_dispatch_response_spec(fields: ResponseFields) -> DispatchResult {
    let success = fields.success == Some(true);
    DispatchResult {
        success,
        code: match fields.code {
            Some(c) => c,
            None => if success {
                STATUS_OK
            } else {
                STATUS_INTERNAL_ERROR
            },
        },
        data: if success {
            fields.data
        } else {
            None
        },
        error: if success {
            None
        } else {
            fields.error
        },
    }
}

/// A response dictionary read as a result: `success` defaults to false, the
/// code to 200 on success and 500 otherwise; data is kept only on success
/// and the error message only on failure.
pub fn parse_dispatch_response(fields: ResponseFields) -> (res: DispatchResult)
    ensures
        res == parse_dispatch_response_spec(fields),
{
    let success = match fields.success {
        Some(b) => b,
        None => false,
    };
    let code: u16 = match fields.code {
        Some(c) => c,
        None => if success {
            STATUS_OK
        } else {
            STATUS_INTERNAL_ERROR
        },
    };
    let data = if success {
        fields.data
    } else {
        None
    };
    let error = if success {
        None
    } else {
        fields.error
    };
    DispatchResult { success, code, data, error }
}

/// A failed result with status 500 and the given message.
pub open spec fn is_failure_with(r: DispatchResult, message: Seq<char>) -> bool {
    &&& !r.success
    &&& r.code == STATUS_INTERNAL_ERROR
    &&& r.data is None
    &&& r.error matches Some(e) && e@ == message
}

impl DispatchResult {
    /// A failed result with status 500 and the given message.
    pub fn failure(message: String) -> (res: DispatchResult)
        ensures
            is_failure_with(res, message@),
    {
        DispatchResult { success: false, code: STATUS_INTERNAL_ERROR, data: None, error: Some(message) }
    }

    /// The result for request data that could not be handed to Python.
    pub fn conversion_failure(detail: &str) -> (res: DispatchResult)
        ensures
            is_failure_with(res, "Failed to convert request data: "@ + detail@),
    {
        DispatchResult::failure(String::from_str("Failed to convert request data: ").concat(detail))
    }

    /// The result for an async request that could not be submitted.
    pub fn submit_failure(detail: &str) -> (res: DispatchResult)
        ensures
            is_failure_with(res, "Failed to submit async request: "@ + detail@),
    {
        DispatchResult::failure(String::from_str("Failed to submit async request: ").concat(detail))
    }
}

/// The result of calling the Python dispatcher: the parsed response, or a
/// 500 failure carrying the exception's message when the call raised.
pub fn dispatch_outcome(call: Result<ResponseFields, String>) -> (res: DispatchResult)
    ensures
        match call {
            Ok(fields) => res == parse_dispatch_response_spec(fields),
            Err(m) => is_failure_with(res, m@),
        },
{
    match call {
        Ok(fields) => parse_dispatch_response(fields),
        Err(m) => DispatchResult::failure(m),
    }
}

/// What the framework's `get_route_info` gave for a route.
pub enum RouteLookup {
    /// The call raised.
    Failed,
    /// No route matches.
    NotFound,
    /// A route matches; its `is_async` entry when that is a boolean.
    Found { is_async: Option<bool> },
}

/// Whether a route is async: `None` when the lookup failed, no route
/// matches, or the route's `is_async` entry is missing or not a boolean.
pub fn route_is_async(lookup: RouteLookup) -> (res: Option<bool>)
    ensures
        res == match lookup {
            RouteLookup::Found { is_async } => is_async,
            _ => None,
        },
{
    match lookup {
        RouteLookup::Found { is_async } => is_async,
        _ => None,
    }
}

/// The startup log line for a registered route:
/// `  METHOD PATH -> HANDLER()` followed by ` [pool]` and ` [async]` markers.
pub open spec fn spec_route_log_line(
    method: Seq<char>,
    path: Seq<char>,
    handler: Seq<char>,
    use_process_pool: bool,
    is_async: bool,
) -> Seq<char> {
    "  "@ + method + " "@ + path + " -> "@ + handler + "()"@ + (if use_process_pool {
        " [pool]"@
    } else {
        Seq::empty()
    }) + (if is_async {
        " [async]"@
    } else {
        Seq::empty()
    })
}

/// The startup log line for a registered route.
pub fn route_log_line(method: &str, path: &str, handler: &str, use_process_pool: bool, is_async: bool) -> (res:
    String)
    ensures
        res@ == spec_route_log_line(method@, path@, handler@, use_process_pool, is_async),
{
    let mut s = String::from_str("  ");
    s.append(method);
    s.append(" ");
    s.append(path);
    s.append(" -> ");
    s.append(handler);
    s.append("()");
    let ghost base = s@;
    if use_process_pool {
        s.append(" [pool]");
    }
    let ghost with_pool = s@;
    if is_async {
        s.append(" [async]");
    }
    proof {
        assert(base + Seq::<char>::empty() =~= base);
        assert(with_pool + Seq::<char>::empty() =~= with_pool);
    }
    s
}

} // verus!
