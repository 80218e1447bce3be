//! Request and response shapes of the bundled Rust and Python endpoints,
//! and the decisions those endpoints make.

use vstd::prelude::*;
use crate::dispatch::{STATUS_INTERNAL_ERROR, STATUS_OK};
use crate::text::{parse_numbers, spec_parse_numbers};
use crate::json::{json_accepts, json_error_text, json_value_of, parse_json};

verus! {

/// Status code of a malformed request.
pub const STATUS_BAD_REQUEST: u16 = 400;

/// Reply of `GET /rust/hello`.
#[derive(Debug, Clone)]
pub struct HelloResponse {
    pub message: String,
    pub timestamp: u64,
}

/// The greeting of `GET /rust/hello` at `timestamp` (seconds since the Unix epoch).
pub fn hello_response(timestamp: u64) -> (res: HelloResponse)
    ensures
        res.message@ == "Hello from Rust"@,
        res.timestamp == timestamp,
{
    HelloResponse { message: String::from_str("Hello from Rust"), timestamp }
}

/// Body of `POST /rust/echo`: the whole JSON object.
#[derive(Debug)]
pub struct EchoRequest {
    pub data: serde_json::Value,
}

/// Reply of `POST /rust/echo`.
#[derive(Debug)]
pub struct EchoResponse {
    pub echo: serde_json::Value,
    pub source: String,
}

/// The echo of a request's data, marked as coming from Rust.
pub fn echo_response(request: EchoRequest) -> (res: EchoResponse)
    ensures
        res.echo == request.data,
        res.source@ == "rust"@,
{
    EchoResponse { echo: request.data, source: String::from_str("rust") }
}

/// Reply of the direct Python `hello` endpoint.
#[derive(Debug, Clone)]
pub struct PythonHelloResponse {
    pub message: String,
    pub version: String,
}

/// Body of the direct Python `process` endpoint.
#[derive(Debug)]
pub struct ProcessRequest {
    pub data: serde_json::Value,
}

/// Reply of the direct Python `process` endpoint.
#[derive(Debug)]
pub struct ProcessResponse {
    pub result: serde_json::Value,
    pub source: String,
}

/// The result computed by Python, marked as coming from Python.
pub fn process_response(result: serde_json::Value) -> (res: ProcessResponse)
    ensures
        res.result == result,
        res.source@ == "python"@,
{
    ProcessResponse { result, source: String::from_str("python") }
}

/// The reply for the JSON text that Python's `process` handler gave back:
/// the parsed result marked as coming from Python, or, when the text is not
/// JSON, 500 with the error as Python reports a `ValueError`.
pub fn process_reply(result_text: &[u8]) -> (res: HandlerReply<ProcessResponse>)
    ensures
        json_accepts(result_text@) ==> (res matches HandlerReply::Success(r) && r.result
            == json_value_of(result_text@) && r.source@ == "python"@),
        !json_accepts(result_text@) ==> (res matches HandlerReply::Failure { status, error } && status
            == STATUS_INTERNAL_ERROR && error@ == "ValueError: "@ + json_error_text(result_text@)),
{
    match parse_json(result_text) {
        Ok(v) => HandlerReply::Success(process_response(v)),
        Err(e) => HandlerReply::Failure {
            status: STATUS_INTERNAL_ERROR,
            error: String::from_str("ValueError: ").concat(e.as_str()),
        },
    }
}

/// Query of the process-pool squares endpoint: comma-separated integers.
#[derive(Debug, Clone)]
pub struct SquaresQuery {
    pub numbers: String,
}

/// Reply of the process-pool endpoints.
#[derive(Debug, Clone)]
pub struct SquaresResponse {
    pub squares: Vec<i64>,
}

/// Body of the process-pool compute endpoint.
#[derive(Debug, Clone)]
pub struct ComputeRequest {
    pub numbers: Vec<i64>,
}

/// The reply of an endpoint: 200 with a body, or a status with
/// `{"error": message}`.
#[derive(Debug)]
pub enum HandlerReply<T> {
    Success(T),
    Failure { status: u16, error: String },
}

impl<T> HandlerReply<T> {
    /// The reply's status code.
    pub fn status(&self) -> (res: u16)
        ensures
            res == match self {
                HandlerReply::Success(_) => STATUS_OK,
                HandlerReply::Failure { status, .. } => *status,
            },
    {
        match self {
            HandlerReply::Success(_) => STATUS_OK,
            HandlerReply::Failure { status, .. } => *status,
        }
    }
}

/// The reply for work done in Python: 200 with the result, or 500 with the
/// error's text.
pub fn reply_from<T>(result: Result<T, String>) -> (res: HandlerReply<T>)
    ensures
        match result {
            Ok(t) => res == HandlerReply::Success(t),
            Err(e) => res == HandlerReply::<T>::Failure { status: STATUS_INTERNAL_ERROR, error: e },
        },
{
    match result {
        Ok(t) => HandlerReply::Success(t),
        Err(e) => HandlerReply::Failure { status: STATUS_INTERNAL_ERROR, error: e },
    }
}

/// The reply for squares computed in the process pool.
pub fn squares_reply(result: Result<Vec<i64>, String>) -> (res: HandlerReply<SquaresResponse>)
    ensures
        match result {
            Ok(v) => res matches HandlerReply::Success(r) && r.squares == v,
            Err(e) => res == HandlerReply::<SquaresResponse>::Failure {
                status: STATUS_INTERNAL_ERROR,
                error: e,
            },
        },
{
    match result {
        Ok(squares) => HandlerReply::Success(SquaresResponse { squares }),
        Err(e) => HandlerReply::Failure { status: STATUS_INTERNAL_ERROR, error: e },
    }
}

/// The numbers of a squares query, or a 400 reply `Invalid numbers format`
/// when some comma-separated piece, trimmed, is not an `i64` numeral.
pub fn squares_query_numbers(query: &SquaresQuery) -> (res: Result<Vec<i64>, HandlerReply<SquaresResponse>>)
    ensures
        match spec_parse_numbers(query.numbers@) {
            Some(ns) => res matches Ok(v) && v@ == ns,
            None => res matches Err(HandlerReply::Failure { status, error }) && status
                == STATUS_BAD_REQUEST && error@ == "Invalid numbers format"@,
        },
{
    match parse_numbers(query.numbers.as_str()) {
        Some(v) => Ok(v),
        None => Err(
            HandlerReply::Failure {
                status: STATUS_BAD_REQUEST,
                error: String::from_str("Invalid numbers format"),
            },
        ),
    }
}

} // verus!
