//! The error taxonomy: two parallel fixed catalogs of numeric codes with
//! one shared error value shape (code, message, optional data).
//!
//! `RpcError` carries the standard JSON-RPC codes and travels on the wire
//! inside an error envelope; `SdkError` adds the extension codes used by
//! the surrounding tooling, for example when narrowing a batch the wrong
//! way.  Both are plain immutable values with builder-style overrides.

use vstd::prelude::*;

use crate::json::JsonValue;

verus! {

/// The standard JSON-RPC error codes.
#[allow(non_camel_case_types)]
#[derive(Debug, Clone, Copy, PartialEq, Eq, Structural)]
pub enum RpcErrorCodes {
    PARSE_ERROR,
    INVALID_REQUEST,
    METHOD_NOT_FOUND,
    INVALID_PARAMS,
    INTERNAL_ERROR,
}

impl RpcErrorCodes {
    /// The numeric value of the code.
    pub open spec fn spec_code(self) -> i64 {
        match self {
            RpcErrorCodes::PARSE_ERROR => -32700i64,
            RpcErrorCodes::INVALID_REQUEST => -32600i64,
            RpcErrorCodes::METHOD_NOT_FOUND => -32601i64,
            RpcErrorCodes::INVALID_PARAMS => -32602i64,
            RpcErrorCodes::INTERNAL_ERROR => -32603i64,
        }
    }

    /// The numeric value of the code.
    pub fn code(self) -> (r: i64)
        ensures
            r == self.spec_code(),
    {
        match self {
            RpcErrorCodes::PARSE_ERROR => -32700,
            RpcErrorCodes::INVALID_REQUEST => -32600,
            RpcErrorCodes::METHOD_NOT_FOUND => -32601,
            RpcErrorCodes::INVALID_PARAMS => -32602,
            RpcErrorCodes::INTERNAL_ERROR => -32603,
        }
    }
}

/// A JSON-RPC error value: a code from the fixed catalog, a short
/// message, and optional structured data.
#[derive(Debug, PartialEq, Eq)]
pub struct RpcError {
    /// The error type that occurred.
    pub code: i64,
    /// A short description of the error.
    pub message: String,
    /// Additional information about the error.
    pub data: Option<JsonValue>,
}

impl RpcError {
    /// Constructs an `RpcError` from a catalog code, a message and data.
    pub fn new(error_code: RpcErrorCodes, message: String, data: Option<JsonValue>) -> (r: Self)
        ensures
            r.code == error_code.spec_code(),
            r.message == message,
            r.data == data,
    {
        RpcError { code: error_code.code(), message, data }
    }

    /// The "Method not found" error.
    pub fn method_not_found() -> (r: Self)
        ensures
            r.code == -32601,
            r.message@ == "Method not found"@,
            r.data is None,
    {
        RpcError { code: -32601, message: "Method not found".to_owned(), data: None }
    }

    /// The "Invalid params" error.
    pub fn invalid_params() -> (r: Self)
        ensures
            r.code == -32602,
            r.message@ == "Invalid params"@,
            r.data is None,
    {
        RpcError { code: -32602, message: "Invalid params".to_owned(), data: None }
    }

    /// The "Invalid request" error.
    pub fn invalid_request() -> (r: Self)
        ensures
            r.code == -32600,
            r.message@ == "Invalid request"@,
            r.data is None,
    {
        RpcError { code: -32600, message: "Invalid request".to_owned(), data: None }
    }

    /// The "Internal error" error.
    pub fn internal_error() -> (r: Self)
        ensures
            r.code == -32603,
            r.message@ == "Internal error"@,
            r.data is None,
    {
        RpcError { code: -32603, message: "Internal error".to_owned(), data: None }
    }

    /// The "Parse error" error.
    pub fn parse_error() -> (r: Self)
        ensures
            r.code == -32700,
            r.message@ == "Parse error"@,
            r.data is None,
    {
        RpcError { code: -32700, message: "Parse error".to_owned(), data: None }
    }

    /// Overrides the message, keeping code and data.
    pub fn with_message(self, message: String) -> (r: Self)
        ensures
            r.code == self.code,
            r.message == message,
            r.data == self.data,
    {
        RpcError { message, ..self }
    }

    /// Overrides the data, keeping code and message.
    pub fn with_data(self, data: Option<JsonValue>) -> (r: Self)
        ensures
            r.code == self.code,
            r.message == self.message,
            r.data == data,
    {
        RpcError { data, ..self }
    }
}

/// The extension error codes used around the protocol core, beside the
/// standard JSON-RPC ones.
#[allow(non_camel_case_types)]
#[derive(Debug, Clone, Copy, PartialEq, Eq, Structural)]
pub enum SdkErrorCodes {
    CONNECTION_CLOSED,
    REQUEST_TIMEOUT,
    RESOURCE_NOT_FOUND,
    BAD_REQUEST,
    SESSION_NOT_FOUND,
    INVALID_REQUEST,
    METHOD_NOT_FOUND,
    INVALID_PARAMS,
    INTERNAL_ERROR,
    PARSE_ERROR,
}

impl SdkErrorCodes {
    /// The numeric value of the code.
    pub open spec fn spec_code(self) -> i64 {
        match self {
            SdkErrorCodes::CONNECTION_CLOSED => -32000i64,
            SdkErrorCodes::REQUEST_TIMEOUT => -32001i64,
            SdkErrorCodes::RESOURCE_NOT_FOUND => -32002i64,
            SdkErrorCodes::BAD_REQUEST => -32015i64,
            SdkErrorCodes::SESSION_NOT_FOUND => -32016i64,
            SdkErrorCodes::INVALID_REQUEST => -32600i64,
            SdkErrorCodes::METHOD_NOT_FOUND => -32601i64,
            SdkErrorCodes::INVALID_PARAMS => -32602i64,
            SdkErrorCodes::INTERNAL_ERROR => -32603i64,
            SdkErrorCodes::PARSE_ERROR => -32700i64,
        }
    }

    /// The numeric value of the code.
    pub fn code(self) -> (r: i64)
        ensures
            r == self.spec_code(),
    {
        match self {
            SdkErrorCodes::CONNECTION_CLOSED => -32000,
            SdkErrorCodes::REQUEST_TIMEOUT => -32001,
            SdkErrorCodes::RESOURCE_NOT_FOUND => -32002,
            SdkErrorCodes::BAD_REQUEST => -32015,
            SdkErrorCodes::SESSION_NOT_FOUND => -32016,
            SdkErrorCodes::INVALID_REQUEST => -32600,
            SdkErrorCodes::METHOD_NOT_FOUND => -32601,
            SdkErrorCodes::INVALID_PARAMS => -32602,
            SdkErrorCodes::INTERNAL_ERROR => -32603,
            SdkErrorCodes::PARSE_ERROR => -32700,
        }
    }
}

/// An extension error value, shaped like `RpcError`.
#[derive(Debug, PartialEq, Eq)]
pub struct SdkError {
    /// The error type that occurred.
    pub code: i64,
    /// Additional information about the error.
    pub data: Option<JsonValue>,
    /// A short description of the error.
    pub message: String,
}

impl SdkError {
    /// Constructs an `SdkError` from a catalog code, a message and data.
    pub fn new(error_code: SdkErrorCodes, message: String, data: Option<JsonValue>) -> (r: Self)
        ensures
            r.code == error_code.spec_code(),
            r.message == message,
            r.data == data,
    {
        SdkError { code: error_code.code(), data, message }
    }

    /// The "Connection closed" error.
    pub fn connection_closed() -> (r: Self)
        ensures
            r.code == -32000,
            r.message@ == "Connection closed"@,
            r.data is None,
    {
        SdkError { code: -32000, data: None, message: "Connection closed".to_owned() }
    }

    /// The "Request timeout" error; the data records the timeout that ran
    /// out, so the timeout must fit the wire's integer range.
    pub fn request_timeout(timeout: u128) -> (r: Self)
        requires
            timeout <= i64::MAX as u128,
        ensures
            r.code == -32001,
            r.message@ == "Request timeout"@,
            r.data matches Some(JsonValue::Object(entries)) && entries@.len() == 1
                && entries@[0].0@ == "timeout"@ && entries@[0].1 == JsonValue::Number(
                timeout as i64,
            ),
    {
        let mut entries: Vec<(String, JsonValue)> = Vec::new();
        entries.push(("timeout".to_owned(), JsonValue::Number(timeout as i64)));
        SdkError {
            code: -32001,
            data: Some(JsonValue::Object(entries)),
            message: "Request timeout".to_owned(),
        }
    }

    /// The "Session not found" error.
    pub fn session_not_found() -> (r: Self)
        ensures
            r.code == -32016,
            r.message@ == "Session not found"@,
            r.data is None,
    {
        SdkError { code: -32016, data: None, message: "Session not found".to_owned() }
    }

    /// The "Invalid request" error.
    pub fn invalid_request() -> (r: Self)
        ensures
            r.code == -32600,
            r.message@ == "Invalid request"@,
            r.data is None,
    {
        SdkError { code: -32600, data: None, message: "Invalid request".to_owned() }
    }

    /// The "Method not found" error.
    pub fn method_not_found() -> (r: Self)
        ensures
            r.code == -32601,
            r.message@ == "Method not found"@,
            r.data is None,
    {
        SdkError { code: -32601, data: None, message: "Method not found".to_owned() }
    }

    /// The "Invalid params" error.
    pub fn invalid_params() -> (r: Self)
        ensures
            r.code == -32602,
            r.message@ == "Invalid params"@,
            r.data is None,
    {
        SdkError { code: -32602, data: None, message: "Invalid params".to_owned() }
    }

    /// The "Internal error" error.
    pub fn internal_error() -> (r: Self)
        ensures
            r.code == -32603,
            r.message@ == "Internal error"@,
            r.data is None,
    {
        SdkError { code: -32603, data: None, message: "Internal error".to_owned() }
    }

    /// The "Parse error" error.
    pub fn parse_error() -> (r: Self)
        ensures
            r.code == -32700,
            r.message@ == "Parse Error"@,
            r.data is None,
    {
        SdkError { code: -32700, data: None, message: "Parse Error".to_owned() }
    }

    /// The "Resource not found" error.
    pub fn resource_not_found() -> (r: Self)
        ensures
            r.code == -32002,
            r.message@ == "Resource not found"@,
            r.data is None,
    {
        SdkError { code: -32002, data: None, message: "Resource not found".to_owned() }
    }

    /// The "Bad request" error.  Its default message reads "Resource not
    /// found", as the catalog it comes from has always worded it so.
    pub fn bad_request() -> (r: Self)
        ensures
            r.code == -32015,
            r.message@ == "Resource not found"@,
            r.data is None,
    {
        SdkError { code: -32015, data: None, message: "Resource not found".to_owned() }
    }

    /// Overrides the message, keeping code and data.
    pub fn with_message(self, message: &str) -> (r: Self)
        ensures
            r.code == self.code,
            r.message@ == message@,
            r.data == self.data,
    {
        SdkError { message: message.to_owned(), ..self }
    }

    /// Overrides the data, keeping code and message.
    pub fn with_data(self, data: Option<JsonValue>) -> (r: Self)
        ensures
            r.code == self.code,
            r.message == self.message,
            r.data == data,
    {
        SdkError { data, ..self }
    }
}

} // verus!
