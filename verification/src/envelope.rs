//! The four envelope shapes and the rules for building and taking them
//! apart.
//!
//! An envelope pairs a payload with its transport metadata: the fixed
//! `jsonrpc` marker, a method name where one belongs, and a correlation
//! id wherever the message takes part in a request/response exchange.
//! `build` enforces the id-presence rules; the `as_*` methods narrow an
//! envelope back to one shape, by value, and report a mismatch with an
//! error that names both the expected and the received kind.

use vstd::prelude::*;

use crate::classifier::{kind_name, MessageTypes};
use crate::error::RpcError;
use crate::json::JsonValue;

verus! {

/// A correlation id: an integer or a string.  Ids of different variants
/// are never equal.
#[derive(Debug, Clone, PartialEq, Eq, Hash)]
pub enum RequestId {
    Str(String),
    Integer(i64),
}

/// A request envelope: correlated, with a method and a params payload.
#[derive(Debug, PartialEq, Eq)]
pub struct JsonrpcRequest {
    pub id: RequestId,
    pub method: String,
    pub params: JsonValue,
}

/// A notification envelope: a method and a params payload, never an id.
#[derive(Debug, PartialEq, Eq)]
pub struct JsonrpcNotification {
    pub method: String,
    pub params: JsonValue,
}

/// A response envelope: correlated, with a result payload and no method.
#[derive(Debug, PartialEq, Eq)]
pub struct JsonrpcResponse {
    pub id: RequestId,
    pub result: JsonValue,
}

/// An error envelope: correlated, carrying a structured error value.
#[derive(Debug, PartialEq, Eq)]
pub struct JsonrpcError {
    pub id: RequestId,
    pub error: RpcError,
}

impl JsonrpcRequest {
    pub fn new(id: RequestId, method: String, params: JsonValue) -> (r: Self)
        ensures
            r == (JsonrpcRequest { id, method, params }),
    {
        JsonrpcRequest { id, method, params }
    }

    /// The fixed protocol marker every envelope carries.
    pub fn jsonrpc(&self) -> (r: &'static str)
        ensures
            r@ == "2.0"@,
    {
        "2.0"
    }
}

impl JsonrpcNotification {
    pub fn new(method: String, params: JsonValue) -> (r: Self)
        ensures
            r == (JsonrpcNotification { method, params }),
    {
        JsonrpcNotification { method, params }
    }

    /// The fixed protocol marker every envelope carries.
    pub fn jsonrpc(&self) -> (r: &'static str)
        ensures
            r@ == "2.0"@,
    {
        "2.0"
    }
}

impl JsonrpcResponse {
    pub fn new(id: RequestId, result: JsonValue) -> (r: Self)
        ensures
            r == (JsonrpcResponse { id, result }),
    {
        JsonrpcResponse { id, result }
    }

    /// The fixed protocol marker every envelope carries.
    pub fn jsonrpc(&self) -> (r: &'static str)
        ensures
            r@ == "2.0"@,
    {
        "2.0"
    }
}

impl JsonrpcError {
    pub fn new(error: RpcError, id: RequestId) -> (r: Self)
        ensures
            r == (JsonrpcError { id, error }),
    {
        JsonrpcError { id, error }
    }

    /// Builds an error envelope straight from the parts of an error value.
    pub fn create(
        id: RequestId,
        error_code: crate::error::RpcErrorCodes,
        error_message: String,
        error_data: Option<JsonValue>,
    ) -> (r: Self)
        ensures
            r.id == id,
            r.error.code == error_code.spec_code(),
            r.error.message == error_message,
            r.error.data == error_data,
    {
        JsonrpcError::new(RpcError::new(error_code, error_message, error_data), id)
    }

    /// The fixed protocol marker every envelope carries.
    pub fn jsonrpc(&self) -> (r: &'static str)
        ensures
            r@ == "2.0"@,
    {
        "2.0"
    }
}

/// A complete wire message: one of the four envelope shapes.
#[derive(Debug, PartialEq, Eq)]
pub enum Envelope {
    Request(JsonrpcRequest),
    Notification(JsonrpcNotification),
    Response(JsonrpcResponse),
    Error(JsonrpcError),
}

/// A payload with its role but without transport metadata: what the
/// application hands over, before an id is attached.
#[derive(Debug, PartialEq, Eq)]
pub enum MessagePayload {
    Request { method: String, params: JsonValue },
    Notification { method: String, params: JsonValue },
    Response { result: JsonValue },
    Error(RpcError),
}

/// Classification and kind predicates shared by every message-like value.
pub trait McpMessage {
    /// The message kind of this value.
    spec fn message_kind(&self) -> MessageTypes;

    fn is_response(&self) -> (r: bool)
        ensures
            r == (self.message_kind() == MessageTypes::Response),
    ;

    fn is_request(&self) -> (r: bool)
        ensures
            r == (self.message_kind() == MessageTypes::Request),
    ;

    fn is_notification(&self) -> (r: bool)
        ensures
            r == (self.message_kind() == MessageTypes::Notification),
    ;

    fn is_error(&self) -> (r: bool)
        ensures
            r == (self.message_kind() == MessageTypes::Error),
    ;

    fn message_type(&self) -> (r: MessageTypes)
        ensures
            r == self.message_kind(),
    ;
}

/// Transport metadata access for complete envelopes.
pub trait RpcMessage: McpMessage {
    /// The correlation id this value carries, if its kind carries one.
    spec fn correlation_id(&self) -> Option<RequestId>;

    fn request_id(&self) -> (r: Option<&RequestId>)
        ensures
            match r {
                Some(id) => self.correlation_id() == Some(*id),
                None => self.correlation_id() is None,
            },
    ;

    fn jsonrpc(&self) -> (r: &'static str)
        ensures
            r@ == "2.0"@,
    ;
}

/// Attaching transport metadata: building `Self` from a payload message
/// and an optional correlation id.
pub trait FromMessage<T> where Self: Sized {
    fn from_message(message: T, request_id: Option<RequestId>) -> Result<Self, RpcError>;
}

/// The companion of `FromMessage`, from the payload's side.
pub trait ToMessage<T> where T: FromMessage<Self>, Self: Sized {
    fn to_message(self, request_id: Option<RequestId>) -> Result<T, RpcError>;
}

impl McpMessage for Envelope {
    open spec fn message_kind(&self) -> MessageTypes {
        match self {
            Envelope::Request(_) => MessageTypes::Request,
            Envelope::Notification(_) => MessageTypes::Notification,
            Envelope::Response(_) => MessageTypes::Response,
            Envelope::Error(_) => MessageTypes::Error,
        }
    }

    fn is_response(&self) -> bool {
        matches!(self, Envelope::Response(_))
    }

    fn is_request(&self) -> bool {
        matches!(self, Envelope::Request(_))
    }

    fn is_notification(&self) -> bool {
        matches!(self, Envelope::Notification(_))
    }

    fn is_error(&self) -> bool {
        matches!(self, Envelope::Error(_))
    }

    fn message_type(&self) -> MessageTypes {
        match self {
            Envelope::Request(_) => MessageTypes::Request,
            Envelope::Notification(_) => MessageTypes::Notification,
            Envelope::Response(_) => MessageTypes::Response,
            Envelope::Error(_) => MessageTypes::Error,
        }
    }
}

impl RpcMessage for Envelope {
    open spec fn correlation_id(&self) -> Option<RequestId> {
        match self {
            Envelope::Request(rq) => Some(rq.id),
            Envelope::Notification(_) => None,
            Envelope::Response(rs) => Some(rs.id),
            Envelope::Error(er) => Some(er.id),
        }
    }

    fn request_id(&self) -> Option<&RequestId> {
        match self {
            Envelope::Request(rq) => Some(&rq.id),
            Envelope::Notification(_) => None,
            Envelope::Response(rs) => Some(&rs.id),
            Envelope::Error(er) => Some(&er.id),
        }
    }

    fn jsonrpc(&self) -> &'static str {
        "2.0"
    }
}

impl McpMessage for MessagePayload {
    open spec fn message_kind(&self) -> MessageTypes {
        match self {
            MessagePayload::Request { .. } => MessageTypes::Request,
            MessagePayload::Notification { .. } => MessageTypes::Notification,
            MessagePayload::Response { .. } => MessageTypes::Response,
            MessagePayload::Error(_) => MessageTypes::Error,
        }
    }

    fn is_response(&self) -> bool {
        matches!(self, MessagePayload::Response { .. })
    }

    fn is_request(&self) -> bool {
        matches!(self, MessagePayload::Request { .. })
    }

    fn is_notification(&self) -> bool {
        matches!(self, MessagePayload::Notification { .. })
    }

    fn is_error(&self) -> bool {
        matches!(self, MessagePayload::Error(_))
    }

    fn message_type(&self) -> MessageTypes {
        match self {
            MessagePayload::Request { .. } => MessageTypes::Request,
            MessagePayload::Notification { .. } => MessageTypes::Notification,
            MessagePayload::Response { .. } => MessageTypes::Response,
            MessagePayload::Error(_) => MessageTypes::Error,
        }
    }
}

/// The error returned when an envelope is narrowed to the wrong kind:
/// an internal error whose data names both kinds.
pub open spec fn names_kind_mismatch(
    err: RpcError,
    expected: MessageTypes,
    received: MessageTypes,
) -> bool {
    &&& err.code == -32603
    &&& err.message@ == "Invalid message type"@
    &&& err.data matches Some(JsonValue::Object(entries))
    &&& err.data matches Some(JsonValue::Object(entries)) ==> {
        &&& entries@.len() == 2
        &&& entries@[0].0@ == "expected"@
        &&& entries@[0].1 matches JsonValue::Text(t) && t@ == kind_name(expected)
        &&& entries@[1].0@ == "received"@
        &&& entries@[1].1 matches JsonValue::Text(t) && t@ == kind_name(received)
    }
}

fn kind_mismatch_error(expected: MessageTypes, received: MessageTypes) -> (r: RpcError)
    ensures
        names_kind_mismatch(r, expected, received),
{
    let mut entries: Vec<(String, JsonValue)> = Vec::new();
    entries.push(("expected".to_owned(), JsonValue::Text(expected.to_string())));
    entries.push(("received".to_owned(), JsonValue::Text(received.to_string())));
    RpcError::internal_error().with_message("Invalid message type".to_owned()).with_data(
        Some(JsonValue::Object(entries)),
    )
}

impl Envelope {
    /// Combines a payload with an optional correlation id into an
    /// envelope.  A notification must come without an id; every other
    /// payload kind must come with one; any other pairing is refused
    /// with an internal error.
    pub fn build(payload: MessagePayload, request_id: Option<RequestId>) -> (r: Result<
        Envelope,
        RpcError,
    >)
        ensures
            match payload {
                MessagePayload::Request { method, params } => match request_id {
                    Some(id) => r == Ok::<_, RpcError>(
                        Envelope::Request(JsonrpcRequest { id, method, params }),
                    ),
                    None => r matches Err(e) && e.code == -32603 && e.message@
                        == "request_id is None!"@,
                },
                MessagePayload::Notification { method, params } => match request_id {
                    Some(_) => r matches Err(e) && e.code == -32603 && e.message@
                        == "request_id expected to be None for Notifications!"@,
                    None => r == Ok::<_, RpcError>(
                        Envelope::Notification(JsonrpcNotification { method, params }),
                    ),
                },
                MessagePayload::Response { result } => match request_id {
                    Some(id) => r == Ok::<_, RpcError>(
                        Envelope::Response(JsonrpcResponse { id, result }),
                    ),
                    None => r matches Err(e) && e.code == -32603 && e.message@
                        == "request_id is None!"@,
                },
                MessagePayload::Error(error) => match request_id {
                    Some(id) => r == Ok::<_, RpcError>(
                        Envelope::Error(JsonrpcError { id, error }),
                    ),
                    None => r matches Err(e) && e.code == -32603 && e.message@
                        == "request_id is None!"@,
                },
            },
    {
        match payload {
            MessagePayload::Request { method, params } => match request_id {
                Some(id) => Ok(Envelope::Request(JsonrpcRequest { id, method, params })),
                None => Err(
                    RpcError::internal_error().with_message("request_id is None!".to_owned()),
                ),
            },
            MessagePayload::Notification { method, params } => match request_id {
                Some(_) => Err(
                    RpcError::internal_error().with_message(
                        "request_id expected to be None for Notifications!".to_owned(),
                    ),
                ),
                None => Ok(Envelope::Notification(JsonrpcNotification { method, params })),
            },
            MessagePayload::Response { result } => match request_id {
                Some(id) => Ok(Envelope::Response(JsonrpcResponse { id, result })),
                None => Err(
                    RpcError::internal_error().with_message("request_id is None!".to_owned()),
                ),
            },
            MessagePayload::Error(error) => match request_id {
                Some(id) => Ok(Envelope::Error(JsonrpcError { id, error })),
                None => Err(
                    RpcError::internal_error().with_message("request_id is None!".to_owned()),
                ),
            },
        }
    }

    /// Narrows to a request envelope; on any other kind, fails with an
    /// error naming the expected and the received kind.
    pub fn as_request(self) -> (r: Result<JsonrpcRequest, RpcError>)
        ensures
            match self {
                Envelope::Request(rq) => r == Ok::<_, RpcError>(rq),
                _ => r matches Err(e) && names_kind_mismatch(
                    e,
                    MessageTypes::Request,
                    self.message_kind(),
                ),
            },
    {
        match self {
            Envelope::Request(rq) => Ok(rq),
            other => {
                let received = other.message_type();
                Err(kind_mismatch_error(MessageTypes::Request, received))
            },
        }
    }

    /// Narrows to a response envelope; see `as_request`.
    pub fn as_response(self) -> (r: Result<JsonrpcResponse, RpcError>)
        ensures
            match self {
                Envelope::Response(rs) => r == Ok::<_, RpcError>(rs),
                _ => r matches Err(e) && names_kind_mismatch(
                    e,
                    MessageTypes::Response,
                    self.message_kind(),
                ),
            },
    {
        match self {
            Envelope::Response(rs) => Ok(rs),
            other => {
                let received = other.message_type();
                Err(kind_mismatch_error(MessageTypes::Response, received))
            },
        }
    }

    /// Narrows to a notification envelope; see `as_request`.
    pub fn as_notification(self) -> (r: Result<JsonrpcNotification, RpcError>)
        ensures
            match self {
                Envelope::Notification(n) => r == Ok::<_, RpcError>(n),
                _ => r matches Err(e) && names_kind_mismatch(
                    e,
                    MessageTypes::Notification,
                    self.message_kind(),
                ),
            },
    {
        match self {
            Envelope::Notification(n) => Ok(n),
            other => {
                let received = other.message_type();
                Err(kind_mismatch_error(MessageTypes::Notification, received))
            },
        }
    }

    /// Narrows to an error envelope; see `as_request`.
    pub fn as_error(self) -> (r: Result<JsonrpcError, RpcError>)
        ensures
            match self {
                Envelope::Error(er) => r == Ok::<_, RpcError>(er),
                _ => r matches Err(e) && names_kind_mismatch(
                    e,
                    MessageTypes::Error,
                    self.message_kind(),
                ),
            },
    {
        match self {
            Envelope::Error(er) => Ok(er),
            other => {
                let received = other.message_type();
                Err(kind_mismatch_error(MessageTypes::Error, received))
            },
        }
    }

    /// Whether this envelope is the protocol's opening request.
    pub fn is_initialize_request(&self) -> (r: bool)
        ensures
            r == (self matches Envelope::Request(rq) && rq.method@ == "initialize"@),
    {
        let wanted: String = "initialize".to_owned();
        match self {
            Envelope::Request(rq) => rq.method == wanted,
            _ => false,
        }
    }

    /// Whether this envelope is the notification that ends initialization.
    pub fn is_initialized_notification(&self) -> (r: bool)
        ensures
            r == (self matches Envelope::Notification(n) && n.method@
                == "notifications/initialized"@),
    {
        let wanted: String = "notifications/initialized".to_owned();
        match self {
            Envelope::Notification(n) => n.method == wanted,
            _ => false,
        }
    }
}

impl MessagePayload {
    /// The method name the payload carries: requests and notifications
    /// have one, responses and errors do not.
    pub fn method(&self) -> (r: Option<&String>)
        ensures
            match self {
                MessagePayload::Request { method, .. } => r == Some(method),
                MessagePayload::Notification { method, .. } => r == Some(method),
                _ => r is None,
            },
    {
        match self {
            MessagePayload::Request { method, .. } => Some(method),
            MessagePayload::Notification { method, .. } => Some(method),
            _ => None,
        }
    }

    /// Whether this payload is the protocol's opening request.
    pub fn is_initialize_request(&self) -> (r: bool)
        ensures
            r == (self matches MessagePayload::Request { method, .. } && method@
                == "initialize"@),
    {
        let wanted: String = "initialize".to_owned();
        match self {
            MessagePayload::Request { method, .. } => *method == wanted,
            _ => false,
        }
    }

    /// Whether this payload is the notification that ends
    /// initialization.
    pub fn is_initialized_notification(&self) -> (r: bool)
        ensures
            r == (self matches MessagePayload::Notification { method, .. } && method@
                == "notifications/initialized"@),
    {
        let wanted: String = "notifications/initialized".to_owned();
        match self {
            MessagePayload::Notification { method, .. } => *method == wanted,
            _ => false,
        }
    }
}

impl From<JsonrpcRequest> for Envelope {
    fn from(value: JsonrpcRequest) -> Envelope {
        Envelope::Request(value)
    }
}

impl vstd::std_specs::convert::FromSpecImpl<JsonrpcRequest> for Envelope {
    open spec fn obeys_from_spec() -> bool {
        true
    }

    open spec fn from_spec(v: JsonrpcRequest) -> Envelope {
        Envelope::Request(v)
    }
}

impl From<JsonrpcNotification> for Envelope {
    fn from(value: JsonrpcNotification) -> Envelope {
        Envelope::Notification(value)
    }
}

impl vstd::std_specs::convert::FromSpecImpl<JsonrpcNotification> for Envelope {
    open spec fn obeys_from_spec() -> bool {
        true
    }

    open spec fn from_spec(v: JsonrpcNotification) -> Envelope {
        Envelope::Notification(v)
    }
}

impl From<JsonrpcResponse> for Envelope {
    fn from(value: JsonrpcResponse) -> Envelope {
        Envelope::Response(value)
    }
}

impl vstd::std_specs::convert::FromSpecImpl<JsonrpcResponse> for Envelope {
    open spec fn obeys_from_spec() -> bool {
        true
    }

    open spec fn from_spec(v: JsonrpcResponse) -> Envelope {
        Envelope::Response(v)
    }
}

impl From<JsonrpcError> for Envelope {
    fn from(value: JsonrpcError) -> Envelope {
        Envelope::Error(value)
    }
}

impl vstd::std_specs::convert::FromSpecImpl<JsonrpcError> for Envelope {
    open spec fn obeys_from_spec() -> bool {
        true
    }

    open spec fn from_spec(v: JsonrpcError) -> Envelope {
        Envelope::Error(v)
    }
}

impl From<RpcError> for MessagePayload {
    fn from(value: RpcError) -> MessagePayload {
        MessagePayload::Error(value)
    }
}

impl vstd::std_specs::convert::FromSpecImpl<RpcError> for MessagePayload {
    open spec fn obeys_from_spec() -> bool {
        true
    }

    open spec fn from_spec(v: RpcError) -> MessagePayload {
        MessagePayload::Error(v)
    }
}

impl FromMessage<MessagePayload> for Envelope {
    fn from_message(message: MessagePayload, request_id: Option<RequestId>) -> Result<
        Self,
        RpcError,
    > {
        Envelope::build(message, request_id)
    }
}

impl ToMessage<Envelope> for MessagePayload {
    fn to_message(self, request_id: Option<RequestId>) -> Result<Envelope, RpcError> {
        Envelope::build(self, request_id)
    }
}

} // verus!

