//! The text boundary: JSON text against the document model.
//!
//! Reading and writing JSON text is serde_json's work and stands behind
//! trusted declarations with named results; everything downstream of
//! the parsed tree — classification, resolution, envelope decoding — is
//! verified against the codec's contracts.  A text whose numbers do not
//! fit the wire's integer range is rejected at this boundary.

use vstd::prelude::*;

use crate::batch::{batch_decode_accepts, MessageBatch};
use crate::codec::{
    decode_accepts, decode_error_object, decode_ok, encodes, encodes_error_object, error_object_ok,
    error_to_json, spec_error_object,
};
use crate::envelope::{
    Envelope, JsonrpcError, JsonrpcNotification, JsonrpcRequest, JsonrpcResponse,
};
use crate::error::RpcError;
use crate::json::JsonValue;

verus! {

/// serde_json's document type, declared so the conversion helpers below
/// can hand it along; the library never looks inside such a value.
#[verifier::external_type_specification]
#[verifier::external_body]
pub struct ExValue(serde_json::Value);

/// The library document that parsing a text yields, if the text is
/// accepted: a function of the characters alone.
pub uninterp spec fn parsed_json(s: Seq<char>) -> Option<JsonValue>;

/// The text that a library document renders to: a function of the
/// document alone.
pub uninterp spec fn rendered_json(v: JsonValue) -> Seq<char>;

/// Relies on serde_json::Value: maps each variant of a parsed tree to
/// the corresponding library value, one for one.  `None` for a number
/// outside the `i64` range: such a tree is rejected, not approximated.
#[verifier::external_body]
fn value_to_json(v: &serde_json::Value) -> Option<JsonValue> {
    match v {
        serde_json::Value::Null => Some(JsonValue::Null),
        serde_json::Value::Bool(b) => Some(JsonValue::Bool(*b)),
        serde_json::Value::Number(n) => n.as_i64().map(JsonValue::Number),
        serde_json::Value::String(s) => Some(JsonValue::Text(s.clone())),
        serde_json::Value::Array(items) => items.iter().map(value_to_json).collect::<Option<
            Vec<JsonValue>,
        >>().map(JsonValue::Array),
        serde_json::Value::Object(m) => m.iter().map(
            |(k, x)| value_to_json(x).map(|j| (k.clone(), j)),
        ).collect::<Option<Vec<(String, JsonValue)>>>().map(JsonValue::Object),
    }
}

/// Relies on serde_json::from_str: parses JSON text into a value tree,
/// handed over in the library's model.
#[verifier::external_body]
fn parse_text(s: &str) -> (r: Option<JsonValue>)
    ensures
        r == parsed_json(s@),
{
    match serde_json::from_str::<serde_json::Value>(s) {
        Ok(v) => value_to_json(&v),
        Err(_) => None,
    }
}

/// Relies on serde_json::Value's constructors: builds the tree
/// counterpart of a library document, one variant for one.
#[verifier::external_body]
fn json_to_value(v: &JsonValue) -> serde_json::Value {
    match v {
        JsonValue::Null => serde_json::Value::Null,
        JsonValue::Bool(b) => serde_json::Value::Bool(*b),
        JsonValue::Number(n) => serde_json::Value::Number(serde_json::Number::from(*n)),
        JsonValue::Text(s) => serde_json::Value::String(s.clone()),
        JsonValue::Array(items) => serde_json::Value::Array(
            items.iter().map(json_to_value).collect(),
        ),
        JsonValue::Object(entries) => serde_json::Value::Object(
            entries.iter().map(|(k, x)| (k.clone(), json_to_value(x))).collect(),
        ),
    }
}

/// Relies on serde_json::Value's Display: lays a document out as JSON
/// text, deterministically in the document.
#[verifier::external_body]
fn render_text(v: &JsonValue) -> (r: String)
    ensures
        r@ == rendered_json(*v),
{
    json_to_value(v).to_string()
}

impl Envelope {
    /// Parses an envelope from JSON text: text the parser refuses fails
    /// with a parse error, and an accepted document decodes under the
    /// codec's contract.
    pub fn from_str(s: &str) -> (r: Result<Envelope, RpcError>)
        ensures
            parsed_json(s@) is None ==> (r matches Err(e) && e.code == -32700),
            parsed_json(s@) matches Some(v) ==> {
                &&& (r is Ok <==> decode_accepts(v))
                &&& (r matches Ok(e) ==> e == decode_ok(v))
            },
    {
        match parse_text(s) {
            Some(v) => Envelope::deserialize(v),
            None => Err(RpcError::parse_error()),
        }
    }

    /// Renders the envelope as JSON text: the text of some document
    /// that `serialize` may produce for it.
    pub fn to_string(self) -> (r: String)
        ensures
            exists|v: JsonValue| #[trigger] encodes(self, v) && r@ == rendered_json(v),
    {
        let ghost this = self;
        let v = self.serialize();
        let r = render_text(&v);
        proof {
            assert(encodes(this, v) && r@ == rendered_json(v));
        }
        r
    }
}

impl JsonrpcRequest {
    /// Parses a request envelope from JSON text: the composition of
    /// `Envelope::from_str` and `Envelope::as_request`.
    pub fn from_str(s: &str) -> (r: Result<JsonrpcRequest, RpcError>)
        ensures
            r matches Ok(rq) ==> (parsed_json(s@) matches Some(v) && decode_accepts(v)
                && decode_ok(v) == Envelope::Request(rq)),
            parsed_json(s@) matches Some(v) ==> (decode_accepts(v) ==> (decode_ok(v) matches
            Envelope::Request(rq) ==> r == Ok::<_, RpcError>(rq))),
            parsed_json(s@) is None ==> r is Err,
    {
        match Envelope::from_str(s) {
            Ok(envelope) => envelope.as_request(),
            Err(e) => Err(e),
        }
    }
}

impl JsonrpcNotification {
    /// Parses a notification envelope from JSON text; see
    /// `JsonrpcRequest::from_str`.
    pub fn from_str(s: &str) -> (r: Result<JsonrpcNotification, RpcError>)
        ensures
            r matches Ok(n) ==> (parsed_json(s@) matches Some(v) && decode_accepts(v)
                && decode_ok(v) == Envelope::Notification(n)),
            parsed_json(s@) matches Some(v) ==> (decode_accepts(v) ==> (decode_ok(v) matches
            Envelope::Notification(n) ==> r == Ok::<_, RpcError>(n))),
            parsed_json(s@) is None ==> r is Err,
    {
        match Envelope::from_str(s) {
            Ok(envelope) => envelope.as_notification(),
            Err(e) => Err(e),
        }
    }
}

impl JsonrpcResponse {
    /// Parses a response envelope from JSON text; see
    /// `JsonrpcRequest::from_str`.
    pub fn from_str(s: &str) -> (r: Result<JsonrpcResponse, RpcError>)
        ensures
            r matches Ok(rs) ==> (parsed_json(s@) matches Some(v) && decode_accepts(v)
                && decode_ok(v) == Envelope::Response(rs)),
            parsed_json(s@) matches Some(v) ==> (decode_accepts(v) ==> (decode_ok(v) matches
            Envelope::Response(rs) ==> r == Ok::<_, RpcError>(rs))),
            parsed_json(s@) is None ==> r is Err,
    {
        match Envelope::from_str(s) {
            Ok(envelope) => envelope.as_response(),
            Err(e) => Err(e),
        }
    }
}

impl JsonrpcError {
    /// Parses an error envelope from JSON text; see
    /// `JsonrpcRequest::from_str`.
    pub fn from_str(s: &str) -> (r: Result<JsonrpcError, RpcError>)
        ensures
            r matches Ok(er) ==> (parsed_json(s@) matches Some(v) && decode_accepts(v)
                && decode_ok(v) == Envelope::Error(er)),
            parsed_json(s@) matches Some(v) ==> (decode_accepts(v) ==> (decode_ok(v) matches
            Envelope::Error(er) ==> r == Ok::<_, RpcError>(er))),
            parsed_json(s@) is None ==> r is Err,
    {
        match Envelope::from_str(s) {
            Ok(envelope) => envelope.as_error(),
            Err(e) => Err(e),
        }
    }
}

impl RpcError {
    /// Parses a bare error value (code, message, optional data) from
    /// JSON text.
    pub fn from_str(s: &str) -> (r: Result<RpcError, RpcError>)
        ensures
            parsed_json(s@) is None ==> (r matches Err(e) && e.code == -32700),
            parsed_json(s@) matches Some(v) ==> {
                &&& (r is Ok <==> error_object_ok(v))
                &&& (r matches Ok(err) ==> err == spec_error_object(v))
            },
    {
        match parse_text(s) {
            Some(v) => decode_error_object(v),
            None => Err(RpcError::parse_error()),
        }
    }

    /// Renders the bare error value as JSON text.
    pub fn to_string(self) -> (r: String)
        ensures
            exists|v: JsonValue| #[trigger] encodes_error_object(self, v) && r@ == rendered_json(
                v,
            ),
    {
        let ghost this = self;
        let v = error_to_json(self);
        let r = render_text(&v);
        proof {
            assert(encodes_error_object(this, v) && r@ == rendered_json(v));
        }
        r
    }
}

impl MessageBatch {
    /// Parses a single message or a batch from JSON text; see
    /// `MessageBatch::deserialize` for the accepted documents.
    pub fn from_str(s: &str) -> (r: Result<MessageBatch, RpcError>)
        ensures
            parsed_json(s@) is None ==> (r matches Err(e) && e.code == -32700),
            parsed_json(s@) matches Some(v) ==> {
                &&& (r is Ok <==> batch_decode_accepts(v))
                &&& (v is Object ==> (r matches Ok(b) ==> b == MessageBatch::Single(
                    decode_ok(v),
                )))
                &&& (v matches JsonValue::Array(items) ==> (r matches Ok(b) ==> (b matches
                MessageBatch::Batch(out) && out@.len() == items@.len() && forall|i: int|
                    0 <= i < items@.len() ==> out@[i] == decode_ok(#[trigger] items@[i]))))
            },
    {
        match parse_text(s) {
            Some(v) => MessageBatch::deserialize(v),
            None => Err(RpcError::parse_error()),
        }
    }

    /// Renders the batch as JSON text: the text of some document that
    /// `serialize` may produce for it.
    pub fn to_string(self) -> (r: String)
        ensures
            exists|v: JsonValue|
                #[trigger] crate::batch::encodes_batch(self, v) && r@ == rendered_json(v),
    {
        let ghost this = self;
        let v = self.serialize();
        let r = render_text(&v);
        proof {
            assert(crate::batch::encodes_batch(this, v) && r@ == rendered_json(v));
        }
        r
    }
}

} // verus!
