//! Envelope and schema-resolution layer for a JSON-RPC based protocol.
//!
//! The crate models the wire level of the protocol: it classifies an
//! incoming JSON document into one of the four JSON-RPC message kinds,
//! resolves a payload against a closed vocabulary of known shapes with a
//! deterministic fallback to an opaque custom value, and builds and takes
//! apart the four envelope shapes while enforcing the id-presence rules.
//!
//! The modules, from the bottom up: `json` holds the document model
//! and field access; `classifier` sorts a document into a message
//! kind; `error` is the fixed error taxonomy; `envelope` builds and
//! narrows the four envelope shapes; `codec` lays envelopes out as
//! documents and reads them back, and proves that classification and
//! decoding reproduce what was serialized; `batch` wraps one message
//! or an ordered batch; `resolver` matches payloads against a
//! vocabulary table; `version` is the closed set of protocol
//! revisions; `call_tool` carries tool-call failures; and `text` is the
//! trusted boundary to JSON text.

mod batch;
mod call_tool;
mod classifier;
mod codec;
mod envelope;
mod error;
mod json;
mod resolver;
mod text;
mod version;

pub use batch::{
    batch_decode_accepts, encodes_batch, lemma_batch_serialize_round_trip, MessageBatch,
};
pub use call_tool::{is_blank_char, trimmed, CallToolError, UnknownTool};
pub use classifier::{classify_spec, detect_message_type, kind_name, MessageTypes};
pub use codec::{
    allowed_keys, decode_accepts, decode_ok, encodes, encodes_error_object, entry_is,
    error_object_ok, field_or_null, id_json, id_of_json, jsonrpc_ok, keys_within,
    lemma_serialize_classifies, lemma_serialize_round_trip, method_is_text, names_const_mismatch,
    spec_error_object, spec_id, spec_method, text_entry_is, valid_id,
};
pub use envelope::{
    names_kind_mismatch, Envelope, FromMessage, JsonrpcError, JsonrpcNotification, JsonrpcRequest,
    JsonrpcResponse, McpMessage, MessagePayload, RequestId, RpcMessage, ToMessage,
};
pub use error::{RpcError, RpcErrorCodes, SdkError, SdkErrorCodes};
pub use json::{find, has_key, lookup, take_first, JsonValue};
pub use resolver::{
    client_notification_methods, client_notification_vocabulary, client_request_methods,
    client_request_vocabulary, constant_holds, first_match, is_method_vocabulary, resolve,
    server_notification_methods, server_notification_vocabulary, server_request_methods,
    server_request_vocabulary, shape_matches, ResolvedPayload, Shape, Vocabulary,
};
pub use text::{parsed_json, rendered_json};
pub use version::{version_name, ParseProtocolVersionError, ProtocolVersion};
