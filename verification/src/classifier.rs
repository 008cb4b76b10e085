//! Message-kind classification.
//!
//! An incoming JSON document is sorted into one of the four JSON-RPC
//! message kinds by looking only at which top-level fields are present,
//! in a strict precedence: an `id` beside an `error` object marks an
//! error, an `id` beside a `result` (and no `method`) marks a response,
//! an `id` beside a `method` marks a request, a `method` alone marks a
//! notification, and anything else falls back to the request kind.

use vstd::prelude::*;

use crate::json::{has_key, JsonValue};
use crate::json::find;

verus! {

/// The four JSON-RPC message kinds.
#[derive(Debug, Clone, Copy, PartialEq, Eq, Structural)]
pub enum MessageTypes {
    Request,
    Response,
    Notification,
    Error,
}

/// The display name of a message kind.
pub open spec fn kind_name(kind: MessageTypes) -> Seq<char> {
    match kind {
        MessageTypes::Request => "Request"@,
        MessageTypes::Response => "Response"@,
        MessageTypes::Notification => "Notification"@,
        MessageTypes::Error => "Error"@,
    }
}

impl MessageTypes {
    /// The kind as a human-readable string.
    pub fn to_string(&self) -> (r: String)
        ensures
            r@ == kind_name(*self),
    {
        match self {
            MessageTypes::Request => "Request".to_owned(),
            MessageTypes::Response => "Response".to_owned(),
            MessageTypes::Notification => "Notification".to_owned(),
            MessageTypes::Error => "Error".to_owned(),
        }
    }
}

/// The classification rule, written over field presence alone.  The five
/// arms are tried in order; a document that is no object at all carries no
/// fields and falls through to the default arm.
pub open spec fn classify_spec(v: JsonValue) -> MessageTypes {
    if has_key(v, "id"@) && has_key(v, "error"@) {
        MessageTypes::Error
    } else if has_key(v, "id"@) && has_key(v, "result"@) && !has_key(v, "method"@) {
        MessageTypes::Response
    } else if has_key(v, "id"@) && has_key(v, "method"@) {
        MessageTypes::Request
    } else if !has_key(v, "id"@) && has_key(v, "method"@) {
        MessageTypes::Notification
    } else {
        MessageTypes::Request
    }
}

/// Detects the message kind of a raw JSON document.  Total: an empty or
/// ambiguous object is reported as a request, never rejected.
pub fn detect_message_type(value: &JsonValue) -> (r: MessageTypes)
    ensures
        r == classify_spec(*value),
{
    match value {
        JsonValue::Object(entries) => {
            let id_present = find(entries, "id").is_some();
            if id_present && find(entries, "error").is_some() {
                return MessageTypes::Error;
            }
            let method_present = find(entries, "method").is_some();
            let result_present = find(entries, "result").is_some();
            if id_present {
                if result_present && !method_present {
                    MessageTypes::Response
                } else if method_present {
                    MessageTypes::Request
                } else {
                    MessageTypes::Request
                }
            } else if method_present {
                MessageTypes::Notification
            } else {
                MessageTypes::Request
            }
        },
        _ => MessageTypes::Request,
    }
}

} // verus!
