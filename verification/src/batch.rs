//! Single messages against ordered batches.
//!
//! The wire may carry one envelope object or an array of them.  The
//! wrapper keeps the order, narrows with descriptive arity errors, and
//! reports whether a reply is owed (whether any element is a request).

use vstd::prelude::*;

use crate::classifier::MessageTypes;
use crate::codec::{decode_accepts, decode_ok, encodes};
use crate::envelope::{Envelope, McpMessage};
use crate::error::{RpcError, SdkError};
use crate::json::JsonValue;

verus! {

/// One envelope, or an ordered batch of envelopes.
#[derive(Debug, PartialEq, Eq)]
pub enum MessageBatch {
    Single(Envelope),
    Batch(Vec<Envelope>),
}

/// `v` is a document that `serialize` may produce for the batch `b`:
/// the envelope's own object for a single message, else the array of
/// the envelopes' objects, in order.
pub open spec fn encodes_batch(b: MessageBatch, v: JsonValue) -> bool {
    match b {
        MessageBatch::Single(e) => encodes(e, v),
        MessageBatch::Batch(msgs) => v matches JsonValue::Array(items) && {
            &&& items@.len() == msgs@.len()
            &&& forall|i: int| 0 <= i < msgs@.len() ==> encodes(msgs@[i], #[trigger] items@[i])
        },
    }
}

/// The documents the batch decoder accepts: an accepted envelope
/// object, or an array all of whose elements are accepted.
pub open spec fn batch_decode_accepts(v: JsonValue) -> bool {
    match v {
        JsonValue::Array(items) => forall|i: int|
            0 <= i < items@.len() ==> decode_accepts(#[trigger] items@[i]),
        JsonValue::Object(_) => decode_accepts(v),
        _ => false,
    }
}

impl MessageBatch {
    /// Whether this wrapper holds a batch rather than a single message.
    pub fn is_batch(&self) -> (r: bool)
        ensures
            r == (self is Batch),
    {
        matches!(self, MessageBatch::Batch(_))
    }

    /// Whether a request is among the messages: true for a single
    /// request, and for a batch holding at least one request.
    pub open spec fn spec_includes_request(self) -> bool {
        match self {
            MessageBatch::Single(e) => e.message_kind() == MessageTypes::Request,
            MessageBatch::Batch(msgs) => exists|i: int|
                0 <= i < msgs@.len() && (#[trigger] msgs@[i]).message_kind()
                    == MessageTypes::Request,
        }
    }

    /// Reports whether any (or the sole) element is a request, so the
    /// transport knows whether a reply is owed.
    #[verifier::loop_isolation(false)]
    pub fn includes_request(&self) -> (r: bool)
        ensures
            r == self.spec_includes_request(),
    {
        match self {
            MessageBatch::Single(e) => e.is_request(),
            MessageBatch::Batch(msgs) => {
                let mut i: usize = 0;
                while i < msgs.len()
                    invariant
                        0 <= i <= msgs@.len(),
                        forall|j: int|
                            0 <= j < i ==> (#[trigger] msgs@[j]).message_kind()
                                != MessageTypes::Request,
                    decreases msgs@.len() - i,
                {
                    if msgs[i].is_request() {
                        proof {
                            assert(msgs@[i as int].message_kind() == MessageTypes::Request);
                        }
                        return true;
                    }
                    i = i + 1;
                }
                false
            },
        }
    }

    /// Narrows to the single message; a batch fails with a descriptive
    /// arity error.
    pub fn as_single(self) -> (r: Result<Envelope, SdkError>)
        ensures
            match self {
                MessageBatch::Single(m) => r == Ok::<Envelope, SdkError>(m),
                MessageBatch::Batch(_) => r matches Err(e) && e.code == -32603 && e.message@
                    == "Error: cannot convert MessageBatch::Batch to MessageBatch::Single"@,
            },
    {
        match self {
            MessageBatch::Single(m) => Ok(m),
            MessageBatch::Batch(_) => Err(
                SdkError::internal_error().with_message(
                    "Error: cannot convert MessageBatch::Batch to MessageBatch::Single",
                ),
            ),
        }
    }

    /// Narrows to the batch; a single message fails with a descriptive
    /// arity error.
    pub fn as_batch(self) -> (r: Result<Vec<Envelope>, SdkError>)
        ensures
            match self {
                MessageBatch::Batch(msgs) => r == Ok::<Vec<Envelope>, SdkError>(msgs),
                MessageBatch::Single(_) => r matches Err(e) && e.code == -32603 && e.message@
                    == "Error: cannot convert MessageBatch::Single to MessageBatch::Batch"@,
            },
    {
        match self {
            MessageBatch::Batch(msgs) => Ok(msgs),
            MessageBatch::Single(_) => Err(
                SdkError::internal_error().with_message(
                    "Error: cannot convert MessageBatch::Single to MessageBatch::Batch",
                ),
            ),
        }
    }

    /// Lays the batch out as wire JSON: the envelope's object, or the
    /// array of envelope objects in order.
    pub fn serialize(self) -> (r: JsonValue)
        ensures
            encodes_batch(self, r),
    {
        match self {
            MessageBatch::Single(e) => e.serialize(),
            MessageBatch::Batch(mut msgs) => {
                let ghost orig = msgs@;
                let mut items: Vec<JsonValue> = Vec::new();
                while msgs.len() > 0
                    invariant
                        items@.len() + msgs@.len() == orig.len(),
                        msgs@ == orig.subrange(items@.len() as int, orig.len() as int),
                        forall|i: int|
                            0 <= i < items@.len() ==> encodes(orig[i], #[trigger] items@[i]),
                    decreases msgs@.len(),
                {
                    let ghost k = items@.len() as int;
                    let e = msgs.remove(0);
                    proof {
                        assert(e == orig[k]);
                        assert(msgs@ =~= orig.subrange(k + 1, orig.len() as int));
                    }
                    items.push(e.serialize());
                }
                JsonValue::Array(items)
            },
        }
    }

    /// Reads a batch back from wire JSON: an object decodes as a single
    /// envelope, an array element by element in order; the first
    /// element rejection is reported as-is.
    #[verifier::loop_isolation(false)]
    pub fn deserialize(v: JsonValue) -> (r: Result<MessageBatch, RpcError>)
        ensures
            r is Ok <==> batch_decode_accepts(v),
            v is Object ==> (r matches Ok(b) ==> b == MessageBatch::Single(decode_ok(v))),
            v matches JsonValue::Array(items) ==> (r matches Ok(b) ==> (b matches
                MessageBatch::Batch(out) && out@.len() == items@.len() && forall|i: int|
                0 <= i < items@.len() ==> out@[i] == decode_ok(#[trigger] items@[i]))),
            (!(v is Object) && !(v is Array)) ==> (r matches Err(e) && e.code == -32700),
    {
        let ghost gv = v;
        match v {
            JsonValue::Array(mut items) => {
                let ghost orig = items@;
                proof {
                    assert(gv == JsonValue::Array(items));
                }
                let mut out: Vec<Envelope> = Vec::new();
                while items.len() > 0
                    invariant
                        out@.len() + items@.len() == orig.len(),
                        items@ == orig.subrange(out@.len() as int, orig.len() as int),
                        forall|i: int|
                            0 <= i < out@.len() ==> decode_accepts(#[trigger] orig[i]),
                        forall|i: int|
                            0 <= i < out@.len() ==> out@[i] == decode_ok(#[trigger] orig[i]),
                    decreases items@.len(),
                {
                    let ghost k = out@.len() as int;
                    let item = items.remove(0);
                    proof {
                        assert(item == orig[k]);
                        assert(items@ =~= orig.subrange(k + 1, orig.len() as int));
                    }
                    match Envelope::deserialize(item) {
                        Ok(e) => out.push(e),
                        Err(err) => {
                            proof {
                                assert(!decode_accepts(orig[k]));
                                assert(!batch_decode_accepts(gv));
                            }
                            return Err(err);
                        },
                    }
                }
                Ok(MessageBatch::Batch(out))
            },
            other => {
                proof {
                    assert(gv == other);
                }
                match Envelope::deserialize(other) {
                    Ok(e) => Ok(MessageBatch::Single(e)),
                    Err(err) => Err(err),
                }
            },
        }
    }
}

/// Law: the batch codec round-trips.  Any document that the batch
/// `serialize` may produce is accepted by the batch decoder and decodes
/// back to the same single message, or to the same messages in the same
/// order.
pub proof fn lemma_batch_serialize_round_trip(b: MessageBatch, v: JsonValue)
    requires
        encodes_batch(b, v),
    ensures
        batch_decode_accepts(v),
        b matches MessageBatch::Single(e) ==> decode_ok(v) == e,
        b matches MessageBatch::Batch(msgs) ==> (v matches JsonValue::Array(items) && items@.len()
            == msgs@.len() && forall|i: int|
            0 <= i < msgs@.len() ==> decode_ok(#[trigger] items@[i]) == msgs@[i]),
{
    match b {
        MessageBatch::Single(e) => {
            crate::codec::lemma_serialize_round_trip(e, v);
        },
        MessageBatch::Batch(msgs) => {
            match v {
                JsonValue::Array(items) => {
                    assert forall|i: int| 0 <= i < msgs@.len() implies decode_accepts(
                        #[trigger] items@[i],
                    ) && decode_ok(items@[i]) == msgs@[i] by {
                        crate::codec::lemma_serialize_round_trip(msgs@[i], items@[i]);
                    }
                },
                _ => {},
            }
        },
    }
}

impl From<Envelope> for MessageBatch {
    fn from(value: Envelope) -> MessageBatch {
        MessageBatch::Single(value)
    }
}

impl vstd::std_specs::convert::FromSpecImpl<Envelope> for MessageBatch {
    open spec fn obeys_from_spec() -> bool {
        true
    }

    open spec fn from_spec(v: Envelope) -> MessageBatch {
        MessageBatch::Single(v)
    }
}

impl From<Vec<Envelope>> for MessageBatch {
    fn from(value: Vec<Envelope>) -> MessageBatch {
        MessageBatch::Batch(value)
    }
}

impl vstd::std_specs::convert::FromSpecImpl<Vec<Envelope>> for MessageBatch {
    open spec fn obeys_from_spec() -> bool {
        true
    }

    open spec fn from_spec(v: Vec<Envelope>) -> MessageBatch {
        MessageBatch::Batch(v)
    }
}

} // verus!
