//! The wire codec: between envelopes and JSON documents.
//!
//! `serialize` lays an envelope out as the canonical JSON object for its
//! kind; `deserialize` classifies a document and reads the envelope back,
//! rejecting a missing or wrong `jsonrpc` marker with an error that names
//! the field, the expected and the actual value.  The two directions are
//! tied together by `lemma_serialize_classifies` and
//! `lemma_serialize_round_trip` below.

use vstd::prelude::*;

use crate::classifier::{classify_spec, detect_message_type, MessageTypes};
use crate::envelope::{
    Envelope, JsonrpcError, JsonrpcNotification, JsonrpcRequest, JsonrpcResponse, McpMessage,
    RequestId,
};
use crate::error::RpcError;
use crate::json::{find, lemma_lookup_at_first_match, lemma_lookup_no_match, lookup, take_first, JsonValue};

verus! {

/// The JSON form of a correlation id.
pub open spec fn id_json(id: RequestId) -> JsonValue {
    match id {
        RequestId::Integer(n) => JsonValue::Number(n),
        RequestId::Str(s) => JsonValue::Text(s),
    }
}

/// The correlation id a JSON value stands for, if it is a well-formed id.
pub open spec fn id_of_json(v: JsonValue) -> Option<RequestId> {
    match v {
        JsonValue::Number(n) => Some(RequestId::Integer(n)),
        JsonValue::Text(s) => Some(RequestId::Str(s)),
        _ => None,
    }
}

/// The object entry `e` is named `key` and holds exactly `value`.
pub open spec fn entry_is(e: (String, JsonValue), key: Seq<char>, value: JsonValue) -> bool {
    e.0@ == key && e.1 == value
}

/// The object entry `e` is named `key` and holds a text reading `value`.
pub open spec fn text_entry_is(e: (String, JsonValue), key: Seq<char>, value: Seq<char>) -> bool {
    e.0@ == key && (e.1 matches JsonValue::Text(t) && t@ == value)
}

/// `v` is the canonical JSON object for the error value `err`: code and
/// message always, a data entry exactly when the error carries data.
pub open spec fn encodes_error_object(err: RpcError, v: JsonValue) -> bool {
    v matches JsonValue::Object(entries) && {
        &&& entries@.len() == if err.data is Some {
            3int
        } else {
            2int
        }
        &&& entry_is(entries@[0], "code"@, JsonValue::Number(err.code))
        &&& entry_is(entries@[1], "message"@, JsonValue::Text(err.message))
        &&& (err.data matches Some(d) ==> entry_is(entries@[2], "data"@, d))
    }
}

/// `v` is the canonical JSON object for the envelope `e`: the exact
/// fields of its kind, in serialization order, nothing else.
pub open spec fn encodes(e: Envelope, v: JsonValue) -> bool {
    match e {
        Envelope::Request(rq) => v matches JsonValue::Object(en) && {
            &&& en@.len() == 4
            &&& entry_is(en@[0], "id"@, id_json(rq.id))
            &&& text_entry_is(en@[1], "jsonrpc"@, "2.0"@)
            &&& entry_is(en@[2], "method"@, JsonValue::Text(rq.method))
            &&& entry_is(en@[3], "params"@, rq.params)
        },
        Envelope::Notification(n) => v matches JsonValue::Object(en) && {
            &&& en@.len() == 3
            &&& text_entry_is(en@[0], "jsonrpc"@, "2.0"@)
            &&& entry_is(en@[1], "method"@, JsonValue::Text(n.method))
            &&& entry_is(en@[2], "params"@, n.params)
        },
        Envelope::Response(rs) => v matches JsonValue::Object(en) && {
            &&& en@.len() == 3
            &&& entry_is(en@[0], "id"@, id_json(rs.id))
            &&& text_entry_is(en@[1], "jsonrpc"@, "2.0"@)
            &&& entry_is(en@[2], "result"@, rs.result)
        },
        Envelope::Error(er) => v matches JsonValue::Object(en) && {
            &&& en@.len() == 3
            &&& entry_is(en@[0], "id"@, id_json(er.id))
            &&& text_entry_is(en@[1], "jsonrpc"@, "2.0"@)
            &&& en@[2].0@ == "error"@
            &&& encodes_error_object(er.error, en@[2].1)
        },
    }
}

fn id_to_json(id: RequestId) -> (r: JsonValue)
    ensures
        r == id_json(id),
{
    match id {
        RequestId::Integer(n) => JsonValue::Number(n),
        RequestId::Str(s) => JsonValue::Text(s),
    }
}

pub(crate) fn error_to_json(err: RpcError) -> (r: JsonValue)
    ensures
        encodes_error_object(err, r),
{
    let RpcError { code, message, data } = err;
    let mut entries: Vec<(String, JsonValue)> = Vec::new();
    entries.push(("code".to_owned(), JsonValue::Number(code)));
    entries.push(("message".to_owned(), JsonValue::Text(message)));
    match data {
        Some(d) => entries.push(("data".to_owned(), d)),
        None => {},
    }
    JsonValue::Object(entries)
}

impl Envelope {
    /// Lays the envelope out as its canonical JSON object.  Consumes the
    /// envelope: the payload moves into the document untouched.
    pub fn serialize(self) -> (r: JsonValue)
        ensures
            encodes(self, r),
    {
        match self {
            Envelope::Request(rq) => {
                let JsonrpcRequest { id, method, params } = rq;
                let mut entries: Vec<(String, JsonValue)> = Vec::new();
                entries.push(("id".to_owned(), id_to_json(id)));
                entries.push(("jsonrpc".to_owned(), JsonValue::Text("2.0".to_owned())));
                entries.push(("method".to_owned(), JsonValue::Text(method)));
                entries.push(("params".to_owned(), params));
                JsonValue::Object(entries)
            },
            Envelope::Notification(n) => {
                let JsonrpcNotification { method, params } = n;
                let mut entries: Vec<(String, JsonValue)> = Vec::new();
                entries.push(("jsonrpc".to_owned(), JsonValue::Text("2.0".to_owned())));
                entries.push(("method".to_owned(), JsonValue::Text(method)));
                entries.push(("params".to_owned(), params));
                JsonValue::Object(entries)
            },
            Envelope::Response(rs) => {
                let JsonrpcResponse { id, result } = rs;
                let mut entries: Vec<(String, JsonValue)> = Vec::new();
                entries.push(("id".to_owned(), id_to_json(id)));
                entries.push(("jsonrpc".to_owned(), JsonValue::Text("2.0".to_owned())));
                entries.push(("result".to_owned(), result));
                JsonValue::Object(entries)
            },
            Envelope::Error(er) => {
                let JsonrpcError { id, error } = er;
                let mut entries: Vec<(String, JsonValue)> = Vec::new();
                entries.push(("id".to_owned(), id_to_json(id)));
                entries.push(("jsonrpc".to_owned(), JsonValue::Text("2.0".to_owned())));
                entries.push(("error".to_owned(), error_to_json(error)));
                JsonValue::Object(entries)
            },
        }
    }
}

/// The field named `key`, or `Null` where the object has no such field.
pub open spec fn field_or_null(entries: Seq<(String, JsonValue)>, key: Seq<char>) -> JsonValue {
    match lookup(entries, key) {
        Some(v) => v,
        None => JsonValue::Null,
    }
}

/// The document carries the fixed protocol marker `"jsonrpc": "2.0"`.
pub open spec fn jsonrpc_ok(entries: Seq<(String, JsonValue)>) -> bool {
    lookup(entries, "jsonrpc"@) matches Some(JsonValue::Text(t)) && t@ == "2.0"@
}

/// The document carries a well-formed correlation id.
pub open spec fn valid_id(entries: Seq<(String, JsonValue)>) -> bool {
    lookup(entries, "id"@) matches Some(x) && id_of_json(x) is Some
}

/// The correlation id the document carries.
pub open spec fn spec_id(entries: Seq<(String, JsonValue)>) -> RequestId
    recommends
        valid_id(entries),
{
    match id_of_json(field_or_null(entries, "id"@)) {
        Some(id) => id,
        None => RequestId::Integer(0),
    }
}

/// The document's `method` field is present and is a string.
pub open spec fn method_is_text(entries: Seq<(String, JsonValue)>) -> bool {
    lookup(entries, "method"@) matches Some(JsonValue::Text(_))
}

/// The document's method name.
pub open spec fn spec_method(entries: Seq<(String, JsonValue)>) -> String
    recommends
        method_is_text(entries),
{
    match lookup(entries, "method"@) {
        Some(JsonValue::Text(m)) => m,
        _ => arbitrary(),
    }
}

/// `v` is an object that can be read as an error value: an integer code
/// and a text message; data stays optional and opaque.
pub open spec fn error_object_ok(v: JsonValue) -> bool {
    v matches JsonValue::Object(en) && {
        &&& lookup(en@, "code"@) matches Some(JsonValue::Number(_))
        &&& lookup(en@, "message"@) matches Some(JsonValue::Text(_))
    }
}

/// The error value a well-formed error object holds.
pub open spec fn spec_error_object(v: JsonValue) -> RpcError
    recommends
        error_object_ok(v),
{
    match v {
        JsonValue::Object(en) => RpcError {
            code: match lookup(en@, "code"@) {
                Some(JsonValue::Number(c)) => c,
                _ => 0i64,
            },
            message: match lookup(en@, "message"@) {
                Some(JsonValue::Text(m)) => m,
                _ => arbitrary(),
            },
            data: lookup(en@, "data"@),
        },
        _ => arbitrary(),
    }
}

/// The top-level fields an envelope of the given kind may carry.
pub open spec fn allowed_keys(kind: MessageTypes) -> Seq<Seq<char>> {
    match kind {
        MessageTypes::Request => seq!["id"@, "jsonrpc"@, "method"@, "params"@],
        MessageTypes::Notification => seq!["jsonrpc"@, "method"@, "params"@],
        MessageTypes::Response => seq!["id"@, "jsonrpc"@, "result"@],
        MessageTypes::Error => seq!["id"@, "jsonrpc"@, "error"@],
    }
}

/// Every key of the object is one of the allowed names.
pub open spec fn keys_within(entries: Seq<(String, JsonValue)>, allowed: Seq<Seq<char>>) -> bool {
    forall|i: int| 0 <= i < entries.len() ==> allowed.contains(#[trigger] entries[i].0@)
}

/// The documents that `deserialize` accepts: an object with the right
/// marker, no stray fields for its kind, and the fields its kind needs.
pub open spec fn decode_accepts(v: JsonValue) -> bool {
    v matches JsonValue::Object(en) && {
        &&& jsonrpc_ok(en@)
        &&& keys_within(en@, allowed_keys(classify_spec(v)))
        &&& match classify_spec(v) {
            MessageTypes::Error => valid_id(en@) && error_object_ok(
                field_or_null(en@, "error"@),
            ),
            MessageTypes::Response => valid_id(en@),
            MessageTypes::Request => valid_id(en@) && method_is_text(en@),
            MessageTypes::Notification => method_is_text(en@),
        }
    }
}

/// The envelope an accepted document decodes to.
pub open spec fn decode_ok(v: JsonValue) -> Envelope
    recommends
        decode_accepts(v),
{
    match v {
        JsonValue::Object(en) => match classify_spec(v) {
            MessageTypes::Error => Envelope::Error(
                JsonrpcError {
                    id: spec_id(en@),
                    error: spec_error_object(field_or_null(en@, "error"@)),
                },
            ),
            MessageTypes::Response => Envelope::Response(
                JsonrpcResponse { id: spec_id(en@), result: field_or_null(en@, "result"@) },
            ),
            MessageTypes::Request => Envelope::Request(
                JsonrpcRequest {
                    id: spec_id(en@),
                    method: spec_method(en@),
                    params: field_or_null(en@, "params"@),
                },
            ),
            MessageTypes::Notification => Envelope::Notification(
                JsonrpcNotification {
                    method: spec_method(en@),
                    params: field_or_null(en@, "params"@),
                },
            ),
        },
        _ => arbitrary(),
    }
}

/// Law: classification reproduces the kind.  Any document that
/// `serialize` may produce for an envelope classifies back to the
/// envelope's own kind, for each of the four kinds.
pub proof fn lemma_serialize_classifies(e: Envelope, v: JsonValue)
    requires
        encodes(e, v),
    ensures
        classify_spec(v) == e.message_kind(),
{
    lemma_wire_literals();
    match e {
        Envelope::Request(_) => lemma_encoded_lookups_request(e, v),
        Envelope::Notification(_) => lemma_encoded_lookups_notification(e, v),
        Envelope::Response(_) => lemma_encoded_lookups_response(e, v),
        Envelope::Error(_) => lemma_encoded_lookups_error(e, v),
    }
}

/// Law: the codec round-trips.  Any document that `serialize` may
/// produce for an envelope is accepted by `deserialize` and decodes to
/// the same envelope, field for field, for each of the four kinds.
pub proof fn lemma_serialize_round_trip(e: Envelope, v: JsonValue)
    requires
        encodes(e, v),
    ensures
        decode_accepts(v),
        decode_ok(v) == e,
{
    lemma_wire_literals();
    lemma_serialize_classifies(e, v);
    match e {
        Envelope::Request(rq) => {
            lemma_encoded_lookups_request(e, v);
            let en = encoded_entries(v);
            assert(keys_within(en, allowed_keys(MessageTypes::Request))) by {
                assert forall|i: int| 0 <= i < en.len() implies allowed_keys(
                    MessageTypes::Request,
                ).contains(#[trigger] en[i].0@) by {
                    if i == 0 {
                        assert(allowed_keys(MessageTypes::Request)[0] == "id"@);
                    } else if i == 1 {
                        assert(allowed_keys(MessageTypes::Request)[1] == "jsonrpc"@);
                    } else if i == 2 {
                        assert(allowed_keys(MessageTypes::Request)[2] == "method"@);
                    } else {
                        assert(allowed_keys(MessageTypes::Request)[3] == "params"@);
                    }
                }
            }
            match rq.id {
                RequestId::Integer(n) => {},
                RequestId::Str(s) => {},
            }
        },
        Envelope::Notification(n) => {
            lemma_encoded_lookups_notification(e, v);
            let en = encoded_entries(v);
            assert(keys_within(en, allowed_keys(MessageTypes::Notification))) by {
                assert forall|i: int| 0 <= i < en.len() implies allowed_keys(
                    MessageTypes::Notification,
                ).contains(#[trigger] en[i].0@) by {
                    if i == 0 {
                        assert(allowed_keys(MessageTypes::Notification)[0] == "jsonrpc"@);
                    } else if i == 1 {
                        assert(allowed_keys(MessageTypes::Notification)[1] == "method"@);
                    } else {
                        assert(allowed_keys(MessageTypes::Notification)[2] == "params"@);
                    }
                }
            }
        },
        Envelope::Response(rs) => {
            lemma_encoded_lookups_response(e, v);
            let en = encoded_entries(v);
            assert(keys_within(en, allowed_keys(MessageTypes::Response))) by {
                assert forall|i: int| 0 <= i < en.len() implies allowed_keys(
                    MessageTypes::Response,
                ).contains(#[trigger] en[i].0@) by {
                    if i == 0 {
                        assert(allowed_keys(MessageTypes::Response)[0] == "id"@);
                    } else if i == 1 {
                        assert(allowed_keys(MessageTypes::Response)[1] == "jsonrpc"@);
                    } else {
                        assert(allowed_keys(MessageTypes::Response)[2] == "result"@);
                    }
                }
            }
            match rs.id {
                RequestId::Integer(n) => {},
                RequestId::Str(s) => {},
            }
        },
        Envelope::Error(er) => {
            lemma_encoded_lookups_error(e, v);
            let en = encoded_entries(v);
            assert(keys_within(en, allowed_keys(MessageTypes::Error))) by {
                assert forall|i: int| 0 <= i < en.len() implies allowed_keys(
                    MessageTypes::Error,
                ).contains(#[trigger] en[i].0@) by {
                    if i == 0 {
                        assert(allowed_keys(MessageTypes::Error)[0] == "id"@);
                    } else if i == 1 {
                        assert(allowed_keys(MessageTypes::Error)[1] == "jsonrpc"@);
                    } else {
                        assert(allowed_keys(MessageTypes::Error)[2] == "error"@);
                    }
                }
            }
            match er.id {
                RequestId::Integer(n) => {},
                RequestId::Str(s) => {},
            }
            lemma_encoded_error_object_lookups(er.error, field_or_null(en, "error"@));
        },
    }
}

/// The entries of an encoded document (which is always an object).
spec fn encoded_entries(v: JsonValue) -> Seq<(String, JsonValue)> {
    match v {
        JsonValue::Object(en) => en@,
        _ => arbitrary(),
    }
}

proof fn lemma_encoded_lookups_request(e: Envelope, v: JsonValue)
    requires
        encodes(e, v),
        e is Request,
    ensures
        encoded_entries(v).len() == 4,
        lookup(encoded_entries(v), "id"@) == Some(id_json(e->Request_0.id)),
        lookup(encoded_entries(v), "jsonrpc"@) == Some(encoded_entries(v)[1].1),
        encoded_entries(v)[1].1 matches JsonValue::Text(t) && t@ == "2.0"@,
        lookup(encoded_entries(v), "method"@) == Some(
            JsonValue::Text(e->Request_0.method),
        ),
        lookup(encoded_entries(v), "params"@) == Some(e->Request_0.params),
        lookup(encoded_entries(v), "result"@) is None,
        lookup(encoded_entries(v), "error"@) is None,
{
    lemma_wire_literals();
    let en = encoded_entries(v);
    lemma_lookup_at_first_match(en, "id"@, 0);
    lemma_lookup_at_first_match(en, "jsonrpc"@, 1);
    lemma_lookup_at_first_match(en, "method"@, 2);
    lemma_lookup_at_first_match(en, "params"@, 3);
    lemma_lookup_no_match(en, "result"@);
    lemma_lookup_no_match(en, "error"@);
}

proof fn lemma_encoded_lookups_notification(e: Envelope, v: JsonValue)
    requires
        encodes(e, v),
        e is Notification,
    ensures
        encoded_entries(v).len() == 3,
        lookup(encoded_entries(v), "jsonrpc"@) == Some(encoded_entries(v)[0].1),
        encoded_entries(v)[0].1 matches JsonValue::Text(t) && t@ == "2.0"@,
        lookup(encoded_entries(v), "method"@) == Some(
            JsonValue::Text(e->Notification_0.method),
        ),
        lookup(encoded_entries(v), "params"@) == Some(e->Notification_0.params),
        lookup(encoded_entries(v), "id"@) is None,
        lookup(encoded_entries(v), "result"@) is None,
        lookup(encoded_entries(v), "error"@) is None,
{
    lemma_wire_literals();
    let en = encoded_entries(v);
    lemma_lookup_at_first_match(en, "jsonrpc"@, 0);
    lemma_lookup_at_first_match(en, "method"@, 1);
    lemma_lookup_at_first_match(en, "params"@, 2);
    lemma_lookup_no_match(en, "id"@);
    lemma_lookup_no_match(en, "result"@);
    lemma_lookup_no_match(en, "error"@);
}

proof fn lemma_encoded_lookups_response(e: Envelope, v: JsonValue)
    requires
        encodes(e, v),
        e is Response,
    ensures
        encoded_entries(v).len() == 3,
        lookup(encoded_entries(v), "id"@) == Some(id_json(e->Response_0.id)),
        lookup(encoded_entries(v), "jsonrpc"@) == Some(encoded_entries(v)[1].1),
        encoded_entries(v)[1].1 matches JsonValue::Text(t) && t@ == "2.0"@,
        lookup(encoded_entries(v), "result"@) == Some(e->Response_0.result),
        lookup(encoded_entries(v), "method"@) is None,
        lookup(encoded_entries(v), "error"@) is None,
{
    lemma_wire_literals();
    let en = encoded_entries(v);
    lemma_lookup_at_first_match(en, "id"@, 0);
    lemma_lookup_at_first_match(en, "jsonrpc"@, 1);
    lemma_lookup_at_first_match(en, "result"@, 2);
    lemma_lookup_no_match(en, "method"@);
    lemma_lookup_no_match(en, "error"@);
}

proof fn lemma_encoded_lookups_error(e: Envelope, v: JsonValue)
    requires
        encodes(e, v),
        e is Error,
    ensures
        encoded_entries(v).len() == 3,
        lookup(encoded_entries(v), "id"@) == Some(id_json(e->Error_0.id)),
        lookup(encoded_entries(v), "jsonrpc"@) == Some(encoded_entries(v)[1].1),
        encoded_entries(v)[1].1 matches JsonValue::Text(t) && t@ == "2.0"@,
        lookup(encoded_entries(v), "error"@) == Some(encoded_entries(v)[2].1),
        encodes_error_object(e->Error_0.error, encoded_entries(v)[2].1),
        lookup(encoded_entries(v), "method"@) is None,
        lookup(encoded_entries(v), "result"@) is None,
{
    lemma_wire_literals();
    let en = encoded_entries(v);
    lemma_lookup_at_first_match(en, "id"@, 0);
    lemma_lookup_at_first_match(en, "jsonrpc"@, 1);
    lemma_lookup_at_first_match(en, "error"@, 2);
    lemma_lookup_no_match(en, "method"@);
    lemma_lookup_no_match(en, "result"@);
}

proof fn lemma_encoded_error_object_lookups(err: RpcError, v: JsonValue)
    requires
        encodes_error_object(err, v),
    ensures
        error_object_ok(v),
        spec_error_object(v) == err,
{
    lemma_wire_literals();
    let en = encoded_entries(v);
    lemma_lookup_at_first_match(en, "code"@, 0);
    lemma_lookup_at_first_match(en, "message"@, 1);
    match err.data {
        Some(d) => {
            lemma_lookup_at_first_match(en, "data"@, 2);
        },
        None => {
            lemma_lookup_no_match(en, "data"@);
        },
    }
}

/// The error reported for a constant field holding the wrong value: it
/// names the field, the expected constant and the actual value.
pub open spec fn names_const_mismatch(
    err: RpcError,
    field_name: Seq<char>,
    expected: Seq<char>,
    actual: JsonValue,
) -> bool {
    &&& err.code == -32600
    &&& err.message@ == "Invalid request"@
    &&& err.data matches Some(JsonValue::Object(den)) && {
        &&& den@.len() == 3
        &&& text_entry_is(den@[0], "field"@, field_name)
        &&& text_entry_is(den@[1], "expected"@, expected)
        &&& entry_is(den@[2], "actual"@, actual)
    }
}

fn const_mismatch_error(field_name: &str, expected: &str, actual: JsonValue) -> (r: RpcError)
    ensures
        names_const_mismatch(r, field_name@, expected@, actual),
{
    let mut den: Vec<(String, JsonValue)> = Vec::new();
    den.push(("field".to_owned(), JsonValue::Text(field_name.to_owned())));
    den.push(("expected".to_owned(), JsonValue::Text(expected.to_owned())));
    den.push(("actual".to_owned(), actual));
    RpcError::invalid_request().with_data(Some(JsonValue::Object(den)))
}

fn id_from_json(v: JsonValue) -> (r: Option<RequestId>)
    ensures
        r == id_of_json(v),
{
    match v {
        JsonValue::Number(n) => Some(RequestId::Integer(n)),
        JsonValue::Text(s) => Some(RequestId::Str(s)),
        _ => None,
    }
}

fn keys_all_within(entries: &Vec<(String, JsonValue)>, allowed: &Vec<String>) -> (r: bool)
    ensures
        r == keys_within(entries@, allowed@.map_values(|s: String| s@)),
{
    let ghost allowed_views = allowed@.map_values(|s: String| s@);
    let mut i: usize = 0;
    while i < entries.len()
        invariant
            0 <= i <= entries@.len(),
            allowed_views == allowed@.map_values(|s: String| s@),
            forall|k: int| 0 <= k < i ==> allowed_views.contains(#[trigger] entries@[k].0@),
        decreases entries@.len() - i,
    {
        let mut found = false;
        let mut j: usize = 0;
        while j < allowed.len()
            invariant
                0 <= j <= allowed@.len(),
                i < entries@.len(),
                allowed_views == allowed@.map_values(|s: String| s@),
                found ==> allowed_views.contains(entries@[i as int].0@),
                !found ==> forall|m: int|
                    0 <= m < j ==> allowed_views[m] != entries@[i as int].0@,
            decreases allowed@.len() - j,
        {
            if entries[i].0 == allowed[j] {
                proof {
                    assert(allowed_views[j as int] == entries@[i as int].0@);
                }
                found = true;
            }
            j = j + 1;
        }
        if !found {
            proof {
                assert(!allowed_views.contains(entries@[i as int].0@));
            }
            return false;
        }
        i = i + 1;
    }
    true
}

/// The top-level field names of the wire format are pairwise distinct.
/// Looking one of them up is therefore unaffected when another is taken
/// out of an object.
proof fn lemma_wire_literals()
    ensures
        "id"@.len() == 2,
        "jsonrpc"@.len() == 7,
        "method"@.len() == 6,
        "params"@.len() == 6,
        "result"@.len() == 6,
        "error"@.len() == 5,
        "code"@.len() == 4,
        "message"@.len() == 7,
        "data"@.len() == 4,
        "method"@ != "params"@,
        "method"@ != "result"@,
        "params"@ != "result"@,
        "code"@ != "data"@,
        "jsonrpc"@ != "message"@,
{
    reveal_strlit("id");
    reveal_strlit("jsonrpc");
    reveal_strlit("method");
    reveal_strlit("params");
    reveal_strlit("result");
    reveal_strlit("error");
    reveal_strlit("code");
    reveal_strlit("message");
    reveal_strlit("data");
    assert("method"@[0] == 'm' && "params"@[0] == 'p' && "result"@[0] == 'r');
    assert("code"@[0] == 'c' && "data"@[0] == 'd');
    assert("jsonrpc"@[0] == 'j' && "message"@[0] == 'm');
}

pub(crate) fn decode_error_object(v: JsonValue) -> (r: Result<RpcError, RpcError>)
    ensures
        r is Ok <==> error_object_ok(v),
        r matches Ok(err) ==> err == spec_error_object(v),
        r matches Err(e) ==> e.code == -32600,
{
    proof {
        lemma_wire_literals();
    }
    let ghost gv = v;
    let mut en = match v {
        JsonValue::Object(en) => en,
        _ => {
            return Err(RpcError::invalid_request());
        },
    };
    proof {
        assert(gv == JsonValue::Object(en));
    }
    let ghost gen = en@;
    let code = match take_first(&mut en, "code") {
        Some(JsonValue::Number(c)) => c,
        _ => {
            return Err(RpcError::invalid_request());
        },
    };
    proof {
        assert(lookup(gen, "code"@) == Some(JsonValue::Number(code)));
        assert(lookup(en@, "message"@) == lookup(gen, "message"@));
        assert(lookup(en@, "data"@) == lookup(gen, "data"@));
    }
    let message = match take_first(&mut en, "message") {
        Some(JsonValue::Text(m)) => m,
        _ => {
            return Err(RpcError::invalid_request());
        },
    };
    proof {
        assert(lookup(gen, "message"@) == Some(JsonValue::Text(message)));
        assert(lookup(en@, "data"@) == lookup(gen, "data"@));
    }
    let data = take_first(&mut en, "data");
    proof {
        assert(data == lookup(gen, "data"@));
        assert(error_object_ok(gv));
    }
    Ok(RpcError { code, message, data })
}

impl Envelope {
    /// Reads an envelope back out of a JSON document.  A document that is
    /// no object fails with a parse error; an object with a missing or
    /// wrong `jsonrpc` marker fails with an error naming the field, the
    /// expected and the actual value; any other rejection is an invalid
    /// request.
    pub fn deserialize(v: JsonValue) -> (r: Result<Envelope, RpcError>)
        ensures
            r is Ok <==> decode_accepts(v),
            r matches Ok(e) ==> e == decode_ok(v),
            !(v is Object) ==> (r matches Err(e) && e.code == -32700),
            v matches JsonValue::Object(en) ==> (!jsonrpc_ok(en@) ==> (r matches Err(e)
                && names_const_mismatch(e, "jsonrpc"@, "2.0"@, field_or_null(en@, "jsonrpc"@)))),
            (r is Err && v is Object) ==> (r matches Err(e) && e.code == -32600),
    {
        proof {
            lemma_wire_literals();
        }
        let kind = detect_message_type(&v);
        let ghost gv = v;
        let mut entries = match v {
            JsonValue::Object(en) => en,
            _ => {
                return Err(RpcError::parse_error());
            },
        };
        let ghost gen = entries@;
        proof {
            assert(gv == JsonValue::Object(entries));
        }
        // The fixed protocol marker must read "2.0".
        let expected_marker: String = "2.0".to_owned();
        let marker_good = match find(&entries, "jsonrpc") {
            Some(JsonValue::Text(t)) => *t == expected_marker,
            _ => false,
        };
        if !marker_good {
            let actual = match take_first(&mut entries, "jsonrpc") {
                Some(x) => x,
                None => JsonValue::Null,
            };
            return Err(const_mismatch_error("jsonrpc", "2.0", actual));
        }
        // No stray top-level fields for the classified kind.
        let allowed: Vec<String> = match kind {
            MessageTypes::Request => vec![
                "id".to_owned(),
                "jsonrpc".to_owned(),
                "method".to_owned(),
                "params".to_owned(),
            ],
            MessageTypes::Notification => vec![
                "jsonrpc".to_owned(),
                "method".to_owned(),
                "params".to_owned(),
            ],
            MessageTypes::Response => vec![
                "id".to_owned(),
                "jsonrpc".to_owned(),
                "result".to_owned(),
            ],
            MessageTypes::Error => vec![
                "id".to_owned(),
                "jsonrpc".to_owned(),
                "error".to_owned(),
            ],
        };
        proof {
            assert(allowed@.map_values(|s: String| s@) =~= allowed_keys(kind));
        }
        if !keys_all_within(&entries, &allowed) {
            return Err(RpcError::invalid_request());
        }
        match kind {
            MessageTypes::Error => {
                let id_value = match take_first(&mut entries, "id") {
                    Some(x) => x,
                    None => JsonValue::Null,
                };
                let id = match id_from_json(id_value) {
                    Some(i) => i,
                    None => {
                        return Err(RpcError::invalid_request());
                    },
                };
                let error_value = match take_first(&mut entries, "error") {
                    Some(x) => x,
                    None => {
                        return Err(RpcError::invalid_request());
                    },
                };
                let error = match decode_error_object(error_value) {
                    Ok(e) => e,
                    Err(e) => {
                        return Err(e);
                    },
                };
                Ok(Envelope::Error(JsonrpcError { id, error }))
            },
            MessageTypes::Response => {
                let id_value = match take_first(&mut entries, "id") {
                    Some(x) => x,
                    None => JsonValue::Null,
                };
                let id = match id_from_json(id_value) {
                    Some(i) => i,
                    None => {
                        return Err(RpcError::invalid_request());
                    },
                };
                let result = match take_first(&mut entries, "result") {
                    Some(x) => x,
                    None => {
                        return Err(RpcError::invalid_request());
                    },
                };
                Ok(Envelope::Response(JsonrpcResponse { id, result }))
            },
            MessageTypes::Request => {
                let id_value = match take_first(&mut entries, "id") {
                    Some(x) => x,
                    None => JsonValue::Null,
                };
                let id = match id_from_json(id_value) {
                    Some(i) => i,
                    None => {
                        return Err(RpcError::invalid_request());
                    },
                };
                let method = match take_first(&mut entries, "method") {
                    Some(JsonValue::Text(m)) => m,
                    _ => {
                        return Err(RpcError::invalid_request());
                    },
                };
                let params = match take_first(&mut entries, "params") {
                    Some(p) => p,
                    None => JsonValue::Null,
                };
                Ok(Envelope::Request(JsonrpcRequest { id, method, params }))
            },
            MessageTypes::Notification => {
                let method = match take_first(&mut entries, "method") {
                    Some(JsonValue::Text(m)) => m,
                    _ => {
                        return Err(RpcError::invalid_request());
                    },
                };
                let params = match take_first(&mut entries, "params") {
                    Some(p) => p,
                    None => JsonValue::Null,
                };
                Ok(Envelope::Notification(JsonrpcNotification { method, params }))
            },
        }
    }
}

} // verus!
