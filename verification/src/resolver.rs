//! Closed/open variant resolution.
//!
//! A vocabulary is an ordered table of shapes, one per known payload
//! kind of the active protocol revision.  A raw payload matches a shape
//! when every constant field of the shape is present with exactly its
//! fixed string value and every required field is present at all; the
//! first matching shape wins, declaration order being the tie-break.  A
//! payload that matches no shape is not an error: it resolves to the
//! opaque custom variant, untouched, as the forward-compatibility path.

use vstd::prelude::*;

use crate::error::RpcError;
use crate::json::{find, lookup, JsonValue};
use crate::version::ProtocolVersion;

verus! {

/// One known payload shape: the constant string fields that must match
/// exactly, and the fields that must merely be present.
#[derive(Debug, PartialEq, Eq)]
pub struct Shape {
    pub constants: Vec<(String, String)>,
    pub required: Vec<String>,
}

/// An ordered table of known shapes for one revision, direction and
/// role.
#[derive(Debug, PartialEq, Eq)]
pub struct Vocabulary {
    pub shapes: Vec<Shape>,
}

/// A resolved payload: a known shape (by its index in the vocabulary)
/// or the untouched custom fallback.
#[derive(Debug, PartialEq, Eq)]
pub enum ResolvedPayload {
    Known(usize, JsonValue),
    Custom(JsonValue),
}

/// The object carries `key` as a text field reading exactly `value`.
pub open spec fn constant_holds(
    entries: Seq<(String, JsonValue)>,
    key: Seq<char>,
    value: Seq<char>,
) -> bool {
    lookup(entries, key) matches Some(JsonValue::Text(t)) && t@ == value
}

/// The payload object matches the shape: all constants match exactly
/// and all required fields are present.
pub open spec fn shape_matches(shape: Shape, entries: Seq<(String, JsonValue)>) -> bool {
    &&& forall|i: int|
        0 <= i < shape.constants@.len() ==> constant_holds(
            entries,
            (#[trigger] shape.constants@[i]).0@,
            shape.constants@[i].1@,
        )
    &&& forall|i: int|
        0 <= i < shape.required@.len() ==> lookup(
            entries,
            (#[trigger] shape.required@[i])@,
        ) is Some
}

/// The index of the first shape the payload matches, if any.
pub open spec fn first_match(shapes: Seq<Shape>, entries: Seq<(String, JsonValue)>) -> Option<
    int,
>
    decreases shapes.len(),
{
    if shapes.len() == 0 {
        None
    } else if shape_matches(shapes[0], entries) {
        Some(0int)
    } else {
        match first_match(shapes.drop_first(), entries) {
            Some(i) => Some(i + 1),
            None => None,
        }
    }
}

proof fn lemma_first_match_at(shapes: Seq<Shape>, entries: Seq<(String, JsonValue)>, k: int)
    requires
        0 <= k < shapes.len(),
        shape_matches(shapes[k], entries),
        forall|j: int| 0 <= j < k ==> !shape_matches(#[trigger] shapes[j], entries),
    ensures
        first_match(shapes, entries) == Some(k),
    decreases k,
{
    if k > 0 {
        lemma_first_match_at(shapes.drop_first(), entries, k - 1);
    }
}

proof fn lemma_first_match_none(shapes: Seq<Shape>, entries: Seq<(String, JsonValue)>)
    requires
        forall|j: int| 0 <= j < shapes.len() ==> !shape_matches(#[trigger] shapes[j], entries),
    ensures
        first_match(shapes, entries) is None,
    decreases shapes.len(),
{
    if shapes.len() > 0 {
        lemma_first_match_none(shapes.drop_first(), entries);
    }
}

fn shape_matches_exec(shape: &Shape, entries: &Vec<(String, JsonValue)>) -> (r: bool)
    ensures
        r == shape_matches(*shape, entries@),
{
    let mut i: usize = 0;
    while i < shape.constants.len()
        invariant
            0 <= i <= shape.constants@.len(),
            forall|j: int|
                0 <= j < i ==> constant_holds(
                    entries@,
                    (#[trigger] shape.constants@[j]).0@,
                    shape.constants@[j].1@,
                ),
        decreases shape.constants@.len() - i,
    {
        let good = match find(entries, shape.constants[i].0.as_str()) {
            Some(JsonValue::Text(t)) => *t == shape.constants[i].1,
            _ => false,
        };
        if !good {
            return false;
        }
        i = i + 1;
    }
    let mut k: usize = 0;
    while k < shape.required.len()
        invariant
            0 <= k <= shape.required@.len(),
            forall|j: int|
                0 <= j < i ==> constant_holds(
                    entries@,
                    (#[trigger] shape.constants@[j]).0@,
                    shape.constants@[j].1@,
                ),
            i == shape.constants@.len(),
            forall|j: int|
                0 <= j < k ==> lookup(entries@, (#[trigger] shape.required@[j])@) is Some,
        decreases shape.required@.len() - k,
    {
        if find(entries, shape.required[k].as_str()).is_none() {
            return false;
        }
        k = k + 1;
    }
    true
}

/// Resolves a raw payload against the vocabulary.  A payload that is no
/// JSON object fails with a parse error; otherwise the first matching
/// shape wins, and a payload matching no shape comes back as the
/// untouched custom variant.
#[verifier::loop_isolation(false)]
pub fn resolve(vocabulary: &Vocabulary, raw: JsonValue) -> (r: Result<ResolvedPayload, RpcError>)
    ensures
        !(raw is Object) ==> (r matches Err(e) && e.code == -32700),
        raw matches JsonValue::Object(en) ==> match first_match(vocabulary.shapes@, en@) {
            Some(i) => r == Ok::<_, RpcError>(ResolvedPayload::Known(i as usize, raw)),
            None => r == Ok::<_, RpcError>(ResolvedPayload::Custom(raw)),
        },
{
    let entries = match &raw {
        JsonValue::Object(en) => en,
        _ => {
            return Err(RpcError::parse_error());
        },
    };
    let mut k: usize = 0;
    while k < vocabulary.shapes.len()
        invariant
            0 <= k <= vocabulary.shapes@.len(),
            forall|j: int|
                0 <= j < k ==> !shape_matches(#[trigger] vocabulary.shapes@[j], entries@),
        decreases vocabulary.shapes@.len() - k,
    {
        if shape_matches_exec(&vocabulary.shapes[k], entries) {
            proof {
                lemma_first_match_at(vocabulary.shapes@, entries@, k as int);
            }
            return Ok(ResolvedPayload::Known(k, raw));
        }
        k = k + 1;
    }
    proof {
        lemma_first_match_none(vocabulary.shapes@, entries@);
    }
    Ok(ResolvedPayload::Custom(raw))
}

impl Shape {
    /// A shape discriminated by a fixed method name alone.
    pub fn for_method(method: &str) -> (r: Shape)
        ensures
            r.constants@.len() == 1,
            r.constants@[0].0@ == "method"@,
            r.constants@[0].1@ == method@,
            r.required@.len() == 0,
    {
        let mut constants: Vec<(String, String)> = Vec::new();
        constants.push(("method".to_owned(), method.to_owned()));
        Shape { constants, required: Vec::new() }
    }
}

/// The vocabulary `v` is the ordered method table `methods`: one shape
/// per name, discriminated by its fixed method string alone.
pub open spec fn is_method_vocabulary(v: Vocabulary, methods: Seq<Seq<char>>) -> bool {
    &&& v.shapes@.len() == methods.len()
    &&& forall|i: int|
        0 <= i < methods.len() ==> {
            &&& (#[trigger] v.shapes@[i]).constants@.len() == 1
            &&& v.shapes@[i].constants@[0].0@ == "method"@
            &&& v.shapes@[i].constants@[0].1@ == methods[i]
            &&& v.shapes@[i].required@.len() == 0
        }
}

impl Vocabulary {
    /// Builds a method table from an ordered list of method names.
    #[verifier::loop_isolation(false)]
    pub fn from_methods(methods: &Vec<String>) -> (r: Vocabulary)
        ensures
            is_method_vocabulary(r, methods@.map_values(|m: String| m@)),
    {
        let mut shapes: Vec<Shape> = Vec::new();
        let mut i: usize = 0;
        while i < methods.len()
            invariant
                0 <= i <= methods@.len(),
                shapes@.len() == i,
                forall|j: int|
                    0 <= j < i ==> {
                        &&& (#[trigger] shapes@[j]).constants@.len() == 1
                        &&& shapes@[j].constants@[0].0@ == "method"@
                        &&& shapes@[j].constants@[0].1@ == methods@[j]@
                        &&& shapes@[j].required@.len() == 0
                    },
            decreases methods@.len() - i,
        {
            shapes.push(Shape::for_method(methods[i].as_str()));
            i = i + 1;
        }
        Vocabulary { shapes }
    }
}

/// The ordered method names of the requests a client may send, for the
/// given revision: the resolver's tie-break order is this declaration
/// order.
pub open spec fn client_request_methods(version: ProtocolVersion) -> Seq<Seq<char>> {
    seq![
        "initialize"@,
        "ping"@,
        "resources/list"@,
        "resources/templates/list"@,
        "resources/read"@,
        "resources/subscribe"@,
        "resources/unsubscribe"@,
        "prompts/list"@,
        "prompts/get"@,
        "tools/list"@,
        "tools/call"@,
        "logging/setLevel"@,
        "completion/complete"@,
    ]
}

/// The ordered method names of the notifications a client may send.
pub open spec fn client_notification_methods(version: ProtocolVersion) -> Seq<Seq<char>> {
    seq![
        "notifications/cancelled"@,
        "notifications/initialized"@,
        "notifications/progress"@,
        "notifications/roots/list_changed"@,
    ]
}

/// The ordered method names of the requests a server may send: the two
/// newest revisions add the elicitation request.
pub open spec fn server_request_methods(version: ProtocolVersion) -> Seq<Seq<char>> {
    match version {
        ProtocolVersion::V2024_11_05 => seq!["ping"@, "sampling/createMessage"@, "roots/list"@],
        ProtocolVersion::V2025_03_26 => seq!["ping"@, "sampling/createMessage"@, "roots/list"@],
        _ => seq!["ping"@, "sampling/createMessage"@, "roots/list"@, "elicitation/create"@],
    }
}

/// The ordered method names of the notifications a server may send.
pub open spec fn server_notification_methods(version: ProtocolVersion) -> Seq<Seq<char>> {
    seq![
        "notifications/cancelled"@,
        "notifications/progress"@,
        "notifications/resources/list_changed"@,
        "notifications/resources/updated"@,
        "notifications/prompts/list_changed"@,
        "notifications/tools/list_changed"@,
        "notifications/message"@,
    ]
}

/// The client-request vocabulary of the given revision.
pub fn client_request_vocabulary(version: &ProtocolVersion) -> (r: Vocabulary)
    ensures
        is_method_vocabulary(r, client_request_methods(*version)),
{
    let methods: Vec<String> = vec![
        "initialize".to_owned(),
        "ping".to_owned(),
        "resources/list".to_owned(),
        "resources/templates/list".to_owned(),
        "resources/read".to_owned(),
        "resources/subscribe".to_owned(),
        "resources/unsubscribe".to_owned(),
        "prompts/list".to_owned(),
        "prompts/get".to_owned(),
        "tools/list".to_owned(),
        "tools/call".to_owned(),
        "logging/setLevel".to_owned(),
        "completion/complete".to_owned(),
    ];
    let r = Vocabulary::from_methods(&methods);
    proof {
        assert(methods@.map_values(|m: String| m@) =~= client_request_methods(*version));
    }
    r
}

/// The client-notification vocabulary of the given revision.
pub fn client_notification_vocabulary(version: &ProtocolVersion) -> (r: Vocabulary)
    ensures
        is_method_vocabulary(r, client_notification_methods(*version)),
{
    let methods: Vec<String> = vec![
        "notifications/cancelled".to_owned(),
        "notifications/initialized".to_owned(),
        "notifications/progress".to_owned(),
        "notifications/roots/list_changed".to_owned(),
    ];
    let r = Vocabulary::from_methods(&methods);
    proof {
        assert(methods@.map_values(|m: String| m@) =~= client_notification_methods(*version));
    }
    r
}

/// The server-request vocabulary of the given revision.
pub fn server_request_vocabulary(version: &ProtocolVersion) -> (r: Vocabulary)
    ensures
        is_method_vocabulary(r, server_request_methods(*version)),
{
    let mut methods: Vec<String> = vec![
        "ping".to_owned(),
        "sampling/createMessage".to_owned(),
        "roots/list".to_owned(),
    ];
    match version {
        ProtocolVersion::V2024_11_05 => {},
        ProtocolVersion::V2025_03_26 => {},
        _ => {
            methods.push("elicitation/create".to_owned());
        },
    }
    let r = Vocabulary::from_methods(&methods);
    proof {
        assert(methods@.map_values(|m: String| m@) =~= server_request_methods(*version));
    }
    r
}

/// The server-notification vocabulary of the given revision.
pub fn server_notification_vocabulary(version: &ProtocolVersion) -> (r: Vocabulary)
    ensures
        is_method_vocabulary(r, server_notification_methods(*version)),
{
    let methods: Vec<String> = vec![
        "notifications/cancelled".to_owned(),
        "notifications/progress".to_owned(),
        "notifications/resources/list_changed".to_owned(),
        "notifications/resources/updated".to_owned(),
        "notifications/prompts/list_changed".to_owned(),
        "notifications/tools/list_changed".to_owned(),
        "notifications/message".to_owned(),
    ];
    let r = Vocabulary::from_methods(&methods);
    proof {
        assert(methods@.map_values(|m: String| m@) =~= server_notification_methods(*version));
    }
    r
}

} // verus!
