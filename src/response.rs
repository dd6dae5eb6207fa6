use vstd::prelude::*;
use crate::json::{
    array_value, into_array, into_object, is_null, new_object, null_value, object_entries,
    into_text, object_insert, object_is_empty, object_remove, object_value, parse_object,
    parsed_object, value_array, value_is_null, value_object, value_text, JsonObject,
};
use crate::wire::{object_json, object_text};

verus! {

/// A GraphQL response: the data, the extensions and the errors a server sent.
/// Absent extensions and errors are empty.
pub struct GraphQlResponse {
    pub data: Option<serde_json::Value>,
    pub extensions: JsonObject,
    pub errors: Vec<JsonObject>,
}

/// A message of the `graphql-transport-ws` protocol as received: its type, the
/// subscription it belongs to, and a response where it carries one.
pub struct WsResponse {
    pub message_type: String,
    pub id: String,
    pub payload: Option<GraphQlResponse>,
}

/// A reply that did not have the shape of a response.
pub struct MalformedResponse {
    pub reason: String,
}

pub type Entries = Map<Seq<char>, serde_json::Value>;

pub open spec fn errors_view(errors: Seq<JsonObject>) -> Seq<Entries> {
    errors.map_values(|m: JsonObject| object_entries(m))
}

/// `e` is the JSON object of a response with these parts: `data` always (null
/// when absent), `extensions` and `errors` only when they are not empty.
pub open spec fn encodes(
    data: Option<serde_json::Value>,
    extensions: Entries,
    errors: Seq<Entries>,
    e: Entries,
) -> bool {
    &&& e.contains_key("data"@)
    &&& match data {
        Some(v) => e["data"@] == v,
        None => value_is_null(e["data"@]),
    }
    &&& e.contains_key("extensions"@) <==> extensions.dom() != Set::<Seq<char>>::empty()
    &&& e.contains_key("extensions"@) ==> value_object(e["extensions"@]) == Some(extensions)
    &&& e.contains_key("errors"@) <==> errors.len() > 0
    &&& e.contains_key("errors"@) ==> value_array(e["errors"@]) is Some && value_array(
        e["errors"@],
    )->Some_0.len() == errors.len() && forall|i: int|
        0 <= i < errors.len() ==> value_object(#[trigger] value_array(e["errors"@])->Some_0[i])
            == Some(errors[i])
    &&& forall|k: Seq<char>| #[trigger]
        e.contains_key(k) ==> k == "data"@ || k == "extensions"@ || k == "errors"@
}

/// The data of a decoded object: absent and `null` are both no data.
pub open spec fn decoded_data(e: Entries) -> Option<serde_json::Value> {
    if e.contains_key("data"@) && !value_is_null(e["data"@]) {
        Some(e["data"@])
    } else {
        None
    }
}

/// The extensions of a decoded object: absent is empty, anything but an object
/// is malformed.
pub open spec fn decoded_extensions(e: Entries) -> Option<Entries> {
    if e.contains_key("extensions"@) {
        value_object(e["extensions"@])
    } else {
        Some(Map::empty())
    }
}

pub open spec fn all_objects(items: Seq<serde_json::Value>) -> bool {
    forall|i: int| 0 <= i < items.len() ==> (#[trigger] value_object(items[i])) is Some
}

pub open spec fn objects_of(items: Seq<serde_json::Value>) -> Seq<Entries> {
    items.map_values(|v: serde_json::Value| value_object(v)->Some_0)
}

/// The errors of a decoded object: absent is empty, anything but an array of
/// objects is malformed.
pub open spec fn decoded_errors(e: Entries) -> Option<Seq<Entries>> {
    if e.contains_key("errors"@) {
        match value_array(e["errors"@]) {
            Some(items) => if all_objects(items) {
                Some(objects_of(items))
            } else {
                None
            },
            None => None,
        }
    } else {
        Some(Seq::empty())
    }
}

fn malformed(reason: &str) -> (r: MalformedResponse)
    ensures
        r.reason@ == reason@,
{
    MalformedResponse { reason: reason.to_string() }
}

/// The JSON object of a response; empty extensions and errors are left out.
pub fn encode_response(r: GraphQlResponse) -> (m: JsonObject)
    ensures
        encodes(r.data, object_entries(r.extensions), errors_view(r.errors@), object_entries(m)),
{
    proof {
        reveal_strlit("data");
        reveal_strlit("extensions");
        reveal_strlit("errors");
    }
    assert("data"@ != "extensions"@ && "data"@ != "errors"@ && "extensions"@ != "errors"@) by {
        assert("data"@.len() != "extensions"@.len());
        assert("data"@.len() != "errors"@.len());
        assert("extensions"@.len() != "errors"@.len());
    }
    let ghost errs = errors_view(r.errors@);
    let GraphQlResponse { data, extensions, errors } = r;
    let extensions_empty = object_is_empty(&extensions);
    let errors_empty = errors.len() == 0;
    let mut m = new_object();
    let data_value = match data {
        Some(v) => v,
        None => null_value(),
    };
    object_insert(&mut m, String::from_str("data"), data_value);
    if !extensions_empty {
        let v = object_value(extensions);
        object_insert(&mut m, String::from_str("extensions"), v);
    }
    if !errors_empty {
        let mut items: Vec<serde_json::Value> = Vec::new();
        let mut rest = errors;
        let ghost all = rest@;
        while rest.len() > 0
            invariant
                items@.len() + rest@.len() == all.len(),
                rest@ == all.skip(items@.len() as int),
                errs == errors_view(all),
                forall|i: int|
                    0 <= i < items@.len() ==> value_object(#[trigger] items@[i]) == Some(errs[i]),
            decreases rest@.len(),
        {
            let o = rest.remove(0);
            assert(o == all[items@.len() as int]);
            assert(rest@ =~= all.skip(items@.len() as int + 1));
            let v = object_value(o);
            items.push(v);
        }
        let v = array_value(items);
        object_insert(&mut m, String::from_str("errors"), v);
    }
    proof {
        let e = object_entries(m);
        assert forall|k: Seq<char>| #[trigger]
            e.contains_key(k) implies k == "data"@ || k == "extensions"@ || k == "errors"@ by {}
    }
    m
}

/// Reads a response from its JSON object. Keys other than `data`,
/// `extensions` and `errors` are ignored.
pub fn decode_response(m: JsonObject) -> (r: Result<GraphQlResponse, MalformedResponse>)
    ensures
        r is Ok <==> decoded_extensions(object_entries(m)) is Some && decoded_errors(
            object_entries(m),
        ) is Some,
        r is Ok ==> r->Ok_0.data == decoded_data(object_entries(m)),
        r is Ok ==> Some(object_entries(r->Ok_0.extensions)) == decoded_extensions(
            object_entries(m),
        ),
        r is Ok ==> Some(errors_view(r->Ok_0.errors@)) == decoded_errors(object_entries(m)),
{
    proof {
        reveal_strlit("data");
        reveal_strlit("extensions");
        reveal_strlit("errors");
    }
    let ghost e = object_entries(m);
    assert("data"@ != "extensions"@ && "data"@ != "errors"@ && "extensions"@ != "errors"@) by {
        assert("data"@.len() != "extensions"@.len());
        assert("data"@.len() != "errors"@.len());
        assert("extensions"@.len() != "errors"@.len());
    }
    let mut obj = m;
    let data = match object_remove(&mut obj, "data") {
        Some(v) => if is_null(&v) {
            None
        } else {
            Some(v)
        },
        None => None,
    };
    let extensions = match object_remove(&mut obj, "extensions") {
        Some(v) => match into_object(v) {
            Some(x) => x,
            None => {
                return Err(malformed("extensions is not an object"));
            },
        },
        None => new_object(),
    };
    assert(object_entries(obj) == e.remove("data"@).remove("extensions"@));
    assert(e.remove("data"@).contains_key("extensions"@) == e.contains_key("extensions"@));
    assert(object_entries(extensions) =~= decoded_extensions(e)->Some_0);
    assert(object_entries(obj).contains_key("errors"@) == e.contains_key("errors"@));
    assert(e.contains_key("errors"@) ==> object_entries(obj)["errors"@] == e["errors"@]);
    let errors = match object_remove(&mut obj, "errors") {
        Some(v) => match into_array(v) {
            Some(items) => {
                let ghost all = items@;
                assert(e.contains_key("errors"@) && value_array(e["errors"@]) == Some(all));
                let mut errors: Vec<JsonObject> = Vec::new();
                let mut rest = items;
                while rest.len() > 0
                    invariant
                        e == object_entries(m),
                        e.contains_key("errors"@) && value_array(e["errors"@]) == Some(all),
                        errors@.len() + rest@.len() == all.len(),
                        rest@ == all.skip(errors@.len() as int),
                        all_objects(all.take(errors@.len() as int)),
                        errors_view(errors@) == objects_of(all.take(errors@.len() as int)),
                    decreases rest@.len(),
                {
                    let ghost n = errors@.len() as int;
                    let v = rest.remove(0);
                    assert(v == all[n]);
                    assert(rest@ =~= all.skip(n + 1));
                    match into_object(v) {
                        Some(o) => {
                            let ghost before = errors@;
                            errors.push(o);
                            assert(all.take(n + 1) =~= all.take(n).push(v));
                            assert(all_objects(all.take(n + 1))) by {
                                assert forall|i: int| 0 <= i < n + 1 implies (#[trigger] value_object(
                                    all.take(n + 1)[i],
                                )) is Some by {
                                    if i < n {
                                        assert(all.take(n + 1)[i] == all.take(n)[i]);
                                    }
                                }
                            }
                            assert(errors_view(errors@) =~= errors_view(before).push(object_entries(o)));
                            assert(errors_view(errors@) =~= objects_of(all.take(n + 1)));
                        },
                        None => {
                            assert(value_object(all[n]) is None);
                            assert(!all_objects(all));
                            assert(decoded_errors(e) is None);
                            return Err(malformed("errors is not an array of objects"));
                        },
                    }
                }
                assert(all.take(all.len() as int) =~= all);
                errors
            },
            None => {
                return Err(malformed("errors is not an array"));
            },
        },
        None => {
            assert(errors_view(Seq::<JsonObject>::empty()) =~= Seq::<Entries>::empty());
            Vec::new()
        },
    };
    Ok(GraphQlResponse { data, extensions, errors })
}

/// Encoding a response and decoding the result gives the response back, but
/// for data that is `null`, which reads as no data. In particular empty
/// extensions and errors leave no key behind and come back empty.
pub proof fn lemma_response_round_trip(
    data: Option<serde_json::Value>,
    extensions: Entries,
    errors: Seq<Entries>,
    e: Entries,
)
    requires
        encodes(data, extensions, errors, e),
    ensures
        decoded_extensions(e) == Some(extensions),
        decoded_errors(e) == Some(errors),
        decoded_data(e) == (match data {
            Some(v) => if value_is_null(v) {
                None
            } else {
                Some(v)
            },
            None => None,
        }),
        extensions.dom() == Set::<Seq<char>>::empty() ==> !e.contains_key("extensions"@),
        errors.len() == 0 ==> !e.contains_key("errors"@),
{
    if extensions.dom() == Set::<Seq<char>>::empty() {
        assert(extensions =~= Map::empty());
    }
    if e.contains_key("errors"@) {
        let items = value_array(e["errors"@])->Some_0;
        assert(all_objects(items));
        assert(objects_of(items) =~= errors);
    } else {
        assert(errors =~= Seq::empty());
    }
}

/// Whether an object reads as a response.
pub open spec fn decodable(e: Entries) -> bool {
    decoded_extensions(e) is Some && decoded_errors(e) is Some
}

/// The JSON text of a response; empty extensions and errors are left out.
pub fn response_to_json(r: GraphQlResponse) -> (t: String)
    ensures
        exists|e: Entries|
            encodes(r.data, object_entries(r.extensions), errors_view(r.errors@), e) && t@
                == object_text(e),
{
    let m = encode_response(r);
    object_json(&m)
}

/// Reads a response from JSON text.
pub fn response_from_json(text: &str) -> (r: Result<GraphQlResponse, MalformedResponse>)
    ensures
        r is Ok <==> parsed_object(text@) is Some && decodable(parsed_object(text@)->Some_0),
        r is Ok ==> r->Ok_0.data == decoded_data(parsed_object(text@)->Some_0),
        r is Ok ==> Some(object_entries(r->Ok_0.extensions)) == decoded_extensions(
            parsed_object(text@)->Some_0,
        ),
        r is Ok ==> Some(errors_view(r->Ok_0.errors@)) == decoded_errors(
            parsed_object(text@)->Some_0,
        ),
{
    match parse_object(text) {
        Ok(m) => decode_response(m),
        Err(_) => Err(malformed("not a JSON object")),
    }
}

/// A text field of an object, if it is there and a string.
pub open spec fn text_field(e: Entries, k: Seq<char>) -> Option<Seq<char>> {
    if e.contains_key(k) {
        value_text(e[k])
    } else {
        None
    }
}

/// The payload of a message: absent and `null` are no payload, an object is
/// one, anything else is malformed.
pub open spec fn payload_field(e: Entries) -> Option<Option<Entries>> {
    if !e.contains_key("payload"@) || value_is_null(e["payload"@]) {
        Some(None)
    } else {
        match value_object(e["payload"@]) {
            Some(p) => Some(Some(p)),
            None => None,
        }
    }
}

/// Whether an object reads as a protocol message.
pub open spec fn ws_decodable(e: Entries) -> bool {
    &&& text_field(e, "type"@) is Some
    &&& text_field(e, "id"@) is Some
    &&& payload_field(e) is Some
    &&& payload_field(e)->Some_0 is Some ==> decodable(payload_field(e)->Some_0->Some_0)
}

/// Reads a protocol message from its JSON object: `type` and `id` are
/// strings, `payload` is a response or absent.
pub fn decode_ws_message(m: JsonObject) -> (r: Result<WsResponse, MalformedResponse>)
    ensures
        r is Ok <==> ws_decodable(object_entries(m)),
        r is Ok ==> r->Ok_0.message_type@ == text_field(object_entries(m), "type"@)->Some_0,
        r is Ok ==> r->Ok_0.id@ == text_field(object_entries(m), "id"@)->Some_0,
        r is Ok ==> (r->Ok_0.payload is Some <==> payload_field(object_entries(m))->Some_0 is Some),
        r is Ok && r->Ok_0.payload is Some ==> ({
            let p = r->Ok_0.payload->Some_0;
            let pe = payload_field(object_entries(m))->Some_0->Some_0;
            &&& p.data == decoded_data(pe)
            &&& Some(object_entries(p.extensions)) == decoded_extensions(pe)
            &&& Some(errors_view(p.errors@)) == decoded_errors(pe)
        }),
{
    proof {
        reveal_strlit("type");
        reveal_strlit("id");
        reveal_strlit("payload");
    }
    let ghost e = object_entries(m);
    assert("type"@ != "id"@ && "type"@ != "payload"@ && "id"@ != "payload"@) by {
        assert("type"@.len() != "id"@.len());
        assert("type"@.len() != "payload"@.len());
        assert("id"@.len() != "payload"@.len());
    }
    let mut obj = m;
    let message_type = match object_remove(&mut obj, "type") {
        Some(v) => match into_text(v) {
            Some(t) => t,
            None => {
                return Err(malformed("type is not a string"));
            },
        },
        None => {
            return Err(malformed("type is missing"));
        },
    };
    let id = match object_remove(&mut obj, "id") {
        Some(v) => match into_text(v) {
            Some(t) => t,
            None => {
                return Err(malformed("id is not a string"));
            },
        },
        None => {
            return Err(malformed("id is missing"));
        },
    };
    assert(object_entries(obj) == e.remove("type"@).remove("id"@));
    let payload = match object_remove(&mut obj, "payload") {
        Some(v) => if is_null(&v) {
            None
        } else {
            match into_object(v) {
                Some(p) => match decode_response(p) {
                    Ok(resp) => Some(resp),
                    Err(err) => {
                        return Err(err);
                    },
                },
                None => {
                    return Err(malformed("payload is not an object"));
                },
            }
        },
        None => None,
    };
    Ok(WsResponse { message_type, id, payload })
}

/// Reads a protocol message from JSON text.
pub fn ws_message_from_json(text: &str) -> (r: Result<WsResponse, MalformedResponse>)
    ensures
        r is Ok <==> parsed_object(text@) is Some && ws_decodable(parsed_object(text@)->Some_0),
        r is Ok ==> r->Ok_0.message_type@ == text_field(parsed_object(text@)->Some_0, "type"@)->Some_0,
        r is Ok ==> r->Ok_0.id@ == text_field(parsed_object(text@)->Some_0, "id"@)->Some_0,
        r is Ok ==> (r->Ok_0.payload is Some <==> payload_field(parsed_object(text@)->Some_0)->Some_0 is Some),
        r is Ok && r->Ok_0.payload is Some ==> ({
            let p = r->Ok_0.payload->Some_0;
            let pe = payload_field(parsed_object(text@)->Some_0)->Some_0->Some_0;
            &&& p.data == decoded_data(pe)
            &&& Some(object_entries(p.extensions)) == decoded_extensions(pe)
            &&& Some(errors_view(p.errors@)) == decoded_errors(pe)
        }),
{
    match parse_object(text) {
        Ok(m) => decode_ws_message(m),
        Err(_) => Err(malformed("not a JSON object")),
    }
}

} // verus!
