//! The response assembler: JSON-RPC response envelopes, their encoding into
//! a wire JSON value, and the wire-level HTTP replies the proxy produces.

use vstd::prelude::*;

use crate::codec::RequestId;
use crate::json::{json_to_string, lookup_fields, serialized, spec_lookup, JsonValue};
use vstd::string::StringExecFns;

verus! {

/// A wire-level HTTP reply, as the library models it: the status, the two
/// header choices the proxy makes, and the body text.
pub struct HttpReply {
    pub status: u16,
    /// Whether the reply carries a JSON content type.
    pub json_content: bool,
    /// Whether the reply carries wildcard cross-origin headers.
    pub cors_wildcard: bool,
    pub body: String,
}

/// The data member of a response error object: omitted for the proxy's own
/// refusals, present (possibly null) for a fault forwarded from the upstream.
pub enum ErrorData {
    Omitted,
    Given(JsonValue),
}

/// Exactly one of a result or an error.
pub enum ResponsePayload {
    Result(JsonValue),
    Error { code: i64, message: String, data: ErrorData },
}

/// A JSON-RPC response envelope: the protocol tag, the echoed id, and the
/// payload.
pub struct ResponseEnvelope {
    pub id: RequestId,
    pub payload: ResponsePayload,
}

/// The JSON value that echoes a request id: its original type is kept.
pub open spec fn spec_id_json(id: RequestId) -> JsonValue {
    match id {
        RequestId::Number(n) => JsonValue::Unsigned(n),
        RequestId::Text(s) => JsonValue::Text(s),
    }
}

/// The JSON value of an error code: integers below zero are signed, the
/// rest unsigned, as the JSON model keeps them.
pub open spec fn spec_code_json(code: i64) -> JsonValue {
    if code >= 0 {
        JsonValue::Unsigned(code as u64)
    } else {
        JsonValue::Signed(code)
    }
}

/// Whether `j` is the encoding of a result envelope: the protocol tag, the
/// echoed id, the result value, and no error member.
pub open spec fn encodes_result_envelope(j: JsonValue, id: RequestId, v: JsonValue) -> bool {
    &&& j is Object
    &&& spec_lookup(j, "jsonrpc"@) matches Some(JsonValue::Text(t)) && t@ == "2.0"@
    &&& spec_lookup(j, "id"@) == Some(spec_id_json(id))
    &&& spec_lookup(j, "result"@) == Some(v)
    &&& spec_lookup(j, "error"@) is None
}

/// Whether `j` is the encoding of an error envelope: the protocol tag, the
/// echoed id, no result member, and an error object carrying the code, the
/// message, and the data member where one is given.
pub open spec fn encodes_error_envelope(
    j: JsonValue,
    id: RequestId,
    code: i64,
    message: Seq<char>,
    data: Option<JsonValue>,
) -> bool {
    &&& j is Object
    &&& spec_lookup(j, "jsonrpc"@) matches Some(JsonValue::Text(t)) && t@ == "2.0"@
    &&& spec_lookup(j, "id"@) == Some(spec_id_json(id))
    &&& spec_lookup(j, "result"@) is None
    &&& spec_lookup(j, "error"@) matches Some(e) && {
        &&& e is Object
        &&& spec_lookup(e, "code"@) == Some(spec_code_json(code))
        &&& spec_lookup(e, "message"@) matches Some(JsonValue::Text(m)) && m@ == message
        &&& match data {
            None => spec_lookup(e, "data"@) is None,
            Some(d) => spec_lookup(e, "data"@) == Some(d),
        }
    }
}

/// The data member an error payload asks for.
pub open spec fn spec_data_opt(data: ErrorData) -> Option<JsonValue> {
    match data {
        ErrorData::Omitted => None,
        ErrorData::Given(d) => Some(d),
    }
}

/// Whether an envelope's encoding is what a payload asks for.
pub open spec fn encodes_envelope(j: JsonValue, env: ResponseEnvelope) -> bool {
    match env.payload {
        ResponsePayload::Result(v) => encodes_result_envelope(j, env.id, v),
        ResponsePayload::Error { code, message, data } => encodes_error_envelope(
            j,
            env.id,
            code,
            message@,
            spec_data_opt(data),
        ),
    }
}

/// Whether a reply carries a result envelope on the wire: an OK status, a
/// JSON content type, and a body that is the serialization of its encoding.
pub open spec fn carries_result_reply(r: HttpReply, id: RequestId, v: JsonValue) -> bool {
    &&& r.status == 200
    &&& r.json_content
    &&& !r.cors_wildcard
    &&& exists|j: JsonValue| #[trigger] encodes_result_envelope(j, id, v) && r.body@ == serialized(
        j,
    )
}

/// Whether a reply carries an error envelope on the wire.
pub open spec fn carries_error_reply(
    r: HttpReply,
    id: RequestId,
    code: i64,
    message: Seq<char>,
    data: Option<JsonValue>,
) -> bool {
    &&& r.status == 200
    &&& r.json_content
    &&& !r.cors_wildcard
    &&& exists|j: JsonValue| #[trigger] encodes_error_envelope(j, id, code, message, data)
        && r.body@ == serialized(j)
}

/// Whether a reply carries a response envelope on the wire.
pub open spec fn carries_envelope(r: HttpReply, env: ResponseEnvelope) -> bool {
    match env.payload {
        ResponsePayload::Result(v) => carries_result_reply(r, env.id, v),
        ResponsePayload::Error { code, message, data } => carries_error_reply(
            r,
            env.id,
            code,
            message@,
            spec_data_opt(data),
        ),
    }
}

/// Whether a reply is a plain-text reply with this status and body.
pub open spec fn is_plain_reply(r: HttpReply, status: u16, body: Seq<char>) -> bool {
    &&& r.status == status
    &&& !r.json_content
    &&& !r.cors_wildcard
    &&& r.body@ == body
}

/// The five envelope member names used by the encoder are pairwise distinct
/// where it matters.
proof fn lemma_envelope_names_distinct()
    ensures
        "jsonrpc"@ != "result"@,
        "jsonrpc"@ != "error"@,
        "jsonrpc"@ != "id"@,
        "result"@ != "id"@,
        "error"@ != "id"@,
        "result"@ != "error"@,
        "code"@ != "message"@,
        "code"@ != "data"@,
        "message"@ != "data"@,
{
    reveal_strlit("jsonrpc");
    reveal_strlit("result");
    reveal_strlit("error");
    reveal_strlit("id");
    reveal_strlit("code");
    reveal_strlit("message");
    reveal_strlit("data");
    assert("jsonrpc"@.len() == 7);
    assert("result"@.len() == 6);
    assert("error"@.len() == 5);
    assert("id"@.len() == 2);
    assert("code"@.len() == 4);
    assert("message"@.len() == 7);
    assert("data"@.len() == 4);
    assert("code"@[0] == 'c');
    assert("data"@[0] == 'd');
    assert("jsonrpc"@[0] == 'j');
    assert("message"@[0] == 'm');
}

/// A three-step unfolding of a lookup among exactly three fields.
proof fn lemma_lookup_three(fields: Seq<(String, JsonValue)>, key: Seq<char>)
    requires
        fields.len() == 3,
    ensures
        lookup_fields(fields, key) == (if fields[0].0@ == key {
            Some(fields[0].1)
        } else if fields[1].0@ == key {
            Some(fields[1].1)
        } else if fields[2].0@ == key {
            Some(fields[2].1)
        } else {
            None::<JsonValue>
        }),
{
    if fields[0].0@ == key {
        crate::json::lemma_lookup_at_index(fields, key, 0);
    } else if fields[1].0@ == key {
        crate::json::lemma_lookup_at_index(fields, key, 1);
    } else if fields[2].0@ == key {
        crate::json::lemma_lookup_at_index(fields, key, 2);
    } else {
        crate::json::lemma_lookup_none(fields, key);
    }
}

/// A two-step unfolding of a lookup among exactly two fields.
proof fn lemma_lookup_two(fields: Seq<(String, JsonValue)>, key: Seq<char>)
    requires
        fields.len() == 2,
    ensures
        lookup_fields(fields, key) == (if fields[0].0@ == key {
            Some(fields[0].1)
        } else if fields[1].0@ == key {
            Some(fields[1].1)
        } else {
            None::<JsonValue>
        }),
{
    if fields[0].0@ == key {
        crate::json::lemma_lookup_at_index(fields, key, 0);
    } else if fields[1].0@ == key {
        crate::json::lemma_lookup_at_index(fields, key, 1);
    } else {
        crate::json::lemma_lookup_none(fields, key);
    }
}

fn id_json(id: RequestId) -> (j: JsonValue)
    ensures
        j == spec_id_json(id),
{
    match id {
        RequestId::Number(n) => JsonValue::Unsigned(n),
        RequestId::Text(s) => JsonValue::Text(s),
    }
}

fn code_json(code: i64) -> (j: JsonValue)
    ensures
        j == spec_code_json(code),
{
    if code >= 0 {
        JsonValue::Unsigned(code as u64)
    } else {
        JsonValue::Signed(code)
    }
}

/// Builds the error object of an error envelope.
fn error_object(code: i64, message: String, data: ErrorData) -> (e: JsonValue)
    ensures
        e is Object,
        spec_lookup(e, "code"@) == Some(spec_code_json(code)),
        spec_lookup(e, "message"@) matches Some(JsonValue::Text(m)) && m@ == message@,
        match data {
            ErrorData::Omitted => spec_lookup(e, "data"@) is None,
            ErrorData::Given(d) => spec_lookup(e, "data"@) == Some(d),
        },
{
    proof {
        lemma_envelope_names_distinct();
    }
    let mut fields: Vec<(String, JsonValue)> = Vec::new();
    fields.push(("code".to_owned(), code_json(code)));
    fields.push(("message".to_owned(), JsonValue::Text(message)));
    match data {
        ErrorData::Omitted => {
            proof {
                lemma_lookup_two(fields@, "code"@);
                lemma_lookup_two(fields@, "message"@);
                lemma_lookup_two(fields@, "data"@);
            }
            JsonValue::Object(fields)
        },
        ErrorData::Given(d) => {
            fields.push(("data".to_owned(), d));
            proof {
                lemma_lookup_three(fields@, "code"@);
                lemma_lookup_three(fields@, "message"@);
                lemma_lookup_three(fields@, "data"@);
            }
            JsonValue::Object(fields)
        },
    }
}

/// Encodes a response envelope as a JSON value: the protocol tag, the
/// payload member, and the echoed id.
pub fn encode_envelope(env: ResponseEnvelope) -> (j: JsonValue)
    ensures
        encodes_envelope(j, env),
{
    proof {
        lemma_envelope_names_distinct();
    }
    let mut fields: Vec<(String, JsonValue)> = Vec::new();
    fields.push(("jsonrpc".to_owned(), JsonValue::Text("2.0".to_owned())));
    match env.payload {
        ResponsePayload::Result(v) => {
            fields.push(("result".to_owned(), v));
        },
        ResponsePayload::Error { code, message, data } => {
            fields.push(("error".to_owned(), error_object(code, message, data)));
        },
    }
    fields.push(("id".to_owned(), id_json(env.id)));
    proof {
        lemma_lookup_three(fields@, "jsonrpc"@);
        lemma_lookup_three(fields@, "result"@);
        lemma_lookup_three(fields@, "error"@);
        lemma_lookup_three(fields@, "id"@);
    }
    JsonValue::Object(fields)
}

/// Wraps a response envelope as the OK reply that carries it on the wire.
pub fn build_web3_response(env: ResponseEnvelope) -> (r: HttpReply)
    ensures
        carries_envelope(r, env),
{
    let j = encode_envelope(env);
    let body = json_to_string(&j);
    build_json_response(body)
}

/// An OK reply with a JSON content type and this body.
pub fn build_json_response(data: String) -> (r: HttpReply)
    ensures
        r.status == 200,
        r.json_content,
        !r.cors_wildcard,
        r.body == data,
{
    HttpReply { status: 200, json_content: true, cors_wildcard: false, body: data }
}

/// A plain-text reply with this status and message, paired with the message
/// for the caller's log line.
pub fn build_error_response(status_code: u16, error: &String) -> (r: (HttpReply, String))
    ensures
        is_plain_reply(r.0, status_code, error@),
        r.1@ == error@,
{
    (
        HttpReply {
            status: status_code,
            json_content: false,
            cors_wildcard: false,
            body: error.clone(),
        },
        error.clone(),
    )
}

/// A 400 reply naming the envelope member whose type was wrong or missing.
pub fn build_wrong_argument_response(argument: &str, expected_type: &str) -> (r: (
    HttpReply,
    String,
))
    ensures
        is_plain_reply(r.0, 400, crate::codec::spec_wrong_argument_message(argument@, expected_type@)),
        r.1@ == crate::codec::spec_wrong_argument_message(argument@, expected_type@),
{
    let mut m = "\"".to_owned();
    m.append(argument);
    m.append("\" is not a ");
    m.append(expected_type);
    let body = m.clone();
    (HttpReply { status: 400, json_content: false, cors_wildcard: false, body }, m)
}

} // verus!
