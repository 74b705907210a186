//! The envelope codec: decoding a raw request body into a JSON-RPC request
//! envelope, and the failures that short-circuit a request before any
//! upstream contact.

use vstd::prelude::*;

use crate::json::{
    json_of_serde, lookup_fields, spec_lookup, JsonValue,
};

verus! {

/// The caller's correlation identifier, echoed back with its original type.
pub enum RequestId {
    Number(u64),
    Text(String),
}

/// A decoded JSON-RPC request envelope. A `params` member that is absent or
/// not an array is treated as an empty argument list, a deliberate leniency.
pub struct RequestEnvelope {
    pub method: String,
    pub id: RequestId,
    pub params: Vec<JsonValue>,
}

/// The envelope member whose type was wrong or missing.
pub enum BadField {
    Method,
    Id,
}

/// A client-input failure, surfaced as a plain 400 reply.
pub enum CodecError {
    /// The body is not valid text; carries the decoder's message.
    MalformedBody(String),
    /// The body is not a single JSON value; carries the parser's message.
    MalformedJson(String),
    /// A required envelope member is missing or of the wrong type.
    InvalidArgument(BadField),
}

/// The member name a wrong-argument failure reports.
pub open spec fn spec_field_name(f: BadField) -> Seq<char> {
    match f {
        BadField::Method => "method"@,
        BadField::Id => "id"@,
    }
}

/// The type a wrong-argument failure expected.
pub open spec fn spec_field_expected(f: BadField) -> Seq<char> {
    match f {
        BadField::Method => "string"@,
        BadField::Id => "number or string"@,
    }
}

/// The human-readable text of a wrong-argument failure.
pub open spec fn spec_wrong_argument_message(argument: Seq<char>, expected: Seq<char>) -> Seq<
    char,
> {
    "\""@ + argument + "\" is not a "@ + expected
}

/// The human-readable text of a codec failure.
pub open spec fn spec_codec_message(e: CodecError) -> Seq<char> {
    match e {
        CodecError::MalformedBody(m) => m@,
        CodecError::MalformedJson(m) => m@,
        CodecError::InvalidArgument(f) => spec_wrong_argument_message(
            spec_field_name(f),
            spec_field_expected(f),
        ),
    }
}

/// Whether the parsed JSON carries a `method` member of string type.
pub open spec fn method_ok(v: JsonValue) -> bool {
    spec_lookup(v, "method"@) matches Some(JsonValue::Text(_))
}

/// Whether the parsed JSON carries an `id` member that is a string or an
/// unsigned integer.
pub open spec fn id_ok(v: JsonValue) -> bool {
    ||| spec_lookup(v, "id"@) matches Some(JsonValue::Text(_))
    ||| spec_lookup(v, "id"@) matches Some(JsonValue::Unsigned(_))
}

/// The envelope's id, for a JSON value whose id member is well-typed.
pub open spec fn spec_id_of(v: JsonValue) -> RequestId
    recommends
        id_ok(v),
{
    match spec_lookup(v, "id"@) {
        Some(JsonValue::Text(s)) => RequestId::Text(s),
        Some(JsonValue::Unsigned(n)) => RequestId::Number(n),
        _ => RequestId::Number(0),
    }
}

/// The envelope's argument list: the `params` array, or empty when absent or
/// not an array.
pub open spec fn spec_params_of(v: JsonValue) -> Seq<JsonValue> {
    match spec_lookup(v, "params"@) {
        Some(JsonValue::Array(a)) => a@,
        _ => Seq::empty(),
    }
}

/// What was decoded from the byte body, named but not stated: `None` where
/// the bytes are not valid text.
pub uninterp spec fn utf8_of(b: Seq<u8>) -> Option<Seq<char>>;

/// What was parsed from the body text, as the library models JSON, named but
/// not stated: `None` where the text is not a single JSON value.
pub uninterp spec fn json_of_text(s: Seq<char>) -> Option<JsonValue>;

/// Relies on `String::from_utf8`: it succeeds exactly on valid text, and the
/// decoded text is a function of the bytes alone.
#[verifier::external_body]
fn utf8_decode(body: &[u8]) -> (r: Result<String, String>)
    ensures
        match r {
            Ok(s) => utf8_of(body@) == Some(s@),
            Err(_) => utf8_of(body@) is None,
        },
{
    match String::from_utf8(body.to_vec()) {
        Ok(s) => Ok(s),
        Err(e) => Err(e.to_string()),
    }
}

/// Relies on `serde_json::from_str`: it succeeds exactly on a single JSON
/// value, and the parsed value, as the library models it, is a function of
/// the text alone.
#[verifier::external_body]
fn parse_json_text(s: &str) -> (r: Result<JsonValue, String>)
    ensures
        match r {
            Ok(j) => json_of_text(s@) == Some(j),
            Err(_) => json_of_text(s@) is None,
        },
{
    match serde_json::from_str::<serde_json::Value>(s) {
        Ok(v) => Ok(json_of_serde(&v)),
        Err(e) => Err(e.to_string()),
    }
}

/// Turns a raw request body into a parsed JSON value, or the failure that
/// stops the request: unreadable text, then unparseable JSON.
pub fn parse_json_request(body: &[u8]) -> (r: Result<JsonValue, CodecError>)
    ensures
        match utf8_of(body@) {
            None => r matches Err(CodecError::MalformedBody(_)),
            Some(text) => match json_of_text(text) {
                None => r matches Err(CodecError::MalformedJson(_)),
                Some(j) => r == Ok::<JsonValue, CodecError>(j),
            },
        },
{
    match utf8_decode(body) {
        Err(m) => Err(CodecError::MalformedBody(m)),
        Ok(s) => match parse_json_text(s.as_str()) {
            Err(m) => Err(CodecError::MalformedJson(m)),
            Ok(j) => Ok(j),
        },
    }
}

/// A lookup over a prefix grows by one field at a time.
proof fn lemma_lookup_push(fields: Seq<(String, JsonValue)>, x: (String, JsonValue), key: Seq<char>)
    ensures
        lookup_fields(fields.push(x), key) == (match lookup_fields(fields, key) {
            Some(v) => Some(v),
            None => if x.0@ == key {
                Some(x.1)
            } else {
                None
            },
        }),
    decreases fields.len(),
{
    let grown = fields.push(x);
    if fields.len() == 0 {
        assert(grown[0] == x);
        assert(grown.subrange(1, 1) =~= Seq::<(String, JsonValue)>::empty());
        assert(lookup_fields(Seq::<(String, JsonValue)>::empty(), key) is None);
    } else {
        let rest = fields.subrange(1, fields.len() as int);
        lemma_lookup_push(rest, x, key);
        assert(grown[0] == fields[0]);
        assert(grown.subrange(1, fields.len() as int + 1) =~= rest.push(x));
    }
}

/// The three envelope member names are pairwise distinct.
proof fn lemma_member_names_distinct()
    ensures
        "method"@ != "id"@,
        "method"@ != "params"@,
        "id"@ != "params"@,
{
    reveal_strlit("method");
    reveal_strlit("id");
    reveal_strlit("params");
    assert("method"@.len() == 6);
    assert("id"@.len() == 2);
    assert("params"@.len() == 6);
    assert("method"@[0] == 'm');
    assert("params"@[0] == 'p');
}

/// Decodes the envelope members of a parsed JSON value: `method` must be a
/// string and `id` a string or unsigned integer; a `params` member that is
/// absent or not an array becomes an empty argument list.
pub fn decode_request(v: JsonValue) -> (r: Result<RequestEnvelope, CodecError>)
    ensures
        r is Err <==> !method_ok(v) || !id_ok(v),
        !method_ok(v) ==> r == Err::<RequestEnvelope, CodecError>(
            CodecError::InvalidArgument(BadField::Method),
        ),
        method_ok(v) && !id_ok(v) ==> r == Err::<RequestEnvelope, CodecError>(
            CodecError::InvalidArgument(BadField::Id),
        ),
        r matches Ok(env) ==> {
            &&& spec_lookup(v, "method"@) == Some(JsonValue::Text(env.method))
            &&& env.id == spec_id_of(v)
            &&& env.params@ == spec_params_of(v)
        },
{
    let mut fields: Vec<(String, JsonValue)> = match v {
        JsonValue::Object(f) => f,
        _ => {
            return Err(CodecError::InvalidArgument(BadField::Method));
        },
    };
    let ghost all: Seq<(String, JsonValue)> = fields@;
    let total: usize = fields.len();
    proof {
        assert(all.len() == total as int);
    }
    let mut method_v: Option<JsonValue> = None;
    let mut id_v: Option<JsonValue> = None;
    let mut params_v: Option<JsonValue> = None;
    let mut i: usize = 0;
    proof {
        assert(all.subrange(0, 0) =~= Seq::<(String, JsonValue)>::empty());
    }
    while fields.len() > 0
        invariant
            all.len() <= usize::MAX,
            i + fields@.len() == all.len(),
            fields@ =~= all.subrange(i as int, all.len() as int),
            method_v == lookup_fields(all.subrange(0, i as int), "method"@),
            id_v == lookup_fields(all.subrange(0, i as int), "id"@),
            params_v == lookup_fields(all.subrange(0, i as int), "params"@),
        decreases fields@.len(),
    {
        let (key, val) = fields.remove(0);
        proof {
            lemma_member_names_distinct();
            assert(all.subrange(0, i as int + 1) =~= all.subrange(0, i as int).push(
                all[i as int],
            ));
            lemma_lookup_push(all.subrange(0, i as int), all[i as int], "method"@);
            lemma_lookup_push(all.subrange(0, i as int), all[i as int], "id"@);
            lemma_lookup_push(all.subrange(0, i as int), all[i as int], "params"@);
            assert(fields@ =~= all.subrange(i as int + 1, all.len() as int));
        }
        if str_eq_key(&key, "method") {
            if method_v.is_none() {
                method_v = Some(val);
            }
        } else if str_eq_key(&key, "id") {
            if id_v.is_none() {
                id_v = Some(val);
            }
        } else if str_eq_key(&key, "params") {
            if params_v.is_none() {
                params_v = Some(val);
            }
        }
        i += 1;
    }
    proof {
        assert(all.subrange(0, i as int) =~= all);
    }
    let m: String = match method_v {
        Some(JsonValue::Text(s)) => s,
        _ => {
            return Err(CodecError::InvalidArgument(BadField::Method));
        },
    };
    let id: RequestId = match id_v {
        Some(JsonValue::Text(s)) => RequestId::Text(s),
        Some(JsonValue::Unsigned(n)) => RequestId::Number(n),
        _ => {
            return Err(CodecError::InvalidArgument(BadField::Id));
        },
    };
    let params: Vec<JsonValue> = match params_v {
        Some(JsonValue::Array(a)) => a,
        _ => Vec::new(),
    };
    Ok(RequestEnvelope { method: m, id, params })
}

/// The member name a wrong-argument failure reports.
pub fn field_name(f: &BadField) -> (r: &'static str)
    ensures
        r@ == spec_field_name(*f),
{
    match f {
        BadField::Method => "method",
        BadField::Id => "id",
    }
}

/// The type a wrong-argument failure expected.
pub fn field_expected(f: &BadField) -> (r: &'static str)
    ensures
        r@ == spec_field_expected(*f),
{
    match f {
        BadField::Method => "string",
        BadField::Id => "number or string",
    }
}

/// Renders the human-readable text of a codec failure.
pub fn codec_error_message(e: &CodecError) -> (r: String)
    ensures
        r@ == spec_codec_message(*e),
{
    match e {
        CodecError::MalformedBody(m) => m.clone(),
        CodecError::MalformedJson(m) => m.clone(),
        CodecError::InvalidArgument(f) => crate::reply::build_wrong_argument_response(
            field_name(f),
            field_expected(f),
        ).1,
    }
}

/// Compares an owned field key with a literal key.
fn str_eq_key(a: &String, b: &str) -> (r: bool)
    ensures
        r == (a@ == b@),
{
    crate::json::str_eq(a.as_str(), b)
}

} // verus!
