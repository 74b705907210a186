//! The laws the pipeline obeys, stated in one place: what holds of every
//! request, not of one chosen input.

use vstd::prelude::*;

use crate::codec::{id_ok, method_ok, spec_id_of, spec_params_of, RequestId};
use crate::json::{lookup_fields, spec_lookup, JsonValue};
use crate::policy::{
    msg_method_not_found, spec_block_ref, spec_resolve, spec_range_allowed, BlockRef,
    MAX_BLOCKS_TO_QUERY, METHOD_NOT_FOUND_CODE,
};
use crate::reply::{
    carries_error_reply, encodes_error_envelope, encodes_result_envelope, HttpReply,
};
use crate::router::{
    envelope_matches, spec_method_of, step_matches_json, ProxyStep,
};
use crate::upstream::{reply_matches_outcome, UpstreamOutcome};

verus! {

/// Law: a response envelope echoes the request's id with its original type —
/// a numeric id comes back numeric and equal, a string id comes back as the
/// same string.
pub proof fn lemma_result_envelope_preserves_id(j: JsonValue, id: RequestId, v: JsonValue)
    requires
        encodes_result_envelope(j, id, v),
    ensures
        id matches RequestId::Number(n) ==> spec_lookup(j, "id"@) == Some(JsonValue::Unsigned(n)),
        id matches RequestId::Text(s) ==> spec_lookup(j, "id"@) == Some(JsonValue::Text(s)),
{
}

/// Law: an error envelope echoes the request's id with its original type,
/// exactly as a result envelope does.
pub proof fn lemma_error_envelope_preserves_id(
    j: JsonValue,
    id: RequestId,
    code: i64,
    message: Seq<char>,
    data: Option<JsonValue>,
)
    requires
        encodes_error_envelope(j, id, code, message, data),
    ensures
        id matches RequestId::Number(n) ==> spec_lookup(j, "id"@) == Some(JsonValue::Unsigned(n)),
        id matches RequestId::Text(s) ==> spec_lookup(j, "id"@) == Some(JsonValue::Text(s)),
{
}

/// Law: a request whose `method` member is missing or not a string is
/// answered directly with a plain 400; no step that contacts the upstream is
/// produced.
pub proof fn lemma_bad_method_rejected_before_upstream(j: JsonValue, r: ProxyStep)
    requires
        step_matches_json(j, r),
        !method_ok(j),
    ensures
        r matches ProxyStep::Respond(rep) && rep.status == 400,
        !(r is Forward),
        !(r is QueryHead),
{
}

/// Law: a call to the account-listing method is always denied, whatever its
/// parameters: the reply embeds a method-not-found-coded error in an
/// ordinary envelope echoing the caller's id, and no step that contacts the
/// upstream is produced.
pub proof fn lemma_account_listing_always_denied(j: JsonValue, r: ProxyStep)
    requires
        step_matches_json(j, r),
        method_ok(j),
        id_ok(j),
        spec_method_of(j) == "eth_accounts"@,
    ensures
        r matches ProxyStep::Respond(rep) && carries_error_reply(
            rep,
            spec_id_of(j),
            METHOD_NOT_FOUND_CODE,
            msg_method_not_found(),
            None,
        ),
        !(r is Forward),
        !(r is QueryHead),
{
}

/// Law: the range ceiling is inclusive — a resolved range of exactly the
/// ceiling is allowed, one block more is refused.
pub proof fn lemma_range_ceiling(from: BlockRef, to: BlockRef, head: u64)
    ensures
        spec_resolve(to, head) - spec_resolve(from, head) == MAX_BLOCKS_TO_QUERY
            ==> spec_range_allowed(from, to, head),
        spec_resolve(to, head) - spec_resolve(from, head) == MAX_BLOCKS_TO_QUERY + 1
            ==> !spec_range_allowed(from, to, head),
{
}

/// Law: a log-search call whose filter carries a `blockHash` member is
/// forwarded without any head-block query, whatever range its other members
/// imply: the block hash scopes the query to one block.
pub proof fn lemma_block_hash_scoped_query_allowed(
    j: JsonValue,
    r: ProxyStep,
    fields: Vec<(String, JsonValue)>,
)
    requires
        step_matches_json(j, r),
        method_ok(j),
        id_ok(j),
        spec_method_of(j) == "eth_getLogs"@,
        spec_params_of(j).len() > 0,
        spec_params_of(j)[0] == JsonValue::Object(fields),
        lookup_fields(fields@, "blockHash"@) is Some,
    ensures
        r matches ProxyStep::Forward(env) && envelope_matches(env, j),
        !(r is QueryHead),
{
    reveal_strlit("eth_accounts");
    reveal_strlit("eth_getLogs");
    assert("eth_accounts"@.len() == 12);
    assert("eth_getLogs"@.len() == 11);
}

/// Law: the symbolic tags `"earliest"` and `"pending"` resolve to the block
/// after the head — never to block zero (unless the chain is empty, where
/// the successor of head zero is one).
pub proof fn lemma_symbolic_tags_resolve_past_head(s: String, head: u64)
    requires
        s@ == "earliest"@ || s@ == "pending"@,
    ensures
        spec_block_ref(JsonValue::Text(s)) == BlockRef::HeadSuccessor,
        spec_resolve(BlockRef::HeadSuccessor, head) == head as int + 1,
        spec_resolve(BlockRef::HeadSuccessor, head) > 0,
{
}

/// Law: a structured fault of the upstream is not an error of the proxy —
/// the reply is an OK envelope embedding the fault's code, message and data,
/// echoing the caller's id.
pub proof fn lemma_fault_embedded_in_envelope(
    r: HttpReply,
    id: RequestId,
    code: i64,
    message: String,
    data: JsonValue,
)
    requires
        reply_matches_outcome(r, id, UpstreamOutcome::RpcFault { code, message, data }),
    ensures
        r.status == 200,
        r.json_content,
        carries_error_reply(r, id, code, message@, Some(data)),
{
}

/// Law: a transport-level failure earns a plain 500 whose body is the
/// failure's description, not a JSON-RPC envelope.
pub proof fn lemma_transport_failure_plain_500(r: HttpReply, id: RequestId, d: String)
    requires
        reply_matches_outcome(r, id, UpstreamOutcome::TransportFailure(d)),
    ensures
        r.status == 500,
        !r.json_content,
        r.body@ == d@,
{
}

} // verus!
