//! The policy engine: a per-method rule deciding whether a call may be
//! forwarded. Methods with no rule are allowed unconditionally; the
//! account-listing method is always denied; the log-search method is held to
//! a bounded block range, which may take one side query for the current head
//! block number.

use vstd::prelude::*;

use crate::codec::RequestEnvelope;
use crate::json::{lookup_fields, lookup_field, str_eq, JsonValue};

verus! {

/// The widest block range the log-search method may query.
pub const MAX_BLOCKS_TO_QUERY: u64 = 1000;

/// The JSON-RPC error code for a method that is not available.
pub const METHOD_NOT_FOUND_CODE: i64 = -32601;

/// A block reference as found in a log-search filter, before resolution
/// against the current head block.
#[derive(Clone, Copy, PartialEq, Eq, Structural, Debug)]
pub enum BlockRef {
    /// No member given: the current head block.
    Absent,
    /// A numeric literal.
    Number(u64),
    /// One of the symbolic tags `"earliest"` / `"pending"`: the block after
    /// the head, the upstream's convention for "not yet mined".
    HeadSuccessor,
    /// Anything else: treated as the current head block.
    Other,
}

/// What the log-search parameter check found.
#[derive(Clone, Copy, PartialEq, Eq, Structural, Debug)]
pub enum LogsCheck {
    /// A block-hash-scoped query: allowed without consulting the chain.
    Allowed,
    /// A range query: the head block number is needed to resolve it.
    NeedHead { from: BlockRef, to: BlockRef },
    /// The first parameter is absent or not an object.
    Malformed,
}

/// The policy's verdict on a decoded envelope.
pub enum Decision {
    /// Forward the call to the upstream.
    Allow,
    /// Refuse, embedded as a JSON-RPC error in an ordinary envelope: the
    /// rejection is a statement about availability, not a malformed request.
    RejectEnvelope { code: i64, message: String },
    /// Refuse at the transport level with this HTTP status.
    RejectHttp { status: u16, message: String },
    /// The bounded-range rule needs the current head block number.
    NeedHead { from: BlockRef, to: BlockRef },
}

/// The block reference denoted by one filter member.
pub open spec fn spec_block_ref(j: JsonValue) -> BlockRef {
    match j {
        JsonValue::Unsigned(n) => BlockRef::Number(n),
        JsonValue::Text(s) => if s@ == "earliest"@ || s@ == "pending"@ {
            BlockRef::HeadSuccessor
        } else {
            BlockRef::Other
        },
        _ => BlockRef::Other,
    }
}

/// The block reference of an optional filter member.
pub open spec fn spec_block_ref_opt(o: Option<JsonValue>) -> BlockRef {
    match o {
        None => BlockRef::Absent,
        Some(j) => spec_block_ref(j),
    }
}

/// What the log-search check finds in an argument list.
pub open spec fn spec_check_logs(params: Seq<JsonValue>) -> LogsCheck {
    if params.len() == 0 {
        LogsCheck::Malformed
    } else {
        match params[0] {
            JsonValue::Object(fields) => if lookup_fields(fields@, "blockHash"@) is Some {
                LogsCheck::Allowed
            } else {
                LogsCheck::NeedHead {
                    from: spec_block_ref_opt(lookup_fields(fields@, "fromBlock"@)),
                    to: spec_block_ref_opt(lookup_fields(fields@, "toBlock"@)),
                }
            },
            _ => LogsCheck::Malformed,
        }
    }
}

/// The block number a reference resolves to, given the head block.
pub open spec fn spec_resolve(r: BlockRef, head: u64) -> int {
    match r {
        BlockRef::Absent => head as int,
        BlockRef::Number(n) => n as int,
        BlockRef::HeadSuccessor => head as int + 1,
        BlockRef::Other => head as int,
    }
}

/// Whether a resolved range stays within the ceiling.
pub open spec fn spec_range_allowed(from: BlockRef, to: BlockRef, head: u64) -> bool {
    spec_resolve(to, head) - spec_resolve(from, head) <= MAX_BLOCKS_TO_QUERY
}

fn block_ref_of(o: Option<&JsonValue>) -> (r: BlockRef)
    ensures
        r == (match o {
            None => BlockRef::Absent,
            Some(j) => spec_block_ref(*j),
        }),
{
    match o {
        None => BlockRef::Absent,
        Some(JsonValue::Unsigned(n)) => BlockRef::Number(*n),
        Some(JsonValue::Text(s)) => {
            if str_eq(s.as_str(), "earliest") || str_eq(s.as_str(), "pending") {
                BlockRef::HeadSuccessor
            } else {
                BlockRef::Other
            }
        },
        Some(_) => BlockRef::Other,
    }
}

/// Checks the log-search arguments: the first parameter must be an object; a
/// `blockHash` member scopes the query to one block and passes it; otherwise
/// the `fromBlock` / `toBlock` references are read for range resolution.
pub fn check_get_logs(params: &Vec<JsonValue>) -> (r: LogsCheck)
    ensures
        r == spec_check_logs(params@),
{
    if params.len() == 0 {
        return LogsCheck::Malformed;
    }
    match &params[0] {
        JsonValue::Object(fields) => {
            if lookup_field(fields, "blockHash").is_some() {
                LogsCheck::Allowed
            } else {
                let from = block_ref_of(lookup_field(fields, "fromBlock"));
                let to = block_ref_of(lookup_field(fields, "toBlock"));
                LogsCheck::NeedHead { from, to }
            }
        },
        _ => LogsCheck::Malformed,
    }
}

fn resolve_block(r: BlockRef, head: u64) -> (x: u128)
    ensures
        x == spec_resolve(r, head),
{
    match r {
        BlockRef::Absent => head as u128,
        BlockRef::Number(n) => n as u128,
        BlockRef::HeadSuccessor => head as u128 + 1,
        BlockRef::Other => head as u128,
    }
}

/// Whether the resolved range stays within the ceiling.
pub fn range_allowed(from: BlockRef, to: BlockRef, head: u64) -> (r: bool)
    ensures
        r == spec_range_allowed(from, to, head),
{
    let f = resolve_block(from, head);
    let t = resolve_block(to, head);
    t <= f + (MAX_BLOCKS_TO_QUERY as u128)
}

/// Whether the envelope's method is the account-listing method, which lists
/// the accounts registered on the node and is nobody else's business.
pub open spec fn is_account_listing(env: RequestEnvelope) -> bool {
    env.method@ == "eth_accounts"@
}

/// Whether the envelope's method is the log-search method, which can put an
/// unreasonably high load on the node by searching a large block range.
pub open spec fn is_log_search(env: RequestEnvelope) -> bool {
    env.method@ == "eth_getLogs"@
}

/// What the policy decides for a decoded envelope, before any side query.
pub open spec fn decision_matches(env: RequestEnvelope, r: Decision) -> bool {
    if is_account_listing(env) {
        r matches Decision::RejectEnvelope { code, message }
            && code == METHOD_NOT_FOUND_CODE
            && message@ == msg_method_not_found()
    } else if is_log_search(env) {
        match spec_check_logs(env.params@) {
            LogsCheck::Malformed => r matches Decision::RejectHttp { status, message }
                && status == 400 && message@ == msg_malformed_params(),
            LogsCheck::Allowed => r is Allow,
            LogsCheck::NeedHead { from, to } => r == Decision::NeedHead { from, to },
        }
    } else {
        r is Allow
    }
}

/// The text of the account-listing refusal.
pub open spec fn msg_method_not_found() -> Seq<char> {
    "the method eth_accounts does not exist/is not available"@
}

/// The text of the malformed log-search parameter refusal.
pub open spec fn msg_malformed_params() -> Seq<char> {
    "\"params\" is not formatted correctly"@
}

/// The text of the range-ceiling refusal.
pub open spec fn msg_range_too_wide() -> Seq<char> {
    "only up to 1000 blocks can be queried"@
}

/// Applies the per-method rule to a decoded envelope.
pub fn evaluate_policy(env: &RequestEnvelope) -> (r: Decision)
    ensures
        decision_matches(*env, r),
{
    if str_eq(env.method.as_str(), "eth_accounts") {
        Decision::RejectEnvelope {
            code: METHOD_NOT_FOUND_CODE,
            message: "the method eth_accounts does not exist/is not available".to_owned(),
        }
    } else if str_eq(env.method.as_str(), "eth_getLogs") {
        match check_get_logs(&env.params) {
            LogsCheck::Allowed => Decision::Allow,
            LogsCheck::Malformed => Decision::RejectHttp {
                status: 400,
                message: "\"params\" is not formatted correctly".to_owned(),
            },
            LogsCheck::NeedHead { from, to } => Decision::NeedHead { from, to },
        }
    } else {
        Decision::Allow
    }
}

/// What the bounded-range rule decides once the head query has come back:
/// a failed head query makes the policy unevaluable, so the call must not
/// proceed; otherwise the resolved range is held to the ceiling.
pub open spec fn head_decision_matches(
    from: BlockRef,
    to: BlockRef,
    head: Result<u64, String>,
    r: Decision,
) -> bool {
    match head {
        Err(m) => r matches Decision::RejectHttp { status, message }
            && status == 500 && message == m,
        Ok(h) => if spec_range_allowed(from, to, h) {
            r is Allow
        } else {
            r matches Decision::RejectHttp { status, message }
                && status == 400 && message@ == msg_range_too_wide()
        },
    }
}

/// Finishes the bounded-range rule with the outcome of the head query.
pub fn decide_with_head(from: BlockRef, to: BlockRef, head: Result<u64, String>) -> (r: Decision)
    ensures
        head_decision_matches(from, to, head, r),
{
    match head {
        Err(m) => Decision::RejectHttp { status: 500, message: m },
        Ok(h) => {
            if range_allowed(from, to, h) {
                Decision::Allow
            } else {
                Decision::RejectHttp {
                    status: 400,
                    message: "only up to 1000 blocks can be queried".to_owned(),
                }
            }
        },
    }
}

} // verus!
