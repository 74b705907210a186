//! The upstream adapter's outcome classification: what came back from the
//! upstream JSON-RPC executor, and the reply each outcome earns. The call
//! itself is network work and stays outside the library; the classification
//! of its result and the reply assembly are decided here.

use vstd::prelude::*;

use crate::codec::RequestId;
use crate::json::{json_of_serde, JsonValue};
use crate::reply::{
    build_error_response, build_web3_response, carries_envelope, ErrorData, HttpReply,
    ResponseEnvelope, ResponsePayload,
};

verus! {

/// An opaque handle to `web3::Error`, so that a raw upstream failure can
/// stand in signatures.
#[verifier::external_type_specification]
#[verifier::external_body]
pub struct ExWeb3Error(web3::Error);

/// A classified upstream outcome.
pub enum UpstreamOutcome {
    /// The upstream returned a value.
    Success(JsonValue),
    /// The upstream itself rejected the call with a structured fault; not an
    /// error of the proxy. The data member is null where the fault gave none.
    RpcFault { code: i64, message: String, data: JsonValue },
    /// The upstream could not be spoken to; carries the failure description.
    TransportFailure(String),
}

/// Relies on `web3::Error`: the `Rpc` variant carries the upstream's own
/// structured fault (an integer code, a message, optional data); every other
/// variant is a transport-level failure, described through its display text.
#[verifier::external_body]
fn classify_web3_error(e: web3::Error) -> (r: UpstreamOutcome)
    ensures
        !(r is Success),
{
    match e {
        web3::Error::Rpc(fault) => UpstreamOutcome::RpcFault {
            code: fault.code.code(),
            message: fault.message,
            data: match fault.data {
                Some(d) => json_of_serde(&d),
                None => JsonValue::Null,
            },
        },
        other => UpstreamOutcome::TransportFailure(format!("{}", other)),
    }
}

/// Whether a reply is what an outcome earns: a success or a structured fault
/// is embedded in an ordinary envelope that echoes the caller's id; a
/// transport failure is a plain 500 with the failure description.
pub open spec fn reply_matches_outcome(r: HttpReply, id: RequestId, o: UpstreamOutcome) -> bool {
    match o {
        UpstreamOutcome::Success(v) => carries_envelope(
            r,
            ResponseEnvelope { id, payload: ResponsePayload::Result(v) },
        ),
        UpstreamOutcome::RpcFault { code, message, data } => carries_envelope(
            r,
            ResponseEnvelope {
                id,
                payload: ResponsePayload::Error { code, message, data: ErrorData::Given(data) },
            },
        ),
        UpstreamOutcome::TransportFailure(d) => crate::reply::is_plain_reply(r, 500, d@),
    }
}

/// Assembles the reply a classified outcome earns.
pub fn reply_for_outcome(id: RequestId, o: UpstreamOutcome) -> (r: HttpReply)
    ensures
        reply_matches_outcome(r, id, o),
{
    match o {
        UpstreamOutcome::Success(v) => build_web3_response(
            ResponseEnvelope { id, payload: ResponsePayload::Result(v) },
        ),
        UpstreamOutcome::RpcFault { code, message, data } => build_web3_response(
            ResponseEnvelope {
                id,
                payload: ResponsePayload::Error { code, message, data: ErrorData::Given(data) },
            },
        ),
        UpstreamOutcome::TransportFailure(d) => build_error_response(500, &d).0,
    }
}

/// Classifies what the upstream executor handed back and assembles the
/// reply: a value or a structured fault is embedded in an envelope echoing
/// the caller's id; anything else is a plain 500.
pub fn finish_forward(id: RequestId, result: Result<serde_json::Value, web3::Error>) -> (r:
    HttpReply)
    ensures
        result is Ok ==> exists|v: JsonValue|
            #[trigger] reply_matches_outcome(r, id, UpstreamOutcome::Success(v)),
        result is Err ==> exists|o: UpstreamOutcome|
            #[trigger] reply_matches_outcome(r, id, o) && !(o is Success),
{
    match result {
        Ok(v) => {
            let value = json_of_serde(&v);
            reply_for_outcome(id, UpstreamOutcome::Success(value))
        },
        Err(e) => {
            let outcome = classify_web3_error(e);
            reply_for_outcome(id, outcome)
        },
    }
}

} // verus!
