//! The endpoint dispatcher and the request mediation pipeline, step by step:
//! decode the envelope, apply the policy, and assemble the reply. The two
//! suspensions a proxied call may take — the head-block side query and the
//! forwarded call itself — stand between the steps, performed by the caller.

use vstd::prelude::*;

use crate::codec::{
    codec_error_message, decode_request, id_ok, json_of_text, method_ok, parse_json_request,
    spec_id_of, spec_params_of, spec_wrong_argument_message, utf8_of, RequestEnvelope,
};
use crate::json::{spec_lookup, str_eq, JsonValue};
use crate::policy::{
    check_get_logs, decide_with_head, evaluate_policy, msg_malformed_params,
    msg_method_not_found, msg_range_too_wide, spec_check_logs, spec_range_allowed, Decision,
    LogsCheck, METHOD_NOT_FOUND_CODE,
};
use crate::reply::{
    build_error_response, build_web3_response, carries_error_reply, is_plain_reply, ErrorData,
    HttpReply, ResponseEnvelope, ResponsePayload,
};
use vstd::string::StringExecFns;

verus! {

/// The endpoint an HTTP method and path select.
#[derive(Clone, Copy, PartialEq, Eq, Structural, Debug)]
pub enum Route {
    /// `POST /`: the proxied JSON-RPC call.
    ProxyCall,
    /// `OPTIONS /`: the CORS preflight, which browser wallet clients issue
    /// before the real call.
    Preflight,
    /// `GET /info`: the fixed informational banner.
    Info,
    /// Anything else.
    NotFound,
}

/// The endpoint each method and path select.
pub open spec fn spec_route(method: Seq<char>, path: Seq<char>) -> Route {
    if method == "POST"@ && path == "/"@ {
        Route::ProxyCall
    } else if method == "OPTIONS"@ && path == "/"@ {
        Route::Preflight
    } else if method == "GET"@ && path == "/info"@ {
        Route::Info
    } else {
        Route::NotFound
    }
}

/// Maps an HTTP method and path to the endpoint that serves it.
pub fn route_request(method: &str, path: &str) -> (r: Route)
    ensures
        r == spec_route(method@, path@),
{
    if str_eq(method, "POST") && str_eq(path, "/") {
        Route::ProxyCall
    } else if str_eq(method, "OPTIONS") && str_eq(path, "/") {
        Route::Preflight
    } else if str_eq(method, "GET") && str_eq(path, "/info") {
        Route::Info
    } else {
        Route::NotFound
    }
}

/// The fixed CORS preflight reply: empty body, wildcard allow headers.
pub fn proxy_options() -> (r: HttpReply)
    ensures
        r.status == 200,
        !r.json_content,
        r.cors_wildcard,
        r.body@ == Seq::<char>::empty(),
{
    HttpReply { status: 200, json_content: false, cors_wildcard: true, body: String::new() }
}

/// The fixed informational banner.
pub fn get_info() -> (r: HttpReply)
    ensures
        is_plain_reply(r, 200, "This web3 provider is protected by web3-proxy"@),
{
    HttpReply {
        status: 200,
        json_content: false,
        cors_wildcard: false,
        body: "This web3 provider is protected by web3-proxy".to_owned(),
    }
}

/// The reply for a method and path no endpoint serves.
pub fn not_found() -> (r: HttpReply)
    ensures
        is_plain_reply(r, 404, "404 - not found"@),
{
    HttpReply {
        status: 404,
        json_content: false,
        cors_wildcard: false,
        body: "404 - not found".to_owned(),
    }
}

/// Formats the warning line for a rejected request.
pub fn log_rejected(method: &str, error: &str) -> (r: String)
    ensures
        r@ == "Rejected request to "@ + method@ + ": "@ + error@,
{
    let mut s = "Rejected request to ".to_owned();
    s.append(method);
    s.append(": ");
    s.append(error);
    s
}

/// What the pipeline asks of its caller next.
pub enum ProxyStep {
    /// The reply is decided; send it.
    Respond(HttpReply),
    /// Query the upstream for the current head block number, then hand the
    /// outcome to `continue_with_head`.
    QueryHead(RequestEnvelope),
    /// Forward the call to the upstream, then hand the outcome to
    /// `finish_forward`.
    Forward(RequestEnvelope),
}

/// The method member's characters, for a JSON value whose method member is a
/// string.
pub open spec fn spec_method_of(j: JsonValue) -> Seq<char> {
    match spec_lookup(j, "method"@) {
        Some(JsonValue::Text(m)) => m@,
        _ => Seq::empty(),
    }
}

/// Whether an envelope is the decoding of a JSON value.
pub open spec fn envelope_matches(env: RequestEnvelope, j: JsonValue) -> bool {
    &&& spec_lookup(j, "method"@) == Some(JsonValue::Text(env.method))
    &&& env.id == spec_id_of(j)
    &&& env.params@ == spec_params_of(j)
}

/// What the pipeline does with a decoded, well-typed envelope: deny the
/// account-listing method inside an ordinary envelope, hold the log-search
/// method to its parameter check, and forward everything else.
pub open spec fn step_matches_envelope(j: JsonValue, r: ProxyStep) -> bool {
    if spec_method_of(j) == "eth_accounts"@ {
        r matches ProxyStep::Respond(rep) && carries_error_reply(
            rep,
            spec_id_of(j),
            METHOD_NOT_FOUND_CODE,
            msg_method_not_found(),
            None,
        )
    } else if spec_method_of(j) == "eth_getLogs"@ {
        match spec_check_logs(spec_params_of(j)) {
            LogsCheck::Malformed => r matches ProxyStep::Respond(rep) && is_plain_reply(
                rep,
                400,
                msg_malformed_params(),
            ),
            LogsCheck::Allowed => r matches ProxyStep::Forward(env) && envelope_matches(env, j),
            LogsCheck::NeedHead { .. } => r matches ProxyStep::QueryHead(env) && envelope_matches(
                env,
                j,
            ),
        }
    } else {
        r matches ProxyStep::Forward(env) && envelope_matches(env, j)
    }
}

/// What the pipeline does with a parsed JSON value: reject a missing or
/// wrong-typed `method` or `id` member with a plain 400 before anything
/// else, then apply the policy.
pub open spec fn step_matches_json(j: JsonValue, r: ProxyStep) -> bool {
    if !method_ok(j) {
        r matches ProxyStep::Respond(rep) && is_plain_reply(
            rep,
            400,
            spec_wrong_argument_message("method"@, "string"@),
        )
    } else if !id_ok(j) {
        r matches ProxyStep::Respond(rep) && is_plain_reply(
            rep,
            400,
            spec_wrong_argument_message("id"@, "number or string"@),
        )
    } else {
        step_matches_envelope(j, r)
    }
}

fn step_for_json(j: JsonValue) -> (r: ProxyStep)
    ensures
        step_matches_json(j, r),
{
    match decode_request(j) {
        Err(e) => {
            let msg = codec_error_message(&e);
            ProxyStep::Respond(build_error_response(400, &msg).0)
        },
        Ok(env) => match evaluate_policy(&env) {
            Decision::Allow => ProxyStep::Forward(env),
            Decision::RejectEnvelope { code, message } => ProxyStep::Respond(
                build_web3_response(
                    ResponseEnvelope {
                        id: env.id,
                        payload: ResponsePayload::Error {
                            code,
                            message,
                            data: ErrorData::Omitted,
                        },
                    },
                ),
            ),
            Decision::RejectHttp { status, message } => ProxyStep::Respond(
                build_error_response(status, &message).0,
            ),
            Decision::NeedHead { .. } => ProxyStep::QueryHead(env),
        },
    }
}

/// Begins the pipeline on a raw request body: a body that is not text or not
/// a single JSON value earns a plain 400 carrying the decoder's or parser's
/// message; a parsed one is decoded and put to the policy.
pub fn begin_proxy(body: &[u8]) -> (r: ProxyStep)
    ensures
        match utf8_of(body@) {
            None => r matches ProxyStep::Respond(rep) && rep.status == 400 && !rep.json_content
                && !rep.cors_wildcard,
            Some(text) => match json_of_text(text) {
                None => r matches ProxyStep::Respond(rep) && rep.status == 400
                    && !rep.json_content && !rep.cors_wildcard,
                Some(j) => step_matches_json(j, r),
            },
        },
{
    match parse_json_request(body) {
        Ok(j) => step_for_json(j),
        Err(e) => {
            let msg = codec_error_message(&e);
            ProxyStep::Respond(build_error_response(400, &msg).0)
        },
    }
}

/// What the pipeline does once the head query has come back: forward a range
/// within the ceiling, refuse a wider one with 400, refuse with 500 where
/// the head query itself failed and the policy cannot be evaluated.
pub open spec fn step_matches_head(
    env: RequestEnvelope,
    head: Result<u64, String>,
    r: ProxyStep,
) -> bool {
    match spec_check_logs(env.params@) {
        LogsCheck::NeedHead { from, to } => match head {
            Err(m) => r matches ProxyStep::Respond(rep) && is_plain_reply(rep, 500, m@),
            Ok(h) => if spec_range_allowed(from, to, h) {
                r == ProxyStep::Forward(env)
            } else {
                r matches ProxyStep::Respond(rep) && is_plain_reply(rep, 400, msg_range_too_wide())
            },
        },
        LogsCheck::Allowed => r == ProxyStep::Forward(env),
        LogsCheck::Malformed => r matches ProxyStep::Respond(rep) && is_plain_reply(
            rep,
            400,
            msg_malformed_params(),
        ),
    }
}

/// Continues a suspended log-search call with the outcome of the head query.
pub fn continue_with_head(env: RequestEnvelope, head: Result<u64, String>) -> (r: ProxyStep)
    ensures
        step_matches_head(env, head, r),
{
    match check_get_logs(&env.params) {
        LogsCheck::NeedHead { from, to } => match decide_with_head(from, to, head) {
            Decision::RejectHttp { status, message } => ProxyStep::Respond(
                build_error_response(status, &message).0,
            ),
            _ => ProxyStep::Forward(env),
        },
        LogsCheck::Allowed => ProxyStep::Forward(env),
        LogsCheck::Malformed => ProxyStep::Respond(
            build_error_response(400, &"\"params\" is not formatted correctly".to_owned()).0,
        ),
    }
}

} // verus!
