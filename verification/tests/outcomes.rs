//! Tests of the upstream outcome classification, the id round trip through
//! the response envelope, and the static routes.

use web3_proxy::codec::RequestId;
use web3_proxy::json::JsonValue;
use web3_proxy::reply::{
    build_error_response, build_json_response, build_web3_response, build_wrong_argument_response,
    ErrorData, ResponseEnvelope, ResponsePayload,
};
use web3_proxy::router::{get_info, not_found, proxy_options, route_request, Route};
use web3_proxy::upstream::{finish_forward, reply_for_outcome, UpstreamOutcome};

fn parse(body: &str) -> serde_json::Value {
    serde_json::from_str(body).unwrap()
}

#[test]
fn numeric_id_comes_back_numeric_and_equal() {
    let value: serde_json::Value = serde_json::from_str("\"0x10\"").unwrap();
    let rep = finish_forward(RequestId::Number(7), Ok(value));
    assert_eq!(rep.status, 200);
    assert!(rep.json_content);
    let v = parse(&rep.body);
    assert_eq!(v["jsonrpc"], "2.0");
    assert_eq!(v["id"], serde_json::Value::from(7u64));
    assert!(v["id"].is_u64(), "a numeric id is echoed as a number");
    assert_eq!(v["result"], "0x10");
    assert!(v.get("error").is_none());
}

#[test]
fn string_id_comes_back_as_the_same_string() {
    let value: serde_json::Value = serde_json::from_str("[1, 2]").unwrap();
    let rep = finish_forward(RequestId::Text("req-9".to_string()), Ok(value));
    let v = parse(&rep.body);
    assert_eq!(v["id"], "req-9");
    assert!(v["id"].is_string(), "a string id is echoed as a string");
    assert_eq!(v["result"], parse("[1, 2]"));
}

#[test]
fn upstream_fault_is_embedded_with_code_message_and_data() {
    let fault = jsonrpc_core::Error {
        code: jsonrpc_core::ErrorCode::InvalidParams,
        message: "bad filter".to_string(),
        data: Some(serde_json::Value::String("extra".to_string())),
    };
    let rep = finish_forward(RequestId::Number(3), Err(web3::Error::Rpc(fault)));
    assert_eq!(rep.status, 200, "an upstream fault is not an error of the proxy");
    let v = parse(&rep.body);
    assert_eq!(v["id"], serde_json::Value::from(3u64));
    assert_eq!(v["error"]["code"], serde_json::Value::from(jsonrpc_core::ErrorCode::InvalidParams.code()));
    assert_eq!(v["error"]["message"], "bad filter");
    assert_eq!(v["error"]["data"], "extra");
    assert!(v.get("result").is_none());
}

#[test]
fn upstream_fault_without_data_is_embedded_with_null_data() {
    let fault = jsonrpc_core::Error {
        code: jsonrpc_core::ErrorCode::InternalError,
        message: "boom".to_string(),
        data: None,
    };
    let rep = finish_forward(RequestId::Text("a".to_string()), Err(web3::Error::Rpc(fault)));
    let v = parse(&rep.body);
    assert_eq!(v["error"]["code"], serde_json::Value::from(-32603i64));
    assert!(v["error"]["data"].is_null());
}

#[test]
fn transport_failure_is_a_plain_500_with_the_description() {
    let rep = finish_forward(RequestId::Number(1), Err(web3::Error::Unreachable));
    assert_eq!(rep.status, 500);
    assert!(!rep.json_content);
    assert_eq!(rep.body, "Server is unreachable");
    let rep = finish_forward(
        RequestId::Number(1),
        Err(web3::Error::Decoder("truncated response".to_string())),
    );
    assert_eq!(rep.status, 500);
    assert!(rep.body.contains("truncated response"));
}

#[test]
fn mock_outcomes_drive_the_assembler_directly() {
    let rep = reply_for_outcome(
        RequestId::Number(4),
        UpstreamOutcome::RpcFault {
            code: -32000,
            message: "server error".to_string(),
            data: JsonValue::Null,
        },
    );
    let v = parse(&rep.body);
    assert_eq!(v["error"]["code"], serde_json::Value::from(-32000i64));
    assert!(v["error"]["data"].is_null());
    let rep = reply_for_outcome(
        RequestId::Number(4),
        UpstreamOutcome::TransportFailure("timed out".to_string()),
    );
    assert_eq!((rep.status, rep.body.as_str()), (500, "timed out"));
}

#[test]
fn envelope_encoding_keeps_unsigned_results_exact() {
    let rep = build_web3_response(ResponseEnvelope {
        id: RequestId::Number(u64::MAX),
        payload: ResponsePayload::Result(JsonValue::Unsigned(u64::MAX)),
    });
    let v = parse(&rep.body);
    assert_eq!(v["result"], serde_json::Value::from(u64::MAX));
    assert_eq!(v["id"], serde_json::Value::from(u64::MAX));
}

#[test]
fn omitted_error_data_stays_omitted() {
    let rep = build_web3_response(ResponseEnvelope {
        id: RequestId::Number(1),
        payload: ResponsePayload::Error {
            code: -1,
            message: "m".to_string(),
            data: ErrorData::Omitted,
        },
    });
    let v = parse(&rep.body);
    assert!(v["error"].get("data").is_none());
    assert_eq!(v["error"]["code"], serde_json::Value::from(-1i64));
}

#[test]
fn reply_builders_carry_status_and_body() {
    let rep = build_json_response("{}".to_string());
    assert_eq!((rep.status, rep.json_content, rep.body.as_str()), (200, true, "{}"));
    let (rep, logged) = build_error_response(502, &"bad gateway".to_string());
    assert_eq!((rep.status, rep.json_content, rep.body.as_str()), (502, false, "bad gateway"));
    assert_eq!(logged, "bad gateway");
    let (rep, logged) = build_wrong_argument_response("params", "array");
    assert_eq!(rep.status, 400);
    assert_eq!(rep.body, "\"params\" is not a array");
    assert_eq!(logged, "\"params\" is not a array");
}

#[test]
fn dispatcher_maps_the_three_routes_and_nothing_else() {
    assert_eq!(route_request("POST", "/"), Route::ProxyCall);
    assert_eq!(route_request("OPTIONS", "/"), Route::Preflight);
    assert_eq!(route_request("GET", "/info"), Route::Info);
    assert_eq!(route_request("GET", "/"), Route::NotFound);
    assert_eq!(route_request("POST", "/info"), Route::NotFound);
    assert_eq!(route_request("PUT", "/x"), Route::NotFound);
}

#[test]
fn preflight_reply_is_empty_with_wildcard_cors() {
    let rep = proxy_options();
    assert_eq!(rep.status, 200);
    assert!(rep.cors_wildcard);
    assert!(!rep.json_content);
    assert_eq!(rep.body, "");
}

#[test]
fn info_reply_is_the_fixed_banner() {
    let rep = get_info();
    assert_eq!(rep.status, 200);
    assert_eq!(rep.body, "This web3 provider is protected by web3-proxy");
}

#[test]
fn unknown_routes_get_a_plain_404() {
    let rep = not_found();
    assert_eq!(rep.status, 404);
    assert_eq!(rep.body, "404 - not found");
}
