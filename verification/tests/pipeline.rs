//! End-to-end tests of the mediation pipeline: codec failures, policy
//! decisions, and the range rule, driven exactly as the HTTP layer drives
//! the library.

use web3_proxy::codec::RequestId;
use web3_proxy::LogLevel;
use web3_proxy::json::{wire_params, JsonValue};
use web3_proxy::policy::{BlockRef, LogsCheck, MAX_BLOCKS_TO_QUERY, METHOD_NOT_FOUND_CODE};
use web3_proxy::router::{begin_proxy, continue_with_head, log_rejected, ProxyStep};

fn step(body: &str) -> ProxyStep {
    begin_proxy(body.as_bytes())
}

fn respond_body(step: ProxyStep) -> (u16, String) {
    match step {
        ProxyStep::Respond(rep) => (rep.status, rep.body),
        _ => panic!("expected a direct reply"),
    }
}

#[test]
fn missing_method_is_rejected_before_upstream() {
    let s = step(r#"{"id": 1, "params": []}"#);
    assert!(matches!(s, ProxyStep::Respond(_)), "no upstream step may be produced");
    let (status, body) = respond_body(s);
    assert_eq!(status, 400);
    assert_eq!(body, "\"method\" is not a string");
}

#[test]
fn non_string_method_is_rejected_before_upstream() {
    let s = step(r#"{"method": 5, "id": 1}"#);
    let (status, body) = respond_body(s);
    assert_eq!(status, 400);
    assert_eq!(body, "\"method\" is not a string");
}

#[test]
fn bad_id_is_rejected() {
    let s = step(r#"{"method": "eth_blockNumber"}"#);
    let (status, body) = respond_body(s);
    assert_eq!(status, 400);
    assert_eq!(body, "\"id\" is not a number or string");
    let s = step(r#"{"method": "eth_blockNumber", "id": -3}"#);
    let (status, body) = respond_body(s);
    assert_eq!(status, 400);
    assert_eq!(body, "\"id\" is not a number or string");
}

#[test]
fn malformed_json_is_rejected() {
    let (status, _) = respond_body(step("{oops"));
    assert_eq!(status, 400);
}

#[test]
fn malformed_body_is_rejected() {
    let s = begin_proxy(&[0xff, 0xfe, 0x01]);
    let (status, _) = respond_body(s);
    assert_eq!(status, 400);
}

#[test]
fn ordinary_method_is_forwarded_with_its_arguments() {
    let s = step(r#"{"method": "eth_getBalance", "id": 1, "params": ["0xabc", "latest"]}"#);
    match s {
        ProxyStep::Forward(env) => {
            assert_eq!(env.method, "eth_getBalance");
            assert!(matches!(env.id, RequestId::Number(1)));
            let wire = wire_params(&env.params);
            assert_eq!(wire.len(), 2);
            assert_eq!(wire[0], serde_json::Value::String("0xabc".to_string()));
            assert_eq!(wire[1], serde_json::Value::String("latest".to_string()));
        }
        _ => panic!("expected the call to be forwarded"),
    }
}

#[test]
fn non_array_params_become_empty_argument_list() {
    let s = step(r#"{"method": "eth_blockNumber", "id": 1, "params": 5}"#);
    match s {
        ProxyStep::Forward(env) => {
            assert_eq!(env.params.len(), 0, "the wire call is issued with no arguments");
        }
        _ => panic!("expected the call to be forwarded"),
    }
}

#[test]
fn account_listing_is_always_denied() {
    for body in [
        r#"{"method": "eth_accounts", "id": 1}"#,
        r#"{"method": "eth_accounts", "id": 1, "params": [1, 2, 3]}"#,
        r#"{"method": "eth_accounts", "id": "x", "params": {"a": true}}"#,
    ] {
        let s = step(body);
        assert!(
            matches!(s, ProxyStep::Respond(_)),
            "the upstream adapter must never be invoked"
        );
        let (status, text) = respond_body(s);
        assert_eq!(status, 200, "a policy denial is an availability statement, not a bad request");
        let v: serde_json::Value = serde_json::from_str(&text).unwrap();
        assert_eq!(v["jsonrpc"], "2.0");
        assert_eq!(v["error"]["code"], serde_json::Value::from(METHOD_NOT_FOUND_CODE));
        assert_eq!(
            v["error"]["message"],
            "the method eth_accounts does not exist/is not available"
        );
        assert!(v["error"].get("data").is_none(), "the proxy's own refusal carries no data");
        assert!(v.get("result").is_none());
    }
}

#[test]
fn method_not_found_code_matches_the_protocol() {
    assert_eq!(METHOD_NOT_FOUND_CODE, jsonrpc_core::ErrorCode::MethodNotFound.code());
}

#[test]
fn log_search_needs_the_head_block() {
    let s = step(r#"{"method": "eth_getLogs", "id": 1, "params": [{"fromBlock": 100, "toBlock": 200}]}"#);
    match s {
        ProxyStep::QueryHead(env) => {
            assert_eq!(env.method, "eth_getLogs");
        }
        _ => panic!("expected a head-block query"),
    }
}

#[test]
fn range_of_exactly_the_ceiling_is_allowed() {
    let s = step(r#"{"method": "eth_getLogs", "id": 1, "params": [{"fromBlock": 0, "toBlock": 1000}]}"#);
    let env = match s {
        ProxyStep::QueryHead(env) => env,
        _ => panic!("expected a head-block query"),
    };
    assert_eq!(MAX_BLOCKS_TO_QUERY, 1000);
    match continue_with_head(env, Ok(5000)) {
        ProxyStep::Forward(env) => assert_eq!(env.method, "eth_getLogs"),
        _ => panic!("a range of exactly 1000 blocks is allowed"),
    }
}

#[test]
fn range_one_past_the_ceiling_is_rejected() {
    let s = step(r#"{"method": "eth_getLogs", "id": 1, "params": [{"fromBlock": 0, "toBlock": 1001}]}"#);
    let env = match s {
        ProxyStep::QueryHead(env) => env,
        _ => panic!("expected a head-block query"),
    };
    let (status, body) = respond_body(continue_with_head(env, Ok(5000)));
    assert_eq!(status, 400);
    assert_eq!(body, "only up to 1000 blocks can be queried");
}

#[test]
fn block_hash_scoped_query_is_allowed_whatever_the_range() {
    let s = step(
        r#"{"method": "eth_getLogs", "id": 1, "params": [{"blockHash": "0xab", "fromBlock": 0, "toBlock": 99999999}]}"#,
    );
    match s {
        ProxyStep::Forward(env) => assert_eq!(env.method, "eth_getLogs"),
        _ => panic!("a block-hash-scoped query cannot be unbounded"),
    }
}

#[test]
fn symbolic_tags_resolve_past_the_head_not_to_zero() {
    // With the head at 4500, "earliest" resolves to 4501, so the range up to
    // 5000 spans 499 blocks and passes; had the tag resolved to zero the
    // range would span 5000 blocks and be refused.
    let s = step(
        r#"{"method": "eth_getLogs", "id": 1, "params": [{"fromBlock": "earliest", "toBlock": 5000}]}"#,
    );
    let env = match s {
        ProxyStep::QueryHead(env) => env,
        _ => panic!("expected a head-block query"),
    };
    match continue_with_head(env, Ok(4500)) {
        ProxyStep::Forward(_) => {}
        _ => panic!("\"earliest\" must resolve to head+1, not to block zero"),
    }
    let s = step(
        r#"{"method": "eth_getLogs", "id": 1, "params": [{"fromBlock": "pending", "toBlock": 5000}]}"#,
    );
    let env = match s {
        ProxyStep::QueryHead(env) => env,
        _ => panic!("expected a head-block query"),
    };
    match continue_with_head(env, Ok(4500)) {
        ProxyStep::Forward(_) => {}
        _ => panic!("\"pending\" must resolve to head+1, not to block zero"),
    }
}

#[test]
fn absent_bounds_default_to_the_head() {
    let s = step(r#"{"method": "eth_getLogs", "id": 1, "params": [{}]}"#);
    let env = match s {
        ProxyStep::QueryHead(env) => env,
        _ => panic!("expected a head-block query"),
    };
    match continue_with_head(env, Ok(123456)) {
        ProxyStep::Forward(_) => {}
        _ => panic!("head-to-head is a zero-width range and passes"),
    }
}

#[test]
fn failed_head_query_stops_the_call_with_500() {
    let s = step(r#"{"method": "eth_getLogs", "id": 1, "params": [{"fromBlock": 1, "toBlock": 2}]}"#);
    let env = match s {
        ProxyStep::QueryHead(env) => env,
        _ => panic!("expected a head-block query"),
    };
    let (status, body) = respond_body(continue_with_head(env, Err("connection refused".to_string())));
    assert_eq!(status, 500);
    assert_eq!(body, "connection refused");
}

#[test]
fn malformed_log_search_params_are_rejected() {
    for body in [
        r#"{"method": "eth_getLogs", "id": 1}"#,
        r#"{"method": "eth_getLogs", "id": 1, "params": []}"#,
        r#"{"method": "eth_getLogs", "id": 1, "params": [5]}"#,
        r#"{"method": "eth_getLogs", "id": 1, "params": "x"}"#,
    ] {
        let (status, text) = respond_body(step(body));
        assert_eq!(status, 400);
        assert_eq!(text, "\"params\" is not formatted correctly");
    }
}

#[test]
fn check_get_logs_reads_the_filter() {
    let params = vec![JsonValue::Object(vec![
        ("fromBlock".to_string(), JsonValue::Unsigned(7)),
        ("toBlock".to_string(), JsonValue::Text("pending".to_string())),
    ])];
    match web3_proxy::policy::check_get_logs(&params) {
        LogsCheck::NeedHead { from, to } => {
            assert_eq!(from, BlockRef::Number(7));
            assert_eq!(to, BlockRef::HeadSuccessor);
        }
        other => panic!("expected a range query, got {:?}", other),
    }
}

#[test]
fn repeated_filter_members_read_first_match_first() {
    let params = vec![JsonValue::Object(vec![
        ("fromBlock".to_string(), JsonValue::Unsigned(1)),
        ("fromBlock".to_string(), JsonValue::Unsigned(9)),
    ])];
    match web3_proxy::policy::check_get_logs(&params) {
        LogsCheck::NeedHead { from, to } => {
            assert_eq!(from, BlockRef::Number(1));
            assert_eq!(to, BlockRef::Absent);
        }
        other => panic!("expected a range query, got {:?}", other),
    }
}

#[test]
fn range_check_is_exact_at_the_boundary() {
    assert!(web3_proxy::policy::range_allowed(BlockRef::Number(0), BlockRef::Number(1000), 9));
    assert!(!web3_proxy::policy::range_allowed(BlockRef::Number(0), BlockRef::Number(1001), 9));
    assert!(web3_proxy::policy::range_allowed(BlockRef::Number(500), BlockRef::Number(2), 9));
    assert!(web3_proxy::policy::range_allowed(BlockRef::Absent, BlockRef::HeadSuccessor, u64::MAX - 1));
}

#[test]
fn rejected_requests_are_logged_with_method_and_reason() {
    assert_eq!(
        log_rejected("eth_accounts", "method not allowed"),
        "Rejected request to eth_accounts: method not allowed"
    );
}

#[test]
fn log_level_parses_known_verbosity_counts_only() {
    assert!(matches!(web3_proxy::parse_log_level(0), Some(LogLevel::Info)));
    assert!(matches!(web3_proxy::parse_log_level(1), Some(LogLevel::Debug)));
    assert!(matches!(web3_proxy::parse_log_level(2), Some(LogLevel::Trace)));
    assert!(web3_proxy::parse_log_level(3).is_none());
}
