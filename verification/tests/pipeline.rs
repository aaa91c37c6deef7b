//! Tests for request construction, the query runner, and the report.

use monster::config::Config;
use monster::report::{logs_summary, record_outcome, Report, ReportHeader};
use monster::request::{build_filter, build_request, filter_to_json, request_body, CliArgs};
use monster::runner::{
    decode_reply, plan_query, resolve_node, PlanError, RawReply, RemoteError, RpcClient, RpcError,
};
use monster::transport::TransportKind;

fn args(address: &str, from: u64, to: u64, method: &str, node: &str) -> CliArgs {
    CliArgs {
        address: address.to_string(),
        from,
        to,
        method: method.to_string(),
        node: node.to_string(),
        timeout: 1000,
    }
}

#[test]
fn zero_address_is_omitted_from_filter() {
    let a = args("0x0", 0, 1000, "logs", "");
    let f = build_filter(&a);
    assert_eq!(f.from_block, 0);
    assert_eq!(f.to_block, 1000);
    assert!(f.address.is_none());
    assert_eq!(filter_to_json(&f), "{\"fromBlock\":\"0x0\",\"toBlock\":\"0x3e8\"}");
}

#[test]
fn real_address_is_prefixed_in_filter() {
    let a = args("abc123", 0, 1000, "logs", "");
    let f = build_filter(&a);
    assert_eq!(f.address.as_deref(), Some("0xabc123"));
    assert_eq!(
        filter_to_json(&f),
        "{\"fromBlock\":\"0x0\",\"toBlock\":\"0x3e8\",\"address\":\"0xabc123\"}"
    );
}

#[test]
fn logs_method_becomes_eth_get_logs() {
    let a = args("0x0", 0, 1000, "logs", "");
    let r = build_request(&a);
    assert_eq!(r.method, "eth_getLogs");
    assert_eq!(r.params_json, "[{\"fromBlock\":\"0x0\",\"toBlock\":\"0x3e8\"}]");
}

#[test]
fn other_method_passes_through() {
    let a = args("0x0", 2, 3, "eth_blockNumber", "");
    let r = build_request(&a);
    assert_eq!(r.method, "eth_blockNumber");
    assert_eq!(r.params_json, "[{\"fromBlock\":\"0x2\",\"toBlock\":\"0x3\"}]");
}

#[test]
fn envelope_exact_text() {
    let a = args("0x0", 0, 1000, "logs", "");
    let r = build_request(&a);
    let body = request_body(7, &r);
    assert_eq!(
        body,
        "{\"jsonrpc\":\"2.0\",\"id\":7,\"method\":\"eth_getLogs\",\
         \"params\":[{\"fromBlock\":\"0x0\",\"toBlock\":\"0x3e8\"}]}"
    );
}

#[test]
fn client_counter_is_monotonic() {
    let mut c = RpcClient::connect("ws://localhost:8546".to_string());
    assert_eq!(c.transport, TransportKind::Websocket);
    assert_eq!(c.next_id, 1);
    let a = args("0x0", 0, 1, "logs", "");
    let r = build_request(&a);
    let b1 = c.next_request_body(&r);
    let b2 = c.next_request_body(&r);
    assert_eq!(c.next_id, 3);
    assert!(b1.contains("\"id\":1"));
    assert!(b2.contains("\"id\":2"));
}

#[test]
fn cli_node_wins_over_env_and_config() {
    let r = resolve_node(
        &"http://cli".to_string(),
        &Some("http://env".to_string()),
        &"http://cfg".to_string(),
    );
    assert_eq!(r.as_deref(), Some("http://cli"));
}

#[test]
fn env_wins_over_config() {
    let r = resolve_node(
        &"".to_string(),
        &Some("http://env".to_string()),
        &"http://cfg".to_string(),
    );
    assert_eq!(r.as_deref(), Some("http://env"));
}

#[test]
fn config_is_the_fallback() {
    let r = resolve_node(&"".to_string(), &None, &"http://cfg".to_string());
    assert_eq!(r.as_deref(), Some("http://cfg"));
}

#[test]
fn missing_node_aborts_before_dispatch() {
    let config = Config::new();
    let a = args("0x0", 0, 1000, "logs", "");
    let plan = plan_query(&config, &None, &a);
    // No dispatch plan exists, so no RPC call can be issued.
    assert_eq!(plan.err(), Some(PlanError::NodeNotConfigured));
}

#[test]
fn bad_address_aborts_before_dispatch() {
    let config = Config { node_address: "http://localhost:8545".to_string() };
    let a = args("not-hex!", 0, 1000, "logs", "");
    let plan = plan_query(&config, &None, &a);
    assert_eq!(plan.err(), Some(PlanError::InvalidAddress));
}

#[test]
fn bad_method_aborts_before_dispatch() {
    let config = Config { node_address: "http://localhost:8545".to_string() };
    let a = args("0x0", 0, 1000, "bad method!", "");
    let plan = plan_query(&config, &None, &a);
    assert_eq!(plan.err(), Some(PlanError::InvalidMethod));
}

#[test]
fn good_arguments_yield_a_dispatch_plan() {
    let config = Config { node_address: "http://localhost:8545".to_string() };
    let a = args("abc123", 5, 6, "logs", "");
    let d = plan_query(&config, &None, &a).ok().unwrap();
    assert_eq!(d.url, "http://localhost:8545");
    assert_eq!(d.transport, TransportKind::Http);
    assert_eq!(d.request.method, "eth_getLogs");
    assert_eq!(
        d.request.params_json,
        "[{\"fromBlock\":\"0x5\",\"toBlock\":\"0x6\",\"address\":\"0xabc123\"}]"
    );
}

#[test]
fn env_override_reaches_dispatch() {
    let config = Config::new();
    let a = args("0x0", 0, 1, "logs", "");
    let env = Some("ws://localhost:8546".to_string());
    let d = plan_query(&config, &env, &a).ok().unwrap();
    assert_eq!(d.url, "ws://localhost:8546");
    assert_eq!(d.transport, TransportKind::Websocket);
}

#[test]
fn reply_error_field_wins() {
    let reply = RawReply {
        error: Some(RemoteError { code: -32601, message: "method not found".to_string() }),
        result: Some("ignored".to_string()),
    };
    match decode_reply(reply) {
        Err(RpcError::Remote { code, message }) => {
            assert_eq!(code, -32601);
            assert_eq!(message, "method not found");
        }
        other => panic!("expected a remote error, got {:?}", other.is_ok()),
    }
}

#[test]
fn reply_result_field_yields_value() {
    let reply = RawReply { error: None, result: Some("0x1".to_string()) };
    assert_eq!(decode_reply(reply).ok(), Some("0x1".to_string()));
}

#[test]
fn reply_with_neither_field_is_malformed() {
    let reply = RawReply { error: None, result: None };
    match decode_reply(reply) {
        Err(RpcError::Transport { description }) => {
            assert!(!description.is_empty());
        }
        _ => panic!("expected a transport error"),
    }
}

#[test]
fn transport_failure_yields_failed_record() {
    let outcome = Err(RpcError::Transport { description: "connection refused".to_string() });
    let d = record_outcome(outcome, 12);
    assert!(!d.success);
    assert_eq!(d.duration, 12);
    let err = d.error.unwrap();
    assert!(!err.is_empty());
    assert_eq!(err, "transport error: connection refused");
    assert!(d.result.is_none());
}

#[test]
fn remote_failure_record_carries_code_and_message() {
    let outcome = Err(RpcError::Remote { code: -32601, message: "method not found".to_string() });
    let d = record_outcome(outcome, 3);
    assert!(!d.success);
    assert_eq!(d.error.unwrap(), "remote error -32601: method not found");
}

#[test]
fn success_record_carries_summary() {
    let d = record_outcome(Ok(logs_summary(2)), 5);
    assert!(d.success);
    assert!(d.error.is_none());
    assert_eq!(d.result.unwrap(), "2 log entries");
}

#[test]
fn display_is_idempotent() {
    let header = ReportHeader { node: "http://localhost:8545".to_string(), args: args("0x0", 0, 1000, "logs", "") };
    let mut report = Report::new(header);
    report.add_data(record_outcome(Ok(logs_summary(2)), 5));
    report.add_data(record_outcome(
        Err(RpcError::Transport { description: "connection refused".to_string() }),
        7,
    ));
    let first = report.display();
    let second = report.display();
    assert_eq!(first.as_bytes(), second.as_bytes());
}

#[test]
fn display_exact_text() {
    let header = ReportHeader { node: "n".to_string(), args: args("0x0", 0, 1000, "logs", "") };
    let mut report = Report::new(header);
    report.add_data(record_outcome(Ok(logs_summary(2)), 5));
    assert_eq!(report.display(), "report for node n method logs\nok in 5ms: 2 log entries\n");
}

#[test]
fn display_truncates_long_summaries() {
    let header = ReportHeader { node: "n".to_string(), args: args("0x0", 0, 1, "logs", "") };
    let mut report = Report::new(header);
    let long = "x".repeat(200);
    report.add_data(record_outcome(Ok(long), 1));
    let out = report.display();
    let expected = format!("report for node n method logs\nok in 1ms: {}\n", "x".repeat(80));
    assert_eq!(out, expected);
}
