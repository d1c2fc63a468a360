use op_zisk::rpc::{
    backoff_ms, is_historical_state_unavailable_opaque, is_historical_state_unavailable_str,
    is_method_not_found_opaque, is_method_not_found_str, is_proof_window_str, node_cannot_serve,
    retry_rpc, rpc_concurrency, rpc_retries, should_retry_rpc_error, RetryDecision, RpcError,
};

fn error(text: &str) -> RpcError {
    RpcError { summary: text.to_string(), chain: text.to_string(), debug: text.to_string() }
}

fn three(summary: &str, chain: &str, debug: &str) -> RpcError {
    RpcError {
        summary: summary.to_string(),
        chain: chain.to_string(),
        debug: debug.to_string(),
    }
}

fn set(text: &str) -> Option<String> {
    Some(text.to_string())
}

#[test]
fn unknown_methods_are_recognised() {
    assert!(is_method_not_found_str("server: method not found"));
    assert!(is_method_not_found_str("-32601 Method not found"));
    assert!(!is_method_not_found_str("METHOD NOT FOUND"));
    assert!(!is_method_not_found_str(""));
    assert!(is_method_not_found_opaque(&three("x", "x: Method not found", "x")));
    assert!(!is_method_not_found_opaque(&three("Method not found", "x", "Method not found")));
}

#[test]
fn missing_state_is_recognised() {
    for text in [
        "not supported",
        "missing trie node abc",
        "unknown ancestor",
        "header not found",
        "state is not available",
        "historical state",
        "outside the proof window",
        "distance to target block",
    ] {
        assert!(is_historical_state_unavailable_str(text), "{text}");
        assert!(is_historical_state_unavailable_opaque(&error(text)));
        assert!(node_cannot_serve(&error(text)));
    }
    assert!(!is_historical_state_unavailable_str("execution reverted"));
}

#[test]
fn proof_window_is_a_kind_of_missing_state() {
    for text in ["proof window", "distance to target block exceeds"] {
        assert!(is_proof_window_str(text));
        assert!(is_historical_state_unavailable_str(text));
    }
    assert!(!is_proof_window_str("missing trie node"));
}

#[test]
fn node_that_knows_no_method_cannot_serve() {
    assert!(node_cannot_serve(&error("method not found")));
    assert!(!node_cannot_serve(&error("connection reset")));
}

#[test]
fn passing_failures_are_retried() {
    for text in [
        "HTTP error 503",
        "Unable to complete request at this time",
        "HTTP error 429",
        "Too Many Requests",
        "operation timed out",
        "timeout",
        "connection reset by peer",
        "Connection refused",
        "broken pipe",
        "temporarily unavailable",
    ] {
        assert!(should_retry_rpc_error(&error(text)), "{text}");
    }
    assert!(!should_retry_rpc_error(&error("HTTP error 404")));
    assert!(should_retry_rpc_error(&three("a", "b", "caused by: timeout")));
    assert!(!should_retry_rpc_error(&three("timeout", "timeout", "b")));
}

#[test]
fn limits_come_from_the_first_variable_that_is_set() {
    assert_eq!(rpc_concurrency(&None, &None), 2);
    assert_eq!(rpc_concurrency(&set("8"), &set("4")), 8);
    assert_eq!(rpc_concurrency(&None, &set("4")), 4);
    assert_eq!(rpc_concurrency(&set("x"), &set("4")), 2);
    assert_eq!(rpc_concurrency(&set("0"), &None), 2);
    assert_eq!(rpc_retries(&None, &None), 6);
    assert_eq!(rpc_retries(&set("1"), &None), 1);
    assert_eq!(rpc_retries(&set("-3"), &set("9")), 6);
    assert_eq!(rpc_retries(&None, &set("9")), 9);
}

#[test]
fn pauses_double_up_to_five_seconds() {
    let expected = [250, 500, 1000, 2000, 4000, 5000, 5000];
    for (i, ms) in expected.iter().enumerate() {
        assert_eq!(backoff_ms(i), *ms);
    }
    for i in [7usize, 31, 63, 64, 65, 1000] {
        let ms = 250u64.saturating_mul(2u64.saturating_pow(i as u32)).min(5000);
        assert_eq!(backoff_ms(i), ms);
    }
}

#[test]
fn passing_failures_use_every_attempt() {
    let mut state = retry_rpc(6);
    let mut made = 1;
    let mut waited = 0;
    loop {
        match state.on_error(&error("timeout")) {
            RetryDecision::GiveUp => break,
            RetryDecision::Again { wait_ms, next } => {
                waited += wait_ms;
                made += 1;
                state = next;
            }
        }
    }
    assert_eq!(made, 6);
    assert_eq!(waited, 250 + 500 + 1000 + 2000 + 4000);
}

#[test]
fn lasting_failure_ends_the_call_at_once() {
    assert!(matches!(retry_rpc(6).on_error(&error("bad request")), RetryDecision::GiveUp));
    assert!(matches!(retry_rpc(1).on_error(&error("timeout")), RetryDecision::GiveUp));
}

#[test]
fn errors_clone_to_themselves() {
    let e = three("a", "b", "c").clone();
    assert_eq!((e.summary.as_str(), e.chain.as_str(), e.debug.as_str()), ("a", "b", "c"));
}
