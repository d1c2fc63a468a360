use op_zisk::errors::FetchError;
use op_zisk::fetcher::{OPZisKDataFetcher, Step};
use op_zisk::readiness::{ExecutionAnswers, ExecutionProbe, NodeAnswers, NodeProbe};
use op_zisk::rpc::RpcError;

fn error(text: &str) -> RpcError {
    RpcError { summary: "s".to_string(), chain: text.to_string(), debug: "d".to_string() }
}

fn ready() -> ExecutionAnswers {
    ExecutionAnswers {
        latest: Some(Ok(Some(100))),
        target: None,
        block: Some(Ok(true)),
        raw_fallback: None,
        account_proof: Some(Ok(())),
        raw: Some(Ok(())),
    }
}

fn check(a: &ExecutionAnswers) -> Step<ExecutionProbe, ()> {
    OPZisKDataFetcher::ensure_l2_execution_ready_for_block(42, a)
}

fn failure(a: &ExecutionAnswers) -> String {
    match check(a) {
        Step::Fail(e) => e.message(),
        other => panic!("{other:?}"),
    }
}

#[test]
fn probes_come_one_after_the_other() {
    let mut a = ExecutionAnswers::new();
    assert!(matches!(check(&a), Step::Ask(ExecutionProbe::Latest)));
    a.latest = Some(Ok(Some(5)));
    assert!(matches!(check(&a), Step::Ask(ExecutionProbe::Block)));
    a.block = Some(Ok(true));
    assert!(matches!(check(&a), Step::Ask(ExecutionProbe::Proof)));
    a.account_proof = Some(Ok(()));
    assert!(matches!(check(&a), Step::Ask(ExecutionProbe::Raw)));
    a.raw = Some(Ok(()));
    assert!(matches!(check(&a), Step::Done(())));
}

#[test]
fn longest_way_takes_six_probes() {
    let mut a = ExecutionAnswers::new();
    let mut probes = 0;
    while let Step::Ask(probe) = check(&a) {
        probes += 1;
        match probe {
            ExecutionProbe::Latest => a.latest = Some(Ok(Some(0))),
            ExecutionProbe::Target => a.target = Some(Ok(true)),
            ExecutionProbe::Block => a.block = Some(Ok(false)),
            ExecutionProbe::RawFallback => a.raw_fallback = Some(Ok(())),
            ExecutionProbe::Proof => a.account_proof = Some(Ok(())),
            ExecutionProbe::Raw => a.raw = Some(Ok(())),
        }
    }
    assert_eq!(probes, 6);
    assert!(matches!(check(&a), Step::Done(())));
}

#[test]
fn genesis_head_needs_the_block_itself() {
    let a = ExecutionAnswers { latest: Some(Ok(Some(0))), ..ready() };
    assert!(matches!(check(&a), Step::Ask(ExecutionProbe::Target)));
    let a = ExecutionAnswers { target: Some(Ok(true)), ..a };
    assert!(matches!(check(&a), Step::Done(())));
    let a = ExecutionAnswers { target: Some(Ok(false)), ..a };
    assert!(failure(&a).starts_with(
        "L2 execution RPC is not ready: eth_getBlockByNumber(\"latest\") returned genesis (block 0)."
    ));
    let a = ExecutionAnswers { target: Some(Err(error("x"))), ..a };
    assert_eq!(failure(&a), "s");
}

#[test]
fn missing_head_fails() {
    let a = ExecutionAnswers { latest: Some(Ok(None)), ..ready() };
    assert_eq!(
        failure(&a),
        "L2 execution RPC is not ready: eth_getBlockByNumber(\"latest\") returned null. Ensure op-geth is running and reachable."
    );
    let a = ExecutionAnswers { latest: Some(Err(error("x"))), ..ready() };
    assert!(matches!(check(&a), Step::Fail(FetchError::Rpc(_))));
}

#[test]
fn block_may_come_from_its_encoding() {
    let a = ExecutionAnswers { block: Some(Ok(false)), ..ready() };
    assert!(matches!(check(&a), Step::Ask(ExecutionProbe::RawFallback)));
    let a = ExecutionAnswers { raw_fallback: Some(Ok(())), ..a };
    assert!(matches!(check(&a), Step::Done(())));
    let a = ExecutionAnswers { raw_fallback: Some(Err(error("gone"))), ..a };
    assert_eq!(
        failure(&a),
        "L2 execution RPC is not ready for block 42: block not found via eth_getBlockByNumber or debug_getRawBlock. If op-geth is still syncing, wait for it to finish snap sync pivot/state healing. Error: gone"
    );
    let a = ExecutionAnswers { block: Some(Err(error("x"))), ..ready() };
    assert_eq!(failure(&a), "s");
}

#[test]
fn proof_failures_are_told_apart() {
    let with = |text: &str| ExecutionAnswers { account_proof: Some(Err(error(text))), ..ready() };
    let window = failure(&with("beyond proof window"));
    assert!(window.starts_with(
        "L2 execution RPC cannot serve eth_getProof for block 42 due to proof window restrictions."
    ));
    assert!(window.ends_with("(if applicable). Error: beyond proof window"));
    let missing = failure(&with("missing trie node"));
    assert!(missing.starts_with(
        "L2 execution RPC cannot serve eth_getProof for block 42. This is required for proving."
    ));
    assert!(missing.ends_with("may also be temporarily unavailable: missing trie node"));
    assert_eq!(failure(&with("other")), "s");
}

#[test]
fn raw_block_failures_are_told_apart() {
    let with = |text: &str| ExecutionAnswers { raw: Some(Err(error(text))), ..ready() };
    assert!(matches!(
        check(&with("method not found")),
        Step::Fail(FetchError::RawBlockMethodMissing)
    ));
    assert!(failure(&with("method not found"))
        .starts_with("L2 execution RPC does not expose debug_getRawBlock"));
    assert_eq!(failure(&with("missing trie node")), "s");
}

#[test]
fn encodings_are_asked_for_once() {
    assert!(ExecutionProbe::Latest.retried());
    assert!(ExecutionProbe::Target.retried());
    assert!(ExecutionProbe::Block.retried());
    assert!(ExecutionProbe::Proof.retried());
    assert!(!ExecutionProbe::RawFallback.retried());
    assert!(!ExecutionProbe::Raw.retried());
}

#[test]
fn node_is_ready_with_the_output_or_the_block() {
    let check = |a: &NodeAnswers| OPZisKDataFetcher::ensure_l2_node_ready_for_block(42, a);
    let mut a = NodeAnswers::new();
    assert!(matches!(check(&a), Step::Ask(NodeProbe::Output)));
    a.output = Some(Ok(()));
    assert!(matches!(check(&a), Step::Done(())));
    a.output = Some(Err(error("down")));
    assert!(matches!(check(&a), Step::Ask(NodeProbe::Block)));
    a.block = Some(Ok(true));
    assert!(matches!(check(&a), Step::Done(())));
    a.block = Some(Ok(false));
    match check(&a) {
        Step::Fail(e) => assert_eq!(
            e.message(),
            "L2 node RPC is not ready for block 42: optimism_outputAtBlock failed. Ensure op-node is running and reachable at L2_NODE_RPC. Error: down"
        ),
        other => panic!("{other:?}"),
    }
    a.block = Some(Err(error("x")));
    assert!(matches!(check(&a), Step::Fail(FetchError::Rpc(_))));
}
