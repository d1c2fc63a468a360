use op_zisk::config::RpcVars;
use op_zisk::errors::FetchError;
use op_zisk::fetcher::{get_rpcs_from_env, OPZisKDataFetcher, Step};
use op_zisk::l1_head::{
    target_timestamp, L1HeadAnswers, L1HeadProbe, SafeL1Answers, SafeL1Probe, TimestampProbe,
};
use op_zisk::rpc::RpcError;
use op_zisk::search::{BlockAt, SafeHead};
use op_zisk::types::{BlockNumHash, ChainGenesis, Header, RollupConfig};

fn bare(vars: &RpcVars) -> OPZisKDataFetcher {
    OPZisKDataFetcher {
        rpc_config: get_rpcs_from_env(vars).unwrap(),
        rollup_config: None,
        rollup_config_path: None,
        l1_config_path: None,
    }
}

fn error(text: &str) -> RpcError {
    RpcError { summary: "s".to_string(), chain: text.to_string(), debug: "d".to_string() }
}

fn header(number: u64, timestamp: u64) -> Header {
    Header { number, timestamp, rlp: vec![] }
}

fn block(number: u64) -> BlockNumHash {
    BlockNumHash { number, hash: [number as u8; 32] }
}

fn safe_head(n: u64, safe_head: u64) -> SafeHead {
    SafeHead { safe_head, l1_block: block(n) }
}

fn run_safe(heads: &[u64], l2: u64, origin: u64) -> (Step<SafeL1Probe, BlockNumHash>, Vec<u64>) {
    let mut a = SafeL1Answers {
        finalized: Some(Ok(header(heads.len() as u64 - 1, 0))),
        origin: Some(Ok(origin)),
        safe_heads: vec![],
    };
    let mut asked = vec![];
    loop {
        match OPZisKDataFetcher::get_safe_l1_block_for_l2_block(l2, &a) {
            Step::Ask(SafeL1Probe::SafeHead(n)) => {
                asked.push(n);
                a.safe_heads.push(Ok(safe_head(n, heads[n as usize])));
            }
            end => return (end, asked),
        }
    }
}

#[test]
fn safe_block_is_the_first_one() {
    let heads = [0, 2, 2, 6, 8, 8, 10];
    for l2 in 0..12u64 {
        for origin in 0..7u64 {
            let expected = (origin..7).find(|n| heads[*n as usize] >= l2);
            let (end, asked) = run_safe(&heads, l2, origin);
            match (end, expected) {
                (Step::Done(b), Some(n)) => assert_eq!((b.number, b.hash), (n, [n as u8; 32])),
                (Step::Fail(FetchError::NoSafeL1Block), None) => {}
                (other, _) => panic!("{other:?}"),
            }
            let mut distinct = asked.clone();
            distinct.sort();
            distinct.dedup();
            assert_eq!(distinct.len(), asked.len());
        }
    }
}

#[test]
fn safe_block_is_asked_for_step_by_step() {
    let ask = |a: &SafeL1Answers| OPZisKDataFetcher::get_safe_l1_block_for_l2_block(50, a);
    let mut a = SafeL1Answers { finalized: None, origin: None, safe_heads: vec![] };
    assert!(matches!(ask(&a), Step::Ask(SafeL1Probe::Finalized)));
    a.finalized = Some(Err(FetchError::L2HeadNotFound));
    assert!(matches!(ask(&a), Step::Fail(FetchError::L2HeadNotFound)));
    a.finalized = Some(Ok(header(20, 0)));
    assert!(matches!(ask(&a), Step::Ask(SafeL1Probe::Origin(50))));
    a.origin = Some(Ok(10));
    assert!(matches!(ask(&a), Step::Ask(SafeL1Probe::SafeHead(15))));
    a.origin = Some(Ok(21));
    match ask(&a) {
        Step::Fail(e) => assert_eq!(
            e.message(),
            "Could not find an L1 block with an L2 safe head greater than the L2 end block."
        ),
        other => panic!("{other:?}"),
    }
}

#[test]
fn node_that_cannot_serve_is_told_apart() {
    let ask = |a: &SafeL1Answers| OPZisKDataFetcher::get_safe_l1_block_for_l2_block(50, a);
    let mut a = SafeL1Answers {
        finalized: Some(Ok(header(20, 0))),
        origin: Some(Err(error("Method not found"))),
        safe_heads: vec![],
    };
    match ask(&a) {
        Step::Fail(e) => assert!(e.message().starts_with("optimism_outputAtBlock not available")),
        other => panic!("{other:?}"),
    }
    a.origin = Some(Err(error("refused")));
    assert!(matches!(ask(&a), Step::Fail(FetchError::Rpc(_))));
    a.origin = Some(Ok(10));
    a.safe_heads.push(Err(error("header not found")));
    match ask(&a) {
        Step::Fail(e) => assert!(e.message().starts_with("optimism_safeHeadAtL1Block not available")),
        other => panic!("{other:?}"),
    }
    a.safe_heads = vec![Ok(safe_head(15, 60)), Err(error("refused"))];
    assert!(matches!(ask(&a), Step::Fail(FetchError::Rpc(_))));
}

fn run_timestamp(stamps: &[u64], latest: u64, target: u64) -> Step<TimestampProbe, BlockNumHash> {
    let mut answers: Vec<Result<Option<BlockAt>, RpcError>> = vec![];
    let head = Some(Ok(Some(latest)));
    loop {
        match OPZisKDataFetcher::find_l1_block_by_timestamp(target, &head, &answers) {
            Step::Ask(TimestampProbe::Block { number, .. }) => {
                answers.push(Ok(stamps.get(number as usize).map(|t| BlockAt {
                    number,
                    hash: [number as u8; 32],
                    timestamp: *t,
                })));
            }
            end => return end,
        }
    }
}

#[test]
fn block_at_a_timestamp_is_the_closest_not_before() {
    let stamps = [5, 10, 10, 25];
    for (target, expected) in [(0, 5), (5, 5), (6, 10), (10, 10), (11, 25), (25, 25)] {
        match run_timestamp(&stamps, 3, target) {
            Step::Done(b) => assert_eq!(stamps[b.number as usize], expected),
            other => panic!("{other:?}"),
        }
    }
    match run_timestamp(&stamps, 3, 26) {
        Step::Fail(e) => assert_eq!(e.message(), "Failed to get block for block 4"),
        other => panic!("{other:?}"),
    }
    assert!(matches!(run_timestamp(&stamps, 2, 25), Step::Done(b) if b.number == 3));
    assert!(matches!(run_timestamp(&stamps, 0, 25), Step::Done(b) if b.number == 3));
    match run_timestamp(&[10, 20], 0, 30) {
        Step::Fail(e) => assert_eq!(e.message(), "Failed to get block for block 2"),
        other => panic!("{other:?}"),
    }
}

#[test]
fn timestamp_search_starts_from_the_final_head() {
    let ask = |latest| OPZisKDataFetcher::find_l2_block_by_timestamp(7, &latest, &vec![]);
    assert!(matches!(ask(None), Step::Ask(TimestampProbe::Finalized)));
    match ask(Some(Ok(None))) {
        Step::Fail(e) => assert_eq!(e.message(), "Failed to get latest block"),
        other => panic!("{other:?}"),
    }
    assert!(matches!(ask(Some(Err(error("x")))), Step::Fail(FetchError::Rpc(_))));
    assert!(matches!(
        ask(Some(Ok(Some(9)))),
        Step::Ask(TimestampProbe::Block { number: 4, retried: true })
    ));
    let failed = vec![Err(error("x"))];
    let end = OPZisKDataFetcher::find_l2_block_by_timestamp(7, &Some(Ok(Some(9))), &failed);
    assert!(matches!(end, Step::Fail(FetchError::Rpc(_))));
}

#[test]
fn blocks_behind_the_final_ones_are_asked_for_once() {
    let early = vec![Ok(Some(BlockAt { number: 0, hash: [0; 32], timestamp: 1 }))];
    let step = OPZisKDataFetcher::find_l1_block_by_timestamp(7, &Some(Ok(Some(0))), &early);
    assert!(matches!(step, Step::Ask(TimestampProbe::Block { number: 1, retried: false })));
}

#[test]
fn estimate_is_forty_minutes_later_but_final() {
    assert_eq!(target_timestamp(1000, 10_000), 3400);
    assert_eq!(target_timestamp(1000, 3400), 3400);
    assert_eq!(target_timestamp(1000, 2000), 2000);
    assert_eq!(target_timestamp(1000, 500), 500);
}

fn fetcher() -> OPZisKDataFetcher {
    let vars = RpcVars {
        l1_rpc: Some("http://l1".to_string()),
        l1_beacon_rpc: None,
        l2_rpc: Some("http://l2".to_string()),
        l2_node_rpc: Some("http://node".to_string()),
    };
    let mut f = bare(&vars);
    f.rollup_config = Some(RollupConfig {
        l1_chain_id: 1,
        l2_chain_id: 10,
        genesis: ChainGenesis { l1: block(0), l2: block(0), l2_time: 0 },
    });
    f
}

fn none() -> L1HeadAnswers {
    L1HeadAnswers { safe_block: None, l2_header: None, finalized: None, block_at: None }
}

#[test]
fn safe_block_wins_over_an_estimate() {
    let f = fetcher();
    assert!(matches!(f.get_l1_head(9, true, &none()), Step::Ask(L1HeadProbe::SafeBlock(9))));
    let a = L1HeadAnswers { safe_block: Some(Ok(block(4))), ..none() };
    for fallback in [false, true] {
        assert!(matches!(f.get_l1_head(9, fallback, &a), Step::Done(b) if b.number == 4));
    }
    let mut unloaded = fetcher();
    unloaded.rollup_config = None;
    match unloaded.get_l1_head(9, true, &a) {
        Step::Fail(e) => assert_eq!(e.message(), "Rollup config not loaded."),
        other => panic!("{other:?}"),
    }
}

#[test]
fn estimate_needs_permission() {
    let a = L1HeadAnswers { safe_block: Some(Err(FetchError::NoSafeL1Block)), ..none() };
    match fetcher().get_l1_head(9, false, &a) {
        Step::Fail(e) => {
            let text = e.message();
            assert!(text.starts_with("SafeDB is not activated on your op-node"));
            assert!(text.ends_with("which will be more expensive: Could not find an L1 block with an L2 safe head greater than the L2 end block."));
        }
        other => panic!("{other:?}"),
    }
}

#[test]
fn estimate_goes_by_the_timestamps() {
    let f = fetcher();
    let mut a = L1HeadAnswers { safe_block: Some(Err(FetchError::NoSafeL1Block)), ..none() };
    assert!(matches!(f.get_l1_head(9, true, &a), Step::Ask(L1HeadProbe::L2Header(9))));
    a.l2_header = Some(Ok(header(9, 100)));
    assert!(matches!(f.get_l1_head(9, true, &a), Step::Ask(L1HeadProbe::Finalized)));
    a.finalized = Some(Ok(header(50, 9000)));
    assert!(matches!(f.get_l1_head(9, true, &a), Step::Ask(L1HeadProbe::BlockAt(2500))));
    a.block_at = Some(Ok(block(33)));
    assert!(matches!(f.get_l1_head(9, true, &a), Step::Done(b) if b.number == 33));
    a.block_at = Some(Err(FetchError::LatestBlockNotFound));
    assert!(matches!(f.get_l1_head(9, true, &a), Step::Fail(FetchError::LatestBlockNotFound)));
    a.finalized = Some(Err(FetchError::BlockNotFound(1)));
    assert!(matches!(f.get_l1_head(9, true, &a), Step::Fail(FetchError::BlockNotFound(1))));
    a.l2_header = Some(Err(FetchError::BlockNotFound(2)));
    assert!(matches!(f.get_l1_head(9, true, &a), Step::Fail(FetchError::BlockNotFound(2))));
}
