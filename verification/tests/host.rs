use op_zisk::config::RpcVars;
use op_zisk::errors::FetchError;
use op_zisk::fetcher::{get_rpcs_from_env, OPZisKDataFetcher, Step};
use op_zisk::host::{
    get_range_elf_embedded, BlockRoots, CelestiaDAWitnessGenerator, DataAvailability,
    ETHDAWitnessGenerator, EigenDAWitnessGenerator, FetchAnswers, FetchProbe, HostAnswers,
    HostProbe, RangeElfs, SafeL1HeadAnswers, SafeL1HeadProbe, SingleChainHost,
    SingleChainOPZisKHost, MESSAGE_PASSER,
};
use op_zisk::rpc::RpcError;
use op_zisk::types::{BlockNumHash, BlockTag, ChainGenesis, Header, RollupConfig};

fn bare(vars: &RpcVars) -> OPZisKDataFetcher {
    OPZisKDataFetcher {
        rpc_config: get_rpcs_from_env(vars).unwrap(),
        rollup_config: None,
        rollup_config_path: None,
        l1_config_path: None,
    }
}

fn error(text: &str) -> RpcError {
    RpcError { summary: text.to_string(), chain: text.to_string(), debug: text.to_string() }
}

fn fetcher() -> OPZisKDataFetcher {
    let vars = RpcVars {
        l1_rpc: Some("http://l1".to_string()),
        l1_beacon_rpc: Some("http://beacon/x//".to_string()),
        l2_rpc: Some("http://l2/".to_string()),
        l2_node_rpc: Some("http://node".to_string()),
    };
    let mut f = bare(&vars);
    let genesis = BlockNumHash { number: 0, hash: [0; 32] };
    f.rollup_config = Some(RollupConfig {
        l1_chain_id: 1,
        l2_chain_id: 10,
        genesis: ChainGenesis { l1: genesis, l2: genesis, l2_time: 0 },
    });
    f.rollup_config_path = Some("configs/L2/10.json".to_string());
    f.l1_config_path = Some("configs/L1/1.json".to_string());
    f
}

fn full() -> HostAnswers {
    HostAnswers {
        execution: Some(Ok(())),
        node: Some(Ok(())),
        output_block: Some(Ok(Some(BlockRoots { hash: [1; 32], state_root: [2; 32] }))),
        output_storage: Some(Ok([3; 32])),
        claim_block: Some(Ok(Some(BlockRoots { hash: [4; 32], state_root: [5; 32] }))),
        claim_storage: Some(Ok([6; 32])),
        boot_info_saved: Some(Ok(())),
    }
}

fn root(state: u8, storage: u8, hash: u8) -> [u8; 32] {
    let mut bytes = vec![0u8; 32];
    bytes.extend([state; 32]);
    bytes.extend([storage; 32]);
    bytes.extend([hash; 32]);
    alloy_primitives::keccak256(bytes).0
}

fn args(start: u64, end: u64, a: &HostAnswers) -> Step<HostProbe, SingleChainHost> {
    fetcher().get_host_args(start, end, [9; 32], a)
}

fn host() -> SingleChainHost {
    match args(2, 8, &full()) {
        Step::Done(host) => host,
        other => panic!("{other:?}"),
    }
}

#[test]
fn host_arguments_hold_both_output_roots() {
    let host = host();
    assert_eq!(host.l1_head, [9; 32]);
    assert_eq!(host.agreed_l2_head_hash, [1; 32]);
    assert_eq!(host.agreed_l2_output_root, root(2, 3, 1));
    assert_eq!(host.claimed_l2_output_root, root(5, 6, 4));
    assert_eq!(host.claimed_l2_block_number, 8);
    assert_eq!(host.l2_chain_id, None);
    assert_eq!(host.data_dir, None);
    assert!(!host.native && host.server && !host.enable_experimental_witness_endpoint);
    assert_eq!(host.rollup_config_path.as_deref(), Some("configs/L2/10.json"));
    assert_eq!(host.l1_config_path.as_deref(), Some("configs/L1/1.json"));
}

#[test]
fn host_arguments_have_no_slash_behind_an_address() {
    let host = host();
    assert_eq!(host.l1_node_address.as_deref(), Some("http://l1"));
    assert_eq!(host.l2_node_address.as_deref(), Some("http://l2"));
    assert_eq!(host.l1_beacon_address.as_deref(), Some("http://beacon/x"));
    let mut f = fetcher();
    f.rpc_config.l1_beacon_rpc = None;
    match f.get_host_args(2, 8, [9; 32], &full()) {
        Step::Done(host) => assert_eq!(host.l1_beacon_address, None),
        other => panic!("{other:?}"),
    }
}

#[test]
fn host_arguments_are_asked_for_step_by_step() {
    let mut a = HostAnswers::new();
    assert!(matches!(args(2, 8, &a), Step::Ask(HostProbe::ExecutionReady(8))));
    a.execution = Some(Ok(()));
    assert!(matches!(args(2, 8, &a), Step::Ask(HostProbe::NodeReady(8))));
    a.node = Some(Ok(()));
    assert!(matches!(args(2, 8, &a), Step::Ask(HostProbe::OutputBlock(1))));
    assert!(matches!(args(1, 8, &a), Step::Ask(HostProbe::OutputBlock(0))));
    assert!(matches!(args(0, 8, &a), Step::Ask(HostProbe::OutputBlock(0))));
    a.output_block = full().output_block;
    assert!(matches!(args(2, 8, &a), Step::Ask(HostProbe::OutputStorage(1))));
    a.output_storage = full().output_storage;
    assert!(matches!(args(2, 8, &a), Step::Ask(HostProbe::ClaimBlock(8))));
    a.claim_block = full().claim_block;
    assert!(matches!(args(2, 8, &a), Step::Ask(HostProbe::ClaimStorage(8))));
    a.claim_storage = full().claim_storage;
    match args(2, 8, &a) {
        Step::Ask(HostProbe::SaveBootInfo(b)) => {
            assert_eq!(b.l1_head, [9; 32]);
            assert_eq!(b.agreed_l2_output_root, root(2, 3, 1));
            assert_eq!(b.claimed_l2_output_root, root(5, 6, 4));
            assert_eq!((b.claimed_l2_block_number, b.chain_id), (8, 10));
            assert_eq!(b.path(), "data/10/8.json");
        }
        other => panic!("{other:?}"),
    }
    a.boot_info_saved = Some(Ok(()));
    assert!(matches!(args(2, 8, &a), Step::Done(_)));
}

#[test]
fn empty_range_fails_before_anything_is_asked() {
    for (start, end) in [(8, 8), (9, 8)] {
        match args(start, end, &HostAnswers::new()) {
            Step::Fail(e) => assert_eq!(
                e.message(),
                format!("L2 start block is greater than or equal to L2 end block. Start: {start}, End: {end}")
            ),
            other => panic!("{other:?}"),
        }
    }
    let mut unloaded = fetcher();
    unloaded.rollup_config = None;
    let step = unloaded.get_host_args(9, 8, [9; 32], &full());
    assert!(matches!(step, Step::Fail(FetchError::RollupConfigNotLoaded)));
}

#[test]
fn host_arguments_fail_with_their_parts() {
    let text = |a: HostAnswers| match args(2, 8, &a) {
        Step::Fail(e) => e.message(),
        other => panic!("{other:?}"),
    };
    let not_ready = || Some(Err(FetchError::L2LatestIsNull));
    assert!(text(HostAnswers { execution: not_ready(), ..full() }).contains("returned null"));
    assert!(text(HostAnswers { node: not_ready(), ..full() }).contains("returned null"));
    assert_eq!(
        text(HostAnswers { output_block: Some(Ok(None)), ..full() }),
        "Block not found for block number 1"
    );
    assert_eq!(
        text(HostAnswers { claim_block: Some(Ok(None)), ..full() }),
        "Block not found for block number 8"
    );
    assert_eq!(text(HostAnswers { output_block: Some(Err(error("a"))), ..full() }), "a");
    assert_eq!(text(HostAnswers { output_storage: Some(Err(error("b"))), ..full() }), "b");
    assert_eq!(text(HostAnswers { claim_block: Some(Err(error("c"))), ..full() }), "c");
    assert_eq!(text(HostAnswers { claim_storage: Some(Err(error("d"))), ..full() }), "d");
    let full_disk = Some(Err("disk full".to_string()));
    assert_eq!(text(HostAnswers { boot_info_saved: full_disk, ..full() }), "disk full");
}

#[test]
fn boot_info_is_what_the_arguments_claim() {
    let b = host().boot_info([8; 32]);
    assert_eq!(b.l1Head, [9; 32]);
    assert_eq!(b.l2PreRoot, root(2, 3, 1));
    assert_eq!(b.l2PostRoot, root(5, 6, 4));
    assert_eq!(b.l2BlockNumber, 8);
    assert_eq!(b.rollupConfigHash, [8; 32]);
}

#[test]
fn message_passer_is_a_predeploy() {
    let address: alloy_primitives::Address = MESSAGE_PASSER.parse().unwrap();
    assert_eq!(address.0[0], 0x42);
    assert_eq!(address.0[19], 0x16);
}

#[test]
fn witnesses_stand_behind_their_size() {
    let w = vec![1, 2, 3];
    let framed = vec![3, 0, 0, 0, 0, 0, 0, 0, 1, 2, 3];
    assert_eq!((ETHDAWitnessGenerator {}).get_zisk_stdin(&w), framed);
    assert_eq!(op_zisk::artifacts::saved_input(&w), framed);
    assert_eq!((CelestiaDAWitnessGenerator {}).get_zisk_stdin(&w), framed);
    assert_eq!((EigenDAWitnessGenerator {}).get_zisk_stdin(&w), framed);
}

#[test]
fn range_program_goes_with_the_build() {
    let elfs = RangeElfs { ethereum: vec![1], celestia: vec![2], eigenda: vec![3] };
    let elf = |c, e| get_range_elf_embedded(DataAvailability::selected(c, e), &elfs)[0];
    assert_eq!(elf(false, false), 1);
    assert_eq!(elf(true, false), 2);
    assert_eq!(elf(false, true), 3);
    assert_eq!(elf(true, true), 2);
}

#[test]
fn given_l1_head_is_used() {
    let none = FetchAnswers { safe_l1_head: None, host_args: None };
    let fetch = |hash, a: &FetchAnswers| SingleChainOPZisKHost::fetch(2, 8, hash, true, a);
    assert!(matches!(
        fetch(None, &none),
        Step::Ask(FetchProbe::SafeL1Head { l2_end_block: 8, safe_db_fallback: true })
    ));
    assert!(matches!(
        fetch(Some([7; 32]), &none),
        Step::Ask(FetchProbe::HostArgs { l2_start_block: 2, l2_end_block: 8, l1_head_hash })
            if l1_head_hash == [7; 32]
    ));
    let derived = FetchAnswers { safe_l1_head: Some(Ok([6; 32])), host_args: None };
    assert!(matches!(
        fetch(None, &derived),
        Step::Ask(FetchProbe::HostArgs { l1_head_hash, .. }) if l1_head_hash == [6; 32]
    ));
    let failed = FetchAnswers { safe_l1_head: Some(Err(FetchError::NoSafeL1Block)), host_args: None };
    assert!(matches!(fetch(None, &failed), Step::Fail(FetchError::NoSafeL1Block)));
    let done = FetchAnswers { safe_l1_head: None, host_args: Some(Ok(host())) };
    match fetch(Some([7; 32]), &done) {
        Step::Done(h) => assert_eq!(SingleChainOPZisKHost::get_l1_head_hash(&h), Some([9; 32])),
        other => panic!("{other:?}"),
    }
    let failed = FetchAnswers { safe_l1_head: None, host_args: Some(Err(FetchError::L2HeadNotFound)) };
    assert!(matches!(fetch(Some([7; 32]), &failed), Step::Fail(FetchError::L2HeadNotFound)));
}

fn header(number: u64) -> Header {
    Header { number, timestamp: 0, rlp: vec![number as u8] }
}

#[test]
fn final_l2_block_is_the_number_of_its_header() {
    assert!(matches!(SingleChainOPZisKHost::finalized_l2_tag(), BlockTag::Finalized));
    let number = SingleChainOPZisKHost::get_finalized_l2_block_number(&Ok(header(44)));
    assert_eq!(number.unwrap(), Some(44));
    let failed = Err(FetchError::L2HeadNotFound);
    assert!(SingleChainOPZisKHost::get_finalized_l2_block_number(&failed).is_err());
}

#[test]
fn recorded_l1_head_is_moved_ahead_up_to_the_chain() {
    let ask = |a: &SafeL1HeadAnswers| SingleChainOPZisKHost::calculate_safe_l1_head(8, false, a);
    let mut a = SafeL1HeadAnswers { l1_head: None, chain_head: None, header: None };
    assert!(matches!(ask(&a), Step::Ask(SafeL1HeadProbe::L1Head(8))));
    a.l1_head = Some(Ok(BlockNumHash { number: 100, hash: [0; 32] }));
    assert!(matches!(ask(&a), Step::Ask(SafeL1HeadProbe::ChainHead)));
    for (head, expected) in [(500, 120), (120, 120), (110, 110), (90, 90)] {
        a.chain_head = Some(Ok(header(head)));
        assert!(matches!(ask(&a), Step::Ask(SafeL1HeadProbe::Header(n)) if n == expected));
    }
    a.header = Some(Ok(header(5)));
    match ask(&a) {
        Step::Done(hash) => assert_eq!(hash, alloy_primitives::keccak256([5u8]).0),
        other => panic!("{other:?}"),
    }
    a.header = Some(Err(FetchError::BlockNotFound(3)));
    assert!(matches!(ask(&a), Step::Fail(FetchError::BlockNotFound(3))));
    a.chain_head = Some(Err(FetchError::BlockNotFound(4)));
    assert!(matches!(ask(&a), Step::Fail(FetchError::BlockNotFound(4))));
}

#[test]
fn unrecorded_l1_head_stays_behind_the_chain() {
    let mut a = SafeL1HeadAnswers {
        l1_head: Some(Err(FetchError::NoSafeL1Block)),
        chain_head: None,
        header: None,
    };
    let refused = SingleChainOPZisKHost::calculate_safe_l1_head(8, false, &a);
    assert!(matches!(refused, Step::Fail(FetchError::NoSafeL1Block)));
    for (head, expected) in [(500, 485), (16, 1), (15, 0), (3, 0), (0, 0)] {
        a.chain_head = Some(Ok(header(head)));
        let step = SingleChainOPZisKHost::calculate_safe_l1_head(8, true, &a);
        assert!(matches!(step, Step::Ask(SafeL1HeadProbe::Header(n)) if n == expected));
    }
}

#[test]
fn host_stands_on_its_fetcher() {
    let host = SingleChainOPZisKHost::new(fetcher());
    assert_eq!(host.fetcher.rpc_config.l1_rpc.href, "http://l1/");
    assert_eq!(
        host.witness_generator().get_zisk_stdin(&vec![5]),
        vec![1, 0, 0, 0, 0, 0, 0, 0, 5]
    );
}
