use op_zisk::config::RpcVars;
use op_zisk::errors::FetchError;
use op_zisk::fetcher::{get_rpcs_from_env, OPZisKDataFetcher, Step};
use op_zisk::headers::{
    inclusive_numbers, L2HeaderAnswers, L2HeaderProbe, PreimageAnswers, PreimageProbe, SafeDbProbe,
};
use op_zisk::rpc::RpcError;
use op_zisk::types::{
    BlockNumHash, BlockTag, BootInfoStruct, ChainGenesis, Header, RollupConfig,
};

type AlloyHeader = alloy_consensus::Header;

fn bare(vars: &RpcVars) -> OPZisKDataFetcher {
    OPZisKDataFetcher {
        rpc_config: get_rpcs_from_env(vars).unwrap(),
        rollup_config: None,
        rollup_config_path: None,
        l1_config_path: None,
    }
}

fn error(text: &str) -> RpcError {
    RpcError { summary: text.to_string(), chain: text.to_string(), debug: text.to_string() }
}

fn header(number: u64) -> Header {
    Header { number, timestamp: 2 * number, rlp: vec![number as u8] }
}

fn boot_info(l1: u8) -> BootInfoStruct {
    BootInfoStruct {
        l1Head: [l1; 32],
        l2PreRoot: [0; 32],
        l2PostRoot: [0; 32],
        l2BlockNumber: 0,
        rollupConfigHash: [0; 32],
    }
}

fn alloy_header(number: u64) -> AlloyHeader {
    AlloyHeader { number, timestamp: 1234, gas_limit: 99, ..Default::default() }
}

fn raw_block(number: u64) -> Vec<u8> {
    let block = op_alloy_consensus::OpBlock {
        header: alloy_header(number),
        body: Default::default(),
    };
    alloy_rlp::encode(&block)
}

fn fetcher(genesis_hash: [u8; 32]) -> OPZisKDataFetcher {
    let vars = RpcVars {
        l1_rpc: Some("http://l1".to_string()),
        l1_beacon_rpc: None,
        l2_rpc: Some("http://l2".to_string()),
        l2_node_rpc: Some("http://node".to_string()),
    };
    let mut f = bare(&vars);
    f.rollup_config = Some(RollupConfig {
        l1_chain_id: 1,
        l2_chain_id: 10,
        genesis: ChainGenesis {
            l1: BlockNumHash { number: 77, hash: [7; 32] },
            l2: BlockNumHash { number: 5, hash: genesis_hash },
            l2_time: 0,
        },
    });
    f
}

#[test]
fn header_hash_is_that_of_its_encoding() {
    let h = alloy_header(3);
    let mine = Header { number: 3, timestamp: 1234, rlp: alloy_rlp::encode(&h) };
    assert_eq!(mine.hash_slow(), h.hash_slow().0);
}

#[test]
fn headers_come_from_their_replies() {
    assert_eq!(OPZisKDataFetcher::get_l2_head(Ok(Some(header(4)))).unwrap().number, 4);
    let e = OPZisKDataFetcher::get_l2_head(Ok(None)).err().unwrap();
    assert_eq!(e.message(), "Failed to get L2 head");
    let e = OPZisKDataFetcher::get_l2_head(Err(error("down"))).err().unwrap();
    assert_eq!(e.message(), "down");
    let tag = BlockTag::Number(255);
    assert_eq!(OPZisKDataFetcher::get_l1_header(tag, Ok(Some(header(9)))).unwrap().number, 9);
    let e = OPZisKDataFetcher::get_l1_header(tag, Ok(None)).err().unwrap();
    assert_eq!(e.message(), "Failed to get L1 header for block 0xff");
    let e = OPZisKDataFetcher::get_l1_header(tag, Err(error("x"))).err().unwrap();
    assert!(matches!(e, FetchError::Rpc(_)));
}

#[test]
fn block_tags_are_shown_as_the_chain_shows_them() {
    assert_eq!(BlockTag::Latest.display(), alloy_eips::BlockId::latest().to_string());
    assert_eq!(BlockTag::Finalized.display(), alloy_eips::BlockId::finalized().to_string());
    assert_eq!(BlockTag::Number(18).display(), alloy_eips::BlockId::number(18).to_string());
    let hash = alloy_primitives::B256::repeat_byte(0xab);
    assert_eq!(BlockTag::Hash(hash.0).display(), alloy_eips::BlockId::hash(hash).to_string());
}

#[test]
fn l2_blocks_are_decoded() {
    let block = OPZisKDataFetcher::get_l2_block_by_number(Ok(raw_block(6))).unwrap();
    assert_eq!((block.header.number, block.header.timestamp), (6, 1234));
    assert_eq!(block.header.rlp, alloy_rlp::encode(alloy_header(6)));
    assert_eq!(block.raw, raw_block(6));
    let e = OPZisKDataFetcher::get_l2_block_by_number(Ok(vec![1, 2])).err().unwrap();
    assert!(matches!(e, FetchError::BlockDecode(_)));
    assert_eq!(e.message(), alloy_rlp::Error::UnexpectedString.to_string());
    let e = OPZisKDataFetcher::get_l2_block_by_number(Err(error("no"))).err().unwrap();
    assert_eq!(e.message(), "no");
}

#[test]
fn l2_header_falls_back_to_the_encoding() {
    let number = BlockTag::Number(6);
    let ask = |tag, a: &L2HeaderAnswers| OPZisKDataFetcher::get_l2_header(tag, a);
    let mut a = L2HeaderAnswers { block: None, raw_block: None };
    assert!(matches!(ask(number, &a), Step::Ask(L2HeaderProbe::Block(BlockTag::Number(6)))));
    a.block = Some(Ok(Some(header(6))));
    assert!(matches!(ask(number, &a), Step::Done(h) if h.rlp == vec![6]));
    a.block = Some(Err(error("x")));
    assert!(matches!(ask(number, &a), Step::Fail(FetchError::Rpc(_))));
    a.block = Some(Ok(None));
    assert!(matches!(ask(number, &a), Step::Ask(L2HeaderProbe::RawBlock(6))));
    a.raw_block = Some(OPZisKDataFetcher::get_l2_block_by_number(Ok(raw_block(6))));
    assert!(matches!(ask(number, &a), Step::Done(h) if h.number == 6 && h.timestamp == 1234));
    a.raw_block = Some(Err(FetchError::BlockDecode("bad".to_string())));
    assert!(matches!(ask(number, &a), Step::Fail(FetchError::BlockDecode(t)) if t == "bad"));
    match ask(BlockTag::Finalized, &a) {
        Step::Fail(e) => assert_eq!(
            e.message(),
            "Failed to get L2 header for block finalized: cannot use debug fallback for non-numeric block IDs"
        ),
        other => panic!("{other:?}"),
    }
}

#[test]
fn genesis_block_has_the_origin_of_the_configuration() {
    let f = fetcher(alloy_header(5).hash_slow().0);
    assert!(matches!(f.l2_block_info_by_number(None), Step::Ask(())));
    match f.l2_block_info_by_number(Some(Ok(raw_block(5)))) {
        Step::Done(info) => {
            assert_eq!(info.number, 5);
            assert_eq!(info.timestamp, 1234);
            assert_eq!(info.hash, alloy_header(5).hash_slow().0);
            assert_eq!(info.parent_hash, [0; 32]);
            assert_eq!((info.l1_origin.number, info.l1_origin.hash), (77, [7; 32]));
            assert_eq!(info.seq_num, 0);
        }
        other => panic!("{other:?}"),
    }
}

#[test]
fn bad_l2_blocks_have_no_info() {
    let f = fetcher([9; 32]);
    let text = |raw: Vec<u8>| match f.l2_block_info_by_number(Some(Ok(raw))) {
        Step::Fail(e) => (matches!(e, FetchError::NotAnL2Block(_)), e.message()),
        other => panic!("{other:?}"),
    };
    let wrong_genesis = text(raw_block(5));
    assert!(wrong_genesis.0);
    assert_eq!(wrong_genesis.1, kona_protocol::FromBlockError::InvalidGenesisHash.to_string());
    let empty = text(raw_block(6));
    assert!(empty.0);
    let hash = alloy_header(6).hash_slow();
    assert_eq!(empty.1, kona_protocol::FromBlockError::MissingL1InfoDeposit(hash).to_string());
    assert!(!text(vec![]).0);
    assert!(matches!(
        f.l2_block_info_by_number(Some(Err(error("x")))),
        Step::Fail(FetchError::Rpc(_))
    ));
    let mut unloaded = f.clone();
    unloaded.rollup_config = None;
    assert!(matches!(
        unloaded.l2_block_info_by_number(None),
        Step::Fail(FetchError::RollupConfigNotLoaded)
    ));
}

#[test]
fn heads_of_a_batch_are_asked_for_in_order() {
    let infos = vec![boot_info(1), boot_info(2)];
    let mut heads = vec![];
    let ask = |h: &Vec<_>| OPZisKDataFetcher::get_earliest_l1_head_in_batch(&infos, h);
    assert!(matches!(ask(&heads), Step::Ask(BlockTag::Hash(h)) if h == [1; 32]));
    heads.push(Ok(header(8)));
    assert!(matches!(ask(&heads), Step::Ask(BlockTag::Hash(h)) if h == [2; 32]));
    heads.push(Err(FetchError::L2HeadNotFound));
    assert!(matches!(ask(&heads), Step::Fail(FetchError::L2HeadNotFound)));
}

#[test]
fn earliest_head_is_the_first_of_the_lowest() {
    let infos: Vec<_> = (0..4).map(boot_info).collect();
    let mut heads: Vec<Result<Header, FetchError>> = vec![];
    for (i, n) in [9u64, 4, 7, 4].iter().enumerate() {
        heads.push(Ok(Header { number: *n, timestamp: i as u64, rlp: vec![] }));
    }
    match OPZisKDataFetcher::get_earliest_l1_head_in_batch(&infos, &heads) {
        Step::Done(h) => assert_eq!((h.number, h.timestamp), (4, 1)),
        other => panic!("{other:?}"),
    }
    match OPZisKDataFetcher::get_latest_l1_head_in_batch(&infos, &heads) {
        Step::Done(h) => assert_eq!((h.number, h.timestamp), (9, 0)),
        other => panic!("{other:?}"),
    }
}

#[test]
fn latest_head_may_be_genesis() {
    let infos = vec![boot_info(1)];
    let heads = vec![Ok(header(0))];
    match OPZisKDataFetcher::get_latest_l1_head_in_batch(&infos, &heads) {
        Step::Done(h) => assert_eq!(h.number, 0),
        other => panic!("{other:?}"),
    }
    match OPZisKDataFetcher::get_latest_l1_head_in_batch(&vec![], &vec![]) {
        Step::Fail(e) => assert_eq!(e.message(), "Failed to get latest L1 header"),
        other => panic!("{other:?}"),
    }
    let asked = OPZisKDataFetcher::get_latest_l1_head_in_batch(&infos, &vec![]);
    assert!(matches!(asked, Step::Ask(BlockTag::Hash(h)) if h == [1; 32]));
    let failed = vec![Err(FetchError::L2HeadNotFound)];
    let failed = OPZisKDataFetcher::get_latest_l1_head_in_batch(&infos, &failed);
    assert!(matches!(failed, Step::Fail(FetchError::L2HeadNotFound)));
}

#[test]
fn ranges_hold_both_of_their_ends() {
    assert_eq!(inclusive_numbers(3, 6), vec![3, 4, 5, 6]);
    assert_eq!(inclusive_numbers(3, 3), vec![3]);
    assert_eq!(inclusive_numbers(4, 3).len(), 0);
    assert_eq!(inclusive_numbers(u64::MAX, u64::MAX), vec![u64::MAX]);
}

#[test]
fn range_of_headers_keeps_its_order() {
    let results = vec![Ok(header(3)), Ok(header(4))];
    let headers = OPZisKDataFetcher::fetch_headers_in_range(3, 4, &results).unwrap();
    assert_eq!(headers.iter().map(|h| h.number).collect::<Vec<_>>(), vec![3, 4]);
    let results = vec![
        Ok(header(3)),
        Err(FetchError::BlockNotFound(4)),
        Err(FetchError::BlockNotFound(5)),
    ];
    let e = OPZisKDataFetcher::fetch_headers_in_range(3, 5, &results).err().unwrap();
    assert!(matches!(e, FetchError::BlockNotFound(4)));
    assert_eq!(OPZisKDataFetcher::fetch_headers_in_range(5, 3, &vec![]).unwrap().len(), 0);
}

#[test]
fn preimages_reach_from_the_batch_to_the_checkpoint() {
    let infos = vec![boot_info(1), boot_info(2), boot_info(1)];
    let ask = |a: &PreimageAnswers| OPZisKDataFetcher::get_header_preimages(&infos, [3; 32], a);
    let mut a = PreimageAnswers { heads: vec![], checkpoint: None, headers: None };
    let head = |step, hash: u8| {
        matches!(step, Step::Ask(PreimageProbe::Head(BlockTag::Hash(h))) if h == [hash; 32])
    };
    assert!(head(ask(&a), 1));
    a.heads.push(Ok(header(11)));
    assert!(head(ask(&a), 2));
    a.heads.push(Ok(header(10)));
    assert!(head(ask(&a), 1));
    a.heads.push(Ok(header(11)));
    assert!(matches!(
        ask(&a),
        Step::Ask(PreimageProbe::Checkpoint(BlockTag::Hash(h))) if h == [3; 32]
    ));
    a.checkpoint = Some(Ok(header(12)));
    assert!(matches!(ask(&a), Step::Ask(PreimageProbe::Range { start: 10, end: 12 })));
    a.headers = Some(Ok(vec![header(10), header(11), header(12)]));
    match ask(&a) {
        Step::Done(h) => assert_eq!(h.iter().map(|h| h.number).collect::<Vec<_>>(), vec![10, 11, 12]),
        other => panic!("{other:?}"),
    }
    a.headers = Some(Err(FetchError::BlockNotFound(11)));
    assert!(matches!(ask(&a), Step::Fail(FetchError::BlockNotFound(11))));
    a.checkpoint = Some(Err(FetchError::BlockNotFound(12)));
    assert!(matches!(ask(&a), Step::Fail(FetchError::BlockNotFound(12))));
    a.heads[1] = Err(FetchError::BlockNotFound(10));
    assert!(matches!(ask(&a), Step::Fail(FetchError::BlockNotFound(10))));
}

#[test]
fn safe_db_is_active_when_it_answers() {
    let ask = OPZisKDataFetcher::is_safe_db_activated;
    assert!(matches!(ask(&None, &None), Step::Ask(SafeDbProbe::Finalized)));
    let finalized = Some(Ok(header(30)));
    assert!(matches!(ask(&finalized, &None), Step::Ask(SafeDbProbe::SafeHead(30))));
    assert!(matches!(ask(&finalized, &Some(Ok(()))), Step::Done(true)));
    assert!(matches!(ask(&finalized, &Some(Err(error("x")))), Step::Done(false)));
    let failed = Some(Err(FetchError::L2HeadNotFound));
    assert!(matches!(ask(&failed, &None), Step::Fail(FetchError::L2HeadNotFound)));
}
