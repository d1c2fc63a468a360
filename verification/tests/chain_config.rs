use op_zisk::chain_config::{
    config_file, join_path, setting_or, InitAnswers, InitProbe, L1ConfigAnswers, L1ConfigProbe,
    RollupConfigAnswers, RollupConfigProbe,
};
use op_zisk::config::RpcVars;
use op_zisk::errors::FetchError;
use op_zisk::fetcher::{OPZisKDataFetcher, Step};
use op_zisk::rpc::RpcError;
use op_zisk::types::{BlockNumHash, ChainGenesis, RollupConfig};

fn set(text: &str) -> Option<String> {
    Some(text.to_string())
}

fn error(summary: &str) -> RpcError {
    RpcError { summary: summary.to_string(), chain: "c".to_string(), debug: "d".to_string() }
}

fn rollup(l2_chain_id: u64) -> RollupConfig {
    let genesis = BlockNumHash { number: 0, hash: [0; 32] };
    RollupConfig {
        l1_chain_id: 11155111,
        l2_chain_id,
        genesis: ChainGenesis { l1: genesis, l2: genesis, l2_time: 0 },
    }
}

fn nothing() -> RollupConfigAnswers {
    RollupConfigAnswers {
        dir_created: None,
        remote: None,
        saved: None,
        chain_id: None,
        exists: vec![],
        loaded: None,
    }
}

fn step(a: &RollupConfigAnswers) -> Step<RollupConfigProbe, (RollupConfig, String)> {
    OPZisKDataFetcher::fetch_and_save_rollup_config(&None, a)
}

#[test]
fn paths_are_joined_as_std_joins_them() {
    for dir in ["", "a", "a/", "/", "configs/L2", "x//"] {
        for name in ["", "n", "/abs/n", "/", "a/b"] {
            let expected = std::path::Path::new(dir).join(name);
            assert_eq!(join_path(dir, name), expected.display().to_string());
        }
        let expected = std::path::Path::new(dir).join("10.json");
        assert_eq!(join_path(dir, "10.json"), expected.display().to_string());
        assert_eq!(config_file(dir, 10), expected.display().to_string());
    }
}

#[test]
fn settings_have_defaults() {
    assert_eq!(setting_or(&None, "d"), "d");
    assert_eq!(setting_or(&set(""), "d"), "");
    assert_eq!(setting_or(&set("x"), "d"), "x");
}

#[test]
fn files_of_different_chains_differ() {
    let mut files: Vec<String> = (0..200).map(|id| config_file("d", id)).collect();
    files.sort();
    files.dedup();
    assert_eq!(files.len(), 200);
}

#[test]
fn rollup_configuration_of_the_node_is_saved() {
    let mut a = nothing();
    assert!(matches!(step(&a), Step::Ask(RollupConfigProbe::CreateDir(d)) if d == "configs/L2"));
    a.dir_created = Some(Ok(()));
    assert!(matches!(step(&a), Step::Ask(RollupConfigProbe::Remote)));
    a.remote = Some(Ok(rollup(10)));
    assert!(matches!(step(&a), Step::Ask(RollupConfigProbe::Save(p)) if p == "configs/L2/10.json"));
    a.saved = Some(Ok(()));
    match step(&a) {
        Step::Done((config, path)) => {
            assert_eq!(config.l2_chain_id, 10);
            assert_eq!(path, "configs/L2/10.json");
        }
        other => panic!("{other:?}"),
    }
    a.saved = Some(Err("disk full".to_string()));
    assert!(matches!(step(&a), Step::Fail(e) if e.message() == "disk full"));
    a.dir_created = Some(Err("denied".to_string()));
    assert!(matches!(step(&a), Step::Fail(e) if e.message() == "denied"));
}

#[test]
fn rollup_configuration_may_come_from_a_file() {
    let mut a = nothing();
    a.dir_created = Some(Ok(()));
    a.remote = Some(Err(error("down")));
    assert!(matches!(step(&a), Step::Ask(RollupConfigProbe::ChainId)));
    a.chain_id = Some(Some(10));
    assert!(matches!(step(&a), Step::Ask(RollupConfigProbe::Exists(p)) if p == "configs/L2/10.json"));
    a.exists = vec![true];
    assert!(matches!(step(&a), Step::Ask(RollupConfigProbe::Load(p)) if p == "configs/L2/10.json"));
    a.loaded = Some(Ok(rollup(10)));
    assert!(matches!(step(&a), Step::Done((c, p)) if c.l2_chain_id == 10 && p == "configs/L2/10.json"));
    a.loaded = Some(Err("bad json".to_string()));
    assert!(matches!(step(&a), Step::Fail(e) if e.message() == "bad json"));
    a.exists = vec![false];
    match step(&a) {
        Step::Fail(e) => assert_eq!(
            e.message(),
            "Failed to fetch rollup config from RPC (down) and no config file found in: configs/L2"
        ),
        other => panic!("{other:?}"),
    }
}

#[test]
fn common_chains_are_tried_in_order() {
    let mut a = nothing();
    a.dir_created = Some(Ok(()));
    a.remote = Some(Err(error("down")));
    a.chain_id = Some(None);
    let dir = set("d/");
    let mut asked = vec![];
    loop {
        match OPZisKDataFetcher::fetch_and_save_rollup_config(&dir, &a) {
            Step::Ask(RollupConfigProbe::Exists(p)) => {
                asked.push(p);
                a.exists.push(false);
            }
            Step::Fail(e) => {
                assert!(e.message().ends_with("no config file found in: d/"));
                break;
            }
            other => panic!("{other:?}"),
        }
    }
    assert_eq!(asked, vec!["d/901.json", "d/900.json", "d/420.json", "d/10.json"]);
    a.exists = vec![false, false, true];
    let found = OPZisKDataFetcher::fetch_and_save_rollup_config(&dir, &a);
    assert!(matches!(found, Step::Ask(RollupConfigProbe::Load(p)) if p == "d/420.json"));
}

fn no_l1() -> L1ConfigAnswers {
    L1ConfigAnswers {
        exists: None,
        loaded: None,
        registered: None,
        dir_created: None,
        saved: None,
    }
}

#[test]
fn existing_l1_configuration_is_used() {
    let step = |a: &L1ConfigAnswers| {
        OPZisKDataFetcher::fetch_and_save_l1_config(&None, &rollup(10), a)
    };
    let path = "configs/L1/11155111.json";
    let mut a = no_l1();
    assert!(matches!(step(&a), Step::Ask(L1ConfigProbe::Exists(p)) if p == path));
    a.exists = Some(true);
    assert!(matches!(step(&a), Step::Ask(L1ConfigProbe::Load(p)) if p == path));
    a.loaded = Some(Ok(()));
    assert!(matches!(step(&a), Step::Done(p) if p == path));
    a.loaded = Some(Err("bad".to_string()));
    assert!(matches!(step(&a), Step::Fail(FetchError::File(t)) if t == "bad"));
}

#[test]
fn built_in_l1_configuration_is_saved() {
    let dir = set("l1");
    let step = |a: &L1ConfigAnswers| {
        OPZisKDataFetcher::fetch_and_save_l1_config(&dir, &rollup(10), a)
    };
    let mut a = no_l1();
    a.exists = Some(false);
    assert!(matches!(step(&a), Step::Ask(L1ConfigProbe::Registry(11155111))));
    a.registered = Some(false);
    match step(&a) {
        Step::Fail(e) => assert_eq!(
            e.message(),
            "No built-in L1 config exists for chain ID 11155111.\nTo proceed, either:\n• Create a config file at: l1/11155111.json\n• Or set L1_CONFIG_DIR to the directory containing <chain_id>.json"
        ),
        other => panic!("{other:?}"),
    }
    a.registered = Some(true);
    assert!(matches!(step(&a), Step::Ask(L1ConfigProbe::CreateDir(d)) if d == "l1"));
    a.dir_created = Some(Err("denied".to_string()));
    assert!(matches!(step(&a), Step::Fail(e) if e.message() == "creating l1"));
    a.dir_created = Some(Ok(()));
    assert!(matches!(step(&a), Step::Ask(L1ConfigProbe::Save(p)) if p == "l1/11155111.json"));
    a.saved = Some(Err("full".to_string()));
    assert!(matches!(step(&a), Step::Fail(FetchError::File(t)) if t == "full"));
    a.saved = Some(Ok(()));
    assert!(matches!(step(&a), Step::Done(p) if p == "l1/11155111.json"));
}

#[test]
fn new_fetcher_has_its_rollup_configuration() {
    let vars = RpcVars {
        l1_rpc: set("http://l1"),
        l1_beacon_rpc: None,
        l2_rpc: set("http://l2"),
        l2_node_rpc: set("http://node"),
    };
    assert!(matches!(OPZisKDataFetcher::new(&vars, &None), Ok(Step::Ask(()))));
    let saved = Some(Ok((rollup(10), "configs/L2/10.json".to_string())));
    match OPZisKDataFetcher::new(&vars, &saved).unwrap() {
        Step::Done(f) => {
            assert_eq!(f.rpc_config.l1_rpc.href, "http://l1/");
            assert_eq!(f.rollup_config.unwrap().l2_chain_id, 10);
            assert_eq!(f.rollup_config_path, set("configs/L2/10.json"));
            assert_eq!(f.l1_config_path, None);
        }
        other => panic!("{other:?}"),
    }
    let failed = Some(Err(FetchError::File("disk full".to_string())));
    assert!(matches!(OPZisKDataFetcher::new(&vars, &failed), Ok(Step::Fail(FetchError::File(_)))));
    assert!(OPZisKDataFetcher::new(&RpcVars { l1_rpc: None, ..vars }, &saved).is_err());
}

#[test]
fn fetcher_takes_both_configurations() {
    let vars = RpcVars {
        l1_rpc: set("http://l1"),
        l1_beacon_rpc: None,
        l2_rpc: set("http://l2"),
        l2_node_rpc: set("http://node"),
    };
    let mut a = InitAnswers { rollup_config: None, l1_config: None };
    let step = |a: &InitAnswers| OPZisKDataFetcher::new_with_rollup_config(&vars, a).unwrap();
    assert!(matches!(step(&a), Step::Ask(InitProbe::RollupConfig)));
    a.rollup_config = Some(Ok((rollup(10), "r".to_string())));
    assert!(matches!(step(&a), Step::Ask(InitProbe::L1Config(c)) if c.l1_chain_id == 11155111));
    a.l1_config = Some(Ok("l".to_string()));
    match step(&a) {
        Step::Done(f) => {
            assert_eq!(f.rollup_config.unwrap().l2_chain_id, 10);
            assert_eq!(f.rollup_config_path, set("r"));
            assert_eq!(f.l1_config_path, set("l"));
            assert_eq!(f.rpc_config.l2_rpc.href, "http://l2/");
        }
        other => panic!("{other:?}"),
    }
    let config = op_zisk::config::RPCConfig::from_env(&vars).unwrap();
    assert!(matches!(OPZisKDataFetcher::new_with_rpc_config(config, &a), Step::Done(_)));
    a.l1_config = Some(Err(FetchError::L2HeadNotFound));
    assert!(matches!(step(&a), Step::Fail(FetchError::L2HeadNotFound)));
    a.rollup_config = Some(Err(FetchError::L1BeaconNotSet));
    assert!(matches!(step(&a), Step::Fail(FetchError::L1BeaconNotSet)));
    let bad = RpcVars { l1_rpc: None, ..vars };
    assert!(OPZisKDataFetcher::new_with_rollup_config(&bad, &a).is_err());
}
