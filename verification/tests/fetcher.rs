use op_zisk::config::RpcVars;
use op_zisk::errors::FetchError;
use op_zisk::fetcher::{get_rpcs_from_env, OPZisKDataFetcher};
use op_zisk::types::RPCMode;

fn set(text: &str) -> Option<String> {
    Some(text.to_string())
}

fn vars() -> RpcVars {
    RpcVars {
        l1_rpc: set("http://l1"),
        l1_beacon_rpc: set(" http://beacon \n"),
        l2_rpc: set("http://l2"),
        l2_node_rpc: set("http://node"),
    }
}

fn unloaded(vars: &RpcVars) -> OPZisKDataFetcher {
    OPZisKDataFetcher {
        rpc_config: get_rpcs_from_env(vars).unwrap(),
        rollup_config: None,
        rollup_config_path: None,
        l1_config_path: None,
    }
}

#[test]
fn endpoints_come_from_the_environment_trimmed() {
    let config = get_rpcs_from_env(&vars()).unwrap();
    assert_eq!(config.l1_rpc.href, "http://l1/");
    assert_eq!(config.l1_beacon_rpc.unwrap().href, "http://beacon/");
    assert_eq!(config.l2_rpc.href, "http://l2/");
    assert_eq!(config.l2_node_rpc.href, "http://node/");
}

#[test]
fn blank_beacon_is_none() {
    for beacon in [None, set(""), set("  \t")] {
        let config = get_rpcs_from_env(&RpcVars { l1_beacon_rpc: beacon, ..vars() }).unwrap();
        assert!(config.l1_beacon_rpc.is_none());
    }
}

#[test]
fn failures_are_reported_in_order() {
    let text = |v: RpcVars| get_rpcs_from_env(&v).err().unwrap().message();
    let none = RpcVars { l1_rpc: None, l1_beacon_rpc: set("x"), l2_rpc: None, l2_node_rpc: None };
    assert_eq!(text(none), "L1_RPC environment variable is required for proof generation");
    let v = RpcVars { l1_beacon_rpc: set("x"), l2_rpc: None, ..vars() };
    assert_eq!(text(v), "L1_BEACON_RPC must be a valid URL if provided");
    let v = RpcVars { l1_rpc: set("x"), l2_rpc: None, ..vars() };
    assert_eq!(text(v), "L2_RPC environment variable is required for proof generation");
    let v = RpcVars { l1_rpc: set("x"), l2_node_rpc: None, ..vars() };
    assert_eq!(text(v), "L2_NODE_RPC environment variable is required for proof generation");
    let v = RpcVars { l1_rpc: set("x"), l2_rpc: set("y"), l2_node_rpc: set("z"), ..vars() };
    assert_eq!(text(v), "L1_RPC must be a valid URL, got: x");
    let v = RpcVars { l2_rpc: set("y"), l2_node_rpc: set("z"), ..vars() };
    assert_eq!(text(v), "L2_RPC must be a valid URL, got: y");
    let v = RpcVars { l2_node_rpc: set("z"), ..vars() };
    assert_eq!(text(v), "L2_NODE_RPC must be a valid URL, got: z");
}

#[test]
fn run_and_fetcher_read_the_same_endpoints() {
    let v = RpcVars { l1_beacon_rpc: set("http://beacon"), ..vars() };
    let a = get_rpcs_from_env(&v).unwrap();
    let b = op_zisk::config::RPCConfig::from_env(&v).unwrap();
    assert_eq!(a.l1_rpc.href, b.l1_rpc.href);
    assert_eq!(a.l1_beacon_rpc.unwrap().href, b.l1_beacon_rpc.unwrap().href);
}

#[test]
fn modes_have_their_endpoints() {
    let fetcher = unloaded(&vars());
    let href = |mode| fetcher.get_rpc_url(mode).unwrap().href.clone();
    assert_eq!(href(RPCMode::L1), "http://l1/");
    assert_eq!(href(RPCMode::L1Beacon), "http://beacon/");
    assert_eq!(href(RPCMode::L2), "http://l2/");
    assert_eq!(href(RPCMode::L2Node), "http://node/");
    let bare = unloaded(&RpcVars { l1_beacon_rpc: None, ..vars() });
    let e = bare.get_rpc_url(RPCMode::L1Beacon).err().unwrap();
    assert!(matches!(e, FetchError::L1BeaconNotSet));
    assert_eq!(e.message(), "L1 beacon RPC URL is not set");
}

#[test]
fn calls_name_their_blocks() {
    let call = OPZisKDataFetcher::get_l2_output_at_block(255);
    assert_eq!(call.mode, RPCMode::L2Node);
    assert_eq!(call.method, "optimism_outputAtBlock");
    assert_eq!(call.params, vec!["0xff"]);
    let call = OPZisKDataFetcher::get_l2_safe_head_from_l1_block_number(0);
    assert_eq!((call.method, call.params), ("optimism_safeHeadAtL1Block", vec!["0x0".to_string()]));
    let call = OPZisKDataFetcher::raw_block_call(16);
    assert_eq!((call.mode, call.method), (RPCMode::L2, "debug_getRawBlock"));
    assert_eq!(call.params, vec!["0x10"]);
    let call = OPZisKDataFetcher::get_l2_chain_id();
    assert_eq!((call.mode, call.method, call.params.len()), (RPCMode::L2, "eth_chainId", 0));
    let call = OPZisKDataFetcher::rollup_config_call();
    assert_eq!((call.mode, call.method), (RPCMode::L2Node, "optimism_rollupConfig"));
    let fetcher = unloaded(&vars());
    assert_eq!(fetcher.fetch_rpc_data_with_mode(&call).unwrap().href, "http://node/");
}

#[test]
fn answers_with_an_error_fail() {
    assert!(OPZisKDataFetcher::fetch_rpc_data("m", &None).is_ok());
    let e = OPZisKDataFetcher::fetch_rpc_data("m", &Some(set("boom"))).err().unwrap();
    assert_eq!(e.summary, "Error calling m: boom");
    assert_eq!(e.chain, "Error calling m: boom");
    assert_eq!(e.debug, "Error calling m: boom");
    let e = OPZisKDataFetcher::fetch_rpc_data("m", &Some(None)).err().unwrap();
    assert_eq!(e.summary, "Error calling m: Unknown error");
}
