use op_zisk::config::{
    BlockRangeConfig, ConfigError, DevnetReply, HealthReplies, HealthStatus, HttpReply, NodeReply,
    PathConfig, PathVars, ProofConfig, ProofConfigFile, RPCConfig, RPCEndpoints, RpcVars,
    ZiskConfig, ZiskVars,
};
use op_zisk::types::RPCMode;

fn set(text: &str) -> Option<String> {
    Some(text.to_string())
}

fn vars() -> RpcVars {
    RpcVars {
        l1_rpc: set("http://localhost:8545"),
        l1_beacon_rpc: None,
        l2_rpc: set("https://l2.example/rpc/"),
        l2_node_rpc: set("http://node:7545"),
    }
}

fn endpoints() -> RPCEndpoints {
    RPCEndpoints {
        l1_rpc: "http://api-l1".to_string(),
        l2_rpc: "http://api-l2".to_string(),
        l2_node_rpc: "http://api-node".to_string(),
        l1_beacon_rpc: set("http://api-beacon"),
    }
}

fn no_zisk() -> ZiskVars {
    ZiskVars {
        range_elf_path: None,
        range_proving_key_path: None,
        witness_lib_path: None,
        verify_proofs: None,
    }
}

fn no_paths() -> PathVars {
    PathVars { l1_config_dir: None, l2_config_dir: None }
}

fn config() -> ProofConfig {
    ProofConfig::from_env(&vars(), &no_zisk(), &no_paths()).unwrap()
}

fn message(r: Result<RPCConfig, ConfigError>) -> String {
    r.err().unwrap().message()
}

#[test]
fn endpoints_come_from_the_environment() {
    let rpc = RPCConfig::from_env(&vars()).unwrap();
    assert_eq!(rpc.l1_rpc.href, "http://localhost:8545/");
    assert_eq!(rpc.l1_rpc.scheme, "http");
    assert_eq!(rpc.l2_rpc.href, "https://l2.example/rpc/");
    assert_eq!(rpc.l2_rpc.scheme, "https");
    assert_eq!(rpc.l2_node_rpc.href, "http://node:7545/");
    assert!(rpc.l1_beacon_rpc.is_none());
}

#[test]
fn urls_are_those_of_the_url_crate() {
    for text in ["HTTP://EXAMPLE.com:80/a/../b?q=1#f", "ws://x", "ftp://h:21/", "data:text,x"] {
        let rpc = RPCConfig::from_env(&RpcVars { l1_rpc: set(text), ..vars() }).unwrap();
        let url = url::Url::parse(text).unwrap();
        assert_eq!(rpc.l1_rpc.href, url.as_str());
        assert_eq!(rpc.l1_rpc.scheme, url.scheme());
    }
}

#[test]
fn missing_variables_are_named_in_order() {
    let none = RpcVars { l1_rpc: None, l1_beacon_rpc: None, l2_rpc: None, l2_node_rpc: None };
    assert_eq!(
        message(RPCConfig::from_env(&none)),
        "L1_RPC environment variable is required for proof generation"
    );
    let v = RpcVars { l2_rpc: None, l2_node_rpc: None, l1_rpc: set("no url"), ..vars() };
    assert_eq!(
        message(RPCConfig::from_env(&v)),
        "L2_RPC environment variable is required for proof generation"
    );
    let v = RpcVars { l2_node_rpc: None, ..vars() };
    assert_eq!(
        message(RPCConfig::from_env(&v)),
        "L2_NODE_RPC environment variable is required for proof generation"
    );
}

#[test]
fn bad_urls_are_quoted() {
    let v = RpcVars { l1_rpc: set("localhost"), l2_rpc: set("::"), ..vars() };
    assert_eq!(message(RPCConfig::from_env(&v)), "L1_RPC must be a valid URL, got: localhost");
    let v = RpcVars { l2_rpc: set("::"), ..vars() };
    assert_eq!(message(RPCConfig::from_env(&v)), "L2_RPC must be a valid URL, got: ::");
    let v = RpcVars { l2_node_rpc: set(""), ..vars() };
    assert_eq!(message(RPCConfig::from_env(&v)), "L2_NODE_RPC must be a valid URL, got: ");
    let v = RpcVars { l1_beacon_rpc: set(" "), ..vars() };
    assert_eq!(
        message(RPCConfig::from_env(&v)),
        "L1_BEACON_RPC must be a valid URL if provided"
    );
}

#[test]
fn devnet_api_is_asked_below_its_address() {
    assert_eq!(RPCConfig::devnet_request("http://127.0.0.1:8080"), "http://127.0.0.1:8080/rpcs");
    assert_eq!(RPCConfig::devnet_request("http://127.0.0.1:8080//"), "http://127.0.0.1:8080/rpcs");
}

#[test]
fn endpoints_come_from_the_devnet_api() {
    let rpc = RPCConfig::from_devnet_api(&DevnetReply::Endpoints(endpoints())).unwrap();
    assert_eq!(rpc.l1_rpc.href, "http://api-l1/");
    assert_eq!(rpc.l1_beacon_rpc.unwrap().href, "http://api-beacon/");
}

#[test]
fn devnet_api_failures_have_their_messages() {
    let unreachable = RPCConfig::from_devnet_api(&DevnetReply::Unreachable);
    assert_eq!(message(unreachable), "Failed to connect to DevnetManager API");
    let status = RPCConfig::from_devnet_api(&DevnetReply::Status("404 Not Found".to_string()));
    assert_eq!(message(status), "DevnetManager API returned error: 404 Not Found");
    let unreadable = RPCConfig::from_devnet_api(&DevnetReply::Unreadable);
    assert_eq!(message(unreadable), "Failed to parse RPC endpoints from DevnetManager API");
    let bad = |e: RPCEndpoints| message(RPCConfig::from_devnet_api(&DevnetReply::Endpoints(e)));
    assert_eq!(
        bad(RPCEndpoints { l1_rpc: "x".to_string(), ..endpoints() }),
        "Invalid L1_RPC from API: x"
    );
    assert_eq!(
        bad(RPCEndpoints { l2_rpc: "y".to_string(), ..endpoints() }),
        "Invalid L2_RPC from API: y"
    );
    assert_eq!(
        bad(RPCEndpoints { l2_node_rpc: "z".to_string(), ..endpoints() }),
        "Invalid L2_NODE_RPC from API: z"
    );
    assert_eq!(
        bad(RPCEndpoints { l1_beacon_rpc: set("b"), ..endpoints() }),
        "Invalid L1_BEACON_RPC from API"
    );
}

#[test]
fn devnet_api_wins_over_the_environment() {
    let devnet = Some(DevnetReply::Endpoints(endpoints()));
    assert_eq!(RPCConfig::discover(&devnet, &vars()).unwrap().l1_rpc.href, "http://api-l1/");
    let failed = Some(DevnetReply::Unreachable);
    assert_eq!(RPCConfig::discover(&failed, &vars()).unwrap().l1_rpc.href, "http://localhost:8545/");
    assert_eq!(RPCConfig::discover(&None, &vars()).unwrap().l1_rpc.href, "http://localhost:8545/");
    let v = RpcVars { l2_rpc: None, ..vars() };
    assert_eq!(
        message(RPCConfig::discover(&failed, &v)),
        "L2_RPC environment variable is required for proof generation"
    );
}

#[test]
fn proofs_are_verified_unless_switched_off() {
    for (text, expected) in [(None, true), (set("false"), false), (set("true"), true), (set("no"), true)] {
        let zisk = ZiskConfig::from_env(&ZiskVars { verify_proofs: text, ..no_zisk() });
        assert_eq!(zisk.verify_proofs, expected);
    }
    let zisk = ZiskConfig::from_env(&ZiskVars {
        range_elf_path: set("a"),
        range_proving_key_path: set("b"),
        witness_lib_path: set("c"),
        verify_proofs: None,
    });
    assert_eq!(zisk.range_elf_path, set("a"));
    assert_eq!(zisk.proving_key_path, set("b"));
    assert_eq!(zisk.witness_lib_path, set("c"));
}

#[test]
fn configuration_directories_come_from_the_environment() {
    let paths = PathConfig::from_env(&PathVars { l1_config_dir: set("x"), l2_config_dir: None });
    assert_eq!(paths.l1_config_dir, set("x"));
    assert_eq!(paths.l2_config_dir, None);
}

#[test]
fn configuration_from_the_environment_has_no_range() {
    assert!(config().block_range.is_none());
    let bad = ProofConfig::from_env(&RpcVars { l1_rpc: None, ..vars() }, &no_zisk(), &no_paths());
    assert!(matches!(bad.err(), Some(ConfigError::Missing(RPCMode::L1))));
}

#[test]
fn configuration_comes_from_a_file() {
    let file = |rpc: RPCEndpoints| ProofConfigFile {
        rpc,
        block_range: Some(BlockRangeConfig { start: 1, end: 5 }),
        zisk: ZiskConfig::from_env(&no_zisk()),
        paths: PathConfig::from_env(&no_paths()),
    };
    let config = ProofConfig::from_file("c.json", Some(Some(file(endpoints())))).unwrap();
    assert_eq!(config.rpc.l2_rpc.href, "http://api-l2/");
    assert_eq!(config.block_range.unwrap().end, 5);
    let unreadable = ProofConfig::from_file("c.json", None).err().unwrap();
    assert_eq!(unreadable.message(), "Failed to read config file: c.json");
    let malformed = ProofConfig::from_file("c.json", Some(None)).err().unwrap();
    assert_eq!(malformed.message(), "Failed to parse config file: c.json");
    let bad = file(RPCEndpoints { l1_rpc: "x".to_string(), ..endpoints() });
    let bad = ProofConfig::from_file("c.json", Some(Some(bad))).err().unwrap();
    assert_eq!(bad.message(), "Failed to parse config file: c.json");
}

#[test]
fn endpoints_have_to_speak_http() {
    assert!(config().validate().is_ok());
    let text = |c: ProofConfig| c.validate().err().unwrap().message();
    let with = |change: fn(&mut RpcVars)| {
        let mut v = vars();
        change(&mut v);
        ProofConfig::from_env(&v, &no_zisk(), &no_paths()).unwrap()
    };
    assert_eq!(
        text(with(|v| v.l1_rpc = Some("ws://a".to_string()))),
        "L1_RPC must be an HTTP/HTTPS URL, got: ws://a/"
    );
    assert_eq!(
        text(with(|v| v.l2_rpc = Some("ftp://b".to_string()))),
        "L2_RPC must be an HTTP/HTTPS URL, got: ftp://b/"
    );
    assert_eq!(
        text(with(|v| v.l2_node_rpc = Some("wss://c".to_string()))),
        "L2_NODE_RPC must be an HTTP/HTTPS URL, got: wss://c/"
    );
    assert_eq!(
        text(with(|v| v.l1_beacon_rpc = Some("ws://d".to_string()))),
        "L1_BEACON_RPC must be an HTTP/HTTPS URL, got: ws://d/"
    );
}

#[test]
fn block_range_has_to_hold_a_block() {
    let with = |start: u64, end: u64| {
        let mut c = config();
        c.block_range = Some(BlockRangeConfig { start, end });
        c.validate()
    };
    assert!(with(1, 2).is_ok());
    assert_eq!(
        with(5, 5).err().unwrap().message(),
        "Block range invalid: start (5) must be less than end (5)"
    );
    assert_eq!(
        with(9, 3).err().unwrap().message(),
        "Block range invalid: start (9) must be less than end (3)"
    );
}

fn replies() -> HealthReplies {
    HealthReplies {
        l1_block_number: Some(7),
        l2_block_number: Some(9),
        l2_node: NodeReply::Json { error: false },
        l1_beacon: HttpReply::Success,
    }
}

#[test]
fn health_follows_the_replies() {
    let status = config().health_check(&replies());
    assert!(status.l1_available && status.l2_available && status.l2_node_available);
    assert!(!status.l1_beacon_available);
    assert_eq!((status.l1_block_number, status.l2_block_number), (Some(7), Some(9)));
    let mut with_beacon = config();
    with_beacon.rpc.l1_beacon_rpc = Some(with_beacon.rpc.l1_rpc.clone());
    assert!(with_beacon.health_check(&replies()).l1_beacon_available);
    for l1_beacon in [HttpReply::Unreachable, HttpReply::Failure] {
        let r = HealthReplies { l1_beacon, ..replies() };
        assert!(!with_beacon.health_check(&r).l1_beacon_available);
    }
}

#[test]
fn node_counts_as_available_unless_it_answers_with_an_error() {
    for (l2_node, expected) in [
        (NodeReply::Unreachable, false),
        (NodeReply::Failure, false),
        (NodeReply::NotJson, true),
        (NodeReply::Json { error: false }, true),
        (NodeReply::Json { error: true }, false),
    ] {
        let r = HealthReplies { l2_node, ..replies() };
        assert_eq!(config().health_check(&r).l2_node_available, expected);
    }
}

#[test]
fn run_needs_three_endpoints() {
    let up = config().health_check(&replies());
    assert!(up.require_endpoints().is_ok());
    let text = |s: HealthStatus| s.require_endpoints().err().unwrap().message();
    assert_eq!(
        text(HealthStatus { l1_available: false, l2_available: false, ..up }),
        "L1 RPC is not available - check your L1_RPC configuration"
    );
    assert_eq!(
        text(HealthStatus { l2_available: false, ..up }),
        "L2 RPC is not available - check your L2_RPC configuration"
    );
    assert_eq!(
        text(HealthStatus { l2_node_available: false, ..up }),
        "L2 Node RPC is not available - check your L2_NODE_RPC configuration"
    );
}
