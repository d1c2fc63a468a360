use op_zisk::errors::FetchError;
use op_zisk::rpc::RpcError;
use op_zisk::types::BlockTag;

#[test]
fn messages_quote_their_parts() {
    let rpc = RpcError { summary: "s".to_string(), chain: "c".to_string(), debug: "d".to_string() };
    assert_eq!(FetchError::Rpc(rpc).message(), "s");
    assert_eq!(
        FetchError::InvalidRange { start: 7, end: 3 }.message(),
        "L2 start block is greater than or equal to L2 end block. Start: 7, End: 3"
    );
    assert_eq!(FetchError::BlockNotFound(12).message(), "Block not found for block number 12");
    assert_eq!(FetchError::SearchBlockNotFound(0).message(), "Failed to get block for block 0");
    assert_eq!(
        FetchError::L1HeaderNotFound(BlockTag::Latest).message(),
        "Failed to get L1 header for block latest"
    );
    assert_eq!(
        FetchError::SafeDbNotActivated { cause: "why".to_string() }.message(),
        "SafeDB is not activated on your op-node and the `SAFE_DB_FALLBACK` flag is set to false. Please enable the safeDB on your op-node to fix this, or set `SAFE_DB_FALLBACK` flag to true, which will be more expensive: why"
    );
    assert_eq!(
        FetchError::OutputAtBlockUnavailable.message(),
        "optimism_outputAtBlock not available (RPC method not supported or proof window exceeded). This will trigger timestamp-based fallback if SAFE_DB_FALLBACK is enabled."
    );
    assert_eq!(
        FetchError::SafeHeadUnavailable.message(),
        "optimism_safeHeadAtL1Block not available (RPC method not supported or proof window exceeded). This will trigger timestamp-based fallback if SAFE_DB_FALLBACK is enabled."
    );
    assert_eq!(
        FetchError::RawBlockMethodMissing.message(),
        "L2 execution RPC does not expose debug_getRawBlock, which is required for witness generation. Ensure op-geth is started with the debug API enabled on its HTTP RPC (e.g., include 'debug' in --http.api). Under Docker-based OP node setups, this usually means adjusting the op-geth flags."
    );
    assert_eq!(FetchError::NotAnL2Block("n".to_string()).message(), "n");
    assert_eq!(FetchError::LatestL1HeadNotFound.message(), "Failed to get latest L1 header");
}

#[test]
fn failures_clone_to_themselves() {
    let failures = [
        FetchError::BlockDecode("b".to_string()),
        FetchError::L2NodeNotReady { block: 4, cause: "x".to_string() },
        FetchError::L1ConfigMissing { chain_id: 5, path: "p".to_string() },
        FetchError::L2HeaderNotFound(BlockTag::Finalized),
        FetchError::CreateDir("d".to_string()),
        FetchError::File("f".to_string()),
    ];
    for f in failures {
        assert_eq!(f.clone().message(), f.message());
        assert_eq!(format!("{:?}", f.clone()), format!("{f:?}"));
    }
}
