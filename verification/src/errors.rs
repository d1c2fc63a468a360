//! Why a fetch failed, and what the user is told.

use crate::encoding::B256;
use crate::outside::{b256_hex, hex_digits};
use crate::rpc::RpcError;
use crate::text::{
    contains_text, decimal, hex_quantity, hex_quantity_text, law_hex_quantity_denotes_its_number,
    lemma_contains_between, numeral_value, occurs_at, push_decimal,
};
use crate::types::BlockTag;
use vstd::prelude::*;
use vstd::string::*;

verus! {

// The texts of the messages, in pieces where values stand between them.

pub const ROLLUP_CONFIG_NOT_LOADED: &'static str = "Rollup config not loaded.";

pub const INVALID_RANGE_1: &'static str =
    "L2 start block is greater than or equal to L2 end block. Start: ";

pub const INVALID_RANGE_2: &'static str = ", End: ";

pub const L2_LATEST_IS_GENESIS: &'static str =
    "L2 execution RPC is not ready: eth_getBlockByNumber(\"latest\") returned genesis (block \
     0). This typically means op-geth snap sync pivot/state healing has not completed yet. \
     Wait until eth_blockNumber is non-zero and latest returns a real head.";

pub const L2_LATEST_IS_NULL: &'static str =
    "L2 execution RPC is not ready: eth_getBlockByNumber(\"latest\") returned null. Ensure \
     op-geth is running and reachable.";

pub const L2_BLOCK_UNAVAILABLE_1: &'static str = "L2 execution RPC is not ready for block ";

pub const L2_BLOCK_UNAVAILABLE_2: &'static str =
    ": block not found via eth_getBlockByNumber or debug_getRawBlock. If op-geth is still \
     syncing, wait for it to finish snap sync pivot/state healing. Error: ";

pub const PROOF_WINDOW_EXCEEDED_1: &'static str =
    "L2 execution RPC cannot serve eth_getProof for block ";

pub const PROOF_WINDOW_EXCEEDED_2: &'static str =
    " due to proof window restrictions. Public RPCs often limit eth_getProof to recent blocks \
     only. To prove this block, you need: (1) A self-hosted L2 node with full state, or (2) \
     An archive L2 node, or (3) Wait for the block to be within the RPC's proof window (if \
     applicable). Error: ";

pub const PROOF_UNAVAILABLE_1: &'static str =
    "L2 execution RPC cannot serve eth_getProof for block ";

pub const PROOF_UNAVAILABLE_2: &'static str =
    ". This is required for proving. If your L2 node is a full (pruned) node, it may only be \
     able to serve eth_getProof for recent blocks; proving older blocks requires an archive \
     L2 node. Under snap sync pivot/state healing, eth_getProof may also be temporarily \
     unavailable: ";

pub const RAW_BLOCK_METHOD_MISSING: &'static str =
    "L2 execution RPC does not expose debug_getRawBlock, which is required for witness \
     generation. Ensure op-geth is started with the debug API enabled on its HTTP RPC (e.g., \
     include 'debug' in --http.api). Under Docker-based OP node setups, this usually means \
     adjusting the op-geth flags.";

pub const L2_NODE_NOT_READY_1: &'static str = "L2 node RPC is not ready for block ";

pub const L2_NODE_NOT_READY_2: &'static str =
    ": optimism_outputAtBlock failed. Ensure op-node is running and reachable at L2_NODE_RPC. \
     Error: ";

pub const BLOCK_NOT_FOUND: &'static str = "Block not found for block number ";

pub const L1_HEADER_NOT_FOUND: &'static str = "Failed to get L1 header for block ";

pub const L2_HEAD_NOT_FOUND: &'static str = "Failed to get L2 head";

pub const L2_HEADER_NOT_FOUND_1: &'static str = "Failed to get L2 header for block ";

pub const L2_HEADER_NOT_FOUND_2: &'static str =
    ": cannot use debug fallback for non-numeric block IDs";

pub const LATEST_BLOCK_NOT_FOUND: &'static str = "Failed to get latest block";

pub const SEARCH_BLOCK_NOT_FOUND: &'static str = "Failed to get block for block ";

pub const L1_BEACON_NOT_SET: &'static str = "L1 beacon RPC URL is not set";

pub const OUTPUT_AT_BLOCK_UNAVAILABLE: &'static str =
    "optimism_outputAtBlock not available (RPC method not supported or proof window \
     exceeded). This will trigger timestamp-based fallback if SAFE_DB_FALLBACK is enabled.";

pub const SAFE_HEAD_UNAVAILABLE: &'static str =
    "optimism_safeHeadAtL1Block not available (RPC method not supported or proof window \
     exceeded). This will trigger timestamp-based fallback if SAFE_DB_FALLBACK is enabled.";

pub const NO_SAFE_L1_BLOCK: &'static str =
    "Could not find an L1 block with an L2 safe head greater than the L2 end block.";

pub const SAFE_DB_NOT_ACTIVATED: &'static str =
    "SafeDB is not activated on your op-node and the `SAFE_DB_FALLBACK` flag is set to false. \
     Please enable the safeDB on your op-node to fix this, or set `SAFE_DB_FALLBACK` flag to \
     true, which will be more expensive: ";

pub const LATEST_L1_HEAD_NOT_FOUND: &'static str = "Failed to get latest L1 header";

pub const CREATE_DIR: &'static str = "creating ";

pub const ROLLUP_CONFIG_UNAVAILABLE_1: &'static str = "Failed to fetch rollup config from RPC (";

pub const ROLLUP_CONFIG_UNAVAILABLE_2: &'static str = ") and no config file found in: ";

pub const L1_CONFIG_MISSING_1: &'static str = "No built-in L1 config exists for chain ID ";

pub const L1_CONFIG_MISSING_2: &'static str =
    ".\nTo proceed, either:\n• Create a config file at: ";

pub const L1_CONFIG_MISSING_3: &'static str =
    "\n• Or set L1_CONFIG_DIR to the directory containing <chain_id>.json";

impl BlockTag {
    /// How the block is named in messages.
    pub open spec fn text(self) -> Seq<char> {
        match self {
            BlockTag::Latest => "latest"@,
            BlockTag::Finalized => "finalized"@,
            BlockTag::Number(n) => hex_quantity(n as nat),
            BlockTag::Hash(h) => "hash "@ + ("0x"@ + hex_digits(h@)),
        }
    }

    /// How the block is named in messages.
    pub fn display(&self) -> (r: String)
        ensures
            r@ == self.text(),
    {
        match self {
            BlockTag::Latest => "latest".to_owned(),
            BlockTag::Finalized => "finalized".to_owned(),
            BlockTag::Number(n) => hex_quantity_text(*n),
            BlockTag::Hash(h) => {
                let mut out = "hash ".to_owned();
                out.append(b256_hex(h).as_str());
                out
            },
        }
    }
}

/// Why a fetch failed.
#[derive(Debug)]
pub enum FetchError {
    /// The endpoint answered with an error, or not at all.
    Rpc(RpcError),
    /// A raw block does not decode.
    BlockDecode(String),
    /// A block lacks what every L2 block starts with.
    NotAnL2Block(String),
    /// The fetcher has no rollup configuration.
    RollupConfigNotLoaded,
    /// The range to prove is empty.
    InvalidRange { start: u64, end: u64 },
    /// The latest L2 block is the genesis block, and the wanted block does not exist.
    L2LatestIsGenesis,
    /// The L2 endpoint has no latest block.
    L2LatestIsNull,
    /// The L2 endpoint has the block under neither API.
    L2BlockUnavailable { block: u64, cause: String },
    /// The block lies beyond the proof window of the L2 endpoint.
    ProofWindowExceeded { block: u64, cause: String },
    /// The L2 endpoint does not have the state of the block.
    ProofUnavailable { block: u64, cause: String },
    /// The L2 endpoint does not offer raw blocks.
    RawBlockMethodMissing,
    /// Neither the rollup node nor the L2 endpoint has the block.
    L2NodeNotReady { block: u64, cause: String },
    /// A block that the host arguments need does not exist.
    BlockNotFound(u64),
    /// An L1 block does not exist.
    L1HeaderNotFound(BlockTag),
    /// The L2 chain has no latest block.
    L2HeadNotFound,
    /// An L2 block that is not named by its number does not exist.
    L2HeaderNotFound(BlockTag),
    /// A chain to search has no final block.
    LatestBlockNotFound,
    /// A block that a search asked for does not exist.
    SearchBlockNotFound(u64),
    /// No beacon endpoint is configured.
    L1BeaconNotSet,
    /// The rollup node cannot give the output of the block.
    OutputAtBlockUnavailable,
    /// The rollup node cannot give safe heads.
    SafeHeadUnavailable,
    /// The L2 block is safe as of no final L1 block.
    NoSafeL1Block,
    /// The safe-head lookup failed and no fallback is allowed.
    SafeDbNotActivated { cause: String },
    /// An empty batch has no latest L1 head.
    LatestL1HeadNotFound,
    /// A file cannot be read or written, or does not hold what it should.
    File(String),
    /// A directory cannot be created.
    CreateDir(String),
    /// The rollup configuration is neither on the node nor on disk.
    RollupConfigUnavailable { cause: String, dir: String },
    /// The L1 chain is neither built in nor configured.
    L1ConfigMissing { chain_id: u64, path: String },
}

impl Clone for FetchError {
    fn clone(&self) -> (r: FetchError)
        ensures
            r == *self,
    {
        match self {
            FetchError::Rpc(e) => FetchError::Rpc(e.clone()),
            FetchError::BlockDecode(text) => FetchError::BlockDecode(text.clone()),
            FetchError::NotAnL2Block(text) => FetchError::NotAnL2Block(text.clone()),
            FetchError::RollupConfigNotLoaded => FetchError::RollupConfigNotLoaded,
            FetchError::InvalidRange { start, end } => FetchError::InvalidRange {
                start: *start,
                end: *end,
            },
            FetchError::L2LatestIsGenesis => FetchError::L2LatestIsGenesis,
            FetchError::L2LatestIsNull => FetchError::L2LatestIsNull,
            FetchError::L2BlockUnavailable { block, cause } => FetchError::L2BlockUnavailable {
                block: *block,
                cause: cause.clone(),
            },
            FetchError::ProofWindowExceeded { block, cause } => FetchError::ProofWindowExceeded {
                block: *block,
                cause: cause.clone(),
            },
            FetchError::ProofUnavailable { block, cause } => FetchError::ProofUnavailable {
                block: *block,
                cause: cause.clone(),
            },
            FetchError::RawBlockMethodMissing => FetchError::RawBlockMethodMissing,
            FetchError::L2NodeNotReady { block, cause } => FetchError::L2NodeNotReady {
                block: *block,
                cause: cause.clone(),
            },
            FetchError::BlockNotFound(number) => FetchError::BlockNotFound(*number),
            FetchError::L1HeaderNotFound(tag) => FetchError::L1HeaderNotFound(*tag),
            FetchError::L2HeadNotFound => FetchError::L2HeadNotFound,
            FetchError::L2HeaderNotFound(tag) => FetchError::L2HeaderNotFound(*tag),
            FetchError::LatestBlockNotFound => FetchError::LatestBlockNotFound,
            FetchError::SearchBlockNotFound(number) => FetchError::SearchBlockNotFound(*number),
            FetchError::L1BeaconNotSet => FetchError::L1BeaconNotSet,
            FetchError::OutputAtBlockUnavailable => FetchError::OutputAtBlockUnavailable,
            FetchError::SafeHeadUnavailable => FetchError::SafeHeadUnavailable,
            FetchError::NoSafeL1Block => FetchError::NoSafeL1Block,
            FetchError::SafeDbNotActivated { cause } => FetchError::SafeDbNotActivated {
                cause: cause.clone(),
            },
            FetchError::LatestL1HeadNotFound => FetchError::LatestL1HeadNotFound,
            FetchError::File(text) => FetchError::File(text.clone()),
            FetchError::CreateDir(dir) => FetchError::CreateDir(dir.clone()),
            FetchError::RollupConfigUnavailable { cause, dir } => FetchError::RollupConfigUnavailable {
                cause: cause.clone(),
                dir: dir.clone(),
            },
            FetchError::L1ConfigMissing { chain_id, path } => FetchError::L1ConfigMissing {
                chain_id: *chain_id,
                path: path.clone(),
            },
        }
    }
}

impl FetchError {
    /// What the user is told.
    pub open spec fn text(self) -> Seq<char> {
        match self {
            FetchError::Rpc(e) => e.summary@,
            FetchError::BlockDecode(text) => text@,
            FetchError::NotAnL2Block(text) => text@,
            FetchError::RollupConfigNotLoaded => ROLLUP_CONFIG_NOT_LOADED@,
            FetchError::InvalidRange { start, end } => INVALID_RANGE_1@
                + decimal(start as nat)
                + INVALID_RANGE_2@
                + decimal(end as nat),
            FetchError::L2LatestIsGenesis => L2_LATEST_IS_GENESIS@,
            FetchError::L2LatestIsNull => L2_LATEST_IS_NULL@,
            FetchError::L2BlockUnavailable { block, cause } => L2_BLOCK_UNAVAILABLE_1@
                + decimal(block as nat)
                + L2_BLOCK_UNAVAILABLE_2@
                + cause@,
            FetchError::ProofWindowExceeded { block, cause } => PROOF_WINDOW_EXCEEDED_1@
                + decimal(block as nat)
                + PROOF_WINDOW_EXCEEDED_2@
                + cause@,
            FetchError::ProofUnavailable { block, cause } => PROOF_UNAVAILABLE_1@
                + decimal(block as nat)
                + PROOF_UNAVAILABLE_2@
                + cause@,
            FetchError::RawBlockMethodMissing => RAW_BLOCK_METHOD_MISSING@,
            FetchError::L2NodeNotReady { block, cause } => L2_NODE_NOT_READY_1@
                + decimal(block as nat)
                + L2_NODE_NOT_READY_2@
                + cause@,
            FetchError::BlockNotFound(number) => BLOCK_NOT_FOUND@ + decimal(number as nat),
            FetchError::L1HeaderNotFound(tag) => L1_HEADER_NOT_FOUND@ + tag.text(),
            FetchError::L2HeadNotFound => L2_HEAD_NOT_FOUND@,
            FetchError::L2HeaderNotFound(tag) => L2_HEADER_NOT_FOUND_1@
                + tag.text()
                + L2_HEADER_NOT_FOUND_2@,
            FetchError::LatestBlockNotFound => LATEST_BLOCK_NOT_FOUND@,
            FetchError::SearchBlockNotFound(number) => SEARCH_BLOCK_NOT_FOUND@
                + decimal(number as nat),
            FetchError::L1BeaconNotSet => L1_BEACON_NOT_SET@,
            FetchError::OutputAtBlockUnavailable => OUTPUT_AT_BLOCK_UNAVAILABLE@,
            FetchError::SafeHeadUnavailable => SAFE_HEAD_UNAVAILABLE@,
            FetchError::NoSafeL1Block => NO_SAFE_L1_BLOCK@,
            FetchError::SafeDbNotActivated { cause } => SAFE_DB_NOT_ACTIVATED@ + cause@,
            FetchError::LatestL1HeadNotFound => LATEST_L1_HEAD_NOT_FOUND@,
            FetchError::File(text) => text@,
            FetchError::CreateDir(dir) => CREATE_DIR@ + dir@,
            FetchError::RollupConfigUnavailable { cause, dir } => ROLLUP_CONFIG_UNAVAILABLE_1@
                + cause@
                + ROLLUP_CONFIG_UNAVAILABLE_2@
                + dir@,
            FetchError::L1ConfigMissing { chain_id, path } => L1_CONFIG_MISSING_1@
                + decimal(chain_id as nat)
                + L1_CONFIG_MISSING_2@
                + path@
                + L1_CONFIG_MISSING_3@,
        }
    }

    /// What the user is told.
    pub fn message(&self) -> (r: String)
        ensures
            r@ == self.text(),
    {
        let mut out = String::new();
        match self {
            FetchError::Rpc(e) => {
                out.append(e.summary.as_str());
            },
            FetchError::BlockDecode(text) => {
                out.append(text.as_str());
            },
            FetchError::NotAnL2Block(text) => {
                out.append(text.as_str());
            },
            FetchError::RollupConfigNotLoaded => {
                out.append(ROLLUP_CONFIG_NOT_LOADED);
            },
            FetchError::InvalidRange { start, end } => {
                out.append(INVALID_RANGE_1);
                push_decimal(&mut out, *start);
                out.append(INVALID_RANGE_2);
                push_decimal(&mut out, *end);
            },
            FetchError::L2LatestIsGenesis => {
                out.append(L2_LATEST_IS_GENESIS);
            },
            FetchError::L2LatestIsNull => {
                out.append(L2_LATEST_IS_NULL);
            },
            FetchError::L2BlockUnavailable { block, cause } => {
                out.append(L2_BLOCK_UNAVAILABLE_1);
                push_decimal(&mut out, *block);
                out.append(L2_BLOCK_UNAVAILABLE_2);
                out.append(cause.as_str());
            },
            FetchError::ProofWindowExceeded { block, cause } => {
                out.append(PROOF_WINDOW_EXCEEDED_1);
                push_decimal(&mut out, *block);
                out.append(PROOF_WINDOW_EXCEEDED_2);
                out.append(cause.as_str());
            },
            FetchError::ProofUnavailable { block, cause } => {
                out.append(PROOF_UNAVAILABLE_1);
                push_decimal(&mut out, *block);
                out.append(PROOF_UNAVAILABLE_2);
                out.append(cause.as_str());
            },
            FetchError::RawBlockMethodMissing => {
                out.append(RAW_BLOCK_METHOD_MISSING);
            },
            FetchError::L2NodeNotReady { block, cause } => {
                out.append(L2_NODE_NOT_READY_1);
                push_decimal(&mut out, *block);
                out.append(L2_NODE_NOT_READY_2);
                out.append(cause.as_str());
            },
            FetchError::BlockNotFound(number) => {
                out.append(BLOCK_NOT_FOUND);
                push_decimal(&mut out, *number);
            },
            FetchError::L1HeaderNotFound(tag) => {
                out.append(L1_HEADER_NOT_FOUND);
                out.append(tag.display().as_str());
            },
            FetchError::L2HeadNotFound => {
                out.append(L2_HEAD_NOT_FOUND);
            },
            FetchError::L2HeaderNotFound(tag) => {
                out.append(L2_HEADER_NOT_FOUND_1);
                out.append(tag.display().as_str());
                out.append(L2_HEADER_NOT_FOUND_2);
            },
            FetchError::LatestBlockNotFound => {
                out.append(LATEST_BLOCK_NOT_FOUND);
            },
            FetchError::SearchBlockNotFound(number) => {
                out.append(SEARCH_BLOCK_NOT_FOUND);
                push_decimal(&mut out, *number);
            },
            FetchError::L1BeaconNotSet => {
                out.append(L1_BEACON_NOT_SET);
            },
            FetchError::OutputAtBlockUnavailable => {
                out.append(OUTPUT_AT_BLOCK_UNAVAILABLE);
            },
            FetchError::SafeHeadUnavailable => {
                out.append(SAFE_HEAD_UNAVAILABLE);
            },
            FetchError::NoSafeL1Block => {
                out.append(NO_SAFE_L1_BLOCK);
            },
            FetchError::SafeDbNotActivated { cause } => {
                out.append(SAFE_DB_NOT_ACTIVATED);
                out.append(cause.as_str());
            },
            FetchError::LatestL1HeadNotFound => {
                out.append(LATEST_L1_HEAD_NOT_FOUND);
            },
            FetchError::File(text) => {
                out.append(text.as_str());
            },
            FetchError::CreateDir(dir) => {
                out.append(CREATE_DIR);
                out.append(dir.as_str());
            },
            FetchError::RollupConfigUnavailable { cause, dir } => {
                out.append(ROLLUP_CONFIG_UNAVAILABLE_1);
                out.append(cause.as_str());
                out.append(ROLLUP_CONFIG_UNAVAILABLE_2);
                out.append(dir.as_str());
            },
            FetchError::L1ConfigMissing { chain_id, path } => {
                out.append(L1_CONFIG_MISSING_1);
                push_decimal(&mut out, *chain_id);
                out.append(L1_CONFIG_MISSING_2);
                out.append(path.as_str());
                out.append(L1_CONFIG_MISSING_3);
            },
        }
        assert(out@ == self.text());
        out
    }
}

/// A message ends with `tail`.
pub open spec fn ends_with(s: Seq<char>, tail: Seq<char>) -> bool {
    s.len() >= tail.len() && s.skip(s.len() - tail.len()) == tail
}

/// A message names what it is about: the numbers of the blocks and chains, the directories and the
/// files, and at its end the cause that was handed on; where there is nothing but a cause, it is the
/// cause.
pub proof fn law_message_names_what_it_is_about(e: FetchError)
    ensures
        match e {
            FetchError::Rpc(cause) => e.text() == cause.summary@,
            FetchError::BlockDecode(cause) => e.text() == cause@,
            FetchError::NotAnL2Block(cause) => e.text() == cause@,
            FetchError::File(cause) => e.text() == cause@,
            FetchError::L2BlockUnavailable { block, cause } => contains_text(
                e.text(),
                decimal(block as nat),
            ) && ends_with(e.text(), cause@),
            FetchError::ProofWindowExceeded { block, cause } => contains_text(
                e.text(),
                decimal(block as nat),
            ) && ends_with(e.text(), cause@),
            FetchError::ProofUnavailable { block, cause } => contains_text(
                e.text(),
                decimal(block as nat),
            ) && ends_with(e.text(), cause@),
            FetchError::L2NodeNotReady { block, cause } => contains_text(
                e.text(),
                decimal(block as nat),
            ) && ends_with(e.text(), cause@),
            FetchError::BlockNotFound(number) => ends_with(e.text(), decimal(number as nat)),
            FetchError::SearchBlockNotFound(number) => ends_with(e.text(), decimal(number as nat)),
            FetchError::L1HeaderNotFound(tag) => ends_with(e.text(), tag.text()),
            FetchError::L2HeaderNotFound(tag) => contains_text(e.text(), tag.text()),
            FetchError::SafeDbNotActivated { cause } => ends_with(e.text(), cause@),
            FetchError::CreateDir(dir) => ends_with(e.text(), dir@),
            FetchError::RollupConfigUnavailable { cause, dir } => contains_text(e.text(), cause@)
                && ends_with(e.text(), dir@),
            FetchError::L1ConfigMissing { chain_id, path } => contains_text(
                e.text(),
                decimal(chain_id as nat),
            ) && contains_text(e.text(), path@),
            _ => true,
        },
{
    match e {
        FetchError::L2BlockUnavailable { block, cause } => {
            lemma_message(
                L2_BLOCK_UNAVAILABLE_1@,
                decimal(block as nat),
                L2_BLOCK_UNAVAILABLE_2@,
                cause@,
            );
        },
        FetchError::ProofWindowExceeded { block, cause } => {
            lemma_message(
                PROOF_WINDOW_EXCEEDED_1@,
                decimal(block as nat),
                PROOF_WINDOW_EXCEEDED_2@,
                cause@,
            );
        },
        FetchError::ProofUnavailable { block, cause } => {
            lemma_message(PROOF_UNAVAILABLE_1@, decimal(block as nat), PROOF_UNAVAILABLE_2@, cause@);
        },
        FetchError::L2NodeNotReady { block, cause } => {
            lemma_message(L2_NODE_NOT_READY_1@, decimal(block as nat), L2_NODE_NOT_READY_2@, cause@);
        },
        FetchError::BlockNotFound(number) => {
            lemma_ends_with(BLOCK_NOT_FOUND@, decimal(number as nat));
        },
        FetchError::SearchBlockNotFound(number) => {
            lemma_ends_with(SEARCH_BLOCK_NOT_FOUND@, decimal(number as nat));
        },
        FetchError::L1HeaderNotFound(tag) => {
            lemma_ends_with(L1_HEADER_NOT_FOUND@, tag.text());
        },
        FetchError::L2HeaderNotFound(tag) => {
            lemma_contains_between(L2_HEADER_NOT_FOUND_1@, tag.text(), L2_HEADER_NOT_FOUND_2@);
        },
        FetchError::SafeDbNotActivated { cause } => {
            lemma_ends_with(SAFE_DB_NOT_ACTIVATED@, cause@);
        },
        FetchError::CreateDir(dir) => {
            lemma_ends_with(CREATE_DIR@, dir@);
        },
        FetchError::RollupConfigUnavailable { cause, dir } => {
            lemma_message(
                ROLLUP_CONFIG_UNAVAILABLE_1@,
                cause@,
                ROLLUP_CONFIG_UNAVAILABLE_2@,
                dir@,
            );
        },
        FetchError::L1ConfigMissing { chain_id, path } => {
            let lead = L1_CONFIG_MISSING_1@ + decimal(chain_id as nat) + L1_CONFIG_MISSING_2@;
            lemma_contains_between(lead, path@, L1_CONFIG_MISSING_3@);
            let rest = path@ + L1_CONFIG_MISSING_3@;
            lemma_message(
                L1_CONFIG_MISSING_1@,
                decimal(chain_id as nat),
                L1_CONFIG_MISSING_2@,
                rest,
            );
            assert(lead + path@ + L1_CONFIG_MISSING_3@ =~= lead + rest);
        },
        _ => {},
    }
}

/// A text ends with what was put behind it.
pub proof fn lemma_ends_with(lead: Seq<char>, tail: Seq<char>)
    ensures
        ends_with(lead + tail, tail),
{
    let t = lead + tail;
    assert(t.skip(t.len() - tail.len()) =~= tail);
}

/// Texts are put together alike whichever two come first.
pub proof fn lemma_grouping(a: Seq<char>, b: Seq<char>, c: Seq<char>)
    ensures
        a + b + c == a + (b + c),
{
    assert(a + b + c =~= a + (b + c));
}

/// A text contains what stands in it and ends with what stands last.
pub proof fn lemma_message(lead: Seq<char>, value: Seq<char>, between: Seq<char>, tail: Seq<char>)
    ensures
        contains_text(lead + value + between + tail, value),
        ends_with(lead + value + between + tail, tail),
{
    lemma_contains_between(lead, value, between + tail);
    lemma_grouping(lead + value, between, tail);
    lemma_ends_with(lead + value + between, tail);
}

/// The message about an empty range gives its start before its end.
pub proof fn law_empty_range_is_told_from_start_to_end(start: u64, end: u64)
    ensures
        contains_text(
            FetchError::InvalidRange { start, end }.text(),
            decimal(start as nat) + ", End: "@ + decimal(end as nat),
        ),
{
    lemma_contains_rest(INVALID_RANGE_1@, decimal(start as nat), ", End: "@, decimal(end as nat));
    assert(INVALID_RANGE_2@ == ", End: "@);
}

proof fn lemma_contains_rest(lead: Seq<char>, a: Seq<char>, between: Seq<char>, b: Seq<char>)
    ensures
        contains_text(lead + a + between + b, a + between + b),
{
    lemma_grouping(lead, a, between);
    lemma_grouping(lead, a + between, b);
    lemma_ends_with(lead, a + between + b);
    let s = lead + (a + between + b);
    assert(s.subrange(lead.len() as int, s.len() as int) == s.skip(lead.len() as int));
    assert(occurs_at(s, a + between + b, lead.len() as int));
}

/// Blocks that are named by number or hash are named by that in messages.
pub proof fn law_block_is_named_in_messages(n: u64, h: B256)
    ensures
        numeral_value(BlockTag::Number(n).text().skip(2), 16) == n,
        ends_with(BlockTag::Hash(h).text(), hex_digits(h@)),
        BlockTag::Latest.text() == "latest"@,
        BlockTag::Finalized.text() == "finalized"@,
{
    law_hex_quantity_denotes_its_number(n as nat);
    let t = BlockTag::Hash(h).text();
    assert(t.skip(t.len() - hex_digits(h@).len()) =~= hex_digits(h@));
}

} // verus!
