//! The values that flow between the chain, the prover and the library.

use crate::encoding::{Address, B256};
use vstd::prelude::*;

verus! {

/// A block named by number and hash.
#[derive(Clone, Copy, Debug)]
pub struct BlockNumHash {
    pub number: u64,
    pub hash: B256,
}

/// A block as JSON-RPC names it.
#[derive(Clone, Copy, Debug)]
pub enum BlockTag {
    Latest,
    Finalized,
    Number(u64),
    Hash(B256),
}

/// A block header: the two fields that decisions read, and the RLP encoding that its hash is
/// taken of.
#[derive(Debug)]
pub struct Header {
    pub number: u64,
    pub timestamp: u64,
    pub rlp: Vec<u8>,
}

/// What a [`Header`] holds.
pub ghost struct HeaderView {
    pub number: u64,
    pub timestamp: u64,
    pub rlp: Seq<u8>,
}

impl View for Header {
    type V = HeaderView;

    open spec fn view(&self) -> HeaderView {
        HeaderView { number: self.number, timestamp: self.timestamp, rlp: self.rlp@ }
    }
}

impl Clone for Header {
    fn clone(&self) -> (r: Header)
        ensures
            r@ == self@,
    {
        Header { number: self.number, timestamp: self.timestamp, rlp: self.rlp.clone() }
    }
}

/// The endpoints that data comes from.
#[derive(Clone, Copy, Debug, PartialEq, Eq, Structural)]
pub enum RPCMode {
    L1,
    L1Beacon,
    L2,
    L2Node,
}

/// A URL that has been parsed: its normal form and its scheme.
#[derive(Debug)]
pub struct Url {
    pub href: String,
    pub scheme: String,
}

impl View for Url {
    type V = (Seq<char>, Seq<char>);

    open spec fn view(&self) -> (Seq<char>, Seq<char>) {
        (self.href@, self.scheme@)
    }
}

impl Clone for Url {
    fn clone(&self) -> (r: Url)
        ensures
            r == *self,
    {
        Url { href: self.href.clone(), scheme: self.scheme.clone() }
    }
}

/// The public values of a range proof.
#[allow(non_snake_case)]
#[derive(Clone, Copy, Debug)]
pub struct BootInfoStruct {
    pub l1Head: B256,
    pub l2PreRoot: B256,
    pub l2PostRoot: B256,
    pub l2BlockNumber: u64,
    pub rollupConfigHash: B256,
}

/// What the aggregation program reads besides the headers.
#[derive(Debug)]
pub struct AggregationInputs {
    pub boot_infos: Vec<BootInfoStruct>,
    pub latest_l1_checkpoint_head: B256,
    pub multi_block_vkey: [u32; 8],
    pub prover_address: Address,
}

/// Where the rollup starts on both chains.
#[derive(Clone, Copy, Debug)]
pub struct ChainGenesis {
    pub l1: BlockNumHash,
    pub l2: BlockNumHash,
    pub l2_time: u64,
}

/// The parts of the rollup configuration that the library reads.
#[derive(Clone, Copy, Debug)]
pub struct RollupConfig {
    pub l1_chain_id: u64,
    pub l2_chain_id: u64,
    pub genesis: ChainGenesis,
}

/// An L2 block with its L1 origin and its position in the epoch.
#[derive(Clone, Copy, Debug)]
pub struct L2BlockInfo {
    pub hash: B256,
    pub number: u64,
    pub parent_hash: B256,
    pub timestamp: u64,
    pub l1_origin: BlockNumHash,
    pub seq_num: u64,
}

} // verus!
