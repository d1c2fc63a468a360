//! The host program: its arguments, and the witness that it hands to the zkVM.

use crate::config::clone_text;
use crate::encoding::{frame_with_size, le_bytes, sized, B256};
use crate::errors::FetchError;
use crate::fetcher::{OPZisKDataFetcher, Step};
use crate::outside::{be_bytes, keccak256_of};
use crate::proving::L2Output;
use crate::rpc::{opt_text, RpcError};
use crate::text::{
    decimal, law_only_the_trailing_run_is_gone, push_decimal, trim_end_matches, without_trailing,
};
use crate::types::{BlockNumHash, BlockTag, BootInfoStruct, Header};
use vstd::prelude::*;
use vstd::string::*;

verus! {

// ---------------------------------------------------------------------------------------------
// The arguments of the host program
// ---------------------------------------------------------------------------------------------

/// The arguments of the host program.
#[derive(Debug)]
pub struct SingleChainHost {
    pub l1_head: B256,
    pub agreed_l2_head_hash: B256,
    pub agreed_l2_output_root: B256,
    pub claimed_l2_output_root: B256,
    pub claimed_l2_block_number: u64,
    pub l2_node_address: Option<String>,
    pub l1_node_address: Option<String>,
    pub l1_beacon_address: Option<String>,
    pub data_dir: Option<String>,
    pub native: bool,
    pub server: bool,
    pub l2_chain_id: Option<u64>,
    pub rollup_config_path: Option<String>,
    pub l1_config_path: Option<String>,
    pub enable_experimental_witness_endpoint: bool,
}

impl Clone for SingleChainHost {
    fn clone(&self) -> (r: SingleChainHost)
        ensures
            r == *self,
    {
        SingleChainHost {
            l1_head: self.l1_head,
            agreed_l2_head_hash: self.agreed_l2_head_hash,
            agreed_l2_output_root: self.agreed_l2_output_root,
            claimed_l2_output_root: self.claimed_l2_output_root,
            claimed_l2_block_number: self.claimed_l2_block_number,
            l2_node_address: clone_text(&self.l2_node_address),
            l1_node_address: clone_text(&self.l1_node_address),
            l1_beacon_address: clone_text(&self.l1_beacon_address),
            data_dir: clone_text(&self.data_dir),
            native: self.native,
            server: self.server,
            l2_chain_id: self.l2_chain_id,
            rollup_config_path: clone_text(&self.rollup_config_path),
            l1_config_path: clone_text(&self.l1_config_path),
            enable_experimental_witness_endpoint: self.enable_experimental_witness_endpoint,
        }
    }
}

impl SingleChainHost {
    /// What a proof made with these arguments states publicly.
    pub fn boot_info(&self, rollup_config_hash: B256) -> (r: BootInfoStruct)
        ensures
            r == (BootInfoStruct {
                l1Head: self.l1_head,
                l2PreRoot: self.agreed_l2_output_root,
                l2PostRoot: self.claimed_l2_output_root,
                l2BlockNumber: self.claimed_l2_block_number,
                rollupConfigHash: rollup_config_hash,
            }),
    {
        BootInfoStruct {
            l1Head: self.l1_head,
            l2PreRoot: self.agreed_l2_output_root,
            l2PostRoot: self.claimed_l2_output_root,
            l2BlockNumber: self.claimed_l2_block_number,
            rollupConfigHash: rollup_config_hash,
        }
    }
}

/// What the arguments need of an L2 block.
#[derive(Clone, Copy, Debug)]
pub struct BlockRoots {
    pub hash: B256,
    pub state_root: B256,
}

/// What a range of L2 blocks boots from: the L1 head that it is derived from, and the output roots
/// that it starts from and ends with.
#[derive(Clone, Copy, Debug)]
pub struct BootInfo {
    pub l1_head: B256,
    pub agreed_l2_output_root: B256,
    pub claimed_l2_output_root: B256,
    pub claimed_l2_block_number: u64,
    pub chain_id: u64,
}

impl BootInfo {
    /// The file in the data directory of the chain that holds the boot info, named with the block
    /// number.
    pub open spec fn file(self) -> Seq<char> {
        "data/"@ + decimal(self.chain_id as nat) + "/"@ + decimal(
            self.claimed_l2_block_number as nat,
        ) + ".json"@
    }

    /// The file in the data directory of the chain that holds the boot info.
    pub fn path(&self) -> (r: String)
        ensures
            r@ == self.file(),
            r@ == "data/"@ + decimal(self.chain_id as nat) + "/"@ + decimal(
                self.claimed_l2_block_number as nat,
            ) + ".json"@,
    {
        let mut out = "data/".to_owned();
        push_decimal(&mut out, self.chain_id);
        out.append("/");
        push_decimal(&mut out, self.claimed_l2_block_number);
        out.append(".json");
        out
    }
}

/// What is asked for the arguments of the host program.
#[derive(Clone, Copy, Debug)]
pub enum HostProbe {
    /// Whether the execution endpoint is ready for the L2 block.
    ExecutionReady(u64),
    /// Whether the rollup node is ready for the L2 block.
    NodeReady(u64),
    /// The L2 block that the derivation starts from.
    OutputBlock(u64),
    /// The storage hash of the message passer at that block.
    OutputStorage(u64),
    /// The last L2 block of the range.
    ClaimBlock(u64),
    /// The storage hash of the message passer at that block.
    ClaimStorage(u64),
    /// Whether the boot info was saved to its file.
    SaveBootInfo(BootInfo),
}

/// The account whose storage hash enters an output root.
pub const MESSAGE_PASSER: &'static str = "0x4200000000000000000000000000000000000016";

/// The answers so far.
#[derive(Debug)]
pub struct HostAnswers {
    pub execution: Option<Result<(), FetchError>>,
    pub node: Option<Result<(), FetchError>>,
    pub output_block: Option<Result<Option<BlockRoots>, RpcError>>,
    pub output_storage: Option<Result<B256, RpcError>>,
    pub claim_block: Option<Result<Option<BlockRoots>, RpcError>>,
    pub claim_storage: Option<Result<B256, RpcError>>,
    /// A failure to write is given by its text.
    pub boot_info_saved: Option<Result<(), String>>,
}

impl HostAnswers {
    /// No answers yet.
    pub fn new() -> (r: HostAnswers)
        ensures
            forall|probe: HostProbe| !r.has(probe),
    {
        HostAnswers {
            execution: None,
            node: None,
            output_block: None,
            output_storage: None,
            claim_block: None,
            claim_storage: None,
            boot_info_saved: None,
        }
    }

    /// The probe has been answered.
    pub open spec fn has(self, probe: HostProbe) -> bool {
        match probe {
            HostProbe::ExecutionReady(_) => self.execution is Some,
            HostProbe::NodeReady(_) => self.node is Some,
            HostProbe::OutputBlock(_) => self.output_block is Some,
            HostProbe::OutputStorage(_) => self.output_storage is Some,
            HostProbe::ClaimBlock(_) => self.claim_block is Some,
            HostProbe::ClaimStorage(_) => self.claim_storage is Some,
            HostProbe::SaveBootInfo(_) => self.boot_info_saved is Some,
        }
    }
}

/// The L2 block that the derivation of `l2_start_block` starts from: the one before it, and the
/// genesis block where there is none.
pub open spec fn block_before(l2_start_block: u64) -> u64 {
    if l2_start_block > 1 {
        (l2_start_block - 1) as u64
    } else {
        0
    }
}

/// What the arguments of the host program take, for the range from `l2_start_block` to
/// `l2_end_block`: what to ask next, whether everything is known, or why there are none.
pub open spec fn host_data_step(
    fetcher: OPZisKDataFetcher,
    l2_start_block: u64,
    l2_end_block: u64,
    a: HostAnswers,
) -> Step<HostProbe, ()> {
    let first = block_before(l2_start_block);
    if fetcher.rollup_config is None {
        Step::Fail(FetchError::RollupConfigNotLoaded)
    } else if l2_start_block >= l2_end_block {
        Step::Fail(FetchError::InvalidRange { start: l2_start_block, end: l2_end_block })
    } else {
        match (a.execution, a.node) {
            (None, _) => Step::Ask(HostProbe::ExecutionReady(l2_end_block)),
            (Some(Err(e)), _) => Step::Fail(e),
            (Some(Ok(())), None) => Step::Ask(HostProbe::NodeReady(l2_end_block)),
            (Some(Ok(())), Some(Err(e))) => Step::Fail(e),
            (Some(Ok(())), Some(Ok(()))) => match (a.output_block, a.output_storage) {
                (None, _) => Step::Ask(HostProbe::OutputBlock(first)),
                (Some(Err(e)), _) => Step::Fail(FetchError::Rpc(e)),
                (Some(Ok(None)), _) => Step::Fail(FetchError::BlockNotFound(first)),
                (Some(Ok(Some(_))), None) => Step::Ask(HostProbe::OutputStorage(first)),
                (Some(Ok(Some(_))), Some(Err(e))) => Step::Fail(FetchError::Rpc(e)),
                (Some(Ok(Some(_))), Some(Ok(_))) => match (a.claim_block, a.claim_storage) {
                    (None, _) => Step::Ask(HostProbe::ClaimBlock(l2_end_block)),
                    (Some(Err(e)), _) => Step::Fail(FetchError::Rpc(e)),
                    (Some(Ok(None)), _) => Step::Fail(FetchError::BlockNotFound(l2_end_block)),
                    (Some(Ok(Some(_))), None) => Step::Ask(HostProbe::ClaimStorage(l2_end_block)),
                    (Some(Ok(Some(_))), Some(Err(e))) => Step::Fail(FetchError::Rpc(e)),
                    (Some(Ok(Some(_))), Some(Ok(_))) => Step::Done(()),
                },
            },
        }
    }
}

/// The output of the rollup at a block with these roots and this storage hash.
pub open spec fn output_at(block: BlockRoots, storage: B256) -> L2Output {
    L2Output {
        zero: 0,
        l2_state_root: block.state_root,
        l2_storage_hash: storage,
        l2_claim_hash: block.hash,
    }
}

/// The text of an address without the slashes at its end.
pub open spec fn without_slashes(href: Option<Seq<char>>) -> Option<Seq<char>> {
    match href {
        Some(text) => Some(without_trailing(text, '/')),
        None => None,
    }
}

impl SingleChainHost {
    /// These are the arguments for the range that ends with `l2_end_block`, derived from
    /// `l1_head`, where everything in `a` is known.
    pub open spec fn describes(
        self,
        fetcher: OPZisKDataFetcher,
        l2_end_block: u64,
        l1_head: B256,
        a: HostAnswers,
    ) -> bool {
        let agreed = a.output_block->0->Ok_0->0;
        let claimed = a.claim_block->0->Ok_0->0;
        &&& self.l1_head == l1_head
        &&& self.agreed_l2_head_hash == agreed.hash
        &&& self.agreed_l2_output_root@ == keccak256_of(
            output_at(agreed, a.output_storage->0->Ok_0).encoding(),
        )
        &&& self.claimed_l2_output_root@ == keccak256_of(
            output_at(claimed, a.claim_storage->0->Ok_0).encoding(),
        )
        &&& self.claimed_l2_block_number == l2_end_block
        &&& opt_text(self.l2_node_address) == without_slashes(
            Some(fetcher.rpc_config.l2_rpc.href@),
        )
        &&& opt_text(self.l1_node_address) == without_slashes(
            Some(fetcher.rpc_config.l1_rpc.href@),
        )
        &&& opt_text(self.l1_beacon_address) == without_slashes(
            match fetcher.rpc_config.l1_beacon_rpc {
                Some(url) => Some(url.href@),
                None => None,
            },
        )
        &&& self.data_dir is None
        &&& !self.native
        &&& self.server
        &&& self.l2_chain_id is None
        &&& self.rollup_config_path == fetcher.rollup_config_path
        &&& self.l1_config_path == fetcher.l1_config_path
        &&& !self.enable_experimental_witness_endpoint
    }
}

impl BootInfo {
    /// This is the boot info of the range that ends with `l2_end_block`, derived from `l1_head`,
    /// where everything in `a` is known.
    pub open spec fn describes(
        self,
        fetcher: OPZisKDataFetcher,
        l2_end_block: u64,
        l1_head: B256,
        a: HostAnswers,
    ) -> bool {
        &&& self.l1_head == l1_head
        &&& self.agreed_l2_output_root@ == keccak256_of(
            output_at(a.output_block->0->Ok_0->0, a.output_storage->0->Ok_0).encoding(),
        )
        &&& self.claimed_l2_output_root@ == keccak256_of(
            output_at(a.claim_block->0->Ok_0->0, a.claim_storage->0->Ok_0).encoding(),
        )
        &&& self.claimed_l2_block_number == l2_end_block
        &&& fetcher.rollup_config matches Some(config) && self.chain_id == config.l2_chain_id
    }
}

/// The arguments of the host program for a range: once everything is known, the boot info is saved;
/// then the arguments are there.
pub open spec fn host_args_step_is(
    r: Step<HostProbe, SingleChainHost>,
    fetcher: OPZisKDataFetcher,
    l2_start_block: u64,
    l2_end_block: u64,
    l1_head: B256,
    a: HostAnswers,
) -> bool {
    match host_data_step(fetcher, l2_start_block, l2_end_block, a) {
        Step::Ask(probe) => r == Step::<HostProbe, SingleChainHost>::Ask(probe),
        Step::Fail(e) => r == Step::<HostProbe, SingleChainHost>::Fail(e),
        Step::Done(()) => match a.boot_info_saved {
            None => r matches Step::Ask(HostProbe::SaveBootInfo(boot_info)) && boot_info.describes(
                fetcher,
                l2_end_block,
                l1_head,
                a,
            ),
            Some(Err(text)) => r == Step::<HostProbe, SingleChainHost>::Fail(
                FetchError::File(text),
            ),
            Some(Ok(())) => r matches Step::Done(host) && host.describes(
                fetcher,
                l2_end_block,
                l1_head,
                a,
            ),
        },
    }
}

impl OPZisKDataFetcher {
    /// The arguments of the host program for the range from `l2_start_block` to `l2_end_block`,
    /// derived from the L1 block `l1_head_hash`. The endpoints are checked first; then the output
    /// roots come from the block before the range and from its last block; and before the
    /// arguments are handed out, the boot info is saved to its file in the data directory.
    pub fn get_host_args(
        &self,
        l2_start_block: u64,
        l2_end_block: u64,
        l1_head_hash: B256,
        answers: &HostAnswers,
    ) -> (r: Step<HostProbe, SingleChainHost>)
        ensures
            host_args_step_is(
                r,
                *self,
                l2_start_block,
                l2_end_block,
                l1_head_hash,
                *answers,
            ),
    {
        let chain_id = match &self.rollup_config {
            Some(config) => config.l2_chain_id,
            None => {
                return Step::Fail(FetchError::RollupConfigNotLoaded);
            },
        };
        if l2_start_block >= l2_end_block {
            return Step::Fail(
                FetchError::InvalidRange { start: l2_start_block, end: l2_end_block },
            );
        }
        match &answers.execution {
            None => {
                return Step::Ask(HostProbe::ExecutionReady(l2_end_block));
            },
            Some(Err(e)) => {
                return Step::Fail(e.clone());
            },
            Some(Ok(())) => {},
        }
        match &answers.node {
            None => {
                return Step::Ask(HostProbe::NodeReady(l2_end_block));
            },
            Some(Err(e)) => {
                return Step::Fail(e.clone());
            },
            Some(Ok(())) => {},
        }
        let safe_head_block: u64 = if l2_start_block > 1 {
            l2_start_block - 1
        } else {
            0
        };
        let agreed = match &answers.output_block {
            None => {
                return Step::Ask(HostProbe::OutputBlock(safe_head_block));
            },
            Some(Err(e)) => {
                return Step::Fail(FetchError::Rpc(e.clone()));
            },
            Some(Ok(None)) => {
                return Step::Fail(FetchError::BlockNotFound(safe_head_block));
            },
            Some(Ok(Some(block))) => *block,
        };
        let agreed_storage = match &answers.output_storage {
            None => {
                return Step::Ask(HostProbe::OutputStorage(safe_head_block));
            },
            Some(Err(e)) => {
                return Step::Fail(FetchError::Rpc(e.clone()));
            },
            Some(Ok(storage)) => *storage,
        };
        let agreed_l2_output_root = (L2Output {
            zero: 0,
            l2_state_root: agreed.state_root,
            l2_storage_hash: agreed_storage,
            l2_claim_hash: agreed.hash,
        }).output_root();
        let claimed = match &answers.claim_block {
            None => {
                return Step::Ask(HostProbe::ClaimBlock(l2_end_block));
            },
            Some(Err(e)) => {
                return Step::Fail(FetchError::Rpc(e.clone()));
            },
            Some(Ok(None)) => {
                return Step::Fail(FetchError::BlockNotFound(l2_end_block));
            },
            Some(Ok(Some(block))) => *block,
        };
        let claimed_storage = match &answers.claim_storage {
            None => {
                return Step::Ask(HostProbe::ClaimStorage(l2_end_block));
            },
            Some(Err(e)) => {
                return Step::Fail(FetchError::Rpc(e.clone()));
            },
            Some(Ok(storage)) => *storage,
        };
        let claimed_l2_output_root = (L2Output {
            zero: 0,
            l2_state_root: claimed.state_root,
            l2_storage_hash: claimed_storage,
            l2_claim_hash: claimed.hash,
        }).output_root();
        match &answers.boot_info_saved {
            None => {
                return Step::Ask(
                    HostProbe::SaveBootInfo(
                        BootInfo {
                            l1_head: l1_head_hash,
                            agreed_l2_output_root,
                            claimed_l2_output_root,
                            claimed_l2_block_number: l2_end_block,
                            chain_id,
                        },
                    ),
                );
            },
            Some(Err(text)) => {
                return Step::Fail(FetchError::File(text.clone()));
            },
            Some(Ok(())) => {},
        }
        let l1_beacon_address = match &self.rpc_config.l1_beacon_rpc {
            Some(url) => Some(trim_end_matches(url.href.as_str(), '/')),
            None => None,
        };
        Step::Done(
            SingleChainHost {
                l1_head: l1_head_hash,
                agreed_l2_head_hash: agreed.hash,
                agreed_l2_output_root,
                claimed_l2_output_root,
                claimed_l2_block_number: l2_end_block,
                l2_node_address: Some(trim_end_matches(self.rpc_config.l2_rpc.href.as_str(), '/')),
                l1_node_address: Some(trim_end_matches(self.rpc_config.l1_rpc.href.as_str(), '/')),
                l1_beacon_address,
                data_dir: None,
                native: false,
                server: true,
                l2_chain_id: None,
                rollup_config_path: clone_text(&self.rollup_config_path),
                l1_config_path: clone_text(&self.l1_config_path),
                enable_experimental_witness_endpoint: false,
            },
        )
    }
}

/// The derivation starts from a block before the range, so that the first block of the range is
/// itself derived.
pub proof fn law_derivation_starts_before_the_range(l2_start_block: u64)
    requires
        l2_start_block >= 1,
    ensures
        block_before(l2_start_block) + 1 == l2_start_block,
{
}

/// Every probe is about one of the two ends of the range: the block before its first one, from
/// which it is derived, for the agreed output, and its last block for everything else. A range
/// that starts with the genesis block is derived from that.
pub proof fn law_host_probes_are_about_the_ends(
    r: Step<HostProbe, SingleChainHost>,
    fetcher: OPZisKDataFetcher,
    l2_start_block: u64,
    l2_end_block: u64,
    l1_head: B256,
    a: HostAnswers,
)
    requires
        host_args_step_is(r, fetcher, l2_start_block, l2_end_block, l1_head, a),
    ensures
        r matches Step::Ask(HostProbe::ExecutionReady(n)) ==> n == l2_end_block,
        r matches Step::Ask(HostProbe::NodeReady(n)) ==> n == l2_end_block,
        r matches Step::Ask(HostProbe::OutputBlock(n)) ==> if l2_start_block == 0 {
            n == 0
        } else {
            n + 1 == l2_start_block
        },
        r matches Step::Ask(HostProbe::OutputStorage(n)) ==> if l2_start_block == 0 {
            n == 0
        } else {
            n + 1 == l2_start_block
        },
        r matches Step::Ask(HostProbe::ClaimBlock(n)) ==> n == l2_end_block,
        r matches Step::Ask(HostProbe::ClaimStorage(n)) ==> n == l2_end_block,
        r matches Step::Ask(HostProbe::SaveBootInfo(b)) ==> b.claimed_l2_block_number
            == l2_end_block && b.l1_head == l1_head && fetcher.rollup_config is Some && b.chain_id
            == fetcher.rollup_config->0.l2_chain_id,
        r matches Step::Fail(FetchError::BlockNotFound(n)) ==> (n == l2_end_block || n + 1
            == l2_start_block || (n == 0 && l2_start_block == 0) || a.execution matches Some(
            Err(_),
        ) || a.node matches Some(Err(_))),
{
}

/// The output root that 32 zero bytes, the state root, the storage hash of the message passer and
/// the hash of a block make up.
pub open spec fn is_output_root(root: B256, block: BlockRoots, storage: B256) -> bool {
    root@ == keccak256_of(
        Seq::new(32, |i: int| 0u8) + block.state_root@ + storage@ + block.hash@,
    )
}

proof fn lemma_zero_word_is_zero()
    ensures
        be_bytes(0, 32) == Seq::new(32, |i: int| 0u8),
{
    reveal_with_fuel(le_bytes, 33);
    assert(le_bytes(0, 32) =~= Seq::new(32, |i: int| 0u8));
    assert(be_bytes(0, 32) =~= Seq::new(32, |i: int| 0u8));
}

/// The agreed output root is that of the block before the range, and the claimed one that of its
/// last block, each made of what was answered about that block; so in the boot info and in the
/// arguments. Both name the L1 head that was given and the last block of the range.
pub proof fn law_host_args_hold_the_roots_of_the_ends(
    r: Step<HostProbe, SingleChainHost>,
    fetcher: OPZisKDataFetcher,
    l2_start_block: u64,
    l2_end_block: u64,
    l1_head: B256,
    a: HostAnswers,
)
    requires
        host_args_step_is(r, fetcher, l2_start_block, l2_end_block, l1_head, a),
    ensures
        r matches Step::Ask(HostProbe::SaveBootInfo(boot_info)) ==> {
            &&& a.output_block matches Some(Ok(Some(agreed)))
            &&& a.output_storage matches Some(Ok(agreed_storage))
            &&& a.claim_block matches Some(Ok(Some(claimed)))
            &&& a.claim_storage matches Some(Ok(claimed_storage))
            &&& is_output_root(boot_info.agreed_l2_output_root, agreed, agreed_storage)
            &&& is_output_root(boot_info.claimed_l2_output_root, claimed, claimed_storage)
        },
        r matches Step::Done(host) ==> {
            &&& a.output_block matches Some(Ok(Some(agreed)))
            &&& a.output_storage matches Some(Ok(agreed_storage))
            &&& a.claim_block matches Some(Ok(Some(claimed)))
            &&& a.claim_storage matches Some(Ok(claimed_storage))
            &&& host.agreed_l2_head_hash == agreed.hash
            &&& is_output_root(host.agreed_l2_output_root, agreed, agreed_storage)
            &&& is_output_root(host.claimed_l2_output_root, claimed, claimed_storage)
            &&& host.l1_head == l1_head
            &&& host.claimed_l2_block_number == l2_end_block
        },
{
    lemma_zero_word_is_zero();
}

/// `text` is `href` without the slashes at its end, and without anything else.
pub open spec fn is_bare_address(text: Option<String>, href: Seq<char>) -> bool {
    &&& text matches Some(t)
    &&& t@.len() <= href.len()
    &&& href.take(t@.len() as int) == t@
    &&& forall|i: int| t@.len() <= i < href.len() ==> #[trigger] href[i] == '/'
    &&& t@.len() > 0 ==> t@.last() != '/'
}

/// The host program is sent to the endpoints of the fetcher, without the slashes at their ends, and
/// to its configuration files; it runs as a server with its data in memory.
pub proof fn law_host_args_name_the_endpoints(
    r: Step<HostProbe, SingleChainHost>,
    fetcher: OPZisKDataFetcher,
    l2_start_block: u64,
    l2_end_block: u64,
    l1_head: B256,
    a: HostAnswers,
)
    requires
        host_args_step_is(r, fetcher, l2_start_block, l2_end_block, l1_head, a),
    ensures
        r matches Step::Done(host) ==> {
            &&& is_bare_address(host.l1_node_address, fetcher.rpc_config.l1_rpc.href@)
            &&& is_bare_address(host.l2_node_address, fetcher.rpc_config.l2_rpc.href@)
            &&& match fetcher.rpc_config.l1_beacon_rpc {
                Some(url) => is_bare_address(host.l1_beacon_address, url.href@),
                None => host.l1_beacon_address is None,
            }
            &&& host.rollup_config_path == fetcher.rollup_config_path
            &&& host.l1_config_path == fetcher.l1_config_path
            &&& host.l2_chain_id is None && host.data_dir is None
            &&& host.server && !host.native && !host.enable_experimental_witness_endpoint
        },
{
    if let Step::Done(host) = r {
        law_only_the_trailing_run_is_gone(fetcher.rpc_config.l1_rpc.href@, '/');
        law_only_the_trailing_run_is_gone(fetcher.rpc_config.l2_rpc.href@, '/');
        if let Some(url) = fetcher.rpc_config.l1_beacon_rpc {
            law_only_the_trailing_run_is_gone(url.href@, '/');
        }
    }
}

/// The arguments are there exactly when the range is not empty, the endpoints were found ready,
/// both blocks were found with their storage hashes, and the boot info was saved.
pub proof fn law_host_args_are_done_iff(
    r: Step<HostProbe, SingleChainHost>,
    fetcher: OPZisKDataFetcher,
    l2_start_block: u64,
    l2_end_block: u64,
    l1_head: B256,
    a: HostAnswers,
)
    requires
        host_args_step_is(r, fetcher, l2_start_block, l2_end_block, l1_head, a),
    ensures
        r is Done <==> {
            &&& fetcher.rollup_config is Some
            &&& l2_start_block < l2_end_block
            &&& a.execution matches Some(Ok(_))
            &&& a.node matches Some(Ok(_))
            &&& a.output_block matches Some(Ok(Some(_)))
            &&& a.output_storage matches Some(Ok(_))
            &&& a.claim_block matches Some(Ok(Some(_)))
            &&& a.claim_storage matches Some(Ok(_))
            &&& a.boot_info_saved matches Some(Ok(_))
        },
        r is Fail <==> {
            ||| fetcher.rollup_config is None
            ||| l2_start_block >= l2_end_block
            ||| a.execution matches Some(Err(_))
            ||| (a.execution matches Some(Ok(_))) && {
                ||| a.node matches Some(Err(_))
                ||| (a.node matches Some(Ok(_))) && {
                    ||| a.output_block matches Some(Err(_))
                    ||| a.output_block matches Some(Ok(None))
                    ||| (a.output_block matches Some(Ok(Some(_)))) && {
                        ||| a.output_storage matches Some(Err(_))
                        ||| (a.output_storage matches Some(Ok(_))) && {
                            ||| a.claim_block matches Some(Err(_))
                            ||| a.claim_block matches Some(Ok(None))
                            ||| (a.claim_block matches Some(Ok(Some(_)))) && {
                                ||| a.claim_storage matches Some(Err(_))
                                ||| (a.claim_storage matches Some(Ok(_))) && (
                                a.boot_info_saved matches Some(Err(_)))
                            }
                        }
                    }
                }
            }
        },
{
}

/// The failure of a range is the first one that came up: each endpoint's own, the missing block by
/// its number, the failed request as it is.
pub proof fn law_host_failures_are_told(
    r: Step<HostProbe, SingleChainHost>,
    fetcher: OPZisKDataFetcher,
    l2_start_block: u64,
    l2_end_block: u64,
    l1_head: B256,
    a: HostAnswers,
    e: FetchError,
)
    requires
        host_args_step_is(r, fetcher, l2_start_block, l2_end_block, l1_head, a),
        r == Step::<HostProbe, SingleChainHost>::Fail(e),
    ensures
        fetcher.rollup_config is None ==> e == FetchError::RollupConfigNotLoaded,
        fetcher.rollup_config is Some && l2_start_block < l2_end_block ==> {
            ||| a.execution == Some(Err::<(), FetchError>(e))
            ||| a.node == Some(Err::<(), FetchError>(e))
            ||| (e matches FetchError::Rpc(cause) && {
                ||| a.output_block == Some(Err::<Option<BlockRoots>, RpcError>(cause))
                ||| a.output_storage == Some(Err::<B256, RpcError>(cause))
                ||| a.claim_block == Some(Err::<Option<BlockRoots>, RpcError>(cause))
                ||| a.claim_storage == Some(Err::<B256, RpcError>(cause))
            })
            ||| (a.output_block matches Some(Ok(None))) && (e matches FetchError::BlockNotFound(n)
                && (n + 1 == l2_start_block || (n == 0 && l2_start_block == 0)))
            ||| (a.claim_block matches Some(Ok(None))) && e == FetchError::BlockNotFound(
                l2_end_block,
            )
            ||| (e matches FetchError::File(text) && a.boot_info_saved == Some(
                Err::<(), String>(text),
            ))
        },
{
}

/// An empty range fails before anything is asked, whatever the answers.
pub proof fn law_empty_range_fails_first(
    r: Step<HostProbe, SingleChainHost>,
    fetcher: OPZisKDataFetcher,
    l2_start_block: u64,
    l2_end_block: u64,
    l1_head: B256,
    a: HostAnswers,
)
    requires
        host_args_step_is(r, fetcher, l2_start_block, l2_end_block, l1_head, a),
        fetcher.rollup_config is Some,
        l2_start_block >= l2_end_block,
    ensures
        r == Step::<HostProbe, SingleChainHost>::Fail(
            FetchError::InvalidRange { start: l2_start_block, end: l2_end_block },
        ),
{
}

/// Nothing is asked twice for the arguments, so the procedure ends; and no block is asked for
/// before both endpoints have been found ready.
pub proof fn law_host_probe_is_new(
    r: Step<HostProbe, SingleChainHost>,
    fetcher: OPZisKDataFetcher,
    l2_start_block: u64,
    l2_end_block: u64,
    l1_head: B256,
    a: HostAnswers,
)
    requires
        host_args_step_is(r, fetcher, l2_start_block, l2_end_block, l1_head, a),
    ensures
        r matches Step::Ask(probe) ==> {
            &&& !a.has(probe)
            &&& !(probe is ExecutionReady || probe is NodeReady) ==> (a.execution matches Some(
                Ok(_),
            )) && (a.node matches Some(Ok(_)))
        },
{
}

/// The arguments are handed out only once the boot info was saved, and the boot info that is saved
/// says the same as they do.
pub proof fn law_saved_boot_info_matches_the_arguments(
    saving: Step<HostProbe, SingleChainHost>,
    done: Step<HostProbe, SingleChainHost>,
    fetcher: OPZisKDataFetcher,
    l2_start_block: u64,
    l2_end_block: u64,
    l1_head: B256,
    a: HostAnswers,
    b: HostAnswers,
)
    requires
        a.boot_info_saved is None,
        b == (HostAnswers { boot_info_saved: b.boot_info_saved, ..a }),
        host_args_step_is(saving, fetcher, l2_start_block, l2_end_block, l1_head, a),
        host_args_step_is(done, fetcher, l2_start_block, l2_end_block, l1_head, b),
    ensures
        done matches Step::Done(host) ==> {
            &&& b.boot_info_saved matches Some(Ok(_))
            &&& saving matches Step::Ask(HostProbe::SaveBootInfo(boot_info))
            &&& boot_info.l1_head == host.l1_head
            &&& boot_info.agreed_l2_output_root@ == host.agreed_l2_output_root@
            &&& boot_info.claimed_l2_output_root@ == host.claimed_l2_output_root@
            &&& boot_info.claimed_l2_block_number == host.claimed_l2_block_number
        },
{
}

// ---------------------------------------------------------------------------------------------
// Witness generators
// ---------------------------------------------------------------------------------------------

/// Generates witnesses for chains that post their data to Ethereum.
#[derive(Clone, Copy, Debug)]
pub struct ETHDAWitnessGenerator {}

/// Generates witnesses for chains that post their data to Celestia.
#[derive(Clone, Copy, Debug)]
pub struct CelestiaDAWitnessGenerator {}

/// Generates witnesses for chains that post their data to EigenDA.
#[derive(Clone, Copy, Debug)]
pub struct EigenDAWitnessGenerator {}

impl ETHDAWitnessGenerator {
    /// The input of the zkVM for an encoded witness: the witness behind its length.
    pub fn get_zisk_stdin(&self, witness: &Vec<u8>) -> (r: Vec<u8>)
        ensures
            r@ == sized(witness@),
    {
        frame_with_size(witness)
    }
}

impl CelestiaDAWitnessGenerator {
    /// The input of the zkVM for an encoded witness: the witness behind its length.
    pub fn get_zisk_stdin(&self, witness: &Vec<u8>) -> (r: Vec<u8>)
        ensures
            r@ == sized(witness@),
    {
        frame_with_size(witness)
    }
}

impl EigenDAWitnessGenerator {
    /// The input of the zkVM for an encoded witness: the witness behind its length.
    pub fn get_zisk_stdin(&self, witness: &Vec<u8>) -> (r: Vec<u8>)
        ensures
            r@ == sized(witness@),
    {
        frame_with_size(witness)
    }
}

/// Where a chain posts its data.
#[derive(Clone, Copy, Debug, PartialEq, Eq, Structural)]
pub enum DataAvailability {
    Ethereum,
    Celestia,
    EigenDa,
}

/// The range programs, one for each place that data may be posted to.
#[derive(Debug)]
pub struct RangeElfs {
    pub ethereum: Vec<u8>,
    pub celestia: Vec<u8>,
    pub eigenda: Vec<u8>,
}

impl DataAvailability {
    /// The place that the build is made for: Celestia before EigenDA, and Ethereum where neither
    /// is asked for.
    pub fn selected(celestia: bool, eigenda: bool) -> (r: DataAvailability)
        ensures
            r == if celestia {
                DataAvailability::Celestia
            } else if eigenda {
                DataAvailability::EigenDa
            } else {
                DataAvailability::Ethereum
            },
    {
        if celestia {
            DataAvailability::Celestia
        } else if eigenda {
            DataAvailability::EigenDa
        } else {
            DataAvailability::Ethereum
        }
    }
}

/// The range program for the place that the chain posts its data to.
pub fn get_range_elf_embedded(da: DataAvailability, elfs: &RangeElfs) -> (r: &Vec<u8>)
    ensures
        *r == match da {
            DataAvailability::Ethereum => elfs.ethereum,
            DataAvailability::Celestia => elfs.celestia,
            DataAvailability::EigenDa => elfs.eigenda,
        },
{
    match da {
        DataAvailability::Ethereum => &elfs.ethereum,
        DataAvailability::Celestia => &elfs.celestia,
        DataAvailability::EigenDa => &elfs.eigenda,
    }
}

// ---------------------------------------------------------------------------------------------
// The host
// ---------------------------------------------------------------------------------------------

/// The host for a single chain that posts its data to Ethereum.
#[derive(Debug)]
pub struct SingleChainOPZisKHost {
    pub fetcher: OPZisKDataFetcher,
    pub witness_generator: ETHDAWitnessGenerator,
}

/// What is asked for the arguments of a run.
#[derive(Clone, Copy, Debug)]
pub enum FetchProbe {
    /// The hash of an L1 block from which the L2 block with that number can safely be derived.
    SafeL1Head { l2_end_block: u64, safe_db_fallback: bool },
    /// The arguments of the host program.
    HostArgs { l2_start_block: u64, l2_end_block: u64, l1_head_hash: B256 },
}

/// The answers so far.
#[derive(Debug)]
pub struct FetchAnswers {
    pub safe_l1_head: Option<Result<B256, FetchError>>,
    pub host_args: Option<Result<SingleChainHost, FetchError>>,
}

/// What is asked for a safe L1 head.
#[derive(Clone, Copy, Debug)]
pub enum SafeL1HeadProbe {
    /// The L1 head of the L2 block with that number, without an estimate.
    L1Head(u64),
    /// The header of the latest L1 block.
    ChainHead,
    /// The header of the L1 block with that number.
    Header(u64),
}

/// The answers so far.
#[derive(Debug)]
pub struct SafeL1HeadAnswers {
    pub l1_head: Option<Result<BlockNumHash, FetchError>>,
    pub chain_head: Option<Result<Header, FetchError>>,
    pub header: Option<Result<Header, FetchError>>,
}

/// By how many blocks an L1 head from the record of safe heads is moved ahead.
pub const SAFE_HEAD_BUFFER: u64 = 20;

/// By how many blocks the L1 head stays behind the chain where there is no such record.
pub const CHAIN_HEAD_MARGIN: u64 = 15;

/// The number of the safe L1 head: a little ahead of the recorded one, as far as the chain has
/// come; well behind the head of the chain where none is recorded.
pub open spec fn safe_l1_head_number(recorded: Option<u64>, chain_head: u64) -> u64 {
    match recorded {
        Some(number) => if number + SAFE_HEAD_BUFFER < chain_head {
            (number + SAFE_HEAD_BUFFER) as u64
        } else {
            chain_head
        },
        None => if chain_head > CHAIN_HEAD_MARGIN {
            (chain_head - CHAIN_HEAD_MARGIN) as u64
        } else {
            0
        },
    }
}

/// The search for a safe L1 head, up to the header whose hash it is.
pub open spec fn safe_l1_head_step(
    l2_end_block: u64,
    safe_db_fallback: bool,
    a: SafeL1HeadAnswers,
) -> Step<SafeL1HeadProbe, Header> {
    match a.l1_head {
        None => Step::Ask(SafeL1HeadProbe::L1Head(l2_end_block)),
        Some(Err(e)) if !safe_db_fallback => Step::Fail(e),
        Some(l1_head) => match (a.chain_head, a.header) {
            (None, _) => Step::Ask(SafeL1HeadProbe::ChainHead),
            (Some(Err(e)), _) => Step::Fail(e),
            (Some(Ok(head)), None) => Step::Ask(
                SafeL1HeadProbe::Header(
                    safe_l1_head_number(
                        match l1_head {
                            Ok(block) => Some(block.number),
                            Err(_) => None,
                        },
                        head.number,
                    ),
                ),
            ),
            (Some(Ok(_)), Some(Err(e))) => Step::Fail(e),
            (Some(Ok(_)), Some(Ok(header))) => Step::Done(header),
        },
    }
}

impl SingleChainOPZisKHost {
    /// A host on top of a fetcher.
    pub fn new(fetcher: OPZisKDataFetcher) -> (r: SingleChainOPZisKHost)
        ensures
            r == (SingleChainOPZisKHost { fetcher, witness_generator: ETHDAWitnessGenerator {} }),
    {
        SingleChainOPZisKHost { fetcher, witness_generator: ETHDAWitnessGenerator {} }
    }

    /// The generator that the host makes witnesses with.
    pub fn witness_generator(&self) -> (r: &ETHDAWitnessGenerator)
        ensures
            *r == self.witness_generator,
    {
        &self.witness_generator
    }

    /// The arguments of the host program for a range, derived from `l1_head_hash` where that is
    /// given, and else from a safe L1 head.
    pub fn fetch(
        l2_start_block: u64,
        l2_end_block: u64,
        l1_head_hash: Option<B256>,
        safe_db_fallback: bool,
        answers: &FetchAnswers,
    ) -> (r: Step<FetchProbe, SingleChainHost>)
        ensures
            r == match (l1_head_hash, answers.safe_l1_head) {
                (None, None) => Step::<FetchProbe, SingleChainHost>::Ask(
                    FetchProbe::SafeL1Head { l2_end_block, safe_db_fallback },
                ),
                (None, Some(Err(e))) => Step::Fail(e),
                (given, derived) => match answers.host_args {
                    None => Step::Ask(
                        FetchProbe::HostArgs {
                            l2_start_block,
                            l2_end_block,
                            l1_head_hash: match given {
                                Some(hash) => hash,
                                None => derived->0->Ok_0,
                            },
                        },
                    ),
                    Some(Err(e)) => Step::Fail(e),
                    Some(Ok(host)) => Step::Done(host),
                },
            },
    {
        let l1_head_hash = match l1_head_hash {
            Some(hash) => hash,
            None => match &answers.safe_l1_head {
                None => {
                    return Step::Ask(FetchProbe::SafeL1Head { l2_end_block, safe_db_fallback });
                },
                Some(Err(e)) => {
                    return Step::Fail(e.clone());
                },
                Some(Ok(hash)) => *hash,
            },
        };
        match &answers.host_args {
            None => Step::Ask(FetchProbe::HostArgs { l2_start_block, l2_end_block, l1_head_hash }),
            Some(Err(e)) => Step::Fail(e.clone()),
            Some(Ok(host)) => Step::Done(host.clone()),
        }
    }

    /// The L1 head that the arguments are derived from.
    pub fn get_l1_head_hash(args: &SingleChainHost) -> (r: Option<B256>)
        ensures
            r == Some(args.l1_head),
    {
        Some(args.l1_head)
    }

    /// The block whose header tells how far the L2 chain is final.
    pub fn finalized_l2_tag() -> (r: BlockTag)
        ensures
            r == BlockTag::Finalized,
    {
        BlockTag::Finalized
    }

    /// How far the L2 chain is final, from the header of its latest final block.
    pub fn get_finalized_l2_block_number(header: &Result<Header, FetchError>) -> (r: Result<
        Option<u64>,
        FetchError,
    >)
        ensures
            r == match *header {
                Ok(h) => Ok::<Option<u64>, FetchError>(Some(h.number)),
                Err(e) => Err(e),
            },
    {
        match header {
            Ok(h) => Ok(Some(h.number)),
            Err(e) => Err(e.clone()),
        }
    }

    /// The hash of an L1 block from which `l2_end_block` can safely be derived.
    pub fn calculate_safe_l1_head(
        l2_end_block: u64,
        safe_db_fallback: bool,
        answers: &SafeL1HeadAnswers,
    ) -> (r: Step<SafeL1HeadProbe, B256>)
        requires
            answers.l1_head matches Some(Ok(block)) ==> block.number + SAFE_HEAD_BUFFER
                <= u64::MAX,
        ensures
            match safe_l1_head_step(l2_end_block, safe_db_fallback, *answers) {
                Step::Ask(probe) => r == Step::<SafeL1HeadProbe, B256>::Ask(probe),
                Step::Fail(e) => r == Step::<SafeL1HeadProbe, B256>::Fail(e),
                Step::Done(header) => r matches Step::Done(hash) && hash@ == keccak256_of(
                    header.rlp@,
                ),
            },
    {
        let recorded = match &answers.l1_head {
            None => {
                return Step::Ask(SafeL1HeadProbe::L1Head(l2_end_block));
            },
            Some(Ok(block)) => Some(block.number),
            Some(Err(e)) => {
                if !safe_db_fallback {
                    return Step::Fail(e.clone());
                }
                None
            },
        };
        let chain_head = match &answers.chain_head {
            None => {
                return Step::Ask(SafeL1HeadProbe::ChainHead);
            },
            Some(Err(e)) => {
                return Step::Fail(e.clone());
            },
            Some(Ok(header)) => header.number,
        };
        match &answers.header {
            None => {
                let number: u64 = match recorded {
                    Some(n) => {
                        let ahead: u64 = n + SAFE_HEAD_BUFFER;
                        if ahead < chain_head {
                            ahead
                        } else {
                            chain_head
                        }
                    },
                    None => {
                        if chain_head > CHAIN_HEAD_MARGIN {
                            chain_head - CHAIN_HEAD_MARGIN
                        } else {
                            0
                        }
                    },
                };
                Step::Ask(SafeL1HeadProbe::Header(number))
            },
            Some(Err(e)) => Step::Fail(e.clone()),
            Some(Ok(header)) => Step::Done(header.hash_slow()),
        }
    }
}

/// A safe L1 head never lies ahead of the chain. Where one is recorded and the chain has come as
/// far, it is no earlier than the recorded one, and later by the buffer at most.
pub proof fn law_safe_l1_head_is_on_the_chain(recorded: Option<u64>, chain_head: u64)
    ensures
        safe_l1_head_number(recorded, chain_head) <= chain_head,
        recorded matches Some(number) ==> number <= chain_head ==> number <= safe_l1_head_number(
            recorded,
            chain_head,
        ) <= number + SAFE_HEAD_BUFFER,
{
}

/// The header that is asked for is twenty blocks ahead of the recorded L1 head, or the head of the
/// chain where that is earlier; without a recorded one, which only a fallback allows, it is
/// fifteen blocks behind the head of the chain, or the genesis block of a shorter chain. Its hash
/// is the result.
pub proof fn law_safe_l1_head_is_near_the_recorded_one(
    l2_end_block: u64,
    safe_db_fallback: bool,
    a: SafeL1HeadAnswers,
)
    requires
        a.l1_head matches Some(Ok(block)) ==> block.number + 20 <= u64::MAX,
    ensures
        safe_l1_head_step(l2_end_block, safe_db_fallback, a) matches Step::Ask(
            SafeL1HeadProbe::L1Head(n),
        ) ==> n == l2_end_block,
        safe_l1_head_step(l2_end_block, safe_db_fallback, a) matches Step::Ask(
            SafeL1HeadProbe::Header(n),
        ) ==> (a.chain_head matches Some(Ok(head)) && match a.l1_head {
            None => false,
            Some(Ok(block)) => {
                &&& n <= head.number
                &&& n <= block.number + 20
                &&& n == head.number || n == block.number + 20
            },
            Some(Err(_)) => {
                &&& safe_db_fallback
                &&& head.number >= 15 ==> n + 15 == head.number
                &&& head.number < 15 ==> n == 0
            },
        }),
        safe_l1_head_step(l2_end_block, safe_db_fallback, a) matches Step::Done(header) ==> {
            &&& a.header == Some(Ok::<Header, FetchError>(header))
            &&& a.chain_head matches Some(Ok(_))
            &&& a.l1_head matches Some(l1_head)
            &&& l1_head is Err ==> safe_db_fallback
        },
        safe_l1_head_step(l2_end_block, safe_db_fallback, a) matches Step::Fail(e) ==> {
            ||| !safe_db_fallback && a.l1_head == Some(Err::<BlockNumHash, FetchError>(e))
            ||| a.chain_head == Some(Err::<Header, FetchError>(e))
            ||| (a.chain_head matches Some(Ok(_))) && a.header == Some(
                Err::<Header, FetchError>(e),
            )
        },
{
}

/// What is owed for a safe L1 head is asked one thing at a time: the recorded head first, then the
/// head of the chain, then the header; without a recorded head and without a fallback the failure
/// is handed on at once.
pub proof fn law_safe_l1_head_leaves_nothing_out(
    l2_end_block: u64,
    safe_db_fallback: bool,
    a: SafeL1HeadAnswers,
)
    ensures
        ({
            let r = safe_l1_head_step(l2_end_block, safe_db_fallback, a);
            let usable = (a.l1_head matches Some(Ok(_))) || ((a.l1_head matches Some(Err(_)))
                && safe_db_fallback);
            let headed = usable && (a.chain_head matches Some(Ok(_)));
            &&& (r matches Step::Ask(SafeL1HeadProbe::L1Head(_))) <==> a.l1_head is None
            &&& (r matches Step::Ask(SafeL1HeadProbe::ChainHead)) <==> usable && a.chain_head is None
            &&& (r matches Step::Ask(SafeL1HeadProbe::Header(_))) <==> headed && a.header is None
            &&& r is Done <==> headed && (a.header matches Some(Ok(_)))
            &&& a.l1_head matches Some(Err(e)) ==> !safe_db_fallback ==> r == Step::<
                SafeL1HeadProbe,
                Header,
            >::Fail(e)
        }),
{
}

/// What is owed for the arguments is asked one thing at a time, and each thing exactly at its turn.
pub proof fn law_host_args_leave_nothing_out(
    r: Step<HostProbe, SingleChainHost>,
    fetcher: OPZisKDataFetcher,
    l2_start_block: u64,
    l2_end_block: u64,
    l1_head: B256,
    a: HostAnswers,
)
    requires
        host_args_step_is(r, fetcher, l2_start_block, l2_end_block, l1_head, a),
    ensures
        ({
            let sound = fetcher.rollup_config is Some && l2_start_block < l2_end_block;
            let executed = sound && (a.execution matches Some(Ok(_)));
            let ready = executed && (a.node matches Some(Ok(_)));
            let agreed = ready && (a.output_block matches Some(Ok(Some(_))));
            let stored = agreed && (a.output_storage matches Some(Ok(_)));
            let claimed = stored && (a.claim_block matches Some(Ok(Some(_))));
            let known = claimed && (a.claim_storage matches Some(Ok(_)));
            &&& (r matches Step::Ask(HostProbe::ExecutionReady(_))) <==> sound && a.execution
                is None
            &&& (r matches Step::Ask(HostProbe::NodeReady(_))) <==> executed && a.node is None
            &&& (r matches Step::Ask(HostProbe::OutputBlock(_))) <==> ready && a.output_block
                is None
            &&& (r matches Step::Ask(HostProbe::OutputStorage(_))) <==> agreed && a.output_storage
                is None
            &&& (r matches Step::Ask(HostProbe::ClaimBlock(_))) <==> stored && a.claim_block is None
            &&& (r matches Step::Ask(HostProbe::ClaimStorage(_))) <==> claimed && a.claim_storage
                is None
            &&& (r matches Step::Ask(HostProbe::SaveBootInfo(_))) <==> known && a.boot_info_saved
                is None
        }),
{
}

/// Nothing is asked twice for a safe L1 head, so the procedure ends.
pub proof fn law_safe_l1_head_probe_is_new(
    l2_end_block: u64,
    safe_db_fallback: bool,
    a: SafeL1HeadAnswers,
)
    ensures
        safe_l1_head_step(l2_end_block, safe_db_fallback, a) matches Step::Ask(probe) ==> match probe {
            SafeL1HeadProbe::L1Head(_) => a.l1_head is None,
            SafeL1HeadProbe::ChainHead => a.chain_head is None,
            SafeL1HeadProbe::Header(_) => a.header is None,
        },
{
}

} // verus!
