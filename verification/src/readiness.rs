//! Whether the endpoints can serve what proving an L2 block takes.

use crate::errors::FetchError;
use crate::fetcher::{OPZisKDataFetcher, Step};
use crate::rpc::{
    is_historical_state_unavailable_opaque, is_method_not_found_opaque, is_proof_window_str,
    says_historical_state_unavailable, says_method_not_found, says_proof_window, RpcError,
};
use vstd::prelude::*;
use vstd::string::*;

verus! {

// ---------------------------------------------------------------------------------------------
// The execution endpoint
// ---------------------------------------------------------------------------------------------

/// What the L2 execution endpoint is asked about a block.
#[derive(Clone, Copy, Debug, PartialEq, Eq, Structural)]
pub enum ExecutionProbe {
    /// The number of the latest block.
    Latest,
    /// Whether the block exists, where the latest block is the genesis block.
    Target,
    /// Whether the block exists.
    Block,
    /// The encoding of the block, where the block API does not know the block.
    RawFallback,
    /// An account proof at the block.
    Proof,
    /// The encoding of the block.
    Raw,
}

/// The answers of the L2 execution endpoint so far.
#[derive(Debug)]
pub struct ExecutionAnswers {
    pub latest: Option<Result<Option<u64>, RpcError>>,
    pub target: Option<Result<bool, RpcError>>,
    pub block: Option<Result<bool, RpcError>>,
    pub raw_fallback: Option<Result<(), RpcError>>,
    pub account_proof: Option<Result<(), RpcError>>,
    pub raw: Option<Result<(), RpcError>>,
}

impl ExecutionProbe {
    /// A failed probe is repeated, unless it asks for an encoding.
    pub open spec fn repeats(self) -> bool {
        !(self is RawFallback || self is Raw)
    }

    /// Whether a failed probe is repeated.
    pub fn retried(&self) -> (r: bool)
        ensures
            r == self.repeats(),
    {
        match self {
            ExecutionProbe::RawFallback => false,
            ExecutionProbe::Raw => false,
            _ => true,
        }
    }
}

impl ExecutionAnswers {
    /// No answers yet.
    pub fn new() -> (r: ExecutionAnswers)
        ensures
            forall|probe: ExecutionProbe| !r.has(probe),
    {
        ExecutionAnswers {
            latest: None,
            target: None,
            block: None,
            raw_fallback: None,
            account_proof: None,
            raw: None,
        }
    }

    /// The probe has been answered.
    pub open spec fn has(self, probe: ExecutionProbe) -> bool {
        match probe {
            ExecutionProbe::Latest => self.latest is Some,
            ExecutionProbe::Target => self.target is Some,
            ExecutionProbe::Block => self.block is Some,
            ExecutionProbe::RawFallback => self.raw_fallback is Some,
            ExecutionProbe::Proof => self.account_proof is Some,
            ExecutionProbe::Raw => self.raw is Some,
        }
    }
}

/// The last part of the check: the encoding of the block is to be had.
pub open spec fn raw_step(a: ExecutionAnswers) -> Step<ExecutionProbe, ()> {
    match a.raw {
        None => Step::Ask(ExecutionProbe::Raw),
        Some(Ok(())) => Step::Done(()),
        Some(Err(e)) => if says_method_not_found(e.chain@) {
            Step::Fail(FetchError::RawBlockMethodMissing)
        } else {
            Step::Fail(FetchError::Rpc(e))
        },
    }
}

/// The check from the account proof on.
pub open spec fn proof_step(l2_block: u64, a: ExecutionAnswers) -> Step<ExecutionProbe, ()> {
    match a.account_proof {
        None => Step::Ask(ExecutionProbe::Proof),
        Some(Ok(())) => raw_step(a),
        Some(Err(e)) => if says_proof_window(e.chain@) {
            Step::Fail(FetchError::ProofWindowExceeded { block: l2_block, cause: e.chain })
        } else if says_historical_state_unavailable(e.chain@) {
            Step::Fail(FetchError::ProofUnavailable { block: l2_block, cause: e.chain })
        } else {
            Step::Fail(FetchError::Rpc(e))
        },
    }
}

/// The check from the block itself on.
pub open spec fn block_step(l2_block: u64, a: ExecutionAnswers) -> Step<ExecutionProbe, ()> {
    match a.block {
        None => Step::Ask(ExecutionProbe::Block),
        Some(Err(e)) => Step::Fail(FetchError::Rpc(e)),
        Some(Ok(true)) => proof_step(l2_block, a),
        Some(Ok(false)) => match a.raw_fallback {
            None => Step::Ask(ExecutionProbe::RawFallback),
            Some(Ok(())) => proof_step(l2_block, a),
            Some(Err(e)) => Step::Fail(
                FetchError::L2BlockUnavailable { block: l2_block, cause: e.chain },
            ),
        },
    }
}

/// The whole check.
pub open spec fn execution_step(l2_block: u64, a: ExecutionAnswers) -> Step<ExecutionProbe, ()> {
    match a.latest {
        None => Step::Ask(ExecutionProbe::Latest),
        Some(Err(e)) => Step::Fail(FetchError::Rpc(e)),
        Some(Ok(None)) => Step::Fail(FetchError::L2LatestIsNull),
        Some(Ok(Some(number))) => if number != 0 {
            block_step(l2_block, a)
        } else {
            match a.target {
                None => Step::Ask(ExecutionProbe::Target),
                Some(Err(e)) => Step::Fail(FetchError::Rpc(e)),
                Some(Ok(false)) => Step::Fail(FetchError::L2LatestIsGenesis),
                Some(Ok(true)) => block_step(l2_block, a),
            }
        },
    }
}

impl OPZisKDataFetcher {
    /// Checks that the L2 execution endpoint can serve what proving `l2_block` takes: that its
    /// head is no genesis block (unless the block exists all the same), that the block exists
    /// under one API or the other, that account proofs reach back to it, and that its encoding is
    /// to be had.
    pub fn ensure_l2_execution_ready_for_block(l2_block: u64, answers: &ExecutionAnswers) -> (r:
        Step<ExecutionProbe, ()>)
        ensures
            r == execution_step(l2_block, *answers),
    {
        match &answers.latest {
            None => {
                return Step::Ask(ExecutionProbe::Latest);
            },
            Some(Err(e)) => {
                return Step::Fail(FetchError::Rpc(e.clone()));
            },
            Some(Ok(None)) => {
                return Step::Fail(FetchError::L2LatestIsNull);
            },
            Some(Ok(Some(number))) => {
                if *number == 0 {
                    match &answers.target {
                        None => {
                            return Step::Ask(ExecutionProbe::Target);
                        },
                        Some(Err(e)) => {
                            return Step::Fail(FetchError::Rpc(e.clone()));
                        },
                        Some(Ok(exists)) => {
                            if !*exists {
                                return Step::Fail(FetchError::L2LatestIsGenesis);
                            }
                        },
                    }
                }
            },
        }
        match &answers.block {
            None => {
                return Step::Ask(ExecutionProbe::Block);
            },
            Some(Err(e)) => {
                return Step::Fail(FetchError::Rpc(e.clone()));
            },
            Some(Ok(exists)) => {
                if !*exists {
                    match &answers.raw_fallback {
                        None => {
                            return Step::Ask(ExecutionProbe::RawFallback);
                        },
                        Some(Ok(())) => {},
                        Some(Err(e)) => {
                            return Step::Fail(
                                FetchError::L2BlockUnavailable {
                                    block: l2_block,
                                    cause: e.chain.clone(),
                                },
                            );
                        },
                    }
                }
            },
        }
        match &answers.account_proof {
            None => {
                return Step::Ask(ExecutionProbe::Proof);
            },
            Some(Ok(())) => {},
            Some(Err(e)) => {
                if is_proof_window_str(e.chain.as_str()) {
                    return Step::Fail(
                        FetchError::ProofWindowExceeded { block: l2_block, cause: e.chain.clone() },
                    );
                }
                if is_historical_state_unavailable_opaque(e) {
                    return Step::Fail(
                        FetchError::ProofUnavailable { block: l2_block, cause: e.chain.clone() },
                    );
                }
                return Step::Fail(FetchError::Rpc(e.clone()));
            },
        }
        match &answers.raw {
            None => Step::Ask(ExecutionProbe::Raw),
            Some(Ok(())) => Step::Done(()),
            Some(Err(e)) => {
                if is_method_not_found_opaque(e) {
                    Step::Fail(FetchError::RawBlockMethodMissing)
                } else {
                    Step::Fail(FetchError::Rpc(e.clone()))
                }
            },
        }
    }
}

/// The execution endpoint is found ready for exactly those blocks for which its head is a real
/// one or the block exists all the same, the block exists under one API or the other, and both an
/// account proof and the encoding of the block are to be had.
pub proof fn law_execution_ready_iff(l2_block: u64, a: ExecutionAnswers)
    ensures
        execution_step(l2_block, a) is Done <==> {
            &&& a.latest matches Some(Ok(Some(number))) && (number != 0 || a.target == Some(
                Ok::<bool, RpcError>(true),
            ))
            &&& (a.block == Some(Ok::<bool, RpcError>(true)) || (a.block == Some(
                Ok::<bool, RpcError>(false),
            ) && a.raw_fallback matches Some(Ok(_))))
            &&& a.account_proof matches Some(Ok(_))
            &&& a.raw matches Some(Ok(_))
        },
{
}

/// The failure that an unready execution endpoint is told by: the first one that came up, with the
/// block that is wanted and the cause as the endpoint gave it. A block beyond the proof window and
/// one whose state is gone are told apart.
pub proof fn law_execution_failure_is_told(l2_block: u64, a: ExecutionAnswers, e: RpcError)
    ensures
        a.latest == Some(Err::<Option<u64>, RpcError>(e)) ==> execution_step(l2_block, a) == Step::<
            ExecutionProbe,
            (),
        >::Fail(FetchError::Rpc(e)),
        a.latest == Some(Ok::<Option<u64>, RpcError>(None)) ==> execution_step(l2_block, a)
            == Step::<ExecutionProbe, ()>::Fail(FetchError::L2LatestIsNull),
        a.latest == Some(Ok::<Option<u64>, RpcError>(Some(0))) && a.target == Some(
            Ok::<bool, RpcError>(false),
        ) ==> execution_step(l2_block, a) == Step::<ExecutionProbe, ()>::Fail(
            FetchError::L2LatestIsGenesis,
        ),
        a.latest == Some(Ok::<Option<u64>, RpcError>(Some(0))) && a.target == Some(
            Err::<bool, RpcError>(e),
        ) ==> execution_step(l2_block, a) == Step::<ExecutionProbe, ()>::Fail(FetchError::Rpc(e)),
        (a.latest matches Some(Ok(Some(number))) && (number != 0 || a.target == Some(
            Ok::<bool, RpcError>(true),
        ))) ==> {
            &&& a.block == Some(Err::<bool, RpcError>(e)) ==> execution_step(l2_block, a) == Step::<
                ExecutionProbe,
                (),
            >::Fail(FetchError::Rpc(e))
            &&& a.block == Some(Ok::<bool, RpcError>(false)) && a.raw_fallback == Some(
                Err::<(), RpcError>(e),
            ) ==> execution_step(l2_block, a) == Step::<ExecutionProbe, ()>::Fail(
                FetchError::L2BlockUnavailable { block: l2_block, cause: e.chain },
            )
            &&& (a.block == Some(Ok::<bool, RpcError>(true)) || (a.block == Some(
                Ok::<bool, RpcError>(false),
            ) && a.raw_fallback matches Some(Ok(_)))) ==> {
                &&& a.account_proof == Some(Err::<(), RpcError>(e)) ==> execution_step(l2_block, a)
                    == Step::<ExecutionProbe, ()>::Fail(
                    if says_proof_window(e.chain@) {
                        FetchError::ProofWindowExceeded { block: l2_block, cause: e.chain }
                    } else if says_historical_state_unavailable(e.chain@) {
                        FetchError::ProofUnavailable { block: l2_block, cause: e.chain }
                    } else {
                        FetchError::Rpc(e)
                    },
                )
                &&& (a.account_proof matches Some(Ok(_))) && a.raw == Some(Err::<(), RpcError>(e))
                    ==> execution_step(l2_block, a) == Step::<ExecutionProbe, ()>::Fail(
                    if says_method_not_found(e.chain@) {
                        FetchError::RawBlockMethodMissing
                    } else {
                        FetchError::Rpc(e)
                    },
                )
            }
        },
{
}

/// What the execution endpoint is asked, and when: its latest block first; whether the block exists
/// a second time only where that is the genesis block; the encoding in place of the block only
/// where the block API does not know it; the account proof only for a block that was found; and
/// the encoding last. A failed request for an encoding is not repeated, any other is.
pub proof fn law_execution_probes_come_in_order(l2_block: u64, a: ExecutionAnswers)
    ensures
        execution_step(l2_block, a) matches Step::Ask(probe) ==> match probe {
            ExecutionProbe::Latest => true,
            ExecutionProbe::Target => a.latest == Some(Ok::<Option<u64>, RpcError>(Some(0))),
            ExecutionProbe::Block => a.latest matches Some(Ok(Some(_))),
            ExecutionProbe::RawFallback => a.block == Some(Ok::<bool, RpcError>(false)),
            ExecutionProbe::Proof => a.block == Some(Ok::<bool, RpcError>(true)) || (
            a.raw_fallback matches Some(Ok(_))),
            ExecutionProbe::Raw => a.account_proof matches Some(Ok(_)),
        },
        execution_step(l2_block, a) matches Step::Ask(probe) ==> probe.repeats() == !(probe
            == ExecutionProbe::Raw || probe == ExecutionProbe::RawFallback),
        a.latest is None ==> execution_step(l2_block, a) == Step::<ExecutionProbe, ()>::Ask(
            ExecutionProbe::Latest,
        ),
{
}

/// What is owed of the execution endpoint is asked one thing at a time, and each thing exactly at
/// its turn.
pub proof fn law_execution_check_leaves_nothing_out(l2_block: u64, a: ExecutionAnswers)
    ensures
        ({
            let r = execution_step(l2_block, a);
            let zero = a.latest == Some(Ok::<Option<u64>, RpcError>(Some(0)));
            let head = (a.latest matches Some(Ok(Some(_)))) && (!zero || a.target == Some(
                Ok::<bool, RpcError>(true),
            ));
            let unknown = head && a.block == Some(Ok::<bool, RpcError>(false));
            let found = (head && a.block == Some(Ok::<bool, RpcError>(true))) || (unknown && (
            a.raw_fallback matches Some(Ok(_))));
            let proven = found && (a.account_proof matches Some(Ok(_)));
            &&& r == Step::<ExecutionProbe, ()>::Ask(ExecutionProbe::Latest) <==> a.latest is None
            &&& r == Step::<ExecutionProbe, ()>::Ask(ExecutionProbe::Target) <==> zero && a.target
                is None
            &&& r == Step::<ExecutionProbe, ()>::Ask(ExecutionProbe::Block) <==> head && a.block
                is None
            &&& r == Step::<ExecutionProbe, ()>::Ask(ExecutionProbe::RawFallback) <==> unknown
                && a.raw_fallback is None
            &&& r == Step::<ExecutionProbe, ()>::Ask(ExecutionProbe::Proof) <==> found
                && a.account_proof is None
            &&& r == Step::<ExecutionProbe, ()>::Ask(ExecutionProbe::Raw) <==> proven && a.raw
                is None
            &&& r is Done <==> proven && (a.raw matches Some(Ok(_)))
        }),
{
}

/// The execution endpoint is never asked the same thing twice, so the check ends.
pub proof fn law_execution_probe_is_new(l2_block: u64, a: ExecutionAnswers)
    ensures
        execution_step(l2_block, a) matches Step::Ask(probe) ==> !a.has(probe),
{
}

// ---------------------------------------------------------------------------------------------
// The rollup node
// ---------------------------------------------------------------------------------------------

/// What is asked to learn whether the rollup node can serve a block.
#[derive(Clone, Copy, Debug, PartialEq, Eq, Structural)]
pub enum NodeProbe {
    /// The output of the rollup at the block, of the rollup node.
    Output,
    /// Whether the block exists, of the execution endpoint.
    Block,
}

/// The answers so far.
#[derive(Debug)]
pub struct NodeAnswers {
    pub output: Option<Result<(), RpcError>>,
    pub block: Option<Result<bool, RpcError>>,
}

impl NodeAnswers {
    /// No answers yet.
    pub fn new() -> (r: NodeAnswers)
        ensures
            forall|probe: NodeProbe| !r.has(probe),
    {
        NodeAnswers { output: None, block: None }
    }

    /// The probe has been answered.
    pub open spec fn has(self, probe: NodeProbe) -> bool {
        match probe {
            NodeProbe::Output => self.output is Some,
            NodeProbe::Block => self.block is Some,
        }
    }
}

/// The check of the rollup node.
pub open spec fn node_step(l2_block: u64, a: NodeAnswers) -> Step<NodeProbe, ()> {
    match a.output {
        None => Step::Ask(NodeProbe::Output),
        Some(Ok(())) => Step::Done(()),
        Some(Err(e)) => match a.block {
            None => Step::Ask(NodeProbe::Block),
            Some(Err(e2)) => Step::Fail(FetchError::Rpc(e2)),
            Some(Ok(true)) => Step::Done(()),
            Some(Ok(false)) => Step::Fail(
                FetchError::L2NodeNotReady { block: l2_block, cause: e.chain },
            ),
        },
    }
}

impl OPZisKDataFetcher {
    /// Checks that the rollup node has the output at `l2_block`, or that the execution endpoint at
    /// least has the block.
    pub fn ensure_l2_node_ready_for_block(l2_block: u64, answers: &NodeAnswers) -> (r: Step<
        NodeProbe,
        (),
    >)
        ensures
            r == node_step(l2_block, *answers),
    {
        match &answers.output {
            None => Step::Ask(NodeProbe::Output),
            Some(Ok(())) => Step::Done(()),
            Some(Err(e)) => match &answers.block {
                None => Step::Ask(NodeProbe::Block),
                Some(Err(e2)) => Step::Fail(FetchError::Rpc(e2.clone())),
                Some(Ok(exists)) => {
                    if *exists {
                        Step::Done(())
                    } else {
                        Step::Fail(
                            FetchError::L2NodeNotReady { block: l2_block, cause: e.chain.clone() },
                        )
                    }
                },
            },
        }
    }
}

/// The rollup node is found ready where it has the output, and else where the block exists.
pub proof fn law_node_ready_iff(l2_block: u64, a: NodeAnswers)
    ensures
        node_step(l2_block, a) is Done <==> (a.output matches Some(output) && (output is Ok
            || a.block == Some(Ok::<bool, RpcError>(true)))),
{
}

/// The rollup node is asked first, and the execution endpoint only where the node fails; where
/// neither has the block, the failure names the block and the cause that the node gave.
pub proof fn law_node_failure_is_told(l2_block: u64, a: NodeAnswers, e: RpcError, e2: RpcError)
    ensures
        a.output is None ==> node_step(l2_block, a) == Step::<NodeProbe, ()>::Ask(
            NodeProbe::Output,
        ),
        a.output == Some(Err::<(), RpcError>(e)) ==> {
            &&& a.block is None ==> node_step(l2_block, a) == Step::<NodeProbe, ()>::Ask(
                NodeProbe::Block,
            )
            &&& a.block == Some(Err::<bool, RpcError>(e2)) ==> node_step(l2_block, a) == Step::<
                NodeProbe,
                (),
            >::Fail(FetchError::Rpc(e2))
            &&& a.block == Some(Ok::<bool, RpcError>(false)) ==> node_step(l2_block, a) == Step::<
                NodeProbe,
                (),
            >::Fail(FetchError::L2NodeNotReady { block: l2_block, cause: e.chain })
        },
{
}

/// Nothing is asked twice to learn whether the rollup node is ready, so the check ends.
pub proof fn law_node_probe_is_new(l2_block: u64, a: NodeAnswers)
    ensures
        node_step(l2_block, a) matches Step::Ask(probe) ==> !a.has(probe),
{
}

} // verus!
