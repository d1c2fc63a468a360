//! Proof requests: how they are carried out, and what becomes of those that fail.

use crate::encoding::{
    b256_to_u32x8_be, be_words, law_be_word_is_made_of_four_bytes, law_le_round_trip,
    law_proof_words_read_back, le_value, lemma_words_as_bytes_len, proof_bytes, sized,
    words_as_bytes, zero_bytes, zero_word, Address, B256,
};
use crate::errors::{ends_with, FetchError};
use crate::headers::header_views;
use crate::host::{
    CelestiaDAWitnessGenerator, DataAvailability, ETHDAWitnessGenerator, EigenDAWitnessGenerator,
};
use crate::outside::{aggregation_encoding, cbor_of_headers};
use crate::proving::{
    agg_stdin, get_agg_proof_stdin, header_encodings, law_agg_stdin_reads_back,
};
use crate::rpc::RpcError;
use crate::text::{contains_text, occurs_at};
use crate::types::{AggregationInputs, BootInfoStruct, Header};
use vstd::prelude::*;
use vstd::string::*;

verus! {

// ---------------------------------------------------------------------------------------------
// Requests
// ---------------------------------------------------------------------------------------------

/// What a request asks for.
#[derive(Clone, Copy, Debug, PartialEq, Eq, Structural)]
pub enum RequestType {
    Range,
    Aggregation,
}

/// Whether the proof is to be a real one.
#[derive(Clone, Copy, Debug, PartialEq, Eq, Structural)]
pub enum RequestMode {
    Real,
    Mock,
}

/// The states of a request that carrying it out sets.
#[derive(Clone, Copy, Debug, PartialEq, Eq, Structural)]
pub enum RequestStatus {
    WitnessGeneration,
    Execution,
    Failed,
    Cancelled,
}

/// Whether the prover has found that a program cannot be executed on its input.
#[derive(Clone, Copy, Debug, PartialEq, Eq, Structural)]
pub enum ExecutionStatus {
    Unexecutable,
    Other,
}

/// A request as the database holds it.
#[derive(Debug)]
pub struct OPSuccinctRequest {
    pub id: i64,
    pub mode: RequestMode,
    pub req_type: RequestType,
    pub start_block: i64,
    pub end_block: i64,
    pub l1_chain_id: i64,
    pub l2_chain_id: i64,
    pub rollup_config_hash: Vec<u8>,
    pub checkpointed_l1_block_hash: Option<Vec<u8>>,
    pub prover_address: Option<Vec<u8>>,
    pub proof_bytes: Option<Vec<u8>>,
}

/// What the proofs commit to.
#[derive(Clone, Copy, Debug)]
pub struct CommitmentConfig {
    pub range_vkey_commitment: B256,
    pub agg_vkey_hash: B256,
    pub rollup_config_hash: B256,
}

/// The programs, their keys and what they commit to.
#[derive(Debug)]
pub struct ProgramConfig {
    pub range_elf_path: String,
    pub range_proving_key_path: String,
    pub agg_elf_path: String,
    pub agg_proving_key_path: String,
    pub commitments: CommitmentConfig,
}

/// Carries out proof requests.
#[derive(Debug)]
pub struct OPSuccinctProofRequester {
    pub data_availability: DataAvailability,
    pub program_config: ProgramConfig,
    pub mock: bool,
    pub safe_db_fallback: bool,
    pub proving_timeout: u64,
    pub output_dir: String,
}

/// Why a request could not be carried out.
#[derive(Debug)]
pub enum RequestError {
    /// The database or an endpoint failed.
    Outside(RpcError),
    /// Data could not be fetched.
    Fetch(FetchError),
    /// An aggregation request has no checkpoint.
    NoCheckpoint,
    /// An aggregation request has no prover address.
    NoProverAddress,
    /// The headers between a batch and its checkpoint could not be fetched.
    HeaderPreimages(FetchError),
    /// The input of the aggregation program could not be built.
    AggStdin,
    /// The prover could not be set up.
    ProverNotBuilt(String),
    /// The range proof could not be generated.
    RangeProof(String),
    /// The aggregation proof could not be generated.
    AggProof(String),
    /// The range program could not be executed.
    RangeExecution(String),
    /// The aggregation program could not be executed.
    AggExecution(String),
    /// The prover finished without a proof.
    NoProof,
}

/// A step of a request: act and come back, or end.
#[derive(Debug)]
pub enum RequestStep<P, T> {
    Act(P),
    Done(T),
    Fail(RequestError),
}

impl Clone for RequestError {
    fn clone(&self) -> (r: RequestError)
        ensures
            r == *self,
    {
        match self {
            RequestError::Outside(e) => RequestError::Outside(e.clone()),
            RequestError::Fetch(e) => RequestError::Fetch(e.clone()),
            RequestError::NoCheckpoint => RequestError::NoCheckpoint,
            RequestError::NoProverAddress => RequestError::NoProverAddress,
            RequestError::HeaderPreimages(e) => RequestError::HeaderPreimages(e.clone()),
            RequestError::AggStdin => RequestError::AggStdin,
            RequestError::ProverNotBuilt(e) => RequestError::ProverNotBuilt(e.clone()),
            RequestError::RangeProof(e) => RequestError::RangeProof(e.clone()),
            RequestError::AggProof(e) => RequestError::AggProof(e.clone()),
            RequestError::RangeExecution(e) => RequestError::RangeExecution(e.clone()),
            RequestError::AggExecution(e) => RequestError::AggExecution(e.clone()),
            RequestError::NoProof => RequestError::NoProof,
        }
    }
}

impl RequestError {
    /// What the user is told.
    pub open spec fn text(self) -> Seq<char> {
        match self {
            RequestError::Outside(e) => e.summary@,
            RequestError::Fetch(e) => e.text(),
            RequestError::NoCheckpoint => "Aggregation proof has no checkpointed block."@,
            RequestError::NoProverAddress =>
                "Prover address must be set for aggregation proofs."@,
            RequestError::HeaderPreimages(_) => "Failed to get header preimages"@,
            RequestError::AggStdin => "Failed to get agg proof stdin"@,
            RequestError::ProverNotBuilt(e) => "Failed to build ZisK prover: "@ + e@,
            RequestError::RangeProof(e) => "Failed to generate range proof: "@ + e@,
            RequestError::AggProof(e) => "Failed to generate aggregation proof: "@ + e@,
            RequestError::RangeExecution(e) => "Failed to execute range program: "@ + e@,
            RequestError::AggExecution(e) => "Failed to execute aggregation program: "@ + e@,
            RequestError::NoProof => "Proof generation returned no proof"@,
        }
    }

    /// What the user is told.
    pub fn message(&self) -> (r: String)
        ensures
            r@ == self.text(),
    {
        let mut out = String::new();
        match self {
            RequestError::Outside(e) => {
                out.append(e.summary.as_str());
            },
            RequestError::Fetch(e) => {
                out.append(e.message().as_str());
            },
            RequestError::NoCheckpoint => {
                out.append("Aggregation proof has no checkpointed block.");
            },
            RequestError::NoProverAddress => {
                out.append("Prover address must be set for aggregation proofs.");
            },
            RequestError::HeaderPreimages(_) => {
                out.append("Failed to get header preimages");
            },
            RequestError::AggStdin => {
                out.append("Failed to get agg proof stdin");
            },
            RequestError::ProverNotBuilt(e) => {
                out.append("Failed to build ZisK prover: ");
                out.append(e.as_str());
            },
            RequestError::RangeProof(e) => {
                out.append("Failed to generate range proof: ");
                out.append(e.as_str());
            },
            RequestError::AggProof(e) => {
                out.append("Failed to generate aggregation proof: ");
                out.append(e.as_str());
            },
            RequestError::RangeExecution(e) => {
                out.append("Failed to execute range program: ");
                out.append(e.as_str());
            },
            RequestError::AggExecution(e) => {
                out.append("Failed to execute aggregation program: ");
                out.append(e.as_str());
            },
            RequestError::NoProof => {
                out.append("Proof generation returned no proof");
            },
        }
        assert(out@ == self.text());
        out
    }
}

/// The message about a failed request ends with the cause that was handed on, and says which of the
/// two programs failed, and whether on proving or on executing.
pub proof fn law_request_message_ends_with_the_cause(e: RequestError)
    ensures
        match e {
            RequestError::Outside(cause) => e.text() == cause.summary@,
            RequestError::Fetch(cause) => e.text() == cause.text(),
            RequestError::ProverNotBuilt(cause) => ends_with(e.text(), cause@) && contains_text(
                e.text(),
                "build ZisK prover"@,
            ),
            RequestError::RangeProof(cause) => ends_with(e.text(), cause@) && contains_text(
                e.text(),
                "generate range proof"@,
            ),
            RequestError::AggProof(cause) => ends_with(e.text(), cause@) && contains_text(
                e.text(),
                "generate aggregation proof"@,
            ),
            RequestError::RangeExecution(cause) => ends_with(e.text(), cause@) && contains_text(
                e.text(),
                "execute range program"@,
            ),
            RequestError::AggExecution(cause) => ends_with(e.text(), cause@) && contains_text(
                e.text(),
                "execute aggregation program"@,
            ),
            _ => true,
        },
{
    match e {
        RequestError::ProverNotBuilt(cause) => {
            reveal_strlit("Failed to build ZisK prover: ");
            reveal_strlit("build ZisK prover");
            lemma_phrase("Failed to build ZisK prover: "@, "build ZisK prover"@, cause@);
        },
        RequestError::RangeProof(cause) => {
            reveal_strlit("Failed to generate range proof: ");
            reveal_strlit("generate range proof");
            lemma_phrase("Failed to generate range proof: "@, "generate range proof"@, cause@);
        },
        RequestError::AggProof(cause) => {
            reveal_strlit("Failed to generate aggregation proof: ");
            reveal_strlit("generate aggregation proof");
            lemma_phrase(
                "Failed to generate aggregation proof: "@,
                "generate aggregation proof"@,
                cause@,
            );
        },
        RequestError::RangeExecution(cause) => {
            reveal_strlit("Failed to execute range program: ");
            reveal_strlit("execute range program");
            lemma_phrase("Failed to execute range program: "@, "execute range program"@, cause@);
        },
        RequestError::AggExecution(cause) => {
            reveal_strlit("Failed to execute aggregation program: ");
            reveal_strlit("execute aggregation program");
            lemma_phrase(
                "Failed to execute aggregation program: "@,
                "execute aggregation program"@,
                cause@,
            );
        },
        _ => {},
    }
}

proof fn lemma_phrase(lead: Seq<char>, phrase: Seq<char>, cause: Seq<char>)
    requires
        phrase.len() + 10 <= lead.len(),
        forall|i: int|
            #![trigger phrase[i]]
            0 <= i < phrase.len() ==> lead[10 + i] == phrase[i],
    ensures
        contains_text(lead + cause, phrase),
        ends_with(lead + cause, cause),
{
    let t = lead + cause;
    assert(t.subrange(10, 10 + phrase.len() as int) =~= phrase);
    assert(occurs_at(t, phrase, 10));
    assert(t.skip(t.len() - cause.len()) =~= cause);
}

/// The word with the bytes of `v`.
fn word_from_slice(v: &Vec<u8>) -> (r: B256)
    requires
        v.len() == 32,
    ensures
        r@ == v@,
{
    let mut out = [0u8; 32];
    let mut i: usize = 0;
    while i < 32
        invariant
            i <= 32,
            v.len() == 32,
            out@.len() == 32,
            forall|j: int| 0 <= j < i ==> out@[j] == v@[j],
        decreases 32 - i,
    {
        out[i] = v[i];
        i += 1;
    }
    assert(out@ == v@);
    out
}

/// The address with the bytes of `v`.
fn address_from_slice(v: &Vec<u8>) -> (r: Address)
    requires
        v.len() == 20,
    ensures
        r@ == v@,
{
    let mut out = [0u8; 20];
    let mut i: usize = 0;
    while i < 20
        invariant
            i <= 20,
            v.len() == 20,
            out@.len() == 20,
            forall|j: int| 0 <= j < i ==> out@[j] == v@[j],
        decreases 20 - i,
    {
        out[i] = v[i];
        i += 1;
    }
    assert(out@ == v@);
    out
}

// ---------------------------------------------------------------------------------------------
// Failed and cancelled requests
// ---------------------------------------------------------------------------------------------

/// A new range request.
#[derive(Clone, Copy, Debug)]
pub struct RangeRequest {
    pub mode: RequestMode,
    pub start_block: i64,
    pub end_block: i64,
    pub range_vkey_commitment: B256,
    pub rollup_config_hash: B256,
    pub l1_chain_id: i64,
    pub l2_chain_id: i64,
}

/// What is done about a failed request.
#[derive(Clone, Copy, Debug)]
pub enum FailureAction {
    /// Set the status of the request.
    UpdateStatus { id: i64, status: RequestStatus },
    /// Ask the L1 endpoint for its chain ID.
    L1ChainId,
    /// Ask the L2 endpoint for its chain ID.
    L2ChainId,
    /// Count the failed requests for the range with these commitments.
    FailedCount {
        start_block: i64,
        end_block: i64,
        l1_chain_id: i64,
        l2_chain_id: i64,
        commitments: CommitmentConfig,
    },
    /// Add two requests in place of the failed one.
    Insert { first: RangeRequest, second: RangeRequest },
}

/// What has come of it so far.
#[derive(Debug)]
pub struct FailureAnswers {
    pub status_updated: Option<Result<(), RpcError>>,
    pub l1_chain_id: Option<Result<u64, RpcError>>,
    pub l2_chain_id: Option<Result<u64, RpcError>>,
    pub failed_count: Option<Result<i64, RpcError>>,
    pub inserted: Option<Result<(), RpcError>>,
}

/// Half of `sum`, rounded toward zero.
pub open spec fn half(sum: int) -> int {
    if sum >= 0 {
        sum / 2
    } else {
        -((-sum) / 2)
    }
}

/// How often a range has to fail before it is split.
pub const FAILURES_BEFORE_SPLIT: i64 = 2;

impl OPSuccinctRequest {
    /// The request is for a range of more than one block.
    pub open spec fn can_split(self) -> bool {
        self.req_type == RequestType::Range && self.end_block - self.start_block > 1
    }

    /// Where the range is split.
    pub open spec fn mid_block(self) -> int {
        half(self.start_block + self.end_block)
    }

    /// The length of the range is small enough to be written.
    pub open spec fn length_fits(self) -> bool {
        i64::MIN <= self.end_block - self.start_block <= i64::MAX
    }

    /// The block numbers are small enough to be added.
    pub open spec fn sum_fits(self) -> bool {
        i64::MIN <= self.start_block + self.end_block <= i64::MAX
    }

    /// The failed request is replaced by requests for its halves: it is for a range of more than
    /// one block that has failed that often, or that cannot be executed.
    pub open spec fn is_split(self, failed_count: i64, execution_status: ExecutionStatus) -> bool {
        self.can_split() && (failed_count > FAILURES_BEFORE_SPLIT || execution_status
            == ExecutionStatus::Unexecutable)
    }
}

impl FailureAnswers {
    /// The request has been marked, and both chains are known.
    pub open spec fn chains_known(self) -> bool {
        &&& self.status_updated matches Some(Ok(_))
        &&& self.l1_chain_id matches Some(Ok(_))
        &&& self.l2_chain_id matches Some(Ok(_))
    }
}

impl OPSuccinctProofRequester {
    /// A requester for these programs.
    pub fn new(
        data_availability: DataAvailability,
        program_config: ProgramConfig,
        mock: bool,
        safe_db_fallback: bool,
        proving_timeout: u64,
        output_dir: String,
    ) -> (r: OPSuccinctProofRequester)
        ensures
            r == (OPSuccinctProofRequester {
                data_availability,
                program_config,
                mock,
                safe_db_fallback,
                proving_timeout,
                output_dir,
            }),
    {
        OPSuccinctProofRequester {
            data_availability,
            program_config,
            mock,
            safe_db_fallback,
            proving_timeout,
            output_dir,
        }
    }

    /// A new request for the blocks `start_block` to `end_block`, for these programs.
    pub open spec fn range_request(
        self,
        mode: RequestMode,
        start_block: int,
        end_block: int,
        l1_chain_id: u64,
        l2_chain_id: u64,
    ) -> RangeRequest {
        RangeRequest {
            mode,
            start_block: start_block as i64,
            end_block: end_block as i64,
            range_vkey_commitment: self.program_config.commitments.range_vkey_commitment,
            rollup_config_hash: self.program_config.commitments.rollup_config_hash,
            l1_chain_id: l1_chain_id as i64,
            l2_chain_id: l2_chain_id as i64,
        }
    }

    /// What is done about a failed request.
    pub open spec fn failure_step(
        self,
        request: OPSuccinctRequest,
        execution_status: ExecutionStatus,
        a: FailureAnswers,
    ) -> RequestStep<FailureAction, ()> {
        match (a.status_updated, a.l1_chain_id, a.l2_chain_id) {
            (None, _, _) => RequestStep::Act(
                FailureAction::UpdateStatus { id: request.id, status: RequestStatus::Failed },
            ),
            (Some(Err(e)), _, _) => RequestStep::Fail(RequestError::Outside(e)),
            (Some(Ok(())), None, _) => RequestStep::Act(FailureAction::L1ChainId),
            (Some(Ok(())), Some(Err(e)), _) => RequestStep::Fail(RequestError::Outside(e)),
            (Some(Ok(())), Some(Ok(_)), None) => RequestStep::Act(FailureAction::L2ChainId),
            (Some(Ok(())), Some(Ok(_)), Some(Err(e))) => RequestStep::Fail(
                RequestError::Outside(e),
            ),
            (Some(Ok(())), Some(Ok(l1)), Some(Ok(l2))) => if !request.can_split() {
                RequestStep::Done(())
            } else {
                match (a.failed_count, a.inserted) {
                    (None, _) => RequestStep::Act(
                        FailureAction::FailedCount {
                            start_block: request.start_block,
                            end_block: request.end_block,
                            l1_chain_id: request.l1_chain_id,
                            l2_chain_id: request.l2_chain_id,
                            commitments: self.program_config.commitments,
                        },
                    ),
                    (Some(Err(e)), _) => RequestStep::Fail(RequestError::Outside(e)),
                    (Some(Ok(count)), inserted) => if !request.is_split(count, execution_status) {
                        RequestStep::Done(())
                    } else {
                        match inserted {
                            None => RequestStep::Act(
                                FailureAction::Insert {
                                    first: self.range_request(
                                        request.mode,
                                        request.start_block as int,
                                        request.mid_block(),
                                        l1,
                                        l2,
                                    ),
                                    second: self.range_request(
                                        request.mode,
                                        request.mid_block(),
                                        request.end_block as int,
                                        l1,
                                        l2,
                                    ),
                                },
                            ),
                            Some(Err(e)) => RequestStep::Fail(RequestError::Outside(e)),
                            Some(Ok(())) => RequestStep::Done(()),
                        }
                    },
                }
            },
        }
    }

    /// What is done about a failed request: it is marked as failed; and where it is for a range of
    /// more than one block that has failed more than twice, or that cannot be executed, two
    /// requests for its halves are added.
    pub fn handle_failed_request(
        &self,
        request: &OPSuccinctRequest,
        execution_status: ExecutionStatus,
        answers: &FailureAnswers,
    ) -> (r: RequestStep<FailureAction, ()>)
        requires
            answers.chains_known() ==> request.length_fits(),
            answers.chains_known() ==> (answers.failed_count matches Some(Ok(count))
                ==> request.is_split(count, execution_status) ==> request.sum_fits()),
        ensures
            r == self.failure_step(*request, execution_status, *answers),
    {
        match &answers.status_updated {
            None => {
                return RequestStep::Act(
                    FailureAction::UpdateStatus { id: request.id, status: RequestStatus::Failed },
                );
            },
            Some(Err(e)) => {
                return RequestStep::Fail(RequestError::Outside(e.clone()));
            },
            Some(Ok(())) => {},
        }
        let l1_chain_id: u64 = match &answers.l1_chain_id {
            None => {
                return RequestStep::Act(FailureAction::L1ChainId);
            },
            Some(Err(e)) => {
                return RequestStep::Fail(RequestError::Outside(e.clone()));
            },
            Some(Ok(id)) => *id,
        };
        let l2_chain_id: u64 = match &answers.l2_chain_id {
            None => {
                return RequestStep::Act(FailureAction::L2ChainId);
            },
            Some(Err(e)) => {
                return RequestStep::Fail(RequestError::Outside(e.clone()));
            },
            Some(Ok(id)) => *id,
        };
        if !(request.end_block - request.start_block > 1 && request.req_type
            == RequestType::Range) {
            return RequestStep::Done(());
        }
        let num_failed_requests: i64 = match &answers.failed_count {
            None => {
                return RequestStep::Act(
                    FailureAction::FailedCount {
                        start_block: request.start_block,
                        end_block: request.end_block,
                        l1_chain_id: request.l1_chain_id,
                        l2_chain_id: request.l2_chain_id,
                        commitments: self.program_config.commitments,
                    },
                );
            },
            Some(Err(e)) => {
                return RequestStep::Fail(RequestError::Outside(e.clone()));
            },
            Some(Ok(count)) => *count,
        };
        if num_failed_requests <= FAILURES_BEFORE_SPLIT && execution_status
            != ExecutionStatus::Unexecutable {
            return RequestStep::Done(());
        }
        match &answers.inserted {
            None => {
                let mid_block: i64 = midpoint(request.start_block, request.end_block);
                let commitments = &self.program_config.commitments;
                let first = RangeRequest {
                    mode: request.mode,
                    start_block: request.start_block,
                    end_block: mid_block,
                    range_vkey_commitment: commitments.range_vkey_commitment,
                    rollup_config_hash: commitments.rollup_config_hash,
                    l1_chain_id: l1_chain_id as i64,
                    l2_chain_id: l2_chain_id as i64,
                };
                let second = RangeRequest {
                    mode: request.mode,
                    start_block: mid_block,
                    end_block: request.end_block,
                    range_vkey_commitment: commitments.range_vkey_commitment,
                    rollup_config_hash: commitments.rollup_config_hash,
                    l1_chain_id: l1_chain_id as i64,
                    l2_chain_id: l2_chain_id as i64,
                };
                RequestStep::Act(FailureAction::Insert { first, second })
            },
            Some(Err(e)) => RequestStep::Fail(RequestError::Outside(e.clone())),
            Some(Ok(())) => RequestStep::Done(()),
        }
    }

    /// What is done about a cancelled request: it is marked as cancelled.
    pub fn handle_cancelled_request(
        request: &OPSuccinctRequest,
        status_updated: &Option<Result<(), RpcError>>,
    ) -> (r: RequestStep<FailureAction, ()>)
        ensures
            r == match *status_updated {
                None => RequestStep::<FailureAction, ()>::Act(
                    FailureAction::UpdateStatus {
                        id: request.id,
                        status: RequestStatus::Cancelled,
                    },
                ),
                Some(Err(e)) => RequestStep::Fail(RequestError::Outside(e)),
                Some(Ok(())) => RequestStep::Done(()),
            },
    {
        match status_updated {
            None => RequestStep::Act(
                FailureAction::UpdateStatus { id: request.id, status: RequestStatus::Cancelled },
            ),
            Some(Err(e)) => RequestStep::Fail(RequestError::Outside(e.clone())),
            Some(Ok(())) => RequestStep::Done(()),
        }
    }
}

/// Nothing is done twice about a failed request, so handling it ends.
pub proof fn law_failure_action_is_new(
    requester: OPSuccinctProofRequester,
    request: OPSuccinctRequest,
    execution_status: ExecutionStatus,
    a: FailureAnswers,
)
    ensures
        requester.failure_step(request, execution_status, a) matches RequestStep::Act(action)
            ==> match action {
            FailureAction::UpdateStatus { id, status } => a.status_updated is None,
            FailureAction::L1ChainId => a.l1_chain_id is None,
            FailureAction::L2ChainId => a.l2_chain_id is None,
            FailureAction::FailedCount { .. } => a.failed_count is None,
            FailureAction::Insert { first, second } => a.inserted is None,
        },
{
}

/// Half of the sum of two numbers, rounded toward zero.
fn midpoint(a: i64, b: i64) -> (r: i64)
    requires
        i64::MIN <= a + b <= i64::MAX,
    ensures
        r == half(a + b),
{
    let sum: i64 = a + b;
    if sum >= 0 {
        sum / 2
    } else {
        // One more than the negated sum is never too large to write.
        let below: i64 = -(sum + 1);
        -(below / 2 + below % 2)
    }
}

/// The halves of a split range adjoin, neither is empty, together they cover the range, and each
/// is shorter than the range; so splitting comes to an end.
pub proof fn law_halves_cover_the_range(request: OPSuccinctRequest)
    requires
        request.can_split(),
    ensures
        request.start_block < request.mid_block() < request.end_block,
        request.mid_block() - request.start_block < request.end_block - request.start_block,
        request.end_block - request.mid_block() < request.end_block - request.start_block,
        -1 <= (request.mid_block() - request.start_block) - (request.end_block
            - request.mid_block()) <= 1,
{
}

/// The requests that replace a failed one keep its mode and adjoin where it is split.
pub proof fn law_split_requests_adjoin(
    requester: OPSuccinctProofRequester,
    request: OPSuccinctRequest,
    execution_status: ExecutionStatus,
    a: FailureAnswers,
)
    ensures
        requester.failure_step(request, execution_status, a) matches RequestStep::Act(
            FailureAction::Insert { first, second },
        ) ==> {
            &&& first.start_block == request.start_block
            &&& first.end_block == second.start_block
            &&& second.end_block == request.end_block
            &&& first.start_block < first.end_block
            &&& second.start_block < second.end_block
            &&& first.mode == request.mode && second.mode == request.mode
        },
{
}

/// What is done about a failed request is done for that request: it is the one that is marked as
/// failed, its range and its chains are those whose failures are counted, with the commitments of
/// the programs; and both requests that replace it carry the chain IDs that the endpoints gave,
/// the commitments of the programs and its mode, from its first block to the middle and from there
/// to its last block, the middle being rounded toward zero.
pub proof fn law_failure_actions_are_about_the_request(
    requester: OPSuccinctProofRequester,
    request: OPSuccinctRequest,
    execution_status: ExecutionStatus,
    a: FailureAnswers,
)
    ensures
        requester.failure_step(request, execution_status, a) matches RequestStep::Act(action)
            ==> match action {
            FailureAction::UpdateStatus { id, status } => id == request.id && status
                == RequestStatus::Failed,
            FailureAction::L1ChainId => a.status_updated matches Some(Ok(_)),
            FailureAction::L2ChainId => (a.status_updated matches Some(Ok(_))) && (
            a.l1_chain_id matches Some(Ok(_))),
            FailureAction::FailedCount {
                start_block,
                end_block,
                l1_chain_id,
                l2_chain_id,
                commitments,
            } => {
                &&& start_block == request.start_block && end_block == request.end_block
                &&& l1_chain_id == request.l1_chain_id && l2_chain_id == request.l2_chain_id
                &&& commitments.range_vkey_commitment
                    == requester.program_config.commitments.range_vkey_commitment
                &&& commitments.agg_vkey_hash == requester.program_config.commitments.agg_vkey_hash
                &&& commitments.rollup_config_hash
                    == requester.program_config.commitments.rollup_config_hash
            },
            FailureAction::Insert { first, second } => {
                let sum = request.start_block + request.end_block;
                &&& a.l1_chain_id matches Some(Ok(l1))
                &&& a.l2_chain_id matches Some(Ok(l2))
                &&& first.l1_chain_id == l1 as i64 && second.l1_chain_id == l1 as i64
                &&& first.l2_chain_id == l2 as i64 && second.l2_chain_id == l2 as i64
                &&& first.range_vkey_commitment
                    == requester.program_config.commitments.range_vkey_commitment
                &&& second.range_vkey_commitment
                    == requester.program_config.commitments.range_vkey_commitment
                &&& first.rollup_config_hash
                    == requester.program_config.commitments.rollup_config_hash
                &&& second.rollup_config_hash
                    == requester.program_config.commitments.rollup_config_hash
                &&& first.mode == request.mode && second.mode == request.mode
                &&& first.start_block == request.start_block
                &&& first.end_block == second.start_block
                &&& second.end_block == request.end_block
                &&& sum >= 0 ==> sum - 1 <= 2 * first.end_block <= sum
                &&& sum < 0 ==> sum <= 2 * first.end_block <= sum + 1
            },
        },
{
}

/// Once the request is marked and the chains are known, it is split exactly where it is for a range
/// of more than one block and has failed more than twice or cannot be executed; the failures are
/// counted exactly where it is for such a range; and handling it ends where there is nothing to
/// split or the halves have been added.
pub proof fn law_failed_range_is_split_iff(
    requester: OPSuccinctProofRequester,
    request: OPSuccinctRequest,
    execution_status: ExecutionStatus,
    a: FailureAnswers,
)
    requires
        a.status_updated matches Some(Ok(_)),
        a.l1_chain_id matches Some(Ok(_)),
        a.l2_chain_id matches Some(Ok(_)),
    ensures
        ({
            let r = requester.failure_step(request, execution_status, a);
            let long = request.req_type == RequestType::Range && request.end_block
                - request.start_block > 1;
            let hopeless = (a.failed_count matches Some(Ok(count)) && count > 2) || (
            a.failed_count matches Some(Ok(_)) && execution_status
                == ExecutionStatus::Unexecutable);
            &&& (r matches RequestStep::Act(FailureAction::FailedCount { .. })) <==> long
                && a.failed_count is None
            &&& (r matches RequestStep::Act(FailureAction::Insert { .. })) <==> long && hopeless
                && a.inserted is None
            &&& r is Done <==> !long || ((a.failed_count matches Some(Ok(_))) && (!hopeless || (
            a.inserted matches Some(Ok(_)))))
            &&& r matches RequestStep::Fail(e) ==> {
                ||| (e matches RequestError::Outside(cause) && a.failed_count == Some(
                    Err::<i64, RpcError>(cause),
                ))
                ||| (e matches RequestError::Outside(cause) && a.inserted == Some(
                    Err::<(), RpcError>(cause),
                ) && hopeless)
            }
        }),
{
}

/// What is owed about a failed request is done one thing at a time: first it is marked, then the two
/// chains are asked for, and handling it does not end before all three have succeeded.
pub proof fn law_failure_handling_leaves_nothing_out(
    requester: OPSuccinctProofRequester,
    request: OPSuccinctRequest,
    execution_status: ExecutionStatus,
    a: FailureAnswers,
)
    ensures
        a.status_updated is None ==> (requester.failure_step(request, execution_status, a)
            matches RequestStep::Act(FailureAction::UpdateStatus { .. })),
        (a.status_updated matches Some(Ok(_))) && a.l1_chain_id is None ==> (
        requester.failure_step(request, execution_status, a) matches RequestStep::Act(
            FailureAction::L1ChainId,
        )),
        (a.status_updated matches Some(Ok(_))) && (a.l1_chain_id matches Some(Ok(_)))
            && a.l2_chain_id is None ==> (requester.failure_step(request, execution_status, a)
            matches RequestStep::Act(FailureAction::L2ChainId)),
        requester.failure_step(request, execution_status, a) is Done ==> (
        a.status_updated matches Some(Ok(_))) && (a.l1_chain_id matches Some(Ok(_))) && (
        a.l2_chain_id matches Some(Ok(_))),
{
}

/// A failure to mark the request or to learn a chain ID is handed on, and nothing is done behind
/// it.
pub proof fn law_failures_of_failure_handling_are_told(
    requester: OPSuccinctProofRequester,
    request: OPSuccinctRequest,
    execution_status: ExecutionStatus,
    a: FailureAnswers,
    e: RpcError,
)
    requires
        ({
            ||| a.status_updated == Some(Err::<(), RpcError>(e))
            ||| (a.status_updated matches Some(Ok(_))) && a.l1_chain_id == Some(
                Err::<u64, RpcError>(e),
            )
            ||| (a.status_updated matches Some(Ok(_))) && (a.l1_chain_id matches Some(Ok(_)))
                && a.l2_chain_id == Some(Err::<u64, RpcError>(e))
        }),
    ensures
        requester.failure_step(request, execution_status, a) == RequestStep::<
            FailureAction,
            (),
        >::Fail(RequestError::Outside(e)),
{
}

/// A failed request that is not split is marked, and nothing takes its place: no request is added,
/// and where every call succeeds, handling it ends well.
pub proof fn law_unsplit_failure_adds_nothing(
    requester: OPSuccinctProofRequester,
    request: OPSuccinctRequest,
    execution_status: ExecutionStatus,
    a: FailureAnswers,
)
    requires
        !request.can_split() || (a.failed_count matches Some(Ok(count)) ==> !request.is_split(
            count,
            execution_status,
        )),
    ensures
        !(requester.failure_step(request, execution_status, a) matches RequestStep::Act(
            FailureAction::Insert { .. },
        )),
        a.chains_known() && (request.can_split() ==> a.failed_count matches Some(Ok(_)))
            ==> requester.failure_step(request, execution_status, a) == RequestStep::<
            FailureAction,
            (),
        >::Done(()),
{
}

/// A request is marked as failed before anything else is done about it.
pub proof fn law_failure_is_recorded_first(
    requester: OPSuccinctProofRequester,
    request: OPSuccinctRequest,
    execution_status: ExecutionStatus,
    a: FailureAnswers,
)
    ensures
        requester.failure_step(request, execution_status, a) matches RequestStep::Act(action) ==> (
        action is UpdateStatus || a.status_updated matches Some(Ok(_))),
        requester.failure_step(request, execution_status, a) is Done ==> a.status_updated
            matches Some(Ok(_)),
{
}

// ---------------------------------------------------------------------------------------------
// Witnesses of range proofs
// ---------------------------------------------------------------------------------------------

/// What is done for the witness of a range proof.
#[derive(Clone, Copy, Debug)]
pub enum RangeWitnessAction {
    /// Fetch the arguments of the host program for a range, derived from a safe L1 head.
    FetchHostArgs { start_block: u64, end_block: u64, safe_db_fallback: bool },
    /// Fetch the header of the L1 block with that hash.
    L1Header(B256),
    /// Record the number of the L1 head of the request.
    RecordL1Head { id: i64, number: i64 },
    /// Run the host program.
    RunHost,
}

/// What has come of it so far: the L1 head that the arguments name, where they name one, its
/// header, whether it was recorded, and the encoded witness.
#[derive(Debug)]
pub struct RangeWitnessAnswers {
    pub l1_head: Option<Result<Option<B256>, FetchError>>,
    pub l1_header: Option<Result<Header, FetchError>>,
    pub recorded: Option<Result<(), RpcError>>,
    pub witness: Option<Result<Vec<u8>, RpcError>>,
}

/// The input of the zkVM for an encoded witness: the witness behind its length, wherever the chain
/// posts its data.
pub fn get_zisk_stdin(da: DataAvailability, witness: &Vec<u8>) -> (r: Vec<u8>)
    ensures
        r@ == sized(witness@),
{
    match da {
        DataAvailability::Ethereum => (ETHDAWitnessGenerator {}).get_zisk_stdin(witness),
        DataAvailability::Celestia => (CelestiaDAWitnessGenerator {}).get_zisk_stdin(witness),
        DataAvailability::EigenDa => (EigenDAWitnessGenerator {}).get_zisk_stdin(witness),
    }
}

/// The end of the witness of a range proof: the host program has run.
pub open spec fn witness_step(a: RangeWitnessAnswers) -> RequestStep<
    RangeWitnessAction,
    Vec<u8>,
> {
    match a.witness {
        None => RequestStep::Act(RangeWitnessAction::RunHost),
        Some(Err(e)) => RequestStep::Fail(RequestError::Outside(e)),
        Some(Ok(witness)) => RequestStep::Done(witness),
    }
}

impl OPSuccinctProofRequester {
    /// The witness of a range proof, up to the encoded witness.
    pub open spec fn range_witness_step(
        self,
        request: OPSuccinctRequest,
        a: RangeWitnessAnswers,
    ) -> RequestStep<RangeWitnessAction, Vec<u8>> {
        match a.l1_head {
            None => RequestStep::Act(
                RangeWitnessAction::FetchHostArgs {
                    start_block: request.start_block as u64,
                    end_block: request.end_block as u64,
                    safe_db_fallback: self.safe_db_fallback,
                },
            ),
            Some(Err(e)) => RequestStep::Fail(RequestError::Fetch(e)),
            Some(Ok(None)) => witness_step(a),
            Some(Ok(Some(hash))) => match (a.l1_header, a.recorded) {
                (None, _) => RequestStep::Act(RangeWitnessAction::L1Header(hash)),
                (Some(Err(e)), _) => RequestStep::Fail(RequestError::Fetch(e)),
                (Some(Ok(header)), None) => RequestStep::Act(
                    RangeWitnessAction::RecordL1Head {
                        id: request.id,
                        number: header.number as i64,
                    },
                ),
                (Some(Ok(_)), Some(Err(e))) => RequestStep::Fail(RequestError::Outside(e)),
                (Some(Ok(_)), Some(Ok(()))) => witness_step(a),
            },
        }
    }

    /// The input of the range program for a request: the arguments of the host program are
    /// fetched, the L1 head that they name is recorded, and the host program is run.
    pub fn range_proof_witnessgen(
        &self,
        request: &OPSuccinctRequest,
        answers: &RangeWitnessAnswers,
    ) -> (r: RequestStep<RangeWitnessAction, Vec<u8>>)
        ensures
            match self.range_witness_step(*request, *answers) {
                RequestStep::Act(action) => r == RequestStep::<RangeWitnessAction, Vec<u8>>::Act(
                    action,
                ),
                RequestStep::Fail(e) => r == RequestStep::<RangeWitnessAction, Vec<u8>>::Fail(e),
                RequestStep::Done(witness) => r matches RequestStep::Done(stdin) && stdin@
                    == sized(witness@),
            },
    {
        match &answers.l1_head {
            None => {
                return RequestStep::Act(
                    RangeWitnessAction::FetchHostArgs {
                        start_block: request.start_block as u64,
                        end_block: request.end_block as u64,
                        safe_db_fallback: self.safe_db_fallback,
                    },
                );
            },
            Some(Err(e)) => {
                return RequestStep::Fail(RequestError::Fetch(e.clone()));
            },
            Some(Ok(None)) => {},
            Some(Ok(Some(hash))) => {
                match &answers.l1_header {
                    None => {
                        return RequestStep::Act(RangeWitnessAction::L1Header(*hash));
                    },
                    Some(Err(e)) => {
                        return RequestStep::Fail(RequestError::Fetch(e.clone()));
                    },
                    Some(Ok(header)) => match &answers.recorded {
                        None => {
                            return RequestStep::Act(
                                RangeWitnessAction::RecordL1Head {
                                    id: request.id,
                                    number: header.number as i64,
                                },
                            );
                        },
                        Some(Err(e)) => {
                            return RequestStep::Fail(RequestError::Outside(e.clone()));
                        },
                        Some(Ok(())) => {},
                    },
                }
            },
        }
        match &answers.witness {
            None => RequestStep::Act(RangeWitnessAction::RunHost),
            Some(Err(e)) => RequestStep::Fail(RequestError::Outside(e.clone())),
            Some(Ok(witness)) => RequestStep::Done(get_zisk_stdin(self.data_availability, witness)),
        }
    }
}

/// Nothing is done twice for the witness of a range proof, so making it ends; and the host program
/// runs only once the L1 head that it starts from has been recorded.
pub proof fn law_range_witness_action_is_new(
    requester: OPSuccinctProofRequester,
    request: OPSuccinctRequest,
    a: RangeWitnessAnswers,
)
    ensures
        requester.range_witness_step(request, a) matches RequestStep::Act(action) ==> match action {
            RangeWitnessAction::FetchHostArgs {
                start_block,
                end_block,
                safe_db_fallback,
            } => a.l1_head is None,
            RangeWitnessAction::L1Header(_) => a.l1_header is None,
            RangeWitnessAction::RecordL1Head { id, number } => a.recorded is None,
            RangeWitnessAction::RunHost => a.witness is None && (a.l1_head matches Some(Ok(Some(_)))
                ==> a.recorded matches Some(Ok(_))),
        },
{
}

/// The witness is that of the range of the request: its arguments are fetched for its blocks and in
/// the mode of the requester, and the L1 head that they name is the one whose header is fetched
/// and whose number is recorded for it.
pub proof fn law_range_witness_is_of_the_request(
    requester: OPSuccinctProofRequester,
    request: OPSuccinctRequest,
    a: RangeWitnessAnswers,
)
    ensures
        requester.range_witness_step(request, a) matches RequestStep::Act(action) ==> match action {
            RangeWitnessAction::FetchHostArgs { start_block, end_block, safe_db_fallback } => {
                &&& start_block == request.start_block as u64
                &&& request.start_block >= 0 ==> start_block == request.start_block
                &&& end_block == request.end_block as u64
                &&& request.end_block >= 0 ==> end_block == request.end_block
                &&& safe_db_fallback == requester.safe_db_fallback
            },
            RangeWitnessAction::L1Header(hash) => a.l1_head matches Some(Ok(Some(named))) && hash
                == named,
            RangeWitnessAction::RecordL1Head { id, number } => id == request.id && (
            a.l1_head matches Some(Ok(Some(_)))) && (a.l1_header matches Some(Ok(header)) && number
                == header.number as i64),
            RangeWitnessAction::RunHost => (a.l1_head matches Some(Ok(Some(_)))) ==> (
            a.l1_header matches Some(Ok(_))),
        },
{
}

/// What is owed for the witness of a range proof is done one thing at a time: the arguments are
/// fetched first, then the header of the L1 head that they name, if they name one, then that is
/// recorded, and the host program runs last.
pub proof fn law_range_witness_leaves_nothing_out(
    requester: OPSuccinctProofRequester,
    request: OPSuccinctRequest,
    a: RangeWitnessAnswers,
)
    ensures
        ({
            let r = requester.range_witness_step(request, a);
            let named = a.l1_head matches Some(Ok(Some(_)));
            let unnamed = a.l1_head matches Some(Ok(None));
            let fetched = named && (a.l1_header matches Some(Ok(_)));
            &&& (r matches RequestStep::Act(RangeWitnessAction::FetchHostArgs { .. }))
                <==> a.l1_head is None
            &&& (r matches RequestStep::Act(RangeWitnessAction::L1Header(_))) <==> named
                && a.l1_header is None
            &&& (r matches RequestStep::Act(RangeWitnessAction::RecordL1Head { .. })) <==> fetched
                && a.recorded is None
            &&& (r matches RequestStep::Act(RangeWitnessAction::RunHost)) <==> a.witness is None && (
            unnamed || (fetched && (a.recorded matches Some(Ok(_)))))
        }),
{
}

/// The witness is what the host program made, and is there exactly when the arguments were fetched,
/// the L1 head that they name, if any, was recorded, and the host program ran.
pub proof fn law_range_witness_is_done_iff(
    requester: OPSuccinctProofRequester,
    request: OPSuccinctRequest,
    a: RangeWitnessAnswers,
)
    ensures
        requester.range_witness_step(request, a) is Done <==> {
            &&& a.l1_head matches Some(Ok(_))
            &&& (a.l1_head matches Some(Ok(Some(_)))) ==> (a.l1_header matches Some(Ok(_))) && (
            a.recorded matches Some(Ok(_)))
            &&& a.witness matches Some(Ok(_))
        },
        requester.range_witness_step(request, a) matches RequestStep::Done(witness) ==> a.witness
            == Some(Ok::<Vec<u8>, RpcError>(witness)),
        requester.range_witness_step(request, a) matches RequestStep::Fail(e) ==> {
            ||| (e matches RequestError::Fetch(cause) && a.l1_head == Some(
                Err::<Option<B256>, FetchError>(cause),
            ))
            ||| (e matches RequestError::Fetch(cause) && (a.l1_head matches Some(Ok(Some(_))))
                && a.l1_header == Some(Err::<Header, FetchError>(cause)))
            ||| (e matches RequestError::Outside(cause) && (a.l1_header matches Some(Ok(_)))
                && a.recorded == Some(Err::<(), RpcError>(cause)))
            ||| (e matches RequestError::Outside(cause) && (a.l1_head matches Some(Ok(_)))
                && a.witness == Some(Err::<Vec<u8>, RpcError>(cause)))
        },
{
}

// ---------------------------------------------------------------------------------------------
// Witnesses of aggregation proofs
// ---------------------------------------------------------------------------------------------

/// A range proof of a batch, as the database holds it: the request, the boot info where it was
/// stored and can be read, and the hash of the L1 block that was asked for in its place, `None`
/// where there is no such block.
#[derive(Debug)]
pub struct RangeProofRecord {
    pub request: OPSuccinctRequest,
    pub stored_boot_info: Option<BootInfoStruct>,
    pub l1_block: Option<Result<Option<B256>, RpcError>>,
}

/// The boot info of a range proof whose roots are not known.
pub open spec fn is_rootless(
    b: BootInfoStruct,
    l1_head: Seq<u8>,
    request: OPSuccinctRequest,
) -> bool {
    &&& b.l1Head@ == l1_head
    &&& b.l2PreRoot@ == zero_bytes()
    &&& b.l2PostRoot@ == zero_bytes()
    &&& b.l2BlockNumber == request.end_block as u64
    &&& b.rollupConfigHash@ == request.rollup_config_hash@
}

impl RangeProofRecord {
    /// The record is one of a finished proof; where its boot info was not stored, its hashes have
    /// 32 bytes.
    pub open spec fn wf(self) -> bool {
        &&& self.request.proof_bytes is Some
        &&& self.stored_boot_info is None ==> self.request.rollup_config_hash@.len() == 32
        &&& self.stored_boot_info is None ==> (self.request.checkpointed_l1_block_hash matches Some(
            hash,
        ) ==> hash@.len() == 32)
    }

    /// The boot info is known, or will be without asking for an L1 block.
    pub open spec fn is_resolved(self) -> bool {
        self.stored_boot_info is Some || self.request.checkpointed_l1_block_hash is Some
            || self.l1_block is Some
    }

    /// The L1 head of the proof, where its boot info was not stored; zero where it is not known.
    pub open spec fn l1_head(self) -> Seq<u8> {
        match (self.request.checkpointed_l1_block_hash, self.l1_block) {
            (Some(hash), _) => hash@,
            (None, Some(Ok(Some(hash)))) => hash@,
            _ => zero_bytes(),
        }
    }

    /// `b` is the boot info of the proof: the stored one, or else one without roots.
    pub open spec fn has_boot_info(self, b: BootInfoStruct) -> bool {
        match self.stored_boot_info {
            Some(stored) => b == stored,
            None => is_rootless(b, self.l1_head(), self.request),
        }
    }
}

/// A boot info without roots.
fn rootless(l1_head: B256, request: &OPSuccinctRequest) -> (r: BootInfoStruct)
    requires
        request.rollup_config_hash@.len() == 32,
    ensures
        is_rootless(r, l1_head@, *request),
{
    BootInfoStruct {
        l1Head: l1_head,
        l2PreRoot: zero_word(),
        l2PostRoot: zero_word(),
        l2BlockNumber: request.end_block as u64,
        rollupConfigHash: word_from_slice(&request.rollup_config_hash),
    }
}

/// What is done for the witness of an aggregation proof.
#[derive(Debug)]
pub enum AggWitnessAction {
    /// Ask for the hash of the L1 block with that number, for the record at that index.
    L1Block { index: usize, number: u64 },
    /// Fetch the headers that link these boot infos to the checkpoint.
    HeaderPreimages(Vec<BootInfoStruct>),
}

/// The first record whose boot info cannot be told yet.
pub open spec fn unresolved_at(records: Seq<RangeProofRecord>, i: int) -> bool {
    &&& 0 <= i < records.len()
    &&& !records[i].is_resolved()
    &&& forall|j: int| 0 <= j < i ==> (#[trigger] records[j]).is_resolved()
}

/// The boot infos are those of the records, in order.
pub open spec fn are_boot_infos(
    infos: Seq<BootInfoStruct>,
    records: Seq<RangeProofRecord>,
) -> bool {
    &&& infos.len() == records.len()
    &&& forall|i: int|
        #![trigger infos[i]]
        #![trigger records[i]]
        0 <= i < records.len() ==> records[i].has_boot_info(infos[i])
}

impl OPSuccinctProofRequester {
    /// The boot info of a range proof for which none was stored: its L1 head is the checkpoint of
    /// the request, and where that is missing, the L1 block with the number of its first block.
    pub fn reconstruct_boot_info_from_range(
        request: &OPSuccinctRequest,
        l1_block: &Option<Result<Option<B256>, RpcError>>,
    ) -> (r: RequestStep<u64, BootInfoStruct>)
        requires
            request.checkpointed_l1_block_hash matches Some(hash) ==> hash@.len() == 32,
            (request.checkpointed_l1_block_hash is Some || (l1_block matches Some(Ok(Some(_)))))
                ==> request.rollup_config_hash@.len() == 32,
        ensures
            match (request.checkpointed_l1_block_hash, *l1_block) {
                (Some(hash), _) => r matches RequestStep::Done(b) && is_rootless(
                    b,
                    hash@,
                    *request,
                ),
                (None, None) => r == RequestStep::<u64, BootInfoStruct>::Act(
                    request.start_block as u64,
                ),
                (None, Some(Err(e))) => r == RequestStep::<u64, BootInfoStruct>::Fail(
                    RequestError::Outside(e),
                ),
                (None, Some(Ok(None))) => r matches RequestStep::Fail(RequestError::Outside(e))
                    && e.summary@ == "L1 block not found"@,
                (None, Some(Ok(Some(hash)))) => r matches RequestStep::Done(b) && is_rootless(
                    b,
                    hash@,
                    *request,
                ),
            },
    {
        let l1_head = match &request.checkpointed_l1_block_hash {
            Some(hash) => word_from_slice(hash),
            None => match l1_block {
                None => {
                    return RequestStep::Act(request.start_block as u64);
                },
                Some(Err(e)) => {
                    return RequestStep::Fail(RequestError::Outside(e.clone()));
                },
                Some(Ok(None)) => {
                    let text = "L1 block not found".to_owned();
                    return RequestStep::Fail(
                        RequestError::Outside(
                            RpcError { summary: text.clone(), chain: text.clone(), debug: text },
                        ),
                    );
                },
                Some(Ok(Some(hash))) => *hash,
            },
        };
        RequestStep::Done(rootless(l1_head, request))
    }

    /// The boot info of a range proof of a batch: the stored one, the reconstructed one, or, where
    /// it cannot be reconstructed, one without an L1 head; asks for the L1 block with the given
    /// number where that is still needed.
    pub fn boot_info_of(record: &RangeProofRecord) -> (r: Result<BootInfoStruct, u64>)
        requires
            record.wf(),
        ensures
            match r {
                Ok(b) => record.is_resolved() && record.has_boot_info(b),
                Err(number) => !record.is_resolved() && number == record.request.start_block as u64,
            },
    {
        if let Some(stored) = &record.stored_boot_info {
            return Ok(*stored);
        }
        match Self::reconstruct_boot_info_from_range(&record.request, &record.l1_block) {
            RequestStep::Done(b) => Ok(b),
            RequestStep::Act(number) => Err(number),
            RequestStep::Fail(_) => Ok(rootless(zero_word(), &record.request)),
        }
    }

    /// The input of the aggregation program for the range proofs of a batch: their boot infos, the
    /// headers that link them to the checkpoint, the commitment to the range program, the
    /// checkpoint and the address of the prover.
    pub fn agg_proof_witnessgen(
        &self,
        records: &Vec<RangeProofRecord>,
        headers: &Option<Result<Vec<Header>, FetchError>>,
        checkpointed_l1_block_hash: B256,
        prover_address: Address,
    ) -> (r: RequestStep<AggWitnessAction, Vec<u8>>)
        requires
            forall|i: int| 0 <= i < records.len() ==> (#[trigger] records[i]).wf(),
        ensures
            match r {
                RequestStep::Act(AggWitnessAction::L1Block { index, number }) => unresolved_at(
                    records@,
                    index as int,
                ) && number == records[index as int].request.start_block as u64,
                RequestStep::Act(AggWitnessAction::HeaderPreimages(infos)) => are_boot_infos(
                    infos@,
                    records@,
                ) && headers is None,
                RequestStep::Fail(RequestError::HeaderPreimages(e)) => *headers == Some(
                    Err::<Vec<Header>, FetchError>(e),
                ),
                RequestStep::Fail(RequestError::AggStdin) => *headers matches Some(Ok(h))
                    && cbor_of_headers(header_encodings(header_views(h@))) is None,
                RequestStep::Fail(_) => false,
                RequestStep::Done(stdin) => self.is_agg_stdin(
                    stdin@,
                    records@,
                    *headers,
                    checkpointed_l1_block_hash,
                    prover_address,
                ),
            },
            !(r matches RequestStep::Act(AggWitnessAction::L1Block { .. })) ==> forall|i: int|
                0 <= i < records.len() ==> (#[trigger] records[i]).is_resolved(),
    {
        let mut boot_infos: Vec<BootInfoStruct> = Vec::new();
        let mut proofs: Vec<Vec<u8>> = Vec::new();
        let mut i: usize = 0;
        while i < records.len()
            invariant
                i <= records.len(),
                forall|j: int| 0 <= j < records.len() ==> (#[trigger] records[j]).wf(),
                forall|j: int| 0 <= j < i ==> (#[trigger] records@[j]).is_resolved(),
                are_boot_infos(boot_infos@, records@.take(i as int)),
            decreases records.len() - i,
        {
            assert(records@[i as int].wf());
            if let Some(bytes) = &records[i].request.proof_bytes {
                proofs.push(bytes.clone());
            }
            match Self::boot_info_of(&records[i]) {
                Ok(b) => {
                    let ghost before = boot_infos@;
                    boot_infos.push(b);
                    assert(are_boot_infos(boot_infos@, records@.take(i + 1))) by {
                        assert forall|j: int| 0 <= j < i + 1 implies records@.take(
                            i + 1,
                        )[j].has_boot_info(#[trigger] boot_infos@[j]) by {
                            if j < i {
                                assert(before[j] == boot_infos@[j]);
                                assert(records@.take(i as int)[j] == records@[j]);
                            }
                        }
                    }
                },
                Err(number) => {
                    return RequestStep::Act(AggWitnessAction::L1Block { index: i, number });
                },
            }
            i += 1;
        }
        assert(records@.take(i as int) == records@);
        let fetched = match headers {
            None => {
                return RequestStep::Act(AggWitnessAction::HeaderPreimages(boot_infos));
            },
            Some(Err(e)) => {
                return RequestStep::Fail(RequestError::HeaderPreimages(e.clone()));
            },
            Some(Ok(fetched)) => fetched,
        };
        let vkey = b256_to_u32x8_be(self.program_config.commitments.range_vkey_commitment);
        let ghost inputs = AggregationInputs {
            boot_infos,
            latest_l1_checkpoint_head: checkpointed_l1_block_hash,
            multi_block_vkey: vkey,
            prover_address,
        };
        match get_agg_proof_stdin(
            &proofs,
            boot_infos,
            fetched,
            vkey,
            checkpointed_l1_block_hash,
            prover_address,
        ) {
            Ok(stdin) => {
                assert(self.is_agg_witness(
                    stdin@,
                    inputs,
                    records@,
                    *headers,
                    checkpointed_l1_block_hash,
                    prover_address,
                ));
                RequestStep::Done(stdin)
            },
            Err(_) => RequestStep::Fail(RequestError::AggStdin),
        }
    }

    /// `stdin` is the input of the aggregation program for the records, the headers, the
    /// checkpoint and the prover.
    pub open spec fn is_agg_stdin(
        self,
        stdin: Seq<u8>,
        records: Seq<RangeProofRecord>,
        headers: Option<Result<Vec<Header>, FetchError>>,
        checkpoint: B256,
        prover_address: Address,
    ) -> bool {
        exists|inputs: AggregationInputs| #[trigger]
            self.is_agg_witness(stdin, inputs, records, headers, checkpoint, prover_address)
    }

    /// `stdin` is the input of the aggregation program for `inputs`, which are those for the
    /// records, the checkpoint and the prover, and for the headers.
    pub open spec fn is_agg_witness(
        self,
        stdin: Seq<u8>,
        inputs: AggregationInputs,
        records: Seq<RangeProofRecord>,
        headers: Option<Result<Vec<Header>, FetchError>>,
        checkpoint: B256,
        prover_address: Address,
    ) -> bool {
        &&& are_boot_infos(inputs.boot_infos@, records)
        &&& inputs.latest_l1_checkpoint_head == checkpoint
        &&& inputs.multi_block_vkey@ == be_words(
            self.program_config.commitments.range_vkey_commitment@,
        )
        &&& inputs.prover_address == prover_address
        &&& headers matches Some(Ok(h)) && cbor_of_headers(
            header_encodings(header_views(h@)),
        ) matches Some(cbor) && stdin == agg_stdin(aggregation_encoding(inputs), cbor)
    }
}

/// The boot info of a range proof is the stored one; where none was stored, it is for the last
/// block and the rollup configuration of the request, without roots, and derived from the
/// checkpoint of the request, from the L1 block that was found in its place, or from none.
pub proof fn law_boot_info_is_that_of_the_record(record: RangeProofRecord, b: BootInfoStruct)
    requires
        record.has_boot_info(b),
    ensures
        record.stored_boot_info matches Some(stored) ==> b == stored,
        record.stored_boot_info is None ==> {
            &&& b.l2BlockNumber == record.request.end_block as u64
            &&& b.rollupConfigHash@ == record.request.rollup_config_hash@
            &&& forall|i: int| 0 <= i < 32 ==> #[trigger] b.l2PreRoot@[i] == 0
            &&& forall|i: int| 0 <= i < 32 ==> #[trigger] b.l2PostRoot@[i] == 0
            &&& record.request.checkpointed_l1_block_hash matches Some(hash) ==> b.l1Head@ == hash@
            &&& record.request.checkpointed_l1_block_hash is None ==> match record.l1_block {
                Some(Ok(Some(hash))) => b.l1Head@ == hash@,
                _ => forall|i: int| 0 <= i < 32 ==> #[trigger] b.l1Head@[i] == 0,
            }
        },
{
    assert(zero_bytes().len() == 32);
}

/// An L1 block is asked for exactly where neither a boot info was stored nor a checkpoint is known,
/// and not twice.
pub proof fn law_l1_block_is_asked_for_where_it_is_missing(
    records: Seq<RangeProofRecord>,
    i: int,
    j: int,
)
    requires
        unresolved_at(records, i),
    ensures
        0 <= i < records.len(),
        records[i].stored_boot_info is None,
        records[i].request.checkpointed_l1_block_hash is None,
        records[i].l1_block is None,
        0 <= j < i ==> records[j].stored_boot_info is Some
            || records[j].request.checkpointed_l1_block_hash is Some || records[j].l1_block is Some,
{
}

/// The input of the aggregation program holds, in order, the boot info of each range proof of the
/// batch, the checkpoint, the address of the prover and the commitment to the range program, word
/// by word with the highest byte first; and behind them the headers that were fetched.
pub proof fn law_agg_stdin_is_of_the_batch(
    requester: OPSuccinctProofRequester,
    stdin: Seq<u8>,
    records: Seq<RangeProofRecord>,
    headers: Option<Result<Vec<Header>, FetchError>>,
    checkpoint: B256,
    prover_address: Address,
)
    requires
        requester.is_agg_stdin(stdin, records, headers, checkpoint, prover_address),
    ensures
        headers matches Some(Ok(_)),
        exists|inputs: AggregationInputs|
            #![trigger aggregation_encoding(inputs)]
            {
                let encoded = aggregation_encoding(inputs);
                let fetched = headers->0->Ok_0@;
                let commitment = requester.program_config.commitments.range_vkey_commitment@;
                &&& inputs.boot_infos@.len() == records.len()
                &&& forall|i: int|
                    0 <= i < records.len() && (#[trigger] records[i]).stored_boot_info is Some
                        ==> inputs.boot_infos@[i] == records[i].stored_boot_info->0
                &&& inputs.latest_l1_checkpoint_head == checkpoint
                &&& inputs.prover_address == prover_address
                &&& forall|i: int|
                    0 <= i < 8 ==> #[trigger] inputs.multi_block_vkey@[i] == 0x1000000
                        * commitment[4 * i] + 0x10000 * commitment[4 * i + 1] + 0x100 * commitment[4
                        * i + 2] + commitment[4 * i + 3]
                &&& cbor_of_headers(fetched.map_values(|h: Header| h.rlp@)) matches Some(cbor)
                &&& encoded.len() <= u64::MAX && cbor.len() <= u64::MAX ==> {
                    &&& stdin.len() == 16 + encoded.len() + cbor.len()
                    &&& le_value(stdin.take(8)) == encoded.len()
                    &&& stdin.subrange(8, 8 + encoded.len() as int) == encoded
                    &&& stdin.skip(16 + encoded.len() as int) == cbor
                }
            },
{
    let inputs = choose|inputs: AggregationInputs| #[trigger]
        requester.is_agg_witness(stdin, inputs, records, headers, checkpoint, prover_address);
    let encoded = aggregation_encoding(inputs);
    let fetched = headers->0->Ok_0@;
    let commitment = requester.program_config.commitments.range_vkey_commitment@;
    assert(header_encodings(header_views(fetched)) =~= fetched.map_values(|h: Header| h.rlp@));
    let cbor = cbor_of_headers(fetched.map_values(|h: Header| h.rlp@))->0;
    assert forall|i: int|
        0 <= i < records.len() && (#[trigger] records[i]).stored_boot_info is Some implies
        inputs.boot_infos@[i] == records[i].stored_boot_info->0 by {
        assert(records[i].has_boot_info(inputs.boot_infos@[i]));
    }
    assert forall|i: int| 0 <= i < 8 implies #[trigger] inputs.multi_block_vkey@[i] == 0x1000000
        * commitment[4 * i] + 0x10000 * commitment[4 * i + 1] + 0x100 * commitment[4 * i + 2]
        + commitment[4 * i + 3] by {
        law_be_word_is_made_of_four_bytes(commitment, i);
    }
    if encoded.len() <= u64::MAX && cbor.len() <= u64::MAX {
        law_agg_stdin_reads_back(encoded, cbor);
        law_le_round_trip(encoded.len(), 8);
        law_le_round_trip(cbor.len(), 8);
        assert(stdin.skip(8 + encoded.len() as int).skip(8) == stdin.skip(
            16 + encoded.len() as int,
        ));
    }
}

// ---------------------------------------------------------------------------------------------
// The input of a request
// ---------------------------------------------------------------------------------------------

/// How the input of a request is made.
#[derive(Clone, Copy, Debug)]
pub enum StdinPlan {
    /// The witness of a range proof.
    Range,
    /// The witness of an aggregation proof, over the consecutive finished range proofs between the
    /// two blocks with these commitments.
    Aggregation {
        start_block: i64,
        end_block: i64,
        checkpointed_l1_block_hash: B256,
        l1_chain_id: i64,
        l2_chain_id: i64,
        prover_address: Address,
        commitments: CommitmentConfig,
    },
}

impl OPSuccinctProofRequester {
    /// How the input of a request is made. An aggregation request needs a checkpoint and the
    /// address of a prover.
    pub fn generate_proof_stdin(&self, request: &OPSuccinctRequest) -> (r: Result<
        StdinPlan,
        RequestError,
    >)
        requires
            request.req_type == RequestType::Aggregation ==> (
            request.checkpointed_l1_block_hash matches Some(hash) ==> hash@.len() == 32 && (
            request.prover_address matches Some(address) ==> address@.len() == 20)),
        ensures
            match (request.req_type, request.checkpointed_l1_block_hash, request.prover_address) {
                (RequestType::Range, _, _) => r matches Ok(StdinPlan::Range),
                (RequestType::Aggregation, None, _) => r == Err::<StdinPlan, RequestError>(
                    RequestError::NoCheckpoint,
                ),
                (RequestType::Aggregation, Some(_), None) => r == Err::<StdinPlan, RequestError>(
                    RequestError::NoProverAddress,
                ),
                (RequestType::Aggregation, Some(hash), Some(address)) => r matches Ok(
                    StdinPlan::Aggregation {
                        start_block,
                        end_block,
                        checkpointed_l1_block_hash,
                        l1_chain_id,
                        l2_chain_id,
                        prover_address,
                        commitments,
                    },
                ) && {
                    &&& start_block == request.start_block
                    &&& end_block == request.end_block
                    &&& checkpointed_l1_block_hash@ == hash@
                    &&& l1_chain_id == request.l1_chain_id
                    &&& l2_chain_id == request.l2_chain_id
                    &&& prover_address@ == address@
                    &&& commitments == self.program_config.commitments
                },
            },
    {
        match request.req_type {
            RequestType::Range => Ok(StdinPlan::Range),
            RequestType::Aggregation => {
                let checkpointed_l1_block_hash = match &request.checkpointed_l1_block_hash {
                    Some(hash) => word_from_slice(hash),
                    None => {
                        return Err(RequestError::NoCheckpoint);
                    },
                };
                let prover_address = match &request.prover_address {
                    Some(address) => address_from_slice(address),
                    None => {
                        return Err(RequestError::NoProverAddress);
                    },
                };
                Ok(
                    StdinPlan::Aggregation {
                        start_block: request.start_block,
                        end_block: request.end_block,
                        checkpointed_l1_block_hash,
                        l1_chain_id: request.l1_chain_id,
                        l2_chain_id: request.l2_chain_id,
                        prover_address,
                        commitments: self.program_config.commitments,
                    },
                )
            },
        }
    }
}

// ---------------------------------------------------------------------------------------------
// Proving
// ---------------------------------------------------------------------------------------------

/// How the prover is set up.
#[derive(Debug)]
pub struct ProverPlan {
    pub elf_path: String,
    pub proving_key_path: String,
    /// Where proofs are saved; they are not where this is `None`.
    pub output_dir: Option<String>,
    /// Only check the constraints, without making a proof.
    pub verify_constraints: bool,
    pub verify_proofs: bool,
    pub aggregation: bool,
    pub final_snark: bool,
}

/// What comes of proving.
#[derive(Debug)]
pub enum ProverReply {
    /// The prover could not be set up.
    NotBuilt(String),
    /// The prover failed.
    Failed(String),
    /// The prover finished, with the words of a proof or without.
    Finished(Option<Vec<u64>>),
}

/// The error counters of the requester.
#[derive(Clone, Copy, Debug, PartialEq, Eq, Structural)]
pub enum ValidityGauge {
    /// Witnesses that could not be made.
    WitnessgenErrorCount,
    /// Range proofs on which the prover failed.
    RangeProofRequestErrorCount,
    /// Aggregation proofs on which the prover failed.
    AggProofRequestErrorCount,
    /// Programs that could not be executed.
    ExecutionErrorCount,
}

/// What is done for a proof.
#[derive(Debug)]
pub enum ProofAction {
    /// Prove the input, with the prover set up so.
    Prove(ProverPlan),
    /// Raise an error counter by one.
    Count(ValidityGauge),
}

/// What has come of it so far, and whether the failure has been counted.
#[derive(Debug)]
pub struct ProofAnswers {
    pub reply: Option<ProverReply>,
    pub counted: bool,
}

/// What comes of executing a program for its statistics.
#[derive(Debug)]
pub enum ExecutionReply {
    /// The prover could not be set up.
    NotBuilt(String),
    /// The execution failed.
    Failed(String),
    /// The execution finished after that many milliseconds, with these statistics.
    Finished { statistics: String, elapsed_ms: u64 },
}

/// What is done for a mock proof.
#[derive(Debug)]
pub enum MockAction {
    /// Execute the program on the input, with the prover set up so.
    Execute(ProverPlan),
    /// Raise an error counter by one.
    Count(ValidityGauge),
    /// Record the statistics of the execution and the whole seconds that it took.
    InsertStatistics { id: i64, statistics: String, seconds: i64 },
}

/// What has come of it so far, and whether the failure has been counted.
#[derive(Debug)]
pub struct MockAnswers {
    pub reply: Option<ExecutionReply>,
    pub counted: bool,
    pub inserted: Option<Result<(), RpcError>>,
}

/// The failure of the prover on a kind of request.
pub open spec fn proof_failure(req_type: RequestType, text: String) -> RequestError {
    match req_type {
        RequestType::Range => RequestError::RangeProof(text),
        RequestType::Aggregation => RequestError::AggProof(text),
    }
}

/// The counter of the failures of the prover on a kind of request.
pub open spec fn proof_gauge(req_type: RequestType) -> ValidityGauge {
    match req_type {
        RequestType::Range => ValidityGauge::RangeProofRequestErrorCount,
        RequestType::Aggregation => ValidityGauge::AggProofRequestErrorCount,
    }
}

/// The failure of the execution for a kind of request.
pub open spec fn execution_failure(req_type: RequestType, text: String) -> RequestError {
    match req_type {
        RequestType::Range => RequestError::RangeExecution(text),
        RequestType::Aggregation => RequestError::AggExecution(text),
    }
}

/// The whole seconds in that many milliseconds.
pub open spec fn whole_seconds(elapsed_ms: u64) -> i64 {
    (elapsed_ms / 1000) as i64
}

/// The whole seconds in that many milliseconds.
fn seconds_of(elapsed_ms: u64) -> (r: i64)
    ensures
        r == whole_seconds(elapsed_ms),
        r == elapsed_ms / 1000,
{
    (elapsed_ms / 1000) as i64
}

impl OPSuccinctProofRequester {
    /// How the prover is set up for a kind of request.
    pub open spec fn plan(self, req_type: RequestType, mock: bool) -> ProverPlanView {
        ProverPlanView {
            elf_path: match req_type {
                RequestType::Range => self.program_config.range_elf_path@,
                RequestType::Aggregation => self.program_config.agg_elf_path@,
            },
            proving_key_path: match req_type {
                RequestType::Range => self.program_config.range_proving_key_path@,
                RequestType::Aggregation => self.program_config.agg_proving_key_path@,
            },
            output_dir: if mock {
                None
            } else {
                Some(self.output_dir@)
            },
            verify_constraints: mock,
            verify_proofs: !mock,
            aggregation: !mock,
            final_snark: !mock && req_type == RequestType::Aggregation,
        }
    }

    /// How the prover is set up: for a real proof it verifies and aggregates what it saves, and
    /// makes the final SNARK of an aggregation; for a mock proof it only checks the constraints.
    pub fn prover_plan(&self, req_type: RequestType, mock: bool) -> (r: ProverPlan)
        ensures
            r@ == self.plan(req_type, mock),
    {
        let (elf_path, proving_key_path) = match req_type {
            RequestType::Range => (
                self.program_config.range_elf_path.clone(),
                self.program_config.range_proving_key_path.clone(),
            ),
            RequestType::Aggregation => (
                self.program_config.agg_elf_path.clone(),
                self.program_config.agg_proving_key_path.clone(),
            ),
        };
        let output_dir = if mock {
            None
        } else {
            Some(self.output_dir.clone())
        };
        ProverPlan {
            elf_path,
            proving_key_path,
            output_dir,
            verify_constraints: mock,
            verify_proofs: !mock,
            aggregation: !mock,
            final_snark: !mock && req_type == RequestType::Aggregation,
        }
    }

    /// The steps of a proof: the prover is set up and run; where it fails, that is counted once
    /// before the failure is handed on; where it finishes with a proof, its words are the proof.
    pub open spec fn proof_request_is(
        self,
        r: RequestStep<ProofAction, Vec<u8>>,
        req_type: RequestType,
        a: ProofAnswers,
    ) -> bool {
        match a.reply {
            None => r matches RequestStep::Act(ProofAction::Prove(plan)) && plan@ == self.plan(
                req_type,
                false,
            ),
            Some(ProverReply::NotBuilt(text)) => r == RequestStep::<ProofAction, Vec<u8>>::Fail(
                RequestError::ProverNotBuilt(text),
            ),
            Some(ProverReply::Failed(text)) => r == if a.counted {
                RequestStep::<ProofAction, Vec<u8>>::Fail(proof_failure(req_type, text))
            } else {
                RequestStep::Act(ProofAction::Count(proof_gauge(req_type)))
            },
            Some(ProverReply::Finished(None)) => r == RequestStep::<ProofAction, Vec<u8>>::Fail(
                RequestError::NoProof,
            ),
            Some(ProverReply::Finished(Some(words))) => r matches RequestStep::Done(bytes)
                && bytes@ == words_as_bytes(words@),
        }
    }

    /// The steps of a proof of one kind.
    fn proof_request(&self, req_type: RequestType, answers: &ProofAnswers) -> (r: RequestStep<
        ProofAction,
        Vec<u8>,
    >)
        ensures
            self.proof_request_is(r, req_type, *answers),
    {
        match &answers.reply {
            None => RequestStep::Act(ProofAction::Prove(self.prover_plan(req_type, false))),
            Some(ProverReply::NotBuilt(text)) => RequestStep::Fail(
                RequestError::ProverNotBuilt(text.clone()),
            ),
            Some(ProverReply::Failed(text)) => {
                if answers.counted {
                    RequestStep::Fail(
                        match req_type {
                            RequestType::Range => RequestError::RangeProof(text.clone()),
                            RequestType::Aggregation => RequestError::AggProof(text.clone()),
                        },
                    )
                } else {
                    RequestStep::Act(
                        ProofAction::Count(
                            match req_type {
                                RequestType::Range => ValidityGauge::RangeProofRequestErrorCount,
                                RequestType::Aggregation =>
                                    ValidityGauge::AggProofRequestErrorCount,
                            },
                        ),
                    )
                }
            },
            Some(ProverReply::Finished(None)) => RequestStep::Fail(RequestError::NoProof),
            Some(ProverReply::Finished(Some(words))) => RequestStep::Done(proof_bytes(words)),
        }
    }

    /// The bytes of a range proof.
    pub fn request_range_proof(&self, answers: &ProofAnswers) -> (r: RequestStep<
        ProofAction,
        Vec<u8>,
    >)
        ensures
            self.proof_request_is(r, RequestType::Range, *answers),
    {
        self.proof_request(RequestType::Range, answers)
    }

    /// The bytes of an aggregation proof.
    pub fn request_agg_proof(&self, answers: &ProofAnswers) -> (r: RequestStep<
        ProofAction,
        Vec<u8>,
    >)
        ensures
            self.proof_request_is(r, RequestType::Aggregation, *answers),
    {
        self.proof_request(RequestType::Aggregation, answers)
    }

    /// The steps of a mock proof: the program is executed; where that fails, that is counted once
    /// before the failure is handed on, and nothing is recorded; where it finishes, its statistics
    /// are recorded for the request, and the proof is empty.
    pub open spec fn mock_proof_is(
        self,
        r: RequestStep<MockAction, Vec<u8>>,
        id: i64,
        req_type: RequestType,
        a: MockAnswers,
    ) -> bool {
        match a.reply {
            None => r matches RequestStep::Act(MockAction::Execute(plan)) && plan@ == self.plan(
                req_type,
                true,
            ),
            Some(ExecutionReply::NotBuilt(text)) => r == RequestStep::<MockAction, Vec<u8>>::Fail(
                RequestError::ProverNotBuilt(text),
            ),
            Some(ExecutionReply::Failed(text)) => r == if a.counted {
                RequestStep::<MockAction, Vec<u8>>::Fail(execution_failure(req_type, text))
            } else {
                RequestStep::Act(MockAction::Count(ValidityGauge::ExecutionErrorCount))
            },
            Some(ExecutionReply::Finished { statistics, elapsed_ms }) => match a.inserted {
                None => r == RequestStep::<MockAction, Vec<u8>>::Act(
                    MockAction::InsertStatistics {
                        id,
                        statistics,
                        seconds: whole_seconds(elapsed_ms),
                    },
                ),
                Some(Err(e)) => r == RequestStep::<MockAction, Vec<u8>>::Fail(
                    RequestError::Outside(e),
                ),
                Some(Ok(())) => r matches RequestStep::Done(bytes) && bytes@.len() == 0,
            },
        }
    }

    /// The steps of a mock proof of one kind.
    fn mock_proof(&self, id: i64, req_type: RequestType, answers: &MockAnswers) -> (r: RequestStep<
        MockAction,
        Vec<u8>,
    >)
        ensures
            self.mock_proof_is(r, id, req_type, *answers),
    {
        match &answers.reply {
            None => RequestStep::Act(MockAction::Execute(self.prover_plan(req_type, true))),
            Some(ExecutionReply::NotBuilt(text)) => RequestStep::Fail(
                RequestError::ProverNotBuilt(text.clone()),
            ),
            Some(ExecutionReply::Failed(text)) => {
                if answers.counted {
                    RequestStep::Fail(
                        match req_type {
                            RequestType::Range => RequestError::RangeExecution(text.clone()),
                            RequestType::Aggregation => RequestError::AggExecution(text.clone()),
                        },
                    )
                } else {
                    RequestStep::Act(MockAction::Count(ValidityGauge::ExecutionErrorCount))
                }
            },
            Some(ExecutionReply::Finished { statistics, elapsed_ms }) => match &answers.inserted {
                None => RequestStep::Act(
                    MockAction::InsertStatistics {
                        id,
                        statistics: statistics.clone(),
                        seconds: seconds_of(*elapsed_ms),
                    },
                ),
                Some(Err(e)) => RequestStep::Fail(RequestError::Outside(e.clone())),
                Some(Ok(())) => RequestStep::Done(Vec::new()),
            },
        }
    }

    /// A mock range proof: the range program is executed, and the statistics of the execution are
    /// recorded.
    pub fn generate_mock_range_proof(
        &self,
        request: &OPSuccinctRequest,
        answers: &MockAnswers,
    ) -> (r: RequestStep<MockAction, Vec<u8>>)
        ensures
            self.mock_proof_is(r, request.id, RequestType::Range, *answers),
    {
        self.mock_proof(request.id, RequestType::Range, answers)
    }

    /// A mock aggregation proof, likewise.
    pub fn generate_mock_agg_proof(
        &self,
        request: &OPSuccinctRequest,
        answers: &MockAnswers,
    ) -> (r: RequestStep<MockAction, Vec<u8>>)
        ensures
            self.mock_proof_is(r, request.id, RequestType::Aggregation, *answers),
    {
        self.mock_proof(request.id, RequestType::Aggregation, answers)
    }
}

/// The counter of failed proofs grows exactly where the prover fails, once, and before the failure
/// is handed on.
pub proof fn law_only_a_failed_prover_is_counted(
    requester: OPSuccinctProofRequester,
    r: RequestStep<ProofAction, Vec<u8>>,
    req_type: RequestType,
    a: ProofAnswers,
)
    requires
        requester.proof_request_is(r, req_type, a),
    ensures
        (r matches RequestStep::Act(ProofAction::Count(_))) <==> ((a.reply matches Some(
            ProverReply::Failed(_),
        )) && !a.counted),
        r matches RequestStep::Act(ProofAction::Count(gauge)) ==> gauge == proof_gauge(req_type),
        r is Fail && (a.reply matches Some(ProverReply::Failed(_))) ==> a.counted,
{
}

/// The prover is set up with the program and the key for the kind of request. A real proof is saved,
/// verified and aggregated, and a real aggregation ends with the final SNARK; a mock proof only
/// has its constraints checked.
pub proof fn law_prover_plan_goes_with_the_request(
    requester: OPSuccinctProofRequester,
    plan: ProverPlan,
    req_type: RequestType,
    mock: bool,
)
    requires
        plan@ == requester.plan(req_type, mock),
    ensures
        req_type == RequestType::Range ==> plan.elf_path@
            == requester.program_config.range_elf_path@ && plan.proving_key_path@
            == requester.program_config.range_proving_key_path@ && !plan.final_snark,
        req_type == RequestType::Aggregation ==> plan.elf_path@
            == requester.program_config.agg_elf_path@ && plan.proving_key_path@
            == requester.program_config.agg_proving_key_path@ && plan.final_snark == !mock,
        mock ==> plan.output_dir is None && plan.verify_constraints && !plan.verify_proofs
            && !plan.aggregation,
        !mock ==> (plan.output_dir matches Some(dir) && dir@ == requester.output_dir@)
            && !plan.verify_constraints && plan.verify_proofs && plan.aggregation,
{
}

/// A real proof is made with the programs for its kind of request. It is there exactly when the
/// prover finished with the words of a proof, and consists of their bytes, the lowest of each word
/// first. A failed prover, one that could not be set up and one without a proof are told apart.
pub proof fn law_proof_is_what_the_prover_made(
    requester: OPSuccinctProofRequester,
    r: RequestStep<ProofAction, Vec<u8>>,
    req_type: RequestType,
    a: ProofAnswers,
)
    requires
        requester.proof_request_is(r, req_type, a),
    ensures
        (r matches RequestStep::Act(ProofAction::Prove(_))) <==> a.reply is None,
        r matches RequestStep::Act(ProofAction::Prove(plan)) ==> plan@ == requester.plan(
            req_type,
            false,
        ),
        r matches RequestStep::Act(ProofAction::Count(gauge)) ==> gauge == match req_type {
            RequestType::Range => ValidityGauge::RangeProofRequestErrorCount,
            RequestType::Aggregation => ValidityGauge::AggProofRequestErrorCount,
        },
        r is Done <==> (a.reply matches Some(ProverReply::Finished(Some(_)))),
        r matches RequestStep::Done(bytes) ==> {
            let words = a.reply->0->Finished_0->0@;
            &&& bytes@.len() == 8 * words.len()
            &&& forall|i: int|
                0 <= i < words.len() ==> le_value(bytes@.subrange(8 * i, 8 * i + 8)) == (
                #[trigger] words[i])
        },
        r matches RequestStep::Fail(e) ==> match a.reply {
            Some(ProverReply::NotBuilt(text)) => e == RequestError::ProverNotBuilt(text),
            Some(ProverReply::Failed(text)) => e == match req_type {
                RequestType::Range => RequestError::RangeProof(text),
                RequestType::Aggregation => RequestError::AggProof(text),
            },
            Some(ProverReply::Finished(None)) => e == RequestError::NoProof,
            _ => false,
        },
{
    if let RequestStep::Done(bytes) = r {
        let words = a.reply->0->Finished_0->0@;
        lemma_words_as_bytes_len(words);
        assert forall|i: int| 0 <= i < words.len() implies le_value(
            bytes@.subrange(8 * i, 8 * i + 8),
        ) == (#[trigger] words[i]) by {
            law_proof_words_read_back(words, i);
        }
    }
}

/// A mock proof is made by executing the program for its kind of request; its statistics are
/// recorded as they are, with the whole seconds that it took; the proof is empty. A failed
/// execution, a prover that could not be set up and a failed record are told apart.
pub proof fn law_mock_proof_is_an_execution(
    requester: OPSuccinctProofRequester,
    r: RequestStep<MockAction, Vec<u8>>,
    id: i64,
    req_type: RequestType,
    a: MockAnswers,
)
    requires
        requester.mock_proof_is(r, id, req_type, a),
    ensures
        (r matches RequestStep::Act(MockAction::Execute(_))) <==> a.reply is None,
        r matches RequestStep::Act(MockAction::Execute(plan)) ==> plan@ == requester.plan(
            req_type,
            true,
        ),
        r matches RequestStep::Act(MockAction::InsertStatistics { id: for_id, statistics, seconds })
            ==> for_id == id && (a.reply matches Some(
            ExecutionReply::Finished { statistics: made, elapsed_ms },
        ) && statistics == made && seconds * 1000 <= elapsed_ms < (seconds + 1) * 1000),
        r is Done <==> (a.reply matches Some(ExecutionReply::Finished { .. })) && (
        a.inserted matches Some(Ok(_))),
        r matches RequestStep::Done(bytes) ==> bytes@.len() == 0,
        r matches RequestStep::Fail(e) ==> match a.reply {
            Some(ExecutionReply::NotBuilt(text)) => e == RequestError::ProverNotBuilt(text),
            Some(ExecutionReply::Failed(text)) => a.counted && e == match req_type {
                RequestType::Range => RequestError::RangeExecution(text),
                RequestType::Aggregation => RequestError::AggExecution(text),
            },
            Some(ExecutionReply::Finished { .. }) => e matches RequestError::Outside(cause)
                && a.inserted == Some(Err::<(), RpcError>(cause)),
            None => false,
        },
{
}

/// A mock proof records its statistics before it is done, for its own request and only where the
/// execution finished; a failed execution is counted once and records nothing.
pub proof fn law_mock_proof_records_its_statistics(
    requester: OPSuccinctProofRequester,
    r: RequestStep<MockAction, Vec<u8>>,
    id: i64,
    req_type: RequestType,
    a: MockAnswers,
)
    requires
        requester.mock_proof_is(r, id, req_type, a),
    ensures
        r is Done ==> (a.reply matches Some(ExecutionReply::Finished { .. })) && (
        a.inserted matches Some(Ok(_))),
        r matches RequestStep::Act(MockAction::InsertStatistics { id: for_id, .. }) ==> for_id == id
            && a.inserted is None && (a.reply matches Some(ExecutionReply::Finished { .. })),
        (r matches RequestStep::Act(MockAction::Count(_))) <==> ((a.reply matches Some(
            ExecutionReply::Failed(_),
        )) && !a.counted),
        r matches RequestStep::Act(MockAction::Count(gauge)) ==> gauge
            == ValidityGauge::ExecutionErrorCount,
{
}

/// What a [`ProverPlan`] holds.
pub ghost struct ProverPlanView {
    pub elf_path: Seq<char>,
    pub proving_key_path: Seq<char>,
    pub output_dir: Option<Seq<char>>,
    pub verify_constraints: bool,
    pub verify_proofs: bool,
    pub aggregation: bool,
    pub final_snark: bool,
}

impl View for ProverPlan {
    type V = ProverPlanView;

    open spec fn view(&self) -> ProverPlanView {
        ProverPlanView {
            elf_path: self.elf_path@,
            proving_key_path: self.proving_key_path@,
            output_dir: match self.output_dir {
                Some(dir) => Some(dir@),
                None => None,
            },
            verify_constraints: self.verify_constraints,
            verify_proofs: self.verify_proofs,
            aggregation: self.aggregation,
            final_snark: self.final_snark,
        }
    }
}

// ---------------------------------------------------------------------------------------------
// Carrying out a request
// ---------------------------------------------------------------------------------------------

/// What is done to carry out a request.
#[derive(Debug)]
pub enum RequestAction {
    /// Set the status of the request.
    UpdateStatus { id: i64, status: RequestStatus },
    /// Make the input of the program.
    GenerateStdin,
    /// Raise an error counter by one.
    Count(ValidityGauge),
    /// Record how many whole seconds that took.
    RecordWitnessDuration { id: i64, seconds: i64 },
    /// Make the proof, a real or a mock one.
    Prove { req_type: RequestType, mock: bool },
    /// Store the proof and mark the request as complete.
    Complete { id: i64, proof_bytes: Vec<u8> },
}

/// What has come of it so far.
#[derive(Debug)]
pub struct RequestProgress {
    pub witnessgen_marked: Option<Result<(), RpcError>>,
    /// How many milliseconds making the input took, or why it failed.
    pub stdin: Option<Result<u64, RequestError>>,
    /// That failure has been counted.
    pub witnessgen_error_counted: bool,
    pub duration_recorded: Option<Result<(), RpcError>>,
    pub execution_marked: Option<Result<(), RpcError>>,
    pub proved: Option<Result<Vec<u8>, RequestError>>,
    pub completed: Option<Result<(), RpcError>>,
}

impl RequestProgress {
    /// Nothing has been done yet.
    pub fn new() -> (r: RequestProgress)
        ensures
            r.witnessgen_marked is None,
            r.stdin is None,
            !r.witnessgen_error_counted,
            r.duration_recorded is None,
            r.execution_marked is None,
            r.proved is None,
            r.completed is None,
    {
        RequestProgress {
            witnessgen_marked: None,
            stdin: None,
            witnessgen_error_counted: false,
            duration_recorded: None,
            execution_marked: None,
            proved: None,
            completed: None,
        }
    }

    /// The action has been done.
    pub open spec fn has(self, action: RequestAction) -> bool {
        match action {
            RequestAction::UpdateStatus { id, status } => if status
                == RequestStatus::WitnessGeneration {
                self.witnessgen_marked is Some
            } else {
                self.execution_marked is Some
            },
            RequestAction::GenerateStdin => self.stdin is Some,
            RequestAction::Count(_) => self.witnessgen_error_counted,
            RequestAction::RecordWitnessDuration { id, seconds } => self.duration_recorded is Some,
            RequestAction::Prove { req_type, mock } => self.proved is Some,
            RequestAction::Complete { id, proof_bytes } => self.completed is Some,
        }
    }

    /// How many of the actions of a request have been done.
    pub open spec fn count(self) -> nat {
        let one = |done: bool|
            if done {
                1nat
            } else {
                0nat
            };
        one(self.witnessgen_marked is Some) + one(self.stdin is Some) + one(
            self.witnessgen_error_counted,
        ) + one(self.duration_recorded is Some) + one(self.execution_marked is Some) + one(self.proved is Some) + one(
            self.completed is Some,
        )
    }
}

/// The end of a request: the proof and what is stored of it.
pub open spec fn proof_step(
    request: OPSuccinctRequest,
    mock: bool,
    p: RequestProgress,
    r: RequestStep<RequestAction, ()>,
) -> bool {
    match (p.proved, p.completed) {
        (None, _) => r == RequestStep::<RequestAction, ()>::Act(
            RequestAction::Prove { req_type: request.req_type, mock },
        ),
        (Some(Err(e)), _) => r == RequestStep::<RequestAction, ()>::Fail(e),
        (Some(Ok(bytes)), None) => r matches RequestStep::Act(
            RequestAction::Complete { id, proof_bytes },
        ) && id == request.id && proof_bytes@ == bytes@,
        (Some(Ok(_)), Some(Err(e))) => r == RequestStep::<RequestAction, ()>::Fail(
            RequestError::Outside(e),
        ),
        (Some(Ok(_)), Some(Ok(()))) => r == RequestStep::<RequestAction, ()>::Done(()),
    }
}

/// The steps of a request, in order.
pub open spec fn request_step(
    request: OPSuccinctRequest,
    mock: bool,
    p: RequestProgress,
    r: RequestStep<RequestAction, ()>,
) -> bool {
    match (p.witnessgen_marked, p.stdin, p.duration_recorded) {
        (None, _, _) => r == RequestStep::<RequestAction, ()>::Act(
            RequestAction::UpdateStatus {
                id: request.id,
                status: RequestStatus::WitnessGeneration,
            },
        ),
        (Some(Err(e)), _, _) => r == RequestStep::<RequestAction, ()>::Fail(
            RequestError::Outside(e),
        ),
        (Some(Ok(())), None, _) => r == RequestStep::<RequestAction, ()>::Act(
            RequestAction::GenerateStdin,
        ),
        (Some(Ok(())), Some(Err(e)), _) => r == if p.witnessgen_error_counted {
            RequestStep::<RequestAction, ()>::Fail(e)
        } else {
            RequestStep::Act(RequestAction::Count(ValidityGauge::WitnessgenErrorCount))
        },
        (Some(Ok(())), Some(Ok(elapsed_ms)), None) => r == RequestStep::<RequestAction, ()>::Act(
            RequestAction::RecordWitnessDuration {
                id: request.id,
                seconds: whole_seconds(elapsed_ms),
            },
        ),
        (Some(Ok(())), Some(Ok(_)), Some(Err(e))) => r == RequestStep::<RequestAction, ()>::Fail(
            RequestError::Outside(e),
        ),
        (Some(Ok(())), Some(Ok(_)), Some(Ok(()))) => if !mock {
            proof_step(request, mock, p, r)
        } else {
            match p.execution_marked {
                None => r == RequestStep::<RequestAction, ()>::Act(
                    RequestAction::UpdateStatus {
                        id: request.id,
                        status: RequestStatus::Execution,
                    },
                ),
                Some(Err(e)) => r == RequestStep::<RequestAction, ()>::Fail(
                    RequestError::Outside(e),
                ),
                Some(Ok(())) => proof_step(request, mock, p, r),
            }
        },
    }
}

impl OPSuccinctProofRequester {
    /// Carries out a request: its status is set, the input of its program is made, and the proof
    /// is made and stored. A mock proof passes through the execution status. Any failure ends it.
    pub fn make_proof_request(&self, request: &OPSuccinctRequest, progress: &RequestProgress) -> (r:
        RequestStep<RequestAction, ()>)
        ensures
            request_step(*request, self.mock, *progress, r),
            r matches RequestStep::Act(RequestAction::Prove { req_type, mock }) ==> req_type
                == request.req_type && mock == self.mock,
    {
        match &progress.witnessgen_marked {
            None => {
                return RequestStep::Act(
                    RequestAction::UpdateStatus {
                        id: request.id,
                        status: RequestStatus::WitnessGeneration,
                    },
                );
            },
            Some(Err(e)) => {
                return RequestStep::Fail(RequestError::Outside(e.clone()));
            },
            Some(Ok(())) => {},
        }
        let elapsed_ms = match &progress.stdin {
            None => {
                return RequestStep::Act(RequestAction::GenerateStdin);
            },
            Some(Err(e)) => {
                if !progress.witnessgen_error_counted {
                    return RequestStep::Act(
                        RequestAction::Count(ValidityGauge::WitnessgenErrorCount),
                    );
                }
                return RequestStep::Fail(e.clone());
            },
            Some(Ok(elapsed_ms)) => *elapsed_ms,
        };
        match &progress.duration_recorded {
            None => {
                return RequestStep::Act(
                    RequestAction::RecordWitnessDuration {
                        id: request.id,
                        seconds: seconds_of(elapsed_ms),
                    },
                );
            },
            Some(Err(e)) => {
                return RequestStep::Fail(RequestError::Outside(e.clone()));
            },
            Some(Ok(())) => {},
        }
        if self.mock {
            match &progress.execution_marked {
                None => {
                    return RequestStep::Act(
                        RequestAction::UpdateStatus {
                            id: request.id,
                            status: RequestStatus::Execution,
                        },
                    );
                },
                Some(Err(e)) => {
                    return RequestStep::Fail(RequestError::Outside(e.clone()));
                },
                Some(Ok(())) => {},
            }
        }
        match &progress.proved {
            None => RequestStep::Act(
                RequestAction::Prove { req_type: request.req_type, mock: self.mock },
            ),
            Some(Err(e)) => RequestStep::Fail(e.clone()),
            Some(Ok(bytes)) => match &progress.completed {
                None => RequestStep::Act(
                    RequestAction::Complete { id: request.id, proof_bytes: bytes.clone() },
                ),
                Some(Err(e)) => RequestStep::Fail(RequestError::Outside(e.clone())),
                Some(Ok(())) => RequestStep::Done(()),
            },
        }
    }
}

/// No action of a request is done twice, so carrying it out ends.
pub proof fn law_request_action_is_new(
    request: OPSuccinctRequest,
    mock: bool,
    p: RequestProgress,
    r: RequestStep<RequestAction, ()>,
)
    requires
        request_step(request, mock, p, r),
    ensures
        r matches RequestStep::Act(action) ==> !p.has(action),
        r matches RequestStep::Act(action) ==> p.count() < 7,
{
}

/// Everything that is done to carry out a request is done for that request: its own status is set,
/// first to the making of its witness; its own kind of proof is made, real or mock as the requester
/// is; the duration is that of making its input, in whole seconds; and the proof that is stored for
/// it is the one that was made.
pub proof fn law_request_actions_are_about_the_request(
    request: OPSuccinctRequest,
    mock: bool,
    p: RequestProgress,
    r: RequestStep<RequestAction, ()>,
)
    requires
        request_step(request, mock, p, r),
    ensures
        r matches RequestStep::Act(RequestAction::UpdateStatus { id, status }) ==> {
            &&& id == request.id
            &&& p.witnessgen_marked is None ==> status == RequestStatus::WitnessGeneration
            &&& p.witnessgen_marked is Some ==> status == RequestStatus::Execution && mock
                && p.duration_recorded matches Some(Ok(_))
        },
        r matches RequestStep::Act(RequestAction::Count(gauge)) ==> gauge
            == ValidityGauge::WitnessgenErrorCount,
        r matches RequestStep::Act(RequestAction::RecordWitnessDuration { id, seconds }) ==> id
            == request.id && (p.stdin matches Some(Ok(ms)) && seconds * 1000 <= ms < (seconds + 1)
            * 1000),
        r matches RequestStep::Act(RequestAction::Prove { req_type, mock: as_mock }) ==> req_type
            == request.req_type && as_mock == mock && (p.stdin matches Some(Ok(_))) && (
        p.duration_recorded matches Some(Ok(_))),
        r matches RequestStep::Act(RequestAction::Complete { id, proof_bytes }) ==> id
            == request.id && (p.proved matches Some(Ok(bytes)) && proof_bytes@ == bytes@),
        r matches RequestStep::Fail(e) ==> {
            ||| p.stdin == Some(Err::<u64, RequestError>(e))
            ||| p.proved == Some(Err::<Vec<u8>, RequestError>(e))
            ||| (e matches RequestError::Outside(cause) && {
                ||| p.witnessgen_marked == Some(Err::<(), RpcError>(cause))
                ||| p.duration_recorded == Some(Err::<(), RpcError>(cause))
                ||| mock && p.execution_marked == Some(Err::<(), RpcError>(cause))
                ||| p.completed == Some(Err::<(), RpcError>(cause))
            })
        },
{
}

/// What is owed for a request is done one thing at a time, and nothing before its turn: the request
/// is marked, its input is made, the duration is recorded, a mock request is marked a second time,
/// the proof is made, and the proof is stored.
pub proof fn law_request_leaves_nothing_out(
    request: OPSuccinctRequest,
    mock: bool,
    p: RequestProgress,
    r: RequestStep<RequestAction, ()>,
)
    requires
        request_step(request, mock, p, r),
    ensures
        ({
            let marked = p.witnessgen_marked matches Some(Ok(_));
            let made = marked && (p.stdin matches Some(Ok(_)));
            let recorded = made && (p.duration_recorded matches Some(Ok(_)));
            let ready = recorded && (!mock || (p.execution_marked matches Some(Ok(_))));
            let proved = ready && (p.proved matches Some(Ok(_)));
            &&& (r matches RequestStep::Act(RequestAction::UpdateStatus { .. }))
                <==> p.witnessgen_marked is None || (recorded && mock && p.execution_marked is None)
            &&& (r matches RequestStep::Act(RequestAction::GenerateStdin)) <==> marked && p.stdin
                is None
            &&& (r matches RequestStep::Act(RequestAction::Count(_))) <==> marked && (
            p.stdin matches Some(Err(_))) && !p.witnessgen_error_counted
            &&& (r matches RequestStep::Act(RequestAction::RecordWitnessDuration { .. })) <==> made
                && p.duration_recorded is None
            &&& (r matches RequestStep::Act(RequestAction::Prove { .. })) <==> ready && p.proved
                is None
            &&& (r matches RequestStep::Act(RequestAction::Complete { .. })) <==> proved
                && p.completed is None
            &&& r is Done <==> proved && (p.completed matches Some(Ok(_)))
        }),
{
}

/// The first failure of a request ends it: nothing is done where one of its parts has failed and
/// those before it have not, except that a failed witness is counted first.
pub proof fn law_failed_part_ends_the_request(
    request: OPSuccinctRequest,
    mock: bool,
    p: RequestProgress,
    r: RequestStep<RequestAction, ()>,
)
    requires
        request_step(request, mock, p, r),
    ensures
        p.witnessgen_marked matches Some(Err(_)) ==> r is Fail,
        (p.witnessgen_marked matches Some(Ok(_))) && (p.stdin matches Some(Err(_)))
            && p.witnessgen_error_counted ==> r is Fail,
        (p.witnessgen_marked matches Some(Ok(_))) && (p.stdin matches Some(Ok(_))) && (
        p.duration_recorded matches Some(Err(_))) ==> r is Fail,
        (p.witnessgen_marked matches Some(Ok(_))) && (p.stdin matches Some(Ok(_))) && (
        p.duration_recorded matches Some(Ok(_))) && (!mock || (p.execution_marked matches Some(
            Ok(_),
        ))) && ((p.proved matches Some(Err(_))) || ((p.proved matches Some(Ok(_))) && (
        p.completed matches Some(Err(_))))) ==> r is Fail,
        (p.witnessgen_marked matches Some(Ok(_))) && (p.stdin matches Some(Ok(_))) && (
        p.duration_recorded matches Some(Ok(_))) && (!mock || (p.execution_marked matches Some(
            Ok(_),
        ))) ==> ((r matches RequestStep::Act(RequestAction::Prove { .. })) <==> p.proved is None)
            && ((r matches RequestStep::Act(RequestAction::Complete { .. })) <==> (
        p.proved matches Some(Ok(_))) && p.completed is None),
{
}

/// Where the input of a request cannot be made, that is counted once, the failure is handed on as
/// it is, and nothing is recorded, proved or stored; in no other case is anything counted.
pub proof fn law_failed_witness_is_counted(
    request: OPSuccinctRequest,
    mock: bool,
    p: RequestProgress,
    r: RequestStep<RequestAction, ()>,
)
    requires
        request_step(request, mock, p, r),
    ensures
        (p.witnessgen_marked matches Some(Ok(_))) && (p.stdin matches Some(Err(_))) ==> r == if
            p.witnessgen_error_counted {
            RequestStep::<RequestAction, ()>::Fail(p.stdin->0->Err_0)
        } else {
            RequestStep::Act(RequestAction::Count(ValidityGauge::WitnessgenErrorCount))
        },
        r matches RequestStep::Act(RequestAction::Count(_)) ==> p.stdin matches Some(Err(_)),
{
}

/// A request is complete only when its input was made, its proof was made and stored, and, for a
/// mock proof, when it passed through the execution status; a real one never does.
pub proof fn law_complete_request_has_a_proof(
    request: OPSuccinctRequest,
    mock: bool,
    p: RequestProgress,
    r: RequestStep<RequestAction, ()>,
)
    requires
        request_step(request, mock, p, r),
    ensures
        r is Done <==> {
            &&& p.witnessgen_marked matches Some(Ok(_))
            &&& p.stdin matches Some(Ok(_))
            &&& p.duration_recorded matches Some(Ok(_))
            &&& (mock ==> p.execution_marked matches Some(Ok(_)))
            &&& p.proved matches Some(Ok(_))
            &&& p.completed matches Some(Ok(_))
        },
        r matches RequestStep::Act(RequestAction::UpdateStatus { id, status }) ==> (status
            == RequestStatus::Execution ==> mock),
        r matches RequestStep::Act(RequestAction::Complete { id, proof_bytes }) ==> (p.proved
            matches Some(Ok(bytes)) && proof_bytes@ == bytes@),
{
}

} // verus!
