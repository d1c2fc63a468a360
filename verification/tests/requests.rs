use op_zisk::encoding::b256_to_u32x8_be;
use op_zisk::errors::FetchError;
use op_zisk::host::DataAvailability;
use op_zisk::proving::get_agg_proof_stdin;
use op_zisk::requests::{
    get_zisk_stdin, AggWitnessAction, CommitmentConfig, ExecutionReply, ExecutionStatus,
    FailureAction, FailureAnswers, MockAction, MockAnswers, OPSuccinctProofRequester,
    OPSuccinctRequest, ProgramConfig, ProofAction, ProofAnswers, ProverReply, RangeProofRecord,
    RangeWitnessAction, RangeWitnessAnswers, RequestAction, RequestError, RequestMode,
    RequestProgress, RequestStatus, RequestStep, RequestType, StdinPlan, ValidityGauge,
};
use op_zisk::rpc::RpcError;
use op_zisk::types::{BootInfoStruct, Header};

const COMMITMENT: [u8; 32] = [
    0, 1, 2, 3, 4, 5, 6, 7, 8, 9, 10, 11, 12, 13, 14, 15, 16, 17, 18, 19, 20, 21, 22, 23, 24, 25,
    26, 27, 28, 29, 30, 31,
];

fn error(text: &str) -> RpcError {
    RpcError { summary: text.to_string(), chain: text.to_string(), debug: text.to_string() }
}

fn requester(mock: bool) -> OPSuccinctProofRequester {
    OPSuccinctProofRequester::new(
        DataAvailability::Celestia,
        ProgramConfig {
            range_elf_path: "range".to_string(),
            range_proving_key_path: "range-key".to_string(),
            agg_elf_path: "agg".to_string(),
            agg_proving_key_path: "agg-key".to_string(),
            commitments: CommitmentConfig {
                range_vkey_commitment: COMMITMENT,
                agg_vkey_hash: [0x22; 32],
                rollup_config_hash: [0x23; 32],
            },
        },
        mock,
        true,
        60,
        "out".to_string(),
    )
}

fn request(req_type: RequestType, start_block: i64, end_block: i64) -> OPSuccinctRequest {
    OPSuccinctRequest {
        id: 17,
        mode: RequestMode::Real,
        req_type,
        start_block,
        end_block,
        l1_chain_id: 1,
        l2_chain_id: 10,
        rollup_config_hash: vec![4; 32],
        checkpointed_l1_block_hash: None,
        prover_address: None,
        proof_bytes: Some(vec![1]),
    }
}

fn failed(count: i64) -> FailureAnswers {
    FailureAnswers {
        status_updated: Some(Ok(())),
        l1_chain_id: Some(Ok(100)),
        l2_chain_id: Some(Ok(200)),
        failed_count: Some(Ok(count)),
        inserted: None,
    }
}

fn handle(r: &OPSuccinctRequest, a: &FailureAnswers) -> RequestStep<FailureAction, ()> {
    requester(false).handle_failed_request(r, ExecutionStatus::Other, a)
}

#[test]
fn failed_request_is_marked_first() {
    let r = request(RequestType::Range, 10, 20);
    let none = FailureAnswers {
        status_updated: None,
        l1_chain_id: None,
        l2_chain_id: None,
        failed_count: None,
        inserted: None,
    };
    assert!(matches!(
        handle(&r, &none),
        RequestStep::Act(FailureAction::UpdateStatus { id: 17, status: RequestStatus::Failed })
    ));
    let a = FailureAnswers { status_updated: Some(Ok(())), ..none };
    assert!(matches!(handle(&r, &a), RequestStep::Act(FailureAction::L1ChainId)));
    let a = FailureAnswers { l1_chain_id: Some(Ok(100)), ..a };
    assert!(matches!(handle(&r, &a), RequestStep::Act(FailureAction::L2ChainId)));
    let a = FailureAnswers { l2_chain_id: Some(Ok(200)), ..a };
    assert!(matches!(
        handle(&r, &a),
        RequestStep::Act(FailureAction::FailedCount {
            start_block: 10,
            end_block: 20,
            l1_chain_id: 1,
            l2_chain_id: 10,
            commitments
        }) if commitments.range_vkey_commitment == COMMITMENT
    ));
    let single = request(RequestType::Range, 10, 11);
    assert!(matches!(handle(&single, &a), RequestStep::Done(())));
    let agg = request(RequestType::Aggregation, 10, 20);
    assert!(matches!(handle(&agg, &a), RequestStep::Done(())));
}

#[test]
fn range_is_split_after_three_failures() {
    let r = request(RequestType::Range, 10, 21);
    assert!(matches!(handle(&r, &failed(2)), RequestStep::Done(())));
    match handle(&r, &failed(3)) {
        RequestStep::Act(FailureAction::Insert { first, second }) => {
            assert_eq!((first.start_block, first.end_block), (10, 15));
            assert_eq!((second.start_block, second.end_block), (15, 21));
            assert_eq!((first.l1_chain_id, first.l2_chain_id), (100, 200));
            assert_eq!(first.range_vkey_commitment, COMMITMENT);
            assert_eq!(second.rollup_config_hash, [0x23; 32]);
            assert_eq!(first.mode, RequestMode::Real);
        }
        other => panic!("{other:?}"),
    }
    let done = FailureAnswers { inserted: Some(Ok(())), ..failed(3) };
    assert!(matches!(handle(&r, &done), RequestStep::Done(())));
}

#[test]
fn unexecutable_range_is_split_at_once() {
    let r = request(RequestType::Range, 0, 2);
    let status = ExecutionStatus::Unexecutable;
    match requester(false).handle_failed_request(&r, status, &failed(1)) {
        RequestStep::Act(FailureAction::Insert { first, second }) => {
            assert_eq!((first.start_block, first.end_block), (0, 1));
            assert_eq!((second.start_block, second.end_block), (1, 2));
        }
        other => panic!("{other:?}"),
    }
}

#[test]
fn range_is_split_where_rust_splits_it() {
    for (start, end) in [(0i64, 2i64), (1, 4), (-5, -2), (-2, 1), (-3, 4), (7, 1000)] {
        match handle(&request(RequestType::Range, start, end), &failed(9)) {
            RequestStep::Act(FailureAction::Insert { first, second }) => {
                assert_eq!(first.end_block, (start + end) / 2);
                assert_eq!(second.start_block, (start + end) / 2);
                assert!(first.start_block < first.end_block);
                assert!(second.start_block < second.end_block);
            }
            other => panic!("{other:?}"),
        }
    }
}

#[test]
fn unsplit_failure_adds_nothing_however_large_its_blocks_are() {
    let (start, end) = (i64::MAX - 9, i64::MAX);
    let range = request(RequestType::Range, start, end);
    assert!(matches!(handle(&range, &failed(2)), RequestStep::Done(())));
    for count in [0, 3, i64::MAX] {
        let agg = request(RequestType::Aggregation, start, end);
        assert!(matches!(handle(&agg, &failed(count)), RequestStep::Done(())));
        let short = request(RequestType::Range, end - 1, end);
        assert!(matches!(handle(&short, &failed(count)), RequestStep::Done(())));
        let unexecutable = ExecutionStatus::Unexecutable;
        let step = requester(false).handle_failed_request(&agg, unexecutable, &failed(count));
        assert!(matches!(step, RequestStep::Done(())));
    }
    let unmarked = FailureAnswers { status_updated: None, ..failed(3) };
    assert!(matches!(
        handle(&range, &unmarked),
        RequestStep::Act(FailureAction::UpdateStatus { id: 17, status: RequestStatus::Failed })
    ));
}

#[test]
fn failures_while_handling_a_failure_are_passed_on() {
    let r = request(RequestType::Range, 10, 21);
    let text = |a: FailureAnswers| match handle(&r, &a) {
        RequestStep::Fail(e) => e.message(),
        other => panic!("{other:?}"),
    };
    assert_eq!(text(FailureAnswers { status_updated: Some(Err(error("a"))), ..failed(3) }), "a");
    assert_eq!(text(FailureAnswers { l1_chain_id: Some(Err(error("b"))), ..failed(3) }), "b");
    assert_eq!(text(FailureAnswers { l2_chain_id: Some(Err(error("c"))), ..failed(3) }), "c");
    assert_eq!(text(FailureAnswers { failed_count: Some(Err(error("d"))), ..failed(3) }), "d");
    assert_eq!(text(FailureAnswers { inserted: Some(Err(error("e"))), ..failed(3) }), "e");
}

#[test]
fn cancelled_request_is_marked() {
    let r = request(RequestType::Range, 10, 21);
    let handle = OPSuccinctProofRequester::handle_cancelled_request;
    assert!(matches!(
        handle(&r, &None),
        RequestStep::Act(FailureAction::UpdateStatus { id: 17, status: RequestStatus::Cancelled })
    ));
    assert!(matches!(handle(&r, &Some(Ok(()))), RequestStep::Done(())));
    assert!(matches!(handle(&r, &Some(Err(error("x")))), RequestStep::Fail(_)));
}

#[test]
fn range_witness_records_its_l1_head() {
    let r = request(RequestType::Range, 10, 21);
    let step = |a: &RangeWitnessAnswers| requester(false).range_proof_witnessgen(&r, a);
    let mut a = RangeWitnessAnswers { l1_head: None, l1_header: None, recorded: None, witness: None };
    assert!(matches!(
        step(&a),
        RequestStep::Act(RangeWitnessAction::FetchHostArgs {
            start_block: 10,
            end_block: 21,
            safe_db_fallback: true
        })
    ));
    a.l1_head = Some(Ok(Some([5; 32])));
    assert!(matches!(step(&a), RequestStep::Act(RangeWitnessAction::L1Header(h)) if h == [5; 32]));
    a.l1_header = Some(Ok(Header { number: 88, timestamp: 0, rlp: vec![] }));
    assert!(matches!(
        step(&a),
        RequestStep::Act(RangeWitnessAction::RecordL1Head { id: 17, number: 88 })
    ));
    a.recorded = Some(Ok(()));
    assert!(matches!(step(&a), RequestStep::Act(RangeWitnessAction::RunHost)));
    a.witness = Some(Ok(vec![6]));
    assert!(matches!(step(&a), RequestStep::Done(s) if s == vec![1, 0, 0, 0, 0, 0, 0, 0, 6]));
    a.witness = Some(Err(error("w")));
    assert!(matches!(step(&a), RequestStep::Fail(e) if e.message() == "w"));
    a.recorded = Some(Err(error("r")));
    assert!(matches!(step(&a), RequestStep::Fail(e) if e.message() == "r"));
    a.l1_header = Some(Err(FetchError::L2HeadNotFound));
    assert!(matches!(step(&a), RequestStep::Fail(RequestError::Fetch(_))));
    a.l1_head = Some(Ok(None));
    assert!(matches!(step(&a), RequestStep::Fail(e) if e.message() == "w"));
    a.l1_head = Some(Err(FetchError::L2HeadNotFound));
    assert!(matches!(step(&a), RequestStep::Fail(e) if e.message() == "Failed to get L2 head"));
}

#[test]
fn witness_is_framed_for_its_program() {
    let framed = vec![1, 0, 0, 0, 0, 0, 0, 0, 9];
    assert_eq!(get_zisk_stdin(DataAvailability::Ethereum, &vec![9]), framed);
    assert_eq!(get_zisk_stdin(DataAvailability::Celestia, &vec![9]), framed);
    assert_eq!(get_zisk_stdin(DataAvailability::EigenDa, &vec![9]), framed);
}

fn stored() -> BootInfoStruct {
    BootInfoStruct {
        l1Head: [1; 32],
        l2PreRoot: [2; 32],
        l2PostRoot: [3; 32],
        l2BlockNumber: 21,
        rollupConfigHash: [4; 32],
    }
}

fn record(stored_boot_info: Option<BootInfoStruct>) -> RangeProofRecord {
    RangeProofRecord {
        request: request(RequestType::Range, 10, 21),
        stored_boot_info,
        l1_block: None,
    }
}

#[test]
fn stored_boot_info_is_used() {
    let b = OPSuccinctProofRequester::boot_info_of(&record(Some(stored()))).unwrap();
    assert_eq!(b.l2PostRoot, [3; 32]);
}

#[test]
fn boot_info_is_reconstructed_without_roots() {
    let mut r = record(None);
    assert_eq!(OPSuccinctProofRequester::boot_info_of(&r).err(), Some(10));
    r.l1_block = Some(Ok(Some([9; 32])));
    let b = OPSuccinctProofRequester::boot_info_of(&r).unwrap();
    assert_eq!((b.l1Head, b.l2PreRoot, b.l2PostRoot), ([9; 32], [0; 32], [0; 32]));
    assert_eq!((b.l2BlockNumber, b.rollupConfigHash), (21, [4; 32]));
    r.request.checkpointed_l1_block_hash = Some(vec![8; 32]);
    assert_eq!(OPSuccinctProofRequester::boot_info_of(&r).unwrap().l1Head, [8; 32]);
}

#[test]
fn boot_info_without_an_l1_head_is_zero() {
    let mut r = record(None);
    for reply in [Ok(None), Err(error("down"))] {
        r.l1_block = Some(reply);
        let b = OPSuccinctProofRequester::boot_info_of(&r).unwrap();
        assert_eq!((b.l1Head, b.l2BlockNumber), ([0; 32], 21));
    }
    let reconstruct = OPSuccinctProofRequester::reconstruct_boot_info_from_range;
    match reconstruct(&r.request, &Some(Ok(None))) {
        RequestStep::Fail(e) => assert_eq!(e.message(), "L1 block not found"),
        other => panic!("{other:?}"),
    }
}

fn header(number: u64) -> Header {
    let h = alloy_consensus::Header { number, ..Default::default() };
    Header { number, timestamp: 0, rlp: alloy_rlp::encode(&h) }
}

#[test]
fn aggregation_witness_is_built_from_its_records() {
    let mut records = vec![record(Some(stored())), record(None)];
    let step = |records: &Vec<_>, headers: &Option<_>| {
        requester(false).agg_proof_witnessgen(records, headers, [7; 32], [8; 20])
    };
    assert!(matches!(
        step(&records, &None),
        RequestStep::Act(AggWitnessAction::L1Block { index: 1, number: 10 })
    ));
    records[1].l1_block = Some(Ok(Some([9; 32])));
    let infos = match step(&records, &None) {
        RequestStep::Act(AggWitnessAction::HeaderPreimages(infos)) => infos,
        other => panic!("{other:?}"),
    };
    assert_eq!((infos.len(), infos[0].l1Head, infos[1].l1Head), (2, [1; 32], [9; 32]));
    let headers = vec![header(1), header(2)];
    let expected = get_agg_proof_stdin(
        &vec![],
        infos,
        &headers,
        b256_to_u32x8_be(COMMITMENT),
        [7; 32],
        [8; 20],
    )
    .unwrap();
    match step(&records, &Some(Ok(headers))) {
        RequestStep::Done(stdin) => {
            assert_eq!(stdin, expected);
            let vkey = 8 + 8 + 2 * 168 + 40;
            assert_eq!(stdin[vkey..vkey + 8], [3, 2, 1, 0, 7, 6, 5, 4]);
        }
        other => panic!("{other:?}"),
    }
    match step(&records, &Some(Err(FetchError::L2HeadNotFound))) {
        RequestStep::Fail(e) => assert_eq!(e.message(), "Failed to get header preimages"),
        other => panic!("{other:?}"),
    }
    let bad = Some(Ok(vec![Header { number: 1, timestamp: 0, rlp: vec![0] }]));
    match step(&records, &bad) {
        RequestStep::Fail(e) => assert_eq!(e.message(), "Failed to get agg proof stdin"),
        other => panic!("{other:?}"),
    }
}

#[test]
fn aggregation_needs_a_checkpoint_and_a_prover() {
    let requester = requester(false);
    let plan = |r: &OPSuccinctRequest| requester.generate_proof_stdin(r);
    assert!(matches!(plan(&request(RequestType::Range, 1, 2)), Ok(StdinPlan::Range)));
    let mut r = request(RequestType::Aggregation, 1, 2);
    assert_eq!(
        plan(&r).err().unwrap().message(),
        "Aggregation proof has no checkpointed block."
    );
    r.checkpointed_l1_block_hash = Some(vec![5; 32]);
    assert_eq!(
        plan(&r).err().unwrap().message(),
        "Prover address must be set for aggregation proofs."
    );
    r.prover_address = Some(vec![6; 20]);
    match plan(&r).unwrap() {
        StdinPlan::Aggregation {
            start_block,
            end_block,
            checkpointed_l1_block_hash,
            l1_chain_id,
            l2_chain_id,
            prover_address,
            commitments,
        } => {
            assert_eq!(commitments.rollup_config_hash, [0x23; 32]);
            assert_eq!((start_block, end_block, l1_chain_id, l2_chain_id), (1, 2, 1, 10));
            assert_eq!((checkpointed_l1_block_hash, prover_address), ([5; 32], [6; 20]));
        }
        other => panic!("{other:?}"),
    }
}

#[test]
fn prover_is_set_up_for_its_request() {
    let range = requester(false).prover_plan(RequestType::Range, false);
    assert_eq!((range.elf_path.as_str(), range.proving_key_path.as_str()), ("range", "range-key"));
    assert_eq!(range.output_dir.as_deref(), Some("out"));
    assert!(range.verify_proofs && range.aggregation && !range.final_snark);
    assert!(!range.verify_constraints);
    let agg = requester(false).prover_plan(RequestType::Aggregation, false);
    assert_eq!((agg.elf_path.as_str(), agg.proving_key_path.as_str()), ("agg", "agg-key"));
    assert!(agg.final_snark);
    let mock = requester(true).prover_plan(RequestType::Aggregation, true);
    assert!(mock.verify_constraints && mock.output_dir.is_none());
    assert!(!mock.verify_proofs && !mock.aggregation && !mock.final_snark);
}

fn proof_step(
    req_type: RequestType,
    reply: Option<ProverReply>,
    counted: bool,
) -> RequestStep<ProofAction, Vec<u8>> {
    let answers = ProofAnswers { reply, counted };
    match req_type {
        RequestType::Range => requester(false).request_range_proof(&answers),
        RequestType::Aggregation => requester(false).request_agg_proof(&answers),
    }
}

fn failure<P: std::fmt::Debug>(step: RequestStep<P, Vec<u8>>) -> String {
    match step {
        RequestStep::Fail(e) => e.message(),
        other => panic!("{other:?}"),
    }
}

#[test]
fn proofs_are_bytes() {
    for kind in [RequestType::Range, RequestType::Aggregation] {
        match proof_step(kind, None, false) {
            RequestStep::Act(ProofAction::Prove(plan)) => {
                assert_eq!(plan.final_snark, kind == RequestType::Aggregation);
                assert!(plan.verify_proofs);
            }
            other => panic!("{other:?}"),
        }
        let words = Some(ProverReply::Finished(Some(vec![1, 2])));
        match proof_step(kind, words, false) {
            RequestStep::Done(bytes) => {
                assert_eq!(bytes, vec![1, 0, 0, 0, 0, 0, 0, 0, 2, 0, 0, 0, 0, 0, 0, 0])
            }
            other => panic!("{other:?}"),
        }
        let not_built = Some(ProverReply::NotBuilt("k".to_string()));
        assert_eq!(failure(proof_step(kind, not_built, false)), "Failed to build ZisK prover: k");
        let none = Some(ProverReply::Finished(None));
        assert_eq!(failure(proof_step(kind, none, false)), "Proof generation returned no proof");
    }
}

#[test]
fn failed_prover_is_counted_once() {
    let failed = || Some(ProverReply::Failed("p".to_string()));
    assert!(matches!(
        proof_step(RequestType::Range, failed(), false),
        RequestStep::Act(ProofAction::Count(ValidityGauge::RangeProofRequestErrorCount))
    ));
    assert!(matches!(
        proof_step(RequestType::Aggregation, failed(), false),
        RequestStep::Act(ProofAction::Count(ValidityGauge::AggProofRequestErrorCount))
    ));
    assert_eq!(
        failure(proof_step(RequestType::Range, failed(), true)),
        "Failed to generate range proof: p"
    );
    assert_eq!(
        failure(proof_step(RequestType::Aggregation, failed(), true)),
        "Failed to generate aggregation proof: p"
    );
}

fn mock_step(req_type: RequestType, answers: &MockAnswers) -> RequestStep<MockAction, Vec<u8>> {
    let r = request(req_type, 1, 2);
    match req_type {
        RequestType::Range => requester(true).generate_mock_range_proof(&r, answers),
        RequestType::Aggregation => requester(true).generate_mock_agg_proof(&r, answers),
    }
}

#[test]
fn mock_proof_records_its_statistics() {
    for kind in [RequestType::Range, RequestType::Aggregation] {
        let mut a = MockAnswers { reply: None, counted: false, inserted: None };
        assert!(matches!(
            mock_step(kind, &a),
            RequestStep::Act(MockAction::Execute(plan)) if plan.verify_constraints
        ));
        a.reply = Some(ExecutionReply::Finished {
            statistics: "{}".to_string(),
            elapsed_ms: 3999,
        });
        assert!(matches!(
            mock_step(kind, &a),
            RequestStep::Act(MockAction::InsertStatistics { id: 17, statistics, seconds: 3 })
                if statistics == "{}"
        ));
        a.inserted = Some(Ok(()));
        assert!(matches!(mock_step(kind, &a), RequestStep::Done(bytes) if bytes.is_empty()));
        a.inserted = Some(Err(error("db")));
        assert_eq!(failure(mock_step(kind, &a)), "db");
        a.reply = Some(ExecutionReply::NotBuilt("k".to_string()));
        assert_eq!(failure(mock_step(kind, &a)), "Failed to build ZisK prover: k");
    }
}

#[test]
fn failed_execution_is_counted_once() {
    let mut a = MockAnswers {
        reply: Some(ExecutionReply::Failed("x".to_string())),
        counted: false,
        inserted: None,
    };
    for kind in [RequestType::Range, RequestType::Aggregation] {
        assert!(matches!(
            mock_step(kind, &a),
            RequestStep::Act(MockAction::Count(ValidityGauge::ExecutionErrorCount))
        ));
    }
    a.counted = true;
    assert_eq!(
        failure(mock_step(RequestType::Range, &a)),
        "Failed to execute range program: x"
    );
    assert_eq!(
        failure(mock_step(RequestType::Aggregation, &a)),
        "Failed to execute aggregation program: x"
    );
}

#[test]
fn failed_witness_is_counted_once() {
    let r = request(RequestType::Range, 1, 2);
    let mut p = RequestProgress::new();
    p.witnessgen_marked = Some(Ok(()));
    p.stdin = Some(Err(RequestError::NoCheckpoint));
    assert!(matches!(
        requester(false).make_proof_request(&r, &p),
        RequestStep::Act(RequestAction::Count(ValidityGauge::WitnessgenErrorCount))
    ));
    p.witnessgen_error_counted = true;
    assert!(matches!(
        requester(false).make_proof_request(&r, &p),
        RequestStep::Fail(RequestError::NoCheckpoint)
    ));
}

fn carry_out(mock: bool) -> Vec<String> {
    let r = request(RequestType::Range, 1, 2);
    let mut p = RequestProgress::new();
    let mut log = vec![];
    loop {
        match requester(mock).make_proof_request(&r, &p) {
            RequestStep::Act(action) => {
                log.push(format!("{action:?}"));
                match action {
                    RequestAction::UpdateStatus { status, .. } => match status {
                        RequestStatus::WitnessGeneration => p.witnessgen_marked = Some(Ok(())),
                        _ => p.execution_marked = Some(Ok(())),
                    },
                    RequestAction::GenerateStdin => p.stdin = Some(Ok(5999)),
                    RequestAction::Count(_) => p.witnessgen_error_counted = true,
                    RequestAction::RecordWitnessDuration { .. } => p.duration_recorded = Some(Ok(())),
                    RequestAction::Prove { .. } => p.proved = Some(Ok(vec![9])),
                    RequestAction::Complete { .. } => p.completed = Some(Ok(())),
                }
            }
            RequestStep::Done(()) => return log,
            RequestStep::Fail(e) => panic!("{}", e.message()),
        }
    }
}

#[test]
fn real_request_takes_five_steps() {
    assert_eq!(
        carry_out(false),
        vec![
            "UpdateStatus { id: 17, status: WitnessGeneration }",
            "GenerateStdin",
            "RecordWitnessDuration { id: 17, seconds: 5 }",
            "Prove { req_type: Range, mock: false }",
            "Complete { id: 17, proof_bytes: [9] }",
        ]
    );
}

#[test]
fn mock_request_passes_through_execution() {
    assert_eq!(
        carry_out(true),
        vec![
            "UpdateStatus { id: 17, status: WitnessGeneration }",
            "GenerateStdin",
            "RecordWitnessDuration { id: 17, seconds: 5 }",
            "UpdateStatus { id: 17, status: Execution }",
            "Prove { req_type: Range, mock: true }",
            "Complete { id: 17, proof_bytes: [9] }",
        ]
    );
}

#[test]
fn any_failure_ends_a_request() {
    let r = request(RequestType::Range, 1, 2);
    let full = || RequestProgress {
        witnessgen_marked: Some(Ok(())),
        stdin: Some(Ok(1000)),
        witnessgen_error_counted: true,
        duration_recorded: Some(Ok(())),
        execution_marked: Some(Ok(())),
        proved: Some(Ok(vec![])),
        completed: Some(Ok(())),
    };
    let text = |p: RequestProgress| match requester(true).make_proof_request(&r, &p) {
        RequestStep::Fail(e) => e.message(),
        other => panic!("{other:?}"),
    };
    assert_eq!(text(RequestProgress { witnessgen_marked: Some(Err(error("a"))), ..full() }), "a");
    let no = RequestError::NoCheckpoint;
    assert!(text(RequestProgress { stdin: Some(Err(no)), ..full() }).contains("checkpoint"));
    assert_eq!(text(RequestProgress { duration_recorded: Some(Err(error("b"))), ..full() }), "b");
    assert_eq!(text(RequestProgress { execution_marked: Some(Err(error("c"))), ..full() }), "c");
    let none = RequestError::NoProof;
    assert!(text(RequestProgress { proved: Some(Err(none)), ..full() }).contains("no proof"));
    assert_eq!(text(RequestProgress { completed: Some(Err(error("d"))), ..full() }), "d");
    assert!(matches!(requester(true).make_proof_request(&r, &full()), RequestStep::Done(())));
}
