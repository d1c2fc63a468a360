use op_zisk::artifacts::{
    boot_info_file, elf_path, execute_blocks_and_write_stats_csv, get_rolling_block_range,
    proof_directory, proof_file, proof_stem, proving_key_path, report_needs_header, report_path,
    requested_range, saved_input, split_range_based_on_safe_heads, split_range_basic,
    witness_lib_path, ExecutionOutcome, MissingOption, RequestedRange, DEFAULT_AGG_ELF,
    DEFAULT_RANGE_ELF,
};
use op_zisk::stats::BlockInfo;

fn set(text: &str) -> Option<String> {
    Some(text.to_string())
}

#[test]
fn program_path_has_three_sources() {
    assert_eq!(elf_path(&set("a"), &set("b"), "c"), "a");
    assert_eq!(elf_path(&None, &set("b"), "c"), "b");
    assert_eq!(elf_path(&None, &None, DEFAULT_RANGE_ELF), "target/riscv64ima-zisk-zkvm-elf/release/range");
    assert_eq!(
        elf_path(&None, &None, DEFAULT_AGG_ELF),
        "target/riscv64ima-zisk-zkvm-elf/release/aggregation"
    );
}

#[test]
fn proving_key_is_at_home_by_default() {
    assert_eq!(proving_key_path(&set("a"), &set("b"), &set("/h")), "a");
    assert_eq!(proving_key_path(&None, &set("b"), &set("/h")), "b");
    assert_eq!(proving_key_path(&None, &None, &set("/h")), "/h/.zisk/provingKey");
    assert_eq!(proving_key_path(&None, &None, &None), "~/.zisk/provingKey");
}

#[test]
fn witness_library_goes_with_the_system() {
    assert_eq!(witness_lib_path(&set("a"), &set("/h"), false), set("a"));
    assert_eq!(
        witness_lib_path(&None, &set("/h"), false),
        set("/h/.zisk/bin/libzisk_witness.so")
    );
    assert_eq!(
        witness_lib_path(&None, &set("/h"), true),
        set("/h/.zisk/bin/libzisk_witness.dylib")
    );
    assert_eq!(witness_lib_path(&None, &None, true), None);
}

#[test]
fn proofs_are_named_after_their_range() {
    assert_eq!(proof_stem(105, 115), "105-115");
    let dir = proof_directory(10, "range");
    assert_eq!(dir, "data/10/proofs/range");
    assert_eq!(proof_file(&dir, "105-115"), "data/10/proofs/range/105-115.bin");
    assert_eq!(boot_info_file(&dir, "105-115"), "data/10/proofs/range/105-115.bootinfo.json");
    assert_eq!(proof_file(&proof_directory(10, "agg"), "agg"), "data/10/proofs/agg/agg.bin");
    assert_eq!(proof_file(&dir, "/tmp/105-115"), "/tmp/105-115.bin");
}

#[test]
fn stems_of_different_ranges_differ() {
    let mut stems = vec![];
    for start in 0..30u64 {
        for end in 0..30u64 {
            stems.push(proof_stem(start, end));
        }
    }
    stems.sort();
    stems.dedup();
    assert_eq!(stems.len(), 900);
}

#[test]
fn reports_are_named_after_their_range() {
    assert_eq!(report_path("/w", 10, 1, 9), "/w/execution-reports/10/1-9-report.csv");
    assert!(report_needs_header(0));
    assert!(!report_needs_header(1));
}

#[test]
fn row_is_written_for_an_executed_range() {
    let data = vec![BlockInfo {
        block_number: 2,
        transaction_count: 5,
        gas_used: 6,
        total_l1_fees: 7,
        total_tx_fees: 8,
    }];
    let row = |outcome| execute_blocks_and_write_stats_csv(1, 2, &data, outcome);
    assert!(row(ExecutionOutcome::NoProver).is_none());
    assert!(row(ExecutionOutcome::Failed).is_none());
    let r = row(ExecutionOutcome::Executed { executed_steps: 100, duration_s: 3 }).unwrap();
    assert_eq!((r.batch_start, r.batch_end, r.nb_blocks, r.nb_transactions), (1, 2, 1, 4));
    assert_eq!((r.eth_gas_used, r.total_l1_fees, r.total_tx_fees), (6, 7, 8));
    assert_eq!((r.executed_steps, r.total_execution_time_sec), (100, 3));
}

#[test]
fn saved_input_has_a_header() {
    assert_eq!(saved_input(&vec![4, 5]), vec![2, 0, 0, 0, 0, 0, 0, 0, 4, 5]);
}

#[test]
fn latest_blocks_win_over_given_ones() {
    assert_eq!(requested_range(Some(3), Some(1), None), Ok(RequestedRange::Last(3)));
    assert_eq!(requested_range(None, Some(1), Some(2)), Ok(RequestedRange::Blocks { start: 1, end: 2 }));
    assert_eq!(requested_range(None, None, Some(2)), Err(MissingOption::Start));
    assert_eq!(requested_range(None, Some(1), None), Err(MissingOption::End));
    assert_eq!(
        MissingOption::Start.message(),
        "--start is required when --last is not provided"
    );
    assert_eq!(MissingOption::End.message(), "--end is required when --last is not provided");
}

#[test]
fn rolling_range_ends_with_the_latest_block() {
    assert_eq!(get_rolling_block_range(100, 5), (95, 100));
    assert_eq!(get_rolling_block_range(3, 5), (0, 3));
    assert_eq!(get_rolling_block_range(5, 5), (0, 5));
}

#[test]
fn ranges_are_split_without_a_gap() {
    assert_eq!(split_range_basic(0, 10, 4), vec![(0, 4), (4, 8), (8, 10)]);
    assert_eq!(split_range_basic(3, 7, 2), vec![(3, 5), (5, 7)]);
    assert_eq!(split_range_basic(3, 4, 100), vec![(3, 4)]);
    assert_eq!(split_range_basic(4, 4, 1).len(), 0);
    assert_eq!(split_range_basic(5, 4, 1).len(), 0);
    assert_eq!(
        split_range_basic(u64::MAX - 1, u64::MAX, u64::MAX),
        vec![(u64::MAX - 1, u64::MAX)]
    );
    for n in 1..=10u64 {
        let within = |p: &&(u64, u64)| p.0 < n && n <= p.1;
        assert_eq!(split_range_basic(0, 10, 3).iter().filter(within).count(), 1);
    }
}

#[test]
fn pieces_end_at_the_safe_heads() {
    let split = |start, end, size, heads: &[u64]| {
        split_range_based_on_safe_heads(start, end, size, &heads.to_vec())
    };
    assert_eq!(split(0, 10, 4, &[3, 9, 12]), vec![(0, 3), (3, 7), (7, 9), (9, 10)]);
    assert_eq!(split(0, 10, 4, &[9, 3, 3]), vec![(0, 3), (3, 7), (7, 9), (9, 10)]);
    assert_eq!(split(5, 10, 100, &[2, 5, 10, 11]), vec![(5, 10)]);
    assert_eq!(split(0, 10, 4, &[]), split_range_basic(0, 10, 4));
    assert_eq!(split(4, 4, 1, &[4]).len(), 0);
    assert_eq!(
        split(u64::MAX - 2, u64::MAX, u64::MAX, &[u64::MAX - 1]),
        vec![(u64::MAX - 2, u64::MAX - 1), (u64::MAX - 1, u64::MAX)]
    );
    for n in 1..=10u64 {
        let within = |p: &&(u64, u64)| p.0 < n && n <= p.1;
        assert_eq!(split(0, 10, 3, &[4, 5]).iter().filter(within).count(), 1);
    }
}

#[test]
fn large_statistics_do_not_matter_without_an_execution() {
    let block = BlockInfo {
        block_number: 1,
        transaction_count: u64::MAX,
        gas_used: u64::MAX,
        total_l1_fees: u128::MAX,
        total_tx_fees: u128::MAX,
    };
    let data = vec![block, block];
    assert!(execute_blocks_and_write_stats_csv(1, 2, &data, ExecutionOutcome::Failed).is_none());
}
