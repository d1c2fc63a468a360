use op_zisk::errors::FetchError;
use op_zisk::fetcher::OPZisKDataFetcher;
use op_zisk::stats::{
    aggregate_execution_stats, block_fees, BlockInfo, FeeData, Receipt, ZiskExecutionStatsRow,
};

fn receipts() -> Vec<Receipt> {
    vec![
        Receipt { effective_gas_price: 10, gas_used: 21000, l1_fee: Some(5) },
        Receipt { effective_gas_price: 0, gas_used: 1, l1_fee: None },
        Receipt { effective_gas_price: 3, gas_used: 7, l1_fee: Some(2) },
    ]
}

fn block(block_number: u64, transaction_count: u64) -> BlockInfo {
    BlockInfo {
        block_number,
        transaction_count,
        gas_used: 100 * block_number,
        total_l1_fees: 7,
        total_tx_fees: 11,
    }
}

#[test]
fn fees_add_up() {
    assert_eq!(block_fees(&receipts()), Some((7, 210_000 + 5 + 21 + 2)));
    assert_eq!(block_fees(&vec![]), Some((0, 0)));
}

#[test]
fn fees_too_large_to_write_are_none() {
    let big = Receipt { effective_gas_price: u128::MAX, gas_used: 1, l1_fee: None };
    assert_eq!(block_fees(&vec![big]), Some((0, u128::MAX)));
    let over = Receipt { effective_gas_price: u128::MAX, gas_used: 2, l1_fee: None };
    assert_eq!(block_fees(&vec![over]), None);
    let over = Receipt { effective_gas_price: u128::MAX, gas_used: 1, l1_fee: Some(1) };
    assert_eq!(block_fees(&vec![over]), None);
    let one = Receipt { effective_gas_price: 1, gas_used: 1, l1_fee: None };
    assert_eq!(block_fees(&vec![big, one]), None);
}

#[test]
fn block_keeps_its_sums() {
    let b = BlockInfo::new(9, 3, 21008, &receipts());
    assert_eq!((b.block_number, b.transaction_count, b.gas_used), (9, 3, 21008));
    assert_eq!((b.total_l1_fees, b.total_tx_fees), (7, 210_028));
    assert!(b.total_l1_fees <= b.total_tx_fees);
}

#[test]
fn block_data_leaves_out_the_start() {
    assert_eq!(OPZisKDataFetcher::block_data_numbers(5, 8), vec![6, 7, 8]);
    assert_eq!(OPZisKDataFetcher::block_data_numbers(8, 8).len(), 0);
    let data = OPZisKDataFetcher::get_l2_block_data_range(5, 7, &vec![Ok(block(6, 1)), Ok(block(7, 1))]);
    let numbers: Vec<u64> = data.unwrap().iter().map(|b| b.block_number).collect();
    assert_eq!(numbers, vec![6, 7]);
    let failed = vec![Ok(block(6, 1)), Err(FetchError::BlockNotFound(7))];
    let e = OPZisKDataFetcher::get_l2_block_data_range(5, 7, &failed).err().unwrap();
    assert!(matches!(e, FetchError::BlockNotFound(7)));
}

#[test]
fn row_counts_user_transactions() {
    let row = ZiskExecutionStatsRow::new(1, 3, &vec![block(2, 4), block(3, 1)], 999, 12);
    assert_eq!((row.batch_start, row.batch_end, row.nb_blocks), (1, 3, 2));
    assert_eq!(row.nb_transactions, 3);
    assert_eq!(row.eth_gas_used, 500);
    assert_eq!((row.total_l1_fees, row.total_tx_fees), (14, 22));
    assert_eq!((row.executed_steps, row.total_execution_time_sec), (999, 12));
    assert_eq!(row.witness_generation_time_sec, 0);
    let odd = ZiskExecutionStatsRow::new(1, 3, &vec![block(2, 0), block(3, 1)], 0, 0);
    assert_eq!(odd.nb_transactions, 0);
}

#[test]
fn aggregate_sums_its_rows() {
    let a = ZiskExecutionStatsRow::new(10, 12, &vec![block(11, 2), block(12, 3)], 100, 5);
    let b = ZiskExecutionStatsRow::new(4, 6, &vec![block(5, 2), block(6, 9)], 30, 7);
    let sum = aggregate_execution_stats(&vec![a, b], 77, 3);
    assert_eq!((sum.batch_start, sum.batch_end), (4, 12));
    assert_eq!(sum.nb_blocks, 4);
    assert_eq!(sum.nb_transactions, 3 + 9);
    assert_eq!(sum.eth_gas_used, 2300 + 1100);
    assert_eq!((sum.total_l1_fees, sum.total_tx_fees), (28, 44));
    assert_eq!(sum.executed_steps, 130);
    assert_eq!((sum.total_execution_time_sec, sum.witness_generation_time_sec), (77, 3));
}

#[test]
fn aggregate_of_nothing_spans_nothing() {
    let sum = aggregate_execution_stats(&vec![], 1, 2);
    assert_eq!((sum.batch_start, sum.batch_end), (u64::MAX, 0));
    assert_eq!((sum.nb_blocks, sum.executed_steps), (0, 0));
}

#[test]
fn aggregating_in_two_steps_changes_nothing() {
    let row = |k: u64| ZiskExecutionStatsRow::new(k, k + 1, &vec![block(k + 1, k + 1)], k, 0);
    let all = aggregate_execution_stats(&vec![row(3), row(1), row(2)], 9, 9);
    let first = aggregate_execution_stats(&vec![row(3), row(1)], 0, 0);
    let both = aggregate_execution_stats(&vec![first, row(2)], 9, 9);
    assert_eq!((all.batch_start, all.batch_end), (both.batch_start, both.batch_end));
    assert_eq!(all.nb_transactions, both.nb_transactions);
    assert_eq!(all.eth_gas_used, both.eth_gas_used);
    assert_eq!(all.executed_steps, both.executed_steps);
    assert_eq!(all.total_tx_fees, both.total_tx_fees);
}

#[test]
fn splitting_a_range_keeps_its_sums() {
    let blocks = vec![block(2, 4), block(3, 1), block(4, 6)];
    let whole = ZiskExecutionStatsRow::new(1, 4, &blocks, 0, 0);
    let left = ZiskExecutionStatsRow::new(1, 2, &blocks[..1].to_vec(), 0, 0);
    let right = ZiskExecutionStatsRow::new(2, 4, &blocks[1..].to_vec(), 0, 0);
    let sum = aggregate_execution_stats(&vec![left, right], 0, 0);
    assert_eq!(whole.nb_transactions, sum.nb_transactions);
    assert_eq!(whole.eth_gas_used, sum.eth_gas_used);
    assert_eq!((sum.batch_start, sum.batch_end), (1, 4));
}

#[test]
fn fee_data_holds_its_fields() {
    let fee = FeeData {
        block_number: 1,
        tx_index: 2,
        tx_hash: [3; 32],
        l1_gas_cost: [4; 32],
        tx_fee: 5,
    };
    assert_eq!((fee.block_number, fee.tx_index, fee.tx_fee), (1, 2, 5));
    assert_eq!((fee.tx_hash, fee.l1_gas_cost), ([3; 32], [4; 32]));
}
