//! Statistics of blocks and of the runs over them.

use crate::encoding::B256;
use crate::errors::FetchError;
use crate::fetcher::OPZisKDataFetcher;
use crate::headers::{
    all_ok, first_failure, inclusive, inclusive_len, inclusive_numbers, is_first_failure,
};
use vstd::prelude::*;

verus! {

// ---------------------------------------------------------------------------------------------
// Sums
// ---------------------------------------------------------------------------------------------

/// The sum of `f` over `s`.
pub open spec fn total<T>(s: Seq<T>, f: spec_fn(T) -> nat) -> nat
    decreases s.len(),
{
    if s.len() == 0 {
        0
    } else {
        total(s.drop_last(), f) + f(s.last())
    }
}

/// A sum over a prefix is no greater than the whole, and grows by one term at a time.
pub proof fn lemma_total_take<T>(s: Seq<T>, f: spec_fn(T) -> nat, i: int)
    requires
        0 <= i < s.len(),
    ensures
        total(s.take(i + 1), f) == total(s.take(i), f) + f(s[i]),
        total(s.take(i + 1), f) <= total(s, f),
    decreases s.len() - i,
{
    assert(s.take(i + 1).drop_last() == s.take(i));
    assert(s.take(i + 1).last() == s[i]);
    if i + 1 < s.len() {
        lemma_total_take(s, f, i + 1);
    } else {
        assert(s.take(i + 1) == s);
    }
}

/// The sum over two parts is the sum of their sums.
pub proof fn lemma_total_concat<T>(a: Seq<T>, b: Seq<T>, f: spec_fn(T) -> nat)
    ensures
        total(a + b, f) == total(a, f) + total(b, f),
    decreases b.len(),
{
    if b.len() == 0 {
        assert(a + b == a);
    } else {
        assert((a + b).drop_last() == a + b.drop_last());
        assert((a + b).last() == b.last());
        lemma_total_concat(a, b.drop_last(), f);
    }
}

proof fn lemma_total_le<T>(s: Seq<T>, f: spec_fn(T) -> nat, g: spec_fn(T) -> nat)
    requires
        forall|i: int| 0 <= i < s.len() ==> f(#[trigger] s[i]) <= g(s[i]),
    ensures
        total(s, f) <= total(s, g),
    decreases s.len(),
{
    if s.len() > 0 {
        assert forall|i: int| 0 <= i < s.drop_last().len() implies f(#[trigger] s.drop_last()[i])
            <= g(s.drop_last()[i]) by {
            assert(s.drop_last()[i] == s[i]);
        }
        lemma_total_le(s.drop_last(), f, g);
        assert(f(s[s.len() - 1]) <= g(s[s.len() - 1]));
    }
}

// ---------------------------------------------------------------------------------------------
// Blocks
// ---------------------------------------------------------------------------------------------

/// What is kept of a block.
#[derive(Clone, Copy, Debug)]
pub struct BlockInfo {
    pub block_number: u64,
    pub transaction_count: u64,
    pub gas_used: u64,
    pub total_l1_fees: u128,
    pub total_tx_fees: u128,
}

/// The fees of a transaction.
#[derive(Clone, Copy, Debug)]
pub struct FeeData {
    pub block_number: u64,
    pub tx_index: u64,
    pub tx_hash: B256,
    /// A 256-bit number, highest byte first.
    pub l1_gas_cost: B256,
    pub tx_fee: u128,
}

/// What the fees are taken from, in the receipt of a transaction.
#[derive(Clone, Copy, Debug)]
pub struct Receipt {
    pub effective_gas_price: u128,
    pub gas_used: u64,
    pub l1_fee: Option<u128>,
}

impl Receipt {
    /// The fee for posting the transaction to L1; none counts as zero.
    pub open spec fn l1(self) -> nat {
        match self.l1_fee {
            Some(fee) => fee as nat,
            None => 0,
        }
    }

    /// The whole fee: gas at its price, and the fee for L1.
    pub open spec fn fee(self) -> nat {
        (self.effective_gas_price * self.gas_used) as nat + self.l1()
    }
}

/// The L1 fees of the transactions.
pub open spec fn l1_fees(receipts: Seq<Receipt>) -> nat {
    total(receipts, |r: Receipt| r.l1())
}

/// The whole fees of the transactions.
pub open spec fn tx_fees(receipts: Seq<Receipt>) -> nat {
    total(receipts, |r: Receipt| r.fee())
}

proof fn lemma_fee_parts(r: Receipt)
    ensures
        r.l1() <= r.fee(),
        r.effective_gas_price * r.gas_used >= 0,
{
    assert(r.effective_gas_price * r.gas_used >= 0) by (nonlinear_arith);
}

/// The L1 fees are part of the whole fees.
pub proof fn law_l1_fees_are_part_of_the_fees(receipts: Seq<Receipt>)
    ensures
        l1_fees(receipts) <= tx_fees(receipts),
{
    let f = |r: Receipt| r.l1();
    let g = |r: Receipt| r.fee();
    assert forall|i: int| 0 <= i < receipts.len() implies f(#[trigger] receipts[i]) <= g(
        receipts[i],
    ) by {
        lemma_fee_parts(receipts[i]);
    }
    lemma_total_le(receipts, f, g);
}

/// A transaction costs its gas at its price and the fee for L1, which is nothing where there is
/// none; and the transactions of a block cost what they cost one by one. So the fees of a block
/// without its L1 fees are the sum of price times gas.
pub proof fn law_fees_are_gas_at_its_price_and_the_l1_fee(receipts: Seq<Receipt>, r: Receipt)
    ensures
        l1_fees(Seq::<Receipt>::empty()) == 0,
        tx_fees(Seq::<Receipt>::empty()) == 0,
        r.l1_fee is None ==> l1_fees(receipts.push(r)) == l1_fees(receipts),
        r.l1_fee matches Some(fee) ==> l1_fees(receipts.push(r)) == l1_fees(receipts) + fee,
        r.l1_fee is None ==> tx_fees(receipts.push(r)) == tx_fees(receipts) + r.effective_gas_price
            * r.gas_used,
        r.l1_fee matches Some(fee) ==> tx_fees(receipts.push(r)) == tx_fees(receipts)
            + r.effective_gas_price * r.gas_used + fee,
        tx_fees(receipts.push(r)) - l1_fees(receipts.push(r)) == tx_fees(receipts) - l1_fees(
            receipts,
        ) + r.effective_gas_price * r.gas_used,
        r.l1_fee is None ==> tx_fees(seq![r]) == r.effective_gas_price * r.gas_used,
        r.l1_fee matches Some(fee) ==> tx_fees(seq![r]) == r.effective_gas_price * r.gas_used + fee,
{
    lemma_fee_parts(r);
    assert(receipts.push(r).drop_last() == receipts);
    assert(seq![r].drop_last() == Seq::<Receipt>::empty());
    assert(seq![r].last() == r);
    reveal_with_fuel(total, 2);
}

/// In whatever order the receipts of a block come in two parts, its fees are those of the parts.
pub proof fn law_fees_add_up(a: Seq<Receipt>, b: Seq<Receipt>)
    ensures
        l1_fees(a + b) == l1_fees(a) + l1_fees(b),
        tx_fees(a + b) == tx_fees(a) + tx_fees(b),
{
    lemma_total_concat(a, b, |r: Receipt| r.l1());
    lemma_total_concat(a, b, |r: Receipt| r.fee());
}

/// The L1 fees and the whole fees of the transactions; `None` where they are too large to write.
pub fn block_fees(receipts: &Vec<Receipt>) -> (r: Option<(u128, u128)>)
    ensures
        match r {
            Some((l1, fees)) => l1 == l1_fees(receipts@) && fees == tx_fees(receipts@),
            None => tx_fees(receipts@) > u128::MAX,
        },
{
    let ghost f = |r: Receipt| r.l1();
    let ghost g = |r: Receipt| r.fee();
    let mut l1: u128 = 0;
    let mut fees: u128 = 0;
    let mut i: usize = 0;
    while i < receipts.len()
        invariant
            i <= receipts.len(),
            f == (|r: Receipt| r.l1()),
            g == (|r: Receipt| r.fee()),
            l1 == total(receipts@.take(i as int), f),
            fees == total(receipts@.take(i as int), g),
        decreases receipts.len() - i,
    {
        let receipt = receipts[i];
        proof {
            lemma_total_take(receipts@, f, i as int);
            lemma_total_take(receipts@, g, i as int);
            lemma_fee_parts(receipt);
            law_l1_fees_are_part_of_the_fees(receipts@.take(i + 1));
        }
        let l1_fee: u128 = match receipt.l1_fee {
            Some(fee) => fee,
            None => 0,
        };
        let gas_fee = match receipt.effective_gas_price.checked_mul(receipt.gas_used as u128) {
            Some(fee) => fee,
            None => {
                return None;
            },
        };
        let fee = match gas_fee.checked_add(l1_fee) {
            Some(fee) => fee,
            None => {
                return None;
            },
        };
        fees = match fees.checked_add(fee) {
            Some(sum) => sum,
            None => {
                return None;
            },
        };
        assert(l1 + l1_fee == total(receipts@.take(i + 1), f));
        l1 = l1 + l1_fee;
        i += 1;
    }
    assert(receipts@.take(i as int) == receipts@);
    Some((l1, fees))
}

impl BlockInfo {
    /// What is kept of a block with that many transactions, that gas and those receipts.
    pub fn new(
        block_number: u64,
        transaction_count: u64,
        gas_used: u64,
        receipts: &Vec<Receipt>,
    ) -> (r: BlockInfo)
        requires
            tx_fees(receipts@) <= u128::MAX,
        ensures
            r.block_number == block_number,
            r.transaction_count == transaction_count,
            r.gas_used == gas_used,
            r.total_l1_fees == l1_fees(receipts@),
            r.total_tx_fees == tx_fees(receipts@),
    {
        let (total_l1_fees, total_tx_fees) = match block_fees(receipts) {
            Some(fees) => fees,
            None => (0, 0),
        };
        BlockInfo { block_number, transaction_count, gas_used, total_l1_fees, total_tx_fees }
    }
}

impl OPZisKDataFetcher {
    /// The numbers of the blocks whose data a range takes: the first block of the range is only
    /// what the proof starts from.
    pub fn block_data_numbers(start: u64, end: u64) -> (r: Vec<u64>)
        requires
            start < u64::MAX,
            inclusive_len(start + 1, end as int) <= usize::MAX,
        ensures
            r@ == inclusive(start + 1, end as int),
    {
        inclusive_numbers(start + 1, end)
    }

    /// The data of the blocks of a range, from the results for each of them in this order; the
    /// first failure where one failed.
    pub fn get_l2_block_data_range(
        start: u64,
        end: u64,
        results: &Vec<Result<BlockInfo, FetchError>>,
    ) -> (r: Result<Vec<BlockInfo>, FetchError>)
        requires
            results.len() == inclusive_len(start + 1, end as int),
        ensures
            match r {
                Ok(data) => all_ok(results@) && data.len() == inclusive_len(start + 1, end as int)
                    && forall|i: int|
                    0 <= i < data.len() ==> #[trigger] data[i] == results[i]->Ok_0,
                Err(e) => is_first_failure(results@, e),
            },
    {
        if let Some(e) = first_failure(results) {
            return Err(e);
        }
        let mut data: Vec<BlockInfo> = Vec::new();
        let mut i: usize = 0;
        while i < results.len()
            invariant
                all_ok(results@),
                i <= results.len(),
                data.len() == i,
                forall|j: int| 0 <= j < i ==> #[trigger] data[j] == results[j]->Ok_0,
            decreases results.len() - i,
        {
            assert(results@[i as int] is Ok);
            if let Ok(info) = &results[i] {
                data.push(*info);
            }
            i += 1;
        }
        Ok(data)
    }
}

/// The blocks whose data a range takes are those behind its first block, up to its last one.
pub proof fn law_block_data_leaves_out_the_start(start: u64, end: u64, n: u64)
    ensures
        inclusive(start + 1, end as int).contains(n) <==> start < n <= end,
{
    let numbers = inclusive(start + 1, end as int);
    if start < n <= end {
        assert(numbers[n - start - 1] == n);
    }
}

// ---------------------------------------------------------------------------------------------
// Runs
// ---------------------------------------------------------------------------------------------

/// The statistics of a run over a range of blocks, without the averages.
#[derive(Clone, Copy, Debug)]
pub struct ZiskExecutionStatsRow {
    pub batch_start: u64,
    pub batch_end: u64,
    pub nb_blocks: u64,
    pub nb_transactions: u64,
    pub eth_gas_used: u64,
    pub total_l1_fees: u128,
    pub total_tx_fees: u128,
    pub executed_steps: u64,
    pub total_execution_time_sec: u64,
    pub witness_generation_time_sec: u64,
}

/// The sums over the blocks of a range.
pub ghost struct BlockSums {
    pub transactions: nat,
    pub gas: nat,
    pub l1_fees: nat,
    pub tx_fees: nat,
}

/// The sums over `blocks`.
pub open spec fn block_sums(blocks: Seq<BlockInfo>) -> BlockSums {
    BlockSums {
        transactions: total(blocks, |b: BlockInfo| b.transaction_count as nat),
        gas: total(blocks, |b: BlockInfo| b.gas_used as nat),
        l1_fees: total(blocks, |b: BlockInfo| b.total_l1_fees as nat),
        tx_fees: total(blocks, |b: BlockInfo| b.total_tx_fees as nat),
    }
}

impl BlockSums {
    /// The sums are small enough to be written.
    pub open spec fn fit(self) -> bool {
        self.transactions <= u64::MAX && self.gas <= u64::MAX && self.l1_fees <= u128::MAX
            && self.tx_fees <= u128::MAX
    }
}

/// The transactions of users: every block also holds one of the system, which does not count.
pub open spec fn user_transactions(blocks: Seq<BlockInfo>) -> nat {
    let all = block_sums(blocks).transactions;
    if all >= blocks.len() {
        (all - blocks.len()) as nat
    } else {
        0
    }
}

impl ZiskExecutionStatsRow {
    /// The statistics of a run over the blocks of a range.
    pub fn new(
        batch_start: u64,
        batch_end: u64,
        block_data: &Vec<BlockInfo>,
        executed_steps: u64,
        total_execution_time_sec: u64,
    ) -> (r: ZiskExecutionStatsRow)
        requires
            block_sums(block_data@).fit(),
        ensures
            r.batch_start == batch_start,
            r.batch_end == batch_end,
            r.nb_blocks == block_data.len(),
            r.nb_transactions == user_transactions(block_data@),
            r.eth_gas_used == block_sums(block_data@).gas,
            r.total_l1_fees == block_sums(block_data@).l1_fees,
            r.total_tx_fees == block_sums(block_data@).tx_fees,
            r.executed_steps == executed_steps,
            r.total_execution_time_sec == total_execution_time_sec,
            r.witness_generation_time_sec == 0,
    {
        let ghost f = |b: BlockInfo| b.transaction_count as nat;
        let ghost g = |b: BlockInfo| b.gas_used as nat;
        let ghost h = |b: BlockInfo| b.total_l1_fees as nat;
        let ghost k = |b: BlockInfo| b.total_tx_fees as nat;
        let mut transactions: u64 = 0;
        let mut gas: u64 = 0;
        let mut l1: u128 = 0;
        let mut fees: u128 = 0;
        let mut i: usize = 0;
        while i < block_data.len()
            invariant
                i <= block_data.len(),
                block_sums(block_data@).fit(),
                f == (|b: BlockInfo| b.transaction_count as nat),
                g == (|b: BlockInfo| b.gas_used as nat),
                h == (|b: BlockInfo| b.total_l1_fees as nat),
                k == (|b: BlockInfo| b.total_tx_fees as nat),
                transactions == total(block_data@.take(i as int), f),
                gas == total(block_data@.take(i as int), g),
                l1 == total(block_data@.take(i as int), h),
                fees == total(block_data@.take(i as int), k),
            decreases block_data.len() - i,
        {
            proof {
                lemma_total_take(block_data@, f, i as int);
                lemma_total_take(block_data@, g, i as int);
                lemma_total_take(block_data@, h, i as int);
                lemma_total_take(block_data@, k, i as int);
            }
            transactions = transactions + block_data[i].transaction_count;
            gas = gas + block_data[i].gas_used;
            l1 = l1 + block_data[i].total_l1_fees;
            fees = fees + block_data[i].total_tx_fees;
            i += 1;
        }
        assert(block_data@.take(i as int) == block_data@);
        let nb_blocks: u64 = block_data.len() as u64;
        ZiskExecutionStatsRow {
            batch_start,
            batch_end,
            nb_blocks,
            nb_transactions: transactions.saturating_sub(nb_blocks),
            eth_gas_used: gas,
            total_l1_fees: l1,
            total_tx_fees: fees,
            executed_steps,
            total_execution_time_sec,
            witness_generation_time_sec: 0,
        }
    }
}

/// A block adds its transactions, its gas and its fees to the sums, and all but one of its
/// transactions to those of users; nothing adds up to nothing.
pub proof fn law_block_adds_what_it_holds(blocks: Seq<BlockInfo>, b: BlockInfo)
    ensures
        ({
            let none = block_sums(Seq::<BlockInfo>::empty());
            let before = block_sums(blocks);
            let after = block_sums(blocks.push(b));
            &&& none.transactions == 0 && none.gas == 0 && none.l1_fees == 0 && none.tx_fees == 0
            &&& after.transactions == before.transactions + b.transaction_count
            &&& after.gas == before.gas + b.gas_used
            &&& after.l1_fees == before.l1_fees + b.total_l1_fees
            &&& after.tx_fees == before.tx_fees + b.total_tx_fees
            &&& user_transactions(Seq::<BlockInfo>::empty()) == 0
            &&& before.transactions >= blocks.len() && b.transaction_count >= 1
                ==> user_transactions(blocks.push(b)) == user_transactions(blocks)
                + b.transaction_count - 1
            &&& before.transactions >= blocks.len() ==> user_transactions(blocks) + blocks.len()
                == before.transactions
            &&& before.transactions < blocks.len() ==> user_transactions(blocks) == 0
        }),
{
    assert(blocks.push(b).drop_last() == blocks);
}

/// The sums of the blocks of a run can be written where each of them fits its field, and only
/// there.
pub proof fn law_sums_fit_iff(blocks: Seq<BlockInfo>, rows: Seq<ZiskExecutionStatsRow>)
    ensures
        block_sums(blocks).fit() <==> {
            &&& block_sums(blocks).transactions <= u64::MAX
            &&& block_sums(blocks).gas <= u64::MAX
            &&& block_sums(blocks).l1_fees <= u128::MAX
            &&& block_sums(blocks).tx_fees <= u128::MAX
        },
        run_sums(rows).fit() <==> {
            &&& run_sums(rows).blocks <= u64::MAX
            &&& run_sums(rows).transactions <= u64::MAX
            &&& run_sums(rows).gas <= u64::MAX
            &&& run_sums(rows).l1_fees <= u128::MAX
            &&& run_sums(rows).tx_fees <= u128::MAX
            &&& run_sums(rows).steps <= u64::MAX
        },
{
}

/// The earliest start of the ranges.
pub open spec fn earliest_start(rows: Seq<ZiskExecutionStatsRow>) -> u64
    decreases rows.len(),
{
    if rows.len() == 0 {
        u64::MAX
    } else if rows.last().batch_start < earliest_start(rows.drop_last()) {
        rows.last().batch_start
    } else {
        earliest_start(rows.drop_last())
    }
}

/// The latest end of the ranges.
pub open spec fn latest_end(rows: Seq<ZiskExecutionStatsRow>) -> u64
    decreases rows.len(),
{
    if rows.len() == 0 {
        0
    } else if rows.last().batch_end > latest_end(rows.drop_last()) {
        rows.last().batch_end
    } else {
        latest_end(rows.drop_last())
    }
}

/// The sums over runs.
pub ghost struct RunSums {
    pub blocks: nat,
    pub transactions: nat,
    pub gas: nat,
    pub l1_fees: nat,
    pub tx_fees: nat,
    pub steps: nat,
}

/// The sums over `rows`.
pub open spec fn run_sums(rows: Seq<ZiskExecutionStatsRow>) -> RunSums {
    RunSums {
        blocks: total(rows, |r: ZiskExecutionStatsRow| r.nb_blocks as nat),
        transactions: total(rows, |r: ZiskExecutionStatsRow| r.nb_transactions as nat),
        gas: total(rows, |r: ZiskExecutionStatsRow| r.eth_gas_used as nat),
        l1_fees: total(rows, |r: ZiskExecutionStatsRow| r.total_l1_fees as nat),
        tx_fees: total(rows, |r: ZiskExecutionStatsRow| r.total_tx_fees as nat),
        steps: total(rows, |r: ZiskExecutionStatsRow| r.executed_steps as nat),
    }
}

impl RunSums {
    /// The sums are small enough to be written.
    pub open spec fn fit(self) -> bool {
        self.blocks <= u64::MAX && self.transactions <= u64::MAX && self.gas <= u64::MAX
            && self.l1_fees <= u128::MAX && self.tx_fees <= u128::MAX && self.steps <= u64::MAX
    }
}

/// The statistics of several runs as those of one: sums over all of them, from the earliest start
/// to the latest end, with the given times.
pub fn aggregate_execution_stats(
    execution_stats: &Vec<ZiskExecutionStatsRow>,
    total_execution_time_sec: u64,
    witness_generation_time_sec: u64,
) -> (r: ZiskExecutionStatsRow)
    requires
        run_sums(execution_stats@).fit(),
    ensures
        r.batch_start == earliest_start(execution_stats@),
        r.batch_end == latest_end(execution_stats@),
        r.nb_blocks == run_sums(execution_stats@).blocks,
        r.nb_transactions == run_sums(execution_stats@).transactions,
        r.eth_gas_used == run_sums(execution_stats@).gas,
        r.total_l1_fees == run_sums(execution_stats@).l1_fees,
        r.total_tx_fees == run_sums(execution_stats@).tx_fees,
        r.executed_steps == run_sums(execution_stats@).steps,
        r.total_execution_time_sec == total_execution_time_sec,
        r.witness_generation_time_sec == witness_generation_time_sec,
{
    let ghost rows = execution_stats@;
    let ghost f1 = |r: ZiskExecutionStatsRow| r.nb_blocks as nat;
    let ghost f2 = |r: ZiskExecutionStatsRow| r.nb_transactions as nat;
    let ghost f3 = |r: ZiskExecutionStatsRow| r.eth_gas_used as nat;
    let ghost f4 = |r: ZiskExecutionStatsRow| r.total_l1_fees as nat;
    let ghost f5 = |r: ZiskExecutionStatsRow| r.total_tx_fees as nat;
    let ghost f6 = |r: ZiskExecutionStatsRow| r.executed_steps as nat;
    let mut sum = ZiskExecutionStatsRow {
        batch_start: u64::MAX,
        batch_end: 0,
        nb_blocks: 0,
        nb_transactions: 0,
        eth_gas_used: 0,
        total_l1_fees: 0,
        total_tx_fees: 0,
        executed_steps: 0,
        total_execution_time_sec,
        witness_generation_time_sec,
    };
    let mut i: usize = 0;
    while i < execution_stats.len()
        invariant
            i <= execution_stats.len(),
            rows == execution_stats@,
            run_sums(rows).fit(),
            f1 == (|r: ZiskExecutionStatsRow| r.nb_blocks as nat),
            f2 == (|r: ZiskExecutionStatsRow| r.nb_transactions as nat),
            f3 == (|r: ZiskExecutionStatsRow| r.eth_gas_used as nat),
            f4 == (|r: ZiskExecutionStatsRow| r.total_l1_fees as nat),
            f5 == (|r: ZiskExecutionStatsRow| r.total_tx_fees as nat),
            f6 == (|r: ZiskExecutionStatsRow| r.executed_steps as nat),
            sum.batch_start == earliest_start(rows.take(i as int)),
            sum.batch_end == latest_end(rows.take(i as int)),
            sum.nb_blocks == total(rows.take(i as int), f1),
            sum.nb_transactions == total(rows.take(i as int), f2),
            sum.eth_gas_used == total(rows.take(i as int), f3),
            sum.total_l1_fees == total(rows.take(i as int), f4),
            sum.total_tx_fees == total(rows.take(i as int), f5),
            sum.executed_steps == total(rows.take(i as int), f6),
            sum.total_execution_time_sec == total_execution_time_sec,
            sum.witness_generation_time_sec == witness_generation_time_sec,
        decreases execution_stats.len() - i,
    {
        let row = execution_stats[i];
        proof {
            lemma_total_take(rows, f1, i as int);
            lemma_total_take(rows, f2, i as int);
            lemma_total_take(rows, f3, i as int);
            lemma_total_take(rows, f4, i as int);
            lemma_total_take(rows, f5, i as int);
            lemma_total_take(rows, f6, i as int);
            assert(rows.take(i + 1).drop_last() == rows.take(i as int));
            assert(rows.take(i + 1).last() == row);
        }
        if row.batch_start < sum.batch_start {
            sum.batch_start = row.batch_start;
        }
        if row.batch_end > sum.batch_end {
            sum.batch_end = row.batch_end;
        }
        sum.nb_blocks = sum.nb_blocks + row.nb_blocks;
        sum.nb_transactions = sum.nb_transactions + row.nb_transactions;
        sum.eth_gas_used = sum.eth_gas_used + row.eth_gas_used;
        sum.total_l1_fees = sum.total_l1_fees + row.total_l1_fees;
        sum.total_tx_fees = sum.total_tx_fees + row.total_tx_fees;
        sum.executed_steps = sum.executed_steps + row.executed_steps;
        i += 1;
    }
    assert(rows.take(i as int) == rows);
    sum
}

/// The range of an aggregate holds the range of every run in it, and both of its ends are those of
/// a run.
pub proof fn law_aggregate_range_is_tight(rows: Seq<ZiskExecutionStatsRow>)
    ensures
        forall|i: int|
            0 <= i < rows.len() ==> earliest_start(rows) <= (#[trigger] rows[i]).batch_start
                && rows[i].batch_end <= latest_end(rows),
        rows.len() > 0 ==> exists|i: int|
            0 <= i < rows.len() && (#[trigger] rows[i]).batch_start == earliest_start(rows),
        rows.len() > 0 ==> exists|i: int|
            0 <= i < rows.len() && (#[trigger] rows[i]).batch_end == latest_end(rows),
    decreases rows.len(),
{
    if rows.len() > 0 {
        let head = rows.drop_last();
        law_aggregate_range_is_tight(head);
        assert forall|i: int| 0 <= i < rows.len() implies earliest_start(rows) <= (
        #[trigger] rows[i]).batch_start && rows[i].batch_end <= latest_end(rows) by {
            if i < head.len() {
                assert(head[i] == rows[i]);
            }
        }
        let last = rows.len() - 1;
        assert(rows[last] == rows.last());
        if head.len() > 0 {
            let i = choose|i: int|
                0 <= i < head.len() && (#[trigger] head[i]).batch_start == earliest_start(head);
            assert(rows[i] == head[i]);
            let j = choose|j: int|
                0 <= j < head.len() && (#[trigger] head[j]).batch_end == latest_end(head);
            assert(rows[j] == head[j]);
        }
    }
}

/// A run adds its blocks, transactions, gas, fees and steps to an aggregate; an aggregate of nothing
/// holds nothing, from the highest block to the lowest.
pub proof fn law_run_adds_what_it_holds(
    rows: Seq<ZiskExecutionStatsRow>,
    r: ZiskExecutionStatsRow,
)
    ensures
        ({
            let none = run_sums(Seq::<ZiskExecutionStatsRow>::empty());
            let before = run_sums(rows);
            let after = run_sums(rows.push(r));
            &&& none.blocks == 0 && none.transactions == 0 && none.gas == 0
            &&& none.l1_fees == 0 && none.tx_fees == 0 && none.steps == 0
            &&& after.blocks == before.blocks + r.nb_blocks
            &&& after.transactions == before.transactions + r.nb_transactions
            &&& after.gas == before.gas + r.eth_gas_used
            &&& after.l1_fees == before.l1_fees + r.total_l1_fees
            &&& after.tx_fees == before.tx_fees + r.total_tx_fees
            &&& after.steps == before.steps + r.executed_steps
            &&& earliest_start(Seq::<ZiskExecutionStatsRow>::empty()) == u64::MAX
            &&& latest_end(Seq::<ZiskExecutionStatsRow>::empty()) == 0
        }),
{
    assert(rows.push(r).drop_last() == rows);
}

/// Aggregating in two steps gives what aggregating at once gives.
pub proof fn law_aggregation_is_additive(
    a: Seq<ZiskExecutionStatsRow>,
    b: Seq<ZiskExecutionStatsRow>,
)
    ensures
        run_sums(a + b).blocks == run_sums(a).blocks + run_sums(b).blocks,
        run_sums(a + b).transactions == run_sums(a).transactions + run_sums(b).transactions,
        run_sums(a + b).gas == run_sums(a).gas + run_sums(b).gas,
        run_sums(a + b).l1_fees == run_sums(a).l1_fees + run_sums(b).l1_fees,
        run_sums(a + b).tx_fees == run_sums(a).tx_fees + run_sums(b).tx_fees,
        run_sums(a + b).steps == run_sums(a).steps + run_sums(b).steps,
        earliest_start(a + b) == if earliest_start(a) < earliest_start(b) {
            earliest_start(a)
        } else {
            earliest_start(b)
        },
        latest_end(a + b) == if latest_end(a) > latest_end(b) {
            latest_end(a)
        } else {
            latest_end(b)
        },
    decreases b.len(),
{
    lemma_total_concat(a, b, |r: ZiskExecutionStatsRow| r.nb_blocks as nat);
    lemma_total_concat(a, b, |r: ZiskExecutionStatsRow| r.nb_transactions as nat);
    lemma_total_concat(a, b, |r: ZiskExecutionStatsRow| r.eth_gas_used as nat);
    lemma_total_concat(a, b, |r: ZiskExecutionStatsRow| r.total_l1_fees as nat);
    lemma_total_concat(a, b, |r: ZiskExecutionStatsRow| r.total_tx_fees as nat);
    lemma_total_concat(a, b, |r: ZiskExecutionStatsRow| r.executed_steps as nat);
    if b.len() == 0 {
        assert(a + b == a);
    } else {
        assert((a + b).drop_last() == a + b.drop_last());
        assert((a + b).last() == b.last());
        law_aggregation_is_additive(a, b.drop_last());
    }
}

/// However a range is split, its runs count the same user transactions, gas and fees, as long as
/// every block holds the transaction of the system.
pub proof fn law_splitting_keeps_the_sums(a: Seq<BlockInfo>, b: Seq<BlockInfo>)
    requires
        forall|i: int| 0 <= i < a.len() ==> (#[trigger] a[i]).transaction_count >= 1,
        forall|i: int| 0 <= i < b.len() ==> (#[trigger] b[i]).transaction_count >= 1,
    ensures
        user_transactions(a + b) == user_transactions(a) + user_transactions(b),
        block_sums(a + b).gas == block_sums(a).gas + block_sums(b).gas,
        block_sums(a + b).l1_fees == block_sums(a).l1_fees + block_sums(b).l1_fees,
        block_sums(a + b).tx_fees == block_sums(a).tx_fees + block_sums(b).tx_fees,
{
    let f = |b: BlockInfo| b.transaction_count as nat;
    lemma_total_concat(a, b, f);
    lemma_total_concat(a, b, |b: BlockInfo| b.gas_used as nat);
    lemma_total_concat(a, b, |b: BlockInfo| b.total_l1_fees as nat);
    lemma_total_concat(a, b, |b: BlockInfo| b.total_tx_fees as nat);
    lemma_at_least_one(a);
    lemma_at_least_one(b);
}

proof fn lemma_at_least_one(s: Seq<BlockInfo>)
    requires
        forall|i: int| 0 <= i < s.len() ==> (#[trigger] s[i]).transaction_count >= 1,
    ensures
        block_sums(s).transactions >= s.len(),
    decreases s.len(),
{
    if s.len() > 0 {
        assert forall|i: int| 0 <= i < s.drop_last().len() implies (
        #[trigger] s.drop_last()[i]).transaction_count >= 1 by {
            assert(s.drop_last()[i] == s[i]);
        }
        lemma_at_least_one(s.drop_last());
        assert(s[s.len() - 1].transaction_count >= 1);
    }
}

} // verus!
