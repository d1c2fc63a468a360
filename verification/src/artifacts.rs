//! The files that a proving run reads and writes.

use crate::chain_config::{
    join_path, joined, law_path_is_the_name_in_the_directory, setting_or, text_or,
};
use crate::encoding::{frame_with_size, sized};
use crate::rpc::{first_set, opt_text};
use crate::stats::{block_sums, user_transactions, BlockInfo, ZiskExecutionStatsRow};
use crate::text::{decimal, is_decimal_digit, lemma_decimal_digits, push_decimal};
use vstd::prelude::*;
use vstd::string::*;

verus! {

// ---------------------------------------------------------------------------------------------
// Programs and keys
// ---------------------------------------------------------------------------------------------

/// Where the range program is built.
pub const DEFAULT_RANGE_ELF: &'static str = "target/riscv64ima-zisk-zkvm-elf/release/range";

/// Where the aggregation program is built.
pub const DEFAULT_AGG_ELF: &'static str = "target/riscv64ima-zisk-zkvm-elf/release/aggregation";

/// The path of a program: the one on the command line, else the one of the variable, else
/// `default`.
pub fn elf_path(argument: &Option<String>, variable: &Option<String>, default: &str) -> (r: String)
    ensures
        r@ == text_or(first_set(opt_text(*argument), opt_text(*variable)), default@),
        *argument matches Some(path) ==> r@ == path@,
        argument is None ==> (*variable matches Some(path) ==> r@ == path@),
        argument is None && variable is None ==> r@ == default@,
{
    match argument {
        Some(path) => path.clone(),
        None => setting_or(variable, default),
    }
}

/// The path of the proving key where none is given.
pub open spec fn default_key(home: Option<Seq<char>>) -> Seq<char> {
    text_or(home, "~"@) + "/.zisk/provingKey"@
}

/// The path of a proving key: the one on the command line, else the one of the variable, else the
/// one in the home directory.
pub fn proving_key_path(
    argument: &Option<String>,
    variable: &Option<String>,
    home: &Option<String>,
) -> (r: String)
    ensures
        r@ == text_or(
            first_set(opt_text(*argument), opt_text(*variable)),
            default_key(opt_text(*home)),
        ),
        *argument matches Some(path) ==> r@ == path@,
        argument is None ==> (*variable matches Some(path) ==> r@ == path@),
        argument is None && variable is None ==> (*home matches Some(dir) ==> r@ == dir@
            + "/.zisk/provingKey"@),
        argument is None && variable is None && home is None ==> r@ == "~"@ + "/.zisk/provingKey"@,
{
    match argument {
        Some(path) => path.clone(),
        None => match variable {
            Some(path) => path.clone(),
            None => {
                let mut out = setting_or(home, "~");
                out.append("/.zisk/provingKey");
                out
            },
        },
    }
}

/// The name of the witness library.
pub open spec fn witness_lib_name(macos: bool) -> Seq<char> {
    if macos {
        "libzisk_witness.dylib"@
    } else {
        "libzisk_witness.so"@
    }
}

/// The path of the witness library: the one on the command line, else the one in the home
/// directory, where there is one.
pub fn witness_lib_path(argument: &Option<String>, home: &Option<String>, macos: bool) -> (r:
    Option<String>)
    ensures
        opt_text(r) == match (*argument, *home) {
            (Some(path), _) => Some(path@),
            (None, Some(dir)) => Some(dir@ + "/.zisk/bin/"@ + witness_lib_name(macos)),
            (None, None) => None,
        },
        argument is None && home is Some && macos ==> r->0@ == home->0@ + "/.zisk/bin/"@
            + "libzisk_witness.dylib"@,
        argument is None && home is Some && !macos ==> r->0@ == home->0@ + "/.zisk/bin/"@
            + "libzisk_witness.so"@,
{
    match argument {
        Some(path) => Some(path.clone()),
        None => match home {
            Some(dir) => {
                let mut out = dir.clone();
                out.append("/.zisk/bin/");
                out.append(
                    if macos {
                        "libzisk_witness.dylib"
                    } else {
                        "libzisk_witness.so"
                    },
                );
                Some(out)
            },
            None => None,
        },
    }
}

// ---------------------------------------------------------------------------------------------
// Proofs and reports
// ---------------------------------------------------------------------------------------------

/// The name that the files of a range share.
pub open spec fn range_stem(start: u64, end: u64) -> Seq<char> {
    decimal(start as nat) + "-"@ + decimal(end as nat)
}

/// The name that the files of a range share.
pub fn proof_stem(start: u64, end: u64) -> (r: String)
    ensures
        r@ == range_stem(start, end),
        r@ == decimal(start as nat) + "-"@ + decimal(end as nat),
{
    let mut out = String::new();
    push_decimal(&mut out, start);
    out.append("-");
    push_decimal(&mut out, end);
    assert(out@ == range_stem(start, end));
    out
}

/// The directory of the proofs of one kind, `range` or `agg`, for a chain.
pub open spec fn proofs_of(chain_id: u64, kind: Seq<char>) -> Seq<char> {
    "data/"@ + decimal(chain_id as nat) + "/proofs/"@ + kind
}

/// The directory of the proofs of one kind, `range` or `agg`, for a chain.
pub fn proof_directory(chain_id: u64, kind: &str) -> (r: String)
    ensures
        r@ == proofs_of(chain_id, kind@),
        r@ == "data/"@ + decimal(chain_id as nat) + "/proofs/"@ + kind@,
{
    let mut out = "data/".to_owned();
    push_decimal(&mut out, chain_id);
    out.append("/proofs/");
    out.append(kind);
    out
}

/// The file of the proof with that stem.
pub fn proof_file(directory: &str, stem: &str) -> (r: String)
    ensures
        r@ == joined(directory@, stem@ + ".bin"@),
{
    let mut name = stem.to_owned();
    name.append(".bin");
    join_path(directory, name.as_str())
}

/// The file of the boot info of the proof with that stem.
pub fn boot_info_file(directory: &str, stem: &str) -> (r: String)
    ensures
        r@ == joined(directory@, stem@ + ".bootinfo.json"@),
{
    let mut name = stem.to_owned();
    name.append(".bootinfo.json");
    join_path(directory, name.as_str())
}

/// The file of the execution report of a range.
pub open spec fn report_of(root: Seq<char>, chain_id: u64, start: u64, end: u64) -> Seq<char> {
    joined(
        root,
        "execution-reports/"@ + decimal(chain_id as nat) + "/"@ + range_stem(start, end)
            + "-report.csv"@,
    )
}

/// The file of the execution report of a range.
pub fn report_path(root: &str, chain_id: u64, start: u64, end: u64) -> (r: String)
    ensures
        r@ == report_of(root@, chain_id, start, end),
        r@ == joined(
            root@,
            "execution-reports/"@ + decimal(chain_id as nat) + "/"@ + (decimal(start as nat) + "-"@
                + decimal(end as nat)) + "-report.csv"@,
        ),
{
    let mut name = "execution-reports/".to_owned();
    push_decimal(&mut name, chain_id);
    name.append("/");
    name.append(proof_stem(start, end).as_str());
    name.append("-report.csv");
    join_path(root, name.as_str())
}

/// Ranges with the same stem are the same, so that no proof overwrites that of another range.
pub proof fn law_stem_determines_the_range(a_start: u64, a_end: u64, b_start: u64, b_end: u64)
    requires
        range_stem(a_start, a_end) == range_stem(b_start, b_end),
    ensures
        a_start == b_start,
        a_end == b_end,
{
    reveal_strlit("-");
    let a = decimal(a_start as nat);
    let b = decimal(b_start as nat);
    let s = range_stem(a_start, a_end);
    let t = range_stem(b_start, b_end);
    lemma_decimal_digits(a_start as nat);
    lemma_decimal_digits(b_start as nat);
    lemma_decimal_digits(a_end as nat);
    lemma_decimal_digits(b_end as nat);
    assert(s[a.len() as int] == '-');
    assert(t[b.len() as int] == '-');
    if a.len() < b.len() {
        assert(t[a.len() as int] == b[a.len() as int]);
        assert(is_decimal_digit(b[a.len() as int]));
    }
    if b.len() < a.len() {
        assert(s[b.len() as int] == a[b.len() as int]);
        assert(is_decimal_digit(a[b.len() as int]));
    }
    assert(s.take(a.len() as int) == a);
    assert(t.take(b.len() as int) == b);
    assert(s.skip(a.len() as int + 1) == decimal(a_end as nat));
    assert(t.skip(b.len() as int + 1) == decimal(b_end as nat));
}

proof fn lemma_digits_before(a: Seq<char>, x: Seq<char>, b: Seq<char>, y: Seq<char>)
    requires
        forall|i: int| 0 <= i < a.len() ==> is_decimal_digit(#[trigger] a[i]),
        forall|i: int| 0 <= i < b.len() ==> is_decimal_digit(#[trigger] b[i]),
        x.len() > 0,
        y.len() > 0,
        !is_decimal_digit(x[0]),
        !is_decimal_digit(y[0]),
        a + x == b + y,
    ensures
        a == b,
        x == y,
{
    let s = a + x;
    let t = b + y;
    assert(s[a.len() as int] == x[0]);
    assert(t[b.len() as int] == y[0]);
    if a.len() < b.len() {
        assert(t[a.len() as int] == b[a.len() as int]);
    }
    if b.len() < a.len() {
        assert(s[b.len() as int] == a[b.len() as int]);
    }
    assert(s.take(a.len() as int) =~= a);
    assert(t.take(b.len() as int) =~= b);
    assert(s.skip(a.len() as int) =~= x);
    assert(t.skip(b.len() as int) =~= y);
}

/// Reports under one root are kept apart by chain and range.
pub proof fn law_report_is_that_of_its_chain_and_range(
    root: Seq<char>,
    a_chain: u64,
    a_start: u64,
    a_end: u64,
    b_chain: u64,
    b_start: u64,
    b_end: u64,
)
    requires
        report_of(root, a_chain, a_start, a_end) == report_of(root, b_chain, b_start, b_end),
    ensures
        a_chain == b_chain,
        a_start == b_start,
        a_end == b_end,
{
    reveal_strlit("execution-reports/");
    reveal_strlit("/");
    reveal_strlit("-report.csv");
    let lead = "execution-reports/"@;
    let a = decimal(a_chain as nat);
    let b = decimal(b_chain as nat);
    let x = "/"@ + range_stem(a_start, a_end) + "-report.csv"@;
    let y = "/"@ + range_stem(b_start, b_end) + "-report.csv"@;
    let m = lead + a + "/"@ + range_stem(a_start, a_end) + "-report.csv"@;
    let n = lead + b + "/"@ + range_stem(b_start, b_end) + "-report.csv"@;
    law_path_is_the_name_in_the_directory(root, m);
    law_path_is_the_name_in_the_directory(root, n);
    assert(m[0] == 'e' && n[0] == 'e');
    assert(m == n);
    assert(m =~= lead + (a + x));
    assert(n =~= lead + (b + y));
    assert(m.skip(lead.len() as int) =~= a + x);
    assert(n.skip(lead.len() as int) =~= b + y);
    lemma_decimal_digits(a_chain as nat);
    lemma_decimal_digits(b_chain as nat);
    lemma_digits_before(a, x, b, y);
    assert(x.subrange(1, x.len() - 11) =~= range_stem(a_start, a_end));
    assert(y.subrange(1, y.len() - 11) =~= range_stem(b_start, b_end));
    law_stem_determines_the_range(a_start, a_end, b_start, b_end);
}

/// What comes of executing the program on the input of a range.
#[derive(Clone, Copy, Debug)]
pub enum ExecutionOutcome {
    /// The prover could not be set up.
    NoProver,
    /// The execution failed.
    Failed,
    /// The execution took that many steps and seconds.
    Executed { executed_steps: u64, duration_s: u64 },
}

/// The row of the execution report for a range; none where the range was not executed.
pub fn execute_blocks_and_write_stats_csv(
    start: u64,
    end: u64,
    block_data: &Vec<BlockInfo>,
    outcome: ExecutionOutcome,
) -> (r: Option<ZiskExecutionStatsRow>)
    requires
        outcome is Executed ==> block_sums(block_data@).fit(),
    ensures
        match outcome {
            ExecutionOutcome::Executed { executed_steps, duration_s } => r matches Some(row) && {
                &&& row.batch_start == start
                &&& row.batch_end == end
                &&& row.nb_blocks == block_data.len()
                &&& row.nb_transactions == user_transactions(block_data@)
                &&& row.eth_gas_used == block_sums(block_data@).gas
                &&& row.total_l1_fees == block_sums(block_data@).l1_fees
                &&& row.total_tx_fees == block_sums(block_data@).tx_fees
                &&& row.executed_steps == executed_steps
                &&& row.total_execution_time_sec == duration_s
                &&& row.witness_generation_time_sec == 0
            },
            _ => r is None,
        },
{
    match outcome {
        ExecutionOutcome::NoProver => None,
        ExecutionOutcome::Failed => None,
        ExecutionOutcome::Executed { executed_steps, duration_s } => Some(
            ZiskExecutionStatsRow::new(start, end, block_data, executed_steps, duration_s),
        ),
    }
}

/// Whether a report that holds that many bytes still needs the names of its columns.
pub fn report_needs_header(len: u64) -> (r: bool)
    ensures
        r == (len == 0),
{
    len == 0
}

/// The file that holds a witness for a later proof: the encoded witness behind its length.
pub fn saved_input(witness: &Vec<u8>) -> (r: Vec<u8>)
    ensures
        r@ == sized(witness@),
{
    frame_with_size(witness)
}

// ---------------------------------------------------------------------------------------------
// The range to prove
// ---------------------------------------------------------------------------------------------

/// Which blocks a run is about.
#[derive(Clone, Copy, Debug, PartialEq, Eq, Structural)]
pub enum RequestedRange {
    /// That many of the latest final blocks.
    Last(u64),
    /// The blocks from `start` to `end`.
    Blocks { start: u64, end: u64 },
}

/// The option that is missing.
#[derive(Clone, Copy, Debug, PartialEq, Eq, Structural)]
pub enum MissingOption {
    Start,
    End,
}

impl MissingOption {
    /// What the user is told.
    pub open spec fn text(self) -> Seq<char> {
        match self {
            MissingOption::Start => "--start is required when --last is not provided"@,
            MissingOption::End => "--end is required when --last is not provided"@,
        }
    }

    /// What the user is told.
    pub fn message(&self) -> (r: String)
        ensures
            r@ == self.text(),
    {
        match self {
            MissingOption::Start => "--start is required when --last is not provided".to_owned(),
            MissingOption::End => "--end is required when --last is not provided".to_owned(),
        }
    }
}

/// Which blocks a run is about: the latest ones where their number is given, and else those
/// between the two given ones.
pub fn requested_range(last: Option<u64>, start: Option<u64>, end: Option<u64>) -> (r: Result<
    RequestedRange,
    MissingOption,
>)
    ensures
        r == match (last, start, end) {
            (Some(n), _, _) => Ok::<RequestedRange, MissingOption>(RequestedRange::Last(n)),
            (None, None, _) => Err(MissingOption::Start),
            (None, Some(_), None) => Err(MissingOption::End),
            (None, Some(s), Some(e)) => Ok(RequestedRange::Blocks { start: s, end: e }),
        },
{
    if let Some(n) = last {
        return Ok(RequestedRange::Last(n));
    }
    match (start, end) {
        (None, _) => Err(MissingOption::Start),
        (Some(_), None) => Err(MissingOption::End),
        (Some(s), Some(e)) => Ok(RequestedRange::Blocks { start: s, end: e }),
    }
}

/// The range of the latest blocks, `count` of them as far as the chain has so many, up to the block
/// `latest`.
pub fn get_rolling_block_range(latest: u64, count: u64) -> (r: (u64, u64))
    ensures
        r.1 == latest,
        r.0 == if count <= latest {
            latest - count
        } else {
            0
        },
{
    (latest.saturating_sub(count), latest)
}

/// The pieces cover the range from `start` to `end` one behind the other, and none is empty.
pub open spec fn covers(pieces: Seq<(u64, u64)>, start: u64, end: u64) -> bool {
    &&& pieces.len() == 0 <==> start >= end
    &&& pieces.len() > 0 ==> pieces[0].0 == start && pieces.last().1 == end
    &&& forall|i: int, j: int|
        0 <= i < pieces.len() && j == i + 1 && j < pieces.len() ==> (#[trigger] pieces[i]).1 == (
        #[trigger] pieces[j]).0
    &&& forall|i: int| 0 <= i < pieces.len() ==> (#[trigger] pieces[i]).0 < pieces[i].1
}

/// The pieces cover the range from `start` to `end`, and each but the last is `size` blocks long,
/// the last no longer.
pub open spec fn is_split(pieces: Seq<(u64, u64)>, start: u64, end: u64, size: u64) -> bool {
    &&& covers(pieces, start, end)
    &&& forall|i: int| 0 <= i < pieces.len() ==> (#[trigger] pieces[i]).1 - pieces[i].0 <= size
    &&& forall|i: int|
        0 <= i < pieces.len() - 1 ==> (#[trigger] pieces[i]).1 - pieces[i].0 == size
}

/// The range from `start` to `end` in pieces of `size` blocks.
pub fn split_range_basic(start: u64, end: u64, size: u64) -> (r: Vec<(u64, u64)>)
    requires
        size > 0,
    ensures
        is_split(r@, start, end, size),
{
    let mut pieces: Vec<(u64, u64)> = Vec::new();
    let mut from: u64 = start;
    while from < end
        invariant
            size > 0,
            start < end ==> start <= from <= end,
            start >= end ==> from == start,
            is_split(pieces@, start, from, size),
            from < end ==> forall|i: int|
                0 <= i < pieces@.len() ==> (#[trigger] pieces@[i]).1 - pieces@[i].0 == size,
        decreases end - from,
    {
        let to: u64 = if end - from > size {
            from + size
        } else {
            end
        };
        let ghost before = pieces@;
        pieces.push((from, to));
        assert(is_split(pieces@, start, to, size)) by {
            assert forall|i: int, j: int|
                0 <= i < pieces@.len() && j == i + 1 && j < pieces@.len() implies (
            #[trigger] pieces@[i]).1 == (#[trigger] pieces@[j]).0 by {
                if j < before.len() {
                    assert(before[i].1 == before[j].0);
                } else {
                    assert(pieces@[i] == before.last());
                }
            }
        }
        from = to;
    }
    pieces
}

/// `to` is where the piece that starts at `from` ends: at the first of the cuts behind it, at the
/// end of the range, or after `size` blocks, whichever comes first.
pub open spec fn is_next_cut(from: u64, to: u64, end: u64, size: u64, cuts: Seq<u64>) -> bool {
    &&& from < to <= end
    &&& to - from <= size
    &&& forall|k: int| 0 <= k < cuts.len() && from < #[trigger] cuts[k] ==> to <= cuts[k]
    &&& to == end || to - from == size || cuts.contains(to)
}

/// The pieces cover the range from `start` to `end`, and each ends at its next cut.
pub open spec fn is_split_at(
    pieces: Seq<(u64, u64)>,
    start: u64,
    end: u64,
    size: u64,
    cuts: Seq<u64>,
) -> bool {
    &&& covers(pieces, start, end)
    &&& forall|i: int|
        0 <= i < pieces.len() ==> is_next_cut(
            (#[trigger] pieces[i]).0,
            pieces[i].1,
            end,
            size,
            cuts,
        )
}

/// Where the piece that starts at `from` ends.
fn next_cut(from: u64, end: u64, size: u64, cuts: &Vec<u64>) -> (to: u64)
    requires
        from < end,
        size > 0,
    ensures
        is_next_cut(from, to, end, size, cuts@),
{
    let mut to: u64 = if end - from > size {
        from + size
    } else {
        end
    };
    let mut k: usize = 0;
    while k < cuts.len()
        invariant
            k <= cuts.len(),
            from < to <= end,
            to - from <= size,
            forall|j: int| 0 <= j < k && from < #[trigger] cuts@[j] ==> to <= cuts@[j],
            to == end || to - from == size || cuts@.contains(to),
        decreases cuts.len() - k,
    {
        if from < cuts[k] && cuts[k] < to {
            to = cuts[k];
            assert(cuts@[k as int] == to);
        }
        k += 1;
    }
    to
}

/// The range from `start` to `end` in pieces of at most `size` blocks, none of which reaches across
/// one of the safe heads.
pub fn split_range_based_on_safe_heads(
    start: u64,
    end: u64,
    size: u64,
    safe_heads: &Vec<u64>,
) -> (r: Vec<(u64, u64)>)
    requires
        size > 0,
    ensures
        is_split_at(r@, start, end, size, safe_heads@),
{
    let mut pieces: Vec<(u64, u64)> = Vec::new();
    let mut from: u64 = start;
    while from < end
        invariant
            size > 0,
            start < end ==> start <= from <= end,
            start >= end ==> from == start,
            covers(pieces@, start, from),
            forall|i: int|
                0 <= i < pieces@.len() ==> is_next_cut(
                    (#[trigger] pieces@[i]).0,
                    pieces@[i].1,
                    end,
                    size,
                    safe_heads@,
                ),
        decreases end - from,
    {
        let to = next_cut(from, end, size, safe_heads);
        pieces.push((from, to));
        from = to;
    }
    pieces
}

/// Splitting a range loses no block and repeats none: every block behind the start and up to the
/// end lies in exactly one piece.
pub proof fn law_every_block_is_in_one_piece(
    pieces: Seq<(u64, u64)>,
    start: u64,
    end: u64,
    n: u64,
)
    requires
        covers(pieces, start, end),
        start < n <= end,
    ensures
        exists|i: int| 0 <= i < pieces.len() && (#[trigger] pieces[i]).0 < n <= pieces[i].1,
        forall|i: int, j: int|
            0 <= i < pieces.len() && 0 <= j < pieces.len() && (#[trigger] pieces[i]).0 < n
                <= pieces[i].1 && (#[trigger] pieces[j]).0 < n <= pieces[j].1 ==> i == j,
{
    lemma_piece_of(pieces, start, end, n, 0);
    assert forall|i: int, j: int|
        0 <= i < pieces.len() && 0 <= j < pieces.len() && (#[trigger] pieces[i]).0 < n
            <= pieces[i].1 && (#[trigger] pieces[j]).0 < n <= pieces[j].1 implies i == j by {
        if i < j {
            lemma_pieces_ascend(pieces, start, end, i, j);
        }
        if j < i {
            lemma_pieces_ascend(pieces, start, end, j, i);
        }
    }
}

/// A range that is split at safe heads has no piece with blocks on both sides of one of them, and
/// no piece that is too long.
pub proof fn law_no_piece_reaches_across_a_safe_head(
    pieces: Seq<(u64, u64)>,
    start: u64,
    end: u64,
    size: u64,
    safe_heads: Seq<u64>,
    i: int,
    k: int,
)
    requires
        is_split_at(pieces, start, end, size, safe_heads),
        0 <= i < pieces.len(),
        0 <= k < safe_heads.len(),
    ensures
        safe_heads[k] <= pieces[i].0 || pieces[i].1 <= safe_heads[k],
        pieces[i].1 - pieces[i].0 <= size,
{
}

/// A range in pieces of one size starts where the first piece does and ends where the last one does;
/// every piece but the last has that size, and the last is no longer.
pub proof fn law_basic_pieces_are_full(
    pieces: Seq<(u64, u64)>,
    start: u64,
    end: u64,
    size: u64,
    i: int,
)
    requires
        is_split(pieces, start, end, size),
        start < end,
        0 <= i < pieces.len(),
    ensures
        pieces[0].0 == start,
        pieces[pieces.len() - 1].1 == end,
        pieces[i].0 < pieces[i].1,
        i < pieces.len() - 1 ==> pieces[i].1 == pieces[i + 1].0 && pieces[i].1 - pieces[i].0 == size,
        pieces[i].1 - pieces[i].0 <= size,
{
}

/// A piece of a range that is split at safe heads ends nowhere but at a safe head, at the end of the
/// range or at its full size; the pieces adjoin from the start of the range to its end.
pub proof fn law_piece_ends_for_a_reason(
    pieces: Seq<(u64, u64)>,
    start: u64,
    end: u64,
    size: u64,
    safe_heads: Seq<u64>,
    i: int,
)
    requires
        is_split_at(pieces, start, end, size, safe_heads),
        start < end,
        0 <= i < pieces.len(),
    ensures
        pieces[0].0 == start,
        pieces[pieces.len() - 1].1 == end,
        pieces[i].0 < pieces[i].1,
        i < pieces.len() - 1 ==> pieces[i].1 == pieces[i + 1].0,
        pieces[i].1 == end || pieces[i].1 - pieces[i].0 == size || exists|k: int|
            0 <= k < safe_heads.len() && #[trigger] safe_heads[k] == pieces[i].1,
{
    assert(is_next_cut(pieces[i].0, pieces[i].1, end, size, safe_heads));
}

proof fn lemma_piece_of(pieces: Seq<(u64, u64)>, start: u64, end: u64, n: u64, k: int)
    requires
        covers(pieces, start, end),
        0 <= k < pieces.len(),
        pieces[k].0 < n <= end,
    ensures
        exists|i: int| 0 <= i < pieces.len() && (#[trigger] pieces[i]).0 < n <= pieces[i].1,
    decreases pieces.len() - k,
{
    if pieces[k].1 < n {
        assert(k + 1 < pieces.len());
        assert(pieces[k].1 == pieces[k + 1].0);
        lemma_piece_of(pieces, start, end, n, k + 1);
    }
}

proof fn lemma_pieces_ascend(pieces: Seq<(u64, u64)>, start: u64, end: u64, i: int, j: int)
    requires
        covers(pieces, start, end),
        0 <= i < j < pieces.len(),
    ensures
        pieces[i].1 <= pieces[j].0,
    decreases j - i,
{
    if i + 1 == j {
        assert(pieces[i].1 == pieces[j].0);
    } else {
        lemma_pieces_ascend(pieces, start, end, i, j - 1);
        assert(pieces[j - 1].1 == pieces[j].0);
        assert(pieces[j - 1].0 < pieces[j - 1].1);
    }
}

} // verus!
