//! The L1 head from which an L2 block can be derived.

use crate::errors::FetchError;
use crate::fetcher::{OPZisKDataFetcher, Step};
use crate::rpc::{node_cannot_serve, says_node_cannot_serve, RpcError};
use crate::search::{
    block_of, closest_not_before, is_chain, is_first_safe, is_safe_head_record,
    law_safe_head_search_finds_first, law_safe_head_search_is_short,
    law_timestamp_search_finds_closest, law_timestamp_search_is_short, lemma_timestamp_after,
    safe_head_probes, safe_head_result, timestamp_invariant, timestamp_probes, timestamp_result,
    BlockAt, SafeHead, SafeHeadSearch, TimestampSearch, TimestampStep,
};
use crate::types::{BlockNumHash, Header};
use vstd::prelude::*;

verus! {

// ---------------------------------------------------------------------------------------------
// By the record of safe heads
// ---------------------------------------------------------------------------------------------

/// What is asked for the L1 block as of which an L2 block is safe.
#[derive(Clone, Copy, Debug)]
pub enum SafeL1Probe {
    /// The header of the latest final L1 block.
    Finalized,
    /// The number of the L1 origin of the L2 block, of the rollup node.
    Origin(u64),
    /// The safe head as of the L1 block with that number, of the rollup node.
    SafeHead(u64),
}

/// The answers so far, those about safe heads in the order in which they were asked for.
#[derive(Debug)]
pub struct SafeL1Answers {
    pub finalized: Option<Result<Header, FetchError>>,
    pub origin: Option<Result<u64, RpcError>>,
    pub safe_heads: Vec<Result<SafeHead, RpcError>>,
}

/// The failure that an error of the rollup node amounts to: `unavailable` where the node cannot
/// answer at all.
pub open spec fn node_failure(e: RpcError, unavailable: FetchError) -> FetchError {
    if says_node_cannot_serve(e.chain@) {
        unavailable
    } else {
        FetchError::Rpc(e)
    }
}

/// Where the search stands behind the answers: the next L1 block to ask about, the block that it
/// found, or a failure.
pub open spec fn safe_head_step(
    search: SafeHeadSearch,
    answers: Seq<Result<SafeHead, RpcError>>,
) -> Step<SafeL1Probe, BlockNumHash>
    decreases answers.len(),
{
    if !search.open {
        match search.first_valid {
            Some(block) => Step::Done(block),
            None => Step::Fail(FetchError::NoSafeL1Block),
        }
    } else if answers.len() == 0 {
        Step::Ask(SafeL1Probe::SafeHead(search.wanted()))
    } else {
        match answers[0] {
            Ok(reply) => safe_head_step(search.after(reply), answers.skip(1)),
            Err(e) => Step::Fail(node_failure(e, FetchError::SafeHeadUnavailable)),
        }
    }
}

/// The search for the L1 block as of which `l2_end_block` is safe, from its L1 origin on.
pub open spec fn safe_l1_step(l2_end_block: u64, a: SafeL1Answers) -> Step<
    SafeL1Probe,
    BlockNumHash,
> {
    match (a.finalized, a.origin) {
        (None, _) => Step::Ask(SafeL1Probe::Finalized),
        (Some(Err(e)), _) => Step::Fail(e),
        (Some(Ok(_)), None) => Step::Ask(SafeL1Probe::Origin(l2_end_block)),
        (Some(Ok(_)), Some(Err(e))) => Step::Fail(
            node_failure(e, FetchError::OutputAtBlockUnavailable),
        ),
        (Some(Ok(latest)), Some(Ok(origin))) => safe_head_step(
            SafeHeadSearch {
                l2_end_block,
                low: origin,
                high: latest.number,
                open: origin <= latest.number,
                first_valid: None,
            },
            a.safe_heads@,
        ),
    }
}

/// The failure that an error of the rollup node amounts to.
fn failure_of_node(e: &RpcError, unavailable: FetchError) -> (r: FetchError)
    ensures
        r == node_failure(*e, unavailable),
{
    if node_cannot_serve(e) {
        unavailable
    } else {
        FetchError::Rpc(e.clone())
    }
}

impl OPZisKDataFetcher {
    /// The first final L1 block as of which `l2_end_block` is safe, found by a binary search over
    /// the record of safe heads.
    pub fn get_safe_l1_block_for_l2_block(l2_end_block: u64, answers: &SafeL1Answers) -> (r: Step<
        SafeL1Probe,
        BlockNumHash,
    >)
        ensures
            r == safe_l1_step(l2_end_block, *answers),
    {
        let latest = match &answers.finalized {
            None => {
                return Step::Ask(SafeL1Probe::Finalized);
            },
            Some(Err(e)) => {
                return Step::Fail(e.clone());
            },
            Some(Ok(header)) => header.number,
        };
        let origin = match &answers.origin {
            None => {
                return Step::Ask(SafeL1Probe::Origin(l2_end_block));
            },
            Some(Err(e)) => {
                return Step::Fail(failure_of_node(e, FetchError::OutputAtBlockUnavailable));
            },
            Some(Ok(origin)) => *origin,
        };
        let mut search = SafeHeadSearch::new(l2_end_block, origin, latest);
        let ghost start = search;
        let heads = &answers.safe_heads;
        let mut i: usize = 0;
        assert(heads@.skip(0) == heads@);
        while i < heads.len()
            invariant
                i <= heads.len(),
                search.wf(),
                safe_head_step(start, heads@) == safe_head_step(search, heads@.skip(i as int)),
                safe_l1_step(l2_end_block, *answers) == safe_head_step(start, heads@),
            decreases heads.len() - i,
        {
            if search.next_block().is_none() {
                return match search.first_valid {
                    Some(block) => Step::Done(block),
                    None => Step::Fail(FetchError::NoSafeL1Block),
                };
            }
            assert(heads@.skip(i as int)[0] == heads@[i as int]);
            assert(heads@.skip(i as int).skip(1) == heads@.skip(i + 1));
            match &heads[i] {
                Ok(reply) => {
                    search = search.advance(*reply);
                },
                Err(e) => {
                    return Step::Fail(failure_of_node(e, FetchError::SafeHeadUnavailable));
                },
            }
            i += 1;
        }
        match search.next_block() {
            Some(number) => Step::Ask(SafeL1Probe::SafeHead(number)),
            None => match search.first_valid {
                Some(block) => Step::Done(block),
                None => Step::Fail(FetchError::NoSafeL1Block),
            },
        }
    }
}

/// The answers are those that `record` holds about the L1 blocks that the search asks about.
pub open spec fn answered_from_record(
    search: SafeHeadSearch,
    answers: Seq<Result<SafeHead, RpcError>>,
    record: Seq<SafeHead>,
) -> bool
    decreases answers.len(),
{
    answers.len() == 0 || !search.open || (answers[0] matches Ok(reply) && reply
        == record[search.wanted() as int] && answered_from_record(
        search.after(reply),
        answers.skip(1),
        record,
    ))
}

proof fn lemma_safe_head_step(
    search: SafeHeadSearch,
    answers: Seq<Result<SafeHead, RpcError>>,
    record: Seq<SafeHead>,
)
    requires
        search.wf(),
        answered_from_record(search, answers, record),
    ensures
        safe_head_step(search, answers) matches Step::Done(block) ==> safe_head_result(
            search,
            record,
        ) == Some(block),
        safe_head_step(search, answers) matches Step::Fail(e) ==> e == FetchError::NoSafeL1Block
            && safe_head_result(search, record) is None,
    decreases answers.len(),
{
    if search.open && answers.len() > 0 {
        lemma_safe_head_step(search.after(answers[0]->Ok_0), answers.skip(1), record);
    }
}

/// Asked of a rollup node whose record of safe heads never goes back, the search ends with the
/// first L1 block, from the origin of the L2 block on and up to the latest final one, as of which
/// the L2 block is safe; it fails only where the L2 block is safe as of none of them.
pub proof fn law_safe_l1_block_is_first(
    l2_end_block: u64,
    a: SafeL1Answers,
    record: Seq<SafeHead>,
)
    requires
        a.finalized matches Some(Ok(latest)) && latest.number < record.len(),
        a.origin matches Some(Ok(_)),
        is_safe_head_record(record),
        answered_from_record(
            SafeHeadSearch {
                l2_end_block,
                low: a.origin->0->Ok_0,
                high: a.finalized->0->Ok_0.number,
                open: a.origin->0->Ok_0 <= a.finalized->0->Ok_0.number,
                first_valid: None,
            },
            a.safe_heads@,
            record,
        ),
    ensures
        match safe_l1_step(l2_end_block, a) {
            Step::Ask(_) => true,
            Step::Done(block) => is_first_safe(
                record,
                a.origin->0->Ok_0 as int,
                a.finalized->0->Ok_0.number as int,
                l2_end_block,
                Some(block),
            ),
            Step::Fail(e) => e == FetchError::NoSafeL1Block && is_first_safe(
                record,
                a.origin->0->Ok_0 as int,
                a.finalized->0->Ok_0.number as int,
                l2_end_block,
                None,
            ),
        },
{
    let origin = a.origin->0->Ok_0;
    let latest = a.finalized->0->Ok_0.number;
    let search = SafeHeadSearch {
        l2_end_block,
        low: origin,
        high: latest,
        open: origin <= latest,
        first_valid: None,
    };
    lemma_safe_head_step(search, a.safe_heads@, record);
    law_safe_head_search_finds_first(record, l2_end_block, origin, latest);
}

/// In the call after `before`, what was asked there has been answered, and nothing else: by an L1
/// endpoint whose latest final block is `latest`, and by a rollup node that knows the L1 origins
/// and the record of safe heads.
pub open spec fn safe_l1_call_follows(
    l2_end_block: u64,
    before: SafeL1Answers,
    next: SafeL1Answers,
    latest: Header,
    origin_of: spec_fn(u64) -> u64,
    record: Seq<SafeHead>,
) -> bool {
    match safe_l1_step(l2_end_block, before) {
        Step::Ask(SafeL1Probe::Finalized) => {
            &&& next.finalized == Some(Ok::<Header, FetchError>(latest))
            &&& next.origin == before.origin
            &&& next.safe_heads@ == before.safe_heads@
        },
        Step::Ask(SafeL1Probe::Origin(n)) => {
            &&& next.finalized == before.finalized
            &&& next.origin == Some(Ok::<u64, RpcError>(origin_of(n)))
            &&& next.safe_heads@ == before.safe_heads@
        },
        Step::Ask(SafeL1Probe::SafeHead(n)) => {
            &&& next.finalized == before.finalized
            &&& next.origin == before.origin
            &&& next.safe_heads@ == before.safe_heads@.push(
                Ok::<SafeHead, RpcError>(record[n as int]),
            )
        },
        _ => false,
    }
}

/// The calls of a whole search: nothing is known at first, and each call knows what the one before
/// it asked.
pub open spec fn is_safe_l1_run(
    l2_end_block: u64,
    run: Seq<SafeL1Answers>,
    latest: Header,
    origin_of: spec_fn(u64) -> u64,
    record: Seq<SafeHead>,
) -> bool {
    &&& run.len() > 0
    &&& run[0].finalized is None
    &&& run[0].origin is None
    &&& run[0].safe_heads@.len() == 0
    &&& forall|i: int, j: int|
        0 <= i && j == i + 1 && j < run.len() ==> safe_l1_call_follows(
            l2_end_block,
            #[trigger] run[i],
            #[trigger] run[j],
            latest,
            origin_of,
            record,
        )
}

proof fn lemma_safe_head_ask(
    search: SafeHeadSearch,
    answers: Seq<Result<SafeHead, RpcError>>,
    record: Seq<SafeHead>,
)
    requires
        search.wf(),
        answered_from_record(search, answers, record),
    ensures
        safe_head_step(search, answers) matches Step::Ask(probe) ==> {
            &&& probe matches SafeL1Probe::SafeHead(n)
            &&& search.low <= n <= search.high
            &&& answered_from_record(
                search,
                answers.push(Ok::<SafeHead, RpcError>(record[n as int])),
                record,
            )
            &&& answers.len() < safe_head_probes(search, record)
        },
    decreases answers.len(),
{
    reveal_with_fuel(answered_from_record, 2);
    if search.open {
        if answers.len() > 0 {
            let next = search.after(answers[0]->Ok_0);
            lemma_safe_head_ask(next, answers.skip(1), record);
            if let Step::Ask(SafeL1Probe::SafeHead(n)) = safe_head_step(search, answers) {
                let more = answers.push(Ok::<SafeHead, RpcError>(record[n as int]));
                assert(more.skip(1) == answers.skip(1).push(
                    Ok::<SafeHead, RpcError>(record[n as int]),
                ));
                assert(more[0] == answers[0]);
            }
        } else {
            let n = search.wanted();
            let more = answers.push(Ok::<SafeHead, RpcError>(record[n as int]));
            assert(more[0] == Ok::<SafeHead, RpcError>(record[n as int]));
            assert(more.skip(1).len() == 0);
        }
    }
}

proof fn lemma_safe_l1_run(
    l2_end_block: u64,
    run: Seq<SafeL1Answers>,
    latest: Header,
    origin_of: spec_fn(u64) -> u64,
    record: Seq<SafeHead>,
)
    requires
        is_safe_l1_run(l2_end_block, run, latest, origin_of, record),
    ensures
        ({
            let a = run.last();
            let origin = origin_of(l2_end_block);
            let search = SafeHeadSearch {
                l2_end_block,
                low: origin,
                high: latest.number,
                open: origin <= latest.number,
                first_valid: None,
            };
            match (a.finalized, a.origin) {
                (None, None) => run.len() == 1 && a.safe_heads@.len() == 0,
                (Some(Ok(header)), None) => run.len() == 2 && header == latest
                    && a.safe_heads@.len() == 0,
                (Some(Ok(header)), Some(Ok(number))) => header == latest && number == origin
                    && run.len() == 3 + a.safe_heads@.len() && answered_from_record(
                    search,
                    a.safe_heads@,
                    record,
                ) && a.safe_heads@.len() <= safe_head_probes(search, record),
                _ => false,
            }
        }),
    decreases run.len(),
{
    if run.len() > 1 {
        let shorter = run.drop_last();
        assert forall|i: int, j: int| 0 <= i && j == i + 1 && j < shorter.len() implies
            safe_l1_call_follows(
            l2_end_block,
            #[trigger] shorter[i],
            #[trigger] shorter[j],
            latest,
            origin_of,
            record,
        ) by {
            assert(shorter[i] == run[i] && shorter[j] == run[j]);
        }
        lemma_safe_l1_run(l2_end_block, shorter, latest, origin_of, record);
        let before = shorter.last();
        assert(before == run[run.len() - 2]);
        assert(run.last() == run[run.len() - 1]);
        assert(safe_l1_call_follows(
            l2_end_block,
            run[run.len() - 2],
            run[run.len() - 1],
            latest,
            origin_of,
            record,
        ));
        if before.finalized is Some && before.origin is Some {
            let origin = origin_of(l2_end_block);
            let search = SafeHeadSearch {
                l2_end_block,
                low: origin,
                high: latest.number,
                open: origin <= latest.number,
                first_valid: None,
            };
            lemma_safe_head_ask(search, before.safe_heads@, record);
        }
    }
}

/// Run against an L1 endpoint and a rollup node whose record of safe heads never goes back, the
/// search asks for the origin of the L2 block and then only about L1 blocks from there up to the
/// latest final one, each answer being the one to what it asked itself. It ends after at most
/// sixty-eight calls: with the first of those L1 blocks as of which the L2 block is safe, or with
/// a failure where the L2 block is safe as of none of them.
pub proof fn law_safe_l1_run_finds_the_first_block(
    l2_end_block: u64,
    run: Seq<SafeL1Answers>,
    latest: Header,
    origin_of: spec_fn(u64) -> u64,
    record: Seq<SafeHead>,
)
    requires
        is_safe_l1_run(l2_end_block, run, latest, origin_of, record),
        latest.number < record.len(),
        forall|i: int, j: int|
            0 <= i <= j < record.len() ==> (#[trigger] record[i]).safe_head <= (
            #[trigger] record[j]).safe_head,
    ensures
        run.len() <= 68,
        match safe_l1_step(l2_end_block, run.last()) {
            Step::Ask(SafeL1Probe::Finalized) => run.len() == 1,
            Step::Ask(SafeL1Probe::Origin(n)) => run.len() == 2 && n == l2_end_block,
            Step::Ask(SafeL1Probe::SafeHead(n)) => origin_of(l2_end_block) <= n <= latest.number,
            Step::Done(block) => exists|k: int|
                {
                    &&& origin_of(l2_end_block) <= k <= latest.number
                    &&& block == (#[trigger] record[k]).l1_block
                    &&& record[k].safe_head >= l2_end_block
                    &&& forall|i: int|
                        origin_of(l2_end_block) <= i < k ==> (#[trigger] record[i]).safe_head
                            < l2_end_block
                },
            Step::Fail(e) => {
                &&& e == FetchError::NoSafeL1Block
                &&& forall|i: int|
                    origin_of(l2_end_block) <= i <= latest.number ==> (
                    #[trigger] record[i]).safe_head < l2_end_block
            },
        },
{
    lemma_safe_l1_run(l2_end_block, run, latest, origin_of, record);
    let a = run.last();
    let origin = origin_of(l2_end_block);
    let search = SafeHeadSearch {
        l2_end_block,
        low: origin,
        high: latest.number,
        open: origin <= latest.number,
        first_valid: None,
    };
    if a.finalized is Some && a.origin is Some {
        law_safe_head_search_is_short(search, record);
        lemma_safe_head_ask(search, a.safe_heads@, record);
        law_safe_l1_block_is_first(l2_end_block, a, record);
    }
}

proof fn lemma_first_valid_is_kept(
    search: SafeHeadSearch,
    answers: Seq<Result<SafeHead, RpcError>>,
    block: BlockNumHash,
)
    requires
        search.first_valid is None,
    ensures
        safe_head_step(SafeHeadSearch { first_valid: Some(block), ..search }, answers) == (if
            safe_head_step(search, answers) == Step::<SafeL1Probe, BlockNumHash>::Fail(
            FetchError::NoSafeL1Block,
        ) {
            Step::Done(block)
        } else {
            safe_head_step(search, answers)
        }),
    decreases answers.len(),
{
    if search.open && answers.len() > 0 {
        if let Ok(reply) = answers[0] {
            if reply.safe_head < search.l2_end_block {
                lemma_first_valid_is_kept(search.after(reply), answers.skip(1), block);
            } else {
                let with = SafeHeadSearch { first_valid: Some(block), ..search };
                assert(with.after(reply) == search.after(reply));
                lemma_first_valid_only_once(search.after(reply), answers.skip(1));
            }
        }
    }
}

proof fn lemma_first_valid_only_once(
    search: SafeHeadSearch,
    answers: Seq<Result<SafeHead, RpcError>>,
)
    requires
        search.first_valid is Some,
    ensures
        safe_head_step(search, answers) != Step::<SafeL1Probe, BlockNumHash>::Fail(
            FetchError::NoSafeL1Block,
        ),
    decreases answers.len(),
{
    if search.open && answers.len() > 0 {
        if let Ok(reply) = answers[0] {
            lemma_first_valid_only_once(search.after(reply), answers.skip(1));
        }
    }
}

/// The search asks about the middle one of the L1 blocks first, and with the answer it goes on as
/// the search of `half` does: over the blocks behind the middle one where the L2 block is not safe
/// as of that one, and over the blocks before it otherwise, where the middle block is what it ends
/// with if none of those will do.
pub proof fn law_safe_l1_search_halves(
    l2_end_block: u64,
    a: SafeL1Answers,
    half: SafeL1Answers,
    latest: Header,
    origin: u64,
    reply: SafeHead,
)
    requires
        a.finalized == Some(Ok::<Header, FetchError>(latest)),
        a.origin == Some(Ok::<u64, RpcError>(origin)),
        origin <= latest.number,
    ensures
        ({
            let mid = origin + (latest.number - origin) / 2;
            let r = safe_l1_step(l2_end_block, a);
            let of_half = safe_l1_step(l2_end_block, half);
            let none = Step::<SafeL1Probe, BlockNumHash>::Fail(FetchError::NoSafeL1Block);
            &&& a.safe_heads@.len() == 0 ==> r == Step::<SafeL1Probe, BlockNumHash>::Ask(
                SafeL1Probe::SafeHead(mid as u64),
            )
            &&& a.safe_heads@ == seq![Ok::<SafeHead, RpcError>(reply)] + half.safe_heads@ ==> {
                &&& reply.safe_head < l2_end_block && mid == latest.number ==> r == none
                &&& reply.safe_head < l2_end_block && mid < latest.number && half.origin == Some(
                    Ok::<u64, RpcError>((mid + 1) as u64),
                ) && half.finalized == Some(Ok::<Header, FetchError>(latest)) ==> r == of_half
                &&& reply.safe_head >= l2_end_block && mid == origin ==> r == Step::<
                    SafeL1Probe,
                    BlockNumHash,
                >::Done(reply.l1_block)
                &&& reply.safe_head >= l2_end_block && origin < mid && half.origin == Some(
                    Ok::<u64, RpcError>(origin),
                ) && (half.finalized matches Some(Ok(header)) && header.number == mid - 1) ==> r
                    == if of_half == none {
                    Step::Done(reply.l1_block)
                } else {
                    of_half
                }
            }
        }),
{
    let search = SafeHeadSearch {
        l2_end_block,
        low: origin,
        high: latest.number,
        open: true,
        first_valid: None,
    };
    let mid = search.wanted();
    if a.safe_heads@ == seq![Ok::<SafeHead, RpcError>(reply)] + half.safe_heads@ {
        assert(a.safe_heads@.skip(1) == half.safe_heads@);
        assert(a.safe_heads@[0] == Ok::<SafeHead, RpcError>(reply));
        reveal_with_fuel(safe_head_step, 2);
        if reply.safe_head >= l2_end_block && origin < mid {
            let below = SafeHeadSearch { high: (mid - 1) as u64, ..search };
            lemma_first_valid_is_kept(below, half.safe_heads@, reply.l1_block);
            assert(search.after(reply) == (SafeHeadSearch {
                first_valid: Some(reply.l1_block),
                ..below
            }));
        }
    }
}

/// The first failure ends the search: one of the L1 endpoint is handed on; one of the rollup node
/// is told apart by whether the node cannot serve the question at all.
pub proof fn law_safe_l1_failures_are_told(l2_end_block: u64, a: SafeL1Answers, e: RpcError)
    ensures
        a.finalized matches Some(Err(failure)) ==> safe_l1_step(l2_end_block, a) == Step::<
            SafeL1Probe,
            BlockNumHash,
        >::Fail(failure),
        (a.finalized matches Some(Ok(_))) && a.origin == Some(Err::<u64, RpcError>(e))
            ==> safe_l1_step(l2_end_block, a) == Step::<SafeL1Probe, BlockNumHash>::Fail(
            if says_node_cannot_serve(e.chain@) {
                FetchError::OutputAtBlockUnavailable
            } else {
                FetchError::Rpc(e)
            },
        ),
        (a.finalized matches Some(Ok(latest)) && a.origin matches Some(Ok(origin)) && origin
            <= latest.number) && a.safe_heads@.len() > 0 && a.safe_heads@[0] == Err::<
            SafeHead,
            RpcError,
        >(e) ==> safe_l1_step(l2_end_block, a) == Step::<SafeL1Probe, BlockNumHash>::Fail(
            if says_node_cannot_serve(e.chain@) {
                FetchError::SafeHeadUnavailable
            } else {
                FetchError::Rpc(e)
            },
        ),
{
}

proof fn lemma_safe_head_step_extends(
    search: SafeHeadSearch,
    answers: Seq<Result<SafeHead, RpcError>>,
    answer: Result<SafeHead, RpcError>,
)
    ensures
        !(safe_head_step(search, answers) is Ask) ==> safe_head_step(search, answers.push(answer))
            == safe_head_step(search, answers),
        safe_head_step(search, answers) is Ask ==> (answer matches Err(e) ==> safe_head_step(
            search,
            answers.push(answer),
        ) == Step::<SafeL1Probe, BlockNumHash>::Fail(
            if says_node_cannot_serve(e.chain@) {
                FetchError::SafeHeadUnavailable
            } else {
                FetchError::Rpc(e)
            },
        )),
    decreases answers.len(),
{
    reveal_with_fuel(safe_head_step, 2);
    let more = answers.push(answer);
    if answers.len() > 0 {
        assert(more[0] == answers[0]);
        assert(more.skip(1) == answers.skip(1).push(answer));
        if let Ok(reply) = answers[0] {
            lemma_safe_head_step_extends(search.after(reply), answers.skip(1), answer);
        }
    } else {
        assert(more[0] == answer);
    }
}

/// Whatever was answered before, a failed answer about a safe head ends the search with that
/// failure; and once the search has ended, no further answer changes how it ended.
pub proof fn law_safe_l1_search_ends_with_a_failed_answer(
    l2_end_block: u64,
    a: SafeL1Answers,
    next: SafeL1Answers,
    answer: Result<SafeHead, RpcError>,
)
    requires
        next.finalized == a.finalized,
        next.origin == a.origin,
        next.safe_heads@ == a.safe_heads@.push(answer),
    ensures
        !(safe_l1_step(l2_end_block, a) is Ask) ==> safe_l1_step(l2_end_block, next)
            == safe_l1_step(l2_end_block, a),
        (safe_l1_step(l2_end_block, a) matches Step::Ask(SafeL1Probe::SafeHead(_))) ==> (
        answer matches Err(e) ==> safe_l1_step(l2_end_block, next) == Step::<
            SafeL1Probe,
            BlockNumHash,
        >::Fail(
            if says_node_cannot_serve(e.chain@) {
                FetchError::SafeHeadUnavailable
            } else {
                FetchError::Rpc(e)
            },
        )),
{
    if let (Some(Ok(latest)), Some(Ok(origin))) = (a.finalized, a.origin) {
        lemma_safe_head_step_extends(
            SafeHeadSearch {
                l2_end_block,
                low: origin,
                high: latest.number,
                open: origin <= latest.number,
                first_valid: None,
            },
            a.safe_heads@,
            answer,
        );
    }
}

// ---------------------------------------------------------------------------------------------
// By timestamps
// ---------------------------------------------------------------------------------------------

/// What is asked for the block at a timestamp.
#[derive(Clone, Copy, Debug)]
pub enum TimestampProbe {
    /// The number of the latest final block.
    Finalized,
    /// The block with that number; a failed request is repeated while the final blocks are
    /// searched.
    Block { number: u64, retried: bool },
}

/// Where the search stands behind the answers.
pub open spec fn timestamp_step(
    search: TimestampSearch,
    answers: Seq<Result<Option<BlockAt>, RpcError>>,
) -> Step<TimestampProbe, BlockNumHash>
    decreases answers.len(),
{
    if answers.len() == 0 {
        Step::Ask(TimestampProbe::Block { number: search.wanted(), retried: search.open })
    } else {
        match answers[0] {
            Err(e) => Step::Fail(FetchError::Rpc(e)),
            Ok(reply) => match search.after(reply) {
                TimestampStep::Probe(next) => timestamp_step(next, answers.skip(1)),
                TimestampStep::Found(block) => Step::Done(block),
                TimestampStep::Missing(number) => Step::Fail(
                    FetchError::SearchBlockNotFound(number),
                ),
            },
        }
    }
}

/// The search for the block at `target`.
pub open spec fn find_block_step(
    target: u64,
    latest: Option<Result<Option<u64>, RpcError>>,
    answers: Seq<Result<Option<BlockAt>, RpcError>>,
) -> Step<TimestampProbe, BlockNumHash> {
    match latest {
        None => Step::Ask(TimestampProbe::Finalized),
        Some(Err(e)) => Step::Fail(FetchError::Rpc(e)),
        Some(Ok(None)) => Step::Fail(FetchError::LatestBlockNotFound),
        Some(Ok(Some(number))) => timestamp_step(
            TimestampSearch { target, low: 0, high: number, open: true },
            answers,
        ),
    }
}

impl OPZisKDataFetcher {
    /// The L1 block at `target_timestamp`, or else the closest one behind it.
    pub fn find_l1_block_by_timestamp(
        target_timestamp: u64,
        latest: &Option<Result<Option<u64>, RpcError>>,
        blocks: &Vec<Result<Option<BlockAt>, RpcError>>,
    ) -> (r: Step<TimestampProbe, BlockNumHash>)
        requires
            latest matches Some(Ok(Some(number))) ==> number < u64::MAX,
        ensures
            r == find_block_step(target_timestamp, *latest, blocks@),
    {
        Self::find_block_by_timestamp(target_timestamp, latest, blocks)
    }

    /// The L2 block at `target_timestamp`, or else the closest one behind it.
    pub fn find_l2_block_by_timestamp(
        target_timestamp: u64,
        latest: &Option<Result<Option<u64>, RpcError>>,
        blocks: &Vec<Result<Option<BlockAt>, RpcError>>,
    ) -> (r: Step<TimestampProbe, BlockNumHash>)
        requires
            latest matches Some(Ok(Some(number))) ==> number < u64::MAX,
        ensures
            r == find_block_step(target_timestamp, *latest, blocks@),
    {
        Self::find_block_by_timestamp(target_timestamp, latest, blocks)
    }

    /// The block at `target_timestamp` of a chain, or else the closest one behind it, found by a
    /// binary search over the final blocks, and block by block behind them: `latest` is the answer
    /// about the latest final block, `blocks` are the answers about the blocks asked for since, in
    /// this order.
    fn find_block_by_timestamp(
        target_timestamp: u64,
        latest: &Option<Result<Option<u64>, RpcError>>,
        blocks: &Vec<Result<Option<BlockAt>, RpcError>>,
    ) -> (r: Step<TimestampProbe, BlockNumHash>)
        requires
            latest matches Some(Ok(Some(number))) ==> number < u64::MAX,
        ensures
            r == find_block_step(target_timestamp, *latest, blocks@),
    {
        let number = match latest {
            None => {
                return Step::Ask(TimestampProbe::Finalized);
            },
            Some(Err(e)) => {
                return Step::Fail(FetchError::Rpc(e.clone()));
            },
            Some(Ok(None)) => {
                return Step::Fail(FetchError::LatestBlockNotFound);
            },
            Some(Ok(Some(number))) => *number,
        };
        let mut search = TimestampSearch::new(number, target_timestamp);
        let ghost start = search;
        let mut i: usize = 0;
        assert(blocks@.skip(0) == blocks@);
        while i < blocks.len()
            invariant
                i <= blocks.len(),
                search.wf(),
                search.high < u64::MAX,
                timestamp_step(start, blocks@) == timestamp_step(search, blocks@.skip(i as int)),
                find_block_step(target_timestamp, *latest, blocks@) == timestamp_step(
                    start,
                    blocks@,
                ),
            decreases blocks.len() - i,
        {
            assert(blocks@.skip(i as int)[0] == blocks@[i as int]);
            assert(blocks@.skip(i as int).skip(1) == blocks@.skip(i + 1));
            match &blocks[i] {
                Err(e) => {
                    return Step::Fail(FetchError::Rpc(e.clone()));
                },
                Ok(reply) => match search.advance(*reply) {
                    TimestampStep::Probe(next) => {
                        search = next;
                    },
                    TimestampStep::Found(block) => {
                        return Step::Done(block);
                    },
                    TimestampStep::Missing(missing) => {
                        return Step::Fail(FetchError::SearchBlockNotFound(missing));
                    },
                },
            }
            i += 1;
        }
        Step::Ask(TimestampProbe::Block { number: search.next_block(), retried: search.open })
    }
}

/// The answers are those that `chain` gives to what the search asks for.
pub open spec fn answered_from_chain(
    search: TimestampSearch,
    answers: Seq<Result<Option<BlockAt>, RpcError>>,
    chain: Seq<BlockAt>,
) -> bool
    decreases answers.len(),
{
    answers.len() == 0 || (answers[0] matches Ok(reply) && reply == block_of(
        chain,
        search.wanted(),
    ) && (search.after(reply) matches TimestampStep::Probe(next) ==> answered_from_chain(
        next,
        answers.skip(1),
        chain,
    )))
}

proof fn lemma_timestamp_step(
    search: TimestampSearch,
    answers: Seq<Result<Option<BlockAt>, RpcError>>,
    chain: Seq<BlockAt>,
)
    requires
        search.wf(),
        search.high < u64::MAX,
        answered_from_chain(search, answers, chain),
    ensures
        match timestamp_step(search, answers) {
            Step::Ask(_) => true,
            Step::Done(block) => timestamp_result(search, chain) == TimestampStep::Found(block),
            Step::Fail(e) => timestamp_result(search, chain) matches TimestampStep::Missing(n) && e
                == FetchError::SearchBlockNotFound(n),
        },
    decreases answers.len(),
{
    if answers.len() > 0 {
        let reply = answers[0]->Ok_0;
        if let TimestampStep::Probe(next) = search.after(reply) {
            lemma_timestamp_step(next, answers.skip(1), chain);
        }
    }
}

/// Asked of a chain on which time does not run backwards, the search ends with the closest block
/// that is not before the target; it fails only where the chain has no such block.
pub proof fn law_block_at_timestamp_is_closest(
    target: u64,
    latest: u64,
    answers: Seq<Result<Option<BlockAt>, RpcError>>,
    chain: Seq<BlockAt>,
)
    requires
        is_chain(chain),
        latest < chain.len(),
        answered_from_chain(
            TimestampSearch { target, low: 0, high: latest, open: true },
            answers,
            chain,
        ),
    ensures
        match find_block_step(target, Some(Ok::<Option<u64>, RpcError>(Some(latest))), answers) {
            Step::Ask(_) => true,
            Step::Done(block) => closest_not_before(chain, target, block),
            Step::Fail(e) => {
                &&& forall|i: int|
                    0 <= i < chain.len() ==> (#[trigger] chain[i]).timestamp < target
                &&& e == FetchError::SearchBlockNotFound(chain.len() as u64)
            },
        },
{
    lemma_timestamp_step(
        TimestampSearch { target, low: 0, high: latest, open: true },
        answers,
        chain,
    );
    law_timestamp_search_finds_closest(chain, latest, target);
    if !(exists|i: int| 0 <= i < chain.len() && (#[trigger] chain[i]).timestamp >= target) {
        assert forall|i: int| 0 <= i < chain.len() implies (#[trigger] chain[i]).timestamp
            < target by {}
    }
}

/// In the call after the one with `before`, the block that was asked for there has been answered
/// from `chain`.
pub open spec fn timestamp_call_follows(
    target: u64,
    latest: u64,
    before: Seq<Result<Option<BlockAt>, RpcError>>,
    next: Seq<Result<Option<BlockAt>, RpcError>>,
    chain: Seq<BlockAt>,
) -> bool {
    match find_block_step(target, Some(Ok::<Option<u64>, RpcError>(Some(latest))), before) {
        Step::Ask(TimestampProbe::Block { number, retried }) => next == before.push(
            Ok::<Option<BlockAt>, RpcError>(
                if number < chain.len() {
                    Some(chain[number as int])
                } else {
                    None
                },
            ),
        ),
        _ => false,
    }
}

/// The calls of a whole search behind the answer about the latest final block: each call knows what
/// the one before it asked for.
pub open spec fn is_timestamp_run(
    target: u64,
    latest: u64,
    run: Seq<Seq<Result<Option<BlockAt>, RpcError>>>,
    chain: Seq<BlockAt>,
) -> bool {
    &&& run.len() > 0
    &&& run[0].len() == 0
    &&& forall|i: int, j: int|
        0 <= i && j == i + 1 && j < run.len() ==> timestamp_call_follows(
            target,
            latest,
            #[trigger] run[i],
            #[trigger] run[j],
            chain,
        )
}

proof fn lemma_timestamp_ask(
    search: TimestampSearch,
    answers: Seq<Result<Option<BlockAt>, RpcError>>,
    chain: Seq<BlockAt>,
    latest: int,
)
    requires
        timestamp_invariant(search, chain, latest),
        answered_from_chain(search, answers, chain),
    ensures
        timestamp_step(search, answers) matches Step::Ask(probe) ==> {
            &&& probe matches TimestampProbe::Block { number, retried }
            &&& answered_from_chain(
                search,
                answers.push(Ok::<Option<BlockAt>, RpcError>(block_of(chain, number))),
                chain,
            )
            &&& answers.len() < timestamp_probes(search, chain)
            &&& retried ==> number <= latest
            &&& !retried ==> {
                &&& forall|i: int|
                    0 <= i < number && i < chain.len() ==> (#[trigger] chain[i]).timestamp
                        < search.target
                &&& forall|i: int|
                    number <= i <= latest ==> (#[trigger] chain[i]).timestamp > search.target
            }
        },
    decreases answers.len(),
{
    reveal_with_fuel(answered_from_chain, 2);
    if answers.len() > 0 {
        let reply = answers[0]->Ok_0;
        lemma_timestamp_after(search, chain, latest);
        if let TimestampStep::Probe(next) = search.after(reply) {
            lemma_timestamp_ask(next, answers.skip(1), chain, latest);
            if let Step::Ask(TimestampProbe::Block { number, retried }) = timestamp_step(
                search,
                answers,
            ) {
                let answer = Ok::<Option<BlockAt>, RpcError>(block_of(chain, number));
                assert(answers.push(answer).skip(1) == answers.skip(1).push(answer));
                assert(answers.push(answer)[0] == answers[0]);
            }
        }
    } else {
        let answer = Ok::<Option<BlockAt>, RpcError>(block_of(chain, search.wanted()));
        assert(answers.push(answer)[0] == answer);
        assert(answers.push(answer).skip(1).len() == 0);
    }
}

proof fn lemma_timestamp_run(
    target: u64,
    latest: u64,
    run: Seq<Seq<Result<Option<BlockAt>, RpcError>>>,
    chain: Seq<BlockAt>,
)
    requires
        is_timestamp_run(target, latest, run, chain),
        is_chain(chain),
        latest < chain.len(),
    ensures
        ({
            let search = TimestampSearch { target, low: 0, high: latest, open: true };
            &&& run.last().len() == run.len() - 1
            &&& answered_from_chain(search, run.last(), chain)
            &&& run.last().len() <= timestamp_probes(search, chain)
        }),
    decreases run.len(),
{
    if run.len() > 1 {
        let shorter = run.drop_last();
        assert forall|i: int, j: int| 0 <= i && j == i + 1 && j < shorter.len() implies
            timestamp_call_follows(
            target,
            latest,
            #[trigger] shorter[i],
            #[trigger] shorter[j],
            chain,
        ) by {
            assert(shorter[i] == run[i] && shorter[j] == run[j]);
        }
        lemma_timestamp_run(target, latest, shorter, chain);
        let i = run.len() - 2;
        assert(timestamp_call_follows(target, latest, run[i], run[i + 1], chain));
        assert(shorter.last() == run[i]);
        lemma_timestamp_ask(
            TimestampSearch { target, low: 0, high: latest, open: true },
            run[i],
            chain,
            latest as int,
        );
    }
}

/// Run against a chain on which time does not run backwards, each answer being the block that the
/// search asked for itself, the search ends with the closest block that is not before the target,
/// and fails only where the chain has no such block, with the number of the block that follows the
/// chain. It takes at most sixty-six calls where a final block is not before the target. A request
/// is not repeated only for the first block that is not before the target, among the final ones.
pub proof fn law_timestamp_run_finds_the_closest_block(
    target: u64,
    latest: u64,
    run: Seq<Seq<Result<Option<BlockAt>, RpcError>>>,
    chain: Seq<BlockAt>,
)
    requires
        is_timestamp_run(target, latest, run, chain),
        is_chain(chain),
        latest < chain.len(),
    ensures
        run.len() <= 65 + chain.len() - latest,
        (exists|i: int| 0 <= i <= latest && (#[trigger] chain[i]).timestamp >= target)
            ==> run.len() <= 66,
        match find_block_step(
            target,
            Some(Ok::<Option<u64>, RpcError>(Some(latest))),
            run.last(),
        ) {
            Step::Ask(TimestampProbe::Finalized) => false,
            Step::Ask(TimestampProbe::Block { number, retried }) => {
                &&& retried ==> number <= latest
                &&& !retried ==> {
                    &&& forall|i: int|
                        0 <= i < number && i < chain.len() ==> (#[trigger] chain[i]).timestamp
                            < target
                    &&& forall|i: int|
                        number <= i <= latest ==> (#[trigger] chain[i]).timestamp > target
                }
            },
            Step::Done(block) => {
                &&& block.number < chain.len()
                &&& block.hash == chain[block.number as int].hash
                &&& chain[block.number as int].timestamp >= target
                &&& forall|i: int|
                    0 <= i < chain.len() && (#[trigger] chain[i]).timestamp >= target
                        ==> chain[i].timestamp >= chain[block.number as int].timestamp
            },
            Step::Fail(e) => {
                &&& forall|i: int|
                    0 <= i < chain.len() ==> (#[trigger] chain[i]).timestamp < target
                &&& e == FetchError::SearchBlockNotFound(chain.len() as u64)
            },
        },
{
    let search = TimestampSearch { target, low: 0, high: latest, open: true };
    lemma_timestamp_run(target, latest, run, chain);
    lemma_timestamp_ask(search, run.last(), chain, latest as int);
    law_timestamp_search_is_short(chain, latest, target);
    law_block_at_timestamp_is_closest(target, latest, run.last(), chain);
}

/// The search starts with the latest final block of the chain, then with the middle one of the
/// blocks up to that one; a failed answer about either ends it.
pub proof fn law_timestamp_search_starts_in_the_middle(
    target: u64,
    latest: u64,
    answers: Seq<Result<Option<BlockAt>, RpcError>>,
    e: RpcError,
)
    ensures
        find_block_step(target, None, answers) == Step::<TimestampProbe, BlockNumHash>::Ask(
            TimestampProbe::Finalized,
        ),
        find_block_step(target, Some(Err::<Option<u64>, RpcError>(e)), answers) == Step::<
            TimestampProbe,
            BlockNumHash,
        >::Fail(FetchError::Rpc(e)),
        find_block_step(target, Some(Ok::<Option<u64>, RpcError>(None)), answers) == Step::<
            TimestampProbe,
            BlockNumHash,
        >::Fail(FetchError::LatestBlockNotFound),
        answers.len() == 0 ==> find_block_step(
            target,
            Some(Ok::<Option<u64>, RpcError>(Some(latest))),
            answers,
        ) == Step::<TimestampProbe, BlockNumHash>::Ask(
            TimestampProbe::Block { number: latest / 2, retried: true },
        ),
        answers.len() > 0 && answers[0] == Err::<Option<BlockAt>, RpcError>(e) ==> find_block_step(
            target,
            Some(Ok::<Option<u64>, RpcError>(Some(latest))),
            answers,
        ) == Step::<TimestampProbe, BlockNumHash>::Fail(FetchError::Rpc(e)),
        answers.len() > 0 && answers[0] == Ok::<Option<BlockAt>, RpcError>(None)
            ==> find_block_step(
            target,
            Some(Ok::<Option<u64>, RpcError>(Some(latest))),
            answers,
        ) == Step::<TimestampProbe, BlockNumHash>::Fail(
            FetchError::SearchBlockNotFound(latest / 2),
        ),
        answers.len() > 0 && (answers[0] matches Ok(Some(block)) && block.timestamp == target)
            ==> (find_block_step(
            target,
            Some(Ok::<Option<u64>, RpcError>(Some(latest))),
            answers,
        ) matches Step::Done(found) && found.number == answers[0]->Ok_0->0.number && found.hash
            == answers[0]->Ok_0->0.hash),
{
}

proof fn lemma_timestamp_step_extends(
    search: TimestampSearch,
    answers: Seq<Result<Option<BlockAt>, RpcError>>,
    answer: Result<Option<BlockAt>, RpcError>,
)
    ensures
        !(timestamp_step(search, answers) is Ask) ==> timestamp_step(search, answers.push(answer))
            == timestamp_step(search, answers),
        timestamp_step(search, answers) matches Step::Ask(probe) ==> (
        probe matches TimestampProbe::Block { number, retried } && match answer {
            Err(e) => timestamp_step(search, answers.push(answer)) == Step::<
                TimestampProbe,
                BlockNumHash,
            >::Fail(FetchError::Rpc(e)),
            Ok(None) => timestamp_step(search, answers.push(answer)) == Step::<
                TimestampProbe,
                BlockNumHash,
            >::Fail(FetchError::SearchBlockNotFound(number)),
            Ok(Some(block)) => block.timestamp == search.target ==> timestamp_step(
                search,
                answers.push(answer),
            ) == Step::<TimestampProbe, BlockNumHash>::Done(
                BlockNumHash { number: block.number, hash: block.hash },
            ),
        }),
    decreases answers.len(),
{
    reveal_with_fuel(timestamp_step, 2);
    let more = answers.push(answer);
    if answers.len() > 0 {
        assert(more[0] == answers[0]);
        assert(more.skip(1) == answers.skip(1).push(answer));
        if let Ok(reply) = answers[0] {
            if let TimestampStep::Probe(next) = search.after(reply) {
                lemma_timestamp_step_extends(next, answers.skip(1), answer);
            }
        }
    } else {
        assert(more[0] == answer);
    }
}

/// Whatever was answered before, a failed answer, a missing block and a block at the target end the
/// search: with that failure, with the number of the block that was asked for, or with that block.
/// Once it has ended, no further answer changes how it ended.
pub proof fn law_timestamp_search_ends_with_its_answer(
    target: u64,
    latest: u64,
    answers: Seq<Result<Option<BlockAt>, RpcError>>,
    answer: Result<Option<BlockAt>, RpcError>,
)
    ensures
        ({
            let known = Some(Ok::<Option<u64>, RpcError>(Some(latest)));
            let before = find_block_step(target, known, answers);
            let r = find_block_step(target, known, answers.push(answer));
            &&& !(before is Ask) ==> r == before
            &&& before matches Step::Ask(probe) ==> (probe matches TimestampProbe::Block {
                number,
                retried,
            } && match answer {
                Err(e) => r == Step::<TimestampProbe, BlockNumHash>::Fail(FetchError::Rpc(e)),
                Ok(None) => r == Step::<TimestampProbe, BlockNumHash>::Fail(
                    FetchError::SearchBlockNotFound(number),
                ),
                Ok(Some(block)) => block.timestamp == target ==> (r matches Step::Done(found)
                    && found.number == block.number && found.hash == block.hash),
            })
        }),
{
    lemma_timestamp_step_extends(
        TimestampSearch { target, low: 0, high: latest, open: true },
        answers,
        answer,
    );
}

// ---------------------------------------------------------------------------------------------
// One way or the other
// ---------------------------------------------------------------------------------------------

/// How long a batch may take to be posted, in seconds.
pub const MAX_BATCH_POST_DELAY_SECONDS: u64 = 2400;

/// What is asked for the L1 head of an L2 block.
#[derive(Clone, Copy, Debug)]
pub enum L1HeadProbe {
    /// The L1 block as of which the L2 block with that number is safe.
    SafeBlock(u64),
    /// The header of the L2 block with that number.
    L2Header(u64),
    /// The header of the latest final L1 block.
    Finalized,
    /// The L1 block at that timestamp.
    BlockAt(u64),
}

/// The answers so far.
#[derive(Debug)]
pub struct L1HeadAnswers {
    pub safe_block: Option<Result<BlockNumHash, FetchError>>,
    pub l2_header: Option<Result<Header, FetchError>>,
    pub finalized: Option<Result<Header, FetchError>>,
    pub block_at: Option<Result<BlockNumHash, FetchError>>,
}

/// The L1 time by which the batch of an L2 block is taken to be posted: the posting delay behind
/// the L2 block, but no later than the latest final L1 block.
pub open spec fn posting_time(l2_timestamp: int, finalized_timestamp: int) -> int {
    if l2_timestamp + MAX_BATCH_POST_DELAY_SECONDS < finalized_timestamp {
        l2_timestamp + MAX_BATCH_POST_DELAY_SECONDS
    } else {
        finalized_timestamp
    }
}

/// The L1 time by which the batch of an L2 block is taken to be posted.
pub fn target_timestamp(l2_timestamp: u64, finalized_timestamp: u64) -> (r: u64)
    requires
        l2_timestamp + MAX_BATCH_POST_DELAY_SECONDS <= u64::MAX,
    ensures
        r == posting_time(l2_timestamp as int, finalized_timestamp as int),
{
    let latest = l2_timestamp + MAX_BATCH_POST_DELAY_SECONDS;
    if latest < finalized_timestamp {
        latest
    } else {
        finalized_timestamp
    }
}

/// The estimate of the L1 head by timestamps.
pub open spec fn estimate_step(l2_end_block: u64, a: L1HeadAnswers) -> Step<
    L1HeadProbe,
    BlockNumHash,
> {
    match (a.l2_header, a.finalized, a.block_at) {
        (None, _, _) => Step::Ask(L1HeadProbe::L2Header(l2_end_block)),
        (Some(Err(e)), _, _) => Step::Fail(e),
        (Some(Ok(_)), None, _) => Step::Ask(L1HeadProbe::Finalized),
        (Some(Ok(_)), Some(Err(e)), _) => Step::Fail(e),
        (Some(Ok(l2)), Some(Ok(l1)), None) => Step::Ask(
            L1HeadProbe::BlockAt(posting_time(l2.timestamp as int, l1.timestamp as int) as u64),
        ),
        (Some(Ok(_)), Some(Ok(_)), Some(Err(e))) => Step::Fail(e),
        (Some(Ok(_)), Some(Ok(_)), Some(Ok(block))) => Step::Done(block),
    }
}

impl OPZisKDataFetcher {
    /// The search for the L1 head of `l2_end_block`, with an estimate where there is no safe block.
    pub open spec fn l1_head_step(self, l2_end_block: u64, a: L1HeadAnswers) -> Step<
        L1HeadProbe,
        BlockNumHash,
    > {
        if self.rollup_config is None {
            Step::Fail(FetchError::RollupConfigNotLoaded)
        } else {
            match a.safe_block {
                None => Step::Ask(L1HeadProbe::SafeBlock(l2_end_block)),
                Some(Ok(block)) => Step::Done(block),
                Some(Err(_)) => estimate_step(l2_end_block, a),
            }
        }
    }

    /// The L1 block from which `l2_end_block` can be derived: by the record of safe heads where
    /// the rollup node keeps one, and else, where `safe_db_fallback` allows it, by the timestamp of
    /// the L2 block.
    pub fn get_l1_head(
        &self,
        l2_end_block: u64,
        safe_db_fallback: bool,
        answers: &L1HeadAnswers,
    ) -> (r: Step<L1HeadProbe, BlockNumHash>)
        requires
            answers.l2_header matches Some(Ok(header)) ==> header.timestamp
                + MAX_BATCH_POST_DELAY_SECONDS <= u64::MAX,
        ensures
            if self.rollup_config is Some && !safe_db_fallback && answers.safe_block matches Some(
                Err(_),
            ) {
                r matches Step::Fail(FetchError::SafeDbNotActivated { cause }) && cause@
                    == answers.safe_block->0->Err_0.text()
            } else {
                r == self.l1_head_step(l2_end_block, *answers)
            },
    {
        if self.rollup_config.is_none() {
            return Step::Fail(FetchError::RollupConfigNotLoaded);
        }
        match &answers.safe_block {
            None => {
                return Step::Ask(L1HeadProbe::SafeBlock(l2_end_block));
            },
            Some(Ok(block)) => {
                return Step::Done(*block);
            },
            Some(Err(e)) => {
                if !safe_db_fallback {
                    return Step::Fail(FetchError::SafeDbNotActivated { cause: e.message() });
                }
            },
        }
        let l2_timestamp = match &answers.l2_header {
            None => {
                return Step::Ask(L1HeadProbe::L2Header(l2_end_block));
            },
            Some(Err(e)) => {
                return Step::Fail(e.clone());
            },
            Some(Ok(header)) => header.timestamp,
        };
        let finalized_timestamp = match &answers.finalized {
            None => {
                return Step::Ask(L1HeadProbe::Finalized);
            },
            Some(Err(e)) => {
                return Step::Fail(e.clone());
            },
            Some(Ok(header)) => header.timestamp,
        };
        match &answers.block_at {
            None => Step::Ask(
                L1HeadProbe::BlockAt(target_timestamp(l2_timestamp, finalized_timestamp)),
            ),
            Some(Err(e)) => Step::Fail(e.clone()),
            Some(Ok(block)) => Step::Done(*block),
        }
    }
}

/// The time that an estimate aims at is no later than the latest final L1 block, and no later than
/// the posting delay allows.
pub proof fn law_estimate_is_final(l2_timestamp: u64, finalized_timestamp: u64)
    ensures
        posting_time(l2_timestamp as int, finalized_timestamp as int) <= finalized_timestamp,
        posting_time(l2_timestamp as int, finalized_timestamp as int) <= l2_timestamp
            + MAX_BATCH_POST_DELAY_SECONDS,
        l2_timestamp <= finalized_timestamp ==> l2_timestamp <= posting_time(
            l2_timestamp as int,
            finalized_timestamp as int,
        ),
{
}

/// Where the record of safe heads gives an L1 block, no estimate takes its place.
pub proof fn law_safe_block_wins(
    fetcher: OPZisKDataFetcher,
    l2_end_block: u64,
    a: L1HeadAnswers,
    block: BlockNumHash,
)
    requires
        fetcher.rollup_config is Some,
        a.safe_block == Some(Ok::<BlockNumHash, FetchError>(block)),
    ensures
        fetcher.l1_head_step(l2_end_block, a) == Step::<
            L1HeadProbe,
            BlockNumHash,
        >::Done(block),
{
}

/// The L1 head of an L2 block is asked of the record of safe heads, and its time is taken from the
/// L2 block itself. An estimate aims at forty minutes behind the L2 block, or at the latest final
/// L1 block where that is earlier.
pub proof fn law_l1_head_probes_are_about_the_block(
    fetcher: OPZisKDataFetcher,
    l2_end_block: u64,
    a: L1HeadAnswers,
)
    requires
        a.l2_header matches Some(Ok(header)) ==> header.timestamp + 2400 <= u64::MAX,
    ensures
        fetcher.l1_head_step(l2_end_block, a) matches Step::Ask(probe) ==> match probe {
            L1HeadProbe::SafeBlock(n) => n == l2_end_block,
            L1HeadProbe::L2Header(n) => n == l2_end_block && (a.safe_block matches Some(Err(_))),
            L1HeadProbe::Finalized => (a.safe_block matches Some(Err(_))) && (
            a.l2_header matches Some(Ok(_))),
            L1HeadProbe::BlockAt(time) => (a.safe_block matches Some(Err(_))) && (
            a.l2_header matches Some(Ok(l2)) && a.finalized matches Some(Ok(l1)) && {
                &&& time <= l2.timestamp + 2400
                &&& time <= l1.timestamp
                &&& time == l2.timestamp + 2400 || time == l1.timestamp
            }),
        },
{
}

/// An L1 head is the safe one, or the block at the estimated time where there is no safe one; and a
/// failure is the first one that came up behind that of the record.
pub proof fn law_l1_head_is_safe_or_estimated(
    fetcher: OPZisKDataFetcher,
    l2_end_block: u64,
    a: L1HeadAnswers,
)
    ensures
        fetcher.rollup_config is None ==> fetcher.l1_head_step(l2_end_block, a) is Fail,
        fetcher.l1_head_step(l2_end_block, a) matches Step::Done(block) ==> {
            ||| a.safe_block == Some(Ok::<BlockNumHash, FetchError>(block))
            ||| {
                &&& a.safe_block matches Some(Err(_))
                &&& a.l2_header matches Some(Ok(_))
                &&& a.finalized matches Some(Ok(_))
                &&& a.block_at == Some(Ok::<BlockNumHash, FetchError>(block))
            }
        },
        fetcher.l1_head_step(l2_end_block, a) matches Step::Fail(e) ==> {
            ||| fetcher.rollup_config is None && e == FetchError::RollupConfigNotLoaded
            ||| (a.safe_block matches Some(Err(_))) && a.l2_header == Some(
                Err::<Header, FetchError>(e),
            )
            ||| (a.safe_block matches Some(Err(_))) && (a.l2_header matches Some(Ok(_)))
                && a.finalized == Some(Err::<Header, FetchError>(e))
            ||| (a.safe_block matches Some(Err(_))) && (a.l2_header matches Some(Ok(_))) && (
            a.finalized matches Some(Ok(_))) && a.block_at == Some(
                Err::<BlockNumHash, FetchError>(e),
            )
        },
{
}

/// What is owed for an L1 head is asked one thing at a time: the safe block first, and only where
/// there is none, the header of the L2 block, the latest final L1 block and the block at the time
/// that these give.
pub proof fn law_l1_head_leaves_nothing_out(
    fetcher: OPZisKDataFetcher,
    l2_end_block: u64,
    a: L1HeadAnswers,
)
    requires
        fetcher.rollup_config is Some,
    ensures
        ({
            let r = fetcher.l1_head_step(l2_end_block, a);
            let unrecorded = a.safe_block matches Some(Err(_));
            let timed = unrecorded && (a.l2_header matches Some(Ok(_)));
            let bounded = timed && (a.finalized matches Some(Ok(_)));
            &&& (r matches Step::Ask(L1HeadProbe::SafeBlock(_))) <==> a.safe_block is None
            &&& (r matches Step::Ask(L1HeadProbe::L2Header(_))) <==> unrecorded && a.l2_header
                is None
            &&& (r matches Step::Ask(L1HeadProbe::Finalized)) <==> timed && a.finalized is None
            &&& (r matches Step::Ask(L1HeadProbe::BlockAt(_))) <==> bounded && a.block_at is None
            &&& r is Done <==> (a.safe_block matches Some(Ok(_))) || (bounded && (
            a.block_at matches Some(Ok(_))))
        }),
{
}

/// Nothing is asked twice for an L1 head, so the procedure ends.
pub proof fn law_l1_head_probe_is_new(
    fetcher: OPZisKDataFetcher,
    l2_end_block: u64,
    a: L1HeadAnswers,
)
    ensures
        fetcher.l1_head_step(l2_end_block, a) matches Step::Ask(probe) ==> match probe {
            L1HeadProbe::SafeBlock(_) => a.safe_block is None,
            L1HeadProbe::L2Header(_) => a.l2_header is None,
            L1HeadProbe::Finalized => a.finalized is None,
            L1HeadProbe::BlockAt(_) => a.block_at is None,
        },
{
}

} // verus!
