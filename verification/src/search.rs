//! Binary searches over the chain, one RPC answer at a time.

use crate::encoding::B256;
use crate::types::BlockNumHash;
use vstd::arithmetic::power2::{lemma2_to64, lemma_pow2_unfold, pow2};
use vstd::prelude::*;

verus! {

// ---------------------------------------------------------------------------------------------
// The block at a timestamp
// ---------------------------------------------------------------------------------------------

/// What the search reads of a block.
#[derive(Clone, Copy, Debug)]
pub struct BlockAt {
    pub number: u64,
    pub hash: B256,
    pub timestamp: u64,
}

/// A search for the block at `target`: while it is open, among the blocks `low` to `high`; once it
/// is closed, block by block from `low` on.
#[derive(Clone, Copy, Debug)]
pub struct TimestampSearch {
    pub target: u64,
    pub low: u64,
    pub high: u64,
    pub open: bool,
}

/// What a search does with an answer.
#[derive(Clone, Copy, Debug)]
pub enum TimestampStep {
    /// Ask for the next block.
    Probe(TimestampSearch),
    /// The search has found its block.
    Found(BlockNumHash),
    /// The block that was asked for does not exist.
    Missing(u64),
}

impl TimestampSearch {
    /// An open search has a block left.
    pub open spec fn wf(self) -> bool {
        self.open ==> self.low <= self.high
    }

    /// How many blocks are left to search.
    pub open spec fn width(self) -> nat {
        if self.open && self.low <= self.high {
            (self.high - self.low + 1) as nat
        } else {
            0
        }
    }

    /// The number of the block to ask for: the middle one while the search is open.
    pub open spec fn wanted(self) -> u64 {
        if self.open {
            ((self.low + self.high) / 2) as u64
        } else {
            self.low
        }
    }

    /// Where the search stands once the blocks up to the wanted one are known to lie before the
    /// target.
    pub open spec fn upper_half(self) -> TimestampSearch {
        let mid = self.wanted();
        TimestampSearch { low: (mid + 1) as u64, open: mid < self.high, ..self }
    }

    /// Where the search stands once the blocks from the wanted one on are known to lie behind the
    /// target.
    pub open spec fn lower_half(self) -> TimestampSearch {
        let mid = self.wanted();
        if self.low < mid {
            TimestampSearch { high: (mid - 1) as u64, ..self }
        } else {
            TimestampSearch { open: false, ..self }
        }
    }

    /// What the search does with the block it asked for. A closed search ends with the first block
    /// that does not lie before the target.
    pub open spec fn after(self, reply: Option<BlockAt>) -> TimestampStep {
        match reply {
            None => TimestampStep::Missing(self.wanted()),
            Some(block) => if block.timestamp == self.target || (!self.open && block.timestamp
                > self.target) {
                TimestampStep::Found(BlockNumHash { number: block.number, hash: block.hash })
            } else if !self.open {
                if self.low == u64::MAX {
                    TimestampStep::Missing(self.low)
                } else {
                    TimestampStep::Probe(TimestampSearch { low: (self.low + 1) as u64, ..self })
                }
            } else if block.timestamp < self.target {
                TimestampStep::Probe(self.upper_half())
            } else {
                TimestampStep::Probe(self.lower_half())
            },
        }
    }

    /// Starts a search for the block at `target` among the blocks up to `latest`.
    pub fn new(latest: u64, target: u64) -> (r: TimestampSearch)
        ensures
            r == (TimestampSearch { target, low: 0, high: latest, open: true }),
            r.wf(),
    {
        TimestampSearch { target, low: 0, high: latest, open: true }
    }

    /// The number of the block to ask for.
    pub fn next_block(&self) -> (r: u64)
        requires
            self.wf(),
        ensures
            r == self.wanted(),
            self.open ==> self.low <= r <= self.high,
    {
        if self.open {
            self.low + (self.high - self.low) / 2
        } else {
            self.low
        }
    }

    /// Takes the answer to the request for the wanted block.
    ///
    /// There is no block behind the one with the highest number that can be written, so that one
    /// may not lie before the target.
    pub fn advance(&self, reply: Option<BlockAt>) -> (r: TimestampStep)
        requires
            self.wf(),
            self.open && self.wanted() == u64::MAX && reply is Some ==> reply->0.timestamp
                >= self.target,
        ensures
            r == self.after(reply),
            r matches TimestampStep::Probe(next) ==> next.wf() && next.target == self.target
                && next.high <= self.high && next.width() <= self.width() / 2 && (!self.open
                ==> !next.open && next.low == self.low + 1),
    {
        let mid = self.next_block();
        match reply {
            None => TimestampStep::Missing(mid),
            Some(block) => {
                if block.timestamp == self.target || (!self.open && block.timestamp
                    > self.target) {
                    TimestampStep::Found(BlockNumHash { number: block.number, hash: block.hash })
                } else if !self.open {
                    if self.low == u64::MAX {
                        TimestampStep::Missing(self.low)
                    } else {
                        TimestampStep::Probe(
                            TimestampSearch {
                                target: self.target,
                                low: self.low + 1,
                                high: self.high,
                                open: false,
                            },
                        )
                    }
                } else if block.timestamp < self.target {
                    TimestampStep::Probe(
                        TimestampSearch {
                            target: self.target,
                            low: mid + 1,
                            high: self.high,
                            open: mid < self.high,
                        },
                    )
                } else if self.low < mid {
                    TimestampStep::Probe(
                        TimestampSearch {
                            target: self.target,
                            low: self.low,
                            high: mid - 1,
                            open: self.open,
                        },
                    )
                } else {
                    TimestampStep::Probe(
                        TimestampSearch {
                            target: self.target,
                            low: self.low,
                            high: self.high,
                            open: false,
                        },
                    )
                }
            },
        }
    }
}

/// The block with number `n` of a chain, where it has one.
pub open spec fn block_of(chain: Seq<BlockAt>, n: u64) -> Option<BlockAt> {
    if n < chain.len() {
        Some(chain[n as int])
    } else {
        None
    }
}

/// Blocks stand at their numbers, and time does not run backwards.
pub open spec fn is_chain(chain: Seq<BlockAt>) -> bool {
    &&& chain.len() <= u64::MAX
    &&& forall|i: int| 0 <= i < chain.len() ==> (#[trigger] chain[i]).number == i
    &&& forall|i: int, j: int|
        0 <= i <= j < chain.len() ==> (#[trigger] chain[i]).timestamp <= (
        #[trigger] chain[j]).timestamp
}

/// How many blocks of a chain have the number `n` or a higher one.
pub open spec fn blocks_from(chain: Seq<BlockAt>, n: u64) -> nat {
    if n < chain.len() {
        (chain.len() - n) as nat
    } else {
        0
    }
}

/// How a search ends when every answer comes from `chain`.
pub open spec fn timestamp_result(search: TimestampSearch, chain: Seq<BlockAt>) -> TimestampStep
    decreases
            search.width(),
            (if search.open { 1nat } else { 0nat }),
            blocks_from(chain, search.low),
    when search.wf() && search.high < u64::MAX
{
    match search.after(block_of(chain, search.wanted())) {
        TimestampStep::Probe(next) => timestamp_result(next, chain),
        step => step,
    }
}

/// How many blocks a search asks for when every answer comes from `chain`.
pub open spec fn timestamp_probes(search: TimestampSearch, chain: Seq<BlockAt>) -> nat
    decreases
            search.width(),
            (if search.open { 1nat } else { 0nat }),
            blocks_from(chain, search.low),
    when search.wf() && search.high < u64::MAX
{
    match search.after(block_of(chain, search.wanted())) {
        TimestampStep::Probe(next) => 1 + timestamp_probes(next, chain),
        step => 1,
    }
}

/// The block `b` is one of `chain`, lies at or behind `target`, and no block between the two
/// differs from it in time: it is the closest block that is not before `target`.
pub open spec fn closest_not_before(chain: Seq<BlockAt>, target: u64, b: BlockNumHash) -> bool {
    &&& b.number < chain.len()
    &&& b.hash == chain[b.number as int].hash
    &&& chain[b.number as int].timestamp >= target
    &&& forall|i: int|
        0 <= i < chain.len() && (#[trigger] chain[i]).timestamp >= target ==> chain[i].timestamp
            >= chain[b.number as int].timestamp
}

/// The search has ruled out the blocks before `low`, and, among those up to `latest`, the ones
/// behind `high` lie behind the target; a closed search has nothing left to rule out.
pub open spec fn timestamp_invariant(search: TimestampSearch, chain: Seq<BlockAt>, latest: int) -> bool {
    &&& search.wf()
    &&& is_chain(chain)
    &&& 0 <= latest < chain.len()
    &&& search.high < u64::MAX
    &&& search.open ==> search.high <= latest
    &&& forall|i: int|
        0 <= i < search.low && i < chain.len() ==> (#[trigger] chain[i]).timestamp < search.target
    &&& forall|i: int|
        (if search.open {
            search.high < i <= latest
        } else {
            search.low <= i <= latest
        }) ==> (#[trigger] chain[i]).timestamp > search.target
    &&& search.low <= chain.len()
}

pub proof fn lemma_timestamp_after(search: TimestampSearch, chain: Seq<BlockAt>, latest: int)
    requires
        timestamp_invariant(search, chain, latest),
    ensures
        search.after(block_of(chain, search.wanted())) matches TimestampStep::Probe(next)
            ==> timestamp_invariant(next, chain, latest),
{
    let n = search.wanted();
    if n < chain.len() {
        assert(chain[n as int].number == n);
    }
}

proof fn lemma_timestamp_result(search: TimestampSearch, chain: Seq<BlockAt>, latest: int)
    requires
        timestamp_invariant(search, chain, latest),
    ensures
        match timestamp_result(search, chain) {
            TimestampStep::Found(b) => closest_not_before(chain, search.target, b),
            TimestampStep::Missing(n) => n == chain.len() && forall|i: int|
                0 <= i < chain.len() ==> (#[trigger] chain[i]).timestamp < search.target,
            TimestampStep::Probe(_) => false,
        },
    decreases
            search.width(),
            (if search.open { 1nat } else { 0nat }),
            blocks_from(chain, search.low),
{
    let n = search.wanted();
    lemma_timestamp_after(search, chain, latest);
    match search.after(block_of(chain, n)) {
        TimestampStep::Probe(next) => {
            lemma_timestamp_result(next, chain, latest);
        },
        TimestampStep::Found(b) => {
            assert(chain[n as int].number == n);
            assert(closest_not_before(chain, search.target, b)) by {
                assert forall|i: int|
                    0 <= i < chain.len() && (#[trigger] chain[i]).timestamp
                        >= search.target implies chain[i].timestamp >= chain[n as int].timestamp by {
                    if i < n {
                        assert(chain[i].timestamp <= chain[n as int].timestamp);
                        if !search.open {
                            assert(i < search.low);
                        }
                    }
                }
            }
        },
        TimestampStep::Missing(m) => {
            assert(!search.open && n == search.low && n == chain.len());
        },
    }
}

/// A search over a chain ends with the closest block that is not before the target, where the
/// chain has a block that is not; otherwise it asks for the block behind the end of the chain.
pub proof fn law_timestamp_search_finds_closest(chain: Seq<BlockAt>, latest: u64, target: u64)
    requires
        is_chain(chain),
        latest < chain.len(),
    ensures
        ({
            let start = TimestampSearch { target, low: 0, high: latest, open: true };
            if exists|i: int| 0 <= i < chain.len() && (#[trigger] chain[i]).timestamp >= target {
                timestamp_result(start, chain) matches TimestampStep::Found(b)
                    && closest_not_before(chain, target, b)
            } else {
                timestamp_result(start, chain) == TimestampStep::Missing(chain.len() as u64)
            }
        }),
{
    let start = TimestampSearch { target, low: 0, high: latest, open: true };
    lemma_timestamp_result(start, chain, latest as int);
    if let TimestampStep::Found(b) = timestamp_result(start, chain) {
        assert(chain[b.number as int].timestamp >= target);
    }
}

proof fn lemma_closed_probes(search: TimestampSearch, chain: Seq<BlockAt>, latest: int)
    requires
        timestamp_invariant(search, chain, latest),
        !search.open,
    ensures
        timestamp_probes(search, chain) <= 1 + blocks_from(chain, search.low),
        search.low <= latest ==> timestamp_probes(search, chain) == 1,
    decreases blocks_from(chain, search.low),
{
    lemma_timestamp_after(search, chain, latest);
    if let TimestampStep::Probe(next) = search.after(block_of(chain, search.wanted())) {
        lemma_closed_probes(next, chain, latest);
    }
}

proof fn lemma_timestamp_probes(
    search: TimestampSearch,
    chain: Seq<BlockAt>,
    latest: int,
    bits: nat,
)
    requires
        timestamp_invariant(search, chain, latest),
        search.width() < pow2(bits),
        search.open || search.low <= latest + 1,
    ensures
        timestamp_probes(search, chain) <= bits + chain.len() - latest,
        (exists|i: int| 0 <= i <= latest && (#[trigger] chain[i]).timestamp >= search.target)
            ==> timestamp_probes(search, chain) <= bits + 1,
    decreases bits,
{
    lemma2_to64();
    if search.open {
        lemma_timestamp_after(search, chain, latest);
        if let TimestampStep::Probe(next) = search.after(block_of(chain, search.wanted())) {
            if bits > 0 {
                lemma_pow2_unfold(bits);
                lemma_timestamp_probes(next, chain, latest, (bits - 1) as nat);
            }
        }
    } else {
        lemma_closed_probes(search, chain, latest);
        if search.low > latest {
            assert(forall|i: int| 0 <= i <= latest ==> (#[trigger] chain[i]).timestamp
                < search.target);
        }
    }
}

/// A search asks for at most sixty-five blocks, however long the chain is, where a final block is
/// not before the target; otherwise also for the blocks that are not final yet.
pub proof fn law_timestamp_search_is_short(chain: Seq<BlockAt>, latest: u64, target: u64)
    requires
        is_chain(chain),
        latest < chain.len(),
    ensures
        ({
            let start = TimestampSearch { target, low: 0, high: latest, open: true };
            &&& timestamp_probes(start, chain) <= 64 + chain.len() - latest
            &&& (exists|i: int| 0 <= i <= latest && (#[trigger] chain[i]).timestamp >= target)
                ==> timestamp_probes(start, chain) <= 65
        }),
{
    lemma2_to64();
    lemma_timestamp_probes(
        TimestampSearch { target, low: 0, high: latest, open: true },
        chain,
        latest as int,
        64,
    );
}

// ---------------------------------------------------------------------------------------------
// The first L1 block with a safe head
// ---------------------------------------------------------------------------------------------

/// The answer of the rollup node about an L1 block: the L2 block that is safe as of it.
#[derive(Clone, Copy, Debug)]
pub struct SafeHead {
    pub safe_head: u64,
    pub l1_block: BlockNumHash,
}

/// A search for the first L1 block as of which `l2_end_block` is safe: while it is open, among the
/// blocks `low` to `high`. The lowest such block seen so far is `first_valid`.
#[derive(Clone, Copy, Debug)]
pub struct SafeHeadSearch {
    pub l2_end_block: u64,
    pub low: u64,
    pub high: u64,
    pub open: bool,
    pub first_valid: Option<BlockNumHash>,
}

impl SafeHeadSearch {
    /// An open search has a block left.
    pub open spec fn wf(self) -> bool {
        self.open ==> self.low <= self.high
    }

    /// How many blocks are left to search.
    pub open spec fn width(self) -> nat {
        if self.open && self.low <= self.high {
            (self.high - self.low + 1) as nat
        } else {
            0
        }
    }

    /// The number of the L1 block to ask about.
    pub open spec fn wanted(self) -> u64 {
        (self.low + (self.high - self.low) / 2) as u64
    }

    /// Where the search stands behind an answer about the wanted block.
    pub open spec fn after(self, reply: SafeHead) -> SafeHeadSearch {
        let mid = self.wanted();
        if reply.safe_head >= self.l2_end_block {
            SafeHeadSearch {
                first_valid: Some(reply.l1_block),
                high: if self.low < mid {
                    (mid - 1) as u64
                } else {
                    self.high
                },
                open: self.low < mid,
                ..self
            }
        } else {
            SafeHeadSearch {
                low: if mid < self.high {
                    (mid + 1) as u64
                } else {
                    self.low
                },
                open: mid < self.high,
                ..self
            }
        }
    }

    /// Starts a search among the L1 blocks `origin` to `latest`.
    pub fn new(l2_end_block: u64, origin: u64, latest: u64) -> (r: SafeHeadSearch)
        ensures
            r == (SafeHeadSearch {
                l2_end_block,
                low: origin,
                high: latest,
                open: origin <= latest,
                first_valid: None,
            }),
            r.wf(),
    {
        SafeHeadSearch {
            l2_end_block,
            low: origin,
            high: latest,
            open: origin <= latest,
            first_valid: None,
        }
    }

    /// The number of the L1 block to ask about; `None` once the search is over.
    pub fn next_block(&self) -> (r: Option<u64>)
        requires
            self.wf(),
        ensures
            r == if self.open {
                Some(self.wanted())
            } else {
                None
            },
            r matches Some(n) ==> self.low <= n <= self.high,
    {
        if self.open {
            Some(self.low + (self.high - self.low) / 2)
        } else {
            None
        }
    }

    /// Takes the answer about the wanted block.
    pub fn advance(&self, reply: SafeHead) -> (r: SafeHeadSearch)
        requires
            self.wf(),
            self.open,
        ensures
            r == self.after(reply),
            r.wf(),
            r.width() <= self.width() / 2,
    {
        let mid = self.low + (self.high - self.low) / 2;
        if reply.safe_head >= self.l2_end_block {
            SafeHeadSearch {
                l2_end_block: self.l2_end_block,
                low: self.low,
                high: if self.low < mid {
                    mid - 1
                } else {
                    self.high
                },
                open: self.low < mid,
                first_valid: Some(reply.l1_block),
            }
        } else {
            SafeHeadSearch {
                l2_end_block: self.l2_end_block,
                low: if mid < self.high {
                    mid + 1
                } else {
                    self.low
                },
                high: self.high,
                open: mid < self.high,
                first_valid: self.first_valid,
            }
        }
    }
}

/// `heads[n]` is the answer about L1 block `n`, and a safe block stays safe.
pub open spec fn is_safe_head_record(heads: Seq<SafeHead>) -> bool {
    &&& forall|i: int, j: int|
        0 <= i <= j < heads.len() ==> (#[trigger] heads[i]).safe_head <= (
        #[trigger] heads[j]).safe_head
}

/// How a search ends when every answer comes from `heads`.
pub open spec fn safe_head_result(search: SafeHeadSearch, heads: Seq<SafeHead>) -> Option<
    BlockNumHash,
>
    decreases search.width(),
    when search.wf()
{
    if search.open {
        safe_head_result(search.after(heads[search.wanted() as int]), heads)
    } else {
        search.first_valid
    }
}

/// How many L1 blocks a search asks about when every answer comes from `heads`.
pub open spec fn safe_head_probes(search: SafeHeadSearch, heads: Seq<SafeHead>) -> nat
    decreases search.width(),
    when search.wf()
{
    if search.open {
        1 + safe_head_probes(search.after(heads[search.wanted() as int]), heads)
    } else {
        0
    }
}

/// `found` is the first of the L1 blocks `origin` to `latest` as of which `l2_end_block` is safe,
/// or `None` where it is safe as of none of them.
pub open spec fn is_first_safe(
    heads: Seq<SafeHead>,
    origin: int,
    latest: int,
    l2_end_block: u64,
    found: Option<BlockNumHash>,
) -> bool {
    match found {
        None => forall|i: int|
            origin <= i <= latest ==> (#[trigger] heads[i]).safe_head < l2_end_block,
        Some(b) => exists|k: int|
            {
                &&& origin <= k <= latest
                &&& b == (#[trigger] heads[k]).l1_block
                &&& heads[k].safe_head >= l2_end_block
                &&& forall|i: int| origin <= i < k ==> (#[trigger] heads[i]).safe_head < l2_end_block
            },
    }
}

proof fn lemma_safe_head_result(
    search: SafeHeadSearch,
    heads: Seq<SafeHead>,
    origin: int,
    latest: int,
)
    requires
        search.wf(),
        is_safe_head_record(heads),
        0 <= origin,
        latest < heads.len(),
        search.open ==> {
            &&& origin <= search.low
            &&& search.high <= latest
            &&& forall|i: int|
                origin <= i < search.low ==> (#[trigger] heads[i]).safe_head < search.l2_end_block
            &&& match search.first_valid {
                None => search.high == latest,
                Some(b) => search.high < latest && b == heads[search.high + 1].l1_block
                    && heads[search.high + 1].safe_head >= search.l2_end_block,
            }
        },
        !search.open ==> is_first_safe(
            heads,
            origin,
            latest,
            search.l2_end_block,
            search.first_valid,
        ),
    ensures
        is_first_safe(
            heads,
            origin,
            latest,
            search.l2_end_block,
            safe_head_result(search, heads),
        ),
    decreases search.width(),
{
    if search.open {
        let mid = search.wanted();
        let reply = heads[mid as int];
        let next = search.after(reply);
        if !next.open {
            if reply.safe_head >= search.l2_end_block {
                assert(mid == search.low);
                assert(heads[mid as int].l1_block == reply.l1_block);
            } else {
                assert(mid == search.high);
                match search.first_valid {
                    None => {},
                    Some(b) => {
                        let k = search.high + 1;
                        assert(b == heads[k].l1_block);
                        assert forall|i: int| origin <= i < k implies (
                        #[trigger] heads[i]).safe_head < search.l2_end_block by {
                            assert(heads[i].safe_head <= heads[mid as int].safe_head);
                        }
                    },
                }
            }
        }
        lemma_safe_head_result(next, heads, origin, latest);
    }
}

/// The search finds the first L1 block, from the origin of the L2 block on and up to the latest
/// final one, as of which the L2 block is safe, and fails only where it is safe as of none.
pub proof fn law_safe_head_search_finds_first(
    heads: Seq<SafeHead>,
    l2_end_block: u64,
    origin: u64,
    latest: u64,
)
    requires
        is_safe_head_record(heads),
        latest < heads.len(),
    ensures
        is_first_safe(
            heads,
            origin as int,
            latest as int,
            l2_end_block,
            safe_head_result(
                SafeHeadSearch {
                    l2_end_block,
                    low: origin,
                    high: latest,
                    open: origin <= latest,
                    first_valid: None,
                },
                heads,
            ),
        ),
{
    lemma_safe_head_result(
        SafeHeadSearch {
            l2_end_block,
            low: origin,
            high: latest,
            open: origin <= latest,
            first_valid: None,
        },
        heads,
        origin as int,
        latest as int,
    );
}

proof fn lemma_safe_head_probes(search: SafeHeadSearch, heads: Seq<SafeHead>, bits: nat)
    requires
        search.wf(),
        search.width() < pow2(bits),
    ensures
        safe_head_probes(search, heads) <= bits,
    decreases bits,
{
    lemma2_to64();
    if search.open {
        if bits > 0 {
            lemma_pow2_unfold(bits);
            lemma_safe_head_probes(
                search.after(heads[search.wanted() as int]),
                heads,
                (bits - 1) as nat,
            );
        }
    }
}

/// The search asks about at most sixty-five L1 blocks.
pub proof fn law_safe_head_search_is_short(search: SafeHeadSearch, heads: Seq<SafeHead>)
    requires
        search.wf(),
    ensures
        safe_head_probes(search, heads) <= 65,
{
    lemma2_to64();
    lemma_pow2_unfold(65);
    lemma_safe_head_probes(search, heads, 65);
}

} // verus!
