//! Headers of both chains, one at a time, in batches and in ranges.

use crate::encoding::B256;
use crate::errors::FetchError;
use crate::fetcher::{OPZisKDataFetcher, Step};
use crate::outside::{
    decode_op_block_header, keccak256, keccak256_of, l2_block_info, l2_block_info_of,
    op_block_header, L2BlockInfoView,
};
use crate::rpc::RpcError;
use crate::types::{BlockTag, BootInfoStruct, ChainGenesis, Header, HeaderView, L2BlockInfo};
use vstd::prelude::*;
use vstd::string::*;

verus! {

// ---------------------------------------------------------------------------------------------
// Single headers
// ---------------------------------------------------------------------------------------------

impl Header {
    /// The hash of the block: the digest of the encoded header.
    pub fn hash_slow(&self) -> (r: B256)
        ensures
            r@ == keccak256_of(self.rlp@),
    {
        keccak256(&self.rlp)
    }
}

/// The header that an answer gives, or the failure: `missing` where there is no such block.
pub open spec fn header_or(
    reply: Result<Option<Header>, RpcError>,
    missing: FetchError,
) -> Result<Header, FetchError> {
    match reply {
        Ok(Some(header)) => Ok(header),
        Ok(None) => Err(missing),
        Err(e) => Err(FetchError::Rpc(e)),
    }
}

/// The header that an answer holds is handed on; a missing block and a failed request are told
/// apart.
pub proof fn law_header_answer_is_handed_on(
    reply: Result<Option<Header>, RpcError>,
    missing: FetchError,
)
    ensures
        header_or(reply, missing) is Ok <==> (reply matches Ok(Some(_))),
        header_or(reply, missing) matches Ok(header) ==> reply == Ok::<Option<Header>, RpcError>(
            Some(header),
        ),
        reply matches Ok(None) ==> header_or(reply, missing) == Err::<Header, FetchError>(missing),
        reply matches Err(e) ==> header_or(reply, missing) == Err::<Header, FetchError>(
            FetchError::Rpc(e),
        ),
{
}

/// What is said of a header by its contents is said of its number, its time and its encoding.
pub proof fn law_header_is_its_contents(a: Header, b: Header, v: Seq<Header>, w: Seq<Header>)
    ensures
        a@ == b@ <==> a.number == b.number && a.timestamp == b.timestamp && a.rlp@ == b.rlp@,
        header_views(v) == header_views(w) <==> v.len() == w.len() && forall|i: int|
            0 <= i < v.len() ==> (#[trigger] v[i])@ == w[i]@,
{
    if header_views(v) == header_views(w) {
        assert(header_views(v).len() == v.len() && header_views(w).len() == w.len());
        assert forall|i: int| 0 <= i < v.len() implies (#[trigger] v[i])@ == w[i]@ by {
            assert(header_views(v)[i] == v[i]@ && header_views(w)[i] == w[i]@);
        }
    }
    if v.len() == w.len() && forall|i: int| 0 <= i < v.len() ==> (#[trigger] v[i])@ == w[i]@ {
        assert forall|i: int| 0 <= i < v.len() implies header_views(v)[i] == header_views(w)[i] by {
            assert(v[i]@ == w[i]@);
        }
        assert(header_views(v) =~= header_views(w));
    }
}

/// An L2 block: its header and its encoding.
#[derive(Debug)]
pub struct OpBlock {
    pub header: Header,
    pub raw: Vec<u8>,
}

/// What is asked for the header of an L2 block.
#[derive(Clone, Copy, Debug)]
pub enum L2HeaderProbe {
    /// The block, by the block API.
    Block(BlockTag),
    /// The block with that number, by its encoding.
    RawBlock(u64),
}

/// The answers so far.
#[derive(Debug)]
pub struct L2HeaderAnswers {
    pub block: Option<Result<Option<Header>, RpcError>>,
    pub raw_block: Option<Result<OpBlock, FetchError>>,
}

impl OPZisKDataFetcher {
    /// The head of the L2 chain, from the answer to the request for the latest block.
    pub fn get_l2_head(reply: Result<Option<Header>, RpcError>) -> (r: Result<Header, FetchError>)
        ensures
            r == header_or(reply, FetchError::L2HeadNotFound),
    {
        match reply {
            Ok(Some(header)) => Ok(header),
            Ok(None) => Err(FetchError::L2HeadNotFound),
            Err(e) => Err(FetchError::Rpc(e)),
        }
    }

    /// The header of an L1 block, from the answer to the request for it.
    pub fn get_l1_header(tag: BlockTag, reply: Result<Option<Header>, RpcError>) -> (r: Result<
        Header,
        FetchError,
    >)
        ensures
            r == header_or(reply, FetchError::L1HeaderNotFound(tag)),
    {
        match reply {
            Ok(Some(header)) => Ok(header),
            Ok(None) => Err(FetchError::L1HeaderNotFound(tag)),
            Err(e) => Err(FetchError::Rpc(e)),
        }
    }

    /// The L2 block that an encoding gives, or why there is none.
    pub fn get_l2_block_by_number(reply: Result<Vec<u8>, RpcError>) -> (r: Result<
        OpBlock,
        FetchError,
    >)
        ensures
            match (reply, r) {
                (Ok(raw), Ok(block)) => block.raw == raw && op_block_header(raw@) == Ok::<
                    (u64, u64, Seq<u8>),
                    Seq<char>,
                >((block.header.number, block.header.timestamp, block.header.rlp@)),
                (Ok(raw), Err(FetchError::BlockDecode(text))) => op_block_header(raw@) == Err::<
                    (u64, u64, Seq<u8>),
                    Seq<char>,
                >(text@),
                (Err(e), Err(FetchError::Rpc(e2))) => e == e2,
                _ => false,
            },
    {
        match reply {
            Ok(raw) => match decode_op_block_header(&raw) {
                Ok(header) => Ok(OpBlock { header, raw }),
                Err(text) => Err(FetchError::BlockDecode(text)),
            },
            Err(e) => Err(FetchError::Rpc(e)),
        }
    }

    /// The header of an L2 block. Where the block API does not know the block and the block is
    /// named by its number, the header comes from the encoding of the block.
    pub fn get_l2_header(tag: BlockTag, answers: &L2HeaderAnswers) -> (r: Step<
        L2HeaderProbe,
        Header,
    >)
        ensures
            match r {
                Step::Ask(L2HeaderProbe::Block(t)) => answers.block is None && t == tag,
                Step::Ask(L2HeaderProbe::RawBlock(n)) => answers.block matches Some(Ok(None))
                    && tag == BlockTag::Number(n) && answers.raw_block is None,
                Step::Done(header) => answers.block matches Some(Ok(reply)) && match reply {
                    Some(h) => header@ == h@,
                    None => tag is Number && (answers.raw_block matches Some(Ok(block))
                        && header@ == block.header@),
                },
                Step::Fail(e) => answers.block matches Some(reply) && match reply {
                    Err(e2) => e == FetchError::Rpc(e2),
                    Ok(Some(_)) => false,
                    Ok(None) => if tag is Number {
                        answers.raw_block matches Some(Err(e2)) && e == e2
                    } else {
                        e == FetchError::L2HeaderNotFound(tag)
                    },
                },
            },
    {
        match &answers.block {
            None => Step::Ask(L2HeaderProbe::Block(tag)),
            Some(Err(e)) => Step::Fail(FetchError::Rpc(e.clone())),
            Some(Ok(Some(header))) => Step::Done(header.clone()),
            Some(Ok(None)) => match tag {
                BlockTag::Number(n) => match &answers.raw_block {
                    None => Step::Ask(L2HeaderProbe::RawBlock(n)),
                    Some(Ok(block)) => Step::Done(block.header.clone()),
                    Some(Err(e)) => Step::Fail(e.clone()),
                },
                _ => Step::Fail(FetchError::L2HeaderNotFound(tag)),
            },
        }
    }

    /// What [`l2_block_info_of`] says of a block of the chain that starts at `genesis`.
    pub open spec fn info_of(raw: Seq<u8>, genesis: ChainGenesis) -> Result<
        L2BlockInfoView,
        Seq<char>,
    > {
        l2_block_info_of(
            raw,
            genesis.l1.number,
            genesis.l1.hash@,
            genesis.l2.number,
            genesis.l2.hash@,
        )
    }

    /// An L2 block with its L1 origin, from the encoding of the block; asks for the encoding where
    /// it is `None`.
    pub fn l2_block_info_by_number(&self, raw: Option<Result<Vec<u8>, RpcError>>) -> (r: Step<
        (),
        L2BlockInfo,
    >)
        ensures
            match (self.rollup_config, raw, r) {
                (None, _, Step::Fail(e)) => e == FetchError::RollupConfigNotLoaded,
                (None, _, _) => false,
                (Some(_), None, Step::Ask(())) => true,
                (Some(_), Some(Err(e)), Step::Fail(FetchError::Rpc(e2))) => e == e2,
                (Some(_), Some(Ok(bytes)), Step::Fail(FetchError::BlockDecode(text))) =>
                    op_block_header(bytes@) == Err::<(u64, u64, Seq<u8>), Seq<char>>(text@),
                (Some(config), Some(Ok(bytes)), Step::Fail(FetchError::NotAnL2Block(text))) =>
                    op_block_header(bytes@) is Ok && Self::info_of(bytes@, config.genesis) == Err::<
                        L2BlockInfoView,
                        Seq<char>,
                    >(text@),
                (Some(config), Some(Ok(bytes)), Step::Done(info)) => op_block_header(bytes@) is Ok
                    && Self::info_of(bytes@, config.genesis) == Ok::<L2BlockInfoView, Seq<char>>(
                    info@,
                ),
                _ => false,
            },
    {
        let genesis = match &self.rollup_config {
            Some(config) => config.genesis,
            None => {
                return Step::Fail(FetchError::RollupConfigNotLoaded);
            },
        };
        let reply = match raw {
            Some(reply) => reply,
            None => {
                return Step::Ask(());
            },
        };
        match Self::get_l2_block_by_number(reply) {
            Ok(block) => match l2_block_info(&block.raw, &genesis) {
                Ok(info) => Step::Done(info),
                Err(text) => Step::Fail(FetchError::NotAnL2Block(text)),
            },
            Err(e) => Step::Fail(e),
        }
    }
}

/// What an L2 block says of itself is read with the two genesis blocks of its chain; and what is
/// said of it by its contents is said of its hashes, its numbers and its time.
pub proof fn law_block_info_goes_with_the_genesis(
    raw: Seq<u8>,
    genesis: ChainGenesis,
    a: L2BlockInfo,
    b: L2BlockInfo,
)
    ensures
        OPZisKDataFetcher::info_of(raw, genesis) == l2_block_info_of(
            raw,
            genesis.l1.number,
            genesis.l1.hash@,
            genesis.l2.number,
            genesis.l2.hash@,
        ),
        a@ == b@ <==> {
            &&& a.hash@ == b.hash@
            &&& a.number == b.number
            &&& a.parent_hash@ == b.parent_hash@
            &&& a.timestamp == b.timestamp
            &&& a.l1_origin.number == b.l1_origin.number
            &&& a.l1_origin.hash@ == b.l1_origin.hash@
            &&& a.seq_num == b.seq_num
        },
{
}

// ---------------------------------------------------------------------------------------------
// The L1 heads of a batch
// ---------------------------------------------------------------------------------------------

/// No result is a failure.
pub open spec fn all_ok<T>(results: Seq<Result<T, FetchError>>) -> bool {
    forall|i: int| 0 <= i < results.len() ==> (#[trigger] results[i]) is Ok
}

/// `results[i]` is the first failure.
pub open spec fn fails_first_at<T>(results: Seq<Result<T, FetchError>>, i: int) -> bool {
    &&& 0 <= i < results.len()
    &&& results[i] is Err
    &&& forall|j: int| 0 <= j < i ==> (#[trigger] results[j]) is Ok
}

/// `e` is the first failure.
pub open spec fn is_first_failure<T>(results: Seq<Result<T, FetchError>>, e: FetchError) -> bool {
    exists|i: int| #[trigger] fails_first_at(results, i) && results[i]->Err_0 == e
}

/// The header at `i` is the first of those with the lowest number.
pub open spec fn earliest_at(heads: Seq<Result<Header, FetchError>>, i: int) -> bool {
    &&& 0 <= i < heads.len()
    &&& forall|j: int|
        0 <= j < heads.len() ==> heads[i]->Ok_0.number <= (#[trigger] heads[j])->Ok_0.number
    &&& forall|j: int| 0 <= j < i ==> heads[i]->Ok_0.number < (#[trigger] heads[j])->Ok_0.number
}

/// The header at `i` is the first of those with the highest number.
pub open spec fn latest_at(heads: Seq<Result<Header, FetchError>>, i: int) -> bool {
    &&& 0 <= i < heads.len()
    &&& forall|j: int|
        0 <= j < heads.len() ==> (#[trigger] heads[j])->Ok_0.number <= heads[i]->Ok_0.number
    &&& forall|j: int| 0 <= j < i ==> (#[trigger] heads[j])->Ok_0.number < heads[i]->Ok_0.number
}

/// The first failure among the results, if any.
pub fn first_failure<T>(results: &Vec<Result<T, FetchError>>) -> (r: Option<FetchError>)
    ensures
        match r {
            Some(e) => is_first_failure(results@, e) && !all_ok(results@),
            None => all_ok(results@),
        },
{
    let mut i: usize = 0;
    while i < results.len()
        invariant
            i <= results.len(),
            forall|j: int| 0 <= j < i ==> (#[trigger] results@[j]) is Ok,
        decreases results.len() - i,
    {
        if let Err(e) = &results[i] {
            assert(fails_first_at(results@, i as int));
            return Some(e.clone());
        }
        i += 1;
    }
    None
}

impl OPZisKDataFetcher {
    /// The earliest L1 head of a batch of boot infos, from the headers fetched so far, in the order
    /// of the boot infos; asks for the next one where there is none for a boot info.
    pub fn get_earliest_l1_head_in_batch(
        boot_infos: &Vec<BootInfoStruct>,
        heads: &Vec<Result<Header, FetchError>>,
    ) -> (r: Step<BlockTag, Header>)
        requires
            boot_infos.len() > 0,
            heads.len() <= boot_infos.len(),
        ensures
            match r {
                Step::Fail(e) => is_first_failure(heads@, e),
                Step::Ask(tag) => all_ok(heads@) && heads.len() < boot_infos.len() && tag
                    == BlockTag::Hash(boot_infos[heads.len() as int].l1Head),
                Step::Done(header) => all_ok(heads@) && heads.len() == boot_infos.len() && exists|
                    i: int,
                |
                    #[trigger] earliest_at(heads@, i) && header@ == heads[i]->Ok_0@,
            },
    {
        if let Some(e) = first_failure(heads) {
            return Step::Fail(e);
        }
        if heads.len() < boot_infos.len() {
            return Step::Ask(BlockTag::Hash(boot_infos[heads.len()].l1Head));
        }
        let mut best: usize = 0;
        let mut i: usize = 1;
        while i < heads.len()
            invariant
                heads.len() > 0,
                all_ok(heads@),
                best < i <= heads.len(),
                earliest_at(heads@.take(i as int), best as int),
            decreases heads.len() - i,
        {
            assert(heads@.take(i + 1).take(i as int) == heads@.take(i as int));
            assert(forall|j: int| 0 <= j < i ==> heads@.take(i as int)[j] == heads@[j]);
            assert(heads@[i as int] is Ok && heads@[best as int] is Ok);
            if number_of(&heads[i]) < number_of(&heads[best]) {
                best = i;
            }
            i += 1;
        }
        assert(heads@.take(i as int) == heads@);
        assert(heads@[best as int] is Ok);
        match &heads[best] {
            Ok(header) => Step::Done(header.clone()),
            Err(e) => Step::Fail(e.clone()),
        }
    }

    /// The latest L1 head of a batch of boot infos, likewise. Fails where the batch is empty.
    pub fn get_latest_l1_head_in_batch(
        boot_infos: &Vec<BootInfoStruct>,
        heads: &Vec<Result<Header, FetchError>>,
    ) -> (r: Step<BlockTag, Header>)
        requires
            heads.len() <= boot_infos.len(),
        ensures
            match r {
                Step::Fail(e) => is_first_failure(heads@, e) || (boot_infos.len() == 0 && e
                    == FetchError::LatestL1HeadNotFound),
                Step::Ask(tag) => all_ok(heads@) && heads.len() < boot_infos.len() && tag
                    == BlockTag::Hash(boot_infos[heads.len() as int].l1Head),
                Step::Done(header) => all_ok(heads@) && heads.len() == boot_infos.len() && exists|
                    i: int,
                |
                    #[trigger] latest_at(heads@, i) && header@ == heads[i]->Ok_0@,
            },
    {
        if let Some(e) = first_failure(heads) {
            return Step::Fail(e);
        }
        if heads.len() < boot_infos.len() {
            return Step::Ask(BlockTag::Hash(boot_infos[heads.len()].l1Head));
        }
        if heads.len() == 0 {
            return Step::Fail(FetchError::LatestL1HeadNotFound);
        }
        let mut best: usize = 0;
        let mut i: usize = 1;
        while i < heads.len()
            invariant
                heads.len() > 0,
                all_ok(heads@),
                best < i <= heads.len(),
                latest_at(heads@.take(i as int), best as int),
            decreases heads.len() - i,
        {
            assert(forall|j: int| 0 <= j < i ==> heads@.take(i as int)[j] == heads@[j]);
            assert(heads@[i as int] is Ok && heads@[best as int] is Ok);
            if number_of(&heads[i]) > number_of(&heads[best]) {
                best = i;
            }
            i += 1;
        }
        assert(heads@.take(i as int) == heads@);
        assert(heads@[best as int] is Ok);
        match &heads[best] {
            Ok(header) => Step::Done(header.clone()),
            Err(e) => Step::Fail(e.clone()),
        }
    }
}

/// The number of a fetched header.
fn number_of(result: &Result<Header, FetchError>) -> (r: u64)
    requires
        result is Ok,
    ensures
        r == result->Ok_0.number,
{
    match result {
        Ok(header) => header.number,
        Err(_) => 0,
    }
}

/// In every batch, the earliest head does not lie behind the latest one.
pub proof fn law_earliest_not_behind_latest(
    heads: Seq<Result<Header, FetchError>>,
    i: int,
    j: int,
)
    requires
        earliest_at(heads, i),
        latest_at(heads, j),
    ensures
        heads[i]->Ok_0.number <= heads[j]->Ok_0.number,
{
}

/// No head of a batch has a lower number than the earliest one, and of those with the same number
/// it is the first; and likewise the latest one.
pub proof fn law_earliest_and_latest_are_extremes(
    heads: Seq<Result<Header, FetchError>>,
    i: int,
    k: int,
)
    requires
        0 <= k < heads.len(),
    ensures
        earliest_at(heads, i) ==> 0 <= i < heads.len() && heads[i]->Ok_0.number
            <= heads[k]->Ok_0.number && (heads[i]->Ok_0.number == heads[k]->Ok_0.number ==> i <= k),
        latest_at(heads, i) ==> 0 <= i < heads.len() && heads[i]->Ok_0.number
            >= heads[k]->Ok_0.number && (heads[i]->Ok_0.number == heads[k]->Ok_0.number ==> i <= k),
{
}

/// The failure of several requests is that of the first one that failed: those before it did not.
pub proof fn law_first_failure_has_none_before_it<T>(
    results: Seq<Result<T, FetchError>>,
    e: FetchError,
)
    ensures
        is_first_failure(results, e) ==> !all_ok(results) && exists|i: int|
            {
                &&& 0 <= i < results.len()
                &&& #[trigger] results[i] == Err::<T, FetchError>(e)
                &&& forall|j: int| 0 <= j < i ==> (#[trigger] results[j]) is Ok
            },
        all_ok(results) <==> forall|j: int|
            0 <= j < results.len() ==> !((#[trigger] results[j]) is Err),
{
    if is_first_failure(results, e) {
        let i = choose|i: int| #[trigger] fails_first_at(results, i) && results[i]->Err_0 == e;
        assert(results[i] is Err);
    }
}

// ---------------------------------------------------------------------------------------------
// Ranges of headers
// ---------------------------------------------------------------------------------------------

/// How many numbers `start..=end` holds.
pub open spec fn inclusive_len(start: int, end: int) -> nat {
    if start <= end {
        (end - start + 1) as nat
    } else {
        0
    }
}

/// The numbers from `start` to `end`, both of them included.
pub open spec fn inclusive(start: int, end: int) -> Seq<u64> {
    Seq::new(inclusive_len(start, end), |i: int| (start + i) as u64)
}

/// The numbers from `start` to `end`, both of them included.
pub fn inclusive_numbers(start: u64, end: u64) -> (r: Vec<u64>)
    requires
        inclusive_len(start as int, end as int) <= usize::MAX,
    ensures
        r@ == inclusive(start as int, end as int),
{
    let mut out: Vec<u64> = Vec::new();
    if start <= end {
        let mut n: u64 = start;
        while n < end
            invariant
                start <= n <= end,
                out@ == Seq::new((n - start) as nat, |i: int| (start + i) as u64),
            decreases end - n,
        {
            out.push(n);
            n += 1;
        }
        out.push(n);
    }
    out
}

/// What is asked for the headers that link the boot infos of a batch to the checkpoint.
#[derive(Clone, Copy, Debug)]
pub enum PreimageProbe {
    /// The header of the next L1 head of the batch.
    Head(BlockTag),
    /// The header of the checkpoint.
    Checkpoint(BlockTag),
    /// The headers of the L1 blocks from `start` to `end`, both of them included.
    Range { start: u64, end: u64 },
}

/// The answers so far: the headers of the L1 heads in the order of the boot infos, the header of
/// the checkpoint, and the headers in between.
#[derive(Debug)]
pub struct PreimageAnswers {
    pub heads: Vec<Result<Header, FetchError>>,
    pub checkpoint: Option<Result<Header, FetchError>>,
    pub headers: Option<Result<Vec<Header>, FetchError>>,
}

impl PreimageAnswers {
    /// Every L1 head of a batch of that many boot infos has its header.
    pub open spec fn knows_heads(self, batch: nat) -> bool {
        all_ok(self.heads@) && self.heads@.len() == batch
    }
}

/// The headers in `v`.
pub open spec fn header_views(v: Seq<Header>) -> Seq<HeaderView> {
    v.map_values(|h: Header| h@)
}

/// Copies of the headers in `v`.
pub fn clone_headers(v: &Vec<Header>) -> (r: Vec<Header>)
    ensures
        header_views(r@) == header_views(v@),
{
    let mut out: Vec<Header> = Vec::new();
    let mut i: usize = 0;
    while i < v.len()
        invariant
            i <= v.len(),
            header_views(out@) == header_views(v@.take(i as int)),
        decreases v.len() - i,
    {
        out.push(v[i].clone());
        assert(header_views(out@) == header_views(v@.take(i + 1))) by {
            assert(v@.take(i + 1) == v@.take(i as int).push(v@[i as int]));
            assert(header_views(out@) == header_views(out@.drop_last()).push(v@[i as int]@));
            assert(header_views(v@.take(i + 1)) == header_views(v@.take(i as int)).push(
                v@[i as int]@,
            ));
        }
        i += 1;
    }
    assert(v@.take(i as int) == v@);
    out
}

impl OPZisKDataFetcher {
    /// The headers of the L1 blocks from `start` to `end`, both of them included, from the results
    /// of fetching each of them in this order; the first failure where one failed.
    pub fn fetch_headers_in_range(
        start: u64,
        end: u64,
        results: &Vec<Result<Header, FetchError>>,
    ) -> (r: Result<Vec<Header>, FetchError>)
        requires
            results.len() == inclusive_len(start as int, end as int),
        ensures
            match r {
                Ok(headers) => all_ok(results@) && headers.len() == inclusive_len(
                    start as int,
                    end as int,
                ) && forall|i: int|
                    0 <= i < headers.len() ==> (#[trigger] headers[i])@ == results[i]->Ok_0@,
                Err(e) => is_first_failure(results@, e),
            },
    {
        let mut headers: Vec<Header> = Vec::new();
        let mut i: usize = 0;
        while i < results.len()
            invariant
                i <= results.len(),
                headers.len() == i,
                forall|j: int| 0 <= j < i ==> (#[trigger] results@[j]) is Ok,
                forall|j: int| 0 <= j < i ==> (#[trigger] headers[j])@ == results[j]->Ok_0@,
            decreases results.len() - i,
        {
            match &results[i] {
                Ok(header) => headers.push(header.clone()),
                Err(e) => {
                    assert(fails_first_at(results@, i as int));
                    return Err(e.clone());
                },
            }
            i += 1;
        }
        Ok(headers)
    }

    /// The headers from the earliest L1 head of a batch of boot infos up to the checkpoint.
    pub fn get_header_preimages(
        boot_infos: &Vec<BootInfoStruct>,
        checkpoint_block_hash: B256,
        answers: &PreimageAnswers,
    ) -> (r: Step<PreimageProbe, Vec<Header>>)
        requires
            boot_infos.len() > 0,
            answers.heads.len() <= boot_infos.len(),
        ensures
            match r {
                Step::Ask(PreimageProbe::Head(tag)) => all_ok(answers.heads@) && answers.heads.len()
                    < boot_infos.len() && tag == BlockTag::Hash(
                    boot_infos[answers.heads.len() as int].l1Head,
                ),
                Step::Ask(PreimageProbe::Checkpoint(tag)) => answers.knows_heads(boot_infos@.len())
                    && answers.checkpoint is None && tag == BlockTag::Hash(checkpoint_block_hash),
                Step::Ask(PreimageProbe::Range { start, end }) => answers.knows_heads(
                    boot_infos@.len(),
                ) && (exists|i: int| #[trigger]
                    earliest_at(answers.heads@, i) && start == answers.heads[i]->Ok_0.number)
                    && (answers.checkpoint matches Some(Ok(last)) && end == last.number)
                    && answers.headers is None,
                Step::Done(headers) => answers.knows_heads(boot_infos@.len())
                    && (answers.checkpoint matches Some(Ok(_))) && (answers.headers matches Some(
                    Ok(range),
                ) && header_views(headers@) == header_views(range@)),
                Step::Fail(e) => is_first_failure(answers.heads@, e) || (answers.knows_heads(
                    boot_infos@.len(),
                ) && match (answers.checkpoint, answers.headers) {
                    (Some(Err(e2)), _) => e == e2,
                    (Some(Ok(_)), Some(Err(e2))) => e == e2,
                    _ => false,
                }),
            },
    {
        let first = match Self::get_earliest_l1_head_in_batch(boot_infos, &answers.heads) {
            Step::Ask(tag) => {
                return Step::Ask(PreimageProbe::Head(tag));
            },
            Step::Fail(e) => {
                return Step::Fail(e);
            },
            Step::Done(header) => header,
        };
        let last = match &answers.checkpoint {
            None => {
                return Step::Ask(PreimageProbe::Checkpoint(BlockTag::Hash(checkpoint_block_hash)));
            },
            Some(Err(e)) => {
                return Step::Fail(e.clone());
            },
            Some(Ok(header)) => header,
        };
        match &answers.headers {
            None => Step::Ask(PreimageProbe::Range { start: first.number, end: last.number }),
            Some(Err(e)) => Step::Fail(e.clone()),
            Some(Ok(headers)) => Step::Done(clone_headers(headers)),
        }
    }
}

/// A range of numbers holds those from its first to its last one, each once and in order, and none
/// where the first lies behind the last.
pub proof fn law_range_holds_its_numbers(start: u64, end: u64, i: int)
    ensures
        start > end ==> inclusive(start as int, end as int).len() == 0,
        start <= end ==> inclusive(start as int, end as int).len() == end - start + 1,
        inclusive(start as int, end as int).len() == inclusive_len(start as int, end as int),
        0 <= i <= end - start ==> inclusive(start as int, end as int)[i] == start + i,
{
}

/// The range that a batch asks for holds the block of every L1 head of the batch that does not lie
/// behind the checkpoint, and the checkpoint itself unless it lies before the whole batch.
pub proof fn law_preimage_range_covers_the_batch(
    heads: Seq<Result<Header, FetchError>>,
    first: int,
    checkpoint: u64,
    k: int,
)
    requires
        earliest_at(heads, first),
        0 <= k < heads.len(),
        heads[k]->Ok_0.number <= checkpoint,
    ensures
        inclusive(heads[first]->Ok_0.number as int, checkpoint as int).contains(
            heads[k]->Ok_0.number,
        ),
        inclusive(heads[first]->Ok_0.number as int, checkpoint as int).contains(checkpoint),
{
    let start = heads[first]->Ok_0.number as int;
    let numbers = inclusive(start, checkpoint as int);
    assert(start <= heads[k]->Ok_0.number);
    assert(numbers[heads[k]->Ok_0.number - start] == heads[k]->Ok_0.number);
    assert(numbers[checkpoint - start] == checkpoint);
}

// ---------------------------------------------------------------------------------------------
// The safe-head database
// ---------------------------------------------------------------------------------------------

/// What is asked to learn whether the rollup node keeps a record of safe heads.
#[derive(Clone, Copy, Debug)]
pub enum SafeDbProbe {
    /// The header of the latest final L1 block.
    Finalized,
    /// The safe head as of the L1 block with that number.
    SafeHead(u64),
}

impl OPZisKDataFetcher {
    /// Whether the rollup node keeps a record of safe heads: whether it has the safe head as of
    /// the latest final L1 block.
    pub fn is_safe_db_activated(
        finalized: &Option<Result<Header, FetchError>>,
        safe_head: &Option<Result<(), RpcError>>,
    ) -> (r: Step<SafeDbProbe, bool>)
        ensures
            match (*finalized, *safe_head) {
                (None, _) => r == Step::<SafeDbProbe, bool>::Ask(SafeDbProbe::Finalized),
                (Some(Err(e)), _) => r == Step::<SafeDbProbe, bool>::Fail(e),
                (Some(Ok(header)), None) => r == Step::<SafeDbProbe, bool>::Ask(
                    SafeDbProbe::SafeHead(header.number),
                ),
                (Some(Ok(_)), Some(reply)) => r == Step::<SafeDbProbe, bool>::Done(reply is Ok),
            },
    {
        match finalized {
            None => Step::Ask(SafeDbProbe::Finalized),
            Some(Err(e)) => Step::Fail(e.clone()),
            Some(Ok(header)) => match safe_head {
                None => Step::Ask(SafeDbProbe::SafeHead(header.number)),
                Some(reply) => Step::Done(reply.is_ok()),
            },
        }
    }
}

} // verus!
