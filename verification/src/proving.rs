//! What goes into the zkVM programs, and what comes out of them.

use crate::encoding::{
    as_output_words, byte_span, law_le_round_trip, law_output_word_is_made_of_four_bytes,
    law_output_words_read_back, law_size_comes_first_and_lowest_byte_first, law_sized_reads_back,
    le_bytes, le_value, lemma_u64_span, output_words, padded_chunk, push_sized, sized, Address, B256,
};
use crate::headers::header_views;
use crate::outside::{
    abi_encode_output, aggregation_encoding, be_bytes, bincode_aggregation_inputs,
    bincode_boot_info, boot_info_encoding, boot_infos_encoding, byte_strings, cbor_of_headers,
    headers_cbor, keccak256, keccak256_of, words32_as_bytes,
};
use crate::types::{AggregationInputs, BootInfoStruct, Header, HeaderView};
use vstd::prelude::*;

verus! {

// ---------------------------------------------------------------------------------------------
// Output roots
// ---------------------------------------------------------------------------------------------

/// The output of the rollup at an L2 block.
#[derive(Clone, Copy, Debug)]
pub struct L2Output {
    pub zero: u64,
    pub l2_state_root: B256,
    pub l2_storage_hash: B256,
    pub l2_claim_hash: B256,
}

impl L2Output {
    /// The ABI encoding: four words of 32 bytes.
    pub open spec fn encoding(self) -> Seq<u8> {
        be_bytes(self.zero as nat, 32) + self.l2_state_root@ + self.l2_storage_hash@
            + self.l2_claim_hash@
    }

    /// The root that commits to the output.
    pub fn output_root(&self) -> (r: B256)
        ensures
            r@ == keccak256_of(self.encoding()),
    {
        keccak256(
            &abi_encode_output(
                self.zero,
                &self.l2_state_root,
                &self.l2_storage_hash,
                &self.l2_claim_hash,
            ),
        )
    }
}

/// What an output root commits to determines the output.
pub proof fn law_output_encoding_is_injective(a: L2Output, b: L2Output)
    requires
        a.encoding() == b.encoding(),
    ensures
        a.zero == b.zero,
        a.l2_state_root@ == b.l2_state_root@,
        a.l2_storage_hash@ == b.l2_storage_hash@,
        a.l2_claim_hash@ == b.l2_claim_hash@,
{
    lemma_u64_span(a.zero);
    lemma_u64_span(b.zero);
    lemma_span_grows(8, 32);
    law_le_round_trip(a.zero as nat, 32);
    law_le_round_trip(b.zero as nat, 32);
    assert(a.encoding().take(32) == be_bytes(a.zero as nat, 32));
    assert(b.encoding().take(32) == be_bytes(b.zero as nat, 32));
    assert(be_bytes(a.zero as nat, 32).reverse() == le_bytes(a.zero as nat, 32));
    assert(be_bytes(b.zero as nat, 32).reverse() == le_bytes(b.zero as nat, 32));
    assert(a.encoding().subrange(32, 64) == a.l2_state_root@);
    assert(b.encoding().subrange(32, 64) == b.l2_state_root@);
    assert(a.encoding().subrange(64, 96) == a.l2_storage_hash@);
    assert(b.encoding().subrange(64, 96) == b.l2_storage_hash@);
    assert(a.encoding().subrange(96, 128) == a.l2_claim_hash@);
    assert(b.encoding().subrange(96, 128) == b.l2_claim_hash@);
}

proof fn lemma_span_grows(short: nat, long: nat)
    requires
        short <= long,
    ensures
        byte_span(short) <= byte_span(long),
    decreases long,
{
    if short < long {
        lemma_span_grows(short, (long - 1) as nat);
    }
}

// ---------------------------------------------------------------------------------------------
// The range program
// ---------------------------------------------------------------------------------------------

/// The commitment to the range program: the digest of its ELF file.
pub fn range_vkey_commitment_from_elf(elf: &Vec<u8>) -> (r: B256)
    ensures
        r@ == keccak256_of(elf@),
{
    keccak256(elf)
}

/// What the range program puts out once it has derived the boot info: its encoding, in 32-bit
/// words.
pub fn run_range_program(boot_info: &BootInfoStruct) -> (r: Vec<u32>)
    ensures
        r@ == as_output_words(boot_info_encoding(*boot_info)),
        r.len() == 42,
{
    let bytes = match bincode_boot_info(boot_info) {
        Ok(bytes) => bytes,
        Err(_) => Vec::new(),
    };
    proof {
        lemma_boot_info_layout(*boot_info);
    }
    output_words(&bytes)
}

proof fn lemma_boot_info_layout(b: BootInfoStruct)
    ensures
        boot_info_encoding(b).len() == 168,
        boot_info_encoding(b).subrange(8, 40) == b.l1Head@,
        boot_info_encoding(b).subrange(48, 80) == b.l2PreRoot@,
        boot_info_encoding(b).subrange(88, 120) == b.l2PostRoot@,
        boot_info_encoding(b).subrange(120, 128) == le_bytes(b.l2BlockNumber as nat, 8),
        boot_info_encoding(b).subrange(136, 168) == b.rollupConfigHash@,
{
    law_le_round_trip(32, 8);
    law_le_round_trip(b.l2BlockNumber as nat, 8);
    let e = boot_info_encoding(b);
    assert(e.subrange(8, 40) == b.l1Head@);
    assert(e.subrange(48, 80) == b.l2PreRoot@);
    assert(e.subrange(88, 120) == b.l2PostRoot@);
    assert(e.subrange(120, 128) == le_bytes(b.l2BlockNumber as nat, 8));
    assert(e.subrange(136, 168) == b.rollupConfigHash@);
}

proof fn lemma_words_determine_bytes(s: Seq<u8>, t: Seq<u8>)
    requires
        s.len() == t.len(),
        as_output_words(s) == as_output_words(t),
    ensures
        s == t,
{
    assert forall|k: int| 0 <= k < s.len() implies s[k] == t[k] by {
        let i = k / 4;
        assert(0 <= i < as_output_words(s).len());
        law_output_words_read_back(s, i);
        law_output_words_read_back(t, i);
        assert(padded_chunk(s, 4 * i)[k % 4] == s[k]);
        assert(padded_chunk(t, 4 * i)[k % 4] == t[k]);
    }
}

/// The output of the range program determines every public value of the proof.
pub proof fn law_range_output_determines_the_boot_info(a: BootInfoStruct, b: BootInfoStruct)
    requires
        as_output_words(boot_info_encoding(a)) == as_output_words(boot_info_encoding(b)),
    ensures
        a.l1Head@ == b.l1Head@,
        a.l2PreRoot@ == b.l2PreRoot@,
        a.l2PostRoot@ == b.l2PostRoot@,
        a.l2BlockNumber == b.l2BlockNumber,
        a.rollupConfigHash@ == b.rollupConfigHash@,
{
    lemma_boot_info_layout(a);
    lemma_boot_info_layout(b);
    lemma_words_determine_bytes(boot_info_encoding(a), boot_info_encoding(b));
    lemma_u64_span(a.l2BlockNumber);
    lemma_u64_span(b.l2BlockNumber);
    law_le_round_trip(a.l2BlockNumber as nat, 8);
    law_le_round_trip(b.l2BlockNumber as nat, 8);
}

/// Where the public values stand in the output of the range program: each hash in eight words
/// behind its length, four of its bytes to a word with the lowest first, and the block number in
/// two words of which the first is the lower one.
pub proof fn law_range_output_holds_the_public_values(b: BootInfoStruct)
    ensures
        ({
            let words = as_output_words(boot_info_encoding(b));
            &&& words.len() == 42
            &&& words[0] == 32 && words[1] == 0
            &&& forall|k: int|
                0 <= k < 8 ==> #[trigger] words[2 + k] == b.l1Head@[4 * k]
                    + 0x100 * b.l1Head@[4 * k + 1]
                    + 0x10000 * b.l1Head@[4 * k + 2]
                    + 0x1000000 * b.l1Head@[4 * k + 3]
            &&& words[10] == 32 && words[11] == 0
            &&& forall|k: int|
                0 <= k < 8 ==> #[trigger] words[12 + k] == b.l2PreRoot@[4 * k]
                    + 0x100 * b.l2PreRoot@[4 * k + 1]
                    + 0x10000 * b.l2PreRoot@[4 * k + 2]
                    + 0x1000000 * b.l2PreRoot@[4 * k + 3]
            &&& words[20] == 32 && words[21] == 0
            &&& forall|k: int|
                0 <= k < 8 ==> #[trigger] words[22 + k] == b.l2PostRoot@[4 * k]
                    + 0x100 * b.l2PostRoot@[4 * k + 1]
                    + 0x10000 * b.l2PostRoot@[4 * k + 2]
                    + 0x1000000 * b.l2PostRoot@[4 * k + 3]
            &&& words[30] + 0x1_0000_0000 * words[31] == b.l2BlockNumber
            &&& words[32] == 32 && words[33] == 0
            &&& forall|k: int|
                0 <= k < 8 ==> #[trigger] words[34 + k] == b.rollupConfigHash@[4 * k]
                    + 0x100 * b.rollupConfigHash@[4 * k + 1]
                    + 0x10000 * b.rollupConfigHash@[4 * k + 2]
                    + 0x1000000 * b.rollupConfigHash@[4 * k + 3]
        }),
{
    lemma_boot_info_layout(b);
    let e = boot_info_encoding(b);
    let words = as_output_words(e);
    assert(words.len() == 42);
    law_size_comes_first_and_lowest_byte_first(b.l1Head@);
    law_size_comes_first_and_lowest_byte_first(b.l2PreRoot@);
    law_size_comes_first_and_lowest_byte_first(b.l2PostRoot@);
    law_size_comes_first_and_lowest_byte_first(b.rollupConfigHash@);
    law_le_round_trip(b.l2BlockNumber as nat, 8);
    assert(e.subrange(0, 8) =~= sized(b.l1Head@).take(8));
    assert(e.subrange(40, 48) =~= sized(b.l2PreRoot@).take(8));
    assert(e.subrange(80, 88) =~= sized(b.l2PostRoot@).take(8));
    assert(e.subrange(128, 136) =~= sized(b.rollupConfigHash@).take(8));
    lemma_words_of_a_size(e, 0);
    lemma_words_of_a_size(e, 10);
    lemma_words_of_a_size(e, 20);
    lemma_words_of_a_size(e, 32);
    lemma_words_of_a_hash(e, 2, b.l1Head@);
    lemma_words_of_a_hash(e, 12, b.l2PreRoot@);
    lemma_words_of_a_hash(e, 22, b.l2PostRoot@);
    lemma_words_of_a_hash(e, 34, b.rollupConfigHash@);
    law_output_word_is_made_of_four_bytes(e, 30);
    law_output_word_is_made_of_four_bytes(e, 31);
    let number = le_bytes(b.l2BlockNumber as nat, 8);
    assert forall|j: int| 0 <= j < 8 implies e[120 + j] == #[trigger] number[j] by {
        assert(e.subrange(120, 128)[j] == e[120 + j]);
    }
    lemma_u64_span(b.l2BlockNumber);
    lemma_le_value_8(number);
}

proof fn lemma_le_value_8(s: Seq<u8>)
    requires
        s.len() == 8,
    ensures
        le_value(s) == (s[0] + 0x100 * s[1] + 0x10000 * s[2] + 0x1000000 * s[3]) + 0x1_0000_0000 * (
        s[4] + 0x100 * s[5] + 0x10000 * s[6] + 0x1000000 * s[7]),
{
    reveal_with_fuel(le_value, 9);
    assert(s.skip(1).skip(1) == s.skip(2));
    assert(s.skip(2).skip(1) == s.skip(3));
    assert(s.skip(3).skip(1) == s.skip(4));
    assert(s.skip(4).skip(1) == s.skip(5));
    assert(s.skip(5).skip(1) == s.skip(6));
    assert(s.skip(6).skip(1) == s.skip(7));
    assert(s.skip(7).skip(1) == Seq::<u8>::empty());
}

proof fn lemma_words_of_a_size(e: Seq<u8>, i: int)
    requires
        0 <= i,
        4 * i + 8 <= e.len(),
        e.subrange(4 * i, 4 * i + 8)[0] == 32,
        forall|j: int| 1 <= j < 8 ==> #[trigger] e.subrange(4 * i, 4 * i + 8)[j] == 0,
    ensures
        as_output_words(e)[i] == 32,
        as_output_words(e)[i + 1] == 0,
{
    let size = e.subrange(4 * i, 4 * i + 8);
    assert(size[1] == 0 && size[2] == 0 && size[3] == 0);
    assert(size[4] == 0 && size[5] == 0 && size[6] == 0 && size[7] == 0);
    law_output_word_is_made_of_four_bytes(e, i);
    law_output_word_is_made_of_four_bytes(e, i + 1);
}

proof fn lemma_words_of_a_hash(e: Seq<u8>, i: int, hash: Seq<u8>)
    requires
        0 <= i,
        4 * i + 32 <= e.len(),
        hash.len() == 32,
        e.subrange(4 * i, 4 * i + 32) == hash,
    ensures
        forall|k: int|
            0 <= k < 8 ==> #[trigger] as_output_words(e)[i + k] == hash[4 * k] + 0x100 * hash[4 * k
                + 1] + 0x10000 * hash[4 * k + 2] + 0x1000000 * hash[4 * k + 3],
{
    assert forall|k: int| 0 <= k < 8 implies #[trigger] as_output_words(e)[i + k] == hash[4 * k]
        + 0x100 * hash[4 * k + 1] + 0x10000 * hash[4 * k + 2] + 0x1000000 * hash[4 * k + 3] by {
        law_output_word_is_made_of_four_bytes(e, i + k);
        assert(hash[4 * k] == e[4 * (i + k)]);
        assert(hash[4 * k + 1] == e[4 * (i + k) + 1]);
        assert(hash[4 * k + 2] == e[4 * (i + k) + 2]);
        assert(hash[4 * k + 3] == e[4 * (i + k) + 3]);
    }
}

// ---------------------------------------------------------------------------------------------
// The aggregation program
// ---------------------------------------------------------------------------------------------

/// Why the input of the aggregation program cannot be built.
#[derive(Clone, Copy, Debug, PartialEq, Eq, Structural)]
pub enum StdinError {
    /// The aggregation inputs do not serialise.
    Inputs,
    /// One of the headers is none.
    Headers,
}

/// The aggregation inputs and the headers, each behind its length.
pub open spec fn agg_stdin(inputs: Seq<u8>, headers: Seq<u8>) -> Seq<u8> {
    sized(inputs) + sized(headers)
}

/// The input of the aggregation program, from the two encodings that it consists of.
pub fn frame_agg_stdin(inputs: &Vec<u8>, headers: &Vec<u8>) -> (r: Vec<u8>)
    ensures
        r@ == agg_stdin(inputs@, headers@),
{
    let mut out: Vec<u8> = Vec::new();
    push_sized(&mut out, inputs);
    assert(out@ == sized(inputs@));
    push_sized(&mut out, headers);
    out
}

/// The encodings of the headers.
pub open spec fn header_encodings(headers: Seq<HeaderView>) -> Seq<Seq<u8>> {
    headers.map_values(|h: HeaderView| h.rlp)
}

/// The encodings of the headers.
fn encodings_of(headers: &Vec<Header>) -> (r: Vec<Vec<u8>>)
    ensures
        byte_strings(r@) == header_encodings(header_views(headers@)),
{
    let mut out: Vec<Vec<u8>> = Vec::new();
    let mut i: usize = 0;
    while i < headers.len()
        invariant
            i <= headers.len(),
            out.len() == i,
            forall|j: int| 0 <= j < i ==> (#[trigger] out@[j])@ == headers@[j].rlp@,
        decreases headers.len() - i,
    {
        out.push(headers[i].rlp.clone());
        i += 1;
    }
    assert(byte_strings(out@) == header_encodings(header_views(headers@)));
    out
}

/// The input of the aggregation program. The proofs themselves are no part of it: they are
/// verified before aggregation.
pub fn get_agg_proof_stdin(
    proofs: &Vec<Vec<u8>>,
    boot_infos: Vec<BootInfoStruct>,
    headers: &Vec<Header>,
    multi_block_vkey: [u32; 8],
    latest_checkpoint_head: B256,
    prover_address: Address,
) -> (r: Result<Vec<u8>, StdinError>)
    ensures
        match (cbor_of_headers(header_encodings(header_views(headers@))), r) {
            (Some(cbor), Ok(bytes)) => bytes@ == agg_stdin(
                aggregation_encoding(
                    AggregationInputs {
                        boot_infos,
                        latest_l1_checkpoint_head: latest_checkpoint_head,
                        multi_block_vkey,
                        prover_address,
                    },
                ),
                cbor,
            ),
            (None, Err(e)) => e == StdinError::Headers,
            _ => false,
        },
{
    let inputs = AggregationInputs {
        boot_infos,
        latest_l1_checkpoint_head: latest_checkpoint_head,
        multi_block_vkey,
        prover_address,
    };
    let inputs_bytes = match bincode_aggregation_inputs(&inputs) {
        Ok(bytes) => bytes,
        Err(_) => {
            return Err(StdinError::Inputs);
        },
    };
    let headers_bytes = match headers_cbor(&encodings_of(headers)) {
        Some(bytes) => bytes,
        None => {
            return Err(StdinError::Headers);
        },
    };
    Ok(frame_agg_stdin(&inputs_bytes, &headers_bytes))
}

/// Both parts of the input of the aggregation program can be read back off it.
pub proof fn law_agg_stdin_reads_back(inputs: Seq<u8>, headers: Seq<u8>)
    requires
        inputs.len() <= u64::MAX,
        headers.len() <= u64::MAX,
    ensures
        ({
            let stdin = agg_stdin(inputs, headers);
            let rest = stdin.skip(8 + inputs.len() as int);
            &&& le_value(stdin.take(8)) == inputs.len()
            &&& stdin.subrange(8, 8 + inputs.len() as int) == inputs
            &&& le_value(rest.take(8)) == headers.len()
            &&& rest.skip(8) == headers
        }),
{
    law_sized_reads_back(inputs, sized(headers));
    law_sized_reads_back(headers, Seq::empty());
    assert(sized(headers) + Seq::<u8>::empty() == sized(headers));
    assert(sized(headers).skip(8) == sized(headers).subrange(8, 8 + headers.len() as int)) by {
        law_le_round_trip(headers.len(), 8);
    }
}

/// No two pairs of parts make up the same input of the aggregation program.
pub proof fn law_agg_stdin_is_injective(
    inputs: Seq<u8>,
    headers: Seq<u8>,
    inputs2: Seq<u8>,
    headers2: Seq<u8>,
)
    requires
        inputs.len() <= u64::MAX,
        headers.len() <= u64::MAX,
        inputs2.len() <= u64::MAX,
        headers2.len() <= u64::MAX,
        agg_stdin(inputs, headers) == agg_stdin(inputs2, headers2),
    ensures
        inputs == inputs2,
        headers == headers2,
{
    law_agg_stdin_reads_back(inputs, headers);
    law_agg_stdin_reads_back(inputs2, headers2);
}

proof fn lemma_boot_infos_len(infos: Seq<BootInfoStruct>)
    ensures
        boot_infos_encoding(infos).len() == 168 * infos.len(),
    decreases infos.len(),
{
    if infos.len() > 0 {
        lemma_boot_infos_len(infos.drop_last());
        lemma_boot_info_layout(infos.last());
    }
}

/// The two boot infos hold the same values.
pub open spec fn same_boot_info(a: BootInfoStruct, b: BootInfoStruct) -> bool {
    &&& a.l1Head@ == b.l1Head@
    &&& a.l2PreRoot@ == b.l2PreRoot@
    &&& a.l2PostRoot@ == b.l2PostRoot@
    &&& a.l2BlockNumber == b.l2BlockNumber
    &&& a.rollupConfigHash@ == b.rollupConfigHash@
}

proof fn lemma_boot_infos_injective(a: Seq<BootInfoStruct>, b: Seq<BootInfoStruct>)
    requires
        a.len() == b.len(),
        boot_infos_encoding(a) == boot_infos_encoding(b),
    ensures
        forall|i: int| 0 <= i < a.len() ==> same_boot_info(#[trigger] a[i], b[i]),
    decreases a.len(),
{
    if a.len() > 0 {
        let n = 168 * (a.len() - 1);
        lemma_boot_infos_len(a.drop_last());
        lemma_boot_infos_len(b.drop_last());
        assert(boot_infos_encoding(a).take(n) == boot_infos_encoding(a.drop_last()));
        assert(boot_infos_encoding(b).take(n) == boot_infos_encoding(b.drop_last()));
        assert(boot_infos_encoding(a).skip(n) == boot_info_encoding(a.last()));
        assert(boot_infos_encoding(b).skip(n) == boot_info_encoding(b.last()));
        lemma_boot_infos_injective(a.drop_last(), b.drop_last());
        law_range_output_determines_the_boot_info(a.last(), b.last());
        assert forall|i: int| 0 <= i < a.len() implies same_boot_info(#[trigger] a[i], b[i]) by {
            if i < a.len() - 1 {
                assert(same_boot_info(a.drop_last()[i], b.drop_last()[i]));
            }
        }
    }
}

proof fn lemma_words32_injective(a: Seq<u32>, b: Seq<u32>)
    requires
        a.len() == b.len(),
        words32_as_bytes(a) == words32_as_bytes(b),
    ensures
        a == b,
        words32_as_bytes(a).len() == 4 * a.len(),
    decreases a.len(),
{
    lemma_words32_len(a);
    if a.len() > 0 {
        let n = 4 * (a.len() - 1);
        lemma_words32_len(a.drop_last());
        lemma_words32_len(b.drop_last());
        assert(words32_as_bytes(a).take(n) == words32_as_bytes(a.drop_last()));
        assert(words32_as_bytes(b).take(n) == words32_as_bytes(b.drop_last()));
        assert(words32_as_bytes(a).skip(n) == le_bytes(a.last() as nat, 4));
        assert(words32_as_bytes(b).skip(n) == le_bytes(b.last() as nat, 4));
        reveal_with_fuel(byte_span, 5);
        law_le_round_trip(a.last() as nat, 4);
        law_le_round_trip(b.last() as nat, 4);
        lemma_words32_injective(a.drop_last(), b.drop_last());
        assert(a == a.drop_last().push(a.last()));
        assert(b == b.drop_last().push(b.last()));
    }
}

proof fn lemma_words32_len(a: Seq<u32>)
    ensures
        words32_as_bytes(a).len() == 4 * a.len(),
    decreases a.len(),
{
    if a.len() > 0 {
        lemma_words32_len(a.drop_last());
        law_le_round_trip(a.last() as nat, 4);
    }
}

/// What the aggregation program reads determines the boot infos of the batch, the checkpoint, the
/// commitment to the range program and the prover.
pub proof fn law_aggregation_encoding_is_injective(a: AggregationInputs, b: AggregationInputs)
    requires
        aggregation_encoding(a) == aggregation_encoding(b),
    ensures
        a.boot_infos@.len() == b.boot_infos@.len(),
        forall|i: int|
            0 <= i < a.boot_infos@.len() ==> same_boot_info(
                #[trigger] a.boot_infos@[i],
                b.boot_infos@[i],
            ),
        a.latest_l1_checkpoint_head@ == b.latest_l1_checkpoint_head@,
        a.multi_block_vkey@ == b.multi_block_vkey@,
        a.prover_address@ == b.prover_address@,
{
    let s = aggregation_encoding(a);
    let t = aggregation_encoding(b);
    lemma_u64_span(a.boot_infos.len() as u64);
    lemma_u64_span(b.boot_infos.len() as u64);
    law_le_round_trip(a.boot_infos@.len(), 8);
    law_le_round_trip(b.boot_infos@.len(), 8);
    law_le_round_trip(32, 8);
    law_le_round_trip(20, 8);
    lemma_boot_infos_len(a.boot_infos@);
    lemma_boot_infos_len(b.boot_infos@);
    lemma_words32_len(a.multi_block_vkey@);
    lemma_words32_len(b.multi_block_vkey@);
    assert(s.take(8) == le_bytes(a.boot_infos@.len(), 8));
    assert(t.take(8) == le_bytes(b.boot_infos@.len(), 8));
    let n = 8 + 168 * a.boot_infos@.len() as int;
    assert(s.subrange(8, n) == boot_infos_encoding(a.boot_infos@));
    assert(t.subrange(8, n) == boot_infos_encoding(b.boot_infos@));
    lemma_boot_infos_injective(a.boot_infos@, b.boot_infos@);
    assert(s.subrange(n + 8, n + 40) == a.latest_l1_checkpoint_head@);
    assert(t.subrange(n + 8, n + 40) == b.latest_l1_checkpoint_head@);
    assert(s.subrange(n + 40, n + 72) == words32_as_bytes(a.multi_block_vkey@));
    assert(t.subrange(n + 40, n + 72) == words32_as_bytes(b.multi_block_vkey@));
    lemma_words32_injective(a.multi_block_vkey@, b.multi_block_vkey@);
    assert(s.subrange(n + 80, n + 100) == a.prover_address@);
    assert(t.subrange(n + 80, n + 100) == b.prover_address@);
}

/// Where the inputs stand in what the aggregation program reads: the number of boot infos, the boot
/// infos in order, the checkpoint, the words of the commitment and the address of the prover.
pub proof fn law_aggregation_encoding_holds_its_inputs(a: AggregationInputs, i: int)
    ensures
        ({
            let s = aggregation_encoding(a);
            let n = 8 + 168 * a.boot_infos@.len() as int;
            &&& s.len() == n + 100
            &&& le_value(s.take(8)) == a.boot_infos@.len()
            &&& 0 <= i < a.boot_infos@.len() ==> {
                let row = s.subrange(8 + 168 * i, 8 + 168 * (i + 1));
                let b = a.boot_infos@[i];
                &&& row.subrange(8, 40) == b.l1Head@
                &&& row.subrange(48, 80) == b.l2PreRoot@
                &&& row.subrange(88, 120) == b.l2PostRoot@
                &&& le_value(row.subrange(120, 128)) == b.l2BlockNumber
                &&& row.subrange(136, 168) == b.rollupConfigHash@
            }
            &&& s.subrange(n + 8, n + 40) == a.latest_l1_checkpoint_head@
            &&& 0 <= i < 8 ==> le_value(s.subrange(n + 40 + 4 * i, n + 44 + 4 * i))
                == a.multi_block_vkey@[i]
            &&& s.subrange(n + 80, n + 100) == a.prover_address@
        }),
{
    let s = aggregation_encoding(a);
    let infos = a.boot_infos@;
    let n = 8 + 168 * infos.len() as int;
    lemma_u64_span(a.boot_infos.len() as u64);
    law_le_round_trip(infos.len(), 8);
    law_le_round_trip(32, 8);
    law_le_round_trip(20, 8);
    lemma_boot_infos_len(infos);
    lemma_words32_len(a.multi_block_vkey@);
    assert(s.take(8) == le_bytes(infos.len(), 8));
    assert(s.subrange(8, n) == boot_infos_encoding(infos));
    assert(s.subrange(n + 8, n + 40) == a.latest_l1_checkpoint_head@);
    assert(s.subrange(n + 40, n + 72) == words32_as_bytes(a.multi_block_vkey@));
    assert(s.subrange(n + 80, n + 100) == a.prover_address@);
    if 0 <= i < infos.len() {
        lemma_boot_info_stands_at(infos, i);
        lemma_boot_info_layout(infos[i]);
        let row = s.subrange(8 + 168 * i, 8 + 168 * (i + 1));
        assert(row =~= s.subrange(8, n).subrange(168 * i, 168 * (i + 1)));
        assert(row == boot_info_encoding(infos[i]));
        lemma_u64_span(infos[i].l2BlockNumber);
        law_le_round_trip(infos[i].l2BlockNumber as nat, 8);
    }
    if 0 <= i < 8 {
        lemma_word32_stands_at(a.multi_block_vkey@, i);
        assert(s.subrange(n + 40 + 4 * i, n + 44 + 4 * i) =~= s.subrange(n + 40, n + 72).subrange(
            4 * i,
            4 * i + 4,
        ));
    }
}

proof fn lemma_boot_info_stands_at(infos: Seq<BootInfoStruct>, i: int)
    requires
        0 <= i < infos.len(),
    ensures
        boot_infos_encoding(infos).len() == 168 * infos.len(),
        boot_infos_encoding(infos).subrange(168 * i, 168 * (i + 1)) == boot_info_encoding(infos[i]),
    decreases infos.len(),
{
    lemma_boot_infos_len(infos);
    lemma_boot_infos_len(infos.drop_last());
    lemma_boot_info_layout(infos.last());
    let whole = boot_infos_encoding(infos);
    if i == infos.len() - 1 {
        assert(whole.subrange(168 * i, 168 * (i + 1)) =~= boot_info_encoding(infos[i]));
    } else {
        lemma_boot_info_stands_at(infos.drop_last(), i);
        assert(whole.subrange(168 * i, 168 * (i + 1)) =~= boot_infos_encoding(
            infos.drop_last(),
        ).subrange(168 * i, 168 * (i + 1)));
    }
}

proof fn lemma_word32_stands_at(words: Seq<u32>, i: int)
    requires
        0 <= i < words.len(),
    ensures
        words32_as_bytes(words).len() == 4 * words.len(),
        le_value(words32_as_bytes(words).subrange(4 * i, 4 * i + 4)) == words[i],
    decreases words.len(),
{
    lemma_words32_len(words);
    lemma_words32_len(words.drop_last());
    law_le_round_trip(words.last() as nat, 4);
    reveal_with_fuel(byte_span, 5);
    let whole = words32_as_bytes(words);
    if i == words.len() - 1 {
        assert(whole.subrange(4 * i, 4 * i + 4) =~= le_bytes(words[i] as nat, 4));
    } else {
        lemma_word32_stands_at(words.drop_last(), i);
        assert(whole.subrange(4 * i, 4 * i + 4) =~= words32_as_bytes(words.drop_last()).subrange(
            4 * i,
            4 * i + 4,
        ));
    }
}

/// The output that a root commits to starts with the version in 32 bytes, of which the last is the
/// lowest, and goes on with the state root, the storage hash and the block hash, in this order.
pub proof fn law_output_encoding_holds_its_parts(o: L2Output)
    ensures
        o.encoding().len() == 128,
        o.encoding().subrange(32, 64) == o.l2_state_root@,
        o.encoding().subrange(64, 96) == o.l2_storage_hash@,
        o.encoding().subrange(96, 128) == o.l2_claim_hash@,
        le_value(o.encoding().take(32).reverse()) == o.zero,
{
    lemma_u64_span(o.zero);
    lemma_span_grows(8, 32);
    law_le_round_trip(o.zero as nat, 32);
    assert(o.encoding().take(32) == be_bytes(o.zero as nat, 32));
    assert(be_bytes(o.zero as nat, 32).reverse() == le_bytes(o.zero as nat, 32));
    assert(o.encoding().subrange(32, 64) =~= o.l2_state_root@);
    assert(o.encoding().subrange(64, 96) =~= o.l2_storage_hash@);
    assert(o.encoding().subrange(96, 128) =~= o.l2_claim_hash@);
}

/// The encodings of several headers are those of each of them, in order.
pub proof fn law_header_encodings_keep_their_order(headers: Seq<Header>, i: int)
    ensures
        header_encodings(header_views(headers)).len() == headers.len(),
        0 <= i < headers.len() ==> header_encodings(header_views(headers))[i] == headers[i].rlp@,
{
}

} // verus!
