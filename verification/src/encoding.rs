//! Byte strings and machine words: the layouts in which data enters and leaves the zkVM.

use vstd::prelude::*;

verus! {

/// A 32-byte word: a hash, a root or a commitment.
pub type B256 = [u8; 32];

/// A 20-byte account address.
pub type Address = [u8; 20];

/// Thirty-two zero bytes.
pub open spec fn zero_bytes() -> Seq<u8> {
    Seq::new(32, |i: int| 0u8)
}

/// The word whose bytes are all zero.
pub fn zero_word() -> (r: B256)
    ensures
        r@ == zero_bytes(),
{
    let r = [0u8; 32];
    assert(r@ == zero_bytes());
    r
}

// ---------------------------------------------------------------------------------------------
// Little-endian and big-endian numbers
// ---------------------------------------------------------------------------------------------

/// The `len` lowest bytes of `n`, lowest first.
pub open spec fn le_bytes(n: nat, len: nat) -> Seq<u8>
    decreases len,
{
    if len == 0 {
        Seq::<u8>::empty()
    } else {
        seq![(n % 256) as u8] + le_bytes(n / 256, (len - 1) as nat)
    }
}

/// The number whose bytes are `s`, lowest first.
pub open spec fn le_value(s: Seq<u8>) -> nat
    decreases s.len(),
{
    if s.len() == 0 {
        0
    } else {
        s[0] as nat + 256 * le_value(s.skip(1))
    }
}

/// The number whose bytes are `s`, highest first.
pub open spec fn be_value(s: Seq<u8>) -> nat
    decreases s.len(),
{
    if s.len() == 0 {
        0
    } else {
        256 * be_value(s.drop_last()) + s.last() as nat
    }
}

/// 256 to the power `len`.
pub open spec fn byte_span(len: nat) -> nat
    decreases len,
{
    if len == 0 {
        1
    } else {
        256 * byte_span((len - 1) as nat)
    }
}

/// Reading the bytes of a number that fits gives back the number.
pub proof fn law_le_round_trip(n: nat, len: nat)
    ensures
        le_bytes(n, len).len() == len,
        n < byte_span(len) ==> le_value(le_bytes(n, len)) == n,
    decreases len,
{
    if len > 0 {
        let rest = le_bytes(n / 256, (len - 1) as nat);
        law_le_round_trip(n / 256, (len - 1) as nat);
        assert(le_bytes(n, len).skip(1) == rest);
        assert(le_bytes(n, len)[0] == (n % 256) as u8);
    }
}

/// Writing the number that a byte string denotes gives back the byte string.
pub proof fn law_le_value_round_trip(s: Seq<u8>)
    ensures
        le_value(s) < byte_span(s.len()),
        le_bytes(le_value(s), s.len()) == s,
    decreases s.len(),
{
    if s.len() > 0 {
        let rest = s.skip(1);
        law_le_value_round_trip(rest);
        let n = le_value(s);
        assert(n % 256 == s[0] as nat && n / 256 == le_value(rest));
        assert(le_bytes(n, s.len()) == seq![s[0]] + le_bytes(le_value(rest), rest.len()));
        assert(seq![s[0]] + rest == s);
    }
}

/// The number of a byte string read from its high end is that of the reversed byte string read
/// from its low end.
pub proof fn law_be_is_le_reversed(s: Seq<u8>)
    ensures
        be_value(s) == le_value(s.reverse()),
    decreases s.len(),
{
    if s.len() > 0 {
        law_be_is_le_reversed(s.drop_last());
        assert(s.reverse().skip(1) == s.drop_last().reverse());
        assert(s.reverse()[0] == s.last());
    }
}

/// Eight bytes hold a 64-bit number.
pub proof fn lemma_u64_span(n: u64)
    ensures
        (n as nat) < byte_span(8),
{
    reveal_with_fuel(byte_span, 9);
}

/// Appends `n` as eight bytes, lowest first.
pub fn push_le_u64(out: &mut Vec<u8>, n: u64)
    ensures
        final(out)@ == old(out)@ + le_bytes(n as nat, 8),
{
    let mut rest: u64 = n;
    let mut k: usize = 0;
    assert(out@ + le_bytes(rest as nat, 8) == old(out)@ + le_bytes(n as nat, 8));
    while k < 8
        invariant
            k <= 8,
            out@ + le_bytes(rest as nat, (8 - k) as nat) == old(out)@ + le_bytes(n as nat, 8),
        decreases 8 - k,
    {
        let ghost before = out@;
        let ghost tail = le_bytes(rest as nat / 256, (7 - k) as nat);
        out.push((rest % 256) as u8);
        assert(le_bytes(rest as nat, (8 - k) as nat) == seq![(rest % 256) as u8] + tail);
        assert(out@ + tail == before + (seq![(rest % 256) as u8] + tail));
        rest = rest / 256;
        k = k + 1;
    }
    assert(out@ + le_bytes(rest as nat, 0) == out@);
}

// ---------------------------------------------------------------------------------------------
// Size-prefixed byte strings
// ---------------------------------------------------------------------------------------------

/// `data` behind its length as eight bytes, lowest first.
pub open spec fn sized(data: Seq<u8>) -> Seq<u8> {
    le_bytes(data.len(), 8) + data
}

/// Appends `data` behind its length.
pub fn push_sized(out: &mut Vec<u8>, data: &Vec<u8>)
    ensures
        final(out)@ == old(out)@ + sized(data@),
{
    push_le_u64(out, data.len() as u64);
    let ghost head = out@;
    out.extend_from_slice(data.as_slice());
    assert(out@ == head + data@);
    assert(out@ == old(out)@ + sized(data@));
}

/// `data` behind its length: the zkVM's input format.
pub fn frame_with_size(data: &Vec<u8>) -> (r: Vec<u8>)
    ensures
        r@ == sized(data@),
{
    let mut out: Vec<u8> = Vec::new();
    push_sized(&mut out, data);
    assert(out@ == sized(data@));
    out
}

/// The length and the data can be read back off a size-prefixed byte string, whatever follows it.
pub proof fn law_sized_reads_back(data: Seq<u8>, rest: Seq<u8>)
    requires
        data.len() <= u64::MAX,
    ensures
        le_value((sized(data) + rest).take(8)) == data.len(),
        (sized(data) + rest).subrange(8, 8 + data.len() as int) == data,
        (sized(data) + rest).skip(8 + data.len() as int) == rest,
{
    lemma_u64_span(data.len() as u64);
    law_le_round_trip(data.len(), 8);
    assert((sized(data) + rest).take(8) == le_bytes(data.len(), 8));
}

// ---------------------------------------------------------------------------------------------
// Proof words
// ---------------------------------------------------------------------------------------------

/// The words, each as eight bytes, lowest first.
pub open spec fn words_as_bytes(words: Seq<u64>) -> Seq<u8>
    decreases words.len(),
{
    if words.len() == 0 {
        Seq::<u8>::empty()
    } else {
        words_as_bytes(words.drop_last()) + le_bytes(words.last() as nat, 8)
    }
}

/// The bytes of a proof that the prover returns as 64-bit words.
pub fn proof_bytes(words: &Vec<u64>) -> (r: Vec<u8>)
    ensures
        r@ == words_as_bytes(words@),
{
    let mut out: Vec<u8> = Vec::new();
    let mut i: usize = 0;
    while i < words.len()
        invariant
            i <= words.len(),
            out@ == words_as_bytes(words@.take(i as int)),
        decreases words.len() - i,
    {
        push_le_u64(&mut out, words[i]);
        assert(words@.take(i + 1).drop_last() == words@.take(i as int));
        i = i + 1;
    }
    assert(words@.take(i as int) == words@);
    out
}

/// Word `i` of a proof stands in bytes `8 i` to `8 i + 8` and can be read back from them.
pub proof fn law_proof_words_read_back(words: Seq<u64>, i: int)
    requires
        0 <= i < words.len(),
    ensures
        words_as_bytes(words).len() == 8 * words.len(),
        le_value(words_as_bytes(words).subrange(8 * i, 8 * i + 8)) == words[i],
    decreases words.len(),
{
    lemma_words_as_bytes_len(words);
    lemma_words_as_bytes_len(words.drop_last());
    law_le_round_trip(words.last() as nat, 8);
    lemma_u64_span(words.last());
    let head = words_as_bytes(words.drop_last());
    if i == words.len() - 1 {
        assert(words_as_bytes(words).subrange(8 * i, 8 * i + 8) == le_bytes(words.last() as nat, 8));
    } else {
        law_proof_words_read_back(words.drop_last(), i);
        assert(words_as_bytes(words).subrange(8 * i, 8 * i + 8) == head.subrange(8 * i, 8 * i + 8));
    }
}

/// Every word takes eight bytes.
pub proof fn lemma_words_as_bytes_len(words: Seq<u64>)
    ensures
        words_as_bytes(words).len() == 8 * words.len(),
    decreases words.len(),
{
    if words.len() > 0 {
        lemma_words_as_bytes_len(words.drop_last());
        law_le_round_trip(words.last() as nat, 8);
    }
}

// ---------------------------------------------------------------------------------------------
// Output words
// ---------------------------------------------------------------------------------------------

/// Byte `i` of `s`, zero beyond its end.
pub open spec fn byte_or_zero(s: Seq<u8>, i: int) -> u8 {
    if 0 <= i < s.len() {
        s[i]
    } else {
        0
    }
}

/// The four bytes of `s` from `at` on, zero beyond its end.
pub open spec fn padded_chunk(s: Seq<u8>, at: int) -> Seq<u8> {
    seq![
        byte_or_zero(s, at),
        byte_or_zero(s, at + 1),
        byte_or_zero(s, at + 2),
        byte_or_zero(s, at + 3),
    ]
}

/// `bytes` as 32-bit words, lowest byte first, the last word padded with zero bytes.
pub open spec fn as_output_words(bytes: Seq<u8>) -> Seq<u32> {
    Seq::new(((bytes.len() + 3) / 4) as nat, |i: int| le_value(padded_chunk(bytes, 4 * i)) as u32)
}

proof fn lemma_le_value_4(s: Seq<u8>)
    requires
        s.len() == 4,
    ensures
        le_value(s) == s[0] + 256 * s[1] + 65536 * s[2] + 16777216 * s[3],
{
    reveal_with_fuel(le_value, 5);
    assert(s.skip(1).skip(1) == s.skip(2));
    assert(s.skip(2).skip(1) == s.skip(3));
    assert(s.skip(3).skip(1) == Seq::<u8>::empty());
}

proof fn lemma_be_value_4(s: Seq<u8>)
    requires
        s.len() == 4,
    ensures
        be_value(s) == 16777216 * s[0] + 65536 * s[1] + 256 * s[2] + s[3],
{
    reveal_with_fuel(be_value, 5);
    assert(s.drop_last().drop_last().drop_last().drop_last() == Seq::<u8>::empty());
}

/// The word with the bytes `a`, `b`, `c`, `d`, lowest first.
fn word_of(a: u8, b: u8, c: u8, d: u8) -> (r: u32)
    ensures
        r == le_value(seq![a, b, c, d]),
        r == be_value(seq![d, c, b, a]),
{
    proof {
        lemma_le_value_4(seq![a, b, c, d]);
        lemma_be_value_4(seq![d, c, b, a]);
    }
    a as u32 + 256 * b as u32 + 65536 * c as u32 + 16777216 * d as u32
}

/// The byte `ahead` places behind position `at` of `bytes`, zero beyond its end.
fn byte_ahead(bytes: &Vec<u8>, at: usize, ahead: usize) -> (r: u8)
    requires
        at <= bytes.len(),
    ensures
        r == byte_or_zero(bytes@, at + ahead),
{
    if ahead < bytes.len() - at {
        bytes[at + ahead]
    } else {
        0
    }
}

/// `bytes` as the 32-bit words that the zkVM puts out, the last one padded with zero bytes.
pub fn output_words(bytes: &Vec<u8>) -> (r: Vec<u32>)
    ensures
        r@ == as_output_words(bytes@),
{
    let mut out: Vec<u32> = Vec::new();
    let mut at: usize = 0;
    while at < bytes.len()
        invariant
            at <= bytes.len(),
            at < bytes.len() ==> at == 4 * out@.len(),
            at == bytes.len() ==> out@.len() == (bytes@.len() + 3) / 4,
            forall|i: int|
                0 <= i < out@.len() ==> out@[i] == le_value(padded_chunk(bytes@, 4 * i)),
        decreases bytes.len() - at,
    {
        let word = word_of(
            byte_ahead(bytes, at, 0),
            byte_ahead(bytes, at, 1),
            byte_ahead(bytes, at, 2),
            byte_ahead(bytes, at, 3),
        );
        out.push(word);
        at = if bytes.len() - at > 4 {
            at + 4
        } else {
            bytes.len()
        };
    }
    assert(out@ == as_output_words(bytes@));
    out
}

/// The output words, written out byte by byte, are the bytes they were made of, padded with zeros.
pub proof fn law_output_words_read_back(bytes: Seq<u8>, i: int)
    requires
        0 <= i < as_output_words(bytes).len(),
    ensures
        le_bytes(as_output_words(bytes)[i] as nat, 4) == padded_chunk(bytes, 4 * i),
{
    let chunk = padded_chunk(bytes, 4 * i);
    lemma_le_value_4(chunk);
    law_le_value_round_trip(chunk);
}

// ---------------------------------------------------------------------------------------------
// Commitments as eight words
// ---------------------------------------------------------------------------------------------

/// The eight 32-bit words of a 32-byte word, highest byte first.
pub open spec fn be_words(v: Seq<u8>) -> Seq<u32> {
    Seq::new(8, |i: int| be_value(v.subrange(4 * i, 4 * i + 4)) as u32)
}

/// Converts a 32-byte word into eight 32-bit words, highest byte first.
///
/// This is the order in which a verification-key commitment enters the aggregation inputs.
pub fn b256_to_u32x8_be(v: B256) -> (r: [u32; 8])
    ensures
        r@ == be_words(v@),
{
    let r = [
        word_of(v[3], v[2], v[1], v[0]),
        word_of(v[7], v[6], v[5], v[4]),
        word_of(v[11], v[10], v[9], v[8]),
        word_of(v[15], v[14], v[13], v[12]),
        word_of(v[19], v[18], v[17], v[16]),
        word_of(v[23], v[22], v[21], v[20]),
        word_of(v[27], v[26], v[25], v[24]),
        word_of(v[31], v[30], v[29], v[28]),
    ];
    assert forall|i: int| 0 <= i < 8 implies r@[i] == be_value(v@.subrange(4 * i, 4 * i + 4)) by {
        assert(v@.subrange(4 * i, 4 * i + 4) == seq![v@[4 * i], v@[4 * i + 1], v@[4 * i + 2], v@[4
            * i + 3]]);
    }
    r
}

/// Two words of 32 bytes with the same eight words are the same.
pub proof fn law_words_determine_the_bytes(v: Seq<u8>, w: Seq<u8>)
    requires
        v.len() == 32,
        w.len() == 32,
        be_words(v) == be_words(w),
    ensures
        v == w,
{
    assert forall|k: int| 0 <= k < 32 implies v[k] == w[k] by {
        let i = k / 4;
        let a = v.subrange(4 * i, 4 * i + 4);
        let b = w.subrange(4 * i, 4 * i + 4);
        lemma_be_value_4(a);
        lemma_be_value_4(b);
        assert(be_value(a) <= u32::MAX && be_value(b) <= u32::MAX);
        assert(be_words(v)[i] == be_value(a) as u32);
        assert(be_words(w)[i] == be_value(b) as u32);
        assert(be_value(a) == be_value(b));
        law_be_is_le_reversed(a);
        law_be_is_le_reversed(b);
        law_le_value_round_trip(a.reverse());
        law_le_value_round_trip(b.reverse());
        assert(a.reverse() == b.reverse());
        assert(a.reverse()[3 - k % 4] == a[k % 4]);
        assert(b.reverse()[3 - k % 4] == b[k % 4]);
        assert(a[k % 4] == v[k] && b[k % 4] == w[k]);
    }
}

/// Every word of a commitment is made of four of its bytes, the highest first.
pub proof fn law_be_word_is_made_of_four_bytes(v: Seq<u8>, i: int)
    requires
        v.len() == 32,
        0 <= i < 8,
    ensures
        be_words(v).len() == 8,
        be_words(v)[i] == 0x1000000 * v[4 * i] + 0x10000 * v[4 * i + 1] + 0x100 * v[4 * i + 2]
            + v[4 * i + 3],
{
    lemma_be_value_4(v.subrange(4 * i, 4 * i + 4));
}

/// Every word of the output is made of four bytes, the lowest first, with zeros behind the end; and
/// there are no more words than the bytes take.
pub proof fn law_output_word_is_made_of_four_bytes(bytes: Seq<u8>, i: int)
    ensures
        4 * as_output_words(bytes).len() >= bytes.len(),
        4 * as_output_words(bytes).len() < bytes.len() + 4,
        0 <= i && 4 * i + 3 < bytes.len() ==> as_output_words(bytes)[i] == bytes[4 * i] + 0x100
            * bytes[4 * i + 1] + 0x10000 * bytes[4 * i + 2] + 0x1000000 * bytes[4 * i + 3],
        0 <= i && 4 * i + 3 == bytes.len() ==> as_output_words(bytes)[i] == bytes[4 * i] + 0x100
            * bytes[4 * i + 1] + 0x10000 * bytes[4 * i + 2],
        0 <= i && 4 * i + 2 == bytes.len() ==> as_output_words(bytes)[i] == bytes[4 * i] + 0x100
            * bytes[4 * i + 1],
        0 <= i && 4 * i + 1 == bytes.len() ==> as_output_words(bytes)[i] == bytes[4 * i],
{
    lemma_le_value_4(padded_chunk(bytes, 4 * i));
}

proof fn lemma_le_bytes_8(n: nat)
    ensures
        le_bytes(n, 8).len() == 8,
        le_bytes(n, 8)[0] == n % 256,
        le_bytes(n, 8)[1] == (n / 0x100) % 256,
        le_bytes(n, 8)[2] == (n / 0x10000) % 256,
        le_bytes(n, 8)[3] == (n / 0x1000000) % 256,
        le_bytes(n, 8)[4] == (n / 0x100000000) % 256,
        le_bytes(n, 8)[5] == (n / 0x10000000000) % 256,
        le_bytes(n, 8)[6] == (n / 0x1000000000000) % 256,
        le_bytes(n, 8)[7] == (n / 0x100000000000000) % 256,
{
    reveal_with_fuel(le_bytes, 9);
    let n1 = n / 256;
    let n2 = n1 / 256;
    let n3 = n2 / 256;
    let n4 = n3 / 256;
    let n5 = n4 / 256;
    let n6 = n5 / 256;
    let n7 = n6 / 256;
    assert(le_bytes(n, 8) =~= seq![
        (n % 256) as u8,
        (n1 % 256) as u8,
        (n2 % 256) as u8,
        (n3 % 256) as u8,
        (n4 % 256) as u8,
        (n5 % 256) as u8,
        (n6 % 256) as u8,
        (n7 % 256) as u8,
    ]);
}

/// The size in front of a byte string takes eight bytes, of which the first counts ones, the next
/// 256s, and so on; behind it stands the byte string, whatever its bytes.
pub proof fn law_size_comes_first_and_lowest_byte_first(data: Seq<u8>)
    ensures
        sized(data).len() == 8 + data.len(),
        sized(data)[0] == data.len() % 256,
        sized(data)[1] == (data.len() / 0x100) % 256,
        sized(data)[2] == (data.len() / 0x10000) % 256,
        sized(data)[3] == (data.len() / 0x1000000) % 256,
        sized(data)[4] == (data.len() / 0x100000000) % 256,
        sized(data)[5] == (data.len() / 0x10000000000) % 256,
        sized(data)[6] == (data.len() / 0x1000000000000) % 256,
        sized(data)[7] == (data.len() / 0x100000000000000) % 256,
        forall|i: int| 0 <= i < data.len() ==> sized(data)[8 + i] == #[trigger] data[i],
{
    lemma_le_bytes_8(data.len());
}

/// Every word of a proof takes eight bytes, of which the first counts ones, the next 256s, and so
/// on.
pub proof fn law_proof_word_is_lowest_byte_first(words: Seq<u64>, i: int)
    requires
        0 <= i < words.len(),
    ensures
        words_as_bytes(words).len() == 8 * words.len(),
        words_as_bytes(words)[8 * i] == words[i] % 256,
        words_as_bytes(words)[8 * i + 1] == (words[i] / 0x100) % 256,
        words_as_bytes(words)[8 * i + 2] == (words[i] / 0x10000) % 256,
        words_as_bytes(words)[8 * i + 3] == (words[i] / 0x1000000) % 256,
        words_as_bytes(words)[8 * i + 4] == (words[i] / 0x100000000) % 256,
        words_as_bytes(words)[8 * i + 5] == (words[i] / 0x10000000000) % 256,
        words_as_bytes(words)[8 * i + 6] == (words[i] / 0x1000000000000) % 256,
        words_as_bytes(words)[8 * i + 7] == (words[i] / 0x100000000000000) % 256,
    decreases words.len(),
{
    lemma_words_as_bytes_len(words);
    lemma_words_as_bytes_len(words.drop_last());
    if i == words.len() - 1 {
        lemma_le_bytes_8(words[i] as nat);
    } else {
        law_proof_word_is_lowest_byte_first(words.drop_last(), i);
    }
}

/// A number is worth its bytes: the first one counts ones, and what is left counts 256s.
pub proof fn law_le_value_counts_its_bytes(low: u8, rest: Seq<u8>)
    ensures
        le_value(Seq::<u8>::empty()) == 0,
        le_value(seq![low] + rest) == low + 256 * le_value(rest),
        be_value(Seq::<u8>::empty()) == 0,
        be_value(rest.push(low)) == 256 * be_value(rest) + low,
{
    assert((seq![low] + rest).skip(1) == rest);
    assert(rest.push(low).drop_last() == rest);
}

} // verus!
