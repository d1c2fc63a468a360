//! The calls into outside crates, and what is trusted of them.

use crate::encoding::{le_bytes, sized, Address, B256};
use crate::text::digit;
use crate::types::{
    AggregationInputs, BlockNumHash, BootInfoStruct, ChainGenesis, Header, L2BlockInfo, Url,
};
use alloy_rlp::Decodable;
use alloy_sol_types::SolValue;
use kona_genesis::ChainGenesis as KonaGenesis;
use kona_protocol::L2BlockInfo as KonaBlockInfo;
use op_alloy_consensus::OpBlock;
use vstd::prelude::*;

verus! {

// ---------------------------------------------------------------------------------------------
// Hashing and ABI encoding
// ---------------------------------------------------------------------------------------------

/// The Keccak-256 digest of `data`.
pub uninterp spec fn keccak256_of(data: Seq<u8>) -> Seq<u8>;

/// `alloy_primitives::keccak256`: the Keccak-256 digest, named [`keccak256_of`].
#[verifier::external_body]
pub(crate) fn keccak256(data: &Vec<u8>) -> (r: B256)
    ensures
        r@ == keccak256_of(data@),
{
    alloy_primitives::keccak256(data).0
}

/// `n` as `len` bytes, highest first.
pub open spec fn be_bytes(n: nat, len: nat) -> Seq<u8> {
    le_bytes(n, len).reverse()
}

/// `SolValue::abi_encode` on a static tuple of a `uint64` and three `bytes32`: four words of 32
/// bytes, the number padded on the left.
#[verifier::external_body]
pub(crate) fn abi_encode_output(zero: u64, a: &B256, b: &B256, c: &B256) -> (r: Vec<u8>)
    ensures
        r@ == be_bytes(zero as nat, 32) + a@ + b@ + c@,
{
    (
        zero,
        alloy_primitives::B256::from(*a),
        alloy_primitives::B256::from(*b),
        alloy_primitives::B256::from(*c),
    ).abi_encode()
}

// ---------------------------------------------------------------------------------------------
// Serialisation
// ---------------------------------------------------------------------------------------------

/// Declares `bincode::ErrorKind`.
#[verifier::external_type_specification]
#[verifier::external_body]
pub struct ExBincodeErrorKind(bincode::ErrorKind);

/// The five public values, one behind the other: hashes behind their length, the number as eight
/// bytes.
pub open spec fn boot_info_encoding(b: BootInfoStruct) -> Seq<u8> {
    sized(b.l1Head@) + sized(b.l2PreRoot@) + sized(b.l2PostRoot@) + le_bytes(
        b.l2BlockNumber as nat,
        8,
    ) + sized(b.rollupConfigHash@)
}

/// The encodings of several boot infos, one behind the other.
pub open spec fn boot_infos_encoding(infos: Seq<BootInfoStruct>) -> Seq<u8>
    decreases infos.len(),
{
    if infos.len() == 0 {
        Seq::<u8>::empty()
    } else {
        boot_infos_encoding(infos.drop_last()) + boot_info_encoding(infos.last())
    }
}

/// 32-bit words as four bytes each, lowest first.
pub open spec fn words32_as_bytes(words: Seq<u32>) -> Seq<u8>
    decreases words.len(),
{
    if words.len() == 0 {
        Seq::<u8>::empty()
    } else {
        words32_as_bytes(words.drop_last()) + le_bytes(words.last() as nat, 4)
    }
}

/// The aggregation inputs: the number of boot infos, the boot infos, the checkpoint hash, the
/// eight words of the commitment and the prover's address.
pub open spec fn aggregation_encoding(inputs: AggregationInputs) -> Seq<u8> {
    le_bytes(inputs.boot_infos@.len(), 8) + boot_infos_encoding(inputs.boot_infos@) + sized(
        inputs.latest_l1_checkpoint_head@,
    ) + words32_as_bytes(inputs.multi_block_vkey@) + sized(inputs.prover_address@)
}

/// `bincode::serialize` on the fields of a boot info as a tuple. Its fixed-width little-endian
/// format writes a tuple as its fields, a `u64` as eight bytes and a hash, which serialises as
/// bytes, behind its length; it sets no limit and writes to memory, so it does not fail.
#[verifier::external_body]
pub(crate) fn bincode_boot_info(b: &BootInfoStruct) -> (r: Result<Vec<u8>, Box<bincode::ErrorKind>>)
    ensures
        r is Ok,
        r->Ok_0@ == boot_info_encoding(*b),
{
    let h = |w: &B256| alloy_primitives::B256::from(*w);
    bincode::serialize(
        &(h(&b.l1Head), h(&b.l2PreRoot), h(&b.l2PostRoot), b.l2BlockNumber, h(&b.rollupConfigHash)),
    )
}

/// `bincode::serialize` on the fields of the aggregation inputs as a tuple, in the format of
/// [`bincode_boot_info`]; a vector is written behind its number of elements, an array as its
/// elements. It does not fail.
#[verifier::external_body]
pub(crate) fn bincode_aggregation_inputs(i: &AggregationInputs) -> (r: Result<
    Vec<u8>,
    Box<bincode::ErrorKind>,
>)
    ensures
        r is Ok,
        r->Ok_0@ == aggregation_encoding(*i),
{
    let h = |w: &B256| alloy_primitives::B256::from(*w);
    let row = |b: &BootInfoStruct| {
        (h(&b.l1Head), h(&b.l2PreRoot), h(&b.l2PostRoot), b.l2BlockNumber, h(&b.rollupConfigHash))
    };
    let boot_infos: Vec<_> = i.boot_infos.iter().map(row).collect();
    let prover = alloy_primitives::Address::from(i.prover_address);
    bincode::serialize(&(boot_infos, h(&i.latest_l1_checkpoint_head), i.multi_block_vkey, prover))
}

/// The byte strings that `v` holds.
pub open spec fn byte_strings(v: Seq<Vec<u8>>) -> Seq<Seq<u8>> {
    v.map_values(|b: Vec<u8>| b@)
}

/// The CBOR encoding of the list of headers whose RLP encodings are `headers`; `None` where one
/// of them is no header.
pub uninterp spec fn cbor_of_headers(headers: Seq<Seq<u8>>) -> Option<Seq<u8>>;

/// `serde_cbor::to_vec` on the headers that `alloy_consensus::Header` decodes from RLP, named
/// [`cbor_of_headers`].
#[verifier::external_body]
pub(crate) fn headers_cbor(headers: &Vec<Vec<u8>>) -> (r: Option<Vec<u8>>)
    ensures
        match r {
            Some(bytes) => cbor_of_headers(byte_strings(headers@)) == Some(bytes@),
            None => cbor_of_headers(byte_strings(headers@)) is None,
        },
{
    let decode = |rlp: &Vec<u8>| alloy_consensus::Header::decode(&mut rlp.as_slice());
    let decoded: Result<Vec<alloy_consensus::Header>, alloy_rlp::Error> =
        headers.iter().map(decode).collect();
    serde_cbor::to_vec(&decoded.ok()?).ok()
}

// ---------------------------------------------------------------------------------------------
// Hexadecimal words and addresses
// ---------------------------------------------------------------------------------------------

/// Two lower-case hexadecimal digits for each byte.
pub open spec fn hex_digits(bytes: Seq<u8>) -> Seq<char> {
    Seq::new(
        2 * bytes.len(),
        |i: int|
            digit(
                if i % 2 == 0 {
                    bytes[i / 2] as nat / 16
                } else {
                    bytes[i / 2] as nat % 16
                },
            ),
    )
}

/// `LowerHex` of `alloy_primitives::B256`: 64 lower-case digits without a prefix, here behind
/// `0x`.
#[verifier::external_body]
pub(crate) fn b256_hex(v: &B256) -> (r: String)
    ensures
        r@ == "0x"@ + hex_digits(v@),
{
    format!("0x{:x}", alloy_primitives::B256::from(*v))
}

/// The value of a hexadecimal digit of either case.
pub open spec fn hex_digit_value(c: char) -> Option<nat> {
    if '0' <= c <= '9' {
        Some((c as u32 - '0' as u32) as nat)
    } else if 'a' <= c <= 'f' {
        Some((c as u32 - 'a' as u32 + 10) as nat)
    } else if 'A' <= c <= 'F' {
        Some((c as u32 - 'A' as u32 + 10) as nat)
    } else {
        None
    }
}

/// What `s` holds behind a leading `0x` or `0X`, or `s` where it has none.
pub open spec fn without_hex_prefix(s: Seq<char>) -> Seq<char> {
    if s.len() >= 2 && s[0] == '0' && (s[1] == 'x' || s[1] == 'X') {
        s.skip(2)
    } else {
        s
    }
}

/// `s` is 64 hexadecimal digits, behind an optional prefix.
pub open spec fn is_word_hex(s: Seq<char>) -> bool {
    let digits = without_hex_prefix(s);
    digits.len() == 64 && forall|i: int|
        0 <= i < 64 ==> hex_digit_value(#[trigger] digits[i]) is Some
}

/// The 32 bytes that `s` spells.
pub open spec fn word_of_hex(s: Seq<char>) -> Seq<u8> {
    let digits = without_hex_prefix(s);
    Seq::new(
        32,
        |i: int|
            (16 * hex_digit_value(digits[2 * i])->0 + hex_digit_value(digits[2 * i + 1])->0) as u8,
    )
}

/// `FromStr` of `alloy_primitives::B256`: reads 64 hexadecimal digits of either case behind an
/// optional `0x` or `0X`, and refuses everything else.
#[verifier::external_body]
pub(crate) fn b256_from_hex(s: &str) -> (r: Option<B256>)
    ensures
        match r {
            Some(v) => is_word_hex(s@) && v@ == word_of_hex(s@),
            None => !is_word_hex(s@),
        },
{
    s.parse::<alloy_primitives::B256>().ok().map(|v| v.0)
}

/// `Address::ZERO` and `Display` of `alloy_primitives::Address`: the zero address as text.
#[verifier::external_body]
pub(crate) fn zero_address_text() -> (r: String)
    ensures
        r@ == "0x0000000000000000000000000000000000000000"@,
{
    alloy_primitives::Address::ZERO.to_string()
}

/// The checksummed address of the account that a private key controls; `None` where the text is
/// no private key.
pub uninterp spec fn private_key_address(key: Seq<char>) -> Option<Seq<char>>;

/// `FromStr` and `address` of `alloy_signer_local::PrivateKeySigner`, and `Display` of the
/// address, named [`private_key_address`].
#[verifier::external_body]
pub(crate) fn address_of_private_key(key: &str) -> (r: Option<String>)
    ensures
        match r {
            Some(text) => private_key_address(key@) == Some(text@),
            None => private_key_address(key@) is None,
        },
{
    let signer = key.parse::<alloy_signer_local::PrivateKeySigner>().ok();
    signer.map(|s| s.address().to_string())
}

// ---------------------------------------------------------------------------------------------
// URLs
// ---------------------------------------------------------------------------------------------

/// Declares `url::ParseError`.
#[verifier::external_type_specification]
#[verifier::external_body]
pub struct ExUrlParseError(url::ParseError);

/// The normal form and the scheme of the URL that a text spells; `None` where it spells none.
pub uninterp spec fn parsed_url(text: Seq<char>) -> Option<(Seq<char>, Seq<char>)>;

/// `url::Url::parse`, `as_str` and `scheme`, named [`parsed_url`].
#[verifier::external_body]
pub(crate) fn parse_url(text: &str) -> (r: Result<Url, url::ParseError>)
    ensures
        match r {
            Ok(url) => parsed_url(text@) == Some(url@),
            Err(_) => parsed_url(text@) is None,
        },
{
    let url = url::Url::parse(text)?;
    Ok(Url { href: url.as_str().to_owned(), scheme: url.scheme().to_owned() })
}

// ---------------------------------------------------------------------------------------------
// L2 blocks
// ---------------------------------------------------------------------------------------------

/// The number, the timestamp and the RLP encoding of the header of the L2 block that `raw`
/// encodes; the text of the error where it encodes none.
pub uninterp spec fn op_block_header(raw: Seq<u8>) -> Result<(u64, u64, Seq<u8>), Seq<char>>;

/// `decode` of `op_alloy_consensus::OpBlock`, and `alloy_rlp::encode` on the header of the block,
/// named [`op_block_header`].
#[verifier::external_body]
pub(crate) fn decode_op_block_header(raw: &Vec<u8>) -> (r: Result<Header, String>)
    ensures
        match r {
            Ok(h) => op_block_header(raw@) == Ok::<(u64, u64, Seq<u8>), Seq<char>>(
                (h.number, h.timestamp, h.rlp@),
            ),
            Err(text) => op_block_header(raw@) == Err::<(u64, u64, Seq<u8>), Seq<char>>(text@),
        },
{
    let block = OpBlock::decode(&mut raw.as_slice()).map_err(|e| e.to_string())?;
    let rlp = alloy_rlp::encode(&block.header);
    Ok(Header { number: block.header.number, timestamp: block.header.timestamp, rlp })
}

/// What an [`L2BlockInfo`] holds.
pub ghost struct L2BlockInfoView {
    pub hash: Seq<u8>,
    pub number: u64,
    pub parent_hash: Seq<u8>,
    pub timestamp: u64,
    pub origin_number: u64,
    pub origin_hash: Seq<u8>,
    pub seq_num: u64,
}

impl View for L2BlockInfo {
    type V = L2BlockInfoView;

    open spec fn view(&self) -> L2BlockInfoView {
        L2BlockInfoView {
            hash: self.hash@,
            number: self.number,
            parent_hash: self.parent_hash@,
            timestamp: self.timestamp,
            origin_number: self.l1_origin.number,
            origin_hash: self.l1_origin.hash@,
            seq_num: self.seq_num,
        }
    }
}

/// The L2 block that `raw` encodes, with the L1 origin and the position in the epoch that its
/// first transaction gives, or that the genesis blocks give where it is the L2 genesis block; the
/// text of the error where `raw` encodes no such block.
pub uninterp spec fn l2_block_info_of(
    raw: Seq<u8>,
    l1_number: u64,
    l1_hash: Seq<u8>,
    l2_number: u64,
    l2_hash: Seq<u8>,
) -> Result<L2BlockInfoView, Seq<char>>;

/// `from_block_and_genesis` of `kona_protocol::L2BlockInfo`, on the `op_alloy_consensus::OpBlock`
/// that decodes from `raw`, named [`l2_block_info_of`]. Of the genesis it reads the two blocks.
#[verifier::external_body]
pub(crate) fn l2_block_info(raw: &Vec<u8>, genesis: &ChainGenesis) -> (r: Result<
    L2BlockInfo,
    String,
>)
    ensures
        match r {
            Ok(info) => l2_block_info_of(
                raw@,
                genesis.l1.number,
                genesis.l1.hash@,
                genesis.l2.number,
                genesis.l2.hash@,
            ) == Ok::<L2BlockInfoView, Seq<char>>(info@),
            Err(text) => l2_block_info_of(
                raw@,
                genesis.l1.number,
                genesis.l1.hash@,
                genesis.l2.number,
                genesis.l2.hash@,
            ) == Err::<L2BlockInfoView, Seq<char>>(text@),
        },
{
    let block = OpBlock::decode(&mut raw.as_slice()).map_err(|e| e.to_string())?;
    let mut g = KonaGenesis::default();
    g.l1 = (genesis.l1.number, genesis.l1.hash.into()).into();
    g.l2 = (genesis.l2.number, genesis.l2.hash.into()).into();
    let info = KonaBlockInfo::from_block_and_genesis(&block, &g).map_err(|e| e.to_string())?;
    let (b, o) = (info.block_info, info.l1_origin);
    let l1_origin = BlockNumHash { number: o.number, hash: o.hash.0 };
    Ok(L2BlockInfo {
        hash: b.hash.0,
        number: b.number,
        parent_hash: b.parent_hash.0,
        timestamp: b.timestamp,
        l1_origin,
        seq_num: info.seq_num,
    })
}

} // verus!
