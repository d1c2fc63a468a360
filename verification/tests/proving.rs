use alloy_sol_types::SolValue;
use op_zisk::encoding::b256_to_u32x8_be;
use op_zisk::proving::{
    frame_agg_stdin, get_agg_proof_stdin, range_vkey_commitment_from_elf, run_range_program,
    L2Output, StdinError,
};
use op_zisk::types::{BootInfoStruct, Header};

type Word = alloy_primitives::B256;

fn boot_info(k: u8) -> BootInfoStruct {
    BootInfoStruct {
        l1Head: [k; 32],
        l2PreRoot: [k + 1; 32],
        l2PostRoot: [k + 2; 32],
        l2BlockNumber: 0x0102030405060708,
        rollupConfigHash: [k + 3; 32],
    }
}

fn boot_info_bytes(k: u8) -> Vec<u8> {
    let mut out = vec![];
    for w in [k, k + 1, k + 2] {
        out.extend(32u64.to_le_bytes());
        out.extend([w; 32]);
    }
    out.extend(0x0102030405060708u64.to_le_bytes());
    out.extend(32u64.to_le_bytes());
    out.extend([k + 3; 32]);
    out
}

fn alloy_headers() -> Vec<alloy_consensus::Header> {
    (5..8).map(|number| alloy_consensus::Header { number, ..Default::default() }).collect()
}

fn headers() -> Vec<Header> {
    alloy_headers()
        .iter()
        .map(|h| Header { number: h.number, timestamp: 0, rlp: alloy_rlp::encode(h) })
        .collect()
}

#[test]
fn commitment_is_the_digest_of_the_program() {
    let empty = range_vkey_commitment_from_elf(&vec![]);
    assert_eq!(
        Word::from(empty).to_string(),
        "0xc5d2460186f7233c927e7db2dcc703c0e500b653ca82273b7bfad8045d85a470"
    );
    let elf = vec![0x7f, b'E', b'L', b'F'];
    assert_eq!(range_vkey_commitment_from_elf(&elf), alloy_primitives::keccak256(&elf).0);
}

#[test]
fn output_root_is_the_digest_of_four_words() {
    let output = L2Output {
        zero: 0x1122,
        l2_state_root: [1; 32],
        l2_storage_hash: [2; 32],
        l2_claim_hash: [3; 32],
    };
    let mut bytes = vec![0u8; 30];
    bytes.extend([0x11, 0x22]);
    bytes.extend([1u8; 32]);
    bytes.extend([2u8; 32]);
    bytes.extend([3u8; 32]);
    let abi = (0x1122u64, Word::repeat_byte(1), Word::repeat_byte(2), Word::repeat_byte(3));
    assert_eq!(abi.abi_encode(), bytes);
    assert_eq!(output.output_root(), alloy_primitives::keccak256(bytes).0);
}

#[test]
fn output_roots_differ_with_every_field() {
    let base = L2Output {
        zero: 0,
        l2_state_root: [1; 32],
        l2_storage_hash: [2; 32],
        l2_claim_hash: [3; 32],
    };
    let roots = [
        base.output_root(),
        L2Output { zero: 1, ..base }.output_root(),
        L2Output { l2_state_root: [9; 32], ..base }.output_root(),
        L2Output { l2_storage_hash: [9; 32], ..base }.output_root(),
        L2Output { l2_claim_hash: [9; 32], ..base }.output_root(),
    ];
    for i in 0..roots.len() {
        for j in 0..i {
            assert_ne!(roots[i], roots[j]);
        }
    }
}

#[test]
fn range_program_puts_out_the_boot_info() {
    let words = run_range_program(&boot_info(1));
    assert_eq!(words.len(), 42);
    let bytes: Vec<u8> = words.iter().flat_map(|w| w.to_le_bytes()).collect();
    assert_eq!(bytes, boot_info_bytes(1));
    assert_ne!(words, run_range_program(&boot_info(2)));
}

#[test]
fn parts_of_the_aggregation_input_stand_behind_their_sizes() {
    let stdin = frame_agg_stdin(&vec![1, 2], &vec![3]);
    assert_eq!(stdin, vec![2, 0, 0, 0, 0, 0, 0, 0, 1, 2, 1, 0, 0, 0, 0, 0, 0, 0, 3]);
}

#[test]
fn aggregation_input_holds_the_batch_and_the_headers() {
    let vkey = b256_to_u32x8_be([0xab; 32]);
    let stdin = get_agg_proof_stdin(
        &vec![vec![1, 2, 3]],
        vec![boot_info(1), boot_info(5)],
        &headers(),
        vkey,
        [7; 32],
        [8; 20],
    )
    .unwrap();
    let size = u64::from_le_bytes(stdin[..8].try_into().unwrap()) as usize;
    let inputs = &stdin[8..8 + size];
    let mut expected = 2u64.to_le_bytes().to_vec();
    expected.extend(boot_info_bytes(1));
    expected.extend(boot_info_bytes(5));
    expected.extend(32u64.to_le_bytes());
    expected.extend([7u8; 32]);
    for _ in 0..8 {
        expected.extend(0xababababu32.to_le_bytes());
    }
    expected.extend(20u64.to_le_bytes());
    expected.extend([8u8; 20]);
    assert_eq!(inputs, &expected[..]);
    let rest = &stdin[8 + size..];
    let cbor = serde_cbor::to_vec(&alloy_headers()).unwrap();
    assert_eq!(u64::from_le_bytes(rest[..8].try_into().unwrap()) as usize, cbor.len());
    assert_eq!(rest[8..], cbor[..]);
}

#[test]
fn proofs_do_not_enter_the_aggregation_input() {
    let stdin = |proofs: Vec<Vec<u8>>| {
        get_agg_proof_stdin(&proofs, vec![boot_info(1)], &headers(), [0; 8], [7; 32], [8; 20])
            .unwrap()
    };
    assert_eq!(stdin(vec![]), stdin(vec![vec![1], vec![2]]));
}

#[test]
fn aggregation_input_needs_headers() {
    let mut bad = headers();
    bad[1].rlp = vec![1, 2, 3];
    let stdin = get_agg_proof_stdin(&vec![], vec![boot_info(1)], &bad, [0; 8], [7; 32], [8; 20]);
    assert_eq!(stdin.err(), Some(StdinError::Headers));
}
