use op_zisk::encoding::{
    b256_to_u32x8_be, frame_with_size, output_words, proof_bytes, push_le_u64, push_sized,
    zero_word,
};

fn counting() -> [u8; 32] {
    let mut w = [0u8; 32];
    for (i, b) in w.iter_mut().enumerate() {
        *b = i as u8 + 1;
    }
    w
}

#[test]
fn words_are_split_from_the_high_end() {
    let words = b256_to_u32x8_be(counting());
    assert_eq!(words[0], 0x01020304);
    assert_eq!(words[7], 0x1d1e1f20);
    for i in 0..8 {
        let w = counting();
        let chunk: [u8; 4] = w[4 * i..4 * i + 4].try_into().unwrap();
        assert_eq!(words[i], u32::from_be_bytes(chunk));
    }
}

#[test]
fn words_tell_bytes_apart() {
    let mut other = counting();
    other[13] += 1;
    assert_ne!(b256_to_u32x8_be(counting()), b256_to_u32x8_be(other));
}

#[test]
fn numbers_are_pushed_lowest_byte_first() {
    let mut out = vec![9];
    push_le_u64(&mut out, 0x0102030405060708);
    assert_eq!(out, vec![9, 8, 7, 6, 5, 4, 3, 2, 1]);
}

#[test]
fn data_stands_behind_its_size() {
    assert_eq!(frame_with_size(&vec![7, 8]), vec![2, 0, 0, 0, 0, 0, 0, 0, 7, 8]);
    assert_eq!(frame_with_size(&vec![]), vec![0; 8]);
    let mut out = vec![1];
    push_sized(&mut out, &vec![5]);
    assert_eq!(out, vec![1, 1, 0, 0, 0, 0, 0, 0, 0, 5]);
}

#[test]
fn framed_data_reads_back() {
    let data: Vec<u8> = (0..300).map(|i| i as u8).collect();
    let framed = frame_with_size(&data);
    let size = u64::from_le_bytes(framed[..8].try_into().unwrap());
    assert_eq!(size, 300);
    assert_eq!(framed[8..], data[..]);
}

#[test]
fn proof_words_become_bytes() {
    let words = vec![1, u64::MAX, 0x0102030405060708];
    let expected: Vec<u8> = words.iter().flat_map(|w: &u64| w.to_le_bytes()).collect();
    assert_eq!(proof_bytes(&words), expected);
    assert_eq!(proof_bytes(&vec![]).len(), 0);
}

#[test]
fn output_is_padded_to_whole_words() {
    assert_eq!(output_words(&vec![1, 2, 3, 4, 5]), vec![0x04030201, 5]);
    assert_eq!(output_words(&vec![]).len(), 0);
    assert_eq!(output_words(&vec![1, 0, 0, 0]), vec![1]);
    assert_eq!(output_words(&vec![0xff, 0xff, 0xff, 0xff, 1, 2, 3]), vec![u32::MAX, 0x030201]);
}

#[test]
fn zero_word_is_zero() {
    assert_eq!(zero_word(), [0u8; 32]);
}
