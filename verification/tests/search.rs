use op_zisk::search::{BlockAt, SafeHead, SafeHeadSearch, TimestampSearch, TimestampStep};
use op_zisk::types::BlockNumHash;

fn hash(n: u64) -> [u8; 32] {
    let mut h = [0u8; 32];
    h[..8].copy_from_slice(&n.to_be_bytes());
    h
}

fn chain(timestamps: &[u64]) -> Vec<BlockAt> {
    timestamps
        .iter()
        .enumerate()
        .map(|(n, t)| BlockAt { number: n as u64, hash: hash(n as u64), timestamp: *t })
        .collect()
}

fn find(blocks: &[BlockAt], latest: u64, target: u64) -> (Result<BlockNumHash, u64>, usize) {
    let mut search = TimestampSearch::new(latest, target);
    let mut probes = 0;
    loop {
        probes += 1;
        let n = search.next_block();
        match search.advance(blocks.get(n as usize).copied()) {
            TimestampStep::Probe(next) => search = next,
            TimestampStep::Found(b) => return (Ok(b), probes),
            TimestampStep::Missing(n) => return (Err(n), probes),
        }
    }
}

#[test]
fn timestamp_search_finds_the_closest_block_not_before() {
    let blocks = chain(&[10, 12, 14, 20, 30, 31, 50]);
    for target in 0..52u64 {
        let expected = blocks.iter().find(|b| b.timestamp >= target);
        let (found, _) = find(&blocks, 6, target);
        match expected {
            Some(b) => {
                let f = found.unwrap();
                assert_eq!((f.number, f.hash), (b.number, b.hash), "{target}");
            }
            None => assert_eq!(found.err(), Some(7)),
        }
    }
}

#[test]
fn timestamp_search_before_genesis_settles_for_genesis() {
    let blocks = chain(&[100]);
    assert_eq!(find(&blocks, 0, 5).0.unwrap().number, 0);
    assert_eq!(find(&blocks, 0, 100).0.unwrap().number, 0);
    assert_eq!(find(&blocks, 0, 101).0.err(), Some(1));
}

#[test]
fn timestamp_search_may_end_behind_the_final_blocks() {
    let blocks = chain(&[1, 2, 3, 4]);
    assert_eq!(find(&blocks, 1, 3).0.unwrap().number, 2);
    assert_eq!(find(&blocks, 1, 4).0.unwrap().number, 3);
    assert_eq!(find(&blocks, 1, 9).0.err(), Some(4));
    assert_eq!(find(&chain(&[10, 20]), 0, 30).0.err(), Some(2));
}

#[test]
fn timestamp_search_reports_a_missing_block() {
    assert_eq!(find(&chain(&[1, 2]), 9, 5).0.err(), Some(4));
}

#[test]
fn timestamp_search_is_short() {
    let stamps: Vec<u64> = (0..5000).map(|i| 2 * i).collect();
    let blocks = chain(&stamps);
    for target in [0u64, 1, 4999, 5000, 9998, 9999] {
        assert!(find(&blocks, 4999, target).1 <= 14);
    }
}

fn safe(heads: &[u64], l2: u64, origin: u64, latest: u64) -> (Option<u64>, usize) {
    let mut search = SafeHeadSearch::new(l2, origin, latest);
    let mut probes = 0;
    while let Some(n) = search.next_block() {
        probes += 1;
        search = search.advance(SafeHead {
            safe_head: heads[n as usize],
            l1_block: BlockNumHash { number: n, hash: hash(n) },
        });
    }
    (search.first_valid.map(|b| b.number), probes)
}

#[test]
fn safe_head_search_finds_the_first_block() {
    let heads = [0, 0, 5, 5, 7, 9, 9, 20];
    for l2 in 0..22u64 {
        for origin in 0..8u64 {
            let expected = (origin..8).find(|n| heads[*n as usize] >= l2);
            assert_eq!(safe(&heads, l2, origin, 7).0, expected, "{l2} {origin}");
        }
    }
}

#[test]
fn safe_head_search_over_nothing_finds_nothing() {
    assert_eq!(safe(&[9, 9, 9], 1, 2, 1), (None, 0));
}

#[test]
fn safe_head_search_may_start_at_genesis() {
    assert_eq!(safe(&[3], 3, 0, 0).0, Some(0));
    assert_eq!(safe(&[3], 4, 0, 0).0, None);
}

#[test]
fn safe_head_search_is_short() {
    let heads: Vec<u64> = (0..4096).collect();
    assert!(safe(&heads, 4000, 0, 4095).1 <= 13);
}
