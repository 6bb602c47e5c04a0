use speedtest::payload::{PayloadGenerator, CHUNK_CAPACITY, QUEUE_DEPTH};

const MIB: usize = 1024 * 1024;

fn drain(mut g: PayloadGenerator) -> Vec<Vec<u8>> {
    let mut chunks = Vec::new();
    while let Some(c) = g.next_chunk() {
        chunks.push(c);
    }
    chunks
}

fn check_chunks(chunks: &[Vec<u8>], total: usize) {
    let sum: usize = chunks.iter().map(|c| c.len()).sum();
    assert_eq!(sum, total);
    for (k, c) in chunks.iter().enumerate() {
        assert!(!c.is_empty() && c.len() <= MIB);
        let last = k + 1 == chunks.len();
        assert_eq!(c.last() == Some(&b'\n'), last);
        assert!(c[..c.len() - 1].iter().all(|b| b.is_ascii_alphanumeric()));
        if !last {
            assert_eq!(c.len(), MIB);
        }
    }
}

#[test]
fn constants() {
    assert_eq!(CHUNK_CAPACITY, MIB);
    assert_eq!(QUEUE_DEPTH, 16);
}

#[test]
fn small_payload_is_one_chunk_with_sentinel() {
    let chunks = drain(PayloadGenerator::new(20, 7));
    assert_eq!(chunks.len(), 1);
    check_chunks(&chunks, 20);
}

#[test]
fn payload_over_several_mib() {
    let total = 5000000 - 18;
    let chunks = drain(PayloadGenerator::new(total, 1));
    assert_eq!(chunks.len(), 5);
    check_chunks(&chunks, total);
}

#[test]
fn exact_mib_multiple_ends_with_sentinel() {
    let chunks = drain(PayloadGenerator::new(2 * MIB, 3));
    assert_eq!(chunks.len(), 2);
    check_chunks(&chunks, 2 * MIB);
}

#[test]
fn single_byte_payload_is_the_sentinel() {
    let chunks = drain(PayloadGenerator::new(1, 3));
    assert_eq!(chunks, vec![vec![b'\n']]);
}

#[test]
fn empty_payload_gives_nothing() {
    let mut g = PayloadGenerator::new(0, 3);
    assert!(g.next_chunk().is_none());
    assert_eq!(g.remaining(), 0);
}

#[test]
fn remaining_goes_down_by_chunk() {
    let mut g = PayloadGenerator::new(MIB + 5, 11);
    assert_eq!(g.remaining(), MIB + 5);
    let c = g.next_chunk().unwrap();
    assert_eq!(c.len(), MIB);
    assert_eq!(g.remaining(), 5);
}

#[test]
fn same_seed_same_payload_other_seed_other_payload() {
    let a = drain(PayloadGenerator::new(4096, 42));
    let b = drain(PayloadGenerator::new(4096, 42));
    let c = drain(PayloadGenerator::new(4096, 43));
    assert_eq!(a, b);
    assert_ne!(a, c);
}

#[test]
fn payload_bytes_are_varied() {
    let chunks = drain(PayloadGenerator::new(4096, 5));
    let first = chunks[0][0];
    assert!(chunks[0][..4095].iter().any(|b| *b != first));
}
