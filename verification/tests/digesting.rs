use transfer_engine::digest::DigestEngine;
use transfer_engine::digest::digest_bytes;
use transfer_engine::digest::digest_chunk_list;
use transfer_engine::hex::digest_hex;

#[test]
fn chunk_boundary_independence() {
    let data: Vec<u8> = (0u8..=255).cycle().take(10_000).collect();
    let whole = digest_bytes(&data, data.len());
    let small_reads = digest_bytes(&data, 7);
    let large_reads = digest_bytes(&data, 4096);
    assert_eq!(whole, small_reads);
    assert_eq!(whole, large_reads);

    let chunks: Vec<Vec<u8>> = vec![
        data[..1].to_vec(),
        data[1..5000].to_vec(),
        Vec::new(),
        data[5000..].to_vec(),
    ];
    assert_eq!(digest_chunk_list(&chunks), whole);
}

#[test]
fn streaming_engine_matches_one_shot() {
    let data = b"the quick brown fox jumps over the lazy dog".to_vec();
    let mut engine = DigestEngine::new();
    engine.update(&data[..9]);
    engine.update(&data[9..9]);
    engine.update(&data[9..]);
    let streamed = engine.finalize();
    assert_eq!(streamed, digest_bytes(&data, 64 * 1024));
}

#[test]
fn distinct_content_gives_distinct_digest() {
    let a = digest_bytes(b"abc", 2);
    let b = digest_bytes(b"abd", 2);
    let empty = digest_bytes(b"", 2);
    assert_ne!(a, b);
    assert_ne!(a, empty);
}

#[test]
fn empty_input_has_well_known_digest() {
    let engine = DigestEngine::new();
    let digest = engine.finalize();
    assert_eq!(digest_hex(digest), "2d06800538d394c2");
}

#[test]
fn hex_rendering_exact_values() {
    assert_eq!(digest_hex(0), "0");
    assert_eq!(digest_hex(1), "1");
    assert_eq!(digest_hex(10), "a");
    assert_eq!(digest_hex(255), "ff");
    assert_eq!(digest_hex(0x2d06800538d394c2), "2d06800538d394c2");
    assert_eq!(digest_hex(u64::MAX), "ffffffffffffffff");
    assert_eq!(digest_hex(0x10), "10");
}

#[test]
fn hex_rendering_matches_std_formatting() {
    let samples: [u64; 8] =
        [0, 1, 15, 16, 255, 0xdeadbeef, 0x2d06800538d394c2, u64::MAX];
    for n in samples {
        assert_eq!(digest_hex(n), format!("{:x}", n));
    }
}
