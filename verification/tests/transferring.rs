use transfer_engine::digest::digest_bytes;
use transfer_engine::hex::digest_hex;
use transfer_engine::transfer::CopyOutcome;
use transfer_engine::transfer::TransferError;
use transfer_engine::transfer::TransferEvent;
use transfer_engine::transfer::compare_digests;
use transfer_engine::transfer::copy_phase;
use transfer_engine::transfer::run_transfer;
use transfer_engine::transfer::verify_phase;

fn progress_figures(events: &[TransferEvent]) -> Vec<(u64, u64)> {
    let mut out = Vec::new();
    for ev in events {
        if let TransferEvent::Progress { transferred, total, .. } = ev {
            out.push((*transferred, *total));
        }
    }
    out
}

fn verifying_count(events: &[TransferEvent]) -> usize {
    events.iter().filter(|e| matches!(e, TransferEvent::Verifying { .. })).count()
}

#[test]
fn full_copy_matches_source() {
    let source: Vec<u8> = (0u8..=255).cycle().take(1000).collect();
    let run = run_transfer(&source, 64, "clip.mov", None);
    let dest = run.destination.expect("destination must exist after success");
    assert_eq!(dest, source);
    let returned = run.outcome.expect("uncancelled transfer must succeed");
    assert_eq!(returned, digest_hex(digest_bytes(&dest, 64)));
    assert_eq!(returned, digest_hex(digest_bytes(&source, 64)));
}

#[test]
fn cancel_before_any_bytes() {
    let source = vec![9u8; 100];
    let run = run_transfer(&source, 10, "clip.mov", Some(0));
    assert!(matches!(run.outcome, Err(TransferError::Cancelled)));
    assert!(run.destination.is_none());
    assert!(run.events.is_empty());
}

#[test]
fn cancel_mid_transfer_leaves_nothing() {
    let source = vec![7u8; 100];
    let run = run_transfer(&source, 10, "clip.mov", Some(4));
    assert!(matches!(run.outcome, Err(TransferError::Cancelled)));
    assert!(run.destination.is_none());
    assert_eq!(progress_figures(&run.events), vec![(10, 100), (20, 100), (30, 100), (40, 100)]);
    assert_eq!(verifying_count(&run.events), 0);
}

#[test]
fn cancel_between_copy_and_verification() {
    let source = vec![7u8; 100];
    // checks 0..=10 happen; check 10 is the end-of-input iteration
    let run = run_transfer(&source, 10, "clip.mov", Some(10));
    assert!(matches!(run.outcome, Err(TransferError::Cancelled)));
    assert!(run.destination.is_none());
    assert_eq!(run.events.len(), 10);
    assert_eq!(verifying_count(&run.events), 0);
}

#[test]
fn rerun_after_success_gives_same_result() {
    let source: Vec<u8> = (0u8..=255).cycle().take(777).collect();
    let first = run_transfer(&source, 32, "clip.mov", None);
    let second = run_transfer(&source, 32, "clip.mov", None);
    assert_eq!(first.destination.unwrap(), second.destination.unwrap());
    assert_eq!(first.outcome.unwrap(), second.outcome.unwrap());
}

#[test]
fn progress_is_monotone_and_ends_at_total() {
    let source = vec![1u8; 10];
    let run = run_transfer(&source, 3, "clip.mov", None);
    let figures = progress_figures(&run.events);
    assert_eq!(figures, vec![(3, 10), (6, 10), (9, 10), (10, 10)]);
    for pair in figures.windows(2) {
        assert!(pair[0].0 <= pair[1].0);
    }
    assert_eq!(figures.last().unwrap().0, 10);
    // the verifying event comes exactly once, after every progress event
    assert_eq!(verifying_count(&run.events), 1);
    assert!(matches!(run.events.last().unwrap(), TransferEvent::Verifying { .. }));
    run.outcome.expect("uncancelled transfer must succeed");
}

#[test]
fn zero_byte_source_succeeds_trivially() {
    let source: Vec<u8> = Vec::new();
    let run = run_transfer(&source, 1024, "empty.bin", None);
    assert_eq!(run.destination.unwrap(), Vec::<u8>::new());
    assert_eq!(run.outcome.unwrap(), "2d06800538d394c2");
    assert_eq!(progress_figures(&run.events), Vec::new());
    assert_eq!(verifying_count(&run.events), 1);
}

#[test]
fn two_hundred_megabytes_in_four_chunks() {
    const MB: usize = 1024 * 1024;
    let source = vec![0u8; 200 * MB];
    let run = run_transfer(&source, 64 * MB, "big.mov", None);
    let figures = progress_figures(&run.events);
    assert_eq!(
        figures,
        vec![
            (64 * MB as u64, 200 * MB as u64),
            (128 * MB as u64, 200 * MB as u64),
            (192 * MB as u64, 200 * MB as u64),
            (200 * MB as u64, 200 * MB as u64),
        ]
    );
    assert_eq!(run.events.len(), 5);
    run.outcome.expect("uncancelled transfer must succeed");
}

#[test]
fn cancel_after_first_chunk() {
    let source = vec![5u8; 100];
    let run = run_transfer(&source, 40, "clip.mov", Some(1));
    assert!(matches!(run.outcome, Err(TransferError::Cancelled)));
    assert!(run.destination.is_none());
    assert_eq!(progress_figures(&run.events), vec![(40, 100)]);
    assert_eq!(verifying_count(&run.events), 0);
}

#[test]
fn corruption_between_copy_and_verification_is_detected() {
    let source: Vec<u8> = (0u8..=255).cycle().take(500).collect();
    let (_events, outcome) = copy_phase(&source, 64, "clip.mov", None);
    let (mut destination, digest) = match outcome {
        CopyOutcome::Copied { destination, digest } => (destination, digest),
        CopyOutcome::Cancelled => panic!("uncancelled copy must complete"),
    };
    // a storage fault flips one byte of what was persisted
    destination[123] ^= 0x40;
    let verdict = verify_phase(&destination, 64, digest);
    match verdict {
        Err(TransferError::VerificationMismatch { source_digest, dest_digest }) => {
            assert_ne!(source_digest, dest_digest);
            assert_eq!(source_digest, digest_hex(digest));
            assert_eq!(dest_digest, digest_hex(digest_bytes(&destination, 64)));
        }
        _ => panic!("corruption must surface as a verification mismatch"),
    }
    // the destination is preserved for inspection, not deleted
    assert_eq!(destination.len(), source.len());
}

#[test]
fn matching_digests_compare_equal() {
    match compare_digests(0xabc123, 0xabc123) {
        Ok(h) => assert_eq!(h, "abc123"),
        Err(_) => panic!("equal digests must verify"),
    }
}

#[test]
fn differing_digests_name_both_renderings() {
    match compare_digests(0xdead, 0xbeef) {
        Err(TransferError::VerificationMismatch { source_digest, dest_digest }) => {
            assert_eq!(source_digest, "dead");
            assert_eq!(dest_digest, "beef");
        }
        _ => panic!("differing digests must mismatch"),
    }
}

#[test]
fn events_carry_the_filename() {
    let source = vec![2u8; 8];
    let run = run_transfer(&source, 8, "movie.mp4", None);
    for ev in &run.events {
        match ev {
            TransferEvent::Progress { filename, .. } => assert_eq!(filename, "movie.mp4"),
            TransferEvent::Verifying { filename } => assert_eq!(filename, "movie.mp4"),
        }
    }
}
