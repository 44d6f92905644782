use file_transfer::display::digest_hex;
use file_transfer::error::TransferError;
use file_transfer::session::{
    loopback_transfer, ReceiverSession, SenderSession, TransferMetadata, TransferOutcome,
    TransferState, DEFAULT_CHUNK_CAPACITY, DEFAULT_TIMEOUT_SECS,
};

const SHA256_EMPTY: &str = "e3b0c44298fc1c149afbf4c8996fb92427ae41e4649b934ca495991b7852b855";
const SHA256_ABC: &str = "ba7816bf8f01cfea414140de5dae2223b00361a396177a9cb410ff61f20015ad";

#[test]
fn default_tunables() {
    assert_eq!(DEFAULT_CHUNK_CAPACITY, 15);
    assert_eq!(DEFAULT_TIMEOUT_SECS, 30);
}

#[test]
fn transfer_state_tracks_progress() {
    let mut st = TransferState::new(10);
    assert!(!st.is_complete());
    assert_eq!(st.remaining(), 10);
    st.advance(4);
    assert_eq!(st.remaining(), 6);
    st.advance(6);
    assert!(st.is_complete());
    assert_eq!(st.remaining(), 0);
}

#[test]
fn metadata_frame_layout() {
    let meta = TransferMetadata { total_size: 258, name: String::from("ab") };
    let frame = meta.encode().unwrap();
    assert_eq!(frame, vec![0, 0, 0, 0, 0, 0, 1, 2, 0, 2, b'a', b'b']);
}

#[test]
fn scenario_full_send_receive_with_chunk_15() {
    // A 10 000-byte file moved in chunks of 15: the receiver ends with all
    // bytes moved, the digests match, and the outcome is Verified.
    let source: Vec<u8> = (0..10_000u32).map(|i| (i % 251) as u8).collect();
    let (dest, outcome) = loopback_transfer(&source, 15, String::from("data.bin"));
    assert_eq!(dest, source);
    assert!(matches!(outcome, TransferOutcome::Verified { .. }));

    // The same scenario driven chunk by chunk: the receiver ends with all
    // 10 000 bytes moved and the digests match.
    let mut sender = SenderSession::new(10_000, String::from("data.bin")).unwrap();
    let _metadata = sender.metadata_frame();
    let mut receiver = ReceiverSession::new(10_000, String::from("data.bin"));
    for chunk in source.chunks(15) {
        sender.process_chunk(chunk);
        receiver.process_chunk(chunk).unwrap();
    }
    assert!(!sender.needs_more());
    assert!(!receiver.needs_more());
    assert_eq!(receiver.remaining(), 0);
    let digest = sender.finish().unwrap();
    assert!(matches!(receiver.verify(&digest), TransferOutcome::Verified { .. }));
}

#[test]
fn scenario_premature_close_reports_incomplete() {
    // The stream dies after 4000 of 10000 bytes: the receiver's next read
    // is zero-length and the session fails with the exact byte counts.
    let mut receiver = ReceiverSession::new(10_000, String::from("data.bin"));
    let chunk = vec![7u8; 1000];
    for _ in 0..4 {
        receiver.process_chunk(&chunk).unwrap();
    }
    assert_eq!(receiver.remaining(), 6000);
    let err = receiver.process_chunk(&[]).unwrap_err();
    assert_eq!(err, TransferError::Incomplete { expected: 10_000, received: 4000 });
}

#[test]
fn scenario_flipped_bit_reports_mismatch_with_all_bytes_kept() {
    // Full delivery, but one bit of the digest flips in transit: the
    // receiver reports a mismatch while every content byte has already
    // been accepted and written out.
    let source = vec![42u8; 100];
    let mut sender = SenderSession::new(100, String::from("f")).unwrap();
    let _metadata = sender.metadata_frame();
    sender.process_chunk(&source);
    let mut wire_digest = sender.finish().unwrap();
    let expected_hex = digest_hex(&wire_digest);
    wire_digest[0] ^= 0x01;

    let mut receiver = ReceiverSession::new(100, String::from("f"));
    receiver.process_chunk(&source).unwrap();
    assert!(!receiver.needs_more());
    let outcome = receiver.verify(&wire_digest);
    match outcome {
        TransferOutcome::Mismatched { received, calculated } => {
            assert_eq!(received, wire_digest);
            assert_eq!(digest_hex(&calculated), expected_hex);
        },
        TransferOutcome::Verified { .. } => panic!("flipped digest must not verify"),
    }
}

#[test]
fn matching_digests_verify() {
    let source = b"the quick brown fox".to_vec();
    let mut sender = SenderSession::new(source.len() as u64, String::from("f")).unwrap();
    let _metadata = sender.metadata_frame();
    sender.process_chunk(&source);
    let wire_digest = sender.finish().unwrap();

    let mut receiver = ReceiverSession::new(source.len() as u64, String::from("f"));
    receiver.process_chunk(&source).unwrap();
    let outcome = receiver.verify(&wire_digest);
    match outcome {
        TransferOutcome::Verified { digest } => assert_eq!(digest, wire_digest),
        TransferOutcome::Mismatched { .. } => panic!("identical digests must verify"),
    }
}

#[test]
fn zero_byte_file_round_trips_with_trivial_digest() {
    let (dest, outcome) = loopback_transfer(&Vec::new(), 1, String::from("empty"));
    assert!(dest.is_empty());
    match outcome {
        TransferOutcome::Verified { digest } => assert_eq!(digest_hex(&digest), SHA256_EMPTY),
        TransferOutcome::Mismatched { .. } => panic!("empty transfer must verify"),
    }
}

#[test]
fn digest_matches_known_vector() {
    let mut sender = SenderSession::new(3, String::from("f")).unwrap();
    let _metadata = sender.metadata_frame();
    sender.process_chunk(b"ab");
    sender.process_chunk(b"c");
    let digest = sender.finish().unwrap();
    assert_eq!(digest_hex(&digest), SHA256_ABC);
}

#[test]
fn chunked_and_whole_feeds_agree() {
    let source: Vec<u8> = (0..997u32).map(|i| (i * 7 % 256) as u8).collect();
    let mut one = SenderSession::new(997, String::from("f")).unwrap();
    let _one_metadata = one.metadata_frame();
    one.process_chunk(&source);
    let mut many = SenderSession::new(997, String::from("f")).unwrap();
    let _many_metadata = many.metadata_frame();
    for chunk in source.chunks(13) {
        many.process_chunk(chunk);
    }
    assert_eq!(one.finish().unwrap(), many.finish().unwrap());
}

#[test]
fn short_source_fails_incomplete_on_finish() {
    let mut sender = SenderSession::new(10, String::from("f")).unwrap();
    let _metadata = sender.metadata_frame();
    sender.process_chunk(&[1, 2, 3, 4]);
    assert!(sender.needs_more());
    let err = sender.finish().unwrap_err();
    assert_eq!(err, TransferError::Incomplete { expected: 10, received: 4 });
}

#[test]
fn sender_rejects_oversized_name_before_transmission() {
    let long = "x".repeat(65536);
    let err = match SenderSession::new(5, long) {
        Err(e) => e,
        Ok(_) => panic!("oversized name must be rejected"),
    };
    assert_eq!(err, TransferError::NameTooLong);
    let edge = "x".repeat(65535);
    assert!(SenderSession::new(5, edge).is_ok());
}

#[test]
fn loopback_transfers_various_sizes_and_capacities() {
    for (n, cap) in [(1usize, 1usize), (14, 15), (15, 15), (16, 15), (1000, 64), (4096, 4096)] {
        let source: Vec<u8> = (0..n).map(|i| (i % 256) as u8).collect();
        let (dest, outcome) = loopback_transfer(&source, cap, String::from("f"));
        assert_eq!(dest, source);
        assert!(matches!(outcome, TransferOutcome::Verified { .. }));
    }
}
