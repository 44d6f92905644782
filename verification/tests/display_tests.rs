use file_transfer::display::{digest_hex, file_hash_line, receiving_banner, u64_to_decimal};
use file_transfer::error::TransferError;
use file_transfer::relay::welcome_message;
use file_transfer::session::{ReceiverSession, SenderSession};

#[test]
fn decimal_rendering() {
    assert_eq!(u64_to_decimal(0), "0");
    assert_eq!(u64_to_decimal(7), "7");
    assert_eq!(u64_to_decimal(10), "10");
    assert_eq!(u64_to_decimal(1234567890), "1234567890");
    assert_eq!(u64_to_decimal(u64::MAX), "18446744073709551615");
}

#[test]
fn hex_rendering() {
    assert_eq!(digest_hex(&[]), "");
    assert_eq!(digest_hex(&[0x00, 0x0f, 0xa5, 0xff]), "000fa5ff");
}

#[test]
fn error_messages() {
    assert_eq!(TransferError::Io.message(), "IO error");
    assert_eq!(TransferError::Timeout.message(), "Connection timeout");
    assert_eq!(
        TransferError::Incomplete { expected: 10000, received: 4000 }.message(),
        "Transfer incomplete: expected 10000 bytes, received 4000 bytes"
    );
    assert_eq!(TransferError::NameTooLong.message(), "File name too long");
}

#[test]
fn banner_and_hash_line() {
    assert_eq!(receiving_banner("data.bin", 42), "Receiving file: data.bin (42 bytes)");
    assert_eq!(file_hash_line(&[0xbe, 0xef]), "File hash: beef");
}

#[test]
fn outcome_reports() {
    let source = b"abc".to_vec();
    let mut sender = SenderSession::new(3, String::from("f")).unwrap();
    let _metadata = sender.metadata_frame();
    sender.process_chunk(&source);
    let digest = sender.finish().unwrap();

    let mut receiver = ReceiverSession::new(3, String::from("f"));
    receiver.process_chunk(&source).unwrap();
    let report = receiver.verify(&digest).report();
    assert_eq!(
        report,
        "File hash verified: ba7816bf8f01cfea414140de5dae2223b00361a396177a9cb410ff61f20015ad\nTransfer successful!"
    );

    let mut bad = digest.clone();
    bad[31] ^= 0x80;
    let mut receiver = ReceiverSession::new(3, String::from("f"));
    receiver.process_chunk(&source).unwrap();
    let report = receiver.verify(&bad).report();
    assert!(report.starts_with("Warning: File hash mismatch!\nReceived:    "));
    assert!(report.contains("\nCalculated:  ba7816bf"));
}

#[test]
fn chat_welcome_line() {
    assert_eq!(welcome_message(0), "Welcome to the chat server #0\n");
    assert_eq!(welcome_message(17), "Welcome to the chat server #17\n");
}
