use iledcolor::notification::{
    auth_result_from_byte, decode_auth, decode_chunk_index, decode_chunks_expected,
    decode_connected, decode_notification, decode_opaque, decode_outcome, decode_payload,
    generic_result_from_byte, AuthResult, DecodeError, GenericResult, Payload,
    MIN_NOTIFICATION_LEN,
};
use iledcolor::packet::Handle;

fn notice(handle: u8, data: &[u8]) -> Vec<u8> {
    let length = (data.len() + 2) as u16;
    let mut buf = vec![0x54, handle, (length >> 8) as u8, (length & 0xff) as u8];
    buf.extend_from_slice(data);
    let mut sum: u32 = 0;
    for b in &buf {
        sum += *b as u32;
    }
    buf.push(((sum >> 8) & 0xff) as u8);
    buf.push((sum & 0xff) as u8);
    buf
}

#[test]
fn buffer_under_six_bytes_is_rejected_whatever_its_handle() {
    assert_eq!(MIN_NOTIFICATION_LEN, 6);
    for len in 0..6usize {
        for handle in 0..=255u8 {
            let mut buf = vec![0x54u8, handle, 0x00, 0x02, 0x00];
            buf.truncate(len);
            assert!(matches!(decode_notification(&buf), Err(DecodeError::Undersized)));
        }
    }
    assert!(matches!(decode_notification(&[]), Err(DecodeError::Undersized)));
    assert!(matches!(
        decode_notification(&[0x54, 0x0d, 0x00, 0x03, 0x00]),
        Err(DecodeError::Undersized)
    ));
}

#[test]
fn unknown_handle_byte_is_rejected() {
    for handle in [0x02u8, 0x05, 0x09, 0x0c, 0x11, 0x7f, 0xff] {
        let buf = notice(handle, &[0x00, 0x00, 0x00, 0x00]);
        assert!(matches!(
            decode_notification(&buf),
            Err(DecodeError::UnknownHandle(h)) if h == handle
        ));
    }
}

#[test]
fn unknown_handle_is_reported_before_a_bad_length() {
    let buf = [0x54, 0x02, 0xff, 0xff, 0x00, 0x00];
    assert!(matches!(decode_notification(&buf), Err(DecodeError::UnknownHandle(0x02))));
}

#[test]
fn continue_echoes_the_chunk_index() {
    let n = decode_notification(&notice(0x00, &[0x00, 0x00, 0x01, 0x02])).unwrap();
    assert_eq!(n.opcode, 0x54);
    assert_eq!(n.handle, Handle::Continue);
    assert_eq!(n.length, 6);
    assert!(matches!(n.data, Payload::ChunkIndex(0x0102)));
    // 0x54 + 0x00 + 0x06 + 0x01 + 0x02
    assert_eq!(n.checksum, 0x005d);
    let n = decode_notification(&notice(0x00, &[0xde, 0xad, 0xbe, 0xef, 0x99])).unwrap();
    assert!(matches!(n.data, Payload::ChunkIndex(0xdeadbeef)));
}

#[test]
fn continue_with_short_data_is_undersized() {
    let buf = notice(0x00, &[0x00, 0x00, 0x01]);
    assert!(matches!(decode_notification(&buf), Err(DecodeError::Undersized)));
}

#[test]
fn generic_results_for_four_handles() {
    for handle in [0x01u8, 0x07, 0x08, 0x0e] {
        let ok = decode_notification(&notice(handle, &[0x00])).unwrap();
        assert_eq!(ok.handle.to_byte(), handle);
        assert!(matches!(ok.data, Payload::Outcome(GenericResult::Success)));
        let fail = decode_notification(&notice(handle, &[0x01])).unwrap();
        assert!(matches!(fail.data, Payload::Outcome(GenericResult::Fail)));
        let bad = decode_notification(&notice(handle, &[0x02]));
        assert!(matches!(bad, Err(DecodeError::UnknownResult(0x02))));
        let empty = decode_notification(&notice(handle, &[]));
        assert!(matches!(empty, Err(DecodeError::Undersized)));
    }
}

#[test]
fn start_stream_reports_chunks_expected() {
    let n = decode_notification(&notice(0x06, &[0x04])).unwrap();
    assert_eq!(n.handle, Handle::StartStream);
    assert!(matches!(n.data, Payload::ChunksExpected(4)));
    let n = decode_notification(&notice(0x06, &[0xff, 0x01])).unwrap();
    assert!(matches!(n.data, Payload::ChunksExpected(0xff)));
    assert!(matches!(
        decode_notification(&notice(0x06, &[])),
        Err(DecodeError::Undersized)
    ));
}

#[test]
fn connect_hands_on_two_bytes() {
    let n = decode_notification(&notice(0x0d, &[0x12, 0x34])).unwrap();
    assert_eq!(n.handle, Handle::Connect);
    assert!(matches!(n.data, Payload::Connected(0x12, 0x34)));
    assert!(matches!(
        decode_notification(&notice(0x0d, &[0x12])),
        Err(DecodeError::Undersized)
    ));
}

#[test]
fn test_pass_reports_an_auth_result() {
    let results = [
        (0x00u8, AuthResult::Correct),
        (0x01, AuthResult::Incorrect),
        (0x02, AuthResult::NoPass),
    ];
    for (byte, result) in results {
        let n = decode_notification(&notice(0x0f, &[byte])).unwrap();
        assert_eq!(n.handle, Handle::TestPass);
        assert!(matches!(n.data, Payload::Auth(r) if r == result));
    }
    assert!(matches!(
        decode_notification(&notice(0x0f, &[0x03])),
        Err(DecodeError::UnknownResult(0x03))
    ));
    assert!(matches!(
        decode_notification(&notice(0x0f, &[])),
        Err(DecodeError::Undersized)
    ));
}

#[test]
fn unknown_handle_kind_keeps_its_bytes() {
    let n = decode_notification(&notice(0x10, &[9, 8, 7, 6, 5])).unwrap();
    assert_eq!(n.handle, Handle::Unknown);
    assert_eq!(n.length, 7);
    assert!(matches!(n.data, Payload::Opaque(ref b) if b == &vec![9, 8, 7, 6, 5]));
    let n = decode_notification(&notice(0x10, &[])).unwrap();
    assert!(matches!(n.data, Payload::Opaque(ref b) if b.is_empty()));
}

#[test]
fn declared_length_is_held_against_the_buffer() {
    // Declares three bytes of data and checksum, holds two.
    assert!(matches!(
        decode_notification(&[0x54, 0x0d, 0x00, 0x03, 0x00, 0x00]),
        Err(DecodeError::Undersized)
    ));
    // Declares less than a checksum.
    assert!(matches!(
        decode_notification(&[0x54, 0x10, 0x00, 0x01, 0x00, 0x00]),
        Err(DecodeError::Undersized)
    ));
    assert!(matches!(
        decode_notification(&[0x54, 0x10, 0x00, 0x00, 0x00, 0x00]),
        Err(DecodeError::Undersized)
    ));
    assert!(matches!(
        decode_notification(&[0x54, 0x10, 0xff, 0xff, 0x00, 0x00, 0x00]),
        Err(DecodeError::Undersized)
    ));
}

#[test]
fn bytes_behind_the_checksum_are_ignored() {
    let mut buf = notice(0x01, &[0x00]);
    let checksum = ((buf[5] as u16) << 8) | buf[6] as u16;
    buf.extend_from_slice(&[0xee, 0xee, 0xee]);
    let n = decode_notification(&buf).unwrap();
    assert_eq!(n.length, 3);
    assert_eq!(n.checksum, checksum);
    assert!(matches!(n.data, Payload::Outcome(GenericResult::Success)));
}

#[test]
fn checksum_is_read_and_not_verified() {
    let n = decode_notification(&[0x54, 0x01, 0x00, 0x03, 0x00, 0xab, 0xcd]).unwrap();
    assert_eq!(n.checksum, 0xabcd);
    assert!(matches!(n.data, Payload::Outcome(GenericResult::Success)));
}

#[test]
fn opcode_is_handed_on() {
    let n = decode_notification(&[0x99, 0x06, 0x00, 0x03, 0x07, 0x00, 0x00]).unwrap();
    assert_eq!(n.opcode, 0x99);
    assert!(matches!(n.data, Payload::ChunksExpected(7)));
}

#[test]
fn result_bytes() {
    assert_eq!(generic_result_from_byte(0), Some(GenericResult::Success));
    assert_eq!(generic_result_from_byte(1), Some(GenericResult::Fail));
    assert_eq!(generic_result_from_byte(2), None);
    assert_eq!(auth_result_from_byte(0), Some(AuthResult::Correct));
    assert_eq!(auth_result_from_byte(1), Some(AuthResult::Incorrect));
    assert_eq!(auth_result_from_byte(2), Some(AuthResult::NoPass));
    assert_eq!(auth_result_from_byte(3), None);
}

#[test]
fn per_handle_decoders() {
    assert!(matches!(decode_chunk_index(&[0, 0, 0, 5]), Ok(Payload::ChunkIndex(5))));
    assert!(matches!(decode_chunk_index(&[0, 0, 0]), Err(DecodeError::Undersized)));
    assert!(matches!(decode_outcome(&[1]), Ok(Payload::Outcome(GenericResult::Fail))));
    assert!(matches!(decode_outcome(&[9]), Err(DecodeError::UnknownResult(9))));
    assert!(matches!(decode_chunks_expected(&[3]), Ok(Payload::ChunksExpected(3))));
    assert!(matches!(decode_connected(&[1, 2, 3]), Ok(Payload::Connected(1, 2))));
    assert!(matches!(decode_auth(&[2]), Ok(Payload::Auth(AuthResult::NoPass))));
    assert!(matches!(decode_opaque(&[4, 4]), Ok(Payload::Opaque(ref b)) if b == &vec![4, 4]));
    assert!(matches!(
        decode_payload(Handle::SetPass, &[0]),
        Ok(Payload::Outcome(GenericResult::Success))
    ));
    assert!(matches!(
        decode_payload(Handle::Continue, &[0, 0, 1, 0]),
        Ok(Payload::ChunkIndex(256))
    ));
}
