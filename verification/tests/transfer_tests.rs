use iledcolor::frame::ImageData;
use iledcolor::image::ILedImage;
use iledcolor::notification::{AuthResult, DecodeError};
use iledcolor::packet::Handle;
use iledcolor::send::{print_bytes_hex, Action, Channel, Event, Phase, Transfer, TransferError};

fn reply(handle: u8, data: &[u8]) -> Event {
    let length = (data.len() + 2) as u16;
    let mut buf = vec![0x54, handle, (length >> 8) as u8, (length & 0xff) as u8];
    buf.extend_from_slice(data);
    let mut sum: u32 = 0;
    for b in &buf {
        sum += *b as u32;
    }
    buf.push(((sum >> 8) & 0xff) as u8);
    buf.push((sum & 0xff) as u8);
    Event::Notified(buf)
}

fn framed(handle: u8, fields: &[u8], payload: &[u8]) -> Vec<u8> {
    let length = (2 + fields.len() + payload.len()) as u16;
    let mut out = vec![0x54, handle, (length >> 8) as u8, (length & 0xff) as u8];
    out.extend_from_slice(fields);
    out.extend_from_slice(payload);
    let mut sum: u32 = 0;
    for b in &out {
        sum += *b as u32;
    }
    out.push(((sum >> 8) & 0xff) as u8);
    out.push((sum & 0xff) as u8);
    out
}

fn written(action: Action) -> (Channel, Vec<u8>) {
    match action {
        Action::Write { channel, bytes } => (channel, bytes),
        other => panic!("expected a write, got {:?}", other),
    }
}

fn aborted(action: Action) -> TransferError {
    match action {
        Action::Abort(e) => e,
        other => panic!("expected an abort, got {:?}", other),
    }
}

fn red_pixels() -> Vec<u8> {
    ILedImage::solid_color(48, 12, 255, 0, 0).data().clone()
}

/// Steps a fresh transfer of the red pixels up to the phase that awaits the
/// answer to chunk `upto`.
fn streaming(upto: u32, secret: Option<[u8; 6]>) -> Transfer {
    let mut t = Transfer::new(red_pixels(), secret).unwrap();
    written(t.step(&Event::Begin));
    written(t.step(&reply(0x0d, &[0, 0])));
    written(t.step(&reply(0x0f, &[0])));
    written(t.step(&reply(0x06, &[4])));
    for i in 0..upto {
        written(t.step(&reply(0x00, &i.to_be_bytes())));
    }
    assert_eq!(t.phase(), Phase::Streaming(upto));
    t
}

#[test]
fn whole_transfer_of_the_red_frame() {
    let pixels = red_pixels();
    let frame = ImageData::new(pixels.clone());
    let frame_bytes = frame.to_bytes();
    let mut t = Transfer::new(pixels, None).unwrap();
    assert_eq!(t.phase(), Phase::Idle);
    assert_eq!(t.awaited(), None);
    assert_eq!(t.chunk_total(), 4);

    let (channel, bytes) = written(t.step(&Event::Begin));
    assert_eq!(channel, Channel::Command);
    assert_eq!(bytes, vec![0x54, 0x0d, 0x00, 0x03, 0x00, 0x00, 0x64]);
    assert_eq!(t.phase(), Phase::Connecting);
    assert_eq!(t.awaited(), Some(Handle::Connect));

    let (channel, bytes) = written(t.step(&reply(0x0d, &[0x00, 0x00])));
    assert_eq!(channel, Channel::Command);
    assert_eq!(bytes, vec![0x54, 0x0f, 0x00, 0x08, 0, 0, 0, 0, 0, 0, 0x00, 0x6b]);
    assert_eq!(t.phase(), Phase::Authenticating);
    assert_eq!(t.awaited(), Some(Handle::TestPass));

    // With no credential to check, the device's answer is not held against it.
    let (channel, bytes) = written(t.step(&reply(0x0f, &[0x02])));
    assert_eq!(channel, Channel::Bulk);
    let crc = frame.crc32.to_be_bytes();
    let announcement = [crc[0], crc[1], crc[2], crc[3], 0, 0, 0x06, 0xd8, 0, 0, 0];
    assert_eq!(bytes, framed(0x06, &[], &announcement));
    assert_eq!(t.phase(), Phase::Announcing);
    assert_eq!(t.awaited(), Some(Handle::StartStream));

    let mut action = t.step(&reply(0x06, &[0x04]));
    let lengths = [492usize, 492, 492, 276];
    let mut sent: Vec<u8> = vec![];
    for i in 0..4u32 {
        assert_eq!(t.phase(), Phase::Streaming(i));
        assert_eq!(t.awaited(), Some(Handle::Continue));
        let (channel, bytes) = written(action);
        assert_eq!(channel, Channel::Bulk);
        let start = (i as usize) * 492;
        let piece = &frame_bytes[start..start + lengths[i as usize]];
        let n = piece.len() as u16;
        let fields = [0, 0, 0, i as u8, (n >> 8) as u8, (n & 0xff) as u8];
        assert_eq!(bytes, framed(0x00, &fields, piece));
        sent.extend_from_slice(piece);
        action = t.step(&reply(0x00, &i.to_be_bytes()));
    }
    assert_eq!(sent, frame_bytes);

    let (channel, bytes) = written(action);
    assert_eq!(channel, Channel::Bulk);
    assert_eq!(bytes, vec![0x54, 0x01, 0x00, 0x03, 0x01, 0x00, 0x59]);
    assert_eq!(t.phase(), Phase::Ending);
    assert_eq!(t.awaited(), Some(Handle::EndStream));

    assert!(matches!(t.step(&reply(0x01, &[0x00])), Action::Complete));
    assert_eq!(t.phase(), Phase::Done);
    assert_eq!(t.awaited(), None);
}

#[test]
fn done_is_terminal() {
    let mut t = streaming(3, None);
    written(t.step(&reply(0x00, &[0, 0, 0, 3])));
    assert!(matches!(t.step(&reply(0x01, &[0x00])), Action::Complete));
    let later = [
        Event::Begin,
        reply(0x01, &[0x00]),
        reply(0x00, &[0, 0, 0, 0]),
        Event::TimedOut,
        Event::Cancelled,
    ];
    for event in later {
        assert_eq!(aborted(t.step(&event)), TransferError::OutOfTurn);
        assert_eq!(t.phase(), Phase::Done);
    }
}

#[test]
fn decode_failure_ends_the_transfer() {
    let mut t = Transfer::new(red_pixels(), None).unwrap();
    written(t.step(&Event::Begin));
    let e = aborted(t.step(&Event::Notified(vec![0x54, 0x0d, 0x00])));
    assert_eq!(e, TransferError::Decode(DecodeError::Undersized));
    assert_eq!(t.phase(), Phase::Failed);

    let mut t = Transfer::new(red_pixels(), None).unwrap();
    written(t.step(&Event::Begin));
    let e = aborted(t.step(&reply(0x33, &[0x00, 0x00])));
    assert_eq!(e, TransferError::Decode(DecodeError::UnknownHandle(0x33)));
    assert_eq!(t.phase(), Phase::Failed);

    let mut t = streaming(3, None);
    written(t.step(&reply(0x00, &[0, 0, 0, 3])));
    let e = aborted(t.step(&reply(0x01, &[0x07])));
    assert_eq!(e, TransferError::Decode(DecodeError::UnknownResult(0x07)));
    assert_eq!(t.phase(), Phase::Failed);
}

#[test]
fn handle_mismatch_ends_the_transfer() {
    let mut t = Transfer::new(red_pixels(), None).unwrap();
    written(t.step(&Event::Begin));
    let e = aborted(t.step(&reply(0x0f, &[0x00])));
    assert_eq!(
        e,
        TransferError::HandleMismatch { expected: Handle::Connect, received: Handle::TestPass }
    );
    assert_eq!(t.phase(), Phase::Failed);

    let mut t = streaming(1, None);
    let e = aborted(t.step(&reply(0x01, &[0x00])));
    assert_eq!(
        e,
        TransferError::HandleMismatch { expected: Handle::Continue, received: Handle::EndStream }
    );
    assert_eq!(t.phase(), Phase::Failed);
}

#[test]
fn rejected_credential_ends_the_transfer() {
    for (byte, result) in [(0x01u8, AuthResult::Incorrect), (0x02, AuthResult::NoPass)] {
        let mut t = Transfer::new(red_pixels(), Some([1, 2, 3, 4, 5, 6])).unwrap();
        written(t.step(&Event::Begin));
        let (channel, bytes) = written(t.step(&reply(0x0d, &[0, 0])));
        assert_eq!(channel, Channel::Command);
        assert_eq!(bytes, vec![0x54, 0x0f, 0x00, 0x08, 1, 2, 3, 4, 5, 6, 0x00, 0x80]);
        let e = aborted(t.step(&reply(0x0f, &[byte])));
        assert_eq!(e, TransferError::AuthRejected(result));
        assert_eq!(t.phase(), Phase::Failed);
    }
}

#[test]
fn accepted_credential_goes_on() {
    let mut t = Transfer::new(red_pixels(), Some([1, 2, 3, 4, 5, 6])).unwrap();
    written(t.step(&Event::Begin));
    written(t.step(&reply(0x0d, &[0, 0])));
    let (channel, _) = written(t.step(&reply(0x0f, &[0x00])));
    assert_eq!(channel, Channel::Bulk);
    assert_eq!(t.phase(), Phase::Announcing);
}

#[test]
fn failed_end_of_stream_ends_the_transfer() {
    let mut t = streaming(3, None);
    written(t.step(&reply(0x00, &[0, 0, 0, 3])));
    assert_eq!(t.phase(), Phase::Ending);
    let e = aborted(t.step(&reply(0x01, &[0x01])));
    assert_eq!(e, TransferError::StreamRejected);
    assert_eq!(t.phase(), Phase::Failed);
}

#[test]
fn nothing_is_written_after_a_failure() {
    for k in 0..4u32 {
        let mut t = streaming(k, None);
        aborted(t.step(&reply(0x00, &[0, 0])));
        assert_eq!(t.phase(), Phase::Failed);
        let later = [
            Event::Begin,
            reply(0x00, &k.to_be_bytes()),
            reply(0x00, &(k + 1).to_be_bytes()),
            reply(0x06, &[4]),
            reply(0x01, &[0]),
            Event::Notified(vec![]),
            Event::TimedOut,
            Event::Cancelled,
        ];
        for event in later {
            assert_eq!(aborted(t.step(&event)), TransferError::OutOfTurn);
            assert_eq!(t.phase(), Phase::Failed);
        }
    }
}

#[test]
fn echoed_index_is_not_held_against_the_sequence() {
    let mut t = streaming(0, None);
    let (_, bytes) = written(t.step(&reply(0x00, &[0, 0, 0, 9])));
    assert_eq!(&bytes[4..8], &[0, 0, 0, 1]);
    assert_eq!(t.phase(), Phase::Streaming(1));
}

#[test]
fn event_out_of_turn_ends_a_running_transfer() {
    let mut t = Transfer::new(red_pixels(), None).unwrap();
    assert_eq!(aborted(t.step(&reply(0x0d, &[0, 0]))), TransferError::OutOfTurn);
    assert_eq!(t.phase(), Phase::Failed);

    let mut t = Transfer::new(red_pixels(), None).unwrap();
    written(t.step(&Event::Begin));
    assert_eq!(aborted(t.step(&Event::Begin)), TransferError::OutOfTurn);
    assert_eq!(t.phase(), Phase::Failed);
}

#[test]
fn timeout_gives_up_a_running_transfer() {
    let mut t = streaming(2, None);
    assert_eq!(aborted(t.step(&Event::TimedOut)), TransferError::TimedOut);
    assert_eq!(t.phase(), Phase::Failed);
    assert_eq!(aborted(t.step(&reply(0x00, &[0, 0, 0, 2]))), TransferError::OutOfTurn);
    assert_eq!(aborted(t.step(&Event::TimedOut)), TransferError::OutOfTurn);
    assert_eq!(t.phase(), Phase::Failed);
}

#[test]
fn cancellation_gives_up_a_running_transfer() {
    let mut t = streaming(1, None);
    assert_eq!(aborted(t.step(&Event::Cancelled)), TransferError::Cancelled);
    assert_eq!(t.phase(), Phase::Failed);
    assert_eq!(aborted(t.step(&reply(0x00, &[0, 0, 0, 1]))), TransferError::OutOfTurn);

    let mut t = Transfer::new(red_pixels(), None).unwrap();
    assert_eq!(aborted(t.step(&Event::Cancelled)), TransferError::Cancelled);
    assert_eq!(aborted(t.step(&Event::Begin)), TransferError::OutOfTurn);
    assert_eq!(t.phase(), Phase::Failed);
}

#[test]
fn single_chunk_frame_goes_straight_to_the_end() {
    let mut t = Transfer::new(vec![], None).unwrap();
    assert_eq!(t.chunk_total(), 1);
    written(t.step(&Event::Begin));
    written(t.step(&reply(0x0d, &[0, 0])));
    let (_, start) = written(t.step(&reply(0x0f, &[0])));
    assert_eq!(&start[4..15], &[0, 0, 0, 0, 0, 0, 0, 24, 0, 0, 0]);
    let (_, bytes) = written(t.step(&reply(0x06, &[1])));
    let mut frame = vec![0u8, 0, 0, 0, 1];
    frame.extend(vec![0u8; 19]);
    assert_eq!(bytes, framed(0x00, &[0, 0, 0, 0, 0, 24], &frame));
    let (_, bytes) = written(t.step(&reply(0x00, &[0, 0, 0, 0])));
    assert_eq!(bytes, vec![0x54, 0x01, 0x00, 0x03, 0x01, 0x00, 0x59]);
    assert_eq!(t.phase(), Phase::Ending);
}

#[test]
fn frame_over_the_length_field_is_refused() {
    assert!(matches!(
        Transfer::new(vec![0u8; 65512], None),
        Err(TransferError::FrameTooLarge)
    ));
    let t = Transfer::new(vec![0u8; 65511], None).unwrap();
    assert_eq!(t.chunk_total(), 134);
    let frame = ImageData::new(vec![0u8; 70000]);
    assert!(matches!(Transfer::for_frame(&frame, None), Err(TransferError::FrameTooLarge)));
}

#[test]
fn transfer_for_a_given_frame_announces_its_crc() {
    let frame = ImageData { crc32: 0x11223344, data: vec![7, 7] };
    let mut t = Transfer::for_frame(&frame, None).unwrap();
    written(t.step(&Event::Begin));
    written(t.step(&reply(0x0d, &[0, 0])));
    let (_, bytes) = written(t.step(&reply(0x0f, &[0])));
    assert_eq!(
        bytes,
        framed(0x06, &[], &[0x11, 0x22, 0x33, 0x44, 0, 0, 0, 26, 0, 0, 0])
    );
}

#[test]
fn hex_line() {
    assert_eq!(print_bytes_hex("Response:", &[0x54, 0x0d, 0x00, 0xff]), "Response: 54 0d 00 ff ");
    assert_eq!(print_bytes_hex("End Packet", &[]), "End Packet ");
    assert_eq!(print_bytes_hex("", &[0x0a, 0xb0, 0x9f]), " 0a b0 9f ");
    let all: Vec<u8> = (0..=255u8).collect();
    let mut expected = String::from("x ");
    for b in &all {
        expected.push_str(&format!("{:02x} ", b));
    }
    assert_eq!(print_bytes_hex("x", &all), expected);
}
