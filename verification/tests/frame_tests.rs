use iledcolor::frame::{chunk, chunk_count, chunks, ImageData, StartAnnouncement, CHUNK_SIZE};
use iledcolor::image::ILedImage;
use iledcolor::packet::ImageData as PacketImageData;

#[test]
fn crc32_iscsi_of_empty_input_is_zero() {
    assert_eq!(ImageData::new(vec![]).crc32, 0x0000_0000);
}

#[test]
fn crc32_iscsi_check_value() {
    assert_eq!(ImageData::new(b"123456789".to_vec()).crc32, 0xe306_9283);
}

#[test]
fn crc32_iscsi_known_vectors() {
    assert_eq!(ImageData::new(vec![0u8; 32]).crc32, 0x8a91_36aa);
    assert_eq!(ImageData::new(vec![0xffu8; 32]).crc32, 0x62a8_ab43);
    let ascending: Vec<u8> = (0u8..32).collect();
    assert_eq!(ImageData::new(ascending).crc32, 0x46dd_794e);
}

#[test]
fn frame_is_crc_marker_padding_payload() {
    let frame = ImageData::new(b"123456789".to_vec());
    let mut expected = vec![0xe3, 0x06, 0x92, 0x83, 0x01];
    expected.extend(vec![0u8; 19]);
    expected.extend(b"123456789");
    assert_eq!(frame.to_bytes(), expected);
    assert_eq!(frame.to_bytes().len(), 24 + 9);
    assert_eq!(frame.data, b"123456789".to_vec());
}

#[test]
fn empty_frame_is_the_bare_header() {
    let mut expected = vec![0, 0, 0, 0, 1];
    expected.extend(vec![0u8; 19]);
    assert_eq!(ImageData::new(vec![]).to_bytes(), expected);
}

#[test]
fn frame_type_is_reachable_through_the_packet_module() {
    let frame: PacketImageData = ImageData::new(vec![1, 2, 3]);
    assert_eq!(frame.to_bytes().len(), 27);
}

#[test]
fn solid_red_frame_scenario() {
    let image = ILedImage::solid_color(48, 12, 255, 0, 0);
    let pixels = image.data().clone();
    assert_eq!(pixels.len(), 1728);
    for (i, b) in pixels.iter().enumerate() {
        assert_eq!(*b, if i % 3 == 0 { 0xff } else { 0x00 });
    }
    let frame = ImageData::new(pixels);
    assert_eq!(frame.to_bytes().len(), 1752);
    let announcement = StartAnnouncement::for_frame(&frame).unwrap();
    assert_eq!(announcement.total_length(), 1752);
    assert_eq!(announcement.crc32(), frame.crc32);
}

#[test]
fn solid_red_image_with_header_frame_length() {
    let image = ILedImage::solid_color(48, 12, 255, 0, 0);
    let frame = ImageData::new(image.to_bytes());
    assert_eq!(frame.data.len(), 1750);
    assert_eq!(frame.to_bytes().len(), 1774);
    assert_eq!(StartAnnouncement::for_frame(&frame).unwrap().total_length(), 0x06ee);
}

#[test]
fn chunking_1752_bytes_scenario() {
    let frame = ImageData::new(ILedImage::solid_color(48, 12, 255, 0, 0).data().clone());
    let bytes = frame.to_bytes();
    assert_eq!(bytes.len(), 1752);
    assert_eq!(chunk_count(bytes.len()), 4);
    let pieces = chunks(&bytes);
    let lengths: Vec<usize> = pieces.iter().map(|p| p.len()).collect();
    assert_eq!(lengths, vec![492, 492, 492, 276]);
    for (i, piece) in pieces.iter().enumerate() {
        assert_eq!(&chunk(&bytes, i), piece);
        let packet = iledcolor::command::continue_packet(i as u32, piece.clone());
        assert_eq!(packet.sequence(), Some(i as u32));
        assert_eq!(packet.data_length(), Some(piece.len() as u16));
    }
    assert_eq!(pieces.concat(), bytes);
}

#[test]
fn chunk_count_is_the_ceiling() {
    assert_eq!(CHUNK_SIZE, 492);
    assert_eq!(chunk_count(0), 0);
    assert_eq!(chunk_count(1), 1);
    assert_eq!(chunk_count(491), 1);
    assert_eq!(chunk_count(492), 1);
    assert_eq!(chunk_count(493), 2);
    assert_eq!(chunk_count(984), 2);
    assert_eq!(chunk_count(985), 3);
    assert_eq!(chunk_count(65535), 134);
}

#[test]
fn chunks_rebuild_the_input() {
    for len in [0usize, 1, 491, 492, 493, 983, 984, 985, 1476, 5000] {
        let bytes: Vec<u8> = (0..len).map(|i| (i % 251) as u8).collect();
        let pieces = chunks(&bytes);
        assert_eq!(pieces.len(), (len + 491) / 492);
        for (i, piece) in pieces.iter().enumerate() {
            if i + 1 < pieces.len() {
                assert_eq!(piece.len(), 492);
            } else {
                assert!(1 <= piece.len() && piece.len() <= 492);
            }
            assert_eq!(piece.as_slice(), &bytes[i * 492..(i * 492 + piece.len())]);
        }
        assert_eq!(pieces.concat(), bytes);
    }
}

#[test]
fn exact_multiple_has_a_full_last_chunk() {
    let bytes = vec![7u8; 984];
    assert_eq!(chunk(&bytes, 1).len(), 492);
    assert_eq!(chunks(&bytes).len(), 2);
}

#[test]
fn announcement_bytes_layout() {
    let announcement = StartAnnouncement::describe(0x01020304, 0x1000).unwrap();
    assert_eq!(announcement.total_length(), 0x1018);
    assert_eq!(
        announcement.to_bytes(),
        vec![0x01, 0x02, 0x03, 0x04, 0x00, 0x00, 0x10, 0x18, 0x00, 0x00, 0x00]
    );
}

#[test]
fn announcement_length_is_payload_plus_24() {
    for len in [0usize, 1, 1728, 1750, 40000, 65511] {
        let a = StartAnnouncement::describe(0, len).unwrap();
        assert_eq!(a.total_length() as usize, 24 + len);
    }
    let frame = ImageData::new(vec![5u8; 100]);
    assert_eq!(StartAnnouncement::for_frame(&frame).unwrap().total_length(), 124);
}

#[test]
fn announcement_refuses_a_frame_over_two_bytes_of_length() {
    assert!(StartAnnouncement::describe(0, 65511).is_some());
    assert!(StartAnnouncement::describe(0, 65512).is_none());
    assert!(StartAnnouncement::describe(0, usize::MAX).is_none());
    assert!(StartAnnouncement::for_frame(&ImageData::new(vec![0u8; 65512])).is_none());
}
