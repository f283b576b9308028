use mcp25xxfd::frame::{ExtendedId, Frame, Id, StandardId};
use mcp25xxfd::registers::{DataLengthCode, ReceiveMessageObjectHeader};

fn standard(raw: u16) -> Id {
    Id::Standard(StandardId::new(raw).unwrap())
}

fn extended(raw: u32) -> Id {
    Id::Extended(ExtendedId::new(raw).unwrap())
}

const BYTE_COUNTS: [usize; 16] = [0, 1, 2, 3, 4, 5, 6, 7, 8, 12, 16, 20, 24, 32, 48, 64];

#[test]
fn best_fit_is_smallest_code_that_holds_the_length() {
    for len in 0..=64usize {
        let dlc = DataLengthCode::best_fit(len).unwrap();
        let expected = *BYTE_COUNTS.iter().find(|&&b| b >= len).unwrap();
        assert_eq!(dlc.bytes(), expected, "length {}", len);
    }
}

#[test]
fn best_fit_fails_past_sixty_four_bytes() {
    assert!(DataLengthCode::best_fit(65).is_none());
    assert!(DataLengthCode::best_fit(1000).is_none());
}

#[test]
fn boundary_lengths_select_their_own_code() {
    assert_eq!(DataLengthCode::best_fit(8), Some(DataLengthCode::DLC_8));
    assert_eq!(DataLengthCode::best_fit(12), Some(DataLengthCode::DLC_12));
    assert_eq!(DataLengthCode::best_fit(16), Some(DataLengthCode::DLC_16));
    assert_eq!(DataLengthCode::best_fit(20), Some(DataLengthCode::DLC_20));
    assert_eq!(DataLengthCode::best_fit(24), Some(DataLengthCode::DLC_24));
    assert_eq!(DataLengthCode::best_fit(32), Some(DataLengthCode::DLC_32));
    assert_eq!(DataLengthCode::best_fit(48), Some(DataLengthCode::DLC_48));
    assert_eq!(DataLengthCode::best_fit(64), Some(DataLengthCode::DLC_64));
}

#[test]
fn lengths_between_codes_round_up() {
    assert_eq!(DataLengthCode::best_fit(9), Some(DataLengthCode::DLC_12));
    assert_eq!(DataLengthCode::best_fit(13), Some(DataLengthCode::DLC_16));
    assert_eq!(DataLengthCode::best_fit(33), Some(DataLengthCode::DLC_48));
    assert_eq!(DataLengthCode::best_fit(49), Some(DataLengthCode::DLC_64));
}

#[test]
fn dlc_codes_round_trip() {
    for code in 0..16u32 {
        let dlc = DataLengthCode::from_code(code);
        assert_eq!(dlc.code(), code);
        assert_eq!(dlc.bytes(), BYTE_COUNTS[code as usize]);
    }
}

#[test]
fn frame_new_pads_payload_to_its_code() {
    let frame = Frame::new(standard(0x123), &[1, 2, 3, 4, 5, 6, 7, 8, 9]).unwrap();
    assert_eq!(frame.dlc(), DataLengthCode::DLC_12);
    assert_eq!(frame.data(), &[1, 2, 3, 4, 5, 6, 7, 8, 9, 0, 0, 0]);
    assert_eq!(frame.sequence_number(), 0);
    assert_eq!(frame.raw_id(), 0x123);
}

#[test]
fn frame_new_rejects_more_than_sixty_four_bytes() {
    let data = [0u8; 65];
    assert!(Frame::new(standard(1), &data).is_none());
    assert!(Frame::new(standard(1), &data[..64]).is_some());
}

#[test]
fn empty_frame_has_code_zero() {
    let frame = Frame::new(standard(0), &[]).unwrap();
    assert_eq!(frame.dlc(), DataLengthCode::DLC_0);
    assert!(frame.data().is_empty());
    assert!(frame.padded_data().is_empty());
}

#[test]
fn identifiers_are_range_checked() {
    assert!(StandardId::new(0x7FF).is_some());
    assert!(StandardId::new(0x800).is_none());
    assert!(ExtendedId::new(0x1FFF_FFFF).is_some());
    assert!(ExtendedId::new(0x2000_0000).is_none());
    assert_eq!(StandardId::new(0x42).unwrap().as_raw(), 0x42);
}

#[test]
fn extended_identifier_splits_into_low_and_high_parts() {
    let id = extended(0x1ABCDE);
    let (sid, eid) = id.split();
    assert_eq!(sid, 0x1ABCDE & 0x7FF);
    assert_eq!(eid, 0x1ABCDE >> 11);
    assert_eq!((eid << 11) | sid, 0x1ABCDE);
}

#[test]
fn standard_identifier_has_no_extended_part() {
    assert_eq!(standard(0x555).split(), (0x555, 0));
}

#[test]
fn transmit_header_fields() {
    let frame = Frame::new(extended(0x1ABCDE), &[0xAA; 20]).unwrap().with_sequence_number(0x12345);
    let (header, data) = frame.as_components();
    assert_eq!(data, &[0xAA; 20]);
    // DLC 11 (20 bytes), IDE, BRS and FDF set, sequence number from bit 9.
    assert_eq!(header.control, 11 | (1 << 4) | (1 << 6) | (1 << 7) | (0x12345 << 9));
    assert_eq!(header.identifier, (0x1ABCDE & 0x7FF) | ((0x1ABCDE >> 11) << 11));
}

#[test]
fn classic_frame_sets_neither_brs_nor_fdf() {
    let frame = Frame::new(standard(0x7FF), &[1, 2, 3, 4, 5, 6, 7, 8]).unwrap();
    let (header, _) = frame.as_components();
    assert_eq!(header.control, 8);
    assert_eq!(header.identifier, 0x7FF);
}

#[test]
fn header_bytes_are_little_endian_words() {
    let frame = Frame::new(standard(0x123), &[]).unwrap();
    let (header, _) = frame.as_components();
    assert_eq!(header.into_bytes(), [0, 0, 0, 0, 0x23, 0x01, 0, 0]);
}

fn round_trip(frame: &Frame) -> Frame {
    let (header, data) = frame.as_components();
    let rx_header = ReceiveMessageObjectHeader::from_bytes(&header.into_bytes());
    let mut ram = [0u8; 64];
    ram[..data.len()].copy_from_slice(data);
    Frame::from_rx_message(rx_header, ram)
}

#[test]
fn decode_of_encode_gives_back_the_frame() {
    let cases = [
        Frame::new(standard(0x123), &[1, 2, 3]).unwrap(),
        Frame::new(standard(0), &[]).unwrap(),
        Frame::new(extended(0x1ABCDE), &[9; 64]).unwrap(),
        Frame::new(extended(0x1FFF_FFFF), &[7; 13]).unwrap().with_sequence_number(99),
    ];
    for frame in cases.iter() {
        let back = round_trip(frame);
        assert_eq!(back.id(), frame.id());
        assert_eq!(back.dlc(), frame.dlc());
        assert_eq!(back.data(), frame.data());
        assert_eq!(back.sequence_number(), 0);
    }
}

#[test]
fn small_extended_identifier_decodes_as_standard() {
    let frame = Frame::new(extended(0x123), &[1]).unwrap();
    let back = round_trip(&frame);
    assert_eq!(back.id(), standard(0x123));
}

#[test]
fn receive_header_decodes_extended_identifier() {
    let header = ReceiveMessageObjectHeader { control: 15 | (3 << 11), identifier: 0x5DE | (0x359 << 11) };
    assert_eq!(header.filthit(), 3);
    let frame = Frame::from_rx_message(header, [5; 64]);
    assert_eq!(frame.raw_id(), (0x359 << 11) | 0x5DE);
    assert_eq!(frame.dlc(), DataLengthCode::DLC_64);
    assert_eq!(frame.data(), &[5; 64]);
}

#[test]
fn with_dlc_changes_the_payload_length() {
    let frame = Frame::new(standard(1), &[1, 2, 3, 4]).unwrap().with_dlc(DataLengthCode::DLC_2);
    assert_eq!(frame.data(), &[1, 2]);
    assert_eq!(frame.padded_data(), &[1, 2, 3, 4]);
}
