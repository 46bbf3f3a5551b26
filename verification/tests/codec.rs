use usbflash::codec::{
    decode_cbw, decode_csw, direction_byte, encode_cbw, status_from_byte, CommandStatus,
    Direction, FrameError,
};

#[test]
fn direction_bytes() {
    assert_eq!(direction_byte(Direction::HostToDevice), 0x00);
    assert_eq!(direction_byte(Direction::DeviceToHost), 0x80);
}

#[test]
fn encode_cbw_exact_layout() {
    let cdb: Vec<u8> = vec![0x25, 0, 0, 0, 0, 0, 0, 0, 0, 0];
    let bytes = encode_cbw(0, Direction::DeviceToHost, 8, &cdb).unwrap();
    let expected: Vec<u8> = vec![
        0x55, 0x53, 0x42, 0x43, // signature 0x43425355, little-endian
        0x00, 0x00, 0x00, 0x00, // transaction id 0
        0x08, 0x00, 0x00, 0x00, // 8 bytes expected in the data phase
        0x80, // device-to-host
        0x00, // LUN 0
        0x0A, // 10 command bytes
        0x25, 0, 0, 0, 0, 0, 0, 0, 0, 0, // the CDB...
        0, 0, 0, 0, 0, 0, // ...zero-padded to 16 bytes
    ];
    assert_eq!(bytes, expected);
}

#[test]
fn encode_cbw_little_endian_fields() {
    let cdb: Vec<u8> = vec![0x28];
    let bytes = encode_cbw(0x11223344, Direction::HostToDevice, 0xA1B2C3D4, &cdb).unwrap();
    assert_eq!(bytes.len(), 31);
    assert_eq!(&bytes[4..8], &[0x44, 0x33, 0x22, 0x11]);
    assert_eq!(&bytes[8..12], &[0xD4, 0xC3, 0xB2, 0xA1]);
    assert_eq!(bytes[12], 0x00);
    assert_eq!(bytes[14], 1);
    assert_eq!(bytes[15], 0x28);
}

#[test]
fn encode_cbw_rejects_oversized_command() {
    let cdb: Vec<u8> = vec![0u8; 17];
    assert_eq!(
        encode_cbw(0, Direction::HostToDevice, 0, &cdb),
        Err(FrameError::CommandTooLong)
    );
}

#[test]
fn encode_cbw_accepts_full_sixteen_bytes() {
    let cdb: Vec<u8> = (1..=16).collect();
    let bytes = encode_cbw(7, Direction::HostToDevice, 512, &cdb).unwrap();
    assert_eq!(bytes.len(), 31);
    assert_eq!(bytes[14], 16);
    assert_eq!(&bytes[15..31], cdb.as_slice());
}

#[test]
fn cbw_round_trip_recovers_every_field() {
    let cdb: Vec<u8> = vec![0x2A, 0, 0x01, 0x02, 0x03, 0x04, 0, 0x00, 0x10, 0];
    let bytes = encode_cbw(42, Direction::DeviceToHost, 4096, &cdb).unwrap();
    let decoded = decode_cbw(&bytes).unwrap();
    assert_eq!(decoded.signature, 0x43425355);
    assert_eq!(decoded.transaction_id, 42);
    assert_eq!(decoded.length, 4096);
    assert_eq!(decoded.direction, 0x80);
    assert_eq!(decoded.logical_unit_number, 0);
    assert_eq!(decoded.command_length, 10);
    assert_eq!(&decoded.command_data[..10], cdb.as_slice());
    assert_eq!(&decoded.command_data[10..], &[0u8; 6]);
}

#[test]
fn cbw_round_trip_empty_command() {
    let bytes = encode_cbw(0, Direction::HostToDevice, 0, &[]).unwrap();
    let decoded = decode_cbw(&bytes).unwrap();
    assert_eq!(decoded.command_length, 0);
    assert_eq!(decoded.direction, 0x00);
    assert_eq!(decoded.length, 0);
    assert_eq!(decoded.command_data, [0u8; 16]);
}

#[test]
fn decode_cbw_rejects_bad_frames() {
    let good = encode_cbw(0, Direction::HostToDevice, 0, &[0u8; 6]).unwrap();
    assert!(decode_cbw(&good).is_some());
    assert!(decode_cbw(&good[..30]).is_none());
    let mut wrong_signature = good.clone();
    wrong_signature[0] = 0x56;
    assert!(decode_cbw(&wrong_signature).is_none());
    let mut oversized_length = good.clone();
    oversized_length[14] = 17;
    assert!(decode_cbw(&oversized_length).is_none());
}

#[test]
fn decode_csw_short_buffer_is_no_status() {
    // 12 bytes or fewer never yield a status, however the bytes read.
    assert_eq!(decode_csw(&[]), Err(FrameError::Incomplete));
    let twelve = [0u8; 12];
    assert_eq!(decode_csw(&twelve), Err(FrameError::Incomplete));
    let crafted: Vec<u8> = vec![0x55, 0x53, 0x42, 0x53, 0, 0, 0, 0, 0, 0, 0, 0];
    assert_eq!(decode_csw(&crafted), Err(FrameError::Incomplete));
}

#[test]
fn decode_csw_status_byte_mapping() {
    let mut csw = [0u8; 13];
    csw[12] = 0x00;
    assert_eq!(decode_csw(&csw).unwrap().status, CommandStatus::Success);
    csw[12] = 0x01;
    assert_eq!(decode_csw(&csw).unwrap().status, CommandStatus::Error);
    csw[12] = 0x02;
    assert_eq!(decode_csw(&csw).unwrap().status, CommandStatus::PhaseError);
    csw[12] = 0x03;
    assert_eq!(decode_csw(&csw).unwrap().status, CommandStatus::Reserved);
    csw[12] = 0xFF;
    assert_eq!(decode_csw(&csw).unwrap().status, CommandStatus::Reserved);
}

#[test]
fn decode_csw_reads_little_endian_fields() {
    let bytes: Vec<u8> = vec![
        0x55, 0x53, 0x42, 0x53, // signature
        0x2A, 0x00, 0x00, 0x00, // transaction id 42
        0x00, 0x02, 0x00, 0x00, // residue 512
        0x01, // status: error
    ];
    let csw = decode_csw(&bytes).unwrap();
    assert_eq!(csw.signature, 0x53425355);
    assert_eq!(csw.transaction_id, 42);
    assert_eq!(csw.residue, 512);
    assert_eq!(csw.status, CommandStatus::Error);
}

#[test]
fn status_byte_mapping_is_exhaustive() {
    assert_eq!(status_from_byte(0), CommandStatus::Success);
    assert_eq!(status_from_byte(1), CommandStatus::Error);
    assert_eq!(status_from_byte(2), CommandStatus::PhaseError);
    for b in 3..=255u8 {
        assert_eq!(status_from_byte(b), CommandStatus::Reserved);
    }
}
