use spi_wb_bridge::FrameError;
use spi_wb_bridge::Read;
use spi_wb_bridge::Response;
use spi_wb_bridge::Write;

#[test]
fn write_frame_round_trip() {
    let frame = Write::new(0b1010, 0xdead_beef, 0x0102_0304).pack();
    assert_eq!(frame.len(), 14);
    assert_eq!(frame[0] & 0x0f, 0b1010);
    let addr = u32::from_le_bytes([frame[1], frame[2], frame[3], frame[4]]);
    assert_eq!(addr, 0xdead_beef);
    let data = u32::from_le_bytes([frame[5], frame[6], frame[7], frame[8]]);
    assert_eq!(data, 0x0102_0304);
    assert_eq!(&frame[9..], &[0u8; 5]);
}

#[test]
fn read_frame_round_trip() {
    let frame = Read::new(0b1111, 0xcafe_f00d).pack();
    assert_eq!(frame.len(), 14);
    assert_eq!(frame[0] & 0x0f, 0b1111);
    let addr = u32::from_le_bytes([frame[1], frame[2], frame[3], frame[4]]);
    assert_eq!(addr, 0xcafe_f00d);
    assert_eq!(&frame[5..], &[0u8; 9]);
}

#[test]
fn write_frame_byte_order() {
    let frame = Write::new(0b1111, 0x1234_5678, 0).pack();
    assert_eq!(&frame[1..5], &[0x78, 0x56, 0x34, 0x12]);
}

#[test]
fn read_frame_byte_order() {
    let frame = Read::new(0b1111, 0x1234_5678).pack();
    assert_eq!(&frame[1..5], &[0x78, 0x56, 0x34, 0x12]);
}

#[test]
fn write_frame_data_byte_order() {
    let frame = Write::new(0b1111, 0, 0x1234_5678).pack();
    assert_eq!(&frame[5..9], &[0x78, 0x56, 0x34, 0x12]);
}

#[test]
fn marker_bit_set_on_write_frames() {
    let frame = Write::new(0b0101, 0xffff_ffff, 0xffff_ffff).pack();
    assert_eq!(frame[0] & 0x80, 0x80);
    assert_eq!(frame[0], 0x85);
}

#[test]
fn marker_bit_clear_on_read_frames() {
    let frame = Read::new(0b0101, 0xffff_ffff).pack();
    assert_eq!(frame[0] & 0x80, 0x00);
    assert_eq!(frame[0], 0x05);
}

#[test]
fn unpack_extracts_response_fields() {
    let mut buf = vec![0u8; 14];
    buf[9] = 0x01;
    buf[10] = 0x02;
    buf[11] = 0x03;
    buf[12] = 0x04;
    buf[13] = 0xcf;
    let resp = Response::unpack(&buf).unwrap();
    assert_eq!(resp.read_data, 0x0403_0201);
    assert!(resp.ack);
    assert!(resp.error);
    assert_eq!(resp.byte_enable, 0x0f);
}

#[test]
fn unpack_reads_flag_bits_independently() {
    let mut buf = vec![0u8; 14];
    buf[13] = 0x80;
    let resp = Response::unpack(&buf).unwrap();
    assert!(resp.ack);
    assert!(!resp.error);
    assert_eq!(resp.byte_enable, 0);

    buf[13] = 0x4a;
    let resp = Response::unpack(&buf).unwrap();
    assert!(!resp.ack);
    assert!(resp.error);
    assert_eq!(resp.byte_enable, 0x0a);
}

#[test]
fn unpack_ignores_dummy_and_reserved_bits() {
    let mut plain = vec![0u8; 14];
    plain[9] = 0x99;
    plain[13] = 0x8f;
    let mut noisy = plain.clone();
    for i in 0..9 {
        noisy[i] = 0xa5;
    }
    noisy[13] |= 0x30;
    let a = Response::unpack(&plain).unwrap();
    let b = Response::unpack(&noisy).unwrap();
    assert_eq!(a, b);
}

#[test]
fn unpack_rejects_short_buffer() {
    let buf = vec![0u8; 13];
    assert_eq!(Response::unpack(&buf), Err(FrameError { found: 13 }));
}

#[test]
fn unpack_rejects_long_buffer() {
    let buf = vec![0u8; 15];
    assert_eq!(Response::unpack(&buf), Err(FrameError { found: 15 }));
}
