use lcdd::device::{
    check_ack, check_write, is_timeout_message, select_device_pair, DeviceEntry, DeviceError, Upload,
    UploadAction, UploadEvent, UploadStep,
};
use lcdd::config::DeviceConfig;
use lcdd::jpeg::{jpeg_dimensions, validate_jpeg_for_lcd, JpegError, LcdJpegError};
use lcdd::packetize::{packetize_jpeg, PacketizeError};
use lcdd::protocol::{
    ack_signature_bytes, init_packet, EXPECTED_JPEG_HEIGHT, EXPECTED_JPEG_WIDTH, HID_PAYLOAD_LEN,
    MAX_SYNTHETIC_CHUNKS,
};

fn sample_jpeg(width: u32, height: u32) -> Vec<u8> {
    let image = image::RgbImage::from_pixel(width, height, image::Rgb([40, 90, 200]));
    let mut out = Vec::new();
    let mut encoder = image::codecs::jpeg::JpegEncoder::new_with_quality(&mut out, 90);
    encoder.encode_image(&image).unwrap();
    out
}

#[test]
fn packetizer_produces_expected_headers_for_20_21_22_chunks() {
    for chunks in [20usize, 21, 22] {
        let payload_len = (chunks - 1) * HID_PAYLOAD_LEN + 17;
        let payload = vec![0x5a; payload_len];
        let packets = packetize_jpeg(&payload).unwrap();
        assert_eq!(packets.len(), chunks);
        assert_eq!(packets[0][..4], [0x08, chunks as u8, 0x00, 0x80]);
        for index in 1..chunks {
            assert_eq!(packets[index][..4], [0x08, index as u8, 0x00, 0x00]);
        }
    }
}

#[test]
fn packetizer_rejects_payloads_larger_than_v1_limit() {
    let payload = vec![0x7f; MAX_SYNTHETIC_CHUNKS * HID_PAYLOAD_LEN + 1];
    assert!(packetize_jpeg(&payload).is_err());
}

#[test]
fn packetizer_rejects_empty_payload_and_reports_chunk_count() {
    assert_eq!(packetize_jpeg(&[]), Err(PacketizeError::EmptyPayload));
    let payload = vec![1u8; MAX_SYNTHETIC_CHUNKS * HID_PAYLOAD_LEN + 1];
    assert_eq!(
        packetize_jpeg(&payload),
        Err(PacketizeError::TooManyChunks { chunks: MAX_SYNTHETIC_CHUNKS + 1 })
    );
}

#[test]
fn packetizer_payload_roundtrip_and_padding() {
    let payload: Vec<u8> = (0..2500u32).map(|i| (i % 251) as u8).collect();
    let packets = packetize_jpeg(&payload).unwrap();
    assert_eq!(packets.len(), 3);
    let mut stream = Vec::new();
    for packet in &packets {
        stream.extend_from_slice(&packet[4..]);
    }
    assert_eq!(&stream[..payload.len()], payload.as_slice());
    assert!(stream[payload.len()..].iter().all(|b| *b == 0));
    assert_eq!(stream.len(), 3 * HID_PAYLOAD_LEN);
}

#[test]
fn packetizer_exact_multiple_uses_no_extra_packet() {
    let payload = vec![9u8; 2 * HID_PAYLOAD_LEN];
    let packets = packetize_jpeg(&payload).unwrap();
    assert_eq!(packets.len(), 2);
    assert_eq!(packets[0][..4], [0x08, 2, 0x00, 0x80]);
    assert_eq!(packets[1][..4], [0x08, 1, 0x00, 0x00]);
    assert_eq!(packets[1][1023], 9);
}

#[test]
fn jpeg_dimension_parser_accepts_sample_capture_image() {
    let bytes = sample_jpeg(320, 320);
    let dims = jpeg_dimensions(&bytes).unwrap();
    assert_eq!(dims, (EXPECTED_JPEG_WIDTH, EXPECTED_JPEG_HEIGHT));
}

#[test]
fn jpeg_dimension_parser_rejects_non_jpeg() {
    assert!(jpeg_dimensions(b"not-a-jpeg").is_err());
}

#[test]
fn jpeg_dimension_parser_reports_each_error() {
    assert_eq!(jpeg_dimensions(&[0xff, 0xd8]), Err(JpegError::TooSmall));
    assert_eq!(jpeg_dimensions(b"not-a-jpeg"), Err(JpegError::MissingSoi));
    assert_eq!(jpeg_dimensions(&[0xff, 0xd8, 0xff, 0xd9, 0, 0]), Err(JpegError::SofNotFound));
    assert_eq!(
        jpeg_dimensions(&[0xff, 0xd8, 0xff, 0xe0, 0x00, 0x01, 0, 0]),
        Err(JpegError::InvalidSegmentLength { len: 1 })
    );
    assert_eq!(
        jpeg_dimensions(&[0xff, 0xd8, 0xff, 0xe0, 0x00, 0x10, 0, 0]),
        Err(JpegError::TruncatedSegment)
    );
    assert_eq!(
        jpeg_dimensions(&[0xff, 0xd8, 0xff, 0xc0, 0x00, 0x05, 8, 0, 0]),
        Err(JpegError::InvalidSofLength { len: 5 })
    );
    assert_eq!(
        jpeg_dimensions(&[0xff, 0xd8, 0x00, 0x00, 0xff, 0xc0]),
        Err(JpegError::TruncatedMarker)
    );
}

#[test]
fn jpeg_dimension_parser_reads_capture_sof_header() {
    // SOI, an APP0 segment, fill bytes, then the SOF0 seen in the capture.
    let bytes = [
        0xff, 0xd8, 0xff, 0xe0, 0x00, 0x04, 0x4a, 0x46, 0xff, 0xff, 0xc0, 0x00, 0x11, 0x08, 0x01,
        0x40, 0x01, 0x40, 0x03, 0x01, 0x22, 0x00, 0x02, 0x11, 0x01, 0x03, 0x11, 0x01,
    ];
    assert_eq!(jpeg_dimensions(&bytes), Ok((320, 320)));
    let mut extended = bytes.to_vec();
    extended.extend_from_slice(&[0xde, 0xad, 0xbe, 0xef]);
    assert_eq!(jpeg_dimensions(&extended), Ok((320, 320)));
}

#[test]
fn validate_jpeg_for_lcd_requires_320_square() {
    assert_eq!(validate_jpeg_for_lcd("ok.jpg", &sample_jpeg(320, 320)), Ok((320, 320)));
    assert_eq!(
        validate_jpeg_for_lcd("small.jpg", &sample_jpeg(64, 32)),
        Err(LcdJpegError {
            path: "small.jpg".to_string(),
            error: JpegError::WrongDimensions { width: 64, height: 32 },
        })
    );
    assert_eq!(
        validate_jpeg_for_lcd("text.jpg", b"not-a-jpeg").map_err(|e| (e.path, e.error)),
        Err(("text.jpg".to_string(), JpegError::MissingSoi))
    );
}

#[test]
fn init_packet_and_ack_signature_match_capture() {
    let packet = init_packet();
    assert_eq!(packet.len(), 440);
    assert_eq!(packet[..8], [0x12, 0x01, 0x00, 0x80, 0x64, 0x00, 0x00, 0x00]);
    assert!(packet[5..].iter().all(|b| *b == 0));
    let ack = ack_signature_bytes();
    assert_eq!(ack[..2], [0x08, 0x81]);
    assert!(ack[2..].iter().all(|b| *b == 0));
}

#[test]
fn ack_check_accepts_only_the_signature() {
    let mut buf = [0u8; 64];
    buf[0] = 0x08;
    buf[1] = 0x81;
    assert_eq!(check_ack(&buf, 16), Ok(()));
    assert_eq!(check_ack(&buf, 15), Err(DeviceError::UnexpectedAckLength { size: 15 }));
    buf[5] = 1;
    assert_eq!(check_ack(&buf, 16), Err(DeviceError::AckMismatch));
    assert_eq!(check_write(1024, 1024), Ok(()));
    assert_eq!(check_write(10, 1024), Err(DeviceError::ShortWrite { written: 10, expected: 1024 }));
}

#[test]
fn timeout_messages_are_recognized() {
    assert!(is_timeout_message("hidapi error: timed out"));
    assert!(is_timeout_message("read timeout"));
    assert!(!is_timeout_message("device disconnected"));
}

fn entry(interface: i32, serial: Option<&str>, path: u8) -> DeviceEntry {
    DeviceEntry {
        path: vec![path, 0],
        serial: serial.map(str::to_string),
        vendor_id: 0x0b05,
        product_id: 0x1ca9,
        interface_number: interface,
    }
}

#[test]
fn device_pair_selection_follows_interfaces_and_serial() {
    let config = DeviceConfig::default();
    let mut other = entry(0, None, 9);
    other.product_id = 0x1234;
    let devices = vec![other, entry(1, Some("A"), 1), entry(0, Some("A"), 2)];
    assert_eq!(select_device_pair(&devices, &config), Ok((2, 1)));

    let none: Vec<DeviceEntry> = vec![entry(1, None, 1)];
    assert_eq!(
        select_device_pair(&none, &config),
        Err(DeviceError::NoInitInterface { vendor_id: 0x0b05, product_id: 0x1ca9 })
    );
    let no_bulk = vec![entry(0, None, 1)];
    assert_eq!(
        select_device_pair(&no_bulk, &config),
        Err(DeviceError::NoBulkInterface { vendor_id: 0x0b05, product_id: 0x1ca9 })
    );

    let two = vec![entry(0, Some("A"), 1), entry(1, Some("A"), 2), entry(0, Some("B"), 3), entry(1, Some("B"), 4)];
    assert_eq!(select_device_pair(&two, &config), Err(DeviceError::MultipleCoolers));
    let mut by_serial = DeviceConfig::default();
    by_serial.serial = Some("B".to_string());
    assert_eq!(select_device_pair(&two, &by_serial), Ok((2, 3)));
}

fn ack_buffer() -> [u8; 64] {
    let mut buf = [0u8; 64];
    buf[0] = 0x08;
    buf[1] = 0x81;
    buf
}

#[test]
fn uploads_drain_write_in_order_and_check_the_ack() {
    let mut upload = Upload::new(3, 1024);
    assert_eq!(upload.step(), UploadStep::Draining);
    assert_eq!(upload.advance(UploadEvent::Drained { size: 16 }), UploadAction::ReadPending);
    assert_eq!(upload.advance(UploadEvent::DrainFailed { timed_out: true }), UploadAction::Write { index: 0 });
    assert_eq!(upload.advance(UploadEvent::Written { written: 1024 }), UploadAction::Write { index: 1 });
    assert_eq!(upload.advance(UploadEvent::Written { written: 1024 }), UploadAction::Write { index: 2 });
    assert_eq!(upload.advance(UploadEvent::Written { written: 1024 }), UploadAction::ReadAck);
    assert_eq!(upload.advance(UploadEvent::AckRead { size: 16, buf: ack_buffer() }), UploadAction::Finished);
    assert_eq!(upload.step(), UploadStep::Done);
}

#[test]
fn uploads_fail_on_short_writes_bad_acks_and_hid_errors() {
    let mut upload = Upload::new(2, 1024);
    upload.advance(UploadEvent::Drained { size: 0 });
    assert_eq!(
        upload.advance(UploadEvent::Written { written: 10 }),
        UploadAction::Abort { error: Some(DeviceError::ShortWrite { written: 10, expected: 1024 }) }
    );

    let mut upload = Upload::new(1, 1024);
    upload.advance(UploadEvent::Drained { size: 0 });
    upload.advance(UploadEvent::Written { written: 1024 });
    let mut bad = ack_buffer();
    bad[7] = 1;
    assert_eq!(
        upload.advance(UploadEvent::AckRead { size: 16, buf: bad }),
        UploadAction::Abort { error: Some(DeviceError::AckMismatch) }
    );

    let mut upload = Upload::new(1, 1024);
    upload.advance(UploadEvent::Drained { size: 0 });
    upload.advance(UploadEvent::Written { written: 1024 });
    assert_eq!(
        upload.advance(UploadEvent::AckRead { size: 8, buf: ack_buffer() }),
        UploadAction::Abort { error: Some(DeviceError::UnexpectedAckLength { size: 8 }) }
    );

    let mut upload = Upload::new(1, 1024);
    assert_eq!(upload.advance(UploadEvent::DrainFailed { timed_out: false }), UploadAction::Abort { error: None });
    let mut upload = Upload::new(1, 1024);
    assert_eq!(upload.advance(UploadEvent::WriteFailed), UploadAction::Abort { error: None });
}
