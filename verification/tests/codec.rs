use collector::codec::{build_frame, build_request, validate_and_extract, FrameError, READING_OFFSET};

#[test]
fn build_request_canonical() {
    // The worked example: `[0x3A, 0x01, 0x00]` carries checksum 0x70.
    assert_eq!(build_request(), vec![0x3A, 0x01, 0x00, 0x70]);
}

#[test]
fn build_frame_appends_checksum() {
    let payload: Vec<u8> = vec![0x3A, 0x01, 0x00];
    assert_eq!(build_frame(&payload), vec![0x3A, 0x01, 0x00, 0x70]);
}

#[test]
fn build_frame_check_value() {
    // The catalog check value for CRC-8/MAXIM-DOW: "123456789" -> 0xA1.
    let payload: Vec<u8> = vec![b'1', b'2', b'3', b'4', b'5', b'6', b'7', b'8', b'9'];
    let frame = build_frame(&payload);
    assert_eq!(frame.len(), 10);
    assert_eq!(frame[9], 0xA1);
}

#[test]
fn round_trip_valid_frame() {
    // A frame built with a trailing checksum checksums to zero as a whole,
    // so validation succeeds and returns the byte at the reading offset.
    let payload: Vec<u8> = vec![0x10, 0x20, 0x30, 0x42, 0x50];
    let frame = build_frame(&payload);
    assert_eq!(validate_and_extract(&frame), Ok(0x42));
}

#[test]
fn single_bit_flip_detected() {
    // Flipping any single bit of a valid frame breaks checksum validation.
    let payload: Vec<u8> = vec![0x3A, 0x01, 0x00, 0x7F];
    let frame = build_frame(&payload);
    assert!(validate_and_extract(&frame).is_ok());
    for byte_index in 0..frame.len() {
        for bit in 0..8 {
            let mut corrupted = frame.clone();
            corrupted[byte_index] ^= 1u8 << bit;
            assert_eq!(
                validate_and_extract(&corrupted),
                Err(FrameError::ChecksumMismatch),
                "flip of bit {} in byte {} went undetected",
                bit,
                byte_index
            );
        }
    }
}

#[test]
fn truncated_frame_rejected() {
    // A valid frame too short to hold a reading at the offset is rejected
    // as truncated rather than read out of bounds.
    let payload: Vec<u8> = vec![0xAA, 0xBB];
    let frame = build_frame(&payload);
    assert_eq!(frame.len(), READING_OFFSET);
    assert_eq!(validate_and_extract(&frame), Err(FrameError::Truncated));
}

#[test]
fn empty_response_rejected_as_truncated() {
    // The checksum of an empty sequence is zero, so an empty response is a
    // "valid" frame that is far too short.
    let empty: Vec<u8> = vec![];
    assert_eq!(validate_and_extract(&empty), Err(FrameError::Truncated));
}

#[test]
fn reading_is_byte_at_offset() {
    let payload: Vec<u8> = vec![0x00, 0x00, 0x00, 0xFF];
    let frame = build_frame(&payload);
    assert_eq!(validate_and_extract(&frame), Ok(0xFF));
}
