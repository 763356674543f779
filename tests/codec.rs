use esp32cam::driver_codes::DriverCodes;
use esp32cam::frame_size::FrameSize;
use esp32cam::messages::Instruction;
use esp32cam::packet::{frame_payload, IncomingPacket, OutgoingPacket, ProtocolError};
use esp32cam::pixel_format::{PixelFormat, UnknownCode};

const ALL_PIXEL_FORMATS: [PixelFormat; 4] =
    [PixelFormat::GRAYSCALE, PixelFormat::RGB565, PixelFormat::YUV422, PixelFormat::JPEG];

const ALL_FRAME_SIZES: [FrameSize; 9] = [
    FrameSize::QQVGA,
    FrameSize::QCIF,
    FrameSize::QVGA,
    FrameSize::CIF,
    FrameSize::VGA,
    FrameSize::SVGA,
    FrameSize::XGA,
    FrameSize::SXGA,
    FrameSize::UXGA,
];

/// A driver numbering for these tests: distinct and unlike declaration order.
fn codes() -> DriverCodes {
    DriverCodes::checked([3, 0, 1, 4], [1, 2, 5, 6, 8, 9, 10, 12, 13]).expect("distinct codes")
}

#[test]
fn pixel_format_codes_round_trip() {
    let c = codes();
    for p in ALL_PIXEL_FORMATS {
        assert_eq!(PixelFormat::from_code(p.code(&c), &c), Ok(p));
    }
    assert_eq!(PixelFormat::JPEG.code(&c), 4);
    assert_eq!(PixelFormat::GRAYSCALE.code(&c), 3);
    assert_eq!(PixelFormat::from_code(0, &c), Ok(PixelFormat::RGB565));
}

#[test]
fn frame_size_codes_round_trip() {
    let c = codes();
    for f in ALL_FRAME_SIZES {
        assert_eq!(FrameSize::from_code(f.code(&c), &c), Ok(f));
    }
    assert_eq!(FrameSize::SVGA.code(&c), 9);
    assert_eq!(FrameSize::UXGA.code(&c), 13);
    assert_eq!(FrameSize::from_code(5, &c), Ok(FrameSize::QVGA));
}

#[test]
fn unknown_codes_are_errors_not_defaults() {
    let c = codes();
    assert_eq!(PixelFormat::from_code(2, &c), Err(UnknownCode(2)));
    assert_eq!(PixelFormat::from_code(99, &c), Err(UnknownCode(99)));
    assert_eq!(FrameSize::from_code(0, &c), Err(UnknownCode(0)));
    assert_eq!(FrameSize::from_code(11, &c), Err(UnknownCode(11)));
    assert_eq!(FrameSize::from_code(u32::MAX, &c), Err(UnknownCode(u32::MAX)));
}

#[test]
fn repeated_driver_codes_are_refused() {
    assert!(DriverCodes::checked([3, 0, 1, 3], [1, 2, 5, 6, 8, 9, 10, 12, 13]).is_none());
    assert!(DriverCodes::checked([3, 0, 1, 4], [1, 2, 5, 6, 8, 9, 10, 12, 1]).is_none());
    assert!(DriverCodes::checked([0, 1, 2, 3], [0, 1, 2, 3, 4, 5, 6, 7, 8]).is_some());
}

#[test]
fn defaults_are_jpeg_and_svga() {
    assert_eq!(PixelFormat::default(), PixelFormat::JPEG);
    assert_eq!(FrameSize::default(), FrameSize::SVGA);
}

#[test]
fn payload_is_big_endian() {
    assert_eq!(frame_payload(&[0, 1, 2, 3, 4]), 0x0102_0304);
    assert_eq!(frame_payload(&[9, 0, 0, 0, 5]), 5);
    assert_eq!(frame_payload(&[9, 0xff, 0xff, 0xff, 0xff]), u32::MAX);
}

/// A five-byte frame with a tag and a big-endian payload.
fn frame(tag: u8, payload: u32) -> [u8; 5] {
    let b = payload.to_be_bytes();
    [tag, b[0], b[1], b[2], b[3]]
}

#[test]
fn known_tags_decode() {
    let c = codes();
    assert_eq!(IncomingPacket::decode(&[1, 0, 0, 0, 0], &c), Ok(IncomingPacket::Capture));
    assert_eq!(IncomingPacket::decode(&[1, 7, 7, 7, 7], &c), Ok(IncomingPacket::Capture));
    assert_eq!(
        IncomingPacket::decode(&[2, 0, 0, 0, 0], &c),
        Ok(IncomingPacket::SetPixelFormat(PixelFormat::RGB565))
    );
    assert_eq!(
        IncomingPacket::decode(&[3, 0, 0, 0, 9], &c),
        Ok(IncomingPacket::SetFrameSize(FrameSize::SVGA))
    );
    assert_eq!(IncomingPacket::decode(&[4, 0, 0, 0, 0], &c), Ok(IncomingPacket::Restart));
    assert_eq!(IncomingPacket::decode(&[4, 1, 2, 3, 4], &c), Ok(IncomingPacket::Restart));
}

#[test]
fn every_other_tag_is_unknown() {
    let c = codes();
    for tag in 0..=255u8 {
        if (1..=4).contains(&tag) {
            continue;
        }
        assert_eq!(IncomingPacket::decode(&[tag, 0, 0, 0, 1], &c), Err(ProtocolError::UnknownTag(tag)));
    }
}

#[test]
fn out_of_range_payload_is_invalid() {
    let c = codes();
    assert_eq!(IncomingPacket::decode(&[2, 0, 0, 0, 99], &c), Err(ProtocolError::InvalidPayload(99)));
    assert_eq!(IncomingPacket::decode(&[2, 0, 0, 0, 2], &c), Err(ProtocolError::InvalidPayload(2)));
    assert_eq!(IncomingPacket::decode(&[3, 0, 0, 0, 0], &c), Err(ProtocolError::InvalidPayload(0)));
    assert_eq!(IncomingPacket::decode(&[3, 0, 0, 0, 11], &c), Err(ProtocolError::InvalidPayload(11)));
    assert_eq!(IncomingPacket::decode(&[3, 0, 0, 1, 5], &c), Err(ProtocolError::InvalidPayload(261)));
    assert_eq!(
        IncomingPacket::decode(&[2, 0xff, 0xff, 0xff, 0xff], &c),
        Err(ProtocolError::InvalidPayload(u32::MAX))
    );
}

#[test]
fn setting_frames_round_trip() {
    let c = codes();
    for p in ALL_PIXEL_FORMATS {
        assert_eq!(IncomingPacket::decode(&frame(2, p.code(&c)), &c), Ok(IncomingPacket::SetPixelFormat(p)));
    }
    for f in ALL_FRAME_SIZES {
        assert_eq!(IncomingPacket::decode(&frame(3, f.code(&c)), &c), Ok(IncomingPacket::SetFrameSize(f)));
    }
    let wide = DriverCodes::checked([0x100, 0x1_0000, 0x100_0000, 7], [0, 1, 2, 3, 4, 5, 6, 7, 0xdead_beef])
        .expect("distinct codes");
    assert_eq!(
        IncomingPacket::decode(&frame(2, 0x100_0000), &wide),
        Ok(IncomingPacket::SetPixelFormat(PixelFormat::YUV422))
    );
    assert_eq!(
        IncomingPacket::decode(&[3, 0xde, 0xad, 0xbe, 0xef], &wide),
        Ok(IncomingPacket::SetFrameSize(FrameSize::UXGA))
    );
}

#[test]
fn responses_encode_with_mirrored_tag() {
    assert_eq!(OutgoingPacket::Capture(vec![9, 8, 7]).encode(), vec![1, 9, 8, 7]);
    assert_eq!(OutgoingPacket::Capture(vec![]).encode(), vec![1]);
    assert_eq!(OutgoingPacket::SetPixelFormat(true).encode(), vec![2, 1]);
    assert_eq!(OutgoingPacket::SetPixelFormat(false).encode(), vec![2, 0]);
    assert_eq!(OutgoingPacket::SetFrameSize(true).encode(), vec![3, 1]);
    assert_eq!(OutgoingPacket::SetFrameSize(false).encode(), vec![3, 0]);
    assert_eq!(OutgoingPacket::Restart(true).encode(), vec![4, 1]);
    assert_eq!(OutgoingPacket::Restart(false).encode(), vec![4, 0]);
}

#[test]
fn zero_based_framing_decodes() {
    let c = codes();
    assert_eq!(Instruction::decode(&[0, 0, 0, 0, 0], &c), Ok(Instruction::Capture));
    assert_eq!(Instruction::decode(&[1, 0, 0, 0, 4], &c), Ok(Instruction::Format(PixelFormat::JPEG)));
    assert_eq!(Instruction::decode(&[2, 0, 0, 0, 1], &c), Ok(Instruction::Resolution(FrameSize::QQVGA)));
    assert_eq!(Instruction::decode(&[3, 0, 0, 0, 0], &c), Ok(Instruction::Restart));
    assert_eq!(Instruction::decode(&[4, 0, 0, 0, 0], &c), Err(ProtocolError::UnknownTag(4)));
    assert_eq!(Instruction::decode(&[1, 0, 0, 0, 7], &c), Err(ProtocolError::InvalidPayload(7)));
    assert_eq!(Instruction::decode(&[2, 0, 0, 0, 11], &c), Err(ProtocolError::InvalidPayload(11)));
}
