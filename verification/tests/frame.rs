use bytes::BytesMut;
use glider_api::checksum;
use glider_api::encode_frame;
use glider_api::frame::begin_frame;
use glider_api::frame::finish_frame;
use glider_api::frame::BUFFER_CAPACITY;
use glider_api::frame::FRAME_LEN;
use glider_api::frame::PADDING;
use glider_api::frame::PAYLOAD_LEN;
use glider_api::Rect;

fn sample_rects() -> Vec<Rect> {
    vec![
        Rect::new(0, 0, 0, 0),
        Rect::new(0, 0, 1000, 1000),
        Rect::new(-1, -2, i16::MIN, i16::MAX),
        Rect::new(0x0102, 0x0304, 0x0506, 0x0708),
        Rect::new(1000, 1000, 0, 0),
        Rect::new(255, 256, -255, -256),
    ]
}

fn sample_words() -> Vec<i16> {
    vec![0, 1, 4, 5, 7, 0x00FF, 0x0100, 0x1234, i16::MAX, -1, -2, -256, i16::MIN]
}

#[test]
fn frame_constants() {
    assert_eq!(PAYLOAD_LEN, 13);
    assert_eq!(FRAME_LEN, 15);
    assert_eq!(PADDING, 0x00);
    assert_eq!(BUFFER_CAPACITY, 16);
}

#[test]
fn begin_frame_writes_the_payload() {
    let buffer = begin_frame(5, 4, &Rect::new(0, 0, 1000, 1000));
    assert_eq!(&buffer[..], &[0x00, 0x05, 0x00, 0x04, 0x00, 0x00, 0x00, 0x00, 0x00, 0xE8, 0x03, 0xE8, 0x03]);
    assert_eq!(buffer.len(), PAYLOAD_LEN);
}

#[test]
fn begin_frame_mixes_the_byte_orders() {
    let buffer = begin_frame(0x0102, 0x0304, &Rect::new(0x0506, 0x0708, 0x090A, 0x0B0C));
    assert_eq!(
        &buffer[..],
        &[0x01, 0x02, 0x03, 0x04, 0x00, 0x06, 0x05, 0x08, 0x07, 0x0A, 0x09, 0x0C, 0x0B]
    );
}

#[test]
fn begin_frame_writes_negative_numbers_in_twos_complement() {
    let buffer = begin_frame(-2, -256, &Rect::new(-1, -2, i16::MIN, i16::MAX));
    assert_eq!(
        &buffer[..],
        &[0xFF, 0xFE, 0xFF, 0x00, 0x00, 0xFF, 0xFF, 0xFE, 0xFF, 0x00, 0x80, 0xFF, 0x7F]
    );
}

#[test]
fn finish_frame_appends_the_checksum_big_endian() {
    let buffer = BytesMut::from(&[1u8, 2, 3][..]);
    assert_eq!(finish_frame(buffer, 0xABCD), vec![1, 2, 3, 0xAB, 0xCD]);
    let empty = BytesMut::new();
    assert_eq!(finish_frame(empty, 0x0001), vec![0x00, 0x01]);
}

#[test]
fn finish_frame_after_begin_frame() {
    let buffer = begin_frame(4, 0, &Rect::new(0, 0, 0, 0));
    let frame = finish_frame(buffer, 0x1234);
    assert_eq!(frame, vec![0, 4, 0, 0, 0, 0, 0, 0, 0, 0, 0, 0, 0, 0x12, 0x34]);
}

#[test]
fn encode_frame_set_mode_blue_noise() {
    let frame = encode_frame(0x0005, 0x0004, &Rect::new(0, 0, 1000, 1000));
    assert_eq!(
        frame,
        vec![0x00, 0x05, 0x00, 0x04, 0x00, 0x00, 0x00, 0x00, 0x00, 0xE8, 0x03, 0xE8, 0x03, 0x52, 0x95]
    );
}

#[test]
fn encode_frame_exact_frames() {
    assert_eq!(
        encode_frame(4, 0, &Rect::new(0, 0, 1000, 1000)),
        vec![0x00, 0x04, 0x00, 0x00, 0x00, 0x00, 0x00, 0x00, 0x00, 0xE8, 0x03, 0xE8, 0x03, 0xFC, 0xD5]
    );
    assert_eq!(
        encode_frame(4, 0, &Rect::new(-1, -2, i16::MIN, i16::MAX)),
        vec![0x00, 0x04, 0x00, 0x00, 0x00, 0xFF, 0xFF, 0xFE, 0xFF, 0x00, 0x80, 0xFF, 0x7F, 0xC0, 0x87]
    );
    assert_eq!(
        encode_frame(5, 7, &Rect::new(10, 20, 30, 40)),
        vec![0x00, 0x05, 0x00, 0x07, 0x00, 0x0A, 0x00, 0x14, 0x00, 0x1E, 0x00, 0x28, 0x00, 0xA9, 0xB0]
    );
    assert_eq!(
        encode_frame(5, 0, &Rect::new(0, 0, 0, 0)),
        vec![0x00, 0x05, 0, 0, 0, 0, 0, 0, 0, 0, 0, 0, 0, 0x0E, 0xA1]
    );
    assert_eq!(
        encode_frame(4, 0, &Rect::new(0, 0, 0, 0)),
        vec![0x00, 0x04, 0, 0, 0, 0, 0, 0, 0, 0, 0, 0, 0, 0x0D, 0xD4]
    );
}

#[test]
fn encode_frame_is_fifteen_bytes() {
    for code in sample_words() {
        for param in sample_words() {
            for area in sample_rects() {
                assert_eq!(encode_frame(code, param, &area).len(), 15);
            }
        }
    }
}

#[test]
fn encode_frame_header_is_big_endian() {
    for code in sample_words() {
        for param in sample_words() {
            let frame = encode_frame(code, param, &Rect::new(1, 2, 3, 4));
            assert_eq!(i16::from_be_bytes([frame[0], frame[1]]), code);
            assert_eq!(i16::from_be_bytes([frame[2], frame[3]]), param);
            assert_eq!(frame[4], 0x00);
        }
    }
}

#[test]
fn encode_frame_region_is_little_endian() {
    for area in sample_rects() {
        let frame = encode_frame(5, 2, &area);
        assert_eq!(i16::from_le_bytes([frame[5], frame[6]]), area.x0);
        assert_eq!(i16::from_le_bytes([frame[7], frame[8]]), area.y0);
        assert_eq!(i16::from_le_bytes([frame[9], frame[10]]), area.x1);
        assert_eq!(i16::from_le_bytes([frame[11], frame[12]]), area.y1);
    }
}

#[test]
fn encode_frame_checksum_round_trip() {
    for code in sample_words() {
        for area in sample_rects() {
            let frame = encode_frame(code, 3, &area);
            let written = u16::from_be_bytes([frame[13], frame[14]]);
            assert_eq!(checksum(&frame[0..13]), written);
        }
    }
}

#[test]
fn encode_frame_begins_with_its_payload() {
    for area in sample_rects() {
        let frame = encode_frame(5, 6, &area);
        let payload = begin_frame(5, 6, &area);
        assert_eq!(&frame[..13], &payload[..]);
    }
}

#[test]
fn encode_frame_twice_gives_the_same_bytes() {
    for code in sample_words() {
        for area in sample_rects() {
            let first = encode_frame(code, 1, &area);
            let second = encode_frame(code, 1, &area);
            assert_eq!(first, second);
        }
    }
}

#[test]
fn encode_frame_tells_commands_apart() {
    let area = Rect::new(0, 0, 1000, 1000);
    let base = encode_frame(5, 4, &area);
    assert_ne!(base, encode_frame(4, 4, &area));
    assert_ne!(base, encode_frame(5, 3, &area));
    assert_ne!(base, encode_frame(5, 4, &Rect::new(1, 0, 1000, 1000)));
    assert_ne!(base, encode_frame(5, 4, &Rect::new(0, 1, 1000, 1000)));
    assert_ne!(base, encode_frame(5, 4, &Rect::new(0, 0, 1001, 1000)));
    assert_ne!(base, encode_frame(5, 4, &Rect::new(0, 0, 1000, 1001)));
}
