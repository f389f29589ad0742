use glider_api::decode_status;
use glider_api::status::interpret_status;
use glider_api::status::STATUS_CHECKSUM_MISMATCH;
use glider_api::status::STATUS_INVALID_COMMAND;
use glider_api::status::STATUS_LEN;
use glider_api::Outcome;
use glider_api::ProtocolViolation;

#[test]
fn status_constants() {
    assert_eq!(STATUS_LEN, 2);
    assert_eq!(STATUS_INVALID_COMMAND, 0x0000);
    assert_eq!(STATUS_CHECKSUM_MISMATCH, 0x0001);
}

#[test]
fn decode_status_success_word() {
    let mut response = [0u8; 32];
    response[0] = 0x00;
    response[1] = 0x55;
    assert_eq!(decode_status(&response), Ok(Outcome::Success));
}

#[test]
fn decode_status_invalid_command() {
    let response = [0u8; 32];
    assert_eq!(decode_status(&response), Ok(Outcome::InvalidCommand));
    assert_eq!(decode_status(&[0x00, 0x00]), Ok(Outcome::InvalidCommand));
}

#[test]
fn decode_status_checksum_mismatch() {
    let mut response = [0u8; 16];
    response[0] = 0x01;
    assert_eq!(decode_status(&response), Ok(Outcome::ChecksumMismatch));
    assert_eq!(decode_status(&[0x01, 0x00]), Ok(Outcome::ChecksumMismatch));
}

#[test]
fn decode_status_reads_little_endian() {
    assert_eq!(decode_status(&[0x00, 0x01]), Ok(Outcome::Success));
    assert_eq!(decode_status(&[0x01, 0x01]), Ok(Outcome::Success));
    assert_eq!(decode_status(&[0x02, 0x00]), Ok(Outcome::Success));
    assert_eq!(decode_status(&[0x55, 0x00]), Ok(Outcome::Success));
    assert_eq!(decode_status(&[0xFF, 0xFF]), Ok(Outcome::Success));
}

#[test]
fn decode_status_is_total_on_two_bytes() {
    for low in 0..=255u8 {
        for high in 0..=255u8 {
            let expected = if low == 0 && high == 0 {
                Outcome::InvalidCommand
            } else if low == 1 && high == 0 {
                Outcome::ChecksumMismatch
            } else {
                Outcome::Success
            };
            assert_eq!(decode_status(&[low, high]), Ok(expected));
        }
    }
}

#[test]
fn decode_status_ignores_the_reserved_bytes() {
    let mut response = [0xAAu8; 32];
    response[0] = 0x01;
    response[1] = 0x00;
    assert_eq!(decode_status(&response), Ok(Outcome::ChecksumMismatch));
    response[0] = 0x00;
    assert_eq!(decode_status(&response), Ok(Outcome::InvalidCommand));
    response[1] = 0x80;
    assert_eq!(decode_status(&response), Ok(Outcome::Success));
}

#[test]
fn decode_status_refuses_a_short_response() {
    assert_eq!(decode_status(&[]), Err(ProtocolViolation::ShortResponse));
    assert_eq!(decode_status(&[0x00]), Err(ProtocolViolation::ShortResponse));
    assert_eq!(decode_status(&[0x55]), Err(ProtocolViolation::ShortResponse));
}

#[test]
fn interpret_status_words() {
    assert_eq!(interpret_status(0x0000), Outcome::InvalidCommand);
    assert_eq!(interpret_status(0x0001), Outcome::ChecksumMismatch);
    assert_eq!(interpret_status(0x0002), Outcome::Success);
    assert_eq!(interpret_status(0x0055), Outcome::Success);
    assert_eq!(interpret_status(0x5500), Outcome::Success);
    assert_eq!(interpret_status(0x0100), Outcome::Success);
    assert_eq!(interpret_status(0xFFFF), Outcome::Success);
}

#[test]
fn interpret_status_every_word() {
    for word in 0..=u16::MAX {
        let expected = match word {
            0 => Outcome::InvalidCommand,
            1 => Outcome::ChecksumMismatch,
            _ => Outcome::Success,
        };
        assert_eq!(interpret_status(word), expected);
    }
}
