use glider_api::checksum;

// CRC-16/XMODEM bit by bit: polynomial 0x1021, start at zero, most
// significant bit first, nothing xored onto the result.
fn bitwise_xmodem(bytes: &[u8]) -> u16 {
    let mut crc: u16 = 0;
    for byte in bytes {
        crc ^= (*byte as u16) << 8;
        for _ in 0..8 {
            crc = if crc & 0x8000 != 0 { (crc << 1) ^ 0x1021 } else { crc << 1 };
        }
    }
    crc
}

#[test]
fn checksum_of_the_digits_one_to_nine() {
    assert_eq!(checksum(b"123456789"), 0x31C3);
}

#[test]
fn checksum_of_nothing_is_zero() {
    assert_eq!(checksum(&[]), 0x0000);
}

#[test]
fn checksum_of_single_bytes() {
    assert_eq!(checksum(&[0x00]), 0x0000);
    assert_eq!(checksum(&[0x01]), 0x1021);
    assert_eq!(checksum(&[0xFF]), 0x1EF0);
    assert_eq!(checksum(b"A"), 0x58E5);
}

#[test]
fn checksum_is_not_its_input() {
    let message = [0x12u8, 0x34];
    let crc = checksum(&message);
    assert_eq!(crc, bitwise_xmodem(&message));
    assert_ne!(crc, 0x1234);
    assert_ne!(crc, 0x3412);
}

#[test]
fn checksum_agrees_with_the_polynomial_division() {
    let mut message: Vec<u8> = Vec::new();
    for i in 0..300u32 {
        assert_eq!(checksum(&message), bitwise_xmodem(&message));
        message.push((i.wrapping_mul(37).wrapping_add(11) % 256) as u8);
    }
}

#[test]
fn checksum_depends_on_the_bytes_alone() {
    let message = b"the same bytes";
    let copy = message.to_vec();
    assert_eq!(checksum(message), checksum(&copy));
    assert_eq!(checksum(message), checksum(message));
}

#[test]
fn checksum_sees_every_byte() {
    let base = [0u8, 5, 0, 4, 0, 0, 0, 0, 0, 0xE8, 3, 0xE8, 3];
    let crc = checksum(&base);
    assert_eq!(crc, 0x5295);
    for i in 0..base.len() {
        let mut changed = base;
        changed[i] ^= 0x01;
        assert_ne!(checksum(&changed), crc);
    }
}

#[test]
fn checksum_of_a_message_with_its_checksum_is_zero() {
    let mut message = b"123456789".to_vec();
    let crc = checksum(&message);
    message.push((crc >> 8) as u8);
    message.push((crc & 0xFF) as u8);
    assert_eq!(checksum(&message), 0);
}
