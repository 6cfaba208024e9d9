use klv_uas::klv_packet::KlvPacket;

#[test]
fn checksum_weighs_alternate_bytes() {
    // 0x01 << 8, plus 0x02, plus 0x03 << 8; the last two bytes are left out.
    assert_eq!(KlvPacket::calculate_checksum(&[1, 2, 3, 0xEE, 0xEE]), 1026);
    assert_eq!(KlvPacket::calculate_checksum(&[0xAB, 0, 0]), 0xAB00);
    assert_eq!(
        KlvPacket::calculate_checksum(&[1, 2, 3, 4, 5, 6, 7, 8, 9, 10, 0, 0]),
        6430
    );
}

#[test]
fn checksum_of_nothing_is_zero() {
    assert_eq!(KlvPacket::calculate_checksum(&[0x12, 0x34]), 0);
}

#[test]
fn checksum_wraps_at_sixteen_bits() {
    let mut bytes = vec![0xFF; 300];
    bytes.extend_from_slice(&[0, 0]);
    assert_eq!(KlvPacket::calculate_checksum(&bytes), 65386);
}

#[test]
fn checksum_is_the_same_for_the_same_bytes() {
    let bytes: Vec<u8> = (0..=255u8).cycle().take(1000).collect();
    let first = KlvPacket::calculate_checksum(&bytes);
    let second = KlvPacket::calculate_checksum(&bytes.clone());
    assert_eq!(first, second);
}

#[test]
fn checksum_ignores_its_own_two_bytes() {
    let mut bytes = vec![9, 8, 7, 6, 5, 0, 0];
    let sum = KlvPacket::calculate_checksum(&bytes);
    bytes[5] = 0xAB;
    bytes[6] = 0xCD;
    assert_eq!(KlvPacket::calculate_checksum(&bytes), sum);
}

#[test]
fn any_single_byte_change_changes_the_checksum() {
    let bytes: Vec<u8> = vec![0x06, 0x0E, 0x2B, 0x34, 0x00, 0xFF, 0x80, 0x7F, 0x01, 0, 0];
    let sum = KlvPacket::calculate_checksum(&bytes);
    for index in 0..bytes.len() - 2 {
        for byte in 0..=255u8 {
            if byte != bytes[index] {
                let mut changed = bytes.clone();
                changed[index] = byte;
                assert_ne!(KlvPacket::calculate_checksum(&changed), sum);
            }
        }
    }
}

#[test]
fn swapping_two_neighbours_changes_the_checksum() {
    let bytes = [0x10, 0x20, 0, 0];
    let swapped = [0x20, 0x10, 0, 0];
    assert_eq!(KlvPacket::calculate_checksum(&bytes), 0x1020);
    assert_eq!(KlvPacket::calculate_checksum(&swapped), 0x2010);
}
