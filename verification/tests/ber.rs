use klv_uas::cursor::Cursor;
use klv_uas::klv_packet::KlvPacket;
use klv_uas::klv_value::{KlvValue, Tolerance};
use klv_uas::tag::Tag;
use klv_uas::Errors;

fn read(bytes: &[u8]) -> (Result<usize, Errors>, usize) {
    let mut cursor = Cursor::new(bytes);
    let value = KlvPacket::get_ber_value(&mut cursor);
    (value, cursor.position())
}

#[test]
fn get_ber_value_short_form() {
    let bytes: Box<[u8]> = Box::new([0x71, 0xF1, 0x00]);
    let mut test_bytes = Cursor::new(&bytes);
    let length = KlvPacket::get_ber_value(&mut test_bytes);
    assert_eq!(length, Ok(113), "Failed to BER");
    assert_eq!(test_bytes.position(), 1);
}

#[test]
fn get_ber_value_long_form_one_byte() {
    let bytes: Box<[u8]> = Box::new([0x81, 0xF1, 0x00]);
    let mut test_bytes = Cursor::new(&bytes);
    let length = KlvPacket::get_ber_value(&mut test_bytes);
    assert_eq!(length, Ok(241), "Failed to BER");
    assert_eq!(test_bytes.position(), 2);
}

#[test]
fn get_ber_value_long_form_three_bytes() {
    let bytes: Box<[u8]> = Box::new([0x83, 0xF1, 0xFF, 0xF1]);
    let mut test_bytes = Cursor::new(&bytes);
    let length = KlvPacket::get_ber_value(&mut test_bytes);
    assert_eq!(length, Ok(15859697), "Failed to BER");
    assert_eq!(test_bytes.position(), 4);
}

#[test]
fn every_short_form_value_decodes_to_itself() {
    for value in 0u8..=127 {
        assert_eq!(read(&[value]), (Ok(value as usize), 1));
        assert_eq!(read(&[value, 0xFF]), (Ok(value as usize), 1));
    }
}

#[test]
fn long_form_decodes_its_digits() {
    for value in [0usize, 1, 127, 128, 255, 256, 65535, 65536, 0xDEAD_BEEF] {
        for count in 4usize..=8 {
            let digits = &(value as u64).to_be_bytes()[8 - count..];
            let mut bytes = vec![0x80 + count as u8];
            bytes.extend_from_slice(digits);
            bytes.push(0x55);
            assert_eq!(read(&bytes), (Ok(value), count + 1));
        }
    }
}

#[test]
fn tag_and_length_are_read_alike() {
    let bytes = [0x82, 0x01, 0x00, 0x7F];
    let mut cursor = Cursor::new(&bytes);
    assert_eq!(KlvPacket::get_tag(&mut cursor), Ok(256));
    assert_eq!(cursor.position(), 3);
    assert_eq!(KlvPacket::get_length(&mut cursor), Ok(127));
    assert_eq!(cursor.position(), 4);
    assert_eq!(KlvPacket::get_length(&mut cursor), Err(Errors::OutOfData));
    assert_eq!(cursor.position(), 4);
}

#[test]
fn empty_buffer_is_out_of_data() {
    assert_eq!(read(&[]), (Err(Errors::OutOfData), 0));
}

#[test]
fn cursor_past_the_end_is_out_of_data() {
    let bytes = [0x01, 0x02];
    let mut cursor = Cursor::new(&bytes);
    cursor.set_position(7);
    assert_eq!(KlvPacket::get_ber_value(&mut cursor), Err(Errors::OutOfData));
    assert_eq!(cursor.position(), 7);
}

#[test]
fn truncated_long_form_is_out_of_data() {
    assert_eq!(read(&[0x83, 0xF1, 0xFF]), (Err(Errors::OutOfData), 0));
    assert_eq!(read(&[0x81]), (Err(Errors::OutOfData), 0));
    assert_eq!(read(&[0xFF, 0x00]), (Err(Errors::OutOfData), 0));
}

#[test]
fn long_form_without_digits_is_zero() {
    assert_eq!(read(&[0x80, 0x33]), (Ok(0), 1));
}

#[test]
fn long_form_with_leading_zeros_is_read() {
    let mut bytes = vec![0x80 + 12];
    bytes.extend_from_slice(&[0, 0, 0, 0, 0, 0, 0, 0, 0, 0, 0x01, 0x02]);
    assert_eq!(read(&bytes), (Ok(258), 13));
}

#[test]
fn number_too_large_is_out_of_bounds() {
    let mut bytes = vec![0x80 + 9, 0x01];
    bytes.extend_from_slice(&[0; 8]);
    assert_eq!(read(&bytes), (Err(Errors::ValueOutOfBounds), 0));
    let mut bytes = vec![0x80 + 17];
    bytes.extend_from_slice(&[0xFF; 17]);
    assert_eq!(read(&bytes), (Err(Errors::ValueOutOfBounds), 0));
}

#[test]
fn largest_number_is_read() {
    let mut bytes = vec![0x80 + std::mem::size_of::<usize>() as u8];
    bytes.extend_from_slice(&usize::MAX.to_be_bytes());
    assert_eq!(read(&bytes), (Ok(usize::MAX), 1 + std::mem::size_of::<usize>()));
}

#[test]
fn cursor_reads_exact_runs() {
    let bytes = [1u8, 2, 3, 4, 5];
    let mut cursor = Cursor::new(&bytes);
    assert_eq!(cursor.read_byte(), Some(1));
    assert_eq!(cursor.read_exact(3), Some(&bytes[1..4]));
    assert_eq!(cursor.position(), 4);
    assert_eq!(cursor.read_exact(2), None);
    assert_eq!(cursor.position(), 4);
    assert_eq!(cursor.read_exact(0), Some(&bytes[4..4]));
    assert_eq!(cursor.read_exact(1), Some(&bytes[4..]));
    assert_eq!(cursor.read_byte(), None);
    assert_eq!(cursor.position(), 5);
    cursor.set_position(9);
    assert_eq!(cursor.read_exact(0), None);
    assert_eq!(cursor.read_exact(usize::MAX), None);
}

#[test]
fn get_value_reads_and_decodes() {
    let bytes = [0xAA, 0x12, 0x34, 0xBB];
    let mut cursor = Cursor::new(&bytes);
    cursor.set_position(1);
    let field = KlvPacket::get_value(&mut cursor, 1, 2, Tolerance::Strict).unwrap();
    assert_eq!(field.tag(), Tag::Checksum);
    assert_eq!(field.value(), &KlvValue::Uint16(0x1234));
    assert_eq!(cursor.position(), 3);
    let result = KlvPacket::get_value(&mut cursor, 1, 2, Tolerance::Strict);
    assert_eq!(result.err(), Some(Errors::OutOfData));
    assert_eq!(cursor.position(), 3);
}
