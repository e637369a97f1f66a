use synacor_vm::image::{convert_to_u16_le, read_mem_as_u16_le, ConvertToU16Error};

#[test]
fn words_are_read_low_byte_first() {
    assert_eq!(convert_to_u16_le(&vec![0x34, 0x12]), Ok(vec![0x1234]));
    assert_eq!(
        convert_to_u16_le(&vec![19, 0, 72, 0, 0, 0, 0xff, 0x7f, 0x00, 0x80, 0xff, 0xff]),
        Ok(vec![19, 72, 0, 32767, 32768, 65535])
    );
}

#[test]
fn the_empty_image_has_no_words() {
    assert_eq!(convert_to_u16_le(&vec![]), Ok(vec![]));
}

#[test]
fn an_odd_number_of_bytes_is_refused() {
    assert_eq!(convert_to_u16_le(&vec![0]), Err(ConvertToU16Error::NotEvenNumberOfBytes));
    assert_eq!(
        convert_to_u16_le(&vec![1, 0, 2, 0, 3]),
        Err(ConvertToU16Error::NotEvenNumberOfBytes)
    );
}

#[test]
fn a_word_is_read_at_a_byte_offset() {
    let bytes = [0x34, 0x12, 0xcd, 0xab];
    assert_eq!(read_mem_as_u16_le(&bytes, 0), Some(0x1234));
    assert_eq!(read_mem_as_u16_le(&bytes, 1), Some(0xcd12));
    assert_eq!(read_mem_as_u16_le(&bytes, 2), Some(0xabcd));
}

#[test]
fn a_word_that_is_not_wholly_in_the_image_is_not_read() {
    let bytes = [0x34, 0x12, 0xcd, 0xab];
    assert_eq!(read_mem_as_u16_le(&bytes, 3), None);
    assert_eq!(read_mem_as_u16_le(&bytes, 4), None);
    assert_eq!(read_mem_as_u16_le(&bytes, 65535), None);
    assert_eq!(read_mem_as_u16_le(&[], 0), None);
    assert_eq!(read_mem_as_u16_le(&[7], 0), None);
}

#[test]
fn reading_at_even_offsets_agrees_with_conversion() {
    let bytes: Vec<u8> = (0..=255u8).rev().collect();
    let words = convert_to_u16_le(&bytes).unwrap();
    assert_eq!(words.len(), 128);
    for (i, word) in words.iter().enumerate() {
        assert_eq!(read_mem_as_u16_le(&bytes, (2 * i) as u16), Some(*word));
        assert_eq!(*word % 256, bytes[2 * i] as u16);
        assert_eq!(*word / 256, bytes[2 * i + 1] as u16);
    }
}
