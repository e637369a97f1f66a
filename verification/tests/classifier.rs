use synacor_vm::opcode::{check_number, ParsedNumber};

#[test]
fn literals_end_below_32768() {
    assert_eq!(check_number(0), ParsedNumber::LiteralValue(0));
    assert_eq!(check_number(32767), ParsedNumber::LiteralValue(32767));
    assert!(check_number(32767).is_literal_value());
    assert!(!check_number(32768).is_literal_value());
}

#[test]
fn registers_are_the_eight_words_from_32768() {
    assert_eq!(check_number(32768), ParsedNumber::Register(0));
    assert_eq!(check_number(32775), ParsedNumber::Register(7));
    assert!(check_number(32775).is_register());
    assert!(!check_number(32776).is_register());
    assert!(!check_number(32767).is_register());
}

#[test]
fn words_from_32776_are_invalid() {
    assert_eq!(check_number(32776), ParsedNumber::InvalidNumber);
    assert_eq!(check_number(65535), ParsedNumber::InvalidNumber);
    assert!(check_number(32776).is_invalid_number());
    assert!(!check_number(32776).is_valid_number());
    assert!(check_number(32775).is_valid_number());
    assert!(!check_number(32775).is_invalid_number());
}

#[test]
fn every_word_is_in_exactly_one_class() {
    let mut w: u32 = 0;
    while w < 65536 {
        let parsed = check_number(w as u16);
        let classes = [parsed.is_literal_value(), parsed.is_register(), parsed.is_invalid_number()];
        assert_eq!(classes.iter().filter(|&&c| c).count(), 1);
        assert_eq!(parsed.is_literal_value(), w < 32768);
        assert_eq!(parsed.is_register(), (32768..32776).contains(&w));
        assert_eq!(parsed.is_invalid_number(), w >= 32776);
        assert_eq!(parsed.is_valid_number(), !parsed.is_invalid_number());
        w += 1;
    }
}
