use lmvc8_core::console::types::byte::Byte;
use lmvc8_core::console::types::word::Word;

#[test]
fn byte_add_wraps_mod_256() {
    let (r, carry) = Byte::new(200).add(Byte::new(100));
    assert_eq!(r.value(), 44);
    assert!(carry);
    let (r, carry) = Byte::new(3).add(Byte::new(4));
    assert_eq!(r.value(), 7);
    assert!(!carry);
    let (r, carry) = Byte::new(255).add(Byte::new(1));
    assert_eq!(r.value(), 0);
    assert!(carry);
}

#[test]
fn byte_sub_borrows() {
    let (r, borrow) = Byte::new(0).sub(Byte::new(1));
    assert_eq!(r.value(), 0xFF);
    assert!(borrow);
    let (r, borrow) = Byte::new(9).sub(Byte::new(4));
    assert_eq!(r.value(), 5);
    assert!(!borrow);
}

#[test]
fn byte_increment_decrement_wrap() {
    assert_eq!(Byte::new(255).increment(), (Byte::new(0), true));
    assert_eq!(Byte::new(0).decrement(), (Byte::new(255), true));
    assert_eq!(Byte::new(7).increment(), (Byte::new(8), false));
}

#[test]
fn byte_predicates() {
    assert!(Byte::new(0).is_zero());
    assert!(!Byte::new(1).is_zero());
    assert!(Byte::new(0x80).is_negative());
    assert!(!Byte::new(0x7F).is_negative());
}

#[test]
fn word_add_wraps_mod_65536() {
    let (r, carry) = Word::new(0xFFFF).add_word(Word::new(2));
    assert_eq!(r.value(), 1);
    assert!(carry);
    let (r, carry) = Word::new(0x1234).add_word(Word::new(0x0001));
    assert_eq!(r.value(), 0x1235);
    assert!(!carry);
}

#[test]
fn word_sub_borrows() {
    let (r, borrow) = Word::new(0).sub_word(Word::new(1));
    assert_eq!(r.value(), 0xFFFF);
    assert!(borrow);
}

#[test]
fn word_little_endian_composition() {
    let w = Word::from_le(Byte::new(0x34), Byte::new(0x12));
    assert_eq!(w.value(), 0x1234);
    assert_eq!(w.low_byte().value(), 0x34);
    assert_eq!(w.high_byte().value(), 0x12);
    let mut w = Word::new(0x1234);
    w.set_low_byte(Byte::new(0xAB));
    assert_eq!(w.value(), 0x12AB);
    w.set_high_byte(Byte::new(0xCD));
    assert_eq!(w.value(), 0xCDAB);
}

#[test]
fn word_negative_is_top_bit() {
    assert!(Word::new(0x8000).is_negative());
    assert!(!Word::new(0x7FFF).is_negative());
}

#[test]
fn word_byte_halves_add_sub() {
    assert_eq!(Word::new(0x0100).add_byte_low(Byte::new(0xFF)).0.value(), 0x01FF);
    assert_eq!(Word::new(0x0100).add_byte_high(Byte::new(0x01)).0.value(), 0x0200);
    assert_eq!(Word::new(0x0200).sub_byte_low(Byte::new(1)).0.value(), 0x01FF);
    assert_eq!(Word::new(0x0200).sub_byte_high(Byte::new(1)).0.value(), 0x0100);
}
