use lcd_pcf8574::Shadow;

#[test]
fn fresh_shadow_is_backlight_only() {
    let s = Shadow::new();
    assert_eq!(s.value(), 0b0000_1000);
}

#[test]
fn end_to_end_shadow_sequence() {
    // The documented scenario: register select, then a nibble, then an
    // enable pulse, watching the exact shadow byte at every step.
    let mut s = Shadow::new();
    assert_eq!(s.value(), 0b0000_1000);
    s.set_bit(0, true); // register select: data register
    assert_eq!(s.value(), 0b0000_1001);
    s.set_nibble(0xA);
    assert_eq!(s.value(), 0b1010_1001);
    s.set_bit(2, true); // enable high
    assert_eq!(s.value(), 0b1010_1101);
    s.set_bit(2, false); // enable low
    assert_eq!(s.value(), 0b1010_1001);
}

#[test]
fn set_bit_last_write_wins() {
    let mut s = Shadow::new();
    s.set_bit(0, true);
    s.set_bit(0, false);
    assert_eq!(s.value(), 0b0000_1000);
    s.set_bit(2, false);
    s.set_bit(2, true);
    assert_eq!(s.value(), 0b0000_1100);
}

#[test]
fn set_nibble_last_write_wins() {
    let mut s = Shadow::new();
    s.set_nibble(0x5);
    s.set_nibble(0xF);
    assert_eq!(s.value(), 0b1111_1000);
}

#[test]
fn bit_and_nibble_writes_commute() {
    let mut a = Shadow::new();
    a.set_bit(0, true);
    a.set_nibble(0x3);
    let mut b = Shadow::new();
    b.set_nibble(0x3);
    b.set_bit(0, true);
    assert_eq!(a.value(), b.value());
    assert_eq!(a.value(), 0b0011_1001);
}

#[test]
fn distinct_bits_commute() {
    let mut a = Shadow::new();
    a.set_bit(0, true);
    a.set_bit(2, true);
    let mut b = Shadow::new();
    b.set_bit(2, true);
    b.set_bit(0, true);
    assert_eq!(a.value(), b.value());
    assert_eq!(a.value(), 0b0000_1101);
}

#[test]
fn nibble_preserves_control_bits() {
    let mut s = Shadow::new();
    s.set_bit(0, true);
    s.set_bit(2, true);
    s.set_nibble(0xF);
    assert_eq!(s.value(), 0b1111_1101);
    s.set_nibble(0x0);
    assert_eq!(s.value(), 0b0000_1101);
}

#[test]
fn backlight_bit_set_and_clear() {
    let mut s = Shadow::new();
    s.set_nibble(0xA);
    s.set_bit(3, true);
    assert_eq!(s.value(), 0b1010_1000 | 0b0000_1000);
    s.set_bit(3, false);
    assert_eq!(s.value(), 0b1010_0000);
}
