use esp_openthread::link_mode_bits;

#[test]
fn link_mode_flags() {
    assert_eq!(link_mode_bits(0, true, false, false), 0b001);
    assert_eq!(link_mode_bits(0, false, true, false), 0b010);
    assert_eq!(link_mode_bits(0, false, false, true), 0b100);
    assert_eq!(link_mode_bits(0b111, false, false, false), 0);
    assert_eq!(link_mode_bits(0xf0, true, true, true), 0xf7);
}
