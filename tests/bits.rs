use murmur8tion::bits::{double_bits_holger, double_bits_magic};

#[test]
fn screen_test_double_bits_holger() {
    assert_eq!(double_bits_holger(0b10101010), 0b1100110011001100);
    assert_eq!(double_bits_holger(0b01010101), 0b0011001100110011);
    assert_eq!(double_bits_holger(0b10010101), 0b1100001100110011);
    assert_eq!(double_bits_holger(0), 0);
    assert_eq!(double_bits_holger(0xFF), 0xFFFF);
}

#[test]
fn screen_test_double_bits_magic() {
    assert_eq!(
        double_bits_magic(0b1010101010101010),
        0b11001100110011001100110011001100
    );
    assert_eq!(
        double_bits_magic(0b0101010101010101),
        0b00110011001100110011001100110011
    );
    assert_eq!(
        double_bits_magic(0b1001010100110110),
        0b11000011001100110000111100111100
    );
    assert_eq!(double_bits_magic(0), 0);
    assert_eq!(double_bits_magic(0xFFFF), 0xFFFFFFFF);
}

#[test]
fn mod_test_double_bits_holger() {
    assert_eq!(double_bits_holger(0b10101010), 0b1100110011001100);
    assert_eq!(double_bits_holger(0b01010101), 0b0011001100110011);
    assert_eq!(double_bits_holger(0b10010101), 0b1100001100110011);
    assert_eq!(double_bits_holger(0), 0);
    assert_eq!(double_bits_holger(0xFF), 0xFFFF);
}

#[test]
fn mod_test_double_bits_magic() {
    assert_eq!(
        double_bits_magic(0b1010101010101010),
        0b11001100110011001100110011001100
    );
    assert_eq!(
        double_bits_magic(0b0101010101010101),
        0b00110011001100110011001100110011
    );
    assert_eq!(
        double_bits_magic(0b1001010100110110),
        0b11000011001100110000111100111100
    );
    assert_eq!(double_bits_magic(0), 0);
    assert_eq!(double_bits_magic(0xFFFF), 0xFFFFFFFF);
}
