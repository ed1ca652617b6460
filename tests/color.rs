use raytracer::color::{rgb_from_hex, rgb_to_hex};

#[test]
fn hex_reads_lower_and_upper_case() {
    assert_eq!(rgb_from_hex("#ff0000"), (255, 0, 0));
    assert_eq!(rgb_from_hex("#A1b2C3"), (161, 178, 195));
    assert_eq!(rgb_from_hex("#000000"), (0, 0, 0));
}

#[test]
fn hex_pair_that_is_no_number_gives_zero() {
    assert_eq!(rgb_from_hex("#zz0010"), (0, 0, 16));
    assert_eq!(rgb_from_hex("#-10a0b"), (0, 10, 11));
}

#[test]
fn hex_plus_sign_before_one_digit() {
    assert_eq!(rgb_from_hex("#+f0101"), (15, 1, 1));
}

#[test]
fn hex_first_byte_and_tail_ignored() {
    assert_eq!(rgb_from_hex("x0a0b0c"), (10, 11, 12));
    assert_eq!(rgb_from_hex("#0a0b0cdd"), (10, 11, 12));
}

#[test]
fn hex_written_in_lower_case() {
    assert_eq!(rgb_to_hex(255, 0, 0), "#ff0000");
    assert_eq!(rgb_to_hex(1, 171, 16), "#01ab10");
}

#[test]
fn hex_round_trips() {
    for s in ["#ff0000", "#05377b", "#03214a", "#ffffff", "#000000", "#9a0ce1"] {
        let (r, g, b) = rgb_from_hex(s);
        assert_eq!(rgb_to_hex(r, g, b), s);
    }
    for (r, g, b) in [(0u8, 0u8, 0u8), (255, 255, 255), (5, 55, 123), (200, 16, 15)] {
        assert_eq!(rgb_from_hex(&rgb_to_hex(r, g, b)), (r, g, b));
    }
}

#[test]
fn hex_one_byte_short_reads_last_digit_alone() {
    assert_eq!(rgb_from_hex("#abcde"), (171, 205, 14));
    assert_eq!(rgb_from_hex("#0102g"), (1, 2, 0));
}
