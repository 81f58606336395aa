use catr::{decimal_string, numbered_line, NUMBER_WIDTH};

#[test]
fn number_field_is_six_wide() {
    assert_eq!(NUMBER_WIDTH, 6);
}

#[test]
fn decimal_of_zero() {
    assert_eq!(decimal_string(0), "0");
}

#[test]
fn decimal_of_single_digits() {
    let expected = ["0", "1", "2", "3", "4", "5", "6", "7", "8", "9"];
    for (n, text) in expected.iter().enumerate() {
        assert_eq!(decimal_string(n as u64), *text);
    }
}

#[test]
fn decimal_of_round_numbers() {
    assert_eq!(decimal_string(10), "10");
    assert_eq!(decimal_string(100), "100");
    assert_eq!(decimal_string(1_000_000), "1000000");
}

#[test]
fn decimal_keeps_inner_zeros() {
    assert_eq!(decimal_string(1001), "1001");
    assert_eq!(decimal_string(907_060), "907060");
}

#[test]
fn decimal_of_largest_number() {
    assert_eq!(decimal_string(u64::MAX), "18446744073709551615");
}

#[test]
fn decimal_agrees_with_std() {
    let mut n: u64 = 1;
    for _ in 0..64 {
        assert_eq!(decimal_string(n), n.to_string());
        assert_eq!(decimal_string(n - 1), (n - 1).to_string());
        n = n.wrapping_mul(2);
    }
}

#[test]
fn numbered_line_pads_one_digit() {
    assert_eq!(numbered_line(1, "Hello"), "     1\tHello");
}

#[test]
fn numbered_line_pads_two_digits() {
    assert_eq!(numbered_line(42, "x"), "    42\tx");
}

#[test]
fn numbered_line_fills_the_field() {
    assert_eq!(numbered_line(999_999, "x"), "999999\tx");
}

#[test]
fn numbered_line_never_cuts_the_number() {
    assert_eq!(numbered_line(1_000_000, "x"), "1000000\tx");
    assert_eq!(numbered_line(u64::MAX, ""), "18446744073709551615\t");
}

#[test]
fn numbered_line_of_empty_line() {
    assert_eq!(numbered_line(7, ""), "     7\t");
}

#[test]
fn numbered_line_keeps_the_text() {
    assert_eq!(numbered_line(3, "\ttabs and  spaces "), "     3\t\ttabs and  spaces ");
    assert_eq!(numbered_line(3, "héllo wörld ✓"), "     3\théllo wörld ✓");
}

#[test]
fn numbered_line_agrees_with_std_formatting() {
    let numbers = [0u64, 1, 9, 10, 99, 100, 12345, 99_999, 100_000, 999_999, 1_000_000, u64::MAX];
    for n in numbers {
        assert_eq!(numbered_line(n, "line"), format!("{:>6}\t{}", n, "line"));
    }
}
