use syscall_dispatch::render::{decimal, hex, push_digits};

#[test]
fn decimal_of_zero_is_a_single_digit() {
    assert_eq!(decimal(0), "0");
}

#[test]
fn decimal_matches_the_standard_rendering() {
    for n in [1usize, 9, 10, 11, 99, 100, 101, 12345, 1_000_000, usize::MAX - 1, usize::MAX] {
        assert_eq!(decimal(n), format!("{}", n));
    }
}

#[test]
fn hex_is_lower_case_with_prefix() {
    assert_eq!(hex(0), "0x0");
    assert_eq!(hex(0xf), "0xf");
    assert_eq!(hex(0x10), "0x10");
    assert_eq!(hex(0xdead_beef), "0xdeadbeef");
    assert_eq!(hex(usize::MAX), format!("{:#x}", usize::MAX));
}

#[test]
fn push_digits_appends_in_any_radix() {
    let mut out = String::from("b");
    push_digits(&mut out, 5, 2);
    assert_eq!(out, "b101");
    push_digits(&mut out, 0o777, 8);
    assert_eq!(out, "b101777");
}
