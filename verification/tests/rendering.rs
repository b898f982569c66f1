use peer_pid::decimal::{magnitude, to_decimal};
use peer_pid::pid::{to_signed, Pid};

#[test]
fn nobody_renders_as_none() {
    assert_eq!(Pid::Nobody.to_string(), "none");
}

#[test]
fn any_renders_as_any() {
    assert_eq!(Pid::Any.to_string(), "any");
}

#[test]
fn value_renders_as_its_digits() {
    assert_eq!(Pid::Value(42).to_string(), "42");
}

#[test]
fn negative_value_renders_with_a_minus_sign() {
    assert_eq!(Pid::Value(-1).to_string(), "-1");
}

#[test]
fn zero_renders_as_a_single_digit() {
    assert_eq!(Pid::Value(0).to_string(), "0");
}

#[test]
fn extremes_render_in_full() {
    assert_eq!(Pid::Value(i32::MAX).to_string(), "2147483647");
    assert_eq!(Pid::Value(i32::MIN).to_string(), "-2147483648");
}

#[test]
fn round_numbers_keep_their_zeros() {
    assert_eq!(to_decimal(10), "10");
    assert_eq!(to_decimal(1000), "1000");
    assert_eq!(to_decimal(-100), "-100");
    assert_eq!(to_decimal(907), "907");
}

#[test]
fn decimal_agrees_with_the_standard_rendering() {
    let samples: [i32; 12] = [0, 1, -1, 9, 10, 11, 99, 100, -2147483647, 123456789, -98765, 65536];
    for n in samples {
        assert_eq!(to_decimal(n), format!("{}", n));
    }
}

#[test]
fn magnitude_of_the_least_number_fits() {
    assert_eq!(magnitude(i32::MIN), 2147483648);
    assert_eq!(magnitude(-5), 5);
    assert_eq!(magnitude(5), 5);
    assert_eq!(magnitude(0), 0);
}

#[test]
fn unsigned_identifiers_are_read_as_signed() {
    assert_eq!(to_signed(0), 0);
    assert_eq!(to_signed(501), 501);
    assert_eq!(to_signed(0x7fff_ffff), i32::MAX);
    assert_eq!(to_signed(0x8000_0000), i32::MIN);
    assert_eq!(to_signed(0xffff_fffe), -2);
    assert_eq!(to_signed(u32::MAX), -1);
}

#[test]
fn identities_are_plain_values() {
    let id = Pid::Value(7);
    let copy = id;
    assert_eq!(id, copy);
    assert_ne!(Pid::Nobody, Pid::Any);
    assert_ne!(Pid::Value(7), Pid::Value(8));
    assert_eq!(format!("{:?}", Pid::Value(7)), "Value(7)");
}
