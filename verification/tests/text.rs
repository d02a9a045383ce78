use evhz::text::{
    append_blanks, append_decimal, append_hz_field, average_line, listing_line, sample_line,
};

fn decimal(n: u32) -> String {
    let mut out = String::new();
    append_decimal(&mut out, n);
    out
}

fn field(hz: u32) -> String {
    let mut out = String::new();
    append_hz_field(&mut out, hz);
    out
}

#[test]
fn decimal_digits() {
    assert_eq!(decimal(0), "0");
    assert_eq!(decimal(7), "7");
    assert_eq!(decimal(10), "10");
    assert_eq!(decimal(1234567890), "1234567890");
    assert_eq!(decimal(u32::MAX), "4294967295");
    assert_eq!(decimal(100_000), "100000");
}

#[test]
fn decimal_goes_behind_what_is_there() {
    let mut out = String::from("x=");
    append_decimal(&mut out, 42);
    append_decimal(&mut out, 0);
    assert_eq!(out, "x=420");
}

#[test]
fn blanks_are_appended() {
    let mut out = String::from("a");
    append_blanks(&mut out, 0);
    assert_eq!(out, "a");
    append_blanks(&mut out, 3);
    assert_eq!(out, "a   ");
}

#[test]
fn rate_field_is_right_aligned_in_five_columns() {
    assert_eq!(field(0), "    0");
    assert_eq!(field(9), "    9");
    assert_eq!(field(10), "   10");
    assert_eq!(field(99), "   99");
    assert_eq!(field(100), "  100");
    assert_eq!(field(999), "  999");
    assert_eq!(field(1000), " 1000");
    assert_eq!(field(9999), " 9999");
    assert_eq!(field(10000), "10000");
    assert_eq!(field(19999), "19999");
    assert_eq!(field(123456), "123456");
}

#[test]
fn rate_field_matches_std_formatting() {
    for hz in [0u32, 1, 9, 10, 11, 125, 500, 1000, 8000, 19999, 20000, 99999, 100000, u32::MAX] {
        assert_eq!(field(hz), format!("{:5}", hz));
    }
}

#[test]
fn sample_line_text() {
    let name = String::from("Mouse");
    assert_eq!(sample_line(&name, 1000, 998), "Mouse: Latest  1000Hz, Average   998Hz");
    assert_eq!(sample_line(&name, 1, 19999), "Mouse: Latest     1Hz, Average 19999Hz");
    assert_eq!(sample_line(&String::new(), 125, 125), ": Latest   125Hz, Average   125Hz");
}

#[test]
fn average_line_text() {
    assert_eq!(average_line(&String::from("Keyboard"), 62), "Average for Keyboard:    62Hz");
    assert_eq!(average_line(&String::from("Mouse"), 12345), "Average for Mouse: 12345Hz");
}

#[test]
fn listing_line_text() {
    assert_eq!(listing_line("event3", "Logitech USB Receiver"), "event3: Logitech USB Receiver");
    assert_eq!(listing_line("device0", "Mouse"), "device0: Mouse");
}
