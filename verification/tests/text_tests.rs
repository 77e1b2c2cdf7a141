use identity::text::push_decimal;

fn decimal(i: i32) -> String {
    let mut s = String::from("port=");
    push_decimal(&mut s, i);
    s
}

#[test]
fn decimal_of_positive_number() {
    assert_eq!(decimal(5432), "port=5432");
}

#[test]
fn decimal_of_zero() {
    assert_eq!(decimal(0), "port=0");
}

#[test]
fn decimal_of_negative_number() {
    assert_eq!(decimal(-17), "port=-17");
}

#[test]
fn decimal_of_extremes() {
    assert_eq!(decimal(i32::MAX), "port=2147483647");
    assert_eq!(decimal(i32::MIN), "port=-2147483648");
}

#[test]
fn decimal_matches_format_for_many_values() {
    for i in [1, 9, 10, 11, 99, 100, 101, 65535, -1, -10, -100, 1_000_000_007] {
        assert_eq!(decimal(i), format!("port={}", i));
    }
}

#[test]
fn decimal_reads_back() {
    for i in [0, 7, 10, 5432, 65535, i32::MAX, -3, i32::MIN] {
        let text = decimal(i);
        let digits = &text["port=".len()..];
        assert_eq!(digits.parse::<i32>().unwrap(), i);
        let magnitude = digits.trim_start_matches('-');
        assert!(magnitude.chars().all(|c| c.is_ascii_digit()));
        assert!(magnitude == "0" || !magnitude.starts_with('0'));
    }
}
