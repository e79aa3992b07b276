use openvb::lab::{intervals_from_lab, parse_u64, LabError};

fn lines(text: &str) -> Vec<String> {
    text.lines().map(String::from).collect()
}

#[test]
fn label_file_intervals() {
    let r = intervals_from_lab(&lines("0 1000000 SP\n1000000 4000005 a\n4000005 5000000 AP\n")).unwrap();
    assert_eq!(r.len(), 3);
    assert_eq!((r[0].0.value, r[0].1.value, r[0].2.as_str()), (0, 100_000, "sil"));
    assert_eq!((r[1].0.value, r[1].1.value, r[1].2.as_str()), (100_000, 400_000, "a"));
    assert_eq!((r[2].0.value, r[2].1.value, r[2].2.as_str()), (400_000, 500_000, "br"));
}

#[test]
fn short_lines_are_skipped_and_label_keeps_spaces() {
    let r = intervals_from_lab(&lines("\njunk\n10 20\n10 20 r0\n30 40 a b\n")).unwrap();
    assert_eq!(r.len(), 2);
    assert_eq!(r[0].2, "r");
    assert_eq!(r[1].2, "a b");
    assert_eq!(r[1].0.value, 3);
}

#[test]
fn bad_numbers_are_reported() {
    assert_eq!(intervals_from_lab(&lines("0 10 a\nx 20 b\n")), Err(LabError::InvalidNumber(1)));
    assert_eq!(intervals_from_lab(&lines("0 -1 a\n")), Err(LabError::InvalidNumber(0)));
    assert_eq!(intervals_from_lab(&lines("0 99999999999999999999 a\n")), Err(LabError::InvalidNumber(0)));
    assert_eq!(intervals_from_lab(&lines("50 10 a\n")), Err(LabError::Reversed(0)));
}

#[test]
fn decimal_numbers() {
    assert_eq!(parse_u64("0"), Some(0));
    assert_eq!(parse_u64("+42"), Some(42));
    assert_eq!(parse_u64("18446744073709551615"), Some(u64::MAX));
    assert_eq!(parse_u64("18446744073709551616"), None);
    assert_eq!(parse_u64(""), None);
    assert_eq!(parse_u64("+"), None);
    assert_eq!(parse_u64("1a"), None);
    assert_eq!(parse_u64(" 1"), None);
    for s in ["7", "+7", "0012", "123456789"] {
        assert_eq!(parse_u64(s), s.parse::<u64>().ok());
    }
}
