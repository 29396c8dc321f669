use record_usage::wide::{to_wide_chars, units_from_le_bytes};

#[test]
fn wide_chars_are_zero_terminated() {
    assert_eq!(to_wide_chars(""), vec![0]);
    assert_eq!(to_wide_chars("Monitor"), vec![77, 111, 110, 105, 116, 111, 114, 0]);
}

#[test]
fn wide_chars_use_surrogate_pairs() {
    assert_eq!(to_wide_chars("\u{e9}\u{1F600}"), vec![0xE9, 0xD83D, 0xDE00, 0]);
    assert_eq!(to_wide_chars("\u{10FFFF}"), vec![0xDBFF, 0xDFFF, 0]);
}

#[test]
fn units_from_bytes() {
    assert_eq!(units_from_le_bytes(&[0x41, 0x00, 0x3D, 0xD8, 0x7f]), vec![0x41, 0xD83D]);
    assert_eq!(units_from_le_bytes(&[]), Vec::<u16>::new());
}
