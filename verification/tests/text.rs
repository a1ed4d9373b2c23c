use std::sync::Arc;

use matrix_sdk_ffi::duration::Duration;
use matrix_sdk_ffi::helpers::unwrap_or_clone_arc;
use matrix_sdk_ffi::text::{
    concat2, concat3, decimal_string, ends_with, join, same, split_once, starts_with,
    strip_prefix, strip_suffix,
};

#[test]
fn texts_are_compared_as_std_does() {
    let texts = ["", "a", "ab", "b", "\u{e9}", "e\u{301}", "a\u{1f600}b", "abab"];
    for a in texts {
        for b in texts {
            assert_eq!(same(a, b), a == b);
            assert_eq!(starts_with(a, b), a.starts_with(b));
            assert_eq!(ends_with(a, b), a.ends_with(b));
            assert_eq!(strip_prefix(a, b), a.strip_prefix(b));
            assert_eq!(strip_suffix(a, b), a.strip_suffix(b));
            assert_eq!(split_once(a, b), a.split_once(b));
        }
    }
}

#[test]
fn texts_are_joined() {
    let parts = vec!["a".to_owned(), "b".to_owned(), "".to_owned()];
    assert_eq!(join(&parts, ", "), "a, b, ");
    assert_eq!(join(&vec![], ", "), "");
    assert_eq!(concat2("x", "y"), "xy");
    assert_eq!(concat3("x", "", "z"), "xz");
}

#[test]
fn numbers_are_written_in_decimal() {
    for n in [0, 7, 9, 10, 99, 100, 1_234_567_890, u64::MAX] {
        assert_eq!(decimal_string(n), n.to_string());
    }
}

#[test]
fn spans_are_counted_in_milliseconds() {
    for millis in [0, 1, 999, 1000, 1001, 60_000, u64::MAX] {
        let span = Duration::from_millis(millis);
        let std_span = std::time::Duration::from_millis(millis);
        assert_eq!(span.secs, std_span.as_secs());
        assert_eq!(span.nanos, std_span.subsec_nanos());
        assert_eq!(span.as_millis(), std_span.as_millis());
    }
    assert_eq!(Duration { secs: 2, nanos: 1_999_999 }.as_millis(), 2001);
}

#[test]
fn shared_values_are_cloned() {
    let alone = Arc::new(vec![1, 2]);
    assert_eq!(unwrap_or_clone_arc(alone), vec![1, 2]);

    let shared = Arc::new(vec![1, 2]);
    let other = shared.clone();
    assert_eq!(unwrap_or_clone_arc(shared), vec![1, 2]);
    assert_eq!(*other, vec![1, 2]);
}
