//! The bitmask law of the value-tagging scheme, on boundary bit patterns.

use lustc::conversions::{is_closure, string_to_immediate, CLOSURE_TAG, HEAP_TAG_MASK};

#[test]
fn closure_tag_is_recognized() {
    assert!(is_closure(CLOSURE_TAG));
    // A heap pointer with the closure tag in its low bits.
    assert!(is_closure((1 << 12) | CLOSURE_TAG));
    assert!(is_closure(!HEAP_TAG_MASK | CLOSURE_TAG));
}

#[test]
fn non_closure_patterns_are_rejected() {
    assert!(!is_closure(0));
    // All ones: the masked bits are the full mask, not the closure tag.
    assert!(!is_closure(-1));
    // The mask's exact complement: the masked bits are zero.
    assert!(!is_closure(!HEAP_TAG_MASK));
    // A raw small integer.
    assert!(!is_closure(5));
}

#[test]
fn bitmask_law_holds_pointwise() {
    let samples: Vec<i64> = vec![
        0,
        1,
        -1,
        5,
        CLOSURE_TAG,
        HEAP_TAG_MASK,
        !HEAP_TAG_MASK,
        i64::MAX,
        i64::MIN,
        (1 << 40) | CLOSURE_TAG,
    ];
    for v in samples {
        assert_eq!(is_closure(v), (v & HEAP_TAG_MASK) == CLOSURE_TAG);
    }
}

#[test]
fn immediate_encoding_appends_terminator() {
    let image = string_to_immediate(b"abc").unwrap();
    assert_eq!(image, vec![97u8, 98, 99, 0]);
    let empty = string_to_immediate(b"").unwrap();
    assert_eq!(empty, vec![0u8]);
}

#[test]
fn embedded_terminator_is_rejected() {
    let err = string_to_immediate(&[102u8, 0, 103]).unwrap_err();
    assert_eq!(err, 1);
}
