//! The fatal message registry: installed once per build, before any guard is
//! emitted.

use lustc::data::{create_data, DataSection, LustData};
use lustc::fatal::{emit_error_strings, register_message};

const BAD_CALL_SYMBOL: &str = "__anon_data_bad_call_type";
const BAD_CALL_TEXT: &str = "fatal error: non-closure object in head position of list";

#[test]
fn fatal_messages_register_once() {
    let mut section = DataSection::new();
    emit_error_strings(&mut section).expect("a fresh build must accept the fatal table");
    assert_eq!(section.len(), 1);
    let mut expected = BAD_CALL_TEXT.as_bytes().to_vec();
    expected.push(0);
    assert_eq!(section.resolve(BAD_CALL_SYMBOL), Some(&expected));
    assert_eq!(section.resolve("__missing_symbol"), None);
}

#[test]
fn registering_twice_fails_and_keeps_the_first() {
    let mut section = DataSection::new();
    emit_error_strings(&mut section).unwrap();
    assert!(emit_error_strings(&mut section).is_err());
    assert_eq!(section.len(), 1);
}

#[test]
fn registered_image_is_the_text_with_terminator() {
    let mut section = DataSection::new();
    register_message(BAD_CALL_SYMBOL, BAD_CALL_TEXT, &mut section).unwrap();
    assert_eq!(section.len(), 1);
    // Register a second, distinct message: the table is designed to grow.
    register_message("__anon_data_other", "another diagnostic", &mut section).unwrap();
    assert_eq!(section.len(), 2);
}

#[test]
fn embedded_terminator_registers_nothing() {
    let mut section = DataSection::new();
    let r = register_message("__anon_data_broken", "bad\0text", &mut section);
    assert!(r.is_err());
    assert_eq!(section.len(), 0);
}

#[test]
fn duplicate_data_symbol_is_refused() {
    let mut section = DataSection::new();
    let first = LustData { name: "sym".to_string(), data: vec![1u8, 0] };
    let second = LustData { name: "sym".to_string(), data: vec![2u8, 0] };
    create_data(first, &mut section).unwrap();
    assert!(create_data(second, &mut section).is_err());
    assert_eq!(section.len(), 1);
}
