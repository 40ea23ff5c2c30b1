//! The error-form recognizer on the shapes the language can produce.

use lustc::Expr;

fn error_list(items: Vec<Expr>) -> Expr {
    Expr::List(items)
}

#[test]
fn three_element_error_form_matches() {
    let node = error_list(vec![
        Expr::Symbol("error".to_string()),
        Expr::Str("boom".to_string()),
        Expr::Integer(2),
    ]);
    let (message, code) = node.is_error().expect("the error form must be recognized");
    assert_eq!(*message, Expr::Str("boom".to_string()));
    assert_eq!(*code, Expr::Integer(2));
}

#[test]
fn two_element_list_does_not_match() {
    let node = error_list(vec![
        Expr::Symbol("error".to_string()),
        Expr::Str("boom".to_string()),
    ]);
    assert!(node.is_error().is_none());
}

#[test]
fn four_element_list_does_not_match() {
    let node = error_list(vec![
        Expr::Symbol("error".to_string()),
        Expr::Str("boom".to_string()),
        Expr::Integer(2),
        Expr::Integer(3),
    ]);
    assert!(node.is_error().is_none());
}

#[test]
fn other_head_symbol_does_not_match() {
    let node = error_list(vec![
        Expr::Symbol("foo".to_string()),
        Expr::Str("boom".to_string()),
        Expr::Integer(2),
    ]);
    assert!(node.is_error().is_none());
}

#[test]
fn integer_head_does_not_match() {
    let node = error_list(vec![
        Expr::Integer(1),
        Expr::Str("boom".to_string()),
        Expr::Integer(2),
    ]);
    assert!(node.is_error().is_none());
}

#[test]
fn nested_list_head_does_not_match() {
    let node = error_list(vec![
        error_list(vec![Expr::Symbol("error".to_string())]),
        Expr::Str("boom".to_string()),
        Expr::Integer(2),
    ]);
    assert!(node.is_error().is_none());
}

#[test]
fn non_list_does_not_match() {
    assert!(Expr::Integer(7).is_error().is_none());
    assert!(Expr::Symbol("error".to_string()).is_error().is_none());
    assert!(Expr::Bool(true).is_error().is_none());
    assert!(Expr::Char('e').is_error().is_none());
}
