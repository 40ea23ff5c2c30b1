//! The callable guard and fatal-exit emitters, run against a real cranelift
//! function under construction.

use cranelift::codegen::ir::Function;
use cranelift::frontend::{FunctionBuilder, FunctionBuilderContext};
use lustc::cfg::Cfg;
use lustc::fatal::{emit_check_callable, emit_error};
use lustc::Expr;

#[test]
fn guard_emits_test_branch_and_error_path() {
    let mut func = Function::new();
    let mut ctx = FunctionBuilderContext::new();
    {
        let builder = FunctionBuilder::new(&mut func, &mut ctx);
        let mut cfg = Cfg::new(builder);
        assert_eq!(cfg.block_count(), 1);
        let candidate = cfg.iconst(5);
        emit_check_callable(&candidate, &mut cfg).expect("guard emission must succeed");
        assert_eq!(cfg.block_count(), 3);
    }
    let text = func.display().to_string();
    assert!(text.contains("iconst"), "missing candidate constant:\n{text}");
    assert!(text.contains("band"), "missing tag mask:\n{text}");
    assert!(text.contains("icmp eq"), "missing tag comparison:\n{text}");
    assert!(text.contains("brif"), "missing conditional branch:\n{text}");
    assert!(text.contains("jump"), "missing the structurally required dead edge:\n{text}");
    assert!(text.contains("puts"), "missing the text-output call:\n{text}");
    assert!(text.contains("exit"), "missing the termination call:\n{text}");
    assert!(
        text.contains("__anon_data_bad_call_type"),
        "missing the diagnostic symbol reference:\n{text}"
    );
    assert!(text.contains("-1"), "missing the fatal exit code:\n{text}");
}

#[test]
fn fatal_exit_emits_print_then_terminate() {
    let mut func = Function::new();
    let mut ctx = FunctionBuilderContext::new();
    {
        let builder = FunctionBuilder::new(&mut func, &mut ctx);
        let mut cfg = Cfg::new(builder);
        let message = Expr::Symbol("__anon_data_bad_call_type".to_string());
        let code = Expr::Integer(-1);
        emit_error(&message, &code, &mut cfg).expect("fatal exit emission must succeed");
        // No block was created: the sequence lands in the cursor block.
        assert_eq!(cfg.block_count(), 1);
    }
    let text = func.display().to_string();
    let puts_at = text.find("puts").expect("the print call must be emitted");
    let exit_at = text.find("exit").expect("the termination call must be emitted");
    assert!(puts_at < exit_at, "print must come before terminate:\n{text}");
}

#[test]
fn fatal_exit_rejects_general_operands() {
    let mut func = Function::new();
    let mut ctx = FunctionBuilderContext::new();
    let builder = FunctionBuilder::new(&mut func, &mut ctx);
    let mut cfg = Cfg::new(builder);
    // A message that is not a data symbol is general evaluation, which the
    // fatal subsystem does not perform.
    let message = Expr::Str("boom".to_string());
    let code = Expr::Integer(-1);
    assert!(emit_error(&message, &code, &mut cfg).is_err());
    let symbol = Expr::Symbol("sym".to_string());
    let bad_code = Expr::Str("boom".to_string());
    assert!(emit_error(&symbol, &bad_code, &mut cfg).is_err());
}
