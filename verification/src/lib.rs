//! Call-safety and fatal-error subsystem of a code-generation backend for a
//! small Lisp-family language.
//!
//! The compiler represents every runtime value as a tagged machine word and
//! builds generated programs as control-flow graphs of basic blocks through
//! cranelift. Before any value is invoked as a function, the generated code
//! must check at runtime that the value carries the closure tag and, if it
//! does not, print a diagnostic line and terminate the process instead of
//! jumping through an arbitrary word.
//!
//! The crate is laid out leaves first:
//! - [`conversions`]: the bit-level value-tagging scheme and the encoding of
//!   diagnostic texts as data-section byte images.
//! - [`data`]: the program builder's data section, a registry of named byte
//!   images installed once per build.
//! - [`cfg`]: a thin, specified interface to cranelift's function builder,
//!   which records a ghost model of every emitted instruction and edge.
//! - [`fatal`]: the fatal message table, the fatal-exit emitter and the
//!   callable guard emitter, all verified against the ghost model.
//! - [`runtime`]: a specification-level semantics of the instructions the
//!   guard emits, and proofs that the emitted guard aborts exactly on
//!   non-closure values.

use vstd::prelude::*;

pub mod cfg;
pub mod conversions;
pub mod data;
pub mod fatal;
pub mod runtime;

verus! {

/// An expression of the source language's abstract syntax tree.
///
/// The fatal subsystem only needs to tell apart lists, symbols and the
/// immediate literals that its own emitted operands use; every other shape is
/// passed through opaquely to general evaluation.
#[derive(Debug, PartialEq)]
pub enum Expr {
    /// An interned name.
    Symbol(String),
    /// An integer literal.
    Integer(i64),
    /// A character literal.
    Char(char),
    /// A boolean literal.
    Bool(bool),
    /// A string literal.
    Str(String),
    /// An ordered list of sub-expressions.
    List(Vec<Expr>),
}

} // verus!
