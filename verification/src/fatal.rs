//! The fatal-error core: the fixed diagnostic table, the fatal-exit emitter
//! and the callable guard emitter.
//!
//! Before any value is applied as a function, the guard emitter inserts a
//! runtime tag test. A value whose heap-tag bits are not the closure tag is
//! diverted to an error block that prints a registered diagnostic and
//! terminates the process; a closure falls through to a continuation block
//! where compilation resumes. The error block, though it can never fall out
//! of its terminating call, still ends with a jump to the continuation block:
//! the block-sealing discipline demands that every block's successor edges be
//! in place before the continuation block's predecessor set is declared
//! complete, so the design records this structurally required but
//! semantically dead edge on purpose.

use vstd::prelude::*;
use vstd::string::StringSliceAdditionalSpecFns;
use vstd::utf8::{is_ascii_chars, is_ascii_chars_encode_utf8};

use crate::cfg::{
    cur_open, push_inst, with_cur, with_new_block, with_pred, with_seal, with_term, Cfg, Inst,
    ProgModel, SsaVal, Term,
};
use crate::conversions::{
    immediate_encoding, nul_free, string_to_immediate, CLOSURE_TAG, HEAP_TAG_MASK,
};
use crate::data::{contains_name, create_data, resolves_to, DataSection, LustData};
use crate::Expr;

verus! {

/// The exit code carried by the guard's failure path.
pub const BAD_CALL_EXIT_CODE: i64 = -1;

/// The data-section symbol under which the non-closure-call diagnostic is
/// registered.
pub open spec fn bad_call_symbol() -> Seq<char> {
    "__anon_data_bad_call_type"@
}

/// The diagnostic text printed when a non-closure value stands in the head
/// position of a list.
pub open spec fn bad_call_text() -> Seq<char> {
    "fatal error: non-closure object in head position of list"@
}

/// The diagnostic text's byte sequence: its characters encoded as UTF-8,
/// which for this ASCII text is one byte per character.
pub open spec fn bad_call_text_bytes() -> Seq<u8> {
    vstd::utf8::encode_utf8(bad_call_text())
}

/// The fixed diagnostic text can always be encoded: it holds no embedded
/// terminator byte.
pub proof fn lemma_bad_call_text_encodable()
    ensures
        nul_free(bad_call_text_bytes()),
{
    let t = "fatal error: non-closure object in head position of list";
    reveal_strlit("fatal error: non-closure object in head position of list");
    assert(is_ascii_chars(t@)) by {
        assert forall|i: int| 0 <= i < t@.len() implies '\0' <= #[trigger] t@[i] <= '\u{7f}' by {}
    }
    is_ascii_chars_encode_utf8(t@);
    assert forall|i: int| 0 <= i < bad_call_text_bytes().len() implies bad_call_text_bytes()[i]
        != 0 by {
        assert(t@[i] as u8 == bad_call_text_bytes()[i]);
        assert(t@[i] != '\0');
    }
}

/// The name of the runtime primitive that writes a NUL-terminated text to
/// the process's standard output.
pub open spec fn puts_name() -> Seq<char> {
    "puts"@
}

/// The name of the runtime primitive that terminates the process with a
/// code.
pub open spec fn exit_name() -> Seq<char> {
    "exit"@
}

/// What the text-output primitive prints from the installed diagnostic image
/// is exactly the diagnostic text: the registered bytes round-trip through
/// the NUL-terminated encoding.
pub proof fn lemma_bad_call_image_prints_text()
    ensures
        crate::conversions::cstr_text(immediate_encoding(bad_call_text_bytes()))
            == bad_call_text_bytes(),
{
    lemma_bad_call_text_encodable();
    crate::conversions::lemma_cstr_of_immediate(bad_call_text_bytes());
}

/// A node is an error form exactly when it is a list of three elements whose
/// head is the symbol `error`.
pub open spec fn is_error_form(e: Expr) -> bool {
    &&& e matches Expr::List(v)
    &&& v@.len() == 3
    &&& v@[0] matches Expr::Symbol(s)
    &&& s@ == "error"@
}

impl Expr {
    /// Determines if an expression is an error expression and returns its
    /// message and return code arguments.
    ///
    /// Matches exactly the three-element lists headed by the symbol `error`;
    /// the two operands are handed back by reference, unevaluated. Any other
    /// shape is a negative recognition result, not an error.
    pub fn is_error(&self) -> (r: Option<(&Expr, &Expr)>)
        ensures
            r is Some <==> is_error_form(*self),
            r matches Some(p) ==> *self matches Expr::List(v) && *p.0 == v@[1] && *p.1 == v@[2],
    {
        match self {
            Expr::List(v) => {
                if v.len() == 3 {
                    match &v[0] {
                        Expr::Symbol(s) => {
                            let error_sym: String = "error".to_owned();
                            if *s == error_sym {
                                Some((&v[1], &v[2]))
                            } else {
                                None
                            }
                        },
                        _ => None,
                    }
                } else {
                    None
                }
            },
            _ => None,
        }
    }
}

/// Encodes one diagnostic text and installs it in the data section under the
/// given symbolic name.
///
/// Succeeds exactly when the text is free of embedded terminator bytes and
/// the name is still unused; afterwards the name resolves to the text's
/// immediate image and every earlier entry is untouched. On failure nothing
/// is installed.
pub fn register_message(name: &str, text: &str, section: &mut DataSection) -> (r: Result<
    (),
    String,
>)
    requires
        old(section).wf(),
    ensures
        final(section).wf(),
        r is Ok <==> (nul_free(text.spec_bytes()) && !contains_name(
            old(section).entries(),
            name@,
        )),
        r is Ok ==> final(section).entries().len() == old(section).entries().len() + 1,
        r is Ok ==> forall|i: int|
            0 <= i < old(section).entries().len()
                ==> final(section).entries()[i] == old(section).entries()[i],
        r is Ok ==> final(section).entries().last().name@ == name@
            && final(section).entries().last().data@ == immediate_encoding(text.spec_bytes()),
        r is Ok ==> resolves_to(
            final(section).entries(),
            name@,
            immediate_encoding(text.spec_bytes()),
        ),
        r is Err ==> final(section).entries() == old(section).entries(),
{
    let bytes = text.as_bytes();
    let image = match string_to_immediate(bytes) {
        Ok(v) => v,
        Err(_pos) => {
            return Err("diagnostic text holds an embedded terminator byte".to_owned());
        },
    };
    let datum = LustData { name: name.to_owned(), data: image };
    let r = create_data(datum, section);
    proof {
        if r is Ok {
            let n = old(section).entries().len() as int;
            assert(section.entries()[n].name@ == name@);
        }
    }
    r
}

/// Installs the whole fatal message table into the data section, before any
/// code that references it is generated.
///
/// The table currently holds one entry, the non-closure-call diagnostic; it
/// grows by registering further entries here, never by mutation at run time.
/// Succeeds exactly when its symbol is still unused, and afterwards the
/// symbol resolves to the diagnostic's immediate image for the remainder of
/// the build. On failure the data section is left as it was.
pub fn emit_error_strings(section: &mut DataSection) -> (r: Result<(), String>)
    requires
        old(section).wf(),
    ensures
        final(section).wf(),
        r is Ok <==> !contains_name(old(section).entries(), bad_call_symbol()),
        r is Ok ==> resolves_to(
            final(section).entries(),
            bad_call_symbol(),
            immediate_encoding(bad_call_text_bytes()),
        ),
        r is Ok ==> forall|i: int|
            0 <= i < old(section).entries().len()
                ==> final(section).entries()[i] == old(section).entries()[i],
        r is Err ==> final(section).entries() == old(section).entries(),
{
    proof {
        lemma_bad_call_text_encodable();
    }
    register_message(
        "__anon_data_bad_call_type",
        "fatal error: non-closure object in head position of list",
        section,
    )
}

/// The ledger after the fatal-exit sequence: the symbol's address and the
/// exit code are materialized, then the text-output primitive and the
/// process-termination primitive are called in that order.
pub open spec fn emit_error_post(m: ProgModel, sym: Seq<char>, code: i64) -> ProgModel {
    let m1 = push_inst(m, Inst::SymbolAddr { dst: m.next_val, sym: sym });
    let m2 = push_inst(m1, Inst::Iconst { dst: m1.next_val, imm: code });
    let m3 = push_inst(m2, Inst::CallForeign { dst: m2.next_val, func: puts_name(), arg: m.next_val });
    push_inst(m3, Inst::CallForeign { dst: m3.next_val, func: exit_name(), arg: m1.next_val })
}

/// Emits the fatal-exit sequence into the cursor block: print the message
/// the symbol resolves to, then terminate the process with the given code.
///
/// The message must name a data-section symbol and the exit code must be an
/// integer literal — the two shapes the fatal subsystem itself produces;
/// anything else is general evaluation, which is outside this subsystem, and
/// is rejected without emitting anything. The returned value is the
/// termination call's result: it can never be observed at run time and only
/// satisfies the code generator's demand that the sequence produce a value.
pub fn emit_error(message: &Expr, exit_code: &Expr, cfg: &mut Cfg) -> (r: Result<SsaVal, String>)
    requires
        old(cfg).wf(),
        cur_open(old(cfg).model()),
    ensures
        final(cfg).wf(),
        r is Ok <==> (message matches Expr::Symbol(s) && exit_code matches Expr::Integer(c)),
        message matches Expr::Symbol(s) ==> exit_code matches Expr::Integer(c)
            ==> final(cfg).model() == emit_error_post(old(cfg).model(), s@, *c),
        message matches Expr::Symbol(s) ==> exit_code matches Expr::Integer(c)
            ==> r matches Ok(v) && v.id@ == old(cfg).model().next_val + 3,
        r is Err ==> final(cfg).model() == old(cfg).model(),
{
    match (message, exit_code) {
        (Expr::Symbol(s), Expr::Integer(code)) => {
            let addr = cfg.symbol_addr(s.as_str());
            let code_val = cfg.iconst(*code);
            let _puts_val = cfg.call_foreign("puts", &addr);
            let exit_val = cfg.call_foreign("exit", &code_val);
            Ok(exit_val)
        },
        _ => Err("fatal exit takes a data symbol and an integer literal".to_owned()),
    }
}

/// The ledger after the callable guard: the cursor block is filled with the
/// tag test and a conditional branch, the new error block holds the
/// fatal-exit sequence and its structurally required dead jump, and the new
/// continuation block — where the cursor ends up — is sealed with exactly
/// its two recorded incoming edges.
pub open spec fn guard_post(m: ProgModel, c: nat) -> ProgModel {
    let eb = m.blocks.len();
    let ob = m.blocks.len() + 1;
    let m1 = push_inst(m, Inst::BandImm { dst: m.next_val, src: c, imm: HEAP_TAG_MASK });
    let m2 = push_inst(m1, Inst::IcmpEqImm { dst: m1.next_val, src: m.next_val, imm: CLOSURE_TAG });
    let m3 = with_new_block(with_new_block(m2));
    let m4 = with_pred(
        with_pred(
            with_term(m3, Term::Brif { cond: m1.next_val, nonzero_to: ob, zero_to: eb }),
            ob,
            m.cur,
        ),
        eb,
        m.cur,
    );
    let m5 = with_seal(with_cur(m4, eb), eb);
    let m6 = emit_error_post(m5, bad_call_symbol(), BAD_CALL_EXIT_CODE);
    let m7 = with_pred(with_term(m6, Term::Jump { to: ob }), ob, eb);
    with_seal(with_cur(m7, ob), ob)
}

/// Emits the callable guard over an already evaluated candidate value.
///
/// Evaluating the query expression to `candidate` is the caller's general
/// code generation; from there the guard masks the candidate with the heap
/// tag mask, compares against the closure tag, and branches: a non-closure
/// goes to a fresh error block that prints the registered diagnostic and
/// terminates the process with [`BAD_CALL_EXIT_CODE`], a closure falls
/// through to a fresh continuation block. Both new blocks are sealed before
/// the emitter returns, and the cursor is left at the start of the
/// continuation block with the candidate untouched. The guard is inserted
/// unconditionally: statically known closures are not special-cased.
pub fn emit_check_callable(candidate: &SsaVal, cfg: &mut Cfg) -> (r: Result<(), String>)
    requires
        old(cfg).wf(),
        cur_open(old(cfg).model()),
        candidate.id@ < old(cfg).model().next_val,
    ensures
        final(cfg).wf(),
        r is Ok,
        final(cfg).model() == guard_post(old(cfg).model(), candidate.id@),
{
    let accum = cfg.band_imm(candidate, HEAP_TAG_MASK);
    let cond = cfg.icmp_eq_imm(&accum, CLOSURE_TAG);

    let error_block = cfg.create_block();
    let ok_block = cfg.create_block();

    cfg.brif(&cond, ok_block, error_block);

    cfg.switch_to_block(error_block);
    cfg.seal_block(error_block);

    let message = Expr::Symbol("__anon_data_bad_call_type".to_owned());
    let code = Expr::Integer(BAD_CALL_EXIT_CODE);
    emit_error(&message, &code, cfg)?;

    // This edge can never be taken: the process has already terminated. It
    // exists so that the continuation block's predecessor set is complete
    // before it is sealed.
    cfg.jump(ok_block);

    cfg.switch_to_block(ok_block);
    cfg.seal_block(ok_block);

    Ok(())
}

} // verus!

