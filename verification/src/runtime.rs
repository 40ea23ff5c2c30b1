//! A specification-level semantics for the instructions the fatal subsystem
//! emits, and proofs about what the emitted callable guard does at run time.
//!
//! The semantics runs over the ledger of [`crate::cfg`]: an environment maps
//! SSA value indices to abstract runtime values, the text-output primitive
//! appends the symbol it is handed to an output trace, and the
//! process-termination primitive ends the run at once — nothing after it
//! executes. Foreign calls other than those two produce a value about which
//! nothing is assumed.

use vstd::prelude::*;

use crate::cfg::{cur_open, Inst, ProgModel, Term};
use crate::conversions::is_closure_word;
use crate::fatal::{bad_call_symbol, exit_name, guard_post, puts_name, BAD_CALL_EXIT_CODE};

verus! {

/// A runtime value, as the semantic model tracks it.
pub enum AbsVal {
    /// An ordinary machine word.
    Word(i64),
    /// The link-time address of a named data-section symbol.
    SymAddr(Seq<char>),
    /// The result of a foreign call; nothing is assumed about it.
    Opaque,
}

/// What running a straight-line instruction sequence does.
pub enum SegResult {
    /// The whole sequence ran through.
    Done { env: Map<nat, AbsVal>, out: Seq<Seq<char>> },
    /// The process-termination primitive was called: the process ends at
    /// once with this code and no later instruction executes.
    Exited { code: i64, out: Seq<Seq<char>> },
    /// The model cannot say: an operand the environment does not bind as
    /// the instruction demands.
    Stuck,
}

/// Where control ends up when running on from a block.
pub enum RunResult {
    /// Execution fell into a block that is still open; code emitted later
    /// resumes from its start.
    Reached { block: nat, env: Map<nat, AbsVal>, out: Seq<Seq<char>> },
    /// The process terminated with this code, after this output.
    Exited { code: i64, out: Seq<Seq<char>> },
    /// The model cannot say.
    Stuck,
}

/// The machine word the environment binds an index to, if any.
pub open spec fn env_word(env: Map<nat, AbsVal>, i: nat) -> Option<i64> {
    if env.contains_key(i) {
        match env[i] {
            AbsVal::Word(w) => Some(w),
            _ => None,
        }
    } else {
        None
    }
}

/// The symbol address the environment binds an index to, if any.
pub open spec fn env_sym(env: Map<nat, AbsVal>, i: nat) -> Option<Seq<char>> {
    if env.contains_key(i) {
        match env[i] {
            AbsVal::SymAddr(s) => Some(s),
            _ => None,
        }
    } else {
        None
    }
}

/// Runs a straight-line instruction sequence. Constants, the tag mask and
/// the comparison bind words; a symbol address binds the name; a call to the
/// termination primitive ends the run at once; a call to the text-output
/// primitive appends the symbol its argument names to the output trace; any
/// other foreign call binds an opaque result.
pub open spec fn run_insts(
    insts: Seq<Inst>,
    env: Map<nat, AbsVal>,
    out: Seq<Seq<char>>,
) -> SegResult
    decreases insts.len(),
{
    if insts.len() == 0 {
        SegResult::Done { env, out }
    } else {
        let rest = insts.skip(1);
        match insts[0] {
            Inst::Iconst { dst, imm } => run_insts(rest, env.insert(dst, AbsVal::Word(imm)), out),
            Inst::BandImm { dst, src, imm } => match env_word(env, src) {
                Some(w) => run_insts(rest, env.insert(dst, AbsVal::Word(w & imm)), out),
                None => SegResult::Stuck,
            },
            Inst::IcmpEqImm { dst, src, imm } => match env_word(env, src) {
                Some(w) => run_insts(
                    rest,
                    env.insert(
                        dst,
                        AbsVal::Word(
                            if w == imm {
                                1i64
                            } else {
                                0i64
                            },
                        ),
                    ),
                    out,
                ),
                None => SegResult::Stuck,
            },
            Inst::SymbolAddr { dst, sym } => run_insts(
                rest,
                env.insert(dst, AbsVal::SymAddr(sym)),
                out,
            ),
            Inst::CallForeign { dst, func, arg } => {
                if func == exit_name() {
                    match env_word(env, arg) {
                        Some(w) => SegResult::Exited { code: w, out },
                        None => SegResult::Stuck,
                    }
                } else if func == puts_name() {
                    match env_sym(env, arg) {
                        Some(sym) => run_insts(rest, env.insert(dst, AbsVal::Opaque), out.push(sym)),
                        None => SegResult::Stuck,
                    }
                } else {
                    if env.contains_key(arg) {
                        run_insts(rest, env.insert(dst, AbsVal::Opaque), out)
                    } else {
                        SegResult::Stuck
                    }
                }
            },
        }
    }
}

/// Runs from instruction `pc` of block `b`: the rest of the block, then its
/// terminator, following at most `fuel` edges.
pub open spec fn run_from(
    m: ProgModel,
    b: nat,
    pc: nat,
    env: Map<nat, AbsVal>,
    out: Seq<Seq<char>>,
    fuel: nat,
) -> RunResult
    decreases fuel,
{
    if b >= m.blocks.len() || pc > m.blocks[b as int].insts.len() {
        RunResult::Stuck
    } else {
        match run_insts(m.blocks[b as int].insts.skip(pc as int), env, out) {
            SegResult::Stuck => RunResult::Stuck,
            SegResult::Exited { code, out } => RunResult::Exited { code, out },
            SegResult::Done { env, out } => match m.blocks[b as int].term {
                None => RunResult::Reached { block: b, env, out },
                Some(Term::Jump { to }) => if fuel == 0 {
                    RunResult::Stuck
                } else {
                    run_from(m, to, 0, env, out, (fuel - 1) as nat)
                },
                Some(Term::Brif { cond, nonzero_to, zero_to }) => if fuel == 0 {
                    RunResult::Stuck
                } else {
                    match env_word(env, cond) {
                        Some(w) => run_from(
                            m,
                            if w != 0 {
                                nonzero_to
                            } else {
                                zero_to
                            },
                            0,
                            env,
                            out,
                            (fuel - 1) as nat,
                        ),
                        None => RunResult::Stuck,
                    }
                },
            },
        }
    }
}

/// Graph-construction law: after a callable-guard emission, both new blocks
/// are sealed, the error block records exactly one incoming edge (from the
/// testing block), and the continuation block records exactly two — the real
/// fallthrough edge and the structurally required dead edge out of the error
/// block — even though only one is dynamically reachable.
pub proof fn lemma_guard_seals_blocks(m: ProgModel, c: nat)
    requires
        m.cur < m.blocks.len(),
        cur_open(m),
    ensures
        ({
            let g = guard_post(m, c);
            let eb = m.blocks.len() as int;
            let ob = eb + 1;
            &&& g.blocks.len() == m.blocks.len() + 2
            &&& g.blocks[eb].sealed
            &&& g.blocks[ob].sealed
            &&& g.blocks[eb].preds =~= seq![m.cur]
            &&& g.blocks[ob].preds =~= seq![m.cur, m.blocks.len()]
            &&& g.cur == ob
        }),
{
}

/// Call-safety, success side: running the guard from its first emitted
/// instruction with a candidate that carries the closure tag reaches the
/// continuation block — nothing is printed, the process does not terminate,
/// and the candidate value is unchanged when compilation's continuation sees
/// it.
pub proof fn lemma_guard_closure_continues(
    m: ProgModel,
    c: nat,
    v: i64,
    env: Map<nat, AbsVal>,
    out: Seq<Seq<char>>,
)
    requires
        m.cur < m.blocks.len(),
        cur_open(m),
        c < m.next_val,
        env.contains_key(c),
        env[c] == AbsVal::Word(v),
        is_closure_word(v),
    ensures
        ({
            let g = guard_post(m, c);
            let pc = m.blocks[m.cur as int].insts.len();
            let r = run_from(g, m.cur, pc, env, out, 1);
            &&& r matches RunResult::Reached { block, env: env2, out: out2 }
            &&& block == m.blocks.len() + 1
            &&& out2 == out
            &&& env2.contains_key(c)
            &&& env2[c] == AbsVal::Word(v)
        }),
{
    lemma_guard_test_block(m, c, v, env, out);
}

/// Call-safety, failure side: running the guard from its first emitted
/// instruction with a candidate that does not carry the closure tag prints
/// the registered diagnostic symbol exactly once and terminates the process
/// with [`BAD_CALL_EXIT_CODE`]; no instruction after the terminating call
/// executes, and the dead edge out of the error block is never taken.
pub proof fn lemma_guard_nonclosure_aborts(
    m: ProgModel,
    c: nat,
    v: i64,
    env: Map<nat, AbsVal>,
    out: Seq<Seq<char>>,
)
    requires
        m.cur < m.blocks.len(),
        cur_open(m),
        c < m.next_val,
        env.contains_key(c),
        env[c] == AbsVal::Word(v),
        !is_closure_word(v),
    ensures
        ({
            let g = guard_post(m, c);
            let pc = m.blocks[m.cur as int].insts.len();
            run_from(g, m.cur, pc, env, out, 1) == (RunResult::Exited {
                code: BAD_CALL_EXIT_CODE,
                out: out.push(bad_call_symbol()),
            })
        }),
{
    lemma_guard_test_block(m, c, v, env, out);
}

/// Shared symbolic execution of the guard gadget: the test block computes
/// the tag comparison and branches, the continuation block is reached empty
/// on the closure side, and the error block runs the fatal-exit sequence on
/// the other.
proof fn lemma_guard_test_block(
    m: ProgModel,
    c: nat,
    v: i64,
    env: Map<nat, AbsVal>,
    out: Seq<Seq<char>>,
)
    requires
        m.cur < m.blocks.len(),
        cur_open(m),
        c < m.next_val,
        env.contains_key(c),
        env[c] == AbsVal::Word(v),
    ensures
        ({
            let g = guard_post(m, c);
            let pc = m.blocks[m.cur as int].insts.len();
            let r = run_from(g, m.cur, pc, env, out, 1);
            if is_closure_word(v) {
                &&& r matches RunResult::Reached { block, env: env2, out: out2 }
                &&& block == m.blocks.len() + 1
                &&& out2 == out
                &&& env2.contains_key(c)
                &&& env2[c] == AbsVal::Word(v)
            } else {
                r == (RunResult::Exited {
                    code: BAD_CALL_EXIT_CODE,
                    out: out.push(bad_call_symbol()),
                })
            }
        }),
{
    reveal_with_fuel(run_insts, 6);
    let g = guard_post(m, c);
    let eb = m.blocks.len();
    let ob = eb + 1;
    let nv = m.next_val;
    let pc = m.blocks[m.cur as int].insts.len() as int;

    let i1 = Inst::BandImm { dst: nv, src: c, imm: crate::conversions::HEAP_TAG_MASK };
    let i2 = Inst::IcmpEqImm { dst: nv + 1, src: nv, imm: crate::conversions::CLOSURE_TAG };
    assert(g.blocks[m.cur as int].insts =~= m.blocks[m.cur as int].insts.push(i1).push(i2));
    assert(g.blocks[m.cur as int].insts.skip(pc) =~= seq![i1, i2]);
    assert(seq![i1, i2].skip(1) =~= seq![i2]);
    assert(seq![i2].skip(1) =~= Seq::<Inst>::empty());

    let masked: i64 = v & crate::conversions::HEAP_TAG_MASK;
    let flag: i64 = if masked == crate::conversions::CLOSURE_TAG {
        1i64
    } else {
        0i64
    };
    let env2 = env.insert(nv, AbsVal::Word(masked)).insert(nv + 1, AbsVal::Word(flag));
    assert(run_insts(g.blocks[m.cur as int].insts.skip(pc), env, out) == (SegResult::Done {
        env: env2,
        out,
    }));
    assert(g.blocks[m.cur as int].term == Some(
        Term::Brif { cond: nv + 1, nonzero_to: ob, zero_to: eb },
    ));
    assert(env_word(env2, nv + 1) == Some(flag));

    if is_closure_word(v) {
        // The branch falls through to the continuation block, which is
        // still empty and open.
        assert(g.blocks[ob as int].insts =~= Seq::<Inst>::empty());
        assert(g.blocks[ob as int].term is None);
        assert(run_from(g, ob, 0, env2, out, 0) == (RunResult::Reached {
            block: ob,
            env: env2,
            out,
        }));
        assert(env2[c] == AbsVal::Word(v));
    } else {
        // The branch takes the error block: symbol address, exit code, the
        // print call, then the terminating call — after which nothing runs.
        reveal_strlit("puts");
        reveal_strlit("exit");
        assert(puts_name() != exit_name()) by {
            assert(puts_name()[0] != exit_name()[0]);
        }
        let sym = bad_call_symbol();
        let j1 = Inst::SymbolAddr { dst: nv + 2, sym: sym };
        let j2 = Inst::Iconst { dst: nv + 3, imm: BAD_CALL_EXIT_CODE };
        let j3 = Inst::CallForeign { dst: nv + 4, func: puts_name(), arg: nv + 2 };
        let j4 = Inst::CallForeign { dst: nv + 5, func: exit_name(), arg: nv + 3 };
        assert(g.blocks[eb as int].insts =~= seq![j1, j2, j3, j4]);
        assert(seq![j1, j2, j3, j4].skip(1) =~= seq![j2, j3, j4]);
        assert(seq![j2, j3, j4].skip(1) =~= seq![j3, j4]);
        assert(seq![j3, j4].skip(1) =~= seq![j4]);
        let env3 = env2.insert(nv + 2, AbsVal::SymAddr(sym)).insert(
            nv + 3,
            AbsVal::Word(BAD_CALL_EXIT_CODE),
        );
        assert(env_sym(env3, nv + 2) == Some(sym));
        let env4 = env3.insert(nv + 4, AbsVal::Opaque);
        assert(env_word(env4, nv + 3) == Some(BAD_CALL_EXIT_CODE));
        assert(run_insts(g.blocks[eb as int].insts.skip(0), env2, out) == (SegResult::Exited {
            code: BAD_CALL_EXIT_CODE,
            out: out.push(sym),
        }));
        assert(run_from(g, eb, 0, env2, out, 0) == (RunResult::Exited {
            code: BAD_CALL_EXIT_CODE,
            out: out.push(sym),
        }));
    }
}

} // verus!
