//! A specified interface to cranelift's function builder.
//!
//! The code generator works through [`Cfg`], which owns a cranelift
//! `FunctionBuilder` together with a ghost [`ProgModel`]: a ledger of every
//! block created, every instruction and branch emitted, every predecessor
//! edge recorded and every seal. Each method emits exactly one thing through
//! cranelift and states in its contract how the ledger grows; the verified
//! emitters in [`crate::fatal`] and the semantic proofs in
//! [`crate::runtime`] are stated entirely over this ledger.
//!
//! The sealing discipline of the underlying builder is captured as
//! preconditions: a branch may not target a sealed block (its predecessor set
//! would grow after being declared complete), a block is sealed at most once,
//! and instructions go only into a block that no terminator has filled.

use vstd::prelude::*;

use cranelift::codegen::ir::condcodes::IntCC;
use cranelift::codegen::ir::types;
use cranelift::codegen::ir::{
    AbiParam, Block, ExtFuncData, ExternalName, GlobalValueData, Signature, Value,
};
use cranelift::codegen::isa::CallConv;
use cranelift::frontend::FunctionBuilder;
use cranelift::prelude::InstBuilder;

verus! {

#[verifier::external_type_specification]
#[verifier::external_body]
pub struct ExFunctionBuilder<'a>(FunctionBuilder<'a>);

#[verifier::external_type_specification]
#[verifier::external_body]
pub struct ExBlock(Block);

#[verifier::external_type_specification]
#[verifier::external_body]
pub struct ExValue(Value);

/// One emitted instruction, as the ledger records it. Every instruction
/// defines exactly one SSA value, named by its `dst` index.
pub enum Inst {
    /// Bitwise AND of an SSA value with an immediate.
    BandImm { dst: nat, src: nat, imm: i64 },
    /// Equality comparison with an immediate; defines 1 when equal, else 0.
    IcmpEqImm { dst: nat, src: nat, imm: i64 },
    /// An integer constant.
    Iconst { dst: nat, imm: i64 },
    /// The address of a named data-section symbol, resolved at link time.
    SymbolAddr { dst: nat, sym: Seq<char> },
    /// A call to a named runtime-provided function with one argument.
    CallForeign { dst: nat, func: Seq<char>, arg: nat },
}

/// A block's terminator, as the ledger records it.
pub enum Term {
    /// Unconditional jump.
    Jump { to: nat },
    /// Two-target conditional branch on an SSA value.
    Brif { cond: nat, nonzero_to: nat, zero_to: nat },
}

/// The ledger's record of one basic block.
pub struct BlockModel {
    /// The instructions emitted into the block, in order.
    pub insts: Seq<Inst>,
    /// The terminator, once one has been emitted; a block with a terminator
    /// is filled and takes no further instructions.
    pub term: Option<Term>,
    /// Whether the block's predecessor set has been declared complete.
    pub sealed: bool,
    /// The source blocks of the recorded incoming edges, in order added.
    pub preds: Seq<nat>,
}

/// The ledger: every block of the function under construction, the cursor
/// block that new instructions go into, and the next fresh SSA value index.
pub struct ProgModel {
    pub blocks: Seq<BlockModel>,
    pub cur: nat,
    pub next_val: nat,
}

/// A block that has just been created: empty, unsealed, no predecessors.
pub open spec fn empty_block() -> BlockModel {
    BlockModel { insts: Seq::empty(), term: None, sealed: false, preds: Seq::empty() }
}

/// The ledger after appending one instruction to the cursor block; the
/// instruction's destination consumes the next fresh SSA value index.
pub open spec fn push_inst(m: ProgModel, i: Inst) -> ProgModel {
    ProgModel {
        blocks: m.blocks.update(
            m.cur as int,
            BlockModel { insts: m.blocks[m.cur as int].insts.push(i), ..m.blocks[m.cur as int] },
        ),
        cur: m.cur,
        next_val: m.next_val + 1,
    }
}

/// The ledger after terminating the cursor block.
pub open spec fn with_term(m: ProgModel, t: Term) -> ProgModel {
    ProgModel {
        blocks: m.blocks.update(
            m.cur as int,
            BlockModel { term: Some(t), ..m.blocks[m.cur as int] },
        ),
        ..m
    }
}

/// The ledger after recording one incoming edge `from -> target`.
pub open spec fn with_pred(m: ProgModel, target: nat, from: nat) -> ProgModel {
    ProgModel {
        blocks: m.blocks.update(
            target as int,
            BlockModel {
                preds: m.blocks[target as int].preds.push(from),
                ..m.blocks[target as int]
            },
        ),
        ..m
    }
}

/// The ledger after creating one more empty block.
pub open spec fn with_new_block(m: ProgModel) -> ProgModel {
    ProgModel { blocks: m.blocks.push(empty_block()), ..m }
}

/// The ledger with the cursor moved to block `i`.
pub open spec fn with_cur(m: ProgModel, i: nat) -> ProgModel {
    ProgModel { cur: i, ..m }
}

/// The ledger after declaring block `i`'s predecessor set complete.
pub open spec fn with_seal(m: ProgModel, i: nat) -> ProgModel {
    ProgModel {
        blocks: m.blocks.update(i as int, BlockModel { sealed: true, ..m.blocks[i as int] }),
        ..m
    }
}

/// The cursor block is still open: no terminator has filled it.
pub open spec fn cur_open(m: ProgModel) -> bool {
    m.blocks[m.cur as int].term is None
}

/// An SSA value of the function under construction, paired with the ledger
/// index under which the emitting instruction recorded it.
pub struct SsaVal {
    pub val: Value,
    pub id: Ghost<nat>,
}

/// The in-progress control-flow graph: a cranelift function builder and the
/// ledger of what has been emitted through it.
pub struct Cfg<'a> {
    builder: FunctionBuilder<'a>,
    blocks: Vec<Block>,
    prog: Ghost<ProgModel>,
}

impl<'a> Cfg<'a> {
    /// The ledger.
    pub closed spec fn model(self) -> ProgModel {
        self.prog@
    }

    /// The ledger lists exactly the blocks the builder knows.
    pub closed spec fn blocks_synced(self) -> bool {
        self.blocks@.len() == self.prog@.blocks.len()
    }

    /// The ledger lists exactly the blocks the builder knows, and its cursor
    /// names one of them.
    pub open spec fn wf(self) -> bool {
        &&& self.blocks_synced()
        &&& self.model().cur < self.model().blocks.len()
    }

    /// Opens a graph over a fresh cranelift function: one empty entry block,
    /// which the cursor starts in.
    ///
    /// Relies on `FunctionBuilder::create_block` and
    /// `FunctionBuilder::switch_to_block`: a new block is empty and the
    /// builder then inserts at its end.
    #[verifier::external_body]
    pub fn new(builder: FunctionBuilder<'a>) -> (c: Cfg<'a>)
        ensures
            c.wf(),
            c.model() == (ProgModel { blocks: seq![empty_block()], cur: 0, next_val: 0 }),
    {
        let mut builder = builder;
        let entry = builder.create_block();
        builder.switch_to_block(entry);
        Cfg { builder, blocks: vec![entry], prog: Ghost(arbitrary()) }
    }

    /// How many blocks the graph holds.
    pub fn block_count(&self) -> (n: usize)
        requires
            self.wf(),
        ensures
            n == self.model().blocks.len(),
    {
        self.blocks.len()
    }

    /// Creates a new empty block and returns its index. The cursor stays
    /// where it is.
    ///
    /// Relies on `FunctionBuilder::create_block`: the block starts empty,
    /// unsealed and with no predecessors.
    #[verifier::external_body]
    pub fn create_block(&mut self) -> (i: usize)
        requires
            old(self).wf(),
        ensures
            final(self).wf(),
            i == old(self).model().blocks.len(),
            final(self).model() == with_new_block(old(self).model()),
    {
        let b = self.builder.create_block();
        self.blocks.push(b);
        self.blocks.len() - 1
    }

    /// Moves the cursor to block `i`, where instructions are then inserted.
    ///
    /// Relies on `FunctionBuilder::switch_to_block`, which demands that the
    /// block being left is pristine or filled and that the target block is
    /// not yet filled.
    #[verifier::external_body]
    pub fn switch_to_block(&mut self, i: usize)
        requires
            old(self).wf(),
            i < old(self).model().blocks.len(),
            old(self).model().blocks[i as int].term is None,
            old(self).model().blocks[old(self).model().cur as int].term is Some
                || old(self).model().blocks[old(self).model().cur as int].insts.len() == 0,
        ensures
            final(self).wf(),
            final(self).model() == with_cur(old(self).model(), i as nat),
    {
        self.builder.switch_to_block(self.blocks[i]);
    }

    /// Declares block `i`'s predecessor set complete. A block is sealed at
    /// most once, and a sealed block may not gain further predecessors.
    ///
    /// Relies on `FunctionBuilder::seal_block`.
    #[verifier::external_body]
    pub fn seal_block(&mut self, i: usize)
        requires
            old(self).wf(),
            i < old(self).model().blocks.len(),
            !old(self).model().blocks[i as int].sealed,
        ensures
            final(self).wf(),
            final(self).model() == with_seal(old(self).model(), i as nat),
    {
        self.builder.seal_block(self.blocks[i]);
    }

    /// Emits a bitwise AND of `x` with an immediate into the cursor block.
    ///
    /// Relies on cranelift's `band_imm_s` builder: the result word is the
    /// bitwise AND of the operand and the sign-extended immediate.
    #[verifier::external_body]
    pub fn band_imm(&mut self, x: &SsaVal, imm: i64) -> (r: SsaVal)
        requires
            old(self).wf(),
            cur_open(old(self).model()),
            x.id@ < old(self).model().next_val,
        ensures
            final(self).wf(),
            r.id@ == old(self).model().next_val,
            final(self).model() == push_inst(
                old(self).model(),
                Inst::BandImm { dst: old(self).model().next_val, src: x.id@, imm: imm },
            ),
    {
        let v = self.builder.ins().band_imm_s(x.val, imm);
        SsaVal { val: v, id: Ghost(arbitrary()) }
    }

    /// Emits an equality comparison of `x` against an immediate into the
    /// cursor block; the result is 1 when equal and 0 otherwise.
    ///
    /// Relies on cranelift's `icmp_imm_s` builder (the immediate is
    /// sign-extended) with the `Equal` condition.
    #[verifier::external_body]
    pub fn icmp_eq_imm(&mut self, x: &SsaVal, imm: i64) -> (r: SsaVal)
        requires
            old(self).wf(),
            cur_open(old(self).model()),
            x.id@ < old(self).model().next_val,
        ensures
            final(self).wf(),
            r.id@ == old(self).model().next_val,
            final(self).model() == push_inst(
                old(self).model(),
                Inst::IcmpEqImm { dst: old(self).model().next_val, src: x.id@, imm: imm },
            ),
    {
        let v = self.builder.ins().icmp_imm_s(IntCC::Equal, x.val, imm);
        SsaVal { val: v, id: Ghost(arbitrary()) }
    }

    /// Emits a 64-bit integer constant into the cursor block.
    ///
    /// Relies on cranelift's `iconst` instruction.
    #[verifier::external_body]
    pub fn iconst(&mut self, imm: i64) -> (r: SsaVal)
        requires
            old(self).wf(),
            cur_open(old(self).model()),
        ensures
            final(self).wf(),
            r.id@ == old(self).model().next_val,
            final(self).model() == push_inst(
                old(self).model(),
                Inst::Iconst { dst: old(self).model().next_val, imm: imm },
            ),
    {
        let v = self.builder.ins().iconst(types::I64, imm);
        SsaVal { val: v, id: Ghost(arbitrary()) }
    }

    /// Emits the address of the named data-section symbol into the cursor
    /// block. The name is resolved at link time, after code generation.
    ///
    /// Relies on `FunctionBuilder::create_global_value` with
    /// `GlobalValueData::Symbol` and cranelift's `symbol_value` instruction:
    /// the result is the address the linking environment gives the name.
    #[verifier::external_body]
    pub fn symbol_addr(&mut self, name: &str) -> (r: SsaVal)
        requires
            old(self).wf(),
            cur_open(old(self).model()),
        ensures
            final(self).wf(),
            r.id@ == old(self).model().next_val,
            final(self).model() == push_inst(
                old(self).model(),
                Inst::SymbolAddr { dst: old(self).model().next_val, sym: name@ },
            ),
    {
        let gv = self.builder.create_global_value(GlobalValueData::Symbol {
            name: ExternalName::testcase(name.as_bytes()),
            offset: 0i64.into(),
            colocated: false,
            tls: false,
        });
        let v = self.builder.ins().symbol_value(types::I64, gv);
        SsaVal { val: v, id: Ghost(arbitrary()) }
    }

    /// Emits a call to the named runtime-provided function with one word
    /// argument and one word result under the System V calling convention,
    /// into the cursor block. The callee is resolved by name in the linking
    /// environment.
    ///
    /// Relies on `FunctionBuilder::import_signature`,
    /// `FunctionBuilder::import_function` and cranelift's `call` instruction.
    #[verifier::external_body]
    pub fn call_foreign(&mut self, name: &str, arg: &SsaVal) -> (r: SsaVal)
        requires
            old(self).wf(),
            cur_open(old(self).model()),
            arg.id@ < old(self).model().next_val,
        ensures
            final(self).wf(),
            r.id@ == old(self).model().next_val,
            final(self).model() == push_inst(
                old(self).model(),
                Inst::CallForeign { dst: old(self).model().next_val, func: name@, arg: arg.id@ },
            ),
    {
        let mut sig = Signature::new(CallConv::SystemV);
        sig.params.push(AbiParam::new(types::I64));
        sig.returns.push(AbiParam::new(types::I64));
        let sigref = self.builder.import_signature(sig);
        let fref = self.builder.import_function(ExtFuncData {
            name: ExternalName::testcase(name.as_bytes()),
            signature: sigref,
            colocated: false,
            patchable: false,
        });
        let call = self.builder.ins().call(fref, &[arg.val]);
        let v = self.builder.inst_results(call)[0];
        SsaVal { val: v, id: Ghost(arbitrary()) }
    }

    /// Terminates the cursor block with a conditional branch: to block
    /// `nonzero` when `cond` is not zero, to block `zero` otherwise. Records
    /// the edge into `nonzero` first. Neither target may be sealed yet.
    ///
    /// Relies on cranelift's `brif` instruction.
    #[verifier::external_body]
    pub fn brif(&mut self, cond: &SsaVal, nonzero: usize, zero: usize)
        requires
            old(self).wf(),
            cur_open(old(self).model()),
            cond.id@ < old(self).model().next_val,
            nonzero < old(self).model().blocks.len(),
            zero < old(self).model().blocks.len(),
            !old(self).model().blocks[nonzero as int].sealed,
            !old(self).model().blocks[zero as int].sealed,
        ensures
            final(self).wf(),
            final(self).model() == with_pred(
                with_pred(
                    with_term(
                        old(self).model(),
                        Term::Brif {
                            cond: cond.id@,
                            nonzero_to: nonzero as nat,
                            zero_to: zero as nat,
                        },
                    ),
                    nonzero as nat,
                    old(self).model().cur,
                ),
                zero as nat,
                old(self).model().cur,
            ),
    {
        self.builder.ins().brif(cond.val, self.blocks[nonzero], &[], self.blocks[zero], &[]);
    }

    /// Terminates the cursor block with an unconditional jump to block `to`,
    /// which may not be sealed yet.
    ///
    /// Relies on cranelift's `jump` instruction.
    #[verifier::external_body]
    pub fn jump(&mut self, to: usize)
        requires
            old(self).wf(),
            cur_open(old(self).model()),
            to < old(self).model().blocks.len(),
            !old(self).model().blocks[to as int].sealed,
        ensures
            final(self).wf(),
            final(self).model() == with_pred(
                with_term(old(self).model(), Term::Jump { to: to as nat }),
                to as nat,
                old(self).model().cur,
            ),
    {
        self.builder.ins().jump(self.blocks[to], &[]);
    }
}

} // verus!
