//! Tasks: resumable per-cycle behaviors, written as small op programs.
//!
//! A module's per-cycle behavior is a sequence of [`Op`]s over task-local
//! value slots. The engine polls a task by running its ops in order; a
//! sample of an undriven wire suspends the task at its current op, to be
//! re-polled after other tasks have run. The exact meaning of polling is
//! given by the spec-level interpreter [`spec_poll_from`], which every
//! executable poll is proved to follow.

use vstd::prelude::*;

use crate::engine::{EngineErr, EngineState};
use crate::register::{
    spec_peek_register, spec_stage_register, RegisterId, RegisterState, StageOutcome, SyncDriveFuture,
    SyncFuture,
};
use crate::value::{spec_add_values, add_values, spec_tag_of, tag_of, TypeTag, Value};
use crate::wire::{
    spec_peek_wire, spec_write_wire, AssignFuture, CombDriveFuture, CombFuture, WireState,
    WriteOutcome,
};

verus! {

/// The source of a datum in a task body: an immediate value or a
/// task-local slot filled by an earlier sample.
#[derive(Clone, Copy, PartialEq, Eq, Structural, Debug)]
pub enum Operand {
    Lit(Value),
    Slot(usize),
}

/// One step of a per-cycle task body.
///
/// The five suspension primitives carry their pending state in the future
/// types of the wire and register modules; the remaining ops give bodies
/// enough expressive power for combinational logic: wrapping addition,
/// a forward-only conditional skip, and sampling or driving a register
/// picked from a bank by a computed index.
#[derive(Debug)]
pub enum Op {
    /// Sample a wire into a slot; suspends while the wire is undriven.
    SampleWire(CombFuture),
    /// Drive a wire; always ready, conflicts are fatal.
    DriveWire(CombDriveFuture),
    /// Drive a wire with another wire's value; suspends while the source
    /// is undriven.
    AssignWire(AssignFuture),
    /// Sample a register's current value into a slot; always ready.
    SampleRegister(SyncFuture),
    /// Stage a register's next value; always ready, conflicts are fatal.
    DriveRegister(SyncDriveFuture),
    /// Sample the register `bank[index]` into a slot.
    SampleRegisterAt { bank: Vec<RegisterId>, index: Operand, slot: usize },
    /// Stage the next value of the register `bank[index]`.
    DriveRegisterAt { bank: Vec<RegisterId>, index: Operand, data: Operand },
    /// Store the wrapping sum of two same-typed numeric operands in a slot.
    Add { slot: usize, a: Operand, b: Operand },
    /// Skip the following `count` ops unless `cond` holds a true boolean.
    SkipUnless { cond: Operand, count: usize },
}

/// The task-local slots after storing `v` at `slot`, growing the file with
/// empty slots as needed.
pub open spec fn spec_store_slot(locals: Seq<Option<Value>>, slot: int, v: Value) -> Seq<
    Option<Value>,
> {
    let padded = if slot < locals.len() {
        locals
    } else {
        locals + Seq::new((slot + 1 - locals.len()) as nat, |_i: int| None::<Value>)
    };
    padded.update(slot, Some(v))
}

/// Reading a task-local slot: defined only where an earlier store put a
/// value.
pub open spec fn spec_load_slot(locals: Seq<Option<Value>>, slot: int) -> Result<
    Value,
    EngineErr,
> {
    if 0 <= slot < locals.len() {
        match locals[slot] {
            Some(v) => Ok(v),
            None => Err(EngineErr::UndefinedSlot { slot: slot as usize }),
        }
    } else {
        Err(EngineErr::UndefinedSlot { slot: slot as usize })
    }
}

/// The value an operand denotes under the given slots.
pub open spec fn spec_operand(locals: Seq<Option<Value>>, o: Operand) -> Result<
    Value,
    EngineErr,
> {
    match o {
        Operand::Lit(v) => Ok(v),
        Operand::Slot(s) => spec_load_slot(locals, s as int),
    }
}

/// What the interpreter does after an op that did not fail: move on past
/// `skip` additional ops, or suspend at the current op.
#[derive(Clone, Copy, PartialEq, Eq, Structural, Debug)]
pub enum OpAction {
    Advance { skip: usize, wrote: bool },
    Block,
}

/// The spec-level effect of executing one op against the signal state.
pub struct OpEffect {
    pub wires: Seq<WireState>,
    pub regs: Seq<RegisterState>,
    pub locals: Seq<Option<Value>>,
    pub outcome: Result<OpAction, EngineErr>,
}

/// Effect helper: nothing changes, the interpreter takes `outcome`.
pub open spec fn op_unchanged(
    wires: Seq<WireState>,
    regs: Seq<RegisterState>,
    locals: Seq<Option<Value>>,
    outcome: Result<OpAction, EngineErr>,
) -> OpEffect {
    OpEffect { wires, regs, locals, outcome }
}

/// Effect of storing `v` at `slot` and advancing, shared by the sample
/// ops. A slot index at the very top of the address space cannot back a
/// slot file in memory and is rejected.
pub open spec fn op_store_and_advance(
    wires: Seq<WireState>,
    regs: Seq<RegisterState>,
    locals: Seq<Option<Value>>,
    slot: usize,
    v: Value,
) -> OpEffect {
    if slot == usize::MAX {
        op_unchanged(wires, regs, locals, Err(EngineErr::UndefinedSlot { slot }))
    } else {
        OpEffect {
            wires,
            regs,
            locals: spec_store_slot(locals, slot as int, v),
            outcome: Ok(OpAction::Advance { skip: 0, wrote: false }),
        }
    }
}

/// Effect of driving wire `w` of the future with value `v`, shared by the
/// drive and assign ops.
pub open spec fn op_drive_wire(
    wires: Seq<WireState>,
    regs: Seq<RegisterState>,
    locals: Seq<Option<Value>>,
    w: crate::wire::WireId,
    v: Value,
) -> OpEffect {
    let (r, wires2) = spec_write_wire(wires, w, v);
    match r {
        Err(e) => op_unchanged(wires, regs, locals, Err(e)),
        Ok(WriteOutcome::Conflict(prev)) => op_unchanged(
            wires,
            regs,
            locals,
            Err(EngineErr::WireConflict { id: w.spec_id(), prev, attempted: v }),
        ),
        Ok(WriteOutcome::Fresh) => OpEffect {
            wires: wires2,
            regs,
            locals,
            outcome: Ok(OpAction::Advance { skip: 0, wrote: true }),
        },
    }
}

/// Effect of staging register `r` with value `v`, shared by the register
/// drive ops.
pub open spec fn op_drive_register(
    wires: Seq<WireState>,
    regs: Seq<RegisterState>,
    locals: Seq<Option<Value>>,
    r: RegisterId,
    v: Value,
) -> OpEffect {
    let (sr, regs2) = spec_stage_register(regs, r, v);
    match sr {
        Err(e) => op_unchanged(wires, regs, locals, Err(e)),
        Ok(StageOutcome::Conflict(prev)) => op_unchanged(
            wires,
            regs,
            locals,
            Err(EngineErr::RegisterConflict { id: r.spec_id(), prev, attempted: v }),
        ),
        Ok(StageOutcome::Fresh) => OpEffect {
            wires,
            regs: regs2,
            locals,
            outcome: Ok(OpAction::Advance { skip: 0, wrote: false }),
        },
    }
}

/// Picking a register out of a bank by a computed index: the index must be
/// a `u32` within the bank's bounds.
pub open spec fn spec_bank_pick(
    bank: Seq<RegisterId>,
    locals: Seq<Option<Value>>,
    index: Operand,
) -> Result<RegisterId, EngineErr> {
    match spec_operand(locals, index) {
        Err(e) => Err(e),
        Ok(Value::U32(i)) => if (i as int) < bank.len() {
            Ok(bank[i as int])
        } else {
            Err(EngineErr::BadIndex { index: i as usize, len: bank.len() as usize })
        },
        Ok(v) => Err(EngineErr::TypeMismatch { expected: TypeTag::U32, found: spec_tag_of(v) }),
    }
}

/// The meaning of one op: how it transforms the signal state and the
/// task-local slots, and whether the task advances, suspends or fails.
pub open spec fn spec_exec_op(
    op: Op,
    wires: Seq<WireState>,
    regs: Seq<RegisterState>,
    locals: Seq<Option<Value>>,
) -> OpEffect {
    match op {
        Op::SampleWire(f) => match spec_peek_wire(wires, f.wire) {
            Err(e) => op_unchanged(wires, regs, locals, Err(e)),
            Ok(None) => op_unchanged(wires, regs, locals, Ok(OpAction::Block)),
            Ok(Some(v)) => op_store_and_advance(wires, regs, locals, f.slot, v),
        },
        Op::DriveWire(f) => match spec_operand(locals, f.data) {
            Err(e) => op_unchanged(wires, regs, locals, Err(e)),
            Ok(v) => op_drive_wire(wires, regs, locals, f.wire, v),
        },
        Op::AssignWire(f) => match spec_peek_wire(wires, f.src) {
            Err(e) => op_unchanged(wires, regs, locals, Err(e)),
            Ok(None) => op_unchanged(wires, regs, locals, Ok(OpAction::Block)),
            Ok(Some(v)) => op_drive_wire(wires, regs, locals, f.tgt, v),
        },
        Op::SampleRegister(f) => match spec_peek_register(regs, f.register) {
            Err(e) => op_unchanged(wires, regs, locals, Err(e)),
            Ok(v) => op_store_and_advance(wires, regs, locals, f.slot, v),
        },
        Op::DriveRegister(f) => match spec_operand(locals, f.data) {
            Err(e) => op_unchanged(wires, regs, locals, Err(e)),
            Ok(v) => op_drive_register(wires, regs, locals, f.register, v),
        },
        Op::SampleRegisterAt { bank, index, slot } => match spec_bank_pick(bank@, locals, index) {
            Err(e) => op_unchanged(wires, regs, locals, Err(e)),
            Ok(r) => match spec_peek_register(regs, r) {
                Err(e) => op_unchanged(wires, regs, locals, Err(e)),
                Ok(v) => op_store_and_advance(wires, regs, locals, slot, v),
            },
        },
        Op::DriveRegisterAt { bank, index, data } => match spec_bank_pick(bank@, locals, index) {
            Err(e) => op_unchanged(wires, regs, locals, Err(e)),
            Ok(r) => match spec_operand(locals, data) {
                Err(e) => op_unchanged(wires, regs, locals, Err(e)),
                Ok(v) => op_drive_register(wires, regs, locals, r, v),
            },
        },
        Op::Add { slot, a, b } => match spec_operand(locals, a) {
            Err(e) => op_unchanged(wires, regs, locals, Err(e)),
            Ok(va) => match spec_operand(locals, b) {
                Err(e) => op_unchanged(wires, regs, locals, Err(e)),
                Ok(vb) => match spec_add_values(va, vb) {
                    Some(v) => op_store_and_advance(wires, regs, locals, slot, v),
                    None => op_unchanged(
                        wires,
                        regs,
                        locals,
                        Err(
                            EngineErr::TypeMismatch {
                                expected: spec_tag_of(va),
                                found: spec_tag_of(vb),
                            },
                        ),
                    ),
                },
            },
        },
        Op::SkipUnless { cond, count } => match spec_operand(locals, cond) {
            Err(e) => op_unchanged(wires, regs, locals, Err(e)),
            Ok(Value::Bool(b)) => op_unchanged(
                wires,
                regs,
                locals,
                Ok(OpAction::Advance { skip: if b { 0 } else { count }, wrote: false }),
            ),
            Ok(v) => op_unchanged(
                wires,
                regs,
                locals,
                Err(EngineErr::TypeMismatch { expected: TypeTag::Bool, found: spec_tag_of(v) }),
            ),
        },
    }
}

/// The mathematical state of a task: its debug name, its body, the index
/// of the op it stands at, and its local slots.
pub struct TaskModel {
    pub name: &'static str,
    pub ops: Seq<Op>,
    pub pc: int,
    pub locals: Seq<Option<Value>>,
}

/// A task stands at or before the end of its body.
pub open spec fn task_model_wf(t: TaskModel) -> bool {
    0 <= t.pc <= t.ops.len()
}

/// What one poll of a task reports: whether the task completed, and
/// whether it freshly drove at least one wire during this poll.
#[derive(Clone, Copy, PartialEq, Eq, Structural, Debug)]
pub struct PollStatus {
    pub completed: bool,
    pub wrote_wire: bool,
}

/// The spec-level result of polling a task: the task afterwards, the
/// signal state afterwards, and the poll's report.
pub struct PollModel {
    pub task: TaskModel,
    pub wires: Seq<WireState>,
    pub regs: Seq<RegisterState>,
    pub result: Result<PollStatus, EngineErr>,
}

/// The meaning of polling a task from its current op: ops run in order
/// until one suspends, one fails, or the body ends. `wrote` accumulates
/// whether any wire was freshly driven.
pub open spec fn spec_poll_from(
    t: TaskModel,
    wires: Seq<WireState>,
    regs: Seq<RegisterState>,
    wrote: bool,
) -> PollModel
    decreases t.ops.len() - t.pc,
    when 0 <= t.pc <= t.ops.len()
{
    if t.pc >= t.ops.len() {
        PollModel {
            task: t,
            wires,
            regs,
            result: Ok(PollStatus { completed: true, wrote_wire: wrote }),
        }
    } else {
        let eff = spec_exec_op(t.ops[t.pc], wires, regs, t.locals);
        match eff.outcome {
            Err(e) => PollModel {
                task: TaskModel { locals: eff.locals, ..t },
                wires: eff.wires,
                regs: eff.regs,
                result: Err(e),
            },
            Ok(OpAction::Block) => PollModel {
                task: TaskModel { locals: eff.locals, ..t },
                wires: eff.wires,
                regs: eff.regs,
                result: Ok(PollStatus { completed: false, wrote_wire: wrote }),
            },
            Ok(OpAction::Advance { skip, wrote: w }) => {
                let np = if t.pc + 1 + skip > t.ops.len() {
                    t.ops.len() as int
                } else {
                    t.pc + 1 + skip
                };
                spec_poll_from(
                    TaskModel { pc: np, locals: eff.locals, ..t },
                    eff.wires,
                    eff.regs,
                    wrote || w,
                )
            },
        }
    }
}

/// Store `v` at `slot`, growing the slot file with empty slots as needed.
fn store_slot(locals: &mut Vec<Option<Value>>, slot: usize, v: Value)
    requires
        slot < usize::MAX,
    ensures
        final(locals)@ == spec_store_slot(old(locals)@, slot as int, v),
{
    while locals.len() <= slot
        invariant
            slot < usize::MAX,
            old(locals)@.len() <= locals@.len(),
            locals@.len() <= slot + 1 || locals@ == old(locals)@,
            locals@ == old(locals)@ + Seq::new(
                (locals@.len() - old(locals)@.len()) as nat,
                |_i: int| None::<Value>,
            ),
        decreases slot + 1 - locals.len(),
    {
        locals.push(None);
        proof {
            assert(locals@ =~= old(locals)@ + Seq::new(
                (locals@.len() - old(locals)@.len()) as nat,
                |_i: int| None::<Value>,
            ));
        }
    }
    locals[slot] = Some(v);
    proof {
        assert(locals@ =~= spec_store_slot(old(locals)@, slot as int, v));
    }
}

/// Read the value at `slot`, or the exact error when the slot is out of
/// range or never stored.
fn load_slot(locals: &Vec<Option<Value>>, slot: usize) -> (r: Result<Value, EngineErr>)
    ensures
        r == spec_load_slot(locals@, slot as int),
{
    if slot < locals.len() {
        match locals[slot] {
            Some(v) => Ok(v),
            None => Err(EngineErr::UndefinedSlot { slot }),
        }
    } else {
        Err(EngineErr::UndefinedSlot { slot })
    }
}

/// Evaluate an operand against the slot file.
fn eval_operand(locals: &Vec<Option<Value>>, o: &Operand) -> (r: Result<Value, EngineErr>)
    ensures
        r == spec_operand(locals@, *o),
{
    match o {
        Operand::Lit(v) => Ok(*v),
        Operand::Slot(s) => load_slot(locals, *s),
    }
}

/// Store `v` at `slot` and advance, rejecting the one unrepresentable slot
/// index; the executable twin of [`op_store_and_advance`].
fn exec_store_and_advance(
    locals: &mut Vec<Option<Value>>,
    slot: usize,
    v: Value,
) -> (r: Result<OpAction, EngineErr>)
    ensures
        ({
            let eff = op_store_and_advance(
                Seq::<WireState>::empty(),
                Seq::<RegisterState>::empty(),
                old(locals)@,
                slot,
                v,
            );
            r == eff.outcome && final(locals)@ == eff.locals
        }),
{
    if slot == usize::MAX {
        Err(EngineErr::UndefinedSlot { slot })
    } else {
        store_slot(locals, slot, v);
        Ok(OpAction::Advance { skip: 0, wrote: false })
    }
}

/// Pick a register out of a bank by a computed index.
fn bank_pick(
    bank: &Vec<RegisterId>,
    locals: &Vec<Option<Value>>,
    index: &Operand,
) -> (r: Result<RegisterId, EngineErr>)
    ensures
        r == spec_bank_pick(bank@, locals@, *index),
{
    match eval_operand(locals, index) {
        Err(e) => Err(e),
        Ok(Value::U32(i)) => {
            let iu = i as usize;
            if iu < bank.len() {
                Ok(bank[iu])
            } else {
                Err(EngineErr::BadIndex { index: iu, len: bank.len() })
            }
        },
        Ok(v) => Err(EngineErr::TypeMismatch { expected: TypeTag::U32, found: tag_of(&v) }),
    }
}

/// Execute one op against the signal state and the task's slot file; the
/// executable twin of [`spec_exec_op`].
fn exec_op(op: &Op, state: &mut EngineState, locals: &mut Vec<Option<Value>>) -> (r: Result<
    OpAction,
    EngineErr,
>)
    ensures
        ({
            let eff = spec_exec_op(*op, old(state).wires@, old(state).registers@, old(locals)@);
            r == eff.outcome && final(state).wires@ == eff.wires && final(state).registers@
                == eff.regs && final(locals)@ == eff.locals
        }),
        old(state).wf() ==> final(state).wf(),
{
    match op {
        Op::SampleWire(f) => match state.wires.peek_wire(f.wire) {
            Err(e) => Err(e),
            Ok(None) => Ok(OpAction::Block),
            Ok(Some(v)) => exec_store_and_advance(locals, f.slot, v),
        },
        Op::DriveWire(f) => match eval_operand(locals, &f.data) {
            Err(e) => Err(e),
            Ok(v) => match state.wires.write(f.wire, v) {
                Err(e) => Err(e),
                Ok(WriteOutcome::Conflict(prev)) => Err(
                    EngineErr::WireConflict { id: f.wire.id(), prev, attempted: v },
                ),
                Ok(WriteOutcome::Fresh) => Ok(OpAction::Advance { skip: 0, wrote: true }),
            },
        },
        Op::AssignWire(f) => match state.wires.peek_wire(f.src) {
            Err(e) => Err(e),
            Ok(None) => Ok(OpAction::Block),
            Ok(Some(v)) => match state.wires.write(f.tgt, v) {
                Err(e) => Err(e),
                Ok(WriteOutcome::Conflict(prev)) => Err(
                    EngineErr::WireConflict { id: f.tgt.id(), prev, attempted: v },
                ),
                Ok(WriteOutcome::Fresh) => Ok(OpAction::Advance { skip: 0, wrote: true }),
            },
        },
        Op::SampleRegister(f) => match state.registers.peek_register(f.register) {
            Err(e) => Err(e),
            Ok(v) => exec_store_and_advance(locals, f.slot, v),
        },
        Op::DriveRegister(f) => match eval_operand(locals, &f.data) {
            Err(e) => Err(e),
            Ok(v) => match state.registers.stage(f.register, v) {
                Err(e) => Err(e),
                Ok(StageOutcome::Conflict(prev)) => Err(
                    EngineErr::RegisterConflict { id: f.register.id(), prev, attempted: v },
                ),
                Ok(StageOutcome::Fresh) => Ok(OpAction::Advance { skip: 0, wrote: false }),
            },
        },
        Op::SampleRegisterAt { bank, index, slot } => match bank_pick(bank, locals, index) {
            Err(e) => Err(e),
            Ok(reg) => match state.registers.peek_register(reg) {
                Err(e) => Err(e),
                Ok(v) => exec_store_and_advance(locals, *slot, v),
            },
        },
        Op::DriveRegisterAt { bank, index, data } => match bank_pick(bank, locals, index) {
            Err(e) => Err(e),
            Ok(reg) => match eval_operand(locals, data) {
                Err(e) => Err(e),
                Ok(v) => match state.registers.stage(reg, v) {
                    Err(e) => Err(e),
                    Ok(StageOutcome::Conflict(prev)) => Err(
                        EngineErr::RegisterConflict { id: reg.id(), prev, attempted: v },
                    ),
                    Ok(StageOutcome::Fresh) => Ok(OpAction::Advance { skip: 0, wrote: false }),
                },
            },
        },
        Op::Add { slot, a, b } => match eval_operand(locals, a) {
            Err(e) => Err(e),
            Ok(va) => match eval_operand(locals, b) {
                Err(e) => Err(e),
                Ok(vb) => match add_values(&va, &vb) {
                    Some(v) => exec_store_and_advance(locals, *slot, v),
                    None => Err(
                        EngineErr::TypeMismatch { expected: tag_of(&va), found: tag_of(&vb) },
                    ),
                },
            },
        },
        Op::SkipUnless { cond, count } => match eval_operand(locals, cond) {
            Err(e) => Err(e),
            Ok(Value::Bool(b)) => Ok(
                OpAction::Advance { skip: if b { 0 } else { *count }, wrote: false },
            ),
            Ok(v) => Err(EngineErr::TypeMismatch { expected: TypeTag::Bool, found: tag_of(&v) }),
        },
    }
}

/// Container for a resumable task being executed by an
/// [`Engine`](crate::engine::Engine): a debug name, the op body, the
/// op the task stands at, and its local slots.
pub struct EngineTask {
    /// Human-readable description of the task.
    name: &'static str,
    /// The per-cycle body, as a sequence of ops.
    ops: Vec<Op>,
    /// The op the task stands at; equals the body length once completed.
    pc: usize,
    /// Task-local value slots filled by samples.
    locals: Vec<Option<Value>>,
}

impl View for EngineTask {
    type V = TaskModel;

    closed spec fn view(&self) -> TaskModel {
        TaskModel { name: self.name, ops: self.ops@, pc: self.pc as int, locals: self.locals@ }
    }
}

impl EngineTask {
    /// A task stands at or before the end of its body.
    pub open spec fn wf(&self) -> bool {
        task_model_wf(self@)
    }

    /// A fresh task at the start of `ops` with empty slots.
    pub fn new(name: &'static str, ops: Vec<Op>) -> (t: Self)
        ensures
            t@ == (TaskModel {
                name,
                ops: ops@,
                pc: 0,
                locals: Seq::<Option<Value>>::empty(),
            }),
            t.wf(),
    {
        EngineTask { name, ops, pc: 0, locals: Vec::new() }
    }

    /// The task's debug name.
    pub fn name(&self) -> (r: &'static str)
        ensures
            r == self@.name,
    {
        self.name
    }

    /// Whether the task has run its whole body.
    pub fn is_completed(&self) -> (r: bool)
        ensures
            r == (self@.pc >= self@.ops.len()),
    {
        self.pc >= self.ops.len()
    }

    /// Poll the task against the signal state: run ops from the current
    /// position until one suspends, one fails, or the body ends. Follows
    /// [`spec_poll_from`] exactly.
    pub fn poll(&mut self, state: &mut EngineState) -> (r: Result<PollStatus, EngineErr>)
        requires
            old(self).wf(),
        ensures
            final(self).wf(),
            ({
                let m = spec_poll_from(old(self)@, old(state).wires@, old(state).registers@, false);
                r == m.result && final(self)@ == m.task && final(state).wires@ == m.wires
                    && final(state).registers@ == m.regs
            }),
            old(state).wf() ==> final(state).wf(),
    {
        let ghost m0 = spec_poll_from(old(self)@, old(state).wires@, old(state).registers@, false);
        let mut wrote: bool = false;
        loop
            invariant
                self.wf(),
                self@.name == old(self)@.name,
                self@.ops == old(self)@.ops,
                spec_poll_from(self@, state.wires@, state.registers@, wrote) == m0,
                m0 == spec_poll_from(old(self)@, old(state).wires@, old(state).registers@, false),
                old(state).wf() ==> state.wf(),
            decreases self@.ops.len() - self@.pc,
        {
            if self.pc >= self.ops.len() {
                return Ok(PollStatus { completed: true, wrote_wire: wrote });
            }
            let op = &self.ops[self.pc];
            match exec_op(op, state, &mut self.locals) {
                Err(e) => {
                    return Err(e);
                },
                Ok(OpAction::Block) => {
                    return Ok(PollStatus { completed: false, wrote_wire: wrote });
                },
                Ok(OpAction::Advance { skip, wrote: w }) => {
                    let remaining = self.ops.len() - self.pc - 1;
                    let s = if skip > remaining {
                        remaining
                    } else {
                        skip
                    };
                    self.pc = self.pc + 1 + s;
                    wrote = wrote || w;
                },
            }
        }
    }
}

/// Wires are monotone within a cycle: tags never change, and a driven wire
/// keeps its value. The only permitted transition is undriven to driven.
pub open spec fn wires_monotone(a: Seq<WireState>, b: Seq<WireState>) -> bool {
    b.len() == a.len() && forall|i: int|
        0 <= i < a.len() ==> ((#[trigger] b[i]).tag == a[i].tag && (a[i].data is Some ==> b[i]
            == a[i]))
}

/// Registers are stable within a cycle: tags, current values and reset
/// values never change, and a staged pending value keeps its value. Only a
/// commit at the cycle boundary moves a pending value into the current one.
pub open spec fn regs_cycle_stable(a: Seq<RegisterState>, b: Seq<RegisterState>) -> bool {
    b.len() == a.len() && forall|i: int|
        0 <= i < a.len() ==> ((#[trigger] b[i]).tag == a[i].tag && b[i].data == a[i].data
            && b[i].reset_data == a[i].reset_data && (a[i].next is Some ==> b[i].next
            == a[i].next))
}

/// A single wire write keeps wires monotone: it can only fill an undriven
/// cell.
pub proof fn lemma_write_wire_monotone(cells: Seq<WireState>, w: crate::wire::WireId, v: Value)
    ensures
        wires_monotone(cells, spec_write_wire(cells, w, v).1),
{
}

/// A single register stage keeps registers stable: it can only fill an
/// empty pending slot.
pub proof fn lemma_stage_register_stable(cells: Seq<RegisterState>, r: RegisterId, v: Value)
    ensures
        regs_cycle_stable(cells, spec_stage_register(cells, r, v).1),
{
}

/// One op keeps wires monotone and registers stable.
pub proof fn lemma_exec_op_monotone(
    op: Op,
    wires: Seq<WireState>,
    regs: Seq<RegisterState>,
    locals: Seq<Option<Value>>,
)
    ensures
        ({
            let eff = spec_exec_op(op, wires, regs, locals);
            wires_monotone(wires, eff.wires) && regs_cycle_stable(regs, eff.regs)
        }),
{
    match op {
        Op::SampleWire(_) => {},
        Op::DriveWire(f) => match spec_operand(locals, f.data) {
            Err(_) => {},
            Ok(v) => lemma_write_wire_monotone(wires, f.wire, v),
        },
        Op::AssignWire(f) => match spec_peek_wire(wires, f.src) {
            Err(_) => {},
            Ok(None) => {},
            Ok(Some(v)) => lemma_write_wire_monotone(wires, f.tgt, v),
        },
        Op::SampleRegister(_) => {},
        Op::DriveRegister(f) => match spec_operand(locals, f.data) {
            Err(_) => {},
            Ok(v) => lemma_stage_register_stable(regs, f.register, v),
        },
        Op::SampleRegisterAt { .. } => {},
        Op::DriveRegisterAt { bank, index, data } => match spec_bank_pick(bank@, locals, index) {
            Err(_) => {},
            Ok(r) => match spec_operand(locals, data) {
                Err(_) => {},
                Ok(v) => lemma_stage_register_stable(regs, r, v),
            },
        },
        Op::Add { .. } => {},
        Op::SkipUnless { .. } => {},
    }
}

/// A whole poll keeps wires monotone and registers stable.
pub proof fn lemma_poll_monotone(
    t: TaskModel,
    wires: Seq<WireState>,
    regs: Seq<RegisterState>,
    wrote: bool,
)
    requires
        task_model_wf(t),
    ensures
        ({
            let m = spec_poll_from(t, wires, regs, wrote);
            wires_monotone(wires, m.wires) && regs_cycle_stable(regs, m.regs)
        }),
    decreases t.ops.len() - t.pc,
{
    if t.pc >= t.ops.len() {
    } else {
        let eff = spec_exec_op(t.ops[t.pc], wires, regs, t.locals);
        lemma_exec_op_monotone(t.ops[t.pc], wires, regs, t.locals);
        match eff.outcome {
            Err(_) => {},
            Ok(OpAction::Block) => {},
            Ok(OpAction::Advance { skip, wrote: w }) => {
                let np = if t.pc + 1 + skip > t.ops.len() {
                    t.ops.len() as int
                } else {
                    t.pc + 1 + skip
                };
                lemma_poll_monotone(
                    TaskModel { pc: np, locals: eff.locals, ..t },
                    eff.wires,
                    eff.regs,
                    wrote || w,
                );
            },
        }
    }
}

/// Executing one op only ever fails with a signal-plane or task-body
/// error; the scheduler-level verdicts never arise from an op.
pub proof fn lemma_exec_op_no_stall_verdict(
    op: Op,
    wires: Seq<WireState>,
    regs: Seq<RegisterState>,
    locals: Seq<Option<Value>>,
)
    ensures
        ({
            let eff = spec_exec_op(op, wires, regs, locals);
            match eff.outcome {
                Err(e) => e != EngineErr::StallDeadlock && e != EngineErr::StallLimit && e
                    != EngineErr::ReentrantSchedule,
                Ok(_) => true,
            }
        }),
{
}

/// A poll's verdict is about the polled ops alone: the scheduler-level
/// verdicts never arise from polling a task.
pub proof fn lemma_poll_no_stall_verdict(
    t: TaskModel,
    wires: Seq<WireState>,
    regs: Seq<RegisterState>,
    wrote: bool,
)
    requires
        task_model_wf(t),
    ensures
        ({
            let m = spec_poll_from(t, wires, regs, wrote);
            &&& m.result != Err::<PollStatus, EngineErr>(EngineErr::StallDeadlock)
            &&& m.result != Err::<PollStatus, EngineErr>(EngineErr::StallLimit)
            &&& m.result != Err::<PollStatus, EngineErr>(EngineErr::ReentrantSchedule)
        }),
    decreases t.ops.len() - t.pc,
{
    if t.pc >= t.ops.len() {
    } else {
        let eff = spec_exec_op(t.ops[t.pc], wires, regs, t.locals);
        lemma_exec_op_no_stall_verdict(t.ops[t.pc], wires, regs, t.locals);
        match eff.outcome {
            Err(_) => {},
            Ok(OpAction::Block) => {},
            Ok(OpAction::Advance { skip, wrote: w }) => {
                let np = if t.pc + 1 + skip > t.ops.len() {
                    t.ops.len() as int
                } else {
                    t.pc + 1 + skip
                };
                lemma_poll_no_stall_verdict(
                    TaskModel { pc: np, locals: eff.locals, ..t },
                    eff.wires,
                    eff.regs,
                    wrote || w,
                );
            },
        }
    }
}

/// Polling preserves a task's identity: its name and body never change,
/// and it still stands inside its body.
pub proof fn lemma_poll_preserves_task(
    t: TaskModel,
    wires: Seq<WireState>,
    regs: Seq<RegisterState>,
    wrote: bool,
)
    requires
        task_model_wf(t),
    ensures
        ({
            let m = spec_poll_from(t, wires, regs, wrote);
            m.task.name == t.name && m.task.ops == t.ops && task_model_wf(m.task)
        }),
    decreases t.ops.len() - t.pc,
{
    if t.pc >= t.ops.len() {
    } else {
        let eff = spec_exec_op(t.ops[t.pc], wires, regs, t.locals);
        match eff.outcome {
            Err(_) => {},
            Ok(OpAction::Block) => {},
            Ok(OpAction::Advance { skip, wrote: w }) => {
                let np = if t.pc + 1 + skip > t.ops.len() {
                    t.ops.len() as int
                } else {
                    t.pc + 1 + skip
                };
                lemma_poll_preserves_task(
                    TaskModel { pc: np, locals: eff.locals, ..t },
                    eff.wires,
                    eff.regs,
                    wrote || w,
                );
            },
        }
    }
}

} // verus!
