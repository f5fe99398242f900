//! Types for representing simulated registers.
//!
//! A register is a stateful signal: its current value persists across
//! cycles, a drive stages a pending value at most once per cycle, and the
//! pending value is committed at the cycle boundary.

use vstd::prelude::*;

use crate::engine::EngineErr;
use crate::task::{Op, Operand};
use crate::value::{spec_tag_of, tag_of, SignalKind, TypeTag, Value};

verus! {

/// A token for a simulated register whose state is tracked by
/// [`EngineState`](crate::engine::EngineState). Register ids share an
/// independent namespace from wire ids.
#[derive(Clone, Copy, PartialEq, Eq, Structural, Debug)]
pub struct RegisterId {
    id: usize,
    tag: TypeTag,
}

impl RegisterId {
    /// The numeric identifier of the register this handle names.
    pub closed spec fn spec_id(self) -> usize {
        self.id
    }

    /// The value type tag carried by this handle.
    pub closed spec fn spec_tag(self) -> TypeTag {
        self.tag
    }

    /// Construct a handle. Used by the map allocator; a handle made by hand
    /// is only as good as the cell its id happens to name.
    pub fn new(id: usize, tag: TypeTag) -> (r: Self)
        ensures
            r.spec_id() == id,
            r.spec_tag() == tag,
    {
        RegisterId { id, tag }
    }

    /// The numeric identifier of this register.
    pub fn id(&self) -> (r: usize)
        ensures
            r == self.spec_id(),
    {
        self.id
    }

    /// The value type tag of this register.
    pub fn type_tag(&self) -> (r: TypeTag)
        ensures
            r == self.spec_tag(),
    {
        self.tag
    }

    /// The suspension primitive that samples this register's current value
    /// into local `slot`. Always ready.
    pub fn sample(&self, slot: usize) -> (op: Op)
        ensures
            op == Op::SampleRegister(SyncFuture { register: *self, slot }),
    {
        Op::SampleRegister(SyncFuture::from_signal(*self, slot))
    }

    /// The suspension primitive that stages `data` as this register's next
    /// value. Always ready; a second drive in the same cycle is a fatal
    /// conflict.
    pub fn drive(&self, data: Operand) -> (op: Op)
        ensures
            op == Op::DriveRegister(SyncDriveFuture { register: *self, data }),
    {
        Op::DriveRegister(SyncDriveFuture::for_signal(*self, data))
    }
}

/// The pending state of a synchronous read from a simulated register.
#[derive(Clone, Copy, PartialEq, Eq, Structural, Debug)]
pub struct SyncFuture {
    /// The register to sample.
    pub register: RegisterId,
    /// The task-local slot the sampled value lands in.
    pub slot: usize,
}

impl SyncFuture {
    /// A pending read of `register` into `slot`.
    pub fn from_signal(register: RegisterId, slot: usize) -> (f: Self)
        ensures
            f == (SyncFuture { register, slot }),
    {
        SyncFuture { register, slot }
    }
}

/// The pending state of a drive of a simulated register.
#[derive(Clone, Copy, PartialEq, Eq, Structural, Debug)]
pub struct SyncDriveFuture {
    /// The register to drive.
    pub register: RegisterId,
    /// Where the staged value comes from.
    pub data: Operand,
}

impl SyncDriveFuture {
    /// A pending drive of `register` with `data`.
    pub fn for_signal(register: RegisterId, data: Operand) -> (f: Self)
        ensures
            f == (SyncDriveFuture { register, data }),
    {
        SyncDriveFuture { register, data }
    }
}

/// The simulated state of one register cell.
#[derive(Clone, Copy, PartialEq, Eq, Structural, Debug)]
pub struct RegisterState {
    /// The value type of this register.
    pub tag: TypeTag,
    /// The current value, always defined.
    pub data: Value,
    /// The value the register takes on an explicit reset.
    pub reset_data: Value,
    /// The pending next value, staged by a drive and committed at the
    /// cycle boundary.
    pub next: Option<Value>,
}

/// A cell is well formed when every value it holds matches the cell's tag.
pub open spec fn reg_cell_wf(c: RegisterState) -> bool {
    &&& spec_tag_of(c.data) == c.tag
    &&& spec_tag_of(c.reset_data) == c.tag
    &&& match c.next {
        Some(v) => spec_tag_of(v) == c.tag,
        None => true,
    }
}

/// All cells of a register map are well formed.
pub open spec fn regs_wf(cells: Seq<RegisterState>) -> bool {
    forall|i: int| 0 <= i < cells.len() ==> reg_cell_wf(#[trigger] cells[i])
}

/// Trait implemented on types that represent the simulated state of a
/// register.
pub trait RegisterLike {
    /// The current value of the register.
    spec fn current(&self) -> Value;

    /// The value the register takes on reset.
    spec fn reset_value(&self) -> Value;

    /// The staged next value, if any.
    spec fn pending(&self) -> Option<Value>;

    /// Return the register to its reset value and discard any staged value.
    fn reset(&mut self)
        ensures
            final(self).current() == old(self).reset_value(),
            final(self).reset_value() == old(self).reset_value(),
            final(self).pending() is None,
    ;

    /// Commit the staged value, if any, and clear the pending slot.
    fn update(&mut self)
        ensures
            final(self).current() == match old(self).pending() {
                Some(v) => v,
                None => old(self).current(),
            },
            final(self).reset_value() == old(self).reset_value(),
            final(self).pending() is None,
    ;
}

impl RegisterLike for RegisterState {
    open spec fn current(&self) -> Value {
        self.data
    }

    open spec fn reset_value(&self) -> Value {
        self.reset_data
    }

    open spec fn pending(&self) -> Option<Value> {
        self.next
    }

    fn reset(&mut self) {
        self.data = self.reset_data;
        self.next = None;
    }

    fn update(&mut self) {
        match self.next {
            Some(v) => {
                self.data = v;
            },
            None => {},
        }
        self.next = None;
    }
}

/// The outcome of staging a register drive: `Fresh` when the pending slot
/// was empty and now holds the value, `Conflict` with the earlier staged
/// value otherwise.
#[derive(Clone, Copy, PartialEq, Eq, Structural, Debug)]
pub enum StageOutcome {
    Fresh,
    Conflict(Value),
}

/// What peeking a register map returns: the current value when the handle
/// names a cell of matching tag, the exact error otherwise.
pub open spec fn spec_peek_register(cells: Seq<RegisterState>, r: RegisterId) -> Result<
    Value,
    EngineErr,
> {
    if !(1 <= r.spec_id() && r.spec_id() <= cells.len()) {
        Err(EngineErr::UnknownHandle { kind: SignalKind::Register, id: r.spec_id() })
    } else {
        let c = cells[r.spec_id() - 1];
        if c.tag != r.spec_tag() {
            Err(EngineErr::TypeMismatch { expected: c.tag, found: r.spec_tag() })
        } else {
            Ok(c.data)
        }
    }
}

/// What staging a register drive does: the outcome and the cells after.
/// Only a `Fresh` stage changes the map; a conflict leaves the earlier
/// staged value in place.
pub open spec fn spec_stage_register(cells: Seq<RegisterState>, r: RegisterId, v: Value) -> (Result<
    StageOutcome,
    EngineErr,
>, Seq<RegisterState>) {
    if !(1 <= r.spec_id() && r.spec_id() <= cells.len()) {
        (Err(EngineErr::UnknownHandle { kind: SignalKind::Register, id: r.spec_id() }), cells)
    } else {
        let c = cells[r.spec_id() - 1];
        if c.tag != r.spec_tag() {
            (Err(EngineErr::TypeMismatch { expected: c.tag, found: r.spec_tag() }), cells)
        } else if spec_tag_of(v) != c.tag {
            (Err(EngineErr::TypeMismatch { expected: c.tag, found: spec_tag_of(v) }), cells)
        } else {
            match c.next {
                Some(prev) => (Ok(StageOutcome::Conflict(prev)), cells),
                None => (
                    Ok(StageOutcome::Fresh),
                    cells.update(
                        r.spec_id() - 1,
                        RegisterState { tag: c.tag, data: c.data, reset_data: c.reset_data, next: Some(v) },
                    ),
                ),
            }
        }
    }
}

/// One cell after a cycle-boundary commit: the staged value, if any,
/// becomes current and the pending slot is cleared.
pub open spec fn spec_commit_cell(c: RegisterState) -> RegisterState {
    RegisterState {
        tag: c.tag,
        data: match c.next {
            Some(v) => v,
            None => c.data,
        },
        reset_data: c.reset_data,
        next: None,
    }
}

/// The cells after a cycle-boundary commit.
pub open spec fn spec_commit_registers(cells: Seq<RegisterState>) -> Seq<RegisterState> {
    Seq::new(cells.len(), |i: int| spec_commit_cell(cells[i]))
}

/// One cell after an explicit reset: the register returns to its reset
/// value and the pending slot is cleared.
pub open spec fn spec_reset_cell(c: RegisterState) -> RegisterState {
    RegisterState { tag: c.tag, data: c.reset_data, reset_data: c.reset_data, next: None }
}

/// The cells after an explicit reset.
pub open spec fn spec_reset_registers(cells: Seq<RegisterState>) -> Seq<RegisterState> {
    Seq::new(cells.len(), |i: int| spec_reset_cell(cells[i]))
}

/// Mapping from register id to per-register cell. Ids are assigned
/// monotonically from 1; cell `i` of the map backs register id `i + 1`.
pub struct RegisterMap {
    data: Vec<RegisterState>,
    next_sid: usize,
}

impl View for RegisterMap {
    type V = Seq<RegisterState>;

    closed spec fn view(&self) -> Seq<RegisterState> {
        self.data@
    }
}

impl RegisterMap {
    /// The id counter stands exactly one past the allocated cells.
    pub closed spec fn sid_ok(&self) -> bool {
        self.next_sid == self.data@.len() + 1
    }

    /// Map invariant: id assignment is dense from 1 and every cell is well
    /// formed.
    pub open spec fn wf(&self) -> bool {
        self.sid_ok() && regs_wf(self@)
    }

    /// An empty register map.
    pub fn new() -> (r: Self)
        ensures
            r.wf(),
            r@ == Seq::<RegisterState>::empty(),
    {
        RegisterMap { data: Vec::new(), next_sid: 1 }
    }

    /// Allocate a new register with `current = init`, `reset_value = init`
    /// and no pending value; the returned handle carries the tag of `init`.
    pub fn alloc_register(&mut self, init: Value) -> (r: RegisterId)
        requires
            old(self).wf(),
            old(self)@.len() < usize::MAX - 1,
        ensures
            final(self).wf(),
            r.spec_id() == old(self)@.len() + 1,
            r.spec_tag() == spec_tag_of(init),
            final(self)@ == old(self)@.push(
                RegisterState {
                    tag: spec_tag_of(init),
                    data: init,
                    reset_data: init,
                    next: None,
                },
            ),
    {
        let id = self.next_sid;
        let tag = tag_of(&init);
        self.data.push(RegisterState { tag, data: init, reset_data: init, next: None });
        self.next_sid = self.next_sid + 1;
        RegisterId::new(id, tag)
    }

    /// Return the current value behind `register`, or the exact error when
    /// the handle is unknown or its tag disagrees with the cell.
    pub fn peek_register(&self, register: RegisterId) -> (r: Result<Value, EngineErr>)
        ensures
            r == spec_peek_register(self@, register),
    {
        let id = register.id();
        if id < 1 || id > self.data.len() {
            Err(EngineErr::UnknownHandle { kind: SignalKind::Register, id })
        } else {
            let c = self.data[id - 1];
            if c.tag != register.type_tag() {
                Err(EngineErr::TypeMismatch { expected: c.tag, found: register.type_tag() })
            } else {
                Ok(c.data)
            }
        }
    }

    /// Stage a drive of `register` with `v`: `Fresh` when the pending slot
    /// was empty (it now holds `v`), `Conflict` with the earlier staged
    /// value otherwise. A conflict leaves the cell unchanged.
    pub fn stage(&mut self, register: RegisterId, v: Value) -> (r: Result<StageOutcome, EngineErr>)
        ensures
            r == spec_stage_register(old(self)@, register, v).0,
            final(self)@ == spec_stage_register(old(self)@, register, v).1,
            old(self).wf() ==> final(self).wf(),
    {
        let id = register.id();
        if id < 1 || id > self.data.len() {
            Err(EngineErr::UnknownHandle { kind: SignalKind::Register, id })
        } else {
            let c = self.data[id - 1];
            if c.tag != register.type_tag() {
                Err(EngineErr::TypeMismatch { expected: c.tag, found: register.type_tag() })
            } else if tag_of(&v) != c.tag {
                Err(EngineErr::TypeMismatch { expected: c.tag, found: tag_of(&v) })
            } else {
                match c.next {
                    Some(prev) => Ok(StageOutcome::Conflict(prev)),
                    None => {
                        self.data[id - 1] = RegisterState {
                            tag: c.tag,
                            data: c.data,
                            reset_data: c.reset_data,
                            next: Some(v),
                        };
                        Ok(StageOutcome::Fresh)
                    },
                }
            }
        }
    }

    /// Propagate staged updates to all tracked registers: pending values
    /// become current and pending slots are cleared.
    pub fn update(&mut self)
        ensures
            final(self)@ == spec_commit_registers(old(self)@),
            old(self).wf() ==> final(self).wf(),
    {
        let n = self.data.len();
        let mut i: usize = 0;
        while i < n
            invariant
                i <= n,
                n == self.data@.len(),
                self.next_sid == old(self).next_sid,
                forall|j: int|
                    0 <= j < i ==> #[trigger] self.data@[j] == spec_commit_cell(old(self)@[j]),
                forall|j: int| i <= j < n ==> #[trigger] self.data@[j] == old(self)@[j],
            decreases n - i,
        {
            let c = self.data[i];
            let data = match c.next {
                Some(v) => v,
                None => c.data,
            };
            self.data[i] = RegisterState { tag: c.tag, data, reset_data: c.reset_data, next: None };
            i = i + 1;
        }
        proof {
            assert(self.data@ =~= spec_commit_registers(old(self)@));
        }
    }

    /// Return every register to its reset value and clear every pending
    /// slot. Invoked by an external reset driver, never by `step`.
    pub fn reset_all(&mut self)
        ensures
            final(self)@ == spec_reset_registers(old(self)@),
            old(self).wf() ==> final(self).wf(),
    {
        let n = self.data.len();
        let mut i: usize = 0;
        while i < n
            invariant
                i <= n,
                n == self.data@.len(),
                self.next_sid == old(self).next_sid,
                forall|j: int|
                    0 <= j < i ==> #[trigger] self.data@[j] == spec_reset_cell(old(self)@[j]),
                forall|j: int| i <= j < n ==> #[trigger] self.data@[j] == old(self)@[j],
            decreases n - i,
        {
            let c = self.data[i];
            self.data[i] = RegisterState {
                tag: c.tag,
                data: c.reset_data,
                reset_data: c.reset_data,
                next: None,
            };
            i = i + 1;
        }
        proof {
            assert(self.data@ =~= spec_reset_registers(old(self)@));
        }
    }
}

/// Register commit semantics: a register staged with `v` in some cycle
/// still peeks as its prior value during that cycle, and peeks as `v` once
/// the cycle boundary commits the staged value.
pub proof fn lemma_register_commit(cells: Seq<RegisterState>, r: RegisterId, v: Value)
    requires
        spec_stage_register(cells, r, v).0 == Ok::<StageOutcome, EngineErr>(StageOutcome::Fresh),
    ensures
        spec_peek_register(spec_stage_register(cells, r, v).1, r) == spec_peek_register(cells, r),
        spec_peek_register(spec_commit_registers(spec_stage_register(cells, r, v).1), r) == Ok::<
            Value,
            EngineErr,
        >(v),
{
}

/// At most one pending write per register per cycle: once a stage has
/// succeeded, a second stage of a well-typed value reports a conflict with
/// the first value and leaves the map unchanged.
pub proof fn lemma_register_single_commit(
    cells: Seq<RegisterState>,
    r: RegisterId,
    v1: Value,
    v2: Value,
)
    requires
        spec_stage_register(cells, r, v1).0 == Ok::<StageOutcome, EngineErr>(StageOutcome::Fresh),
        spec_tag_of(v2) == spec_tag_of(v1),
    ensures
        spec_stage_register(spec_stage_register(cells, r, v1).1, r, v2).0 == Ok::<
            StageOutcome,
            EngineErr,
        >(StageOutcome::Conflict(v1)),
        spec_stage_register(spec_stage_register(cells, r, v1).1, r, v2).1 == spec_stage_register(
            cells,
            r,
            v1,
        ).1,
{
}

/// Register reset value: a freshly allocated register peeks as its init
/// value before any drive.
pub proof fn lemma_register_reset_value(cells: Seq<RegisterState>, init: Value)
    requires
        cells.len() < usize::MAX - 1,
    ensures
        ({
            let cell = RegisterState {
                tag: spec_tag_of(init),
                data: init,
                reset_data: init,
                next: None,
            };
            forall|h: RegisterId|
                h.spec_id() == cells.len() + 1 && h.spec_tag() == spec_tag_of(init)
                    ==> #[trigger] spec_peek_register(cells.push(cell), h) == Ok::<
                    Value,
                    EngineErr,
                >(init)
        }),
{
}

} // verus!
