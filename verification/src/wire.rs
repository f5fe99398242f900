//! Types for representing simulated wires.
//!
//! A wire is a combinational signal: undriven at the start of every cycle,
//! driven at most once within a cycle, and cleared at the cycle boundary.

use vstd::prelude::*;

use crate::engine::EngineErr;
use crate::task::{Op, Operand};
use crate::value::{spec_tag_of, tag_of, SignalKind, TypeTag, Value};

verus! {

/// The direction of a wire, kept as a debugging aid on handles.
#[derive(Clone, Copy, PartialEq, Eq, Structural, Debug)]
pub enum Direction {
    Input,
    Output,
    Internal,
}

/// A token for a simulated wire whose state is tracked by
/// [`EngineState`](crate::engine::EngineState). Handles are cheap to copy
/// and hold no ownership of the underlying cell.
#[derive(Clone, Copy, PartialEq, Eq, Structural, Debug)]
pub struct WireId {
    id: usize,
    tag: TypeTag,
    direction: Direction,
}

impl WireId {
    /// The numeric identifier of the wire this handle names.
    pub closed spec fn spec_id(self) -> usize {
        self.id
    }

    /// The value type tag carried by this handle.
    pub closed spec fn spec_tag(self) -> TypeTag {
        self.tag
    }

    /// The direction recorded on this handle.
    pub closed spec fn spec_direction(self) -> Direction {
        self.direction
    }

    /// Construct a handle. Used by the map allocator; a handle made by hand
    /// is only as good as the cell its id happens to name.
    pub fn new(id: usize, tag: TypeTag) -> (w: Self)
        ensures
            w.spec_id() == id,
            w.spec_tag() == tag,
            w.spec_direction() == Direction::Internal,
    {
        WireId { id, tag, direction: Direction::Internal }
    }

    /// The numeric identifier of this wire.
    pub fn id(&self) -> (r: usize)
        ensures
            r == self.spec_id(),
    {
        self.id
    }

    /// The value type tag of this wire.
    pub fn type_tag(&self) -> (r: TypeTag)
        ensures
            r == self.spec_tag(),
    {
        self.tag
    }

    /// The suspension primitive that samples this wire into local `slot`:
    /// it completes with the wire's value once some task has driven it, and
    /// suspends while the wire is undriven.
    pub fn sample(&self, slot: usize) -> (op: Op)
        ensures
            op == Op::SampleWire(CombFuture { wire: *self, slot }),
    {
        Op::SampleWire(CombFuture::from_wire(*self, slot))
    }

    /// The suspension primitive that drives this wire with `data`. Always
    /// ready; a second drive in the same cycle is a fatal conflict.
    pub fn drive(&self, data: Operand) -> (op: Op)
        ensures
            op == Op::DriveWire(CombDriveFuture { wire: *self, data }),
    {
        Op::DriveWire(CombDriveFuture::for_wire(*self, data))
    }

    /// The suspension primitive that drives this wire with the value on
    /// `other`, suspending until `other` is driven.
    pub fn assign(&self, other: Self) -> (op: Op)
        ensures
            op == Op::AssignWire(AssignFuture { src: other, tgt: *self }),
    {
        Op::AssignWire(AssignFuture::for_wires(other, *self))
    }
}

/// The pending state of an asynchronous ("combinational") read from a
/// simulated wire: which wire to sample, and the task-local slot that
/// receives the value.
#[derive(Clone, Copy, PartialEq, Eq, Structural, Debug)]
pub struct CombFuture {
    /// The wire to sample.
    pub wire: WireId,
    /// The task-local slot the sampled value lands in.
    pub slot: usize,
}

impl CombFuture {
    /// A pending read of `wire` into `slot`.
    pub fn from_wire(wire: WireId, slot: usize) -> (f: Self)
        ensures
            f == (CombFuture { wire, slot }),
    {
        CombFuture { wire, slot }
    }
}

/// The pending state of a drive of a simulated wire.
#[derive(Clone, Copy, PartialEq, Eq, Structural, Debug)]
pub struct CombDriveFuture {
    /// The wire to drive.
    pub wire: WireId,
    /// Where the driven value comes from.
    pub data: Operand,
}

impl CombDriveFuture {
    /// A pending drive of `wire` with `data`.
    pub fn for_wire(wire: WireId, data: Operand) -> (f: Self)
        ensures
            f == (CombDriveFuture { wire, data }),
    {
        CombDriveFuture { wire, data }
    }
}

/// The pending state of a wire-to-wire assignment: once `src` is driven,
/// its value is driven onto `tgt`.
#[derive(Clone, Copy, PartialEq, Eq, Structural, Debug)]
pub struct AssignFuture {
    /// The wire whose value is forwarded.
    pub src: WireId,
    /// The wire that receives the value.
    pub tgt: WireId,
}

impl AssignFuture {
    /// A pending assignment from `src` to `tgt`.
    pub fn for_wires(src: WireId, tgt: WireId) -> (f: Self)
        ensures
            f == (AssignFuture { src, tgt }),
    {
        AssignFuture { src, tgt }
    }
}

/// The simulated state of one wire cell.
///
/// `data` is `None` while no value has been driven this cycle and `Some`
/// afterwards; the tag pins the type every driver and sampler must use.
#[derive(Clone, Copy, PartialEq, Eq, Structural, Debug)]
pub struct WireState {
    /// The value type of this wire.
    pub tag: TypeTag,
    /// The value driven this cycle, if any.
    pub data: Option<Value>,
}

/// A cell is well formed when any driven value matches the cell's tag.
pub open spec fn wire_cell_wf(c: WireState) -> bool {
    match c.data {
        Some(v) => spec_tag_of(v) == c.tag,
        None => true,
    }
}

/// All cells of a wire map are well formed.
pub open spec fn wires_wf(cells: Seq<WireState>) -> bool {
    forall|i: int| 0 <= i < cells.len() ==> wire_cell_wf(#[trigger] cells[i])
}

/// Trait implemented on types that represent the simulated state of a wire.
pub trait WireLike {
    /// The value currently driven on the wire, if any.
    spec fn wire_value(&self) -> Option<Value>;

    /// The value type of the wire.
    spec fn wire_tag(&self) -> TypeTag;

    /// Clear the wire for a new cycle.
    fn reset(&mut self)
        ensures
            final(self).wire_value() is None,
            final(self).wire_tag() == old(self).wire_tag(),
    ;
}

impl WireLike for WireState {
    open spec fn wire_value(&self) -> Option<Value> {
        self.data
    }

    open spec fn wire_tag(&self) -> TypeTag {
        self.tag
    }

    fn reset(&mut self) {
        self.data = None;
    }
}

/// The outcome of a wire write: `Fresh` when the cell was empty and now
/// holds the value, `Conflict` with the earlier value otherwise.
#[derive(Clone, Copy, PartialEq, Eq, Structural, Debug)]
pub enum WriteOutcome {
    Fresh,
    Conflict(Value),
}

/// What peeking a wire map returns: the cell's state when the handle names
/// a cell of matching tag, the exact error otherwise.
pub open spec fn spec_peek_wire(cells: Seq<WireState>, w: WireId) -> Result<
    Option<Value>,
    EngineErr,
> {
    if !(1 <= w.spec_id() && w.spec_id() <= cells.len()) {
        Err(EngineErr::UnknownHandle { kind: SignalKind::Wire, id: w.spec_id() })
    } else {
        let c = cells[w.spec_id() - 1];
        if c.tag != w.spec_tag() {
            Err(EngineErr::TypeMismatch { expected: c.tag, found: w.spec_tag() })
        } else {
            Ok(c.data)
        }
    }
}

/// What writing a wire map does: the outcome and the cells after the write.
/// Only a `Fresh` write changes the map; a conflict leaves the earlier value
/// in place (last-writer-wins is not permitted).
pub open spec fn spec_write_wire(cells: Seq<WireState>, w: WireId, v: Value) -> (Result<
    WriteOutcome,
    EngineErr,
>, Seq<WireState>) {
    if !(1 <= w.spec_id() && w.spec_id() <= cells.len()) {
        (Err(EngineErr::UnknownHandle { kind: SignalKind::Wire, id: w.spec_id() }), cells)
    } else {
        let c = cells[w.spec_id() - 1];
        if c.tag != w.spec_tag() {
            (Err(EngineErr::TypeMismatch { expected: c.tag, found: w.spec_tag() }), cells)
        } else if spec_tag_of(v) != c.tag {
            (Err(EngineErr::TypeMismatch { expected: c.tag, found: spec_tag_of(v) }), cells)
        } else {
            match c.data {
                Some(prev) => (Ok(WriteOutcome::Conflict(prev)), cells),
                None => (
                    Ok(WriteOutcome::Fresh),
                    cells.update(w.spec_id() - 1, WireState { tag: c.tag, data: Some(v) }),
                ),
            }
        }
    }
}

/// The cells after a cycle-boundary reset: every wire undriven, tags kept.
pub open spec fn spec_reset_wires(cells: Seq<WireState>) -> Seq<WireState> {
    Seq::new(cells.len(), |i: int| WireState { tag: cells[i].tag, data: None })
}

/// Trait for state holders that can allocate wires.
pub trait WireAllocator {
    /// How many wires the holder has allocated so far.
    spec fn wire_count(&self) -> nat;

    /// Whether the holder is in a state fit for allocation.
    spec fn alloc_ready(&self) -> bool;

    /// Allocate a fresh wire of type `tag`, with a debug label.
    fn alloc_wire(&mut self, name: &'static str, tag: TypeTag) -> (w: WireId)
        requires
            old(self).alloc_ready(),
            old(self).wire_count() < usize::MAX - 1,
        ensures
            final(self).alloc_ready(),
            final(self).wire_count() == old(self).wire_count() + 1,
            w.spec_id() == old(self).wire_count() + 1,
            w.spec_tag() == tag,
    ;
}

/// Mapping from wire id to per-wire cell. Ids are assigned monotonically
/// from 1; cell `i` of the map backs wire id `i + 1`.
pub struct WireMap {
    data: Vec<WireState>,
    next_sid: usize,
}

impl View for WireMap {
    type V = Seq<WireState>;

    closed spec fn view(&self) -> Seq<WireState> {
        self.data@
    }
}

impl WireMap {
    /// The id counter stands exactly one past the allocated cells.
    pub closed spec fn sid_ok(&self) -> bool {
        self.next_sid == self.data@.len() + 1
    }

    /// Map invariant: id assignment is dense from 1 and every cell is well
    /// formed.
    pub open spec fn wf(&self) -> bool {
        self.sid_ok() && wires_wf(self@)
    }

    /// An empty wire map.
    pub fn new() -> (r: Self)
        ensures
            r.wf(),
            r@ == Seq::<WireState>::empty(),
    {
        WireMap { data: Vec::new(), next_sid: 1 }
    }

    /// Allocate a new wire cell with empty state; the returned handle
    /// carries the cell's type tag.
    pub fn alloc_wire(&mut self, tag: TypeTag) -> (w: WireId)
        requires
            old(self).wf(),
            old(self)@.len() < usize::MAX - 1,
        ensures
            final(self).wf(),
            w.spec_id() == old(self)@.len() + 1,
            w.spec_tag() == tag,
            final(self)@ == old(self)@.push(WireState { tag, data: None }),
    {
        let id = self.next_sid;
        self.data.push(WireState { tag, data: None });
        self.next_sid = self.next_sid + 1;
        WireId::new(id, tag)
    }

    /// Return the current cell value behind `wire`, or the exact error when
    /// the handle is unknown or its tag disagrees with the cell.
    pub fn peek_wire(&self, wire: WireId) -> (r: Result<Option<Value>, EngineErr>)
        ensures
            r == spec_peek_wire(self@, wire),
    {
        let id = wire.id();
        if id < 1 || id > self.data.len() {
            Err(EngineErr::UnknownHandle { kind: SignalKind::Wire, id })
        } else {
            let c = self.data[id - 1];
            if c.tag != wire.type_tag() {
                Err(EngineErr::TypeMismatch { expected: c.tag, found: wire.type_tag() })
            } else {
                Ok(c.data)
            }
        }
    }

    /// Scheduler-internal read; same contract as [`WireMap::peek_wire`].
    pub fn read(&self, wire: WireId) -> (r: Result<Option<Value>, EngineErr>)
        ensures
            r == spec_peek_wire(self@, wire),
    {
        self.peek_wire(wire)
    }

    /// Drive `wire` with `v`: `Fresh` when the cell was empty (it now holds
    /// `v`), `Conflict` with the earlier value otherwise. A conflict leaves
    /// the cell unchanged.
    pub fn write(&mut self, wire: WireId, v: Value) -> (r: Result<WriteOutcome, EngineErr>)
        ensures
            r == spec_write_wire(old(self)@, wire, v).0,
            final(self)@ == spec_write_wire(old(self)@, wire, v).1,
            old(self).wf() ==> final(self).wf(),
    {
        let id = wire.id();
        if id < 1 || id > self.data.len() {
            Err(EngineErr::UnknownHandle { kind: SignalKind::Wire, id })
        } else {
            let c = self.data[id - 1];
            if c.tag != wire.type_tag() {
                Err(EngineErr::TypeMismatch { expected: c.tag, found: wire.type_tag() })
            } else if tag_of(&v) != c.tag {
                Err(EngineErr::TypeMismatch { expected: c.tag, found: tag_of(&v) })
            } else {
                match c.data {
                    Some(prev) => Ok(WriteOutcome::Conflict(prev)),
                    None => {
                        self.data[id - 1] = WireState { tag: c.tag, data: Some(v) };
                        Ok(WriteOutcome::Fresh)
                    },
                }
            }
        }
    }

    /// Reset every wire cell to empty, keeping tags. Restores the cycle
    /// isolation invariant at the cycle boundary.
    pub fn reset(&mut self)
        ensures
            final(self)@ == spec_reset_wires(old(self)@),
            old(self).wf() ==> final(self).wf(),
    {
        let n = self.data.len();
        let mut i: usize = 0;
        while i < n
            invariant
                i <= n,
                n == self.data@.len(),
                self.next_sid == old(self).next_sid,
                forall|j: int|
                    0 <= j < i ==> #[trigger] self.data@[j] == (WireState {
                        tag: old(self)@[j].tag,
                        data: None::<Value>,
                    }),
                forall|j: int| i <= j < n ==> #[trigger] self.data@[j] == old(self)@[j],
            decreases n - i,
        {
            let tag = self.data[i].tag;
            self.data[i] = WireState { tag, data: None };
            i = i + 1;
        }
        proof {
            assert(self.data@ =~= spec_reset_wires(old(self)@));
        }
    }
}

/// At most one drive per wire per cycle: once a drive has succeeded, a
/// second drive of a well-typed value reports a conflict with the first
/// value and leaves the map unchanged.
pub proof fn lemma_wire_single_driver(cells: Seq<WireState>, w: WireId, v1: Value, v2: Value)
    requires
        spec_write_wire(cells, w, v1).0 == Ok::<WriteOutcome, EngineErr>(WriteOutcome::Fresh),
        spec_tag_of(v2) == spec_tag_of(v1),
    ensures
        spec_write_wire(spec_write_wire(cells, w, v1).1, w, v2).0 == Ok::<WriteOutcome, EngineErr>(
            WriteOutcome::Conflict(v1),
        ),
        spec_write_wire(spec_write_wire(cells, w, v1).1, w, v2).1 == spec_write_wire(
            cells,
            w,
            v1,
        ).1,
{
}

/// Cycle isolation: after a reset, every allocated wire peeks as undriven.
pub proof fn lemma_cycle_isolation(cells: Seq<WireState>, w: WireId)
    requires
        1 <= w.spec_id() <= cells.len(),
        cells[w.spec_id() - 1].tag == w.spec_tag(),
    ensures
        spec_peek_wire(spec_reset_wires(cells), w) == Ok::<Option<Value>, EngineErr>(
            None::<Value>,
        ),
{
}

/// Type safety: peeking through a handle whose tag disagrees with the cell
/// is rejected with the exact mismatch, whatever the cell holds.
pub proof fn lemma_peek_type_safety(cells: Seq<WireState>, w: WireId)
    requires
        1 <= w.spec_id() <= cells.len(),
        cells[w.spec_id() - 1].tag != w.spec_tag(),
    ensures
        spec_peek_wire(cells, w) == Err::<Option<Value>, EngineErr>(
            EngineErr::TypeMismatch {
                expected: cells[w.spec_id() - 1].tag,
                found: w.spec_tag(),
            },
        ),
{
}

} // verus!

