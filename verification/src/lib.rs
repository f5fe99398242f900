//! A discrete-event simulator core for synchronous digital hardware.
//!
//! Circuits are modelled as cooperative tasks that sample and drive wires
//! (combinational signals, cleared every cycle) and registers (stateful
//! signals, committed at cycle boundaries). The [`Engine`] polls tasks to a
//! fixed point within each simulated clock cycle, detects multiple-driver
//! conflicts and stalls, and advances simulated time one cycle at a time.

pub mod engine;
pub mod module;
pub mod register;
pub mod task;
pub mod value;
pub mod wire;

pub use crate::engine::{Engine, EngineErr, EngineState};
pub use crate::module::ModuleLike;
pub use crate::register::{
    RegisterId, RegisterMap, RegisterState, StageOutcome, SyncDriveFuture, SyncFuture,
};
pub use crate::task::{EngineTask, Op, Operand, PollStatus};
pub use crate::value::{SignalKind, TypeTag, Value};
pub use crate::wire::{
    AssignFuture, CombDriveFuture, CombFuture, Direction, WireId, WireMap, WireState, WriteOutcome,
};

use vstd::prelude::*;

use crate::register::spec_peek_register;
use crate::wire::spec_peek_wire;

verus! {

/// Helper owning the shared simulator state through its allocation phase.
///
/// A `Mafic` collects the wires and registers of a circuit, hands out
/// handles, and is then consumed by [`Mafic::init_engine`], which binds the
/// one engine that owns the state for the rest of the simulation. After
/// that, peeks go through [`Engine::state`].
pub struct Mafic {
    state: EngineState,
}

impl Mafic {
    /// The state collected so far.
    pub closed spec fn spec_state(&self) -> EngineState {
        self.state
    }

    /// The signal maps are well formed.
    pub open spec fn wf(&self) -> bool {
        self.spec_state().wf()
    }

    /// A fresh, empty simulator state.
    pub fn new() -> (r: Self)
        ensures
            r.wf(),
            r.spec_state().wires@ == Seq::<WireState>::empty(),
            r.spec_state().registers@ == Seq::<RegisterState>::empty(),
    {
        Mafic { state: EngineState::new_shareable() }
    }

    /// A shared reference to the collected [`EngineState`].
    pub fn state(&self) -> (r: &EngineState)
        ensures
            *r == self.spec_state(),
    {
        &self.state
    }

    /// Mutable access to the collected [`EngineState`], for allocation
    /// patterns the one-liner helpers below do not cover.
    pub fn with_state(&mut self) -> (r: &mut EngineState)
        ensures
            *r == old(self).spec_state(),
            final(self).spec_state() == *final(r),
    {
        &mut self.state
    }

    /// Consume the helper and create an [`Engine`] bound to its state.
    pub fn init_engine(self) -> (e: Engine)
        ensures
            e.spec_state() == self.spec_state(),
            e.spec_tasks().len() == 0,
            e.spec_cycles() == 0,
            self.wf() ==> e.wf(),
    {
        Engine::new(self.state)
    }

    /// Allocate a register with reset value `init`.
    pub fn reg(&mut self, init: Value) -> (r: RegisterId)
        requires
            old(self).wf(),
            old(self).spec_state().registers@.len() < usize::MAX - 1,
        ensures
            final(self).wf(),
            r.spec_id() == old(self).spec_state().registers@.len() + 1,
            r.spec_tag() == crate::value::spec_tag_of(init),
            final(self).spec_state().registers@ == old(self).spec_state().registers@.push(
                RegisterState {
                    tag: crate::value::spec_tag_of(init),
                    data: init,
                    reset_data: init,
                    next: None,
                },
            ),
            final(self).spec_state().wires == old(self).spec_state().wires,
    {
        self.state.registers.alloc_register(init)
    }

    /// Allocate a wire of type `tag`.
    pub fn wire(&mut self, tag: TypeTag) -> (w: WireId)
        requires
            old(self).wf(),
            old(self).spec_state().wires@.len() < usize::MAX - 1,
        ensures
            final(self).wf(),
            w.spec_id() == old(self).spec_state().wires@.len() + 1,
            w.spec_tag() == tag,
            final(self).spec_state().wires@ == old(self).spec_state().wires@.push(
                WireState { tag, data: None },
            ),
            final(self).spec_state().registers == old(self).spec_state().registers,
    {
        self.state.wires.alloc_wire(tag)
    }

    /// Read the value of a wire; same contract as [`WireMap::peek_wire`].
    pub fn peek(&self, wire: WireId) -> (r: Result<Option<Value>, EngineErr>)
        ensures
            r == spec_peek_wire(self.spec_state().wires@, wire),
    {
        self.state.wires.peek_wire(wire)
    }

    /// Read the value of a register; same contract as
    /// [`RegisterMap::peek_register`].
    pub fn read(&self, register: RegisterId) -> (r: Result<Value, EngineErr>)
        ensures
            r == spec_peek_register(self.spec_state().registers@, register),
    {
        self.state.registers.peek_register(register)
    }
}

} // verus!
