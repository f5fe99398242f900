//! Types for representing simulated components/modules.

use vstd::prelude::*;

use crate::engine::EngineState;
use crate::task::Op;

verus! {

/// Trait implemented on types that represent a simulated "module".
///
/// A type implementing this trait is expected to carry the
/// [`WireId`](crate::wire::WireId) and [`RegisterId`](crate::register::RegisterId)
/// handles of its signals: trivially copyable, indirect references into the
/// [`EngineState`] the module was instantiated against. The actual signal
/// values are only read and written when the engine polls the ops of the
/// module's per-cycle body.
pub trait ModuleLike {
    /// Creates an instance of this module.
    ///
    /// The implementation must allocate all wires and registers used by the
    /// module from `state`, and must do the same for all submodules.
    fn new_instance(state: &mut EngineState) -> Self where Self: core::marker::Sized;

    /// Describes the simulated behavior of this module for one cycle.
    ///
    /// The returned body is scheduled on an [`Engine`](crate::engine::Engine),
    /// once per simulated cycle. Sampling a wire that no other task has
    /// driven yet suspends the body until the driver has run.
    fn run(&self) -> Vec<Op>;
}

} // verus!
