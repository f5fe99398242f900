//! The cycle executor: shared simulated state and the task scheduler.

use std::collections::VecDeque;

use vstd::prelude::*;

use crate::module::ModuleLike;
use crate::register::{spec_commit_registers, RegisterMap, RegisterState};
use crate::task::{spec_poll_from, task_model_wf, EngineTask, Op, TaskModel};
use crate::value::{SignalKind, TypeTag, Value};
use crate::wire::{
    spec_peek_wire, spec_reset_wires, spec_write_wire, WireId, WireMap, WireState, WriteOutcome,
};

verus! {

/// A fatal simulation error. Every condition here is a programmer error in
/// the circuit model; none is recovered locally.
#[derive(Clone, Copy, PartialEq, Eq, Structural, Debug)]
pub enum EngineErr {
    /// A handle's id is not present in the relevant signal map.
    UnknownHandle { kind: SignalKind, id: usize },
    /// A handle's or value's type tag disagrees with the cell it targets.
    TypeMismatch { expected: TypeTag, found: TypeTag },
    /// A second drive reached a wire already driven this cycle.
    WireConflict { id: usize, prev: Value, attempted: Value },
    /// A second drive reached a register whose pending slot is already set.
    RegisterConflict { id: usize, prev: Value, attempted: Value },
    /// A full queue rotation completed with no progress while tasks remain.
    StallDeadlock,
    /// The scheduler step count exceeded the configured limit.
    StallLimit,
    /// `schedule` was invoked while `run` was in flight. The ownership
    /// discipline of this crate rules the situation out at compile time, so
    /// no function here ever returns it; the variant stands for diagnosis by
    /// embedders with their own task sources.
    ReentrantSchedule,
    /// A task body read a local slot that holds no value, or named a slot
    /// index that no task can represent.
    UndefinedSlot { slot: usize },
    /// A task body indexed a register bank outside its bounds.
    BadIndex { index: usize, len: usize },
}

/// Container for simulated state: the only mutable state the scheduler
/// shares with tasks. It is owned by one engine at a time; the borrow
/// checker rules out concurrent observation by two tasks.
pub struct EngineState {
    /// Tracks the state of all wires.
    pub wires: WireMap,
    /// Tracks the state of all registers.
    pub registers: RegisterMap,
}

impl EngineState {
    /// Both signal maps are well formed.
    pub open spec fn wf(&self) -> bool {
        self.wires.wf() && self.registers.wf()
    }

    /// An empty signal state.
    pub fn new() -> (r: Self)
        ensures
            r.wf(),
            r.wires@ == Seq::<crate::wire::WireState>::empty(),
            r.registers@ == Seq::<crate::register::RegisterState>::empty(),
    {
        EngineState { wires: WireMap::new(), registers: RegisterMap::new() }
    }

    /// An empty signal state, ready to be shared between an allocation
    /// phase and the one engine that will own it.
    pub fn new_shareable() -> (r: Self)
        ensures
            r.wf(),
            r.wires@ == Seq::<crate::wire::WireState>::empty(),
            r.registers@ == Seq::<crate::register::RegisterState>::empty(),
    {
        Self::new()
    }

    /// Read a wire on behalf of a polled task; same contract as
    /// [`WireMap::peek_wire`].
    pub fn read_wire(&self, wire: WireId) -> (r: Result<Option<Value>, EngineErr>)
        ensures
            r == spec_peek_wire(self.wires@, wire),
    {
        self.wires.read(wire)
    }

    /// Drive a wire on behalf of a polled task; same contract as
    /// [`WireMap::write`].
    pub fn write_wire(&mut self, wire: WireId, v: Value) -> (r: Result<WriteOutcome, EngineErr>)
        ensures
            r == spec_write_wire(old(self).wires@, wire, v).0,
            final(self).wires@ == spec_write_wire(old(self).wires@, wire, v).1,
            final(self).registers == old(self).registers,
            old(self).wf() ==> final(self).wf(),
    {
        self.wires.write(wire, v)
    }
}

impl crate::wire::WireAllocator for EngineState {
    open spec fn wire_count(&self) -> nat {
        self.wires@.len()
    }

    open spec fn alloc_ready(&self) -> bool {
        self.wires.wf()
    }

    fn alloc_wire(&mut self, _name: &'static str, tag: TypeTag) -> (w: WireId) {
        self.wires.alloc_wire(tag)
    }
}

/// The default bound on scheduler steps within one simulated cycle.
pub const DEFAULT_STEP_LIMIT: usize = 1024;

/// Every queued task stands inside its body.
pub open spec fn all_tasks_wf(tasks: Seq<TaskModel>) -> bool {
    forall|i: int| 0 <= i < tasks.len() ==> task_model_wf(#[trigger] tasks[i])
}

/// The spec-level result of a single-cycle run: the task queue, the signal
/// state, and the verdict.
pub struct RunModel {
    pub tasks: Seq<TaskModel>,
    pub wires: Seq<WireState>,
    pub regs: Seq<RegisterState>,
    pub result: Result<(), EngineErr>,
}

/// The meaning of the single-cycle fixed point: pop the head task, poll it,
/// discard it when completed or re-queue it when suspended, and stop when
/// the queue drains. `steps` counts suspensions against `limit`;
/// `remaining` counts the polls left in the current full pass of the queue
/// and `progress` records whether the pass completed a task or freshly
/// drove a wire. A pass without progress while tasks remain is a deadlock;
/// exceeding the step limit is a stall.
pub open spec fn spec_run_from(
    tasks: Seq<TaskModel>,
    wires: Seq<WireState>,
    regs: Seq<RegisterState>,
    steps: int,
    limit: int,
    remaining: int,
    progress: bool,
) -> RunModel
    decreases limit - steps, tasks.len(),
    when 0 <= steps <= limit
{
    if tasks.len() == 0 {
        RunModel { tasks, wires, regs, result: Ok(()) }
    } else if steps >= limit {
        RunModel { tasks, wires, regs, result: Err(EngineErr::StallLimit) }
    } else {
        let m = spec_poll_from(tasks[0], wires, regs, false);
        match m.result {
            Err(e) => RunModel {
                tasks: tasks.drop_first(),
                wires: m.wires,
                regs: m.regs,
                result: Err(e),
            },
            Ok(st) => {
                let tasks2 = if st.completed {
                    tasks.drop_first()
                } else {
                    tasks.drop_first().push(m.task)
                };
                let steps2 = if st.completed {
                    steps
                } else {
                    steps + 1
                };
                let progress2 = progress || st.completed || st.wrote_wire;
                let rem2 = remaining - 1;
                if rem2 <= 0 {
                    if tasks2.len() > 0 && !progress2 {
                        RunModel {
                            tasks: tasks2,
                            wires: m.wires,
                            regs: m.regs,
                            result: Err(EngineErr::StallDeadlock),
                        }
                    } else {
                        spec_run_from(
                            tasks2,
                            m.wires,
                            m.regs,
                            steps2,
                            limit,
                            tasks2.len() as int,
                            false,
                        )
                    }
                } else {
                    spec_run_from(tasks2, m.wires, m.regs, steps2, limit, rem2, progress2)
                }
            },
        }
    }
}

/// An async-style executor that completes the simulated logic described by
/// types implementing [`ModuleLike`].
///
/// The task queue is filled at the start of a simulated clock cycle, one
/// task per module plus optional stimulus tasks. Reads of wires suspend
/// until the wire has been driven by a different module, so the user never
/// declares a dependency graph. When the queue has been emptied, values
/// have propagated through all tasks; the engine then commits register
/// updates, resets the wires, and the next cycle can be scheduled.
pub struct Engine {
    /// Queue of tasks pending for this cycle.
    tasks: VecDeque<EngineTask>,
    /// Simulated state, owned by the engine for the whole simulation.
    state: EngineState,
    /// Total number of scheduler steps (suspensions), saturating.
    steps: usize,
    /// Number of completed clock cycles.
    cycles: usize,
    /// Bound on scheduler steps within one cycle.
    step_limit: usize,
}

impl Engine {
    /// The queued tasks, head first.
    pub closed spec fn spec_tasks(&self) -> Seq<TaskModel> {
        self.tasks@.map_values(|t: EngineTask| t@)
    }

    /// The simulated state the engine is bound to.
    pub closed spec fn spec_state(&self) -> EngineState {
        self.state
    }

    /// The total number of scheduler steps taken, saturating.
    pub closed spec fn spec_steps(&self) -> usize {
        self.steps
    }

    /// The number of completed cycles.
    pub closed spec fn spec_cycles(&self) -> usize {
        self.cycles
    }

    /// The configured bound on steps per cycle.
    pub closed spec fn spec_step_limit(&self) -> usize {
        self.step_limit
    }

    /// Engine invariant: the signal maps are well formed and every queued
    /// task stands inside its body.
    pub open spec fn wf(&self) -> bool {
        self.spec_state().wf() && all_tasks_wf(self.spec_tasks())
    }

    /// Create a new engine bound to `state`, with an empty queue and the
    /// default step limit.
    pub fn new(state: EngineState) -> (e: Engine)
        ensures
            e.spec_state() == state,
            e.spec_tasks().len() == 0,
            e.spec_cycles() == 0,
            e.spec_steps() == 0,
            e.spec_step_limit() == DEFAULT_STEP_LIMIT,
            state.wf() ==> e.wf(),
    {
        Engine {
            tasks: VecDeque::new(),
            state,
            steps: 0,
            cycles: 0,
            step_limit: DEFAULT_STEP_LIMIT,
        }
    }

    /// The signal state, for inspection between cycles.
    pub fn state(&self) -> (r: &EngineState)
        ensures
            *r == self.spec_state(),
    {
        &self.state
    }

    /// The number of completed cycles.
    pub fn cycles(&self) -> (r: usize)
        ensures
            r == self.spec_cycles(),
    {
        self.cycles
    }

    /// The total number of scheduler steps taken, saturating.
    pub fn steps(&self) -> (r: usize)
        ensures
            r == self.spec_steps(),
    {
        self.steps
    }

    /// The configured bound on steps per cycle.
    pub fn step_limit(&self) -> (r: usize)
        ensures
            r == self.spec_step_limit(),
    {
        self.step_limit
    }

    /// Configure the bound on steps per cycle.
    pub fn set_step_limit(&mut self, limit: usize)
        ensures
            final(self).spec_step_limit() == limit,
            final(self).spec_tasks() == old(self).spec_tasks(),
            final(self).spec_state() == old(self).spec_state(),
            final(self).spec_cycles() == old(self).spec_cycles(),
            final(self).spec_steps() == old(self).spec_steps(),
            old(self).wf() ==> final(self).wf(),
    {
        self.step_limit = limit;
    }

    /// Schedule a task body under a debug name. Appends to the queue; tasks
    /// run in FIFO order. May be called only between `run` invocations.
    pub fn schedule(&mut self, name: &'static str, ops: Vec<Op>)
        ensures
            final(self).spec_tasks() == old(self).spec_tasks().push(
                TaskModel { name, ops: ops@, pc: 0, locals: Seq::<Option<Value>>::empty() },
            ),
            final(self).spec_state() == old(self).spec_state(),
            final(self).spec_cycles() == old(self).spec_cycles(),
            final(self).spec_steps() == old(self).spec_steps(),
            final(self).spec_step_limit() == old(self).spec_step_limit(),
            old(self).wf() ==> final(self).wf(),
    {
        let t = EngineTask::new(name, ops);
        self.tasks.push_back(t);
        proof {
            assert(self.tasks@.map_values(|x: EngineTask| x@) =~= old(self).tasks@.map_values(
                |x: EngineTask| x@,
            ).push(TaskModel { name, ops: ops@, pc: 0, locals: Seq::<Option<Value>>::empty() }));
        }
    }

    /// Schedule an instance of some module: ask it for its per-cycle body
    /// and enqueue that body as an unnamed task.
    pub fn schedule_module<M: ModuleLike>(&mut self, module: &M)
        ensures
            final(self).spec_tasks().len() == old(self).spec_tasks().len() + 1,
            final(self).spec_tasks().subrange(0, old(self).spec_tasks().len() as int) == old(self).spec_tasks(),
            final(self).spec_tasks().last().pc == 0,
            final(self).spec_state() == old(self).spec_state(),
            final(self).spec_cycles() == old(self).spec_cycles(),
            final(self).spec_step_limit() == old(self).spec_step_limit(),
            old(self).wf() ==> final(self).wf(),
    {
        let ops = module.run();
        self.schedule("", ops);
        proof {
            assert(self.spec_tasks().subrange(0, old(self).spec_tasks().len() as int) =~= old(self).spec_tasks());
        }
    }

    /// The debug names of the tasks still queued, head first; the
    /// diagnostic to read after a stall or deadlock verdict.
    pub fn pending_names(&self) -> (r: Vec<&'static str>)
        ensures
            r@.len() == self.spec_tasks().len(),
            forall|i: int| 0 <= i < r@.len() ==> r@[i] == self.spec_tasks()[i].name,
    {
        let mut names: Vec<&'static str> = Vec::new();
        let n = self.tasks.len();
        let mut i: usize = 0;
        while i < n
            invariant
                i <= n,
                n == self.tasks@.len(),
                names@.len() == i,
                forall|j: int| 0 <= j < i ==> names@[j] == self.spec_tasks()[j].name,
            decreases n - i,
        {
            proof {
                assert(self.spec_tasks()[i as int] == self.tasks@[i as int]@);
            }
            names.push(self.tasks[i].name());
            i = i + 1;
        }
        names
    }

    /// Record scheduler steps taken by a run, saturating at the top.
    fn note_steps(&mut self, used: usize)
        ensures
            final(self).spec_tasks() == old(self).spec_tasks(),
            final(self).spec_state() == old(self).spec_state(),
            final(self).spec_cycles() == old(self).spec_cycles(),
            final(self).spec_step_limit() == old(self).spec_step_limit(),
            old(self).wf() ==> final(self).wf(),
    {
        self.steps = if self.steps <= usize::MAX - used {
            self.steps + used
        } else {
            usize::MAX
        };
    }

    /// Perform a single simulated clock cycle's fixed point: poll tasks in
    /// FIFO order until the queue is emptied, re-queueing each suspended
    /// task. Follows [`spec_run_from`] exactly: on success the queue is
    /// empty; a full pass without progress fails with `StallDeadlock`, and
    /// exceeding the step limit fails with `StallLimit`, both leaving the
    /// pending tasks queued for diagnosis.
    pub fn run(&mut self) -> (r: Result<(), EngineErr>)
        requires
            old(self).wf(),
        ensures
            final(self).wf(),
            final(self).spec_cycles() == old(self).spec_cycles(),
            final(self).spec_step_limit() == old(self).spec_step_limit(),
            ({
                let m = spec_run_from(
                    old(self).spec_tasks(),
                    old(self).spec_state().wires@,
                    old(self).spec_state().registers@,
                    0,
                    old(self).spec_step_limit() as int,
                    old(self).spec_tasks().len() as int,
                    false,
                );
                r == m.result && final(self).spec_tasks() == m.tasks && final(self).spec_state().wires@ == m.wires && final(self).spec_state().registers@ == m.regs
            }),
            r is Ok ==> final(self).spec_tasks().len() == 0,
    {
        let limit = self.step_limit;
        let ghost m0 = spec_run_from(
            self.spec_tasks(),
            self.state.wires@,
            self.state.registers@,
            0,
            limit as int,
            self.spec_tasks().len() as int,
            false,
        );
        let mut steps_used: usize = 0;
        let mut remaining: usize = self.tasks.len();
        let mut progress: bool = false;
        loop
            invariant
                self.wf(),
                limit == old(self).spec_step_limit(),
                self.step_limit == limit,
                self.cycles == old(self).cycles,
                steps_used <= limit,
                self.tasks@.len() > 0 ==> remaining >= 1,
                spec_run_from(
                    self.spec_tasks(),
                    self.state.wires@,
                    self.state.registers@,
                    steps_used as int,
                    limit as int,
                    remaining as int,
                    progress,
                ) == m0,
                m0 == spec_run_from(
                    old(self).spec_tasks(),
                    old(self).spec_state().wires@,
                    old(self).spec_state().registers@,
                    0,
                    limit as int,
                    old(self).spec_tasks().len() as int,
                    false,
                ),
            decreases limit - steps_used, self.tasks@.len(),
        {
            if self.tasks.len() == 0 {
                proof {
                    assert(m0 == RunModel {
                        tasks: self.spec_tasks(),
                        wires: self.state.wires@,
                        regs: self.state.registers@,
                        result: Ok::<(), EngineErr>(()),
                    });
                }
                self.note_steps(steps_used);
                return Ok(());
            }
            if steps_used >= limit {
                self.note_steps(steps_used);
                return Err(EngineErr::StallLimit);
            }
            let ghost tasks_before = self.spec_tasks();
            let mut t = self.tasks.pop_front().unwrap();
            proof {
                assert(t@ == tasks_before[0]);
                assert(self.tasks@.map_values(|x: EngineTask| x@) =~= tasks_before.drop_first());
                assert(task_model_wf(t@));
            }
            let pr = t.poll(&mut self.state);
            match pr {
                Err(e) => {
                    self.note_steps(steps_used);
                    return Err(e);
                },
                Ok(st) => {
                    if st.completed {
                        proof {
                            assert(forall|i: int|
                                0 <= i < self.spec_tasks().len() ==> task_model_wf(
                                    #[trigger] self.spec_tasks()[i],
                                ));
                        }
                    } else {
                        let ghost dropped = self.spec_tasks();
                        self.tasks.push_back(t);
                        steps_used = steps_used + 1;
                        proof {
                            assert(self.tasks@.map_values(|x: EngineTask| x@) =~= dropped.push(
                                t@,
                            ));
                        }
                    }
                    progress = progress || st.completed || st.wrote_wire;
                    remaining = remaining - 1;
                    if remaining == 0 {
                        if self.tasks.len() > 0 && !progress {
                            self.note_steps(steps_used);
                            return Err(EngineErr::StallDeadlock);
                        }
                        remaining = self.tasks.len();
                        progress = false;
                    }
                },
            }
        }
    }

    /// Reset the state of all wires, restoring cycle isolation.
    pub fn reset_wires(&mut self)
        ensures
            final(self).spec_state().wires@ == spec_reset_wires(old(self).spec_state().wires@),
            final(self).spec_state().registers == old(self).spec_state().registers,
            final(self).spec_tasks() == old(self).spec_tasks(),
            final(self).spec_cycles() == old(self).spec_cycles(),
            final(self).spec_steps() == old(self).spec_steps(),
            final(self).spec_step_limit() == old(self).spec_step_limit(),
            old(self).wf() ==> final(self).wf(),
    {
        self.state.wires.reset();
    }

    /// Commit the staged update of every register.
    pub fn update_registers(&mut self)
        ensures
            final(self).spec_state().registers@ == spec_commit_registers(
                old(self).spec_state().registers@,
            ),
            final(self).spec_state().wires == old(self).spec_state().wires,
            final(self).spec_tasks() == old(self).spec_tasks(),
            final(self).spec_cycles() == old(self).spec_cycles(),
            final(self).spec_steps() == old(self).spec_steps(),
            final(self).spec_step_limit() == old(self).spec_step_limit(),
            old(self).wf() ==> final(self).wf(),
    {
        self.state.registers.update();
    }

    /// Advance simulated time by one cycle: drain the queue via `run`,
    /// clear the wires, commit the registers and count the cycle. On a
    /// stall or conflict the verdict is returned and the boundary actions
    /// are not performed. Registers are not returned to their reset values
    /// here; that is a separate, explicitly invoked operation.
    pub fn step(&mut self) -> (r: Result<(), EngineErr>)
        requires
            old(self).wf(),
            old(self).spec_cycles() < usize::MAX,
        ensures
            final(self).wf(),
            final(self).spec_step_limit() == old(self).spec_step_limit(),
            ({
                let m = spec_run_from(
                    old(self).spec_tasks(),
                    old(self).spec_state().wires@,
                    old(self).spec_state().registers@,
                    0,
                    old(self).spec_step_limit() as int,
                    old(self).spec_tasks().len() as int,
                    false,
                );
                match m.result {
                    Ok(u) => r is Ok && final(self).spec_tasks().len() == 0 && final(self).spec_state().wires@ == spec_reset_wires(m.wires) && final(self).spec_state().registers@ == spec_commit_registers(m.regs) && final(self).spec_cycles() == old(self).spec_cycles() + 1,
                    Err(e) => r == Err::<(), EngineErr>(e) && final(self).spec_tasks() == m.tasks
                        && final(self).spec_state().wires@ == m.wires && final(self).spec_state().registers@ == m.regs && final(self).spec_cycles() == old(self).spec_cycles(),
                }
            }),
    {
        match self.run() {
            Err(e) => Err(e),
            Ok(u) => {
                self.reset_wires();
                self.update_registers();
                self.cycles = self.cycles + 1;
                Ok(())
            },
        }
    }
}

/// Dropping the polled head task and possibly re-queueing its advanced
/// state keeps every queued task well formed.
proof fn proof_all_tasks_wf_after(tasks: Seq<TaskModel>, polled: TaskModel, completed: bool)
    requires
        all_tasks_wf(tasks),
        tasks.len() > 0,
        task_model_wf(polled),
    ensures
        all_tasks_wf(tasks.drop_first()),
        all_tasks_wf(tasks.drop_first().push(polled)),
{
    assert forall|i: int| 0 <= i < tasks.drop_first().len() implies task_model_wf(
        #[trigger] tasks.drop_first()[i],
    ) by {
        assert(tasks.drop_first()[i] == tasks[i + 1]);
    }
    let q = tasks.drop_first().push(polled);
    assert forall|i: int| 0 <= i < q.len() implies task_model_wf(#[trigger] q[i]) by {
        if i < q.len() - 1 {
            assert(q[i] == tasks[i + 1]);
        } else {
            assert(q[i] == polled);
        }
    }
}

/// A whole run keeps wires monotone and registers stable: a wire driven at
/// any point of the cycle keeps that value for the rest of the cycle (the
/// single-driver rule at scheduler level), and registers expose their prior
/// values throughout the cycle, whatever the polling order did.
pub proof fn lemma_run_monotone(
    tasks: Seq<TaskModel>,
    wires: Seq<WireState>,
    regs: Seq<RegisterState>,
    steps: int,
    limit: int,
    remaining: int,
    progress: bool,
)
    requires
        0 <= steps <= limit,
        all_tasks_wf(tasks),
    ensures
        ({
            let m = spec_run_from(tasks, wires, regs, steps, limit, remaining, progress);
            crate::task::wires_monotone(wires, m.wires) && crate::task::regs_cycle_stable(
                regs,
                m.regs,
            )
        }),
    decreases limit - steps, tasks.len(),
{
    if tasks.len() == 0 {
    } else if steps >= limit {
    } else {
        let m = spec_poll_from(tasks[0], wires, regs, false);
        crate::task::lemma_poll_monotone(tasks[0], wires, regs, false);
        crate::task::lemma_poll_preserves_task(tasks[0], wires, regs, false);
        match m.result {
            Err(e) => {},
            Ok(st) => {
                proof_all_tasks_wf_after(tasks, m.task, st.completed);
                let tasks2 = if st.completed {
                    tasks.drop_first()
                } else {
                    tasks.drop_first().push(m.task)
                };
                let steps2 = if st.completed {
                    steps
                } else {
                    steps + 1
                };
                let progress2 = progress || st.completed || st.wrote_wire;
                let rem2 = remaining - 1;
                if rem2 <= 0 {
                    if tasks2.len() > 0 && !progress2 {
                    } else {
                        lemma_run_monotone(
                            tasks2,
                            m.wires,
                            m.regs,
                            steps2,
                            limit,
                            tasks2.len() as int,
                            false,
                        );
                    }
                } else {
                    lemma_run_monotone(tasks2, m.wires, m.regs, steps2, limit, rem2, progress2);
                }
            },
        }
    }
}

/// Cycle isolation at the boundary: whatever a cycle's run drove, after
/// the boundary reset that `step` performs, every allocated wire peeks as
/// undriven through any handle of the matching tag.
pub proof fn lemma_step_starts_isolated(
    tasks: Seq<TaskModel>,
    wires: Seq<WireState>,
    regs: Seq<RegisterState>,
    steps: int,
    limit: int,
    remaining: int,
    progress: bool,
    w: WireId,
)
    requires
        0 <= steps <= limit,
        all_tasks_wf(tasks),
        1 <= w.spec_id() <= wires.len(),
        wires[w.spec_id() - 1].tag == w.spec_tag(),
    ensures
        ({
            let m = spec_run_from(tasks, wires, regs, steps, limit, remaining, progress);
            spec_peek_wire(spec_reset_wires(m.wires), w) == Ok::<Option<Value>, EngineErr>(
                None::<Value>,
            )
        }),
{
    lemma_run_monotone(tasks, wires, regs, steps, limit, remaining, progress);
    let m = spec_run_from(tasks, wires, regs, steps, limit, remaining, progress);
    crate::wire::lemma_cycle_isolation(m.wires, w);
}

/// Progress verdicts of the fixed point: a successful run leaves the queue
/// empty, and a stall or deadlock verdict leaves at least one pending task
/// queued for diagnosis.
pub proof fn lemma_run_verdicts(
    tasks: Seq<TaskModel>,
    wires: Seq<WireState>,
    regs: Seq<RegisterState>,
    steps: int,
    limit: int,
    remaining: int,
    progress: bool,
)
    requires
        0 <= steps <= limit,
        all_tasks_wf(tasks),
    ensures
        ({
            let m = spec_run_from(tasks, wires, regs, steps, limit, remaining, progress);
            &&& (m.result is Ok ==> m.tasks.len() == 0)
            &&& (m.result == Err::<(), EngineErr>(EngineErr::StallDeadlock) ==> m.tasks.len() > 0)
            &&& (m.result == Err::<(), EngineErr>(EngineErr::StallLimit) ==> m.tasks.len() > 0)
            &&& m.result != Err::<(), EngineErr>(EngineErr::ReentrantSchedule)
        }),
    decreases limit - steps, tasks.len(),
{
    if tasks.len() == 0 {
    } else if steps >= limit {
    } else {
        let m = spec_poll_from(tasks[0], wires, regs, false);
        crate::task::lemma_poll_no_stall_verdict(tasks[0], wires, regs, false);
        crate::task::lemma_poll_preserves_task(tasks[0], wires, regs, false);
        match m.result {
            Err(e) => {},
            Ok(st) => {
                proof_all_tasks_wf_after(tasks, m.task, st.completed);
                let tasks2 = if st.completed {
                    tasks.drop_first()
                } else {
                    tasks.drop_first().push(m.task)
                };
                let steps2 = if st.completed {
                    steps
                } else {
                    steps + 1
                };
                let progress2 = progress || st.completed || st.wrote_wire;
                let rem2 = remaining - 1;
                if rem2 <= 0 {
                    if tasks2.len() > 0 && !progress2 {
                    } else {
                        lemma_run_verdicts(
                            tasks2,
                            m.wires,
                            m.regs,
                            steps2,
                            limit,
                            tasks2.len() as int,
                            false,
                        );
                    }
                } else {
                    lemma_run_verdicts(tasks2, m.wires, m.regs, steps2, limit, rem2, progress2);
                }
            },
        }
    }
}

} // verus!
