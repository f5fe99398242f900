use mafic::{Engine, EngineErr, EngineState, Op, Operand, TypeTag, Value};

#[test]
fn deadlock_two_tasks() {
    // A samples w1 then drives w2; B samples w2 then drives w1: a cyclic
    // data dependency, reported as a deadlock with both tasks pending.
    let mut state = EngineState::new_shareable();
    let w1 = state.wires.alloc_wire(TypeTag::U64);
    let w2 = state.wires.alloc_wire(TypeTag::U64);

    let mut e = Engine::new(state);
    e.schedule("A", vec![w1.sample(0), w2.drive(Operand::Slot(0))]);
    e.schedule("B", vec![w2.sample(0), w1.drive(Operand::Slot(0))]);

    assert_eq!(e.run(), Err(EngineErr::StallDeadlock));
    assert_eq!(e.pending_names(), vec!["A", "B"]);
}

#[test]
fn unsatisfiable_read_is_deadlock() {
    // A read of a wire that nobody drives this cycle can never complete.
    let mut state = EngineState::new_shareable();
    let w = state.wires.alloc_wire(TypeTag::U64);
    let mut e = Engine::new(state);
    e.schedule("orphan", vec![w.sample(0)]);
    assert_eq!(e.run(), Err(EngineErr::StallDeadlock));
    assert_eq!(e.pending_names(), vec!["orphan"]);
}

#[test]
fn stall_limit_hits_before_long_chains_finish() {
    // A dependency chain that makes progress every pass still counts
    // suspensions; a tight step limit cuts it off with a stall verdict.
    let mut state = EngineState::new_shareable();
    let w1 = state.wires.alloc_wire(TypeTag::U64);
    let w2 = state.wires.alloc_wire(TypeTag::U64);
    let w3 = state.wires.alloc_wire(TypeTag::U64);
    let w4 = state.wires.alloc_wire(TypeTag::U64);

    let mut e = Engine::new(state);
    e.set_step_limit(2);
    e.schedule("t3", vec![w3.sample(0), w4.drive(Operand::Slot(0))]);
    e.schedule("t2", vec![w2.sample(0), w3.drive(Operand::Slot(0))]);
    e.schedule("t1", vec![w1.sample(0), w2.drive(Operand::Slot(0))]);
    e.schedule("stim", vec![w1.drive(Operand::Lit(Value::U64(1)))]);

    assert_eq!(e.run(), Err(EngineErr::StallLimit));
}

#[test]
fn chain_completes_with_default_limit() {
    // The same chain drains under the default step limit, in FIFO order,
    // whatever order the tasks were scheduled in.
    let mut state = EngineState::new_shareable();
    let w1 = state.wires.alloc_wire(TypeTag::U64);
    let w2 = state.wires.alloc_wire(TypeTag::U64);
    let w3 = state.wires.alloc_wire(TypeTag::U64);
    let w4 = state.wires.alloc_wire(TypeTag::U64);

    let mut e = Engine::new(state);
    e.schedule("t3", vec![w3.sample(0), w4.drive(Operand::Slot(0))]);
    e.schedule("t2", vec![w2.sample(0), w3.drive(Operand::Slot(0))]);
    e.schedule("t1", vec![w1.sample(0), w2.drive(Operand::Slot(0))]);
    e.schedule("stim", vec![w1.drive(Operand::Lit(Value::U64(11)))]);

    e.run().unwrap();
    assert_eq!(e.pending_names().len(), 0);
    assert_eq!(e.state().wires.peek_wire(w4), Ok(Some(Value::U64(11))));
}

#[test]
fn wire_conflict_is_fatal() {
    // A second successful drive of the same wire in one cycle is rejected,
    // reporting the wire and both values; the first value stays.
    let mut state = EngineState::new_shareable();
    let w = state.wires.alloc_wire(TypeTag::U64);
    let mut e = Engine::new(state);
    e.schedule("first", vec![w.drive(Operand::Lit(Value::U64(1)))]);
    e.schedule("second", vec![w.drive(Operand::Lit(Value::U64(2)))]);
    assert_eq!(
        e.run(),
        Err(EngineErr::WireConflict {
            id: w.id(),
            prev: Value::U64(1),
            attempted: Value::U64(2),
        })
    );
    assert_eq!(e.state().wires.peek_wire(w), Ok(Some(Value::U64(1))));
}

#[test]
fn register_conflict_is_fatal() {
    // Two staged drives of one register in one cycle are a conflict; the
    // first staged value wins nothing - the run is fatal.
    let mut state = EngineState::new_shareable();
    let r = state.registers.alloc_register(Value::U64(0));
    let mut e = Engine::new(state);
    e.schedule(
        "driver",
        vec![
            r.drive(Operand::Lit(Value::U64(1))),
            r.drive(Operand::Lit(Value::U64(2))),
        ],
    );
    assert_eq!(
        e.run(),
        Err(EngineErr::RegisterConflict {
            id: r.id(),
            prev: Value::U64(1),
            attempted: Value::U64(2),
        })
    );
    // The current value is untouched either way.
    assert_eq!(e.state().registers.peek_register(r), Ok(Value::U64(0)));
}

#[test]
fn cycle_isolation_after_step() {
    // Every wire peeks as undriven at the start of the next cycle.
    let mut state = EngineState::new_shareable();
    let w1 = state.wires.alloc_wire(TypeTag::U64);
    let w2 = state.wires.alloc_wire(TypeTag::Bool);
    let mut e = Engine::new(state);
    e.schedule(
        "stim",
        vec![
            w1.drive(Operand::Lit(Value::U64(5))),
            w2.drive(Operand::Lit(Value::Bool(true))),
        ],
    );
    e.run().unwrap();
    assert_eq!(e.state().wires.peek_wire(w1), Ok(Some(Value::U64(5))));
    e.step().unwrap();
    assert_eq!(e.state().wires.peek_wire(w1), Ok(None));
    assert_eq!(e.state().wires.peek_wire(w2), Ok(None));
}

#[test]
fn undefined_slot_is_fatal() {
    // Driving from a slot that no sample ever filled is a task error.
    let mut state = EngineState::new_shareable();
    let w = state.wires.alloc_wire(TypeTag::U64);
    let mut e = Engine::new(state);
    e.schedule("bad", vec![w.drive(Operand::Slot(0))]);
    assert_eq!(e.run(), Err(EngineErr::UndefinedSlot { slot: 0 }));
}

#[test]
fn bad_bank_index_is_fatal() {
    // Indexing a register bank outside its bounds is a task error.
    let mut state = EngineState::new_shareable();
    let r = state.registers.alloc_register(Value::U64(0));
    let w = state.wires.alloc_wire(TypeTag::U64);
    let mut e = Engine::new(state);
    e.schedule(
        "bad",
        vec![
            Op::SampleRegisterAt { bank: vec![r], index: Operand::Lit(Value::U32(5)), slot: 0 },
            w.drive(Operand::Slot(0)),
        ],
    );
    assert_eq!(e.run(), Err(EngineErr::BadIndex { index: 5, len: 1 }));
}

#[test]
fn skip_unless_needs_a_boolean() {
    // A conditional skip on a non-boolean operand is a type error.
    let state = EngineState::new_shareable();
    let mut e = Engine::new(state);
    e.schedule(
        "bad",
        vec![Op::SkipUnless { cond: Operand::Lit(Value::U64(1)), count: 1 }],
    );
    assert_eq!(
        e.run(),
        Err(EngineErr::TypeMismatch { expected: TypeTag::Bool, found: TypeTag::U64 })
    );
}

#[test]
fn add_needs_matching_numeric_types() {
    // Adding a u32 to a u64 is a type error reported with both tags.
    let state = EngineState::new_shareable();
    let mut e = Engine::new(state);
    e.schedule(
        "bad",
        vec![Op::Add {
            slot: 0,
            a: Operand::Lit(Value::U32(1)),
            b: Operand::Lit(Value::U64(1)),
        }],
    );
    assert_eq!(
        e.run(),
        Err(EngineErr::TypeMismatch { expected: TypeTag::U32, found: TypeTag::U64 })
    );
}
