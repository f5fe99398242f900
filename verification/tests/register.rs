use mafic::{Engine, EngineState, ModuleLike, Op, Operand, RegisterId, TypeTag, Value, WireId};

pub struct ModuleA {
    out: WireId,
    reg: RegisterId,
}

impl ModuleLike for ModuleA {
    fn new_instance(state: &mut EngineState) -> Self {
        Self {
            out: state.wires.alloc_wire(TypeTag::U64),
            reg: state.registers.alloc_register(Value::U64(0)),
        }
    }

    fn run(&self) -> Vec<Op> {
        vec![
            self.reg.sample(0),
            self.out.drive(Operand::Slot(0)),
            Op::Add { slot: 1, a: Operand::Slot(0), b: Operand::Lit(Value::U64(1)) },
            self.reg.drive(Operand::Slot(1)),
        ]
    }
}

#[test]
fn simple_register() {
    let mut state = EngineState::new_shareable();

    let out = state.wires.alloc_wire(TypeTag::U64);
    let reg = state.registers.alloc_register(Value::U64(0));

    let a = ModuleA { out, reg };

    let mut e = Engine::new(state);

    for _ in 0..3 {
        e.schedule("MyModule", a.run());
        e.run().unwrap();
        e.update_registers();
        e.reset_wires();
    }

    drop(e);
}

#[test]
fn register_increment() {
    // Register `reg` (init 0) and wire `out`; each cycle samples the
    // register, mirrors it on the wire and stages an increment. After
    // cycle k the register reads k; during cycle k the wire reads k - 1.
    let mut state = EngineState::new_shareable();
    let out = state.wires.alloc_wire(TypeTag::U64);
    let reg = state.registers.alloc_register(Value::U64(0));
    let a = ModuleA { out, reg };

    let mut e = Engine::new(state);
    for k in 1u64..=3 {
        e.schedule_module(&a);
        e.run().unwrap();
        // During cycle k, before the boundary: the wire shows the old
        // register value and the register still reads it too.
        assert_eq!(e.state().wires.peek_wire(out), Ok(Some(Value::U64(k - 1))));
        assert_eq!(e.state().registers.peek_register(reg), Ok(Value::U64(k - 1)));
        e.reset_wires();
        e.update_registers();
        // After the boundary the staged increment has been committed.
        assert_eq!(e.state().registers.peek_register(reg), Ok(Value::U64(k)));
        assert_eq!(e.state().wires.peek_wire(out), Ok(None));
    }
}

#[test]
fn register_reset_value_and_reset_all() {
    // A register allocated with init = v reads v before any drive; after
    // a staged drive and a commit, reset_all returns it to v.
    let mut rm = mafic::RegisterMap::new();
    let r = rm.alloc_register(Value::U64(7));
    assert_eq!(rm.peek_register(r), Ok(Value::U64(7)));
    assert!(matches!(rm.stage(r, Value::U64(9)), Ok(mafic::StageOutcome::Fresh)));
    // The staged value is not visible before the commit.
    assert_eq!(rm.peek_register(r), Ok(Value::U64(7)));
    rm.update();
    assert_eq!(rm.peek_register(r), Ok(Value::U64(9)));
    rm.reset_all();
    assert_eq!(rm.peek_register(r), Ok(Value::U64(7)));
}

#[test]
fn register_commit_via_step() {
    // A register driven with v during cycle k reads v from cycle k + 1 on.
    let mut state = EngineState::new_shareable();
    let reg = state.registers.alloc_register(Value::U64(7));
    assert_eq!(state.registers.peek_register(reg), Ok(Value::U64(7)));

    let mut e = Engine::new(state);
    e.schedule("bump", vec![reg.drive(Operand::Lit(Value::U64(41)))]);
    e.step().unwrap();
    assert_eq!(e.state().registers.peek_register(reg), Ok(Value::U64(41)));
    assert_eq!(e.cycles(), 1);
}
