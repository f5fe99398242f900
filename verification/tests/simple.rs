use mafic::{Engine, EngineState, ModuleLike, Op, Operand, TypeTag, Value, WireId};

pub struct ModuleA {
    msg_out: WireId,
    resp_in: WireId,
}

impl ModuleLike for ModuleA {
    fn new_instance(state: &mut EngineState) -> Self {
        Self {
            msg_out: state.wires.alloc_wire(TypeTag::U64),
            resp_in: state.wires.alloc_wire(TypeTag::U64),
        }
    }

    fn run(&self) -> Vec<Op> {
        vec![
            // Drive a constant value on this wire (to module B)
            self.msg_out.drive(Operand::Lit(Value::U64(0xdeadbeef))),
            // Wait for a message (from module B)
            self.resp_in.sample(0),
        ]
    }
}

pub struct ModuleB {
    msg_in: WireId,
    resp_out: WireId,
}

impl ModuleLike for ModuleB {
    fn new_instance(state: &mut EngineState) -> Self {
        Self {
            msg_in: state.wires.alloc_wire(TypeTag::U64),
            resp_out: state.wires.alloc_wire(TypeTag::U64),
        }
    }

    fn run(&self) -> Vec<Op> {
        vec![
            // Wait for a message (from module A)
            self.msg_in.sample(0),
            // Drive the response (to module A)
            Op::Add { slot: 1, a: Operand::Slot(0), b: Operand::Lit(Value::U64(1)) },
            self.resp_out.drive(Operand::Slot(1)),
        ]
    }
}

#[test]
fn simple_test_wires() {
    let mut state = EngineState::new_shareable();

    let a = ModuleA::new_instance(&mut state);
    let b = ModuleB::new_instance(&mut state);

    let mut e = Engine::new(state);

    e.schedule(
        "poke",
        vec![b.msg_in.assign(a.msg_out), a.resp_in.assign(b.resp_out)],
    );
    e.schedule_module(&a);
    e.schedule_module(&b);
    e.run().unwrap();

    // The response module A waited on is its message plus one.
    assert_eq!(
        e.state().wires.peek_wire(a.resp_in),
        Ok(Some(Value::U64(0xdeadbeef + 1)))
    );

    drop(e);
}

fn producer_consumer_values(first_a: bool) -> (Result<(), mafic::EngineErr>, Option<Value>, Option<Value>) {
    let mut state = EngineState::new_shareable();
    let m = state.wires.alloc_wire(TypeTag::U64);
    let r = state.wires.alloc_wire(TypeTag::U64);

    let task_a = vec![m.drive(Operand::Lit(Value::U64(0xdeadbeef))), r.sample(0)];
    let task_b = vec![
        m.sample(0),
        Op::Add { slot: 1, a: Operand::Slot(0), b: Operand::Lit(Value::U64(1)) },
        r.drive(Operand::Slot(1)),
    ];

    let mut e = Engine::new(state);
    if first_a {
        e.schedule("A", task_a);
        e.schedule("B", task_b);
    } else {
        e.schedule("B", task_b);
        e.schedule("A", task_a);
    }
    let verdict = e.run();
    let mv = e.state().wires.peek_wire(m).unwrap();
    let rv = e.state().wires.peek_wire(r).unwrap();
    (verdict, mv, rv)
}

#[test]
fn producer_consumer_order_independent() {
    // Permuting the schedule order of an acyclic graph leaves the final
    // wire values unchanged.
    let (va, ma, ra) = producer_consumer_values(true);
    let (vb, mb, rb) = producer_consumer_values(false);
    assert!(va.is_ok());
    assert!(vb.is_ok());
    assert_eq!(ma, Some(Value::U64(0xdeadbeef)));
    assert_eq!(ra, Some(Value::U64(0xdeadbeef + 1)));
    assert_eq!(ma, mb);
    assert_eq!(ra, rb);
}
