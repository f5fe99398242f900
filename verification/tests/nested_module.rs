use mafic::{EngineState, Mafic, ModuleLike, Op, Operand, TypeTag, Value, WireId};

pub struct Adder {
    x: WireId,
    y: WireId,
    z: WireId,
}

impl ModuleLike for Adder {
    fn new_instance(state: &mut EngineState) -> Self {
        Self {
            x: state.wires.alloc_wire(TypeTag::U32),
            y: state.wires.alloc_wire(TypeTag::U32),
            z: state.wires.alloc_wire(TypeTag::U32),
        }
    }

    fn run(&self) -> Vec<Op> {
        vec![
            self.x.sample(0),
            self.y.sample(1),
            Op::Add { slot: 2, a: Operand::Slot(0), b: Operand::Slot(1) },
            self.z.drive(Operand::Slot(2)),
        ]
    }
}

pub struct Top {
    x: WireId,
    y: WireId,
    z: WireId,
    adder: Adder,
}

impl ModuleLike for Top {
    fn new_instance(state: &mut EngineState) -> Self {
        Self {
            x: state.wires.alloc_wire(TypeTag::U32),
            y: state.wires.alloc_wire(TypeTag::U32),
            z: state.wires.alloc_wire(TypeTag::U32),
            adder: Adder::new_instance(state),
        }
    }

    fn run(&self) -> Vec<Op> {
        vec![
            self.adder.x.assign(self.x),
            self.adder.y.assign(self.y),
            self.z.assign(self.adder.z),
        ]
    }
}

#[test]
fn nested_module() {
    let mut m = Mafic::new();
    let top = Top::new_instance(m.with_state());

    let mut e = m.init_engine();
    e.schedule(
        "poke",
        vec![
            top.x.drive(Operand::Lit(Value::U32(0x1111_1111))),
            top.y.drive(Operand::Lit(Value::U32(0x2222_2222))),
        ],
    );
    e.schedule_module(&top);
    e.schedule_module(&top.adder);
    e.run().unwrap();

    let x = e.state().wires.peek_wire(top.z).unwrap().unwrap();
    assert!(x == Value::U32(0x3333_3333));

    e.step().unwrap();

    e.schedule(
        "poke",
        vec![
            top.x.drive(Operand::Lit(Value::U32(0x1111_1111))),
            top.y.drive(Operand::Lit(Value::U32(0x2222_2222))),
        ],
    );
    e.schedule_module(&top);
    e.schedule_module(&top.adder);
    e.run().unwrap();

    let x = e.state().wires.peek_wire(top.z).unwrap().unwrap();
    assert!(x == Value::U32(0x3333_3333));
}
