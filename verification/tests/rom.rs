use mafic::{Engine, EngineState, ModuleLike, Op, Operand, RegisterId, TypeTag, Value, WireId};

/// A read request.
pub struct ReadPortReq {
    /// Index
    idx: WireId,
    /// Enable
    en: WireId,
}

impl ReadPortReq {
    pub fn new(e: &mut EngineState) -> Self {
        Self {
            idx: e.wires.alloc_wire(TypeTag::U32),
            en: e.wires.alloc_wire(TypeTag::Bool),
        }
    }
}

/// A read response.
pub struct ReadPortResp {
    /// Read result
    data: WireId,
}

impl ReadPortResp {
    pub fn new(e: &mut EngineState) -> Self {
        Self { data: e.wires.alloc_wire(TypeTag::U64) }
    }
}

/// A read port.
pub struct ReadPort {
    /// Request
    req: ReadPortReq,
    /// Response
    resp: ReadPortResp,
}

impl ReadPort {
    pub fn new(e: &mut EngineState) -> Self {
        Self { req: ReadPortReq::new(e), resp: ReadPortResp::new(e) }
    }
}

/// A read-only memory device with two read ports, holding 0..16 as its
/// contents (registers that nothing ever drives).
pub struct Rom {
    rp: Vec<ReadPort>,
    data: Vec<RegisterId>,
}

impl ModuleLike for Rom {
    fn new_instance(state: &mut EngineState) -> Self {
        let mut data = Vec::new();
        for i in 0..16u64 {
            data.push(state.registers.alloc_register(Value::U64(i)));
        }
        let mut rp = Vec::new();
        for _ in 0..2 {
            rp.push(ReadPort::new(state));
        }
        Self { rp, data }
    }

    fn run(&self) -> Vec<Op> {
        let mut ops = Vec::new();
        // For each read port: wait for the index and enable bit, and
        // drive a response when the enable bit is high.
        for (pid, port) in self.rp.iter().enumerate() {
            let s0 = 3 * pid;
            ops.push(port.req.idx.sample(s0));
            ops.push(port.req.en.sample(s0 + 1));
            ops.push(Op::SkipUnless { cond: Operand::Slot(s0 + 1), count: 2 });
            ops.push(Op::SampleRegisterAt {
                bank: self.data.clone(),
                index: Operand::Slot(s0),
                slot: s0 + 2,
            });
            ops.push(port.resp.data.drive(Operand::Slot(s0 + 2)));
        }
        ops
    }
}

pub struct RomTestbench {
    rom: Rom,
}

impl ModuleLike for RomTestbench {
    fn new_instance(state: &mut EngineState) -> Self {
        Self { rom: Rom::new_instance(state) }
    }

    fn run(&self) -> Vec<Op> {
        vec![
            self.rom.rp[0].req.idx.drive(Operand::Lit(Value::U32(5))),
            self.rom.rp[0].req.en.drive(Operand::Lit(Value::Bool(true))),
            self.rom.rp[1].req.idx.drive(Operand::Lit(Value::U32(0))),
            self.rom.rp[1].req.en.drive(Operand::Lit(Value::Bool(false))),
            self.rom.rp[0].resp.data.sample(0),
        ]
    }
}

#[test]
fn test_rom() {
    let mut state = EngineState::new_shareable();
    let rom = RomTestbench::new_instance(&mut state);
    let mut e = Engine::new(state);

    e.schedule_module(&rom);
    e.schedule_module(&rom.rom);
    e.run().unwrap();

    let data = e.state().wires.peek_wire(rom.rom.rp[0].resp.data).unwrap().unwrap();
    assert!(data == Value::U64(5));

    // The disabled port keeps its response undriven.
    assert_eq!(e.state().wires.peek_wire(rom.rom.rp[1].resp.data), Ok(None));

    drop(e);
}
