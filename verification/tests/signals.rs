use mafic::value::add_values;
use mafic::{
    EngineErr, Mafic, RegisterId, RegisterMap, SignalKind, StageOutcome, TypeTag, Value, WireId,
    WireMap, WriteOutcome,
};

#[test]
fn wire_map_write_then_conflict() {
    let mut wm = WireMap::new();
    let w = wm.alloc_wire(TypeTag::U64);
    assert_eq!(w.id(), 1);
    assert_eq!(w.type_tag(), TypeTag::U64);
    assert_eq!(wm.peek_wire(w), Ok(None));
    assert_eq!(wm.read(w), Ok(None));

    assert_eq!(wm.write(w, Value::U64(10)), Ok(WriteOutcome::Fresh));
    assert_eq!(wm.peek_wire(w), Ok(Some(Value::U64(10))));

    // The second drive reports the first value and changes nothing.
    assert_eq!(wm.write(w, Value::U64(11)), Ok(WriteOutcome::Conflict(Value::U64(10))));
    assert_eq!(wm.peek_wire(w), Ok(Some(Value::U64(10))));

    wm.reset();
    assert_eq!(wm.peek_wire(w), Ok(None));
}

#[test]
fn wire_map_unknown_handle() {
    let wm = WireMap::new();
    let ghostly = WireId::new(7, TypeTag::U64);
    assert_eq!(
        wm.peek_wire(ghostly),
        Err(EngineErr::UnknownHandle { kind: SignalKind::Wire, id: 7 })
    );
}

#[test]
fn wire_map_type_mismatch() {
    // Peeking through a handle of the wrong tag is fatal, whatever the
    // cell holds.
    let mut wm = WireMap::new();
    let w = wm.alloc_wire(TypeTag::U64);
    let wrong = WireId::new(w.id(), TypeTag::Bool);
    assert_eq!(
        wm.peek_wire(wrong),
        Err(EngineErr::TypeMismatch { expected: TypeTag::U64, found: TypeTag::Bool })
    );
    // Writing a value of the wrong type is fatal too.
    assert_eq!(
        wm.write(w, Value::Bool(true)),
        Err(EngineErr::TypeMismatch { expected: TypeTag::U64, found: TypeTag::Bool })
    );
}

#[test]
fn register_map_stage_conflict_and_commit() {
    let mut rm = RegisterMap::new();
    let r = rm.alloc_register(Value::U32(3));
    assert_eq!(r.id(), 1);
    assert_eq!(r.type_tag(), TypeTag::U32);
    assert_eq!(rm.peek_register(r), Ok(Value::U32(3)));

    assert_eq!(rm.stage(r, Value::U32(4)), Ok(StageOutcome::Fresh));
    assert_eq!(rm.stage(r, Value::U32(5)), Ok(StageOutcome::Conflict(Value::U32(4))));
    assert_eq!(rm.peek_register(r), Ok(Value::U32(3)));
    rm.update();
    assert_eq!(rm.peek_register(r), Ok(Value::U32(4)));
    // A commit with nothing staged changes nothing.
    rm.update();
    assert_eq!(rm.peek_register(r), Ok(Value::U32(4)));
}

#[test]
fn register_map_unknown_and_mismatch() {
    let mut rm = RegisterMap::new();
    let r = rm.alloc_register(Value::Bool(false));
    assert_eq!(
        rm.peek_register(RegisterId::new(9, TypeTag::Bool)),
        Err(EngineErr::UnknownHandle { kind: SignalKind::Register, id: 9 })
    );
    assert_eq!(
        rm.stage(r, Value::U64(1)),
        Err(EngineErr::TypeMismatch { expected: TypeTag::Bool, found: TypeTag::U64 })
    );
}

#[test]
fn wire_and_register_ids_are_independent() {
    // Register ids share an independent namespace from wires: both start
    // at 1.
    let mut m = Mafic::new();
    let w = m.wire(TypeTag::U64);
    let r = m.reg(Value::U64(0));
    assert_eq!(w.id(), 1);
    assert_eq!(r.id(), 1);
    let w2 = m.wire(TypeTag::Bool);
    assert_eq!(w2.id(), 2);
    assert_eq!(m.peek(w), Ok(None));
    assert_eq!(m.read(r), Ok(Value::U64(0)));
}

#[test]
fn value_addition_wraps() {
    assert_eq!(
        add_values(&Value::U32(0xffff_ffff), &Value::U32(1)),
        Some(Value::U32(0))
    );
    assert_eq!(
        add_values(&Value::U32(0x1111_1111), &Value::U32(0x2222_2222)),
        Some(Value::U32(0x3333_3333))
    );
    assert_eq!(
        add_values(&Value::U64(u64::MAX), &Value::U64(5)),
        Some(Value::U64(4))
    );
    assert_eq!(add_values(&Value::U64(1), &Value::U32(1)), None);
    assert_eq!(add_values(&Value::Bool(true), &Value::Bool(true)), None);
}
