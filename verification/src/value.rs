//! The closed set of signal value types the simulator can carry.
//!
//! Cells in the wire and register maps are type-erased behind [`Value`]: a
//! tagged union of the small, trivially copyable types a signal may hold.
//! Every handle carries the [`TypeTag`] of its signal, and every access
//! through a handle is checked against the tag stored in the cell.

use vstd::prelude::*;

verus! {

/// Which of the two signal planes (wires or registers) a handle points into.
#[derive(Clone, Copy, PartialEq, Eq, Structural, Debug)]
pub enum SignalKind {
    Wire,
    Register,
}

/// The value type of a signal, as carried by handles and cells.
#[derive(Clone, Copy, PartialEq, Eq, Structural, Debug)]
pub enum TypeTag {
    Bool,
    U32,
    U64,
}

/// A simulated signal value: one variant per supported value type.
#[derive(Clone, Copy, PartialEq, Eq, Structural, Debug)]
pub enum Value {
    Bool(bool),
    U32(u32),
    U64(u64),
}

/// The tag describing which variant a value holds.
pub open spec fn spec_tag_of(v: Value) -> TypeTag {
    match v {
        Value::Bool(_) => TypeTag::Bool,
        Value::U32(_) => TypeTag::U32,
        Value::U64(_) => TypeTag::U64,
    }
}

/// Executable twin of [`spec_tag_of`].
pub fn tag_of(v: &Value) -> (t: TypeTag)
    ensures
        t == spec_tag_of(*v),
{
    match v {
        Value::Bool(_) => TypeTag::Bool,
        Value::U32(_) => TypeTag::U32,
        Value::U64(_) => TypeTag::U64,
    }
}

/// Wrapping addition on same-typed numeric values; `None` when the operands
/// are booleans or their types differ.
pub open spec fn spec_add_values(a: Value, b: Value) -> Option<Value> {
    match (a, b) {
        (Value::U32(x), Value::U32(y)) => Some(
            Value::U32(
                if x + y <= u32::MAX {
                    (x + y) as u32
                } else {
                    (x + y - 0x1_0000_0000) as u32
                },
            ),
        ),
        (Value::U64(x), Value::U64(y)) => Some(
            Value::U64(
                if x + y <= u64::MAX {
                    (x + y) as u64
                } else {
                    (x + y - 0x1_0000_0000_0000_0000) as u64
                },
            ),
        ),
        _ => None,
    }
}

/// Executable twin of [`spec_add_values`].
pub fn add_values(a: &Value, b: &Value) -> (r: Option<Value>)
    ensures
        r == spec_add_values(*a, *b),
{
    match (a, b) {
        (Value::U32(x), Value::U32(y)) => {
            let s: u32 = if *x <= u32::MAX - *y {
                *x + *y
            } else {
                (((*x as u64) + (*y as u64)) - 0x1_0000_0000u64) as u32
            };
            Some(Value::U32(s))
        },
        (Value::U64(x), Value::U64(y)) => {
            let s: u64 = if *x <= u64::MAX - *y {
                *x + *y
            } else {
                // Both operands are at most `u64::MAX`, so the wrapped sum
                // fits once the modulus is taken out in two subtractions.
                (*x - (u64::MAX - *y)) - 1
            };
            Some(Value::U64(s))
        },
        _ => None,
    }
}

} // verus!
