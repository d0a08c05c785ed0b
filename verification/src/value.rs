//! Runtime values and the append-only constant pool.

use vstd::prelude::*;
use vstd::string::StringExecFns;

use crate::text::dec_rep;
use crate::text::decimal_string;

verus! {

/// Constant value that appears as a literal in a program.
///
/// A number is held as the text of its numeral: the core never computes with
/// numbers, it only stores, copies and renders them, so the numeral text is
/// everything execution and disassembly read of a number. The collaborator
/// that builds a chunk renders each numeric literal once, at the boundary.
#[derive(Debug)]
pub enum Value {
    /// A numeric constant, held as its rendered numeral, for example `4.2`.
    Number(String),
    /// The empty value; its literal text is `nil`.
    Nil,
}

/// The debug text of a value: its numeral, or `nil`.
pub open spec fn value_text(v: Value) -> Seq<char> {
    match v {
        Value::Number(s) => s@,
        Value::Nil => "nil"@,
    }
}

/// Structural equality of two values: the same variant with the same payload.
pub open spec fn value_eq(a: Value, b: Value) -> bool {
    match (a, b) {
        (Value::Number(x), Value::Number(y)) => x@ == y@,
        (Value::Nil, Value::Nil) => true,
        _ => false,
    }
}

impl Clone for Value {
    fn clone(&self) -> (r: Value)
        ensures
            r == *self,
    {
        match self {
            Value::Number(s) => Value::Number(s.clone()),
            Value::Nil => Value::Nil,
        }
    }
}

impl PartialEq for Value {
    fn eq(&self, other: &Value) -> (r: bool) {
        match (self, other) {
            (Value::Number(x), Value::Number(y)) => *x == *y,
            (Value::Nil, Value::Nil) => true,
            _ => false,
        }
    }
}

impl vstd::std_specs::cmp::PartialEqSpecImpl for Value {
    open spec fn obeys_eq_spec() -> bool {
        true
    }

    open spec fn eq_spec(&self, other: &Value) -> bool {
        value_eq(*self, *other)
    }
}

impl Default for Value {
    /// The designated default value is `Nil`.
    fn default() -> (r: Value)
        ensures
            r == Value::Nil,
    {
        Value::Nil
    }
}

impl Value {
    /// The debug rendering: the plain numeral for a number, `nil` for nil.
    pub fn to_display_text(&self) -> (r: String)
        ensures
            r@ == value_text(*self),
    {
        match self {
            Value::Number(s) => s.clone(),
            Value::Nil => String::from_str("nil"),
        }
    }
}

/// Position of a value in [`Values`]. It is handed out by the pool's own
/// insertion operation and stays valid for the pool's life.
#[derive(Debug, PartialEq, Eq, Structural)]
pub struct ValuePosition(pub usize);

impl ValuePosition {
    /// The debug rendering: the raw numeral of the position.
    pub fn to_display_text(&self) -> (r: String)
        ensures
            r@ == dec_rep(self.0 as nat),
    {
        decimal_string(self.0)
    }
}

/// Collection of constant values: ordered and append-only, so positions are
/// stable for the pool's life.
pub struct Values(Vec<Value>);

impl View for Values {
    type V = Seq<Value>;

    closed spec fn view(&self) -> Seq<Value> {
        self.0@
    }
}

/// The value at slot `i` of a pool: the stored value when `i` is in range,
/// and `Nil` otherwise. Reading a pool is a total function by design.
pub open spec fn pool_get(pool: Seq<Value>, i: int) -> Value {
    if 0 <= i < pool.len() {
        pool[i]
    } else {
        Value::Nil
    }
}

impl Default for Values {
    /// A pool starts empty.
    fn default() -> (r: Values)
        ensures
            r@ == Seq::<Value>::empty(),
    {
        Values(Vec::new())
    }
}

impl Values {
    /// Appends `value`. The returned position addresses the new slot for the
    /// remainder of the pool's life; appending never fails.
    pub fn write(&mut self, value: Value) -> (position: ValuePosition)
        ensures
            final(self)@ == old(self)@.push(value),
            position.0 == old(self)@.len(),
    {
        self.0.push(value);
        ValuePosition(self.0.len() - 1)
    }

    /// The value at `position`, or `Nil` when the slot is out of range;
    /// never an error, never a panic.
    pub fn get(&self, position: &ValuePosition) -> (r: Value)
        ensures
            r == pool_get(self@, position.0 as int),
    {
        if position.0 < self.0.len() {
            self.0[position.0].clone()
        } else {
            Value::Nil
        }
    }
}

/// Law: writing `v` and reading the returned position back yields `v` itself.
pub proof fn lemma_write_then_get(pool: Seq<Value>, v: Value)
    ensures
        pool_get(pool.push(v), pool.len() as int) == v,
{
}

/// Law: a position that no write of the pool has returned is out of range,
/// and reading it yields `Nil`.
pub proof fn lemma_get_out_of_range(pool: Seq<Value>, i: int)
    requires
        i < 0 || i >= pool.len(),
    ensures
        pool_get(pool, i) == Value::Nil,
{
}

} // verus!
