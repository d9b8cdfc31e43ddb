//! The tree of plain values that is handed to the host.

use vstd::prelude::*;

verus! {

/// Upper bound on the number of items of a sequence that are handed to the
/// host: Lua indexes the items of a table with a 32-bit signed integer.
pub const MAX_SEQUENCE_LEN: usize = 2147483647;

/// An IEEE 754 double precision number, held as its bit pattern.
#[derive(Clone, Copy, Debug, PartialEq, Eq)]
pub struct Double {
    pub bits: u64,
}

/// A value as the host sees it.
#[derive(Debug, PartialEq, Eq)]
pub enum GenericValue {
    Null,
    Bool(bool),
    Integer(i64),
    Float(Double),
    String(String),
    /// Items in order.
    Sequence(Vec<GenericValue>),
    /// Fields in order, each with its name.
    Mapping(Vec<(String, GenericValue)>),
}

/// The mathematical model of a [`GenericValue`].
pub enum Value {
    Null,
    Bool(bool),
    Integer(int),
    Float(u64),
    String(Seq<char>),
    Sequence(Seq<Value>),
    Mapping(Seq<(Seq<char>, Value)>),
}

impl Value {
    /// The names of the fields of a mapping, in order; empty for any other value.
    pub open spec fn field_names(self) -> Seq<Seq<char>> {
        match self {
            Value::Mapping(fields) => Seq::new(fields.len(), |i: int| fields[i].0),
            _ => Seq::empty(),
        }
    }
}

/// The model of `v`: the same tree, with sequences in place of lists. (An
/// index that a sequence is built over always lies in the list.)
pub open spec fn value_of(v: GenericValue) -> Value
    decreases v,
{
    match v {
        GenericValue::Null => Value::Null,
        GenericValue::Bool(b) => Value::Bool(b),
        GenericValue::Integer(n) => Value::Integer(n as int),
        GenericValue::Float(x) => Value::Float(x.bits),
        GenericValue::String(s) => Value::String(s@),
        GenericValue::Sequence(items) => Value::Sequence(
            Seq::new(
                items@.len(),
                |i: int|
                    if 0 <= i < items@.len() {
                        value_of(items@[i])
                    } else {
                        Value::Null
                    },
            ),
        ),
        GenericValue::Mapping(fields) => Value::Mapping(
            Seq::new(
                fields@.len(),
                |i: int|
                    if 0 <= i < fields@.len() {
                        (fields@[i].0@, value_of(fields@[i].1))
                    } else {
                        (Seq::empty(), Value::Null)
                    },
            ),
        ),
    }
}

impl View for GenericValue {
    type V = Value;

    open spec fn view(&self) -> Value {
        value_of(*self)
    }
}

/// The models of the items of a list.
pub open spec fn values_of(items: Seq<GenericValue>) -> Seq<Value> {
    Seq::new(items.len(), |i: int| items[i]@)
}

/// The models of the fields of a list, each with its name.
pub open spec fn fields_of(fields: Seq<(String, GenericValue)>) -> Seq<(Seq<char>, Value)> {
    Seq::new(fields.len(), |i: int| (fields[i].0@, fields[i].1@))
}

impl GenericValue {
    /// The sequence of `items`.
    pub fn sequence(items: Vec<GenericValue>) -> (v: GenericValue)
        ensures
            v@ == Value::Sequence(values_of(items@)),
    {
        let ghost model = values_of(items@);
        let v = GenericValue::Sequence(items);
        assert(v@->Sequence_0 =~= model);
        v
    }

    /// The mapping with `fields`.
    pub fn mapping(fields: Vec<(String, GenericValue)>) -> (v: GenericValue)
        ensures
            v@ == Value::Mapping(fields_of(fields@)),
    {
        let ghost model = fields_of(fields@);
        let v = GenericValue::Mapping(fields);
        assert(v@->Mapping_0 =~= model);
        v
    }
}

/// Appends `value` to `items`.
pub fn push_item(items: &mut Vec<GenericValue>, value: GenericValue)
    ensures
        values_of(final(items)@) == values_of(old(items)@).push(value@),
{
    let ghost model = values_of(items@).push(value@);
    items.push(value);
    assert(values_of(items@) =~= model);
}

/// Appends the field `name` with `value` to `fields`.
pub fn set_field(fields: &mut Vec<(String, GenericValue)>, name: &str, value: GenericValue)
    ensures
        fields_of(final(fields)@) == fields_of(old(fields)@).push((name@, value@)),
{
    let ghost model = fields_of(fields@).push((name@, value@));
    fields.push((name.to_owned(), value));
    assert(fields_of(fields@) =~= model);
}

} // verus!
