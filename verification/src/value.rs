//! The physical shape of a value that is about to be decoded.

use vstd::prelude::*;

verus! {

/// A value as the decoding framework found it, before any type is given to it.
#[derive(Debug, PartialEq)]
pub enum Value {
    /// A string.
    Text(String),
    Bool(bool),
    I8(i8),
    I16(i16),
    I32(i32),
    I64(i64),
    I128(i128),
    U8(u8),
    U16(u16),
    U32(u32),
    U64(u64),
    U128(u128),
    /// A 32-bit floating-point number, by its bits.
    F32(u32),
    /// A 64-bit floating-point number, by its bits.
    F64(u64),
    Char(char),
    /// A byte string.
    Bytes(Vec<u8>),
    /// An ordered list.
    Sequence(Vec<Value>),
    /// A keyed map, as its entries in order.
    Mapping(Vec<(Value, Value)>),
    /// The unit or null value: a shape that no wrapped field is decoded from.
    Unit,
}

/// Model of a [`Value`].
pub enum ValueModel {
    Text(Seq<char>),
    Bool(bool),
    I8(i8),
    I16(i16),
    I32(i32),
    I64(i64),
    I128(i128),
    U8(u8),
    U16(u16),
    U32(u32),
    U64(u64),
    U128(u128),
    F32(u32),
    F64(u64),
    Char(char),
    Bytes(Seq<u8>),
    Sequence(Seq<ValueModel>),
    Mapping(Seq<(ValueModel, ValueModel)>),
    Unit,
}

pub open spec fn value_model(value: Value) -> ValueModel
    decreases value,
{
    match value {
        Value::Text(text) => ValueModel::Text(text@),
        Value::Bool(v) => ValueModel::Bool(v),
        Value::I8(v) => ValueModel::I8(v),
        Value::I16(v) => ValueModel::I16(v),
        Value::I32(v) => ValueModel::I32(v),
        Value::I64(v) => ValueModel::I64(v),
        Value::I128(v) => ValueModel::I128(v),
        Value::U8(v) => ValueModel::U8(v),
        Value::U16(v) => ValueModel::U16(v),
        Value::U32(v) => ValueModel::U32(v),
        Value::U64(v) => ValueModel::U64(v),
        Value::U128(v) => ValueModel::U128(v),
        Value::F32(bits) => ValueModel::F32(bits),
        Value::F64(bits) => ValueModel::F64(bits),
        Value::Char(c) => ValueModel::Char(c),
        Value::Bytes(bytes) => ValueModel::Bytes(bytes@),
        Value::Sequence(items) => ValueModel::Sequence(
            Seq::new(
                items@.len(),
                |i: int|
                    if 0 <= i < items@.len() {
                        value_model(items@[i])
                    } else {
                        arbitrary()
                    },
            ),
        ),
        Value::Mapping(entries) => ValueModel::Mapping(
            Seq::new(
                entries@.len(),
                |i: int|
                    if 0 <= i < entries@.len() {
                        (value_model(entries@[i].0), value_model(entries@[i].1))
                    } else {
                        arbitrary()
                    },
            ),
        ),
        Value::Unit => ValueModel::Unit,
    }
}

impl View for Value {
    type V = ValueModel;

    open spec fn view(&self) -> ValueModel {
        value_model(*self)
    }
}

/// The models of a sequence of values, in order.
pub open spec fn value_models(items: Seq<Value>) -> Seq<ValueModel> {
    Seq::new(items.len(), |i: int| items[i]@)
}

/// The models of the entries of a map, in order.
pub open spec fn entry_models(entries: Seq<(Value, Value)>) -> Seq<(ValueModel, ValueModel)> {
    Seq::new(entries.len(), |i: int| (entries[i].0@, entries[i].1@))
}

/// Unfolds the model of a sequence by one level.
pub proof fn lemma_sequence_model(items: Vec<Value>)
    ensures
        Value::Sequence(items)@ == ValueModel::Sequence(value_models(items@)),
{
    assert(Value::Sequence(items)@->Sequence_0 =~= value_models(items@));
}

/// Unfolds the model of a map by one level.
pub proof fn lemma_mapping_model(entries: Vec<(Value, Value)>)
    ensures
        Value::Mapping(entries)@ == ValueModel::Mapping(entry_models(entries@)),
{
    assert(Value::Mapping(entries)@->Mapping_0 =~= entry_models(entries@));
}

/// The shape of a value, without what the value holds.
#[derive(Clone, Copy, Debug, PartialEq, Eq, Structural)]
pub enum Shape {
    Text,
    Bool,
    Integer,
    Float,
    Char,
    Bytes,
    Sequence,
    Mapping,
    Unit,
}

/// The shape of a value.
pub open spec fn shape_of(value: ValueModel) -> Shape {
    match value {
        ValueModel::Text(_) => Shape::Text,
        ValueModel::Bool(_) => Shape::Bool,
        ValueModel::F32(_) => Shape::Float,
        ValueModel::F64(_) => Shape::Float,
        ValueModel::Char(_) => Shape::Char,
        ValueModel::Bytes(_) => Shape::Bytes,
        ValueModel::Sequence(_) => Shape::Sequence,
        ValueModel::Mapping(_) => Shape::Mapping,
        ValueModel::Unit => Shape::Unit,
        _ => Shape::Integer,
    }
}

impl Value {
    /// The shape of the value.
    pub fn shape(&self) -> (shape: Shape)
        ensures
            shape == shape_of(self@),
    {
        match self {
            Value::Text(_) => Shape::Text,
            Value::Bool(_) => Shape::Bool,
            Value::F32(_) => Shape::Float,
            Value::F64(_) => Shape::Float,
            Value::Char(_) => Shape::Char,
            Value::Bytes(_) => Shape::Bytes,
            Value::Sequence(_) => Shape::Sequence,
            Value::Mapping(_) => Shape::Mapping,
            Value::Unit => Shape::Unit,
            _ => Shape::Integer,
        }
    }
}

} // verus!
