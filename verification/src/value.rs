use vstd::prelude::*;

verus! {

/// An account address: a workchain identifier and a 256-bit account
/// identifier, held as plain values so that contracts can speak of it.
#[derive(Clone, Copy, Debug, PartialEq, Eq)]
pub struct Address {
    pub workchain: i8,
    pub account: [u8; 32],
}

/// The declared type of one ABI parameter.
#[derive(Debug, PartialEq, Eq)]
pub enum ParamType {
    /// Unsigned integer of the given bit width.
    Uint(u32),
    Bool,
    Address,
    /// Ordered map from a key type to a value type.
    Mapping(Box<ParamType>, Box<ParamType>),
    /// Named sub-fields, matched by name when decoding.
    Tuple(Vec<Param>),
    /// A sequence of values of one element type.
    Array(Box<ParamType>),
}

/// One declared parameter: its name and its type.
#[derive(Debug, PartialEq, Eq)]
pub struct Param {
    pub name: String,
    pub kind: ParamType,
}

/// One unsigned integer value together with its declared bit width.
/// The width is part of the value: decoding checks it exactly and
/// never coerces between widths.
#[derive(Clone, Copy, Debug, PartialEq, Eq)]
pub struct UintValue {
    pub size: u32,
    pub number: u128,
}

/// One entry of a dynamic map value: the key in its textual (decimal)
/// representation, and the entry's value.
#[derive(Debug, PartialEq, Eq)]
pub struct MapEntry {
    pub key: String,
    pub value: Value,
}

/// One named sub-value of a tuple.
#[derive(Debug, PartialEq, Eq)]
pub struct NamedValue {
    pub name: String,
    pub value: Value,
}

/// The dynamic, schema-agnostic representation of one ABI value:
/// a tagged union of everything the codec can decode or encode.
#[derive(Debug, PartialEq, Eq)]
pub enum Value {
    Uint(UintValue),
    Bool(bool),
    Address(Address),
    /// Declared key type, declared value type, and the entries.
    Mapping(ParamType, ParamType, Vec<MapEntry>),
    Tuple(Vec<NamedValue>),
    Array(ParamType, Vec<Value>),
}

} // verus!
