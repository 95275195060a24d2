//! Snapshots of host values and events. The binding that talks to the Ruby
//! runtime classifies each value and hands it over in this form; the recorder
//! never touches the runtime itself.

use vstd::prelude::*;

verus! {

/// A named slot of a host object with the value it holds.
#[derive(Debug)]
pub struct HostField {
    pub name: String,
    pub value: HostValue,
}

/// One entry of a hash.
#[derive(Debug)]
pub struct HostPair {
    pub key: HostValue,
    pub value: HostValue,
}

/// A Ruby value, classified by the binding.
#[derive(Debug)]
pub enum HostValue {
    /// `nil`.
    Nil,
    /// `true` or `false`.
    Bool(bool),
    /// An integer that fits a machine word.
    Integer(i64),
    /// A float, by the bit pattern of its double.
    Float(u64),
    /// A symbol, by its name; empty where the name cannot be read.
    Symbol(String),
    /// A string, invalid bytes replaced.
    Text(String),
    /// An array.
    Array(Vec<HostValue>),
    /// A hash, by its entries in iteration order.
    Hash(Vec<HostPair>),
    /// A range.
    Range { begin: Box<HostValue>, end: Box<HostValue> },
    /// A `Set`, by its members.
    SetItems(Vec<HostValue>),
    /// A time, by its seconds and nanoseconds.
    Time { sec: Box<HostValue>, nsec: Box<HostValue> },
    /// A regular expression, by its source and options.
    Regexp { source: Box<HostValue>, options: Box<HostValue> },
    /// An instance of a `Struct` class. `members` is absent where the
    /// members cannot be listed; `text` is the object's own display text,
    /// empty where producing it raised.
    Struct { class_name: String, members: Option<Vec<HostField>>, text: String },
    /// An `OpenStruct`, by the hash of its attributes.
    OpenStruct { table: Box<HostValue> },
    /// Any other object, by its instance variables; `ivars` and `text` as
    /// for `Struct`.
    Object { class_name: String, ivars: Option<Vec<HostField>>, text: String },
}

/// A variable in scope with its current value.
#[derive(Debug)]
pub struct HostVariable {
    pub name: String,
    pub value: HostValue,
}

/// An execution event of the traced program.
#[derive(Debug)]
pub enum HostEvent {
    /// A line is about to run; `locals` are the variables in scope.
    Line { locals: Vec<HostVariable> },
    /// A method was entered. `class_name` is the receiver's class,
    /// `self_text` its display text, `params` the named parameters.
    Call { class_name: String, method_name: String, self_text: String, params: Vec<HostVariable> },
    /// A method returns `value`.
    Return { value: HostValue },
    /// An exception with display text `message` was raised.
    Raise { message: String },
}

/// The names of a list of fields, in order.
pub open spec fn field_names(fields: Seq<HostField>) -> Seq<Seq<char>> {
    Seq::new(fields.len(), |i: int| fields[i].name@)
}

/// The values of a list of fields, in order.
pub open spec fn field_values(fields: Seq<HostField>) -> Seq<HostValue> {
    Seq::new(fields.len(), |i: int| fields[i].value)
}

} // verus!
