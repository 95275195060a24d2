//! The canonical value model: every runtime value is recorded as one
//! `TraceValue`, and all but mutable-slot indirections carry the identifier
//! of their type.

use vstd::prelude::*;

verus! {

/// The identifier that stands for "no type".
pub const NONE_TYPE_ID: usize = 0;

/// Kinds of types that the recorder registers.
#[derive(Clone, Copy, Debug, PartialEq, Eq, Structural)]
pub enum TypeKind {
    Sequence,
    Struct,
    Int,
    Float,
    String,
    Bool,
    Raw,
    Error,
}

/// Kinds of log events that the recorder emits.
#[derive(Clone, Copy, Debug, PartialEq, Eq, Structural)]
pub enum EventKind {
    Write,
    Error,
}

/// One recorded runtime value. A float is held by the bit pattern of its
/// IEEE 754 double, a big integer by its magnitude in bytes and its sign.
#[derive(Debug, PartialEq, Eq)]
#[allow(inconsistent_fields)]
pub enum TraceValue {
    Int { i: i64, type_id: usize },
    Float { bits: u64, type_id: usize },
    Bool { b: bool, type_id: usize },
    String { text: String, type_id: usize },
    BigInt { b: Vec<u8>, negative: bool, type_id: usize },
    Sequence { elements: Vec<TraceValue>, is_slice: bool, type_id: usize },
    Tuple { elements: Vec<TraceValue>, type_id: usize },
    Struct { field_values: Vec<TraceValue>, type_id: usize },
    Variant { discriminator: String, contents: Box<TraceValue>, type_id: usize },
    Reference { dereferenced: Box<TraceValue>, address: u64, mutable: bool, type_id: usize },
    Raw { r: String, type_id: usize },
    Error { msg: String, type_id: usize },
    NoValue { type_id: usize },
    Cell { place: i64 },
}

/// What a `TraceValue` denotes: the same tree over mathematical sequences.
#[allow(inconsistent_fields)]
pub enum ValueModel {
    Int { i: i64, type_id: nat },
    Float { bits: u64, type_id: nat },
    Bool { b: bool, type_id: nat },
    String { text: Seq<char>, type_id: nat },
    BigInt { b: Seq<u8>, negative: bool, type_id: nat },
    Sequence { elements: Seq<ValueModel>, is_slice: bool, type_id: nat },
    Tuple { elements: Seq<ValueModel>, type_id: nat },
    Struct { field_values: Seq<ValueModel>, type_id: nat },
    Variant { discriminator: Seq<char>, contents: Box<ValueModel>, type_id: nat },
    Reference { dereferenced: Box<ValueModel>, address: u64, mutable: bool, type_id: nat },
    Raw { r: Seq<char>, type_id: nat },
    Error { msg: Seq<char>, type_id: nat },
    NoValue { type_id: nat },
    Cell { place: i64 },
}

/// The models of a list of values, element by element.
pub open spec fn models_of(values: Seq<TraceValue>) -> Seq<ValueModel>
    decreases values, 0nat,
{
    Seq::new(
        values.len(),
        |i: int|
            if 0 <= i < values.len() {
                model_of(values[i])
            } else {
                ValueModel::Cell { place: 0 }
            },
    )
}

/// The model of one value.
pub open spec fn model_of(value: TraceValue) -> ValueModel
    decreases value, 1nat,
{
    match value {
        TraceValue::Int { i, type_id } => ValueModel::Int { i, type_id: type_id as nat },
        TraceValue::Float { bits, type_id } => ValueModel::Float { bits, type_id: type_id as nat },
        TraceValue::Bool { b, type_id } => ValueModel::Bool { b, type_id: type_id as nat },
        TraceValue::String { text, type_id } => ValueModel::String {
            text: text@,
            type_id: type_id as nat,
        },
        TraceValue::BigInt { b, negative, type_id } => ValueModel::BigInt {
            b: b@,
            negative,
            type_id: type_id as nat,
        },
        TraceValue::Sequence { elements, is_slice, type_id } => ValueModel::Sequence {
            elements: models_of(elements@),
            is_slice,
            type_id: type_id as nat,
        },
        TraceValue::Tuple { elements, type_id } => ValueModel::Tuple {
            elements: models_of(elements@),
            type_id: type_id as nat,
        },
        TraceValue::Struct { field_values, type_id } => ValueModel::Struct {
            field_values: models_of(field_values@),
            type_id: type_id as nat,
        },
        TraceValue::Variant { discriminator, contents, type_id } => ValueModel::Variant {
            discriminator: discriminator@,
            contents: Box::new(model_of(*contents)),
            type_id: type_id as nat,
        },
        TraceValue::Reference { dereferenced, address, mutable, type_id } => ValueModel::Reference {
            dereferenced: Box::new(model_of(*dereferenced)),
            address,
            mutable,
            type_id: type_id as nat,
        },
        TraceValue::Raw { r, type_id } => ValueModel::Raw { r: r@, type_id: type_id as nat },
        TraceValue::Error { msg, type_id } => ValueModel::Error { msg: msg@, type_id: type_id as nat },
        TraceValue::NoValue { type_id } => ValueModel::NoValue { type_id: type_id as nat },
        TraceValue::Cell { place } => ValueModel::Cell { place },
    }
}

impl View for TraceValue {
    type V = ValueModel;

    open spec fn view(&self) -> ValueModel {
        model_of(*self)
    }
}

/// The type identifier that a value model carries; a cell carries none.
pub open spec fn model_type_id(value: ValueModel) -> nat {
    match value {
        ValueModel::Int { type_id, .. } => type_id,
        ValueModel::Float { type_id, .. } => type_id,
        ValueModel::Bool { type_id, .. } => type_id,
        ValueModel::String { type_id, .. } => type_id,
        ValueModel::BigInt { type_id, .. } => type_id,
        ValueModel::Sequence { type_id, .. } => type_id,
        ValueModel::Tuple { type_id, .. } => type_id,
        ValueModel::Struct { type_id, .. } => type_id,
        ValueModel::Variant { type_id, .. } => type_id,
        ValueModel::Reference { type_id, .. } => type_id,
        ValueModel::Raw { type_id, .. } => type_id,
        ValueModel::Error { type_id, .. } => type_id,
        ValueModel::NoValue { type_id } => type_id,
        ValueModel::Cell { .. } => NONE_TYPE_ID as nat,
    }
}

/// The type identifier of a value.
pub fn value_type_id(val: &TraceValue) -> (id: usize)
    ensures
        id as nat == model_type_id(val@),
{
    match val {
        TraceValue::Int { type_id, .. } => *type_id,
        TraceValue::Float { type_id, .. } => *type_id,
        TraceValue::Bool { type_id, .. } => *type_id,
        TraceValue::String { type_id, .. } => *type_id,
        TraceValue::BigInt { type_id, .. } => *type_id,
        TraceValue::Sequence { type_id, .. } => *type_id,
        TraceValue::Tuple { type_id, .. } => *type_id,
        TraceValue::Struct { type_id, .. } => *type_id,
        TraceValue::Variant { type_id, .. } => *type_id,
        TraceValue::Reference { type_id, .. } => *type_id,
        TraceValue::Raw { type_id, .. } => *type_id,
        TraceValue::Error { type_id, .. } => *type_id,
        TraceValue::NoValue { type_id } => *type_id,
        TraceValue::Cell { .. } => NONE_TYPE_ID,
    }
}

/// The trace writer that this library is built on has an entry for every
/// value but a big integer: a value can be written if no part of it is one.
pub open spec fn writable(value: ValueModel) -> bool
    decreases value,
{
    match value {
        ValueModel::BigInt { .. } => false,
        ValueModel::Sequence { elements, .. } => forall|i: int|
            0 <= i < elements.len() ==> writable(#[trigger] elements[i]),
        ValueModel::Tuple { elements, .. } => forall|i: int|
            0 <= i < elements.len() ==> writable(#[trigger] elements[i]),
        ValueModel::Struct { field_values, .. } => forall|i: int|
            0 <= i < field_values.len() ==> writable(#[trigger] field_values[i]),
        ValueModel::Variant { contents, .. } => writable(*contents),
        ValueModel::Reference { dereferenced, .. } => writable(*dereferenced),
        _ => true,
    }
}

/// Every value of a list can be written.
pub open spec fn all_writable(values: Seq<ValueModel>) -> bool {
    forall|i: int| 0 <= i < values.len() ==> writable(#[trigger] values[i])
}

/// The parts of a value that can be written can be written.
pub proof fn lemma_writable_inside(value: ValueModel)
    requires
        writable(value),
    ensures
        !(value is BigInt),
        value is Sequence ==> all_writable(value->Sequence_elements),
        value is Tuple ==> all_writable(value->Tuple_elements),
        value is Struct ==> all_writable(value->field_values),
        value is Variant ==> writable(*value->contents),
        value is Reference ==> writable(*value->dereferenced),
{
}

/// A value can be written exactly if its parts can: a big integer never,
/// a value without parts always.
pub proof fn lemma_writable_parts(value: TraceValue)
    ensures
        writable(value@) == match value {
            TraceValue::BigInt { .. } => false,
            TraceValue::Sequence { elements, .. } => all_writable(models_of(elements@)),
            TraceValue::Tuple { elements, .. } => all_writable(models_of(elements@)),
            TraceValue::Struct { field_values, .. } => all_writable(models_of(field_values@)),
            TraceValue::Variant { contents, .. } => writable(model_of(*contents)),
            TraceValue::Reference { dereferenced, .. } => writable(model_of(*dereferenced)),
            _ => true,
        },
{
    if writable(value@) {
        lemma_writable_inside(value@);
    }
}

/// Whether every value of a list can be written.
pub fn are_writable(values: &Vec<TraceValue>) -> (b: bool)
    ensures
        b == all_writable(models_of(values@)),
    decreases values,
{
    let mut i: usize = 0;
    while i < values.len()
        invariant
            i <= values@.len(),
            forall|k: int| 0 <= k < i ==> writable(model_of(values@[k])),
        decreases values@.len() - i,
    {
        if !is_writable(&values[i]) {
            assert(models_of(values@)[i as int] == model_of(values@[i as int]));
            return false;
        }
        i += 1;
    }
    assert forall|k: int| 0 <= k < models_of(values@).len() implies writable(
        #[trigger] models_of(values@)[k],
    ) by {
        assert(models_of(values@)[k] == model_of(values@[k]));
    }
    true
}

/// Whether a value can be written.
pub fn is_writable(value: &TraceValue) -> (b: bool)
    ensures
        b == writable(value@),
    decreases value,
{
    proof {
        lemma_writable_parts(*value);
    }
    match value {
        TraceValue::BigInt { .. } => false,
        TraceValue::Sequence { elements, .. } => are_writable(elements),
        TraceValue::Tuple { elements, .. } => are_writable(elements),
        TraceValue::Struct { field_values, .. } => are_writable(field_values),
        TraceValue::Variant { contents, .. } => is_writable(contents),
        TraceValue::Reference { dereferenced, .. } => is_writable(dereferenced),
        _ => true,
    }
}

/// Copies a list of bytes.
pub fn clone_bytes(bytes: &Vec<u8>) -> (copy: Vec<u8>)
    ensures
        copy@ == bytes@,
{
    let mut copy: Vec<u8> = Vec::new();
    let mut i: usize = 0;
    while i < bytes.len()
        invariant
            i <= bytes@.len(),
            copy@ == bytes@.take(i as int),
        decreases bytes@.len() - i,
    {
        copy.push(bytes[i]);
        assert(copy@ =~= bytes@.take(i + 1));
        i += 1;
    }
    assert(bytes@.take(i as int) =~= bytes@);
    copy
}

/// Copies a list of values.
pub fn clone_values(values: &Vec<TraceValue>) -> (copy: Vec<TraceValue>)
    ensures
        models_of(copy@) == models_of(values@),
    decreases values,
{
    let mut copy: Vec<TraceValue> = Vec::new();
    let mut i: usize = 0;
    while i < values.len()
        invariant
            i <= values@.len(),
            copy@.len() == i,
            forall|k: int| 0 <= k < i ==> model_of(copy@[k]) == model_of(values@[k]),
        decreases values@.len() - i,
    {
        let item = clone_value(&values[i]);
        copy.push(item);
        i += 1;
    }
    assert(models_of(copy@) =~= models_of(values@));
    copy
}

/// Copies a value with everything below it.
pub fn clone_value(value: &TraceValue) -> (copy: TraceValue)
    ensures
        copy@ == value@,
    decreases value,
{
    match value {
        TraceValue::Int { i, type_id } => TraceValue::Int { i: *i, type_id: *type_id },
        TraceValue::Float { bits, type_id } => TraceValue::Float { bits: *bits, type_id: *type_id },
        TraceValue::Bool { b, type_id } => TraceValue::Bool { b: *b, type_id: *type_id },
        TraceValue::String { text, type_id } => TraceValue::String {
            text: text.clone(),
            type_id: *type_id,
        },
        TraceValue::BigInt { b, negative, type_id } => TraceValue::BigInt {
            b: clone_bytes(b),
            negative: *negative,
            type_id: *type_id,
        },
        TraceValue::Sequence { elements, is_slice, type_id } => TraceValue::Sequence {
            elements: clone_values(elements),
            is_slice: *is_slice,
            type_id: *type_id,
        },
        TraceValue::Tuple { elements, type_id } => TraceValue::Tuple {
            elements: clone_values(elements),
            type_id: *type_id,
        },
        TraceValue::Struct { field_values, type_id } => TraceValue::Struct {
            field_values: clone_values(field_values),
            type_id: *type_id,
        },
        TraceValue::Variant { discriminator, contents, type_id } => TraceValue::Variant {
            discriminator: discriminator.clone(),
            contents: Box::new(clone_value(contents)),
            type_id: *type_id,
        },
        TraceValue::Reference { dereferenced, address, mutable, type_id } => TraceValue::Reference {
            dereferenced: Box::new(clone_value(dereferenced)),
            address: *address,
            mutable: *mutable,
            type_id: *type_id,
        },
        TraceValue::Raw { r, type_id } => TraceValue::Raw { r: r.clone(), type_id: *type_id },
        TraceValue::Error { msg, type_id } => TraceValue::Error {
            msg: msg.clone(),
            type_id: *type_id,
        },
        TraceValue::NoValue { type_id } => TraceValue::NoValue { type_id: *type_id },
        TraceValue::Cell { place } => TraceValue::Cell { place: *place },
    }
}

} // verus!
