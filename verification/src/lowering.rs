//! Values as the trace writer holds them, built from the library's own
//! `TraceValue`. The constructors below are not proved: each builds one
//! variant of `runtime_tracing::ValueRecord` from its parts. `lower` and
//! `lower_all` are proved from them.

use vstd::prelude::*;
use crate::value::{all_writable, model_of, models_of, writable, TraceValue, ValueModel};

verus! {

#[verifier::external_type_specification]
#[verifier::external_body]
pub struct ExOutsideValue(runtime_tracing::ValueRecord);

/// What a value of the writer denotes, in this library's model; a float by
/// the bits of its double.
pub uninterp spec fn outside_value(value: runtime_tracing::ValueRecord) -> ValueModel;

/// The models of a list of the writer's values, in order.
pub open spec fn outside_values(values: Seq<runtime_tracing::ValueRecord>) -> Seq<ValueModel> {
    Seq::new(values.len(), |i: int| outside_value(values[i]))
}

/// `runtime_tracing::ValueRecord::Int` with the given number and type.
#[verifier::external_body]
fn outside_int(i: i64, type_id: usize) -> (r: runtime_tracing::ValueRecord)
    ensures
        outside_value(r) == (ValueModel::Int { i, type_id: type_id as nat }),
{
    runtime_tracing::ValueRecord::Int { i, type_id: runtime_tracing::TypeId(type_id) }
}

/// `runtime_tracing::ValueRecord::Float`. The library holds a float by its
/// bits and has no floating-point type of its own, so the number is built by
/// `num_traits::FromBytes::from_be_bytes`, its type taken from the field. For
/// a double that is the standard library's `from_be_bytes`: the double whose
/// bit pattern is `bits`.
#[verifier::external_body]
fn outside_float(bits: u64, type_id: usize) -> (r: runtime_tracing::ValueRecord)
    ensures
        outside_value(r) == (ValueModel::Float { bits, type_id: type_id as nat }),
{
    runtime_tracing::ValueRecord::Float {
        f: num_traits::FromBytes::from_be_bytes(&bits.to_be_bytes()),
        type_id: runtime_tracing::TypeId(type_id),
    }
}

/// `runtime_tracing::ValueRecord::Bool` with the given truth value and type.
#[verifier::external_body]
fn outside_bool(b: bool, type_id: usize) -> (r: runtime_tracing::ValueRecord)
    ensures
        outside_value(r) == (ValueModel::Bool { b, type_id: type_id as nat }),
{
    runtime_tracing::ValueRecord::Bool { b, type_id: runtime_tracing::TypeId(type_id) }
}

/// `runtime_tracing::ValueRecord::String` with a copy of the given text.
#[verifier::external_body]
fn outside_string(text: &String, type_id: usize) -> (r: runtime_tracing::ValueRecord)
    ensures
        outside_value(r) == (ValueModel::String { text: text@, type_id: type_id as nat }),
{
    runtime_tracing::ValueRecord::String {
        text: text.clone(),
        type_id: runtime_tracing::TypeId(type_id),
    }
}

/// `runtime_tracing::ValueRecord::Sequence` over the given elements, in
/// their order.
#[verifier::external_body]
fn outside_sequence(
    elements: Vec<runtime_tracing::ValueRecord>,
    is_slice: bool,
    type_id: usize,
) -> (r: runtime_tracing::ValueRecord)
    ensures
        outside_value(r) == (ValueModel::Sequence {
            elements: outside_values(elements@),
            is_slice,
            type_id: type_id as nat,
        }),
{
    runtime_tracing::ValueRecord::Sequence {
        elements,
        is_slice,
        type_id: runtime_tracing::TypeId(type_id),
    }
}

/// `runtime_tracing::ValueRecord::Tuple` over the given elements, in their
/// order.
#[verifier::external_body]
fn outside_tuple(elements: Vec<runtime_tracing::ValueRecord>, type_id: usize) -> (r:
    runtime_tracing::ValueRecord)
    ensures
        outside_value(r) == (ValueModel::Tuple {
            elements: outside_values(elements@),
            type_id: type_id as nat,
        }),
{
    runtime_tracing::ValueRecord::Tuple { elements, type_id: runtime_tracing::TypeId(type_id) }
}

/// `runtime_tracing::ValueRecord::Struct` over the given field values, in
/// their order.
#[verifier::external_body]
fn outside_struct(field_values: Vec<runtime_tracing::ValueRecord>, type_id: usize) -> (r:
    runtime_tracing::ValueRecord)
    ensures
        outside_value(r) == (ValueModel::Struct {
            field_values: outside_values(field_values@),
            type_id: type_id as nat,
        }),
{
    runtime_tracing::ValueRecord::Struct {
        field_values,
        type_id: runtime_tracing::TypeId(type_id),
    }
}

/// `runtime_tracing::ValueRecord::Variant` with a copy of the discriminator
/// around the given contents.
#[verifier::external_body]
fn outside_variant(
    discriminator: &String,
    contents: runtime_tracing::ValueRecord,
    type_id: usize,
) -> (r: runtime_tracing::ValueRecord)
    ensures
        outside_value(r) == (ValueModel::Variant {
            discriminator: discriminator@,
            contents: Box::new(outside_value(contents)),
            type_id: type_id as nat,
        }),
{
    runtime_tracing::ValueRecord::Variant {
        discriminator: discriminator.clone(),
        contents: Box::new(contents),
        type_id: runtime_tracing::TypeId(type_id),
    }
}

/// `runtime_tracing::ValueRecord::Reference` to the given value.
#[verifier::external_body]
fn outside_reference(
    dereferenced: runtime_tracing::ValueRecord,
    address: u64,
    mutable: bool,
    type_id: usize,
) -> (r: runtime_tracing::ValueRecord)
    ensures
        outside_value(r) == (ValueModel::Reference {
            dereferenced: Box::new(outside_value(dereferenced)),
            address,
            mutable,
            type_id: type_id as nat,
        }),
{
    runtime_tracing::ValueRecord::Reference {
        dereferenced: Box::new(dereferenced),
        address,
        mutable,
        type_id: runtime_tracing::TypeId(type_id),
    }
}

/// `runtime_tracing::ValueRecord::Raw` with a copy of the given text.
#[verifier::external_body]
fn outside_raw(r: &String, type_id: usize) -> (v: runtime_tracing::ValueRecord)
    ensures
        outside_value(v) == (ValueModel::Raw { r: r@, type_id: type_id as nat }),
{
    runtime_tracing::ValueRecord::Raw { r: r.clone(), type_id: runtime_tracing::TypeId(type_id) }
}

/// `runtime_tracing::ValueRecord::Error` with a copy of the given message.
#[verifier::external_body]
fn outside_error(msg: &String, type_id: usize) -> (r: runtime_tracing::ValueRecord)
    ensures
        outside_value(r) == (ValueModel::Error { msg: msg@, type_id: type_id as nat }),
{
    runtime_tracing::ValueRecord::Error {
        msg: msg.clone(),
        type_id: runtime_tracing::TypeId(type_id),
    }
}

/// `runtime_tracing::ValueRecord::None` of the given type.
#[verifier::external_body]
fn outside_no_value(type_id: usize) -> (r: runtime_tracing::ValueRecord)
    ensures
        outside_value(r) == (ValueModel::NoValue { type_id: type_id as nat }),
{
    runtime_tracing::ValueRecord::None { type_id: runtime_tracing::TypeId(type_id) }
}

/// `runtime_tracing::ValueRecord::Cell` for the given place.
#[verifier::external_body]
fn outside_cell(place: i64) -> (r: runtime_tracing::ValueRecord)
    ensures
        outside_value(r) == (ValueModel::Cell { place }),
{
    runtime_tracing::ValueRecord::Cell { place: runtime_tracing::Place(place) }
}

/// Builds the writer's values for a list of values, in order; none where a
/// value of the list cannot be written.
pub fn lower_all(values: &Vec<TraceValue>) -> (lowered: Option<Vec<runtime_tracing::ValueRecord>>)
    ensures
        lowered is Some <==> all_writable(models_of(values@)),
        lowered is Some ==> outside_values(lowered->0@) == models_of(values@),
    decreases values,
{
    let mut lowered: Vec<runtime_tracing::ValueRecord> = Vec::new();
    let mut i: usize = 0;
    while i < values.len()
        invariant
            i <= values@.len(),
            lowered@.len() == i,
            forall|k: int| 0 <= k < i ==> writable(model_of(values@[k])),
            forall|k: int| 0 <= k < i ==> outside_value(lowered@[k]) == model_of(values@[k]),
        decreases values@.len() - i,
    {
        match lower(&values[i]) {
            Some(item) => {
                lowered.push(item);
            },
            None => {
                assert(models_of(values@)[i as int] == model_of(values@[i as int]));
                return None;
            },
        }
        i += 1;
    }
    assert(outside_values(lowered@) =~= models_of(values@));
    assert(all_writable(models_of(values@))) by {
        assert forall|k: int| 0 <= k < models_of(values@).len() implies writable(
            #[trigger] models_of(values@)[k],
        ) by {
            assert(models_of(values@)[k] == model_of(values@[k]));
        }
    }
    Some(lowered)
}

/// Builds the writer's value that denotes the same tree as `value`; none
/// where the value cannot be written.
pub fn lower(value: &TraceValue) -> (lowered: Option<runtime_tracing::ValueRecord>)
    ensures
        lowered is Some <==> writable(value@),
        lowered is Some ==> outside_value(lowered->0) == value@,
    decreases value,
{
    proof {
        crate::value::lemma_writable_parts(*value);
    }
    match value {
        TraceValue::Int { i, type_id } => Some(outside_int(*i, *type_id)),
        TraceValue::Float { bits, type_id } => Some(outside_float(*bits, *type_id)),
        TraceValue::Bool { b, type_id } => Some(outside_bool(*b, *type_id)),
        TraceValue::String { text, type_id } => Some(outside_string(text, *type_id)),
        TraceValue::BigInt { .. } => None,
        TraceValue::Sequence { elements, is_slice, type_id } => match lower_all(elements) {
            Some(items) => Some(outside_sequence(items, *is_slice, *type_id)),
            None => None,
        },
        TraceValue::Tuple { elements, type_id } => match lower_all(elements) {
            Some(items) => Some(outside_tuple(items, *type_id)),
            None => None,
        },
        TraceValue::Struct { field_values, type_id } => match lower_all(field_values) {
            Some(items) => Some(outside_struct(items, *type_id)),
            None => None,
        },
        TraceValue::Variant { discriminator, contents, type_id } => match lower(contents) {
            Some(inner) => Some(outside_variant(discriminator, inner, *type_id)),
            None => None,
        },
        TraceValue::Reference { dereferenced, address, mutable, type_id } => match lower(
            dereferenced,
        ) {
            Some(inner) => Some(outside_reference(inner, *address, *mutable, *type_id)),
            None => None,
        },
        TraceValue::Raw { r, type_id } => Some(outside_raw(r, *type_id)),
        TraceValue::Error { msg, type_id } => Some(outside_error(msg, *type_id)),
        TraceValue::NoValue { type_id } => Some(outside_no_value(*type_id)),
        TraceValue::Cell { place } => Some(outside_cell(*place)),
    }
}

} // verus!
