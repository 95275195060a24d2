//! What every conversion preserves: the session only grows, and each value
//! that comes out refers to registered types only.

use vstd::prelude::*;
use crate::host::{field_names, field_values, HostField, HostPair, HostValue};
use crate::recorder::model_wf;
use crate::recorder_model::{
    convert, convert_all, convert_fixed, convert_object, convert_pairs, convert_struct,
    fixed_struct_of, next_version, struct_of, versioned_name, with_type, RecorderModel,
};
use crate::trace_model::{id_of, lemma_interned};
use crate::value::{TypeKind, ValueModel};

verus! {

/// Every type identifier in `value` is below `count`: with dense tables, the
/// type of every part of the value is registered.
pub open spec fn resolved(value: ValueModel, count: nat) -> bool
    decreases value,
{
    match value {
        ValueModel::Int { type_id, .. } => type_id < count,
        ValueModel::Float { type_id, .. } => type_id < count,
        ValueModel::Bool { type_id, .. } => type_id < count,
        ValueModel::String { type_id, .. } => type_id < count,
        ValueModel::BigInt { type_id, .. } => type_id < count,
        ValueModel::Sequence { elements, type_id, .. } => type_id < count && forall|i: int|
            0 <= i < elements.len() ==> resolved(#[trigger] elements[i], count),
        ValueModel::Tuple { elements, type_id } => type_id < count && forall|i: int|
            0 <= i < elements.len() ==> resolved(#[trigger] elements[i], count),
        ValueModel::Struct { field_values, type_id } => type_id < count && forall|i: int|
            0 <= i < field_values.len() ==> resolved(#[trigger] field_values[i], count),
        ValueModel::Variant { contents, type_id, .. } => type_id < count && resolved(
            *contents,
            count,
        ),
        ValueModel::Reference { dereferenced, type_id, .. } => type_id < count && resolved(
            *dereferenced,
            count,
        ),
        ValueModel::Raw { type_id, .. } => type_id < count,
        ValueModel::Error { type_id, .. } => type_id < count,
        ValueModel::NoValue { type_id } => type_id < count,
        ValueModel::Cell { .. } => true,
    }
}

/// Every value of a list is resolved.
pub open spec fn all_resolved(values: Seq<ValueModel>, count: nat) -> bool {
    forall|i: int| 0 <= i < values.len() ==> resolved(#[trigger] values[i], count)
}

/// `later` is `earlier` grown by conversions: the log was only appended to,
/// every type kept its identifier, no version counter went back, and what
/// conversions never touch is as it was.
pub open spec fn grown(earlier: RecorderModel, later: RecorderModel) -> bool {
    &&& later.variables == earlier.variables
    &&& later.functions == earlier.functions
    &&& later.paths == earlier.paths
    &&& later.int_type_id == earlier.int_type_id
    &&& later.string_type_id == earlier.string_type_id
    &&& later.bool_type_id == earlier.bool_type_id
    &&& later.symbol_type_id == earlier.symbol_type_id
    &&& later.error_type_id == earlier.error_type_id
    &&& later.active == earlier.active
    &&& later.in_event_hook == earlier.in_event_hook
    &&& later.thread_hook_installed == earlier.thread_hook_installed
    &&& later.finished == earlier.finished
    &&& earlier.events.is_prefix_of(later.events)
    &&& earlier.types.len() <= later.types.len()
    &&& forall|name: Seq<char>| #[trigger]
        earlier.types.contains_key(name) ==> later.types.contains_key(name) && later.types[name]
            == earlier.types[name]
    &&& forall|name: Seq<char>|
        next_version(earlier.versions, name) <= #[trigger] next_version(later.versions, name)
    &&& later.float_type_id == earlier.float_type_id
}

/// A value resolved against a count is resolved against every larger one.
pub proof fn lemma_resolved_monotone(value: ValueModel, count: nat, larger: nat)
    requires
        resolved(value, count),
        count <= larger,
    ensures
        resolved(value, larger),
    decreases value,
{
    match value {
        ValueModel::Sequence { elements, .. } => {
            assert forall|i: int| 0 <= i < elements.len() implies resolved(
                #[trigger] elements[i],
                larger,
            ) by {
                lemma_resolved_monotone(elements[i], count, larger);
            }
        },
        ValueModel::Tuple { elements, .. } => {
            assert forall|i: int| 0 <= i < elements.len() implies resolved(
                #[trigger] elements[i],
                larger,
            ) by {
                lemma_resolved_monotone(elements[i], count, larger);
            }
        },
        ValueModel::Struct { field_values, .. } => {
            assert forall|i: int| 0 <= i < field_values.len() implies resolved(
                #[trigger] field_values[i],
                larger,
            ) by {
                lemma_resolved_monotone(field_values[i], count, larger);
            }
        },
        ValueModel::Variant { contents, .. } => {
            lemma_resolved_monotone(*contents, count, larger);
        },
        ValueModel::Reference { dereferenced, .. } => {
            lemma_resolved_monotone(*dereferenced, count, larger);
        },
        _ => {},
    }
}

/// A list resolved against a count is resolved against every larger one.
pub proof fn lemma_all_resolved_monotone(values: Seq<ValueModel>, count: nat, larger: nat)
    requires
        all_resolved(values, count),
        count <= larger,
    ensures
        all_resolved(values, larger),
{
    assert forall|i: int| 0 <= i < values.len() implies resolved(#[trigger] values[i], larger) by {
        lemma_resolved_monotone(values[i], count, larger);
    }
}

/// Growth composes.
pub proof fn lemma_grown_transitive(a: RecorderModel, b: RecorderModel, c: RecorderModel)
    requires
        grown(a, b),
        grown(b, c),
    ensures
        grown(a, c),
{
    assert forall|name: Seq<char>|
        next_version(a.versions, name) <= #[trigger] next_version(c.versions, name) by {
        assert(next_version(a.versions, name) <= next_version(b.versions, name));
    }
    assert forall|name: Seq<char>| #[trigger] a.types.contains_key(name) implies c.types.contains_key(
        name,
    ) && c.types[name] == a.types[name] by {
        assert(b.types.contains_key(name));
    }
}

/// Looking a type up grows a well-formed session and yields a registered
/// identifier.
pub proof fn lemma_with_type_grows(m: RecorderModel, kind: TypeKind, name: Seq<char>)
    requires
        model_wf(m),
    ensures
        grown(m, with_type(m, kind, name)),
        model_wf(with_type(m, kind, name)),
        id_of(m.types, name) < with_type(m, kind, name).types.len(),
{
    lemma_interned(m.types, name);
}

/// Building a struct from resolved values grows a well-formed session and
/// yields a resolved value.
pub proof fn lemma_struct_of_grows(
    m: RecorderModel,
    class_name: Seq<char>,
    names: Seq<Seq<char>>,
    values: Seq<ValueModel>,
)
    requires
        model_wf(m),
        all_resolved(values, m.types.len()),
    ensures
        grown(m, struct_of(m, class_name, names, values).0),
        model_wf(struct_of(m, class_name, names, values).0),
        resolved(
            struct_of(m, class_name, names, values).1,
            struct_of(m, class_name, names, values).0.types.len(),
        ),
{
    let version = next_version(m.versions, class_name);
    let name = versioned_name(class_name, version);
    let (n, r) = struct_of(m, class_name, names, values);
    lemma_interned(m.types, name);
    lemma_all_resolved_monotone(values, m.types.len(), n.types.len());
    assert forall|k: Seq<char>|
        next_version(m.versions, k) <= #[trigger] next_version(n.versions, k) by {
        if k == class_name {
            assert(n.versions[class_name] == version + 1);
        }
    }
}

/// Building a struct of a fixed class from resolved values grows a
/// well-formed session and yields a resolved value.
pub proof fn lemma_fixed_struct_of_grows(
    m: RecorderModel,
    class_name: Seq<char>,
    names: Seq<Seq<char>>,
    values: Seq<ValueModel>,
)
    requires
        model_wf(m),
        all_resolved(values, m.types.len()),
    ensures
        grown(m, fixed_struct_of(m, class_name, names, values).0),
        model_wf(fixed_struct_of(m, class_name, names, values).0),
        resolved(
            fixed_struct_of(m, class_name, names, values).1,
            fixed_struct_of(m, class_name, names, values).0.types.len(),
        ),
{
    let (n, r) = fixed_struct_of(m, class_name, names, values);
    lemma_interned(m.types, class_name);
    lemma_all_resolved_monotone(values, m.types.len(), n.types.len());
}

/// Converting the fields of a struct of a fixed class and building it grows
/// a well-formed session and yields a resolved value.
pub proof fn lemma_convert_fixed_grows(
    m: RecorderModel,
    class_name: Seq<char>,
    names: Seq<Seq<char>>,
    values: Seq<HostValue>,
    depth: nat,
)
    requires
        model_wf(m),
    ensures
        grown(m, convert_fixed(m, class_name, names, values, depth).0),
        model_wf(convert_fixed(m, class_name, names, values, depth).0),
        resolved(
            convert_fixed(m, class_name, names, values, depth).1,
            convert_fixed(m, class_name, names, values, depth).0.types.len(),
        ),
    decreases depth, 0nat, 0nat,
{
    if depth > 0 {
        let (m1, converted) = convert_all(m, values, (depth - 1) as nat);
        lemma_convert_all_grows(m, values, (depth - 1) as nat);
        lemma_fixed_struct_of_grows(m1, class_name, names, converted);
        lemma_grown_transitive(m, m1, fixed_struct_of(m1, class_name, names, converted).0);
    }
}

/// Converting a list grows a well-formed session and yields resolved values,
/// one for each value of the list.
pub proof fn lemma_convert_all_grows(m: RecorderModel, values: Seq<HostValue>, depth: nat)
    requires
        model_wf(m),
    ensures
        grown(m, convert_all(m, values, depth).0),
        model_wf(convert_all(m, values, depth).0),
        convert_all(m, values, depth).1.len() == values.len(),
        all_resolved(convert_all(m, values, depth).1, convert_all(m, values, depth).0.types.len()),
    decreases depth, 3nat, values.len(),
{
    if values.len() > 0 {
        let (m1, front) = convert_all(m, values.drop_last(), depth);
        lemma_convert_all_grows(m, values.drop_last(), depth);
        let (m2, last) = convert(m1, values.last(), depth);
        lemma_convert_grows(m1, values.last(), depth);
        lemma_grown_transitive(m, m1, m2);
        lemma_all_resolved_monotone(front, m1.types.len(), m2.types.len());
    }
}

/// Converting the entries of a hash grows a well-formed session and yields
/// resolved values.
pub proof fn lemma_convert_pairs_grows(m: RecorderModel, pairs: Seq<HostPair>, depth: nat)
    requires
        model_wf(m),
    ensures
        grown(m, convert_pairs(m, pairs, depth).0),
        model_wf(convert_pairs(m, pairs, depth).0),
        all_resolved(
            convert_pairs(m, pairs, depth).1,
            convert_pairs(m, pairs, depth).0.types.len(),
        ),
    decreases depth, 1nat, pairs.len(),
{
    if pairs.len() > 0 && depth > 0 {
        let (m1, front) = convert_pairs(m, pairs.drop_last(), depth);
        lemma_convert_pairs_grows(m, pairs.drop_last(), depth);
        let (m2, last) = convert_fixed(
            m1,
            "Pair"@,
            seq!["k"@, "v"@],
            seq![pairs.last().key, pairs.last().value],
            depth,
        );
        lemma_convert_fixed_grows(
            m1,
            "Pair"@,
            seq!["k"@, "v"@],
            seq![pairs.last().key, pairs.last().value],
            depth,
        );
        lemma_grown_transitive(m, m1, m2);
        lemma_all_resolved_monotone(front, m1.types.len(), m2.types.len());
    }
}

/// Converting a struct's fields and building it grows a well-formed session
/// and yields a resolved value.
pub proof fn lemma_convert_struct_grows(
    m: RecorderModel,
    class_name: Seq<char>,
    names: Seq<Seq<char>>,
    values: Seq<HostValue>,
    depth: nat,
)
    requires
        model_wf(m),
    ensures
        grown(m, convert_struct(m, class_name, names, values, depth).0),
        model_wf(convert_struct(m, class_name, names, values, depth).0),
        resolved(
            convert_struct(m, class_name, names, values, depth).1,
            convert_struct(m, class_name, names, values, depth).0.types.len(),
        ),
    decreases depth, 0nat, 0nat,
{
    if depth > 0 {
        let (m1, converted) = convert_all(m, values, (depth - 1) as nat);
        lemma_convert_all_grows(m, values, (depth - 1) as nat);
        lemma_struct_of_grows(m1, class_name, names, converted);
        lemma_grown_transitive(m, m1, struct_of(m1, class_name, names, converted).0);
    }
}

/// Converting an object grows a well-formed session and yields a resolved
/// value.
pub proof fn lemma_convert_object_grows(
    m: RecorderModel,
    class_name: Seq<char>,
    slots: Option<Vec<HostField>>,
    text: Seq<char>,
    depth: nat,
)
    requires
        model_wf(m),
    ensures
        grown(m, convert_object(m, class_name, slots, text, depth).0),
        model_wf(convert_object(m, class_name, slots, text, depth).0),
        resolved(
            convert_object(m, class_name, slots, text, depth).1,
            convert_object(m, class_name, slots, text, depth).0.types.len(),
        ),
    decreases depth, 1nat, 0nat,
{
    lemma_with_type_grows(m, TypeKind::Raw, class_name);
    match slots {
        Some(fields) => {
            if fields@.len() > 0 && depth > 0 {
                lemma_convert_struct_grows(
                    m,
                    class_name,
                    field_names(fields@),
                    field_values(fields@),
                    depth,
                );
            }
        },
        None => {},
    }
}

/// Law: a conversion only grows the session. The log is appended to, every
/// type keeps its identifier, no version counter goes back, and variables,
/// functions, paths and switches stay as they were. A well-formed session
/// stays well formed, and every type identifier in the value that comes out
/// is registered when the conversion ends.
pub proof fn lemma_convert_grows(m: RecorderModel, value: HostValue, depth: nat)
    requires
        model_wf(m),
    ensures
        grown(m, convert(m, value, depth).0),
        model_wf(convert(m, value, depth).0),
        resolved(convert(m, value, depth).1, convert(m, value, depth).0.types.len()),
    decreases depth, 2nat, 0nat,
{
    if depth > 0 {
        match value {
            HostValue::Array(items) => {
                let (m1, elements) = convert_all(m, items@, (depth - 1) as nat);
                lemma_convert_all_grows(m, items@, (depth - 1) as nat);
                lemma_with_type_grows(m1, TypeKind::Sequence, "Array"@);
                let m2 = with_type(m1, TypeKind::Sequence, "Array"@);
                lemma_grown_transitive(m, m1, m2);
                lemma_all_resolved_monotone(elements, m1.types.len(), m2.types.len());
            },
            HostValue::SetItems(items) => {
                let (m1, elements) = convert_all(m, items@, (depth - 1) as nat);
                lemma_convert_all_grows(m, items@, (depth - 1) as nat);
                lemma_with_type_grows(m1, TypeKind::Sequence, "Set"@);
                let m2 = with_type(m1, TypeKind::Sequence, "Set"@);
                lemma_grown_transitive(m, m1, m2);
                lemma_all_resolved_monotone(elements, m1.types.len(), m2.types.len());
            },
            HostValue::Hash(pairs) => {
                let (m1, elements) = convert_pairs(m, pairs@, depth);
                lemma_convert_pairs_grows(m, pairs@, depth);
                lemma_with_type_grows(m1, TypeKind::Sequence, "Hash"@);
                let m2 = with_type(m1, TypeKind::Sequence, "Hash"@);
                lemma_grown_transitive(m, m1, m2);
                lemma_all_resolved_monotone(elements, m1.types.len(), m2.types.len());
            },
            HostValue::Range { begin, end } => {
                lemma_convert_fixed_grows(
                    m,
                    "Range"@,
                    seq!["begin"@, "end"@],
                    seq![*begin, *end],
                    depth,
                );
            },
            HostValue::Time { sec, nsec } => {
                lemma_convert_fixed_grows(
                    m,
                    "Time"@,
                    seq!["sec"@, "nsec"@],
                    seq![*sec, *nsec],
                    depth,
                );
            },
            HostValue::Regexp { source, options } => {
                lemma_convert_fixed_grows(
                    m,
                    "Regexp"@,
                    seq!["source"@, "options"@],
                    seq![*source, *options],
                    depth,
                );
            },
            HostValue::Struct { class_name, members, text } => {
                lemma_convert_object_grows(m, class_name@, members, text@, depth);
            },
            HostValue::OpenStruct { table } => {
                lemma_convert_grows(m, *table, (depth - 1) as nat);
            },
            HostValue::Object { class_name, ivars, text } => {
                lemma_convert_object_grows(m, class_name@, ivars, text@, depth);
            },
            _ => {},
        }
    }
}

/// Law: two structs of one class, converted one after the other, get two
/// different type identifiers, whatever their fields are and whatever was
/// converted below them.
pub proof fn law_struct_conversions_distinct(
    m: RecorderModel,
    class_name: Seq<char>,
    names: Seq<Seq<char>>,
    values: Seq<HostValue>,
    depth: nat,
    other_names: Seq<Seq<char>>,
    other_values: Seq<HostValue>,
    other_depth: nat,
)
    requires
        model_wf(m),
        depth > 0,
        other_depth > 0,
    ensures
        ({
            let (m1, first) = convert_struct(m, class_name, names, values, depth);
            let (m2, second) = convert_struct(m1, class_name, other_names, other_values, other_depth);
            &&& first is Struct
            &&& second is Struct
            &&& first->Struct_type_id != second->Struct_type_id
        }),
{
    let (a, converted) = convert_all(m, values, (depth - 1) as nat);
    lemma_convert_all_grows(m, values, (depth - 1) as nat);
    let version = next_version(a.versions, class_name);
    let name = versioned_name(class_name, version);
    let (m1, first) = struct_of(a, class_name, names, converted);
    lemma_struct_of_grows(a, class_name, names, converted);
    lemma_interned(a.types, name);
    assert(next_version(m1.versions, class_name) == version + 1);
    let (b, other_converted) = convert_all(m1, other_values, (other_depth - 1) as nat);
    lemma_convert_all_grows(m1, other_values, (other_depth - 1) as nat);
    let other_version = next_version(b.versions, class_name);
    let other_name = versioned_name(class_name, other_version);
    assert(next_version(m1.versions, class_name) <= other_version);
    crate::laws::law_versioned_names_differ(class_name, version, other_version);
    assert(m1.types.contains_key(name));
    assert(b.types.contains_key(name));
    lemma_interned(b.types, other_name);
}

} // verus!
