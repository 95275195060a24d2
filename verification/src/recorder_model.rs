//! What a recording session is, mathematically, and what each operation
//! makes of it. The executable recorder is proved to follow these functions
//! step by step.

use vstd::prelude::*;
use crate::host::{field_names, field_values, HostField, HostPair, HostValue};
use crate::text::decimal;
use crate::trace_model::{id_of, interned, logged_if_new, FieldModel, Table, TraceEvent};
use crate::value::{model_type_id, TypeKind, ValueModel};
use crate::writer::path_key;

verus! {

/// The state of one recording session.
pub struct RecorderModel {
    /// Type names with their identifiers.
    pub types: Table,
    /// Variable names with their identifiers.
    pub variables: Table,
    /// Function names with their identifiers.
    pub functions: Table,
    /// Paths, by their keys, with their identifiers.
    pub paths: Table,
    /// The event log, oldest entry first.
    pub events: Seq<TraceEvent>,
    /// For each class name seen as a struct, the version that its next
    /// occurrence gets.
    pub versions: Table,
    pub int_type_id: nat,
    pub string_type_id: nat,
    pub bool_type_id: nat,
    pub symbol_type_id: nat,
    pub error_type_id: nat,
    pub float_type_id: nat,
    /// Tracing is switched on.
    pub active: bool,
    /// A hook event is being recorded.
    pub in_event_hook: bool,
    /// The hook for thread events has been asked for.
    pub thread_hook_installed: bool,
    /// The trace has been written out.
    pub finished: bool,
}

/// The session after a type without fields was looked up.
pub open spec fn with_type(m: RecorderModel, kind: TypeKind, name: Seq<char>) -> RecorderModel {
    RecorderModel {
        types: interned(m.types, name),
        events: logged_if_new(
            m.events,
            m.types,
            name,
            TraceEvent::Type { kind, lang_type: name, fields: None },
        ),
        ..m
    }
}

/// The session after a struct type was looked up.
pub open spec fn with_struct_type(
    m: RecorderModel,
    name: Seq<char>,
    fields: Seq<FieldModel>,
) -> RecorderModel {
    RecorderModel {
        types: interned(m.types, name),
        events: logged_if_new(
            m.events,
            m.types,
            name,
            TraceEvent::Type { kind: TypeKind::Struct, lang_type: name, fields: Some(fields) },
        ),
        ..m
    }
}

/// The session after a variable name was looked up.
pub open spec fn with_variable(m: RecorderModel, name: Seq<char>) -> RecorderModel {
    RecorderModel {
        variables: interned(m.variables, name),
        events: logged_if_new(m.events, m.variables, name, TraceEvent::VariableName { name }),
        ..m
    }
}

/// The session after a function was looked up: a new one is logged with
/// the path and line it was first seen at.
pub open spec fn with_function(
    m: RecorderModel,
    name: Seq<char>,
    path: Seq<char>,
    line: i64,
) -> RecorderModel {
    if m.functions.contains_key(name) {
        m
    } else {
        RecorderModel {
            functions: interned(m.functions, name),
            paths: interned(m.paths, path_key(path)),
            events: logged_if_new(
                m.events,
                m.paths,
                path_key(path),
                TraceEvent::Path { path },
            ).push(TraceEvent::Function { path_id: id_of(m.paths, path_key(path)), line, name }),
            ..m
        }
    }
}

/// The session after the current position moved to `path`, `line`.
pub open spec fn with_step(m: RecorderModel, path: Seq<char>, line: i64) -> RecorderModel {
    RecorderModel {
        paths: interned(m.paths, path_key(path)),
        events: logged_if_new(m.events, m.paths, path_key(path), TraceEvent::Path { path }).push(
            TraceEvent::Step { path_id: id_of(m.paths, path_key(path)), line },
        ),
        ..m
    }
}

/// The session after `value` was recorded under the variable `name`.
pub open spec fn with_value(m: RecorderModel, name: Seq<char>, value: ValueModel) -> RecorderModel {
    RecorderModel {
        variables: interned(m.variables, name),
        events: logged_if_new(
            m.events,
            m.variables,
            name,
            TraceEvent::VariableName { name },
        ).push(TraceEvent::Value { variable_id: id_of(m.variables, name), value }),
        ..m
    }
}

/// The session after one more entry was appended to the log.
pub open spec fn with_event(m: RecorderModel, event: TraceEvent) -> RecorderModel {
    RecorderModel { events: m.events.push(event), ..m }
}

/// The version that the next struct of class `class_name` gets.
pub open spec fn next_version(versions: Table, class_name: Seq<char>) -> nat {
    if versions.contains_key(class_name) {
        versions[class_name]
    } else {
        0
    }
}

/// The display name of version `version` of the struct class `class_name`:
/// the class name, a space, and the version after `#` in parentheses.
pub open spec fn versioned_name(class_name: Seq<char>, version: nat) -> Seq<char> {
    class_name + seq![' ', '(', '#'] + decimal(version) + seq![')']
}

/// The fields of a struct type: each name with the type of the value at its
/// position, as far as both lists reach.
pub open spec fn struct_fields(names: Seq<Seq<char>>, values: Seq<ValueModel>) -> Seq<FieldModel> {
    Seq::new(
        if names.len() <= values.len() {
            names.len()
        } else {
            values.len()
        },
        |i: int| FieldModel { name: names[i], type_id: model_type_id(values[i]) },
    )
}

/// A sequence value of the type named `lang_type`, registered after its
/// elements were converted.
pub open spec fn sequence_of(
    m: RecorderModel,
    elements: Seq<ValueModel>,
    lang_type: Seq<char>,
) -> (RecorderModel, ValueModel) {
    (
        with_type(m, TypeKind::Sequence, lang_type),
        ValueModel::Sequence { elements, is_slice: false, type_id: id_of(m.types, lang_type) },
    )
}

/// The opaque fallback: the display text under a raw type named after the
/// class.
pub open spec fn raw_of(m: RecorderModel, class_name: Seq<char>, text: Seq<char>) -> (
    RecorderModel,
    ValueModel,
) {
    (
        with_type(m, TypeKind::Raw, class_name),
        ValueModel::Raw { r: text, type_id: id_of(m.types, class_name) },
    )
}

/// A struct value of a class defined by the traced program, built from
/// converted field values: the class gets its next version, and a type named
/// for that version is looked up.
pub open spec fn struct_of(
    m: RecorderModel,
    class_name: Seq<char>,
    names: Seq<Seq<char>>,
    values: Seq<ValueModel>,
) -> (RecorderModel, ValueModel) {
    let version = next_version(m.versions, class_name);
    let name = versioned_name(class_name, version);
    let counted = RecorderModel { versions: m.versions.insert(class_name, version + 1), ..m };
    (
        with_struct_type(counted, name, struct_fields(names, values)),
        ValueModel::Struct { field_values: values, type_id: id_of(m.types, name) },
    )
}

/// A struct value of a class whose fields never change, built from converted
/// field values: its type is looked up under the class name itself, so it
/// is registered with the first such value and shared by all later ones.
pub open spec fn fixed_struct_of(
    m: RecorderModel,
    class_name: Seq<char>,
    names: Seq<Seq<char>>,
    values: Seq<ValueModel>,
) -> (RecorderModel, ValueModel) {
    (
        with_struct_type(m, class_name, struct_fields(names, values)),
        ValueModel::Struct { field_values: values, type_id: id_of(m.types, class_name) },
    )
}

/// Converts each value of a list in turn, left to right.
pub open spec fn convert_all(m: RecorderModel, values: Seq<HostValue>, depth: nat) -> (
    RecorderModel,
    Seq<ValueModel>,
)
    decreases depth, 3nat, values.len(),
{
    if values.len() == 0 {
        (m, Seq::empty())
    } else {
        let (m1, front) = convert_all(m, values.drop_last(), depth);
        let (m2, last) = convert(m1, values.last(), depth);
        (m2, front.push(last))
    }
}

/// Converts a host value with `depth` levels left. With none left, and for
/// `nil`, the result is the value that stands for nothing.
pub open spec fn convert(m: RecorderModel, value: HostValue, depth: nat) -> (
    RecorderModel,
    ValueModel,
)
    decreases depth, 2nat, 0nat,
{
    if depth == 0 {
        (m, ValueModel::NoValue { type_id: m.error_type_id })
    } else {
        match value {
            HostValue::Nil => (m, ValueModel::NoValue { type_id: m.error_type_id }),
            HostValue::Bool(b) => (m, ValueModel::Bool { b, type_id: m.bool_type_id }),
            HostValue::Integer(i) => (m, ValueModel::Int { i, type_id: m.int_type_id }),
            HostValue::Float(bits) => (m, ValueModel::Float { bits, type_id: m.float_type_id }),
            HostValue::Symbol(name) => (
                m,
                ValueModel::String { text: name@, type_id: m.symbol_type_id },
            ),
            HostValue::Text(text) => (
                m,
                ValueModel::String { text: text@, type_id: m.string_type_id },
            ),
            HostValue::Array(items) => {
                let (m1, elements) = convert_all(m, items@, (depth - 1) as nat);
                sequence_of(m1, elements, "Array"@)
            },
            HostValue::Hash(pairs) => {
                let (m1, elements) = convert_pairs(m, pairs@, depth);
                sequence_of(m1, elements, "Hash"@)
            },
            HostValue::Range { begin, end } => convert_fixed(
                m,
                "Range"@,
                seq!["begin"@, "end"@],
                seq![*begin, *end],
                depth,
            ),
            HostValue::SetItems(items) => {
                let (m1, elements) = convert_all(m, items@, (depth - 1) as nat);
                sequence_of(m1, elements, "Set"@)
            },
            HostValue::Time { sec, nsec } => convert_fixed(
                m,
                "Time"@,
                seq!["sec"@, "nsec"@],
                seq![*sec, *nsec],
                depth,
            ),
            HostValue::Regexp { source, options } => convert_fixed(
                m,
                "Regexp"@,
                seq!["source"@, "options"@],
                seq![*source, *options],
                depth,
            ),
            HostValue::Struct { class_name, members, text } => convert_object(
                m,
                class_name@,
                members,
                text@,
                depth,
            ),
            HostValue::OpenStruct { table } => convert(m, *table, (depth - 1) as nat),
            HostValue::Object { class_name, ivars, text } => convert_object(
                m,
                class_name@,
                ivars,
                text@,
                depth,
            ),
        }
    }
}

/// Converts the entries of a hash: each becomes a struct of the fixed class
/// `Pair` with the fields `k` and `v`.
pub open spec fn convert_pairs(m: RecorderModel, pairs: Seq<HostPair>, depth: nat) -> (
    RecorderModel,
    Seq<ValueModel>,
)
    recommends
        depth > 0,
    decreases depth, 1nat, pairs.len(),
{
    if pairs.len() == 0 || depth == 0 {
        (m, Seq::empty())
    } else {
        let (m1, front) = convert_pairs(m, pairs.drop_last(), depth);
        let (m2, last) = convert_fixed(
            m1,
            "Pair"@,
            seq!["k"@, "v"@],
            seq![pairs.last().key, pairs.last().value],
            depth,
        );
        (m2, front.push(last))
    }
}

/// Converts an object with named slots: a struct of its class where it has
/// slots, the opaque fallback where it has none or they cannot be listed.
pub open spec fn convert_object(
    m: RecorderModel,
    class_name: Seq<char>,
    slots: Option<Vec<HostField>>,
    text: Seq<char>,
    depth: nat,
) -> (RecorderModel, ValueModel)
    recommends
        depth > 0,
    decreases depth, 1nat, 0nat,
{
    match slots {
        Some(fields) => if fields@.len() > 0 && depth > 0 {
            convert_struct(m, class_name, field_names(fields@), field_values(fields@), depth)
        } else {
            raw_of(m, class_name, text)
        },
        None => raw_of(m, class_name, text),
    }
}

/// Converts the field values one level down, then builds the struct of a
/// class whose fields never change.
pub open spec fn convert_fixed(
    m: RecorderModel,
    class_name: Seq<char>,
    names: Seq<Seq<char>>,
    values: Seq<HostValue>,
    depth: nat,
) -> (RecorderModel, ValueModel)
    recommends
        depth > 0,
    decreases depth, 0nat, 0nat,
{
    if depth == 0 {
        (m, ValueModel::NoValue { type_id: m.error_type_id })
    } else {
        let (m1, converted) = convert_all(m, values, (depth - 1) as nat);
        fixed_struct_of(m1, class_name, names, converted)
    }
}

/// Converts the field values one level down, then builds the struct under
/// the next version of its class.
pub open spec fn convert_struct(
    m: RecorderModel,
    class_name: Seq<char>,
    names: Seq<Seq<char>>,
    values: Seq<HostValue>,
    depth: nat,
) -> (RecorderModel, ValueModel)
    recommends
        depth > 0,
    decreases depth, 0nat, 0nat,
{
    if depth == 0 {
        (m, ValueModel::NoValue { type_id: m.error_type_id })
    } else {
        let (m1, converted) = convert_all(m, values, (depth - 1) as nat);
        struct_of(m1, class_name, names, converted)
    }
}

} // verus!
