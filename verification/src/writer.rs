//! The trace writer of `runtime_tracing`, as this library sees it. Nothing in
//! this file is proved: each contract restates what the writer's source does
//! to its tables and its event log.

use vstd::prelude::*;
use crate::trace_model::{
    id_of, interned, logged_if_new, ArgModel, FieldModel, Table, TraceEvent,
};
use crate::value::{EventKind, TypeKind};
use crate::lowering::outside_value;

verus! {

#[verifier::external_type_specification]
#[verifier::external_body]
pub struct ExTracer(runtime_tracing::Tracer);

/// The type names that the writer has interned, each with its identifier.
pub uninterp spec fn tracer_types(tracer: runtime_tracing::Tracer) -> Map<Seq<char>, nat>;

/// The variable names that the writer has interned.
pub uninterp spec fn tracer_variables(tracer: runtime_tracing::Tracer) -> Map<Seq<char>, nat>;

/// The function names that the writer has interned.
pub uninterp spec fn tracer_functions(tracer: runtime_tracing::Tracer) -> Map<Seq<char>, nat>;

/// The paths that the writer has interned, each under its `path_key`.
pub uninterp spec fn tracer_paths(tracer: runtime_tracing::Tracer) -> Map<Seq<char>, nat>;

/// The writer's event log, oldest entry first.
pub uninterp spec fn tracer_events(tracer: runtime_tracing::Tracer) -> Seq<TraceEvent>;

/// What `std::path::Path::new` makes of a string, as far as path equality
/// goes: the writer keys its path table by paths, and two spellings of one
/// path (a doubled separator, a `.` component) are the same key.
pub uninterp spec fn path_key(path: Seq<char>) -> Seq<char>;

/// A struct field as the library holds it.
#[derive(Debug, PartialEq, Eq)]
pub struct FieldType {
    pub name: String,
    pub type_id: usize,
}

/// The models of a list of fields, in order.
pub open spec fn field_models(fields: Seq<FieldType>) -> Seq<FieldModel> {
    Seq::new(
        fields.len(),
        |i: int| FieldModel { name: fields[i].name@, type_id: fields[i].type_id as nat },
    )
}

/// The call arguments that pair `ids` with `values`, position by position.
pub open spec fn arg_models(
    ids: Seq<usize>,
    values: Seq<runtime_tracing::ValueRecord>,
) -> Seq<ArgModel> {
    Seq::new(
        ids.len(),
        |i: int| ArgModel { variable_id: ids[i] as nat, value: outside_value(values[i]) },
    )
}

/// `Tracer::ensure_type_id`: types are interned by name alone. A new name
/// gets the next identifier and a `Type` entry without fields in the log; a
/// known name changes nothing, whatever `kind` says.
#[verifier::external_body]
pub(crate) fn intern_type(tracer: &mut runtime_tracing::Tracer, kind: TypeKind, name: &str) -> (id:
    usize)
    ensures
        id as nat == id_of(tracer_types(*old(tracer)), name@),
        tracer_types(*final(tracer)) == interned(tracer_types(*old(tracer)), name@),
        tracer_events(*final(tracer)) == logged_if_new(
            tracer_events(*old(tracer)),
            tracer_types(*old(tracer)),
            name@,
            TraceEvent::Type { kind, lang_type: name@, fields: None },
        ),
        tracer_variables(*final(tracer)) == tracer_variables(*old(tracer)),
        tracer_functions(*final(tracer)) == tracer_functions(*old(tracer)),
        tracer_paths(*final(tracer)) == tracer_paths(*old(tracer)),
{
    let outside = match kind {
        TypeKind::Sequence => runtime_tracing::TypeKind::Seq,
        TypeKind::Struct => runtime_tracing::TypeKind::Struct,
        TypeKind::Int => runtime_tracing::TypeKind::Int,
        TypeKind::Float => runtime_tracing::TypeKind::Float,
        TypeKind::String => runtime_tracing::TypeKind::String,
        TypeKind::Bool => runtime_tracing::TypeKind::Bool,
        TypeKind::Raw => runtime_tracing::TypeKind::Raw,
        TypeKind::Error => runtime_tracing::TypeKind::Error,
    };
    tracer.ensure_type_id(outside, name).0
}

/// `Tracer::ensure_raw_type_id` with a record of kind `Struct`: interned by
/// name like any type; a new name is logged with its field list.
#[verifier::external_body]
pub(crate) fn intern_struct_type(
    tracer: &mut runtime_tracing::Tracer,
    name: &str,
    fields: &Vec<FieldType>,
) -> (id: usize)
    ensures
        id as nat == id_of(tracer_types(*old(tracer)), name@),
        tracer_types(*final(tracer)) == interned(tracer_types(*old(tracer)), name@),
        tracer_events(*final(tracer)) == logged_if_new(
            tracer_events(*old(tracer)),
            tracer_types(*old(tracer)),
            name@,
            TraceEvent::Type {
                kind: TypeKind::Struct,
                lang_type: name@,
                fields: Some(field_models(fields@)),
            },
        ),
        tracer_variables(*final(tracer)) == tracer_variables(*old(tracer)),
        tracer_functions(*final(tracer)) == tracer_functions(*old(tracer)),
        tracer_paths(*final(tracer)) == tracer_paths(*old(tracer)),
{
    let fields = fields.iter().map(|f| runtime_tracing::FieldTypeRecord {
        name: f.name.clone(),
        type_id: runtime_tracing::TypeId(f.type_id),
    }).collect();
    tracer.ensure_raw_type_id(runtime_tracing::TypeRecord {
        kind: runtime_tracing::TypeKind::Struct,
        lang_type: name.to_string(),
        specific_info: runtime_tracing::TypeSpecificInfo::Struct { fields },
    }).0
}

/// `Tracer::ensure_variable_id`: a new name gets the next identifier and a
/// `VariableName` entry in the log.
#[verifier::external_body]
pub(crate) fn intern_variable(tracer: &mut runtime_tracing::Tracer, name: &str) -> (id: usize)
    ensures
        id as nat == id_of(tracer_variables(*old(tracer)), name@),
        tracer_variables(*final(tracer)) == interned(tracer_variables(*old(tracer)), name@),
        tracer_events(*final(tracer)) == logged_if_new(
            tracer_events(*old(tracer)),
            tracer_variables(*old(tracer)),
            name@,
            TraceEvent::VariableName { name: name@ },
        ),
        tracer_types(*final(tracer)) == tracer_types(*old(tracer)),
        tracer_functions(*final(tracer)) == tracer_functions(*old(tracer)),
        tracer_paths(*final(tracer)) == tracer_paths(*old(tracer)),
{
    tracer.ensure_variable_id(name).0
}

/// The log after a function that is new to `functions` was registered at
/// `path`: the path's entry if the path is new too, then the function's.
pub open spec fn logged_function(
    events: Seq<TraceEvent>,
    functions: Table,
    paths: Table,
    name: Seq<char>,
    path: Seq<char>,
    line: i64,
) -> Seq<TraceEvent> {
    if functions.contains_key(name) {
        events
    } else {
        logged_if_new(events, paths, path_key(path), TraceEvent::Path { path }).push(
            TraceEvent::Function { path_id: id_of(paths, path_key(path)), line, name },
        )
    }
}

/// The path table after a function was looked up: only a function that is
/// new has its path interned.
pub open spec fn paths_after_function(
    functions: Table,
    paths: Table,
    name: Seq<char>,
    path: Seq<char>,
) -> Table {
    if functions.contains_key(name) {
        paths
    } else {
        interned(paths, path_key(path))
    }
}

/// `Tracer::ensure_function_id`: functions are interned by name. A new name
/// gets the next identifier; its path is interned and the function is logged
/// with that path and line. A known name changes nothing.
#[verifier::external_body]
pub(crate) fn intern_function(
    tracer: &mut runtime_tracing::Tracer,
    name: &str,
    path: &str,
    line: i64,
) -> (id: usize)
    ensures
        id as nat == id_of(tracer_functions(*old(tracer)), name@),
        tracer_functions(*final(tracer)) == interned(tracer_functions(*old(tracer)), name@),
        tracer_paths(*final(tracer)) == paths_after_function(
            tracer_functions(*old(tracer)),
            tracer_paths(*old(tracer)),
            name@,
            path@,
        ),
        tracer_events(*final(tracer)) == logged_function(
            tracer_events(*old(tracer)),
            tracer_functions(*old(tracer)),
            tracer_paths(*old(tracer)),
            name@,
            path@,
            line,
        ),
        tracer_types(*final(tracer)) == tracer_types(*old(tracer)),
        tracer_variables(*final(tracer)) == tracer_variables(*old(tracer)),
{
    tracer.ensure_function_id(name, std::path::Path::new(path), runtime_tracing::Line(line)).0
}

/// `Tracer::register_step`: interns the path, logging it if it is new, then
/// logs the step.
#[verifier::external_body]
pub(crate) fn register_step(tracer: &mut runtime_tracing::Tracer, path: &str, line: i64)
    ensures
        tracer_paths(*final(tracer)) == interned(tracer_paths(*old(tracer)), path_key(path@)),
        tracer_events(*final(tracer)) == logged_if_new(
            tracer_events(*old(tracer)),
            tracer_paths(*old(tracer)),
            path_key(path@),
            TraceEvent::Path { path: path@ },
        ).push(
            TraceEvent::Step { path_id: id_of(tracer_paths(*old(tracer)), path_key(path@)), line },
        ),
        tracer_types(*final(tracer)) == tracer_types(*old(tracer)),
        tracer_variables(*final(tracer)) == tracer_variables(*old(tracer)),
        tracer_functions(*final(tracer)) == tracer_functions(*old(tracer)),
{
    tracer.register_step(std::path::Path::new(path), runtime_tracing::Line(line))
}

/// `Tracer::register_variable_with_full_value`: interns the variable's name,
/// logging it if it is new, then logs the value under the variable.
#[verifier::external_body]
pub(crate) fn register_value(
    tracer: &mut runtime_tracing::Tracer,
    name: &str,
    value: runtime_tracing::ValueRecord,
)
    ensures
        tracer_variables(*final(tracer)) == interned(tracer_variables(*old(tracer)), name@),
        tracer_events(*final(tracer)) == logged_if_new(
            tracer_events(*old(tracer)),
            tracer_variables(*old(tracer)),
            name@,
            TraceEvent::VariableName { name: name@ },
        ).push(
            TraceEvent::Value {
                variable_id: id_of(tracer_variables(*old(tracer)), name@),
                value: outside_value(value),
            },
        ),
        tracer_types(*final(tracer)) == tracer_types(*old(tracer)),
        tracer_functions(*final(tracer)) == tracer_functions(*old(tracer)),
        tracer_paths(*final(tracer)) == tracer_paths(*old(tracer)),
{
    tracer.register_variable_with_full_value(name, value)
}

/// A push of a `Call` entry onto the writer's public event list, as the
/// recorder does for every call: the arguments pair `ids` with `values`.
#[verifier::external_body]
pub(crate) fn push_call(
    tracer: &mut runtime_tracing::Tracer,
    function_id: usize,
    ids: Vec<usize>,
    values: Vec<runtime_tracing::ValueRecord>,
)
    requires
        ids@.len() == values@.len(),
    ensures
        tracer_events(*final(tracer)) == tracer_events(*old(tracer)).push(
            TraceEvent::Call { function_id: function_id as nat, args: arg_models(ids@, values@) },
        ),
        tracer_types(*final(tracer)) == tracer_types(*old(tracer)),
        tracer_variables(*final(tracer)) == tracer_variables(*old(tracer)),
        tracer_functions(*final(tracer)) == tracer_functions(*old(tracer)),
        tracer_paths(*final(tracer)) == tracer_paths(*old(tracer)),
{
    let args = ids.into_iter().zip(values).map(|(id, value)| runtime_tracing::FullValueRecord {
        variable_id: runtime_tracing::VariableId(id),
        value,
    }).collect();
    tracer.events.push(runtime_tracing::TraceLowLevelEvent::Call(runtime_tracing::CallRecord {
        function_id: runtime_tracing::FunctionId(function_id),
        args,
    }));
}

/// `Tracer::register_return`: logs the returned value.
#[verifier::external_body]
pub(crate) fn register_return(
    tracer: &mut runtime_tracing::Tracer,
    value: runtime_tracing::ValueRecord,
)
    ensures
        tracer_events(*final(tracer)) == tracer_events(*old(tracer)).push(
            TraceEvent::Return { return_value: outside_value(value) },
        ),
        tracer_types(*final(tracer)) == tracer_types(*old(tracer)),
        tracer_variables(*final(tracer)) == tracer_variables(*old(tracer)),
        tracer_functions(*final(tracer)) == tracer_functions(*old(tracer)),
        tracer_paths(*final(tracer)) == tracer_paths(*old(tracer)),
{
    tracer.register_return(value)
}

/// `Tracer::register_special_event`: logs an event of the given kind with
/// empty metadata and the given content.
#[verifier::external_body]
pub(crate) fn register_special_event(
    tracer: &mut runtime_tracing::Tracer,
    kind: EventKind,
    content: &str,
)
    ensures
        tracer_events(*final(tracer)) == tracer_events(*old(tracer)).push(
            TraceEvent::Event { event_kind: kind, content: content@ },
        ),
        tracer_types(*final(tracer)) == tracer_types(*old(tracer)),
        tracer_variables(*final(tracer)) == tracer_variables(*old(tracer)),
        tracer_functions(*final(tracer)) == tracer_functions(*old(tracer)),
        tracer_paths(*final(tracer)) == tracer_paths(*old(tracer)),
{
    let outside = match kind {
        EventKind::Write => runtime_tracing::EventLogKind::Write,
        EventKind::Error => runtime_tracing::EventLogKind::Error,
    };
    tracer.register_special_event(outside, content)
}

} // verus!
