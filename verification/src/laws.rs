//! Laws of the recorder, stated over the session model and proved from the
//! definitions that the executable functions are verified against.

use vstd::prelude::*;
use crate::event_model::{accepts, after_hook_event, after_message_event};
use crate::host::{HostEvent, HostValue};
use crate::path_filter::is_ignored_path;
use crate::recorder::model_wf;
use crate::recorder_model::{
    convert, fixed_struct_of, next_version, struct_fields, struct_of, versioned_name,
    with_function, with_type, with_variable, RecorderModel,
};
use crate::text::{lemma_decimal_injective, lemma_decimal_len};
use crate::trace_model::{id_of, lemma_interned, table_wf, TraceEvent};
use crate::value::{TypeKind, ValueModel};

verus! {

/// Looking a type up twice under one name returns the same identifier both
/// times, and the second lookup changes nothing, whatever kind it asks for.
pub proof fn law_type_lookup_idempotent(
    m: RecorderModel,
    kind: TypeKind,
    again: TypeKind,
    name: Seq<char>,
)
    ensures
        id_of(with_type(m, kind, name).types, name) == id_of(m.types, name),
        with_type(with_type(m, kind, name), again, name) == with_type(m, kind, name),
{
}

/// Looking a variable up twice returns the same identifier both times, and
/// the second lookup changes nothing.
pub proof fn law_variable_lookup_idempotent(m: RecorderModel, name: Seq<char>)
    ensures
        id_of(with_variable(m, name).variables, name) == id_of(m.variables, name),
        with_variable(with_variable(m, name), name) == with_variable(m, name),
{
}

/// Looking a function up twice returns the same identifier both times, and
/// the second lookup changes nothing, wherever it says the function is.
pub proof fn law_function_lookup_idempotent(
    m: RecorderModel,
    name: Seq<char>,
    path: Seq<char>,
    line: i64,
    other_path: Seq<char>,
    other_line: i64,
)
    ensures
        id_of(with_function(m, name, path, line).functions, name) == id_of(m.functions, name),
        with_function(with_function(m, name, path, line), name, other_path, other_line)
            == with_function(m, name, path, line),
{
}

/// Lookups of two different type names return two different identifiers.
pub proof fn law_type_ids_distinct(
    m: RecorderModel,
    kind: TypeKind,
    name: Seq<char>,
    other_kind: TypeKind,
    other_name: Seq<char>,
)
    requires
        table_wf(m.types),
        name != other_name,
    ensures
        id_of(m.types, name) != id_of(with_type(m, kind, name).types, other_name),
{
    lemma_interned(m.types, name);
    lemma_interned(with_type(m, kind, name).types, other_name);
}

/// Two versions of one class have different display names.
pub proof fn law_versioned_names_differ(class_name: Seq<char>, first: nat, second: nat)
    requires
        first != second,
    ensures
        versioned_name(class_name, first) != versioned_name(class_name, second),
{
    let a = versioned_name(class_name, first);
    let b = versioned_name(class_name, second);
    if a == b {
        let start = class_name.len() + 3;
        lemma_decimal_len(first);
        lemma_decimal_len(second);
        assert(a.len() == start + crate::text::decimal(first).len() + 1);
        assert(b.len() == start + crate::text::decimal(second).len() + 1);
        assert(a.subrange(start as int, a.len() - 1) =~= crate::text::decimal(first));
        assert(b.subrange(start as int, b.len() - 1) =~= crate::text::decimal(second));
        lemma_decimal_injective(first, second);
    }
}

/// The display name of the first version of a class ends in `(#0)`, that of
/// the second in `(#1)`.
pub proof fn law_first_version_names(class_name: Seq<char>)
    ensures
        versioned_name(class_name, 0) == class_name + " (#0)"@,
        versioned_name(class_name, 1) == class_name + " (#1)"@,
{
    reveal_strlit(" (#0)");
    reveal_strlit(" (#1)");
    assert(crate::text::decimal(0) =~= seq!['0']);
    assert(crate::text::decimal(1) =~= seq!['1']);
    assert(versioned_name(class_name, 0) =~= class_name + " (#0)"@);
    assert(versioned_name(class_name, 1) =~= class_name + " (#1)"@);
}

/// Two structs of one class, built one after the other, get two different
/// type identifiers, whatever their fields are: the first is registered under
/// the class's next version, the second under the version after it. For a
/// class not seen before these are versions 0 and 1. The second struct leaves
/// the log entry of the first one's type where it was, with the fields it
/// was registered with.
pub proof fn law_struct_versions_distinct(
    m: RecorderModel,
    class_name: Seq<char>,
    names: Seq<Seq<char>>,
    values: Seq<ValueModel>,
    other_names: Seq<Seq<char>>,
    other_values: Seq<ValueModel>,
)
    requires
        model_wf(m),
    ensures
        ({
            let version = next_version(m.versions, class_name);
            let (m1, first) = struct_of(m, class_name, names, values);
            let (m2, second) = struct_of(m1, class_name, other_names, other_values);
            &&& first is Struct
            &&& second is Struct
            &&& first->Struct_type_id != second->Struct_type_id
            &&& m2.types.contains_key(versioned_name(class_name, version))
            &&& m2.types.contains_key(versioned_name(class_name, version + 1))
            &&& m2.types[versioned_name(class_name, version)] == first->Struct_type_id
            &&& m2.types[versioned_name(class_name, version + 1)] == second->Struct_type_id
            &&& !m.versions.contains_key(class_name) ==> version == 0
            &&& m1.events.is_prefix_of(m2.events)
            &&& !m.types.contains_key(versioned_name(class_name, version)) ==> m1.events.len() > 0
                && m2.events[m1.events.len() - 1] == (TraceEvent::Type {
                kind: TypeKind::Struct,
                lang_type: versioned_name(class_name, version),
                fields: Some(struct_fields(names, values)),
            })
        }),
{
    let version = next_version(m.versions, class_name);
    let (m1, first) = struct_of(m, class_name, names, values);
    let first_name = versioned_name(class_name, version);
    let second_name = versioned_name(class_name, version + 1);
    assert(next_version(m1.versions, class_name) == version + 1);
    law_versioned_names_differ(class_name, version, version + 1);
    lemma_interned(m.types, first_name);
    lemma_interned(m1.types, second_name);
}

/// Two structs of one fixed class, built one after the other, share one type
/// identifier, and the second leaves the session as the first left it: the
/// class has a single entry in the registry.
pub proof fn law_fixed_struct_type_shared(
    m: RecorderModel,
    class_name: Seq<char>,
    names: Seq<Seq<char>>,
    values: Seq<ValueModel>,
    other_names: Seq<Seq<char>>,
    other_values: Seq<ValueModel>,
)
    ensures
        ({
            let (m1, first) = fixed_struct_of(m, class_name, names, values);
            let (m2, second) = fixed_struct_of(m1, class_name, other_names, other_values);
            &&& first is Struct
            &&& second is Struct
            &&& first->Struct_type_id == second->Struct_type_id
            &&& m2 == m1
        }),
{
}

/// With no depth left, every value converts to the value that stands for
/// nothing, and the session stays as it is.
pub proof fn law_depth_bound(m: RecorderModel, value: HostValue)
    ensures
        convert(m, value, 0) == (m, ValueModel::NoValue { type_id: m.error_type_id }),
{
}

/// While a hook event is being recorded, every further hook event is dropped:
/// it leaves the session, and so the log, exactly as it was.
pub proof fn law_nested_events_dropped(m: RecorderModel, path: Seq<char>, line: i64, event: HostEvent)
    requires
        m.in_event_hook,
    ensures
        !accepts(m, path),
        after_hook_event(m, path, line, event) == m,
{
}

/// While a message written by the traced program is being turned into text,
/// the session is busy, so every hook event that this causes is dropped, and
/// once the message is recorded the log holds the message's step and the
/// message, and nothing of what happened in between.
pub proof fn law_events_during_message_dropped(
    m: RecorderModel,
    path: Seq<char>,
    line: i64,
    event: HostEvent,
)
    requires
        !m.in_event_hook,
        !m.finished,
    ensures
        ({
            let busy = RecorderModel { in_event_hook: true, ..m };
            let after_nested = after_hook_event(busy, path, line, event);
            &&& after_nested == busy
            &&& (RecorderModel { in_event_hook: false, ..after_nested }) == m
        }),
{
}

/// A hook event at an internal path leaves the session, and so the log,
/// exactly as it was.
pub proof fn law_internal_paths_dropped(m: RecorderModel, path: Seq<char>, line: i64, event: HostEvent)
    requires
        is_ignored_path(path),
    ensures
        after_hook_event(m, path, line, event) == m,
{
}

/// A message written at an internal path leaves the session, and so the log,
/// exactly as it was: no step at such a path is ever logged for it.
pub proof fn law_internal_messages_dropped(
    m: RecorderModel,
    path: Seq<char>,
    line: i64,
    content: Seq<char>,
)
    requires
        is_ignored_path(path),
    ensures
        after_message_event(m, path, line, content) == m,
{
}

/// While tracing is off, and after the session has ended, every hook event is
/// dropped.
pub proof fn law_inactive_sessions_record_nothing(
    m: RecorderModel,
    path: Seq<char>,
    line: i64,
    event: HostEvent,
)
    requires
        !m.active || m.finished,
    ensures
        after_hook_event(m, path, line, event) == m,
{
}

} // verus!
