//! What every recorded event preserves: the log is only appended to and no
//! identifier ever changes.

use vstd::prelude::*;
use crate::convert_laws::lemma_convert_grows;
use crate::event_model::{
    after_hook_event, after_line, collect_params, qualified_name, record_locals, recorded,
    register_params, NamedModel, DEFAULT_DEPTH,
};
use crate::host::{HostEvent, HostValue, HostVariable};
use crate::recorder::{initial_model, model_wf};
use crate::recorder_model::{
    convert, with_event, with_function, with_step, with_type, with_value, RecorderModel,
};
use crate::trace_model::{
    empty_table, entry_if_new, id_of, interned, lemma_interned, ArgModel, Table, TraceEvent,
};
use crate::value::{TypeKind, ValueModel};
use crate::writer::path_key;

verus! {

/// Every key of `earlier` is in `later` under the same identifier.
pub open spec fn keeps_ids(earlier: Table, later: Table) -> bool {
    forall|key: Seq<char>| #[trigger]
        earlier.contains_key(key) ==> later.contains_key(key) && later[key] == earlier[key]
}

/// `later` continues `earlier`: the log of `earlier` is the beginning of the
/// log of `later`, and every type, variable, function and path of `earlier`
/// has the same identifier in `later`.
pub open spec fn continues(earlier: RecorderModel, later: RecorderModel) -> bool {
    &&& earlier.events.is_prefix_of(later.events)
    &&& keeps_ids(earlier.types, later.types)
    &&& keeps_ids(earlier.variables, later.variables)
    &&& keeps_ids(earlier.functions, later.functions)
    &&& keeps_ids(earlier.paths, later.paths)
    &&& later.active == earlier.active
    &&& later.in_event_hook == earlier.in_event_hook
    &&& later.thread_hook_installed == earlier.thread_hook_installed
    &&& later.finished == earlier.finished
}

/// Continuation composes.
pub proof fn lemma_continues_transitive(a: RecorderModel, b: RecorderModel, c: RecorderModel)
    requires
        continues(a, b),
        continues(b, c),
    ensures
        continues(a, c),
{
    assert forall|key: Seq<char>| #[trigger] a.types.contains_key(key) implies c.types.contains_key(
        key,
    ) && c.types[key] == a.types[key] by {
        assert(b.types.contains_key(key));
    }
    assert forall|key: Seq<char>| #[trigger]
        a.variables.contains_key(key) implies c.variables.contains_key(key) && c.variables[key]
        == a.variables[key] by {
        assert(b.variables.contains_key(key));
    }
    assert forall|key: Seq<char>| #[trigger]
        a.functions.contains_key(key) implies c.functions.contains_key(key) && c.functions[key]
        == a.functions[key] by {
        assert(b.functions.contains_key(key));
    }
    assert forall|key: Seq<char>| #[trigger] a.paths.contains_key(key) implies c.paths.contains_key(
        key,
    ) && c.paths[key] == a.paths[key] by {
        assert(b.paths.contains_key(key));
    }
}

/// A conversion continues a well-formed session and keeps it well formed.
pub proof fn lemma_convert_continues(m: RecorderModel, value: HostValue, depth: nat)
    requires
        model_wf(m),
    ensures
        continues(m, convert(m, value, depth).0),
        model_wf(convert(m, value, depth).0),
{
    lemma_convert_grows(m, value, depth);
}

/// Moving the position continues a well-formed session.
pub proof fn lemma_step_continues(m: RecorderModel, path: Seq<char>, line: i64)
    requires
        model_wf(m),
    ensures
        continues(m, with_step(m, path, line)),
        model_wf(with_step(m, path, line)),
{
    lemma_interned(m.paths, path_key(path));
}

/// Recording a value continues a well-formed session.
pub proof fn lemma_value_continues(m: RecorderModel, name: Seq<char>, value: ValueModel)
    requires
        model_wf(m),
    ensures
        continues(m, with_value(m, name, value)),
        model_wf(with_value(m, name, value)),
{
    lemma_interned(m.variables, name);
}

/// Looking a function up continues a well-formed session.
pub proof fn lemma_function_continues(m: RecorderModel, name: Seq<char>, path: Seq<char>, line: i64)
    requires
        model_wf(m),
    ensures
        continues(m, with_function(m, name, path, line)),
        model_wf(with_function(m, name, path, line)),
{
    lemma_interned(m.functions, name);
    lemma_interned(m.paths, path_key(path));
}

/// Recording the variables in scope continues a well-formed session.
pub proof fn lemma_locals_continue(m: RecorderModel, locals: Seq<HostVariable>)
    requires
        model_wf(m),
    ensures
        continues(m, record_locals(m, locals)),
        model_wf(record_locals(m, locals)),
    decreases locals.len(),
{
    if locals.len() > 0 {
        let m1 = record_locals(m, locals.drop_last());
        lemma_locals_continue(m, locals.drop_last());
        let (m2, value) = convert(m1, locals.last().value, DEFAULT_DEPTH as nat);
        lemma_convert_continues(m1, locals.last().value, DEFAULT_DEPTH as nat);
        lemma_value_continues(m2, locals.last().name@, value);
        lemma_continues_transitive(m, m1, m2);
        lemma_continues_transitive(m, m2, with_value(m2, locals.last().name@, value));
    }
}

/// Converting the parameters of a call continues a well-formed session.
pub proof fn lemma_params_continue(m: RecorderModel, params: Seq<HostVariable>)
    requires
        model_wf(m),
    ensures
        continues(m, collect_params(m, params).0),
        model_wf(collect_params(m, params).0),
    decreases params.len(),
{
    if params.len() > 0 {
        let (m1, front) = collect_params(m, params.drop_last());
        lemma_params_continue(m, params.drop_last());
        lemma_convert_continues(m1, params.last().value, DEFAULT_DEPTH as nat);
        lemma_continues_transitive(
            m,
            m1,
            convert(m1, params.last().value, DEFAULT_DEPTH as nat).0,
        );
    }
}

/// Recording the converted parameters continues a well-formed session.
pub proof fn lemma_registered_params_continue(m: RecorderModel, params: Seq<NamedModel>)
    requires
        model_wf(m),
    ensures
        continues(m, register_params(m, params).0),
        model_wf(register_params(m, params).0),
    decreases params.len(),
{
    if params.len() > 0 {
        let (m1, front) = register_params(m, params.drop_last());
        lemma_registered_params_continue(m, params.drop_last());
        lemma_value_continues(m1, params.last().name, params.last().value);
        lemma_continues_transitive(m, m1, with_value(m1, params.last().name, params.last().value));
    }
}

/// Law: whatever event is recorded, the session afterwards continues the
/// session before. Everything logged before is still there, in the same
/// order, followed by what the event added; and every type, variable,
/// function and path keeps the identifier it had. A well-formed session
/// stays well formed.
pub proof fn law_recording_continues(m: RecorderModel, path: Seq<char>, line: i64, event: HostEvent)
    requires
        model_wf(m),
    ensures
        continues(m, recorded(m, path, line, event)),
        model_wf(recorded(m, path, line, event)),
{
    match event {
        HostEvent::Line { locals } => {
            lemma_step_continues(m, path, line);
            lemma_locals_continue(with_step(m, path, line), locals@);
            lemma_continues_transitive(m, with_step(m, path, line), after_line(m, path, line, locals@));
        },
        HostEvent::Call { class_name, method_name, self_text, params } => {
            let (m1, converted) = collect_params(m, params@);
            lemma_params_continue(m, params@);
            let receiver = ValueModel::Raw {
                r: self_text@,
                type_id: crate::trace_model::id_of(m1.types, class_name@),
            };
            let m2 = with_type(m1, TypeKind::Raw, class_name@);
            lemma_interned(m1.types, class_name@);
            let m3 = with_value(m2, "self"@, receiver);
            lemma_value_continues(m2, "self"@, receiver);
            let (m4, rest) = register_params(m3, converted);
            lemma_registered_params_continue(m3, converted);
            let m5 = with_step(m4, path, line);
            lemma_step_continues(m4, path, line);
            let name = qualified_name(class_name@, method_name@);
            let m6 = with_function(m5, name, path, line);
            lemma_function_continues(m5, name, path, line);
            lemma_continues_transitive(m, m1, m2);
            lemma_continues_transitive(m, m2, m3);
            lemma_continues_transitive(m, m3, m4);
            lemma_continues_transitive(m, m4, m5);
            lemma_continues_transitive(m, m5, m6);
        },
        HostEvent::Return { value } => {
            let m0 = with_step(m, path, line);
            lemma_step_continues(m, path, line);
            let (m1, converted) = convert(m0, value, DEFAULT_DEPTH as nat);
            lemma_convert_continues(m0, value, DEFAULT_DEPTH as nat);
            lemma_value_continues(m1, "<return_value>"@, converted);
            lemma_continues_transitive(m, m0, m1);
            lemma_continues_transitive(m, m1, with_value(m1, "<return_value>"@, converted));
        },
        HostEvent::Raise { message } => {},
    }
}

/// Law: a hook event, taken up or dropped, continues the session.
pub proof fn law_hook_event_continues(m: RecorderModel, path: Seq<char>, line: i64, event: HostEvent)
    requires
        model_wf(m),
    ensures
        continues(m, after_hook_event(m, path, line, event)),
        model_wf(after_hook_event(m, path, line, event)),
{
    law_recording_continues(m, path, line, event);
}

/// A run of a function: the function is looked up and called, two steps are
/// taken, a variable is recorded, and the function returns.
pub open spec fn run_of_function(
    m: RecorderModel,
    function: Seq<char>,
    path: Seq<char>,
    line: i64,
    args: Seq<ArgModel>,
    first_line: i64,
    second_line: i64,
    variable: Seq<char>,
    value: ValueModel,
    returned: ValueModel,
) -> RecorderModel {
    let m1 = with_function(m, function, path, line);
    let m2 = with_event(
        m1,
        TraceEvent::Call { function_id: id_of(m.functions, function), args },
    );
    let m3 = with_step(m2, path, first_line);
    let m4 = with_step(m3, path, second_line);
    let m5 = with_value(m4, variable, value);
    with_event(m5, TraceEvent::Return { return_value: returned })
}

/// Law: what a run of a function leaves in the log is, after everything
/// logged before and in this order: the function's registration if it is new
/// (with its path if that is new), the call, the path if it is still new,
/// the two steps, the variable's name if it is new, the value, and the
/// return. The tables hold what they held before and the function, the path
/// and the variable of the run, and nothing else.
pub proof fn law_run_is_logged_in_order(
    m: RecorderModel,
    function: Seq<char>,
    path: Seq<char>,
    line: i64,
    args: Seq<ArgModel>,
    first_line: i64,
    second_line: i64,
    variable: Seq<char>,
    value: ValueModel,
    returned: ValueModel,
)
    ensures
        ({
            let after = run_of_function(
                m,
                function,
                path,
                line,
                args,
                first_line,
                second_line,
                variable,
                value,
                returned,
            );
            let registered = with_function(m, function, path, line);
            let path_id = id_of(registered.paths, path_key(path));
            &&& after.events == registered.events.push(
                TraceEvent::Call { function_id: id_of(m.functions, function), args },
            ) + entry_if_new(registered.paths, path_key(path), TraceEvent::Path { path }).push(
                TraceEvent::Step { path_id, line: first_line },
            ).push(TraceEvent::Step { path_id, line: second_line }) + entry_if_new(
                m.variables,
                variable,
                TraceEvent::VariableName { name: variable },
            ).push(TraceEvent::Value { variable_id: id_of(m.variables, variable), value }).push(
                TraceEvent::Return { return_value: returned },
            )
            &&& m.events.is_prefix_of(after.events)
            &&& after.functions == interned(m.functions, function)
            &&& after.variables == interned(m.variables, variable)
            &&& after.paths == interned(m.paths, path_key(path))
            &&& after.types == m.types
        }),
{
    let registered = with_function(m, function, path, line);
    let after = run_of_function(
        m,
        function,
        path,
        line,
        args,
        first_line,
        second_line,
        variable,
        value,
        returned,
    );
    let key = path_key(path);
    let path_id = id_of(registered.paths, key);
    let expected = registered.events.push(
        TraceEvent::Call { function_id: id_of(m.functions, function), args },
    ) + entry_if_new(registered.paths, key, TraceEvent::Path { path }).push(
        TraceEvent::Step { path_id, line: first_line },
    ).push(TraceEvent::Step { path_id, line: second_line }) + entry_if_new(
        m.variables,
        variable,
        TraceEvent::VariableName { name: variable },
    ).push(TraceEvent::Value { variable_id: id_of(m.variables, variable), value }).push(
        TraceEvent::Return { return_value: returned },
    );
    assert(after.events =~= expected);
    assert(after.paths =~= interned(m.paths, key));
}

/// Law: in a session that has just started, a run of a function leaves
/// exactly one function, one path and one variable in the tables, each under
/// identifier 0, and the log holds, after the baseline types and in this
/// order, the path, the function, the call, the two steps, the variable's
/// name, the value and the return.
pub proof fn law_first_run_fills_the_tables(
    function: Seq<char>,
    path: Seq<char>,
    line: i64,
    args: Seq<ArgModel>,
    first_line: i64,
    second_line: i64,
    variable: Seq<char>,
    value: ValueModel,
    returned: ValueModel,
)
    ensures
        ({
            let start = initial_model();
            let after = run_of_function(
                start,
                function,
                path,
                line,
                args,
                first_line,
                second_line,
                variable,
                value,
                returned,
            );
            &&& after.functions == empty_table().insert(function, 0)
            &&& after.variables == empty_table().insert(variable, 0)
            &&& after.paths == empty_table().insert(path_key(path), 0)
            &&& after.types == start.types
            &&& after.events == start.events + seq![
                TraceEvent::Path { path },
                TraceEvent::Function { path_id: 0, line, name: function },
                TraceEvent::Call { function_id: 0, args },
                TraceEvent::Step { path_id: 0, line: first_line },
                TraceEvent::Step { path_id: 0, line: second_line },
                TraceEvent::VariableName { name: variable },
                TraceEvent::Value { variable_id: 0, value },
                TraceEvent::Return { return_value: returned },
            ]
        }),
{
    let start = initial_model();
    assert(start.functions == empty_table());
    assert(start.variables == empty_table());
    assert(start.paths == empty_table());
    assert(empty_table().dom() =~= Set::<Seq<char>>::empty());
    assert(empty_table().len() == 0);
    let after = run_of_function(
        start,
        function,
        path,
        line,
        args,
        first_line,
        second_line,
        variable,
        value,
        returned,
    );
    assert(after.paths =~= empty_table().insert(path_key(path), 0));
    assert(after.events =~= start.events + seq![
        TraceEvent::Path { path },
        TraceEvent::Function { path_id: 0, line, name: function },
        TraceEvent::Call { function_id: 0, args },
        TraceEvent::Step { path_id: 0, line: first_line },
        TraceEvent::Step { path_id: 0, line: second_line },
        TraceEvent::VariableName { name: variable },
        TraceEvent::Value { variable_id: 0, value },
        TraceEvent::Return { return_value: returned },
    ]);
}

} // verus!
