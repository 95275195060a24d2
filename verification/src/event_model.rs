//! What recording one execution event makes of a session.

use vstd::prelude::*;
use crate::host::{HostEvent, HostVariable};
use crate::path_filter::is_ignored_path;
use crate::recorder_model::{
    convert, with_event, with_function, with_step, with_type, with_value, RecorderModel,
};
use crate::trace_model::{id_of, ArgModel, TraceEvent};
use crate::value::{EventKind, TypeKind, ValueModel};

verus! {

/// The depth budget of every conversion that a hook event starts.
pub const DEFAULT_DEPTH: usize = 10;

/// A converted value with the name it belongs to.
pub struct NamedModel {
    pub name: Seq<char>,
    pub value: ValueModel,
}

/// The session after each variable in scope was converted and recorded, in
/// order.
pub open spec fn record_locals(m: RecorderModel, locals: Seq<HostVariable>) -> RecorderModel
    decreases locals.len(),
{
    if locals.len() == 0 {
        m
    } else {
        let m1 = record_locals(m, locals.drop_last());
        let (m2, value) = convert(m1, locals.last().value, DEFAULT_DEPTH as nat);
        with_value(m2, locals.last().name@, value)
    }
}

/// The parameters of a call converted in order, each with its name.
pub open spec fn collect_params(m: RecorderModel, params: Seq<HostVariable>) -> (
    RecorderModel,
    Seq<NamedModel>,
)
    decreases params.len(),
{
    if params.len() == 0 {
        (m, Seq::empty())
    } else {
        let (m1, front) = collect_params(m, params.drop_last());
        let (m2, value) = convert(m1, params.last().value, DEFAULT_DEPTH as nat);
        (m2, front.push(NamedModel { name: params.last().name@, value }))
    }
}

/// The converted parameters recorded as variables, in order, and bound to
/// their variable identifiers.
pub open spec fn register_params(m: RecorderModel, params: Seq<NamedModel>) -> (
    RecorderModel,
    Seq<ArgModel>,
)
    decreases params.len(),
{
    if params.len() == 0 {
        (m, Seq::empty())
    } else {
        let (m1, front) = register_params(m, params.drop_last());
        let last = params.last();
        (
            with_value(m1, last.name, last.value),
            front.push(
                ArgModel { variable_id: id_of(m1.variables, last.name), value: last.value },
            ),
        )
    }
}

/// The name a method is registered under: its own name for a receiver of
/// class `Object`, else the class name, `#`, and the method's name.
pub open spec fn qualified_name(class_name: Seq<char>, method_name: Seq<char>) -> Seq<char> {
    if class_name == "Object"@ {
        method_name
    } else {
        class_name + seq!['#'] + method_name
    }
}

/// The session after a line event: the position moves, then the variables in
/// scope are recorded.
pub open spec fn after_line(
    m: RecorderModel,
    path: Seq<char>,
    line: i64,
    locals: Seq<HostVariable>,
) -> RecorderModel {
    record_locals(with_step(m, path, line), locals)
}

/// The session after a call event: the parameters are converted; the
/// receiver is recorded as `self`, by its display text under a raw type named
/// after its class; the parameters are recorded; the position moves; the
/// function is looked up; and the call is logged with `self` and the
/// parameters as arguments.
pub open spec fn after_call(
    m: RecorderModel,
    path: Seq<char>,
    line: i64,
    class_name: Seq<char>,
    method_name: Seq<char>,
    self_text: Seq<char>,
    params: Seq<HostVariable>,
) -> RecorderModel {
    let (m1, converted) = collect_params(m, params);
    let receiver = ValueModel::Raw { r: self_text, type_id: id_of(m1.types, class_name) };
    let m2 = with_type(m1, TypeKind::Raw, class_name);
    let m3 = with_value(m2, "self"@, receiver);
    let (m4, rest) = register_params(m3, converted);
    let m5 = with_step(m4, path, line);
    let name = qualified_name(class_name, method_name);
    let m6 = with_function(m5, name, path, line);
    with_event(
        m6,
        TraceEvent::Call {
            function_id: id_of(m5.functions, name),
            args: seq![
                ArgModel { variable_id: id_of(m2.variables, "self"@), value: receiver },
            ] + rest,
        },
    )
}

/// The session after a return event: the position moves, the value is
/// converted, recorded as `<return_value>`, and the return is logged.
pub open spec fn after_return(
    m: RecorderModel,
    path: Seq<char>,
    line: i64,
    value: crate::host::HostValue,
) -> RecorderModel {
    let (m1, converted) = convert(with_step(m, path, line), value, DEFAULT_DEPTH as nat);
    with_event(
        with_value(m1, "<return_value>"@, converted),
        TraceEvent::Return { return_value: converted },
    )
}

/// The session after a raise event: the exception's text is logged as an
/// error.
pub open spec fn after_raise(m: RecorderModel, message: Seq<char>) -> RecorderModel {
    with_event(m, TraceEvent::Event { event_kind: EventKind::Error, content: message })
}

/// The session after `event` at `path`, `line` was recorded.
pub open spec fn recorded(
    m: RecorderModel,
    path: Seq<char>,
    line: i64,
    event: HostEvent,
) -> RecorderModel {
    match event {
        HostEvent::Line { locals } => after_line(m, path, line, locals@),
        HostEvent::Call { class_name, method_name, self_text, params } => after_call(
            m,
            path,
            line,
            class_name@,
            method_name@,
            self_text@,
            params@,
        ),
        HostEvent::Return { value } => after_return(m, path, line, value),
        HostEvent::Raise { message } => after_raise(m, message@),
    }
}

/// A hook event is taken up only while tracing is on, the trace is not
/// finished, no other hook event is being recorded, and the path is not an
/// internal one.
pub open spec fn accepts(m: RecorderModel, path: Seq<char>) -> bool {
    m.active && !m.finished && !m.in_event_hook && !is_ignored_path(path)
}

/// The session after a hook event arrived: recorded if taken up, dropped
/// without a trace otherwise.
pub open spec fn after_hook_event(
    m: RecorderModel,
    path: Seq<char>,
    line: i64,
    event: HostEvent,
) -> RecorderModel {
    if accepts(m, path) {
        recorded(m, path, line, event)
    } else {
        m
    }
}

/// The session after a message written by the traced program was recorded:
/// the position moves, then the message is logged.
pub open spec fn after_message(
    m: RecorderModel,
    path: Seq<char>,
    line: i64,
    content: Seq<char>,
) -> RecorderModel {
    with_event(
        with_step(m, path, line),
        TraceEvent::Event { event_kind: EventKind::Write, content },
    )
}

/// The session after a message arrived: recorded unless a hook event or
/// another message is being recorded, the trace is finished, or the path is
/// an internal one; then it is dropped without a trace.
pub open spec fn after_message_event(
    m: RecorderModel,
    path: Seq<char>,
    line: i64,
    content: Seq<char>,
) -> RecorderModel {
    if m.in_event_hook || m.finished || is_ignored_path(path) {
        m
    } else {
        after_message(m, path, line, content)
    }
}

} // verus!
