use codetracer_ruby_recorder::recorder::{FullValue, LowLevelEvent, RecordError, Recorder};
use codetracer_ruby_recorder::value::{EventKind, TraceValue, TypeKind};
use runtime_tracing::{EventLogKind, TraceLowLevelEvent, Tracer, TypeId, ValueRecord};

fn started() -> Recorder {
    let mut rec = Recorder::new(Tracer::new("ruby", &[]));
    rec.enter_top_level();
    rec
}

#[test]
fn interning_a_type_twice_returns_the_same_id() {
    let mut rec = started();
    let first = rec.ensure_type_id(TypeKind::Sequence, "Array");
    let events = rec.tracer.events.len();
    let second = rec.ensure_type_id(TypeKind::Sequence, "Array");
    assert_eq!(first, 6);
    assert_eq!(second, first);
    assert_eq!(rec.tracer.events.len(), events);
}

#[test]
fn interning_a_baseline_type_again_returns_its_id() {
    let mut rec = started();
    let events = rec.tracer.events.len();
    assert_eq!(rec.ensure_type_id(TypeKind::Int, "Integer"), 0);
    assert_eq!(rec.ensure_type_id(TypeKind::Error, "No type"), 4);
    assert_eq!(rec.ensure_type_id(TypeKind::Float, "Float"), 5);
    assert_eq!(rec.tracer.events.len(), events);
}

#[test]
fn types_are_interned_by_name_whatever_the_kind() {
    let mut rec = started();
    let first = rec.ensure_type_id(TypeKind::Raw, "Thing");
    let second = rec.ensure_type_id(TypeKind::Sequence, "Thing");
    assert_eq!(first, second);
}

#[test]
fn different_type_names_get_different_ids() {
    let mut rec = started();
    let a = rec.ensure_type_id(TypeKind::Raw, "A");
    let b = rec.ensure_type_id(TypeKind::Raw, "B");
    assert_eq!((a, b), (6, 7));
}

#[test]
fn each_type_kind_reaches_the_writer() {
    let kinds = [
        (TypeKind::Sequence, runtime_tracing::TypeKind::Seq),
        (TypeKind::Struct, runtime_tracing::TypeKind::Struct),
        (TypeKind::Int, runtime_tracing::TypeKind::Int),
        (TypeKind::Float, runtime_tracing::TypeKind::Float),
        (TypeKind::String, runtime_tracing::TypeKind::String),
        (TypeKind::Bool, runtime_tracing::TypeKind::Bool),
        (TypeKind::Raw, runtime_tracing::TypeKind::Raw),
        (TypeKind::Error, runtime_tracing::TypeKind::Error),
    ];
    let mut rec = started();
    for (i, (kind, expected)) in kinds.iter().enumerate() {
        let name = format!("T{}", i);
        rec.ensure_type_id(*kind, &name);
        match rec.tracer.events.last().unwrap() {
            TraceLowLevelEvent::Type(t) => {
                assert_eq!(t.kind, *expected);
                assert_eq!(t.lang_type, name);
            }
            other => panic!("unexpected event {:?}", other),
        }
    }
}

#[test]
fn variables_are_interned_once() {
    let mut rec = started();
    let x = rec.ensure_variable_id("x");
    let y = rec.ensure_variable_id("y");
    let events = rec.tracer.events.len();
    assert_eq!((x, y), (0, 1));
    assert_eq!(rec.ensure_variable_id("x"), 0);
    assert_eq!(rec.tracer.events.len(), events);
    assert!(matches!(
        &rec.tracer.events[events - 2],
        TraceLowLevelEvent::VariableName(n) if n == "x"
    ));
}

#[test]
fn functions_are_interned_once_with_their_first_position() {
    let mut rec = started();
    let foo = rec.ensure_function_id("foo", "a.rb", 3);
    assert_eq!(foo, 1);
    let n = rec.tracer.events.len();
    assert!(matches!(&rec.tracer.events[n - 2], TraceLowLevelEvent::Path(p) if p.to_str() == Some("a.rb")));
    match &rec.tracer.events[n - 1] {
        TraceLowLevelEvent::Function(f) => {
            assert_eq!(f.name, "foo");
            assert_eq!(f.path_id.0, 1);
            assert_eq!(f.line.0, 3);
        }
        other => panic!("unexpected event {:?}", other),
    }
    assert_eq!(rec.ensure_function_id("foo", "b.rb", 9), 1);
    assert_eq!(rec.tracer.events.len(), n);
    assert_eq!(rec.ensure_function_id("<top-level>", "zzz.rb", 5), 0);
    assert_eq!(rec.tracer.events.len(), n);
}

#[test]
fn steps_log_a_path_once() {
    let mut rec = started();
    let n = rec.tracer.events.len();
    rec.register_step("a.rb", 3);
    rec.register_step("a.rb", 4);
    assert_eq!(rec.tracer.events.len(), n + 3);
    assert!(matches!(&rec.tracer.events[n], TraceLowLevelEvent::Path(p) if p.to_str() == Some("a.rb")));
    match (&rec.tracer.events[n + 1], &rec.tracer.events[n + 2]) {
        (TraceLowLevelEvent::Step(a), TraceLowLevelEvent::Step(b)) => {
            assert_eq!((a.path_id.0, a.line.0), (1, 3));
            assert_eq!((b.path_id.0, b.line.0), (1, 4));
        }
        other => panic!("unexpected events {:?}", other),
    }
}

#[test]
fn arg_binds_a_value_to_its_variable() {
    let mut rec = started();
    rec.ensure_variable_id("first");
    let bound = rec.arg("x", TraceValue::Int { i: 1, type_id: 0 });
    assert_eq!(bound.variable_id, 1);
    assert_eq!(bound.value, TraceValue::Int { i: 1, type_id: 0 });
    let again = rec.arg("x", TraceValue::Bool { b: true, type_id: 2 });
    assert_eq!(again.variable_id, 1);
}

#[test]
fn special_events_carry_kind_and_content() {
    let mut rec = started();
    rec.register_special_event(EventKind::Write, "out");
    rec.register_special_event(EventKind::Error, "bad");
    let n = rec.tracer.events.len();
    match (&rec.tracer.events[n - 2], &rec.tracer.events[n - 1]) {
        (TraceLowLevelEvent::Event(a), TraceLowLevelEvent::Event(b)) => {
            assert_eq!(a.kind, EventLogKind::Write);
            assert_eq!(a.content, "out");
            assert_eq!(a.metadata, "");
            assert_eq!(b.kind, EventLogKind::Error);
            assert_eq!(b.content, "bad");
        }
        other => panic!("unexpected events {:?}", other),
    }
}

#[test]
fn concrete_scenario_call_step_value_return() {
    let mut rec = Recorder::new(Tracer::new("ruby", &[]));
    let start = rec.tracer.events.len();
    let foo = rec.ensure_function_id("foo", "a.rb", 3);
    rec.register_call(foo, &vec![]).unwrap();
    rec.register_step("a.rb", 3);
    let int_type = rec.ensure_type_id(TypeKind::Int, "Integer");
    rec.register_variable_with_full_value("x", &TraceValue::Int { i: 42, type_id: int_type }).unwrap();
    let returned = TraceValue::Int { i: 42, type_id: rec.ensure_type_id(TypeKind::Int, "Integer") };
    rec.register_return(&returned).unwrap();
    rec.finish();

    let mut functions = Vec::new();
    let mut variables = Vec::new();
    let mut paths = Vec::new();
    let mut body = Vec::new();
    for event in &rec.tracer.events {
        match event {
            TraceLowLevelEvent::Function(f) => functions.push(f.name.clone()),
            TraceLowLevelEvent::VariableName(n) => variables.push(n.clone()),
            TraceLowLevelEvent::Path(p) => paths.push(p.to_str().unwrap().to_string()),
            TraceLowLevelEvent::Call(_) | TraceLowLevelEvent::Value(_) | TraceLowLevelEvent::Return(_) => {
                body.push(event.clone())
            }
            TraceLowLevelEvent::Step(s) => assert_eq!((s.path_id.0, s.line.0), (0, 3)),
            TraceLowLevelEvent::Type(_) => {}
            other => panic!("unexpected event {:?}", other),
        }
    }
    assert_eq!(functions, vec!["foo"]);
    assert_eq!(variables, vec!["x"]);
    assert_eq!(paths, vec!["a.rb"]);
    assert_eq!(foo, 0);
    assert_eq!(rec.tracer.events.len(), start + 7);
    assert_eq!(body.len(), 3);
    match (&body[0], &body[1], &body[2]) {
        (TraceLowLevelEvent::Call(c), TraceLowLevelEvent::Value(v), TraceLowLevelEvent::Return(r)) => {
            assert_eq!(c.function_id.0, 0);
            assert!(c.args.is_empty());
            assert_eq!(v.variable_id.0, 0);
            assert_eq!(v.value, ValueRecord::Int { i: 42, type_id: TypeId(0) });
            assert_eq!(r.return_value, ValueRecord::Int { i: 42, type_id: TypeId(0) });
        }
        other => panic!("unexpected body {:?}", other),
    }
    assert!(rec.is_finished());
}

#[test]
fn record_order_is_log_order() {
    let mut rec = started();
    let start = rec.tracer.events.len();
    let f = rec.ensure_function_id("run", "main.rb", 1);
    rec.register_call(f, &vec![]).unwrap();
    rec.register_step("main.rb", 1);
    rec.register_step("main.rb", 2);
    rec.register_variable_with_full_value("n", &TraceValue::Int { i: 1, type_id: 0 }).unwrap();
    rec.register_return(&TraceValue::NoValue { type_id: 4 }).unwrap();
    let kinds: Vec<&str> = rec.tracer.events[start..]
        .iter()
        .map(|e| match e {
            TraceLowLevelEvent::Path(_) => "path",
            TraceLowLevelEvent::Function(_) => "function",
            TraceLowLevelEvent::Call(_) => "call",
            TraceLowLevelEvent::Step(_) => "step",
            TraceLowLevelEvent::VariableName(_) => "name",
            TraceLowLevelEvent::Value(_) => "value",
            TraceLowLevelEvent::Return(_) => "return",
            _ => "other",
        })
        .collect();
    assert_eq!(kinds, vec!["path", "function", "call", "step", "step", "name", "value", "return"]);
}

#[test]
fn add_event_appends_in_call_order() {
    let mut rec = started();
    let n = rec.tracer.events.len();
    rec.add_event(&LowLevelEvent::Call {
        function_id: 0,
        args: vec![FullValue { variable_id: 0, value: TraceValue::Int { i: 1, type_id: 0 } }],
    })
    .unwrap();
    rec.add_event(&LowLevelEvent::Event { kind: EventKind::Write, content: "w".to_string() }).unwrap();
    rec.add_event(&LowLevelEvent::Return { return_value: TraceValue::Bool { b: false, type_id: 2 } })
        .unwrap();
    assert_eq!(rec.tracer.events.len(), n + 3);
    match (&rec.tracer.events[n], &rec.tracer.events[n + 1], &rec.tracer.events[n + 2]) {
        (TraceLowLevelEvent::Call(c), TraceLowLevelEvent::Event(e), TraceLowLevelEvent::Return(r)) => {
            assert_eq!(c.function_id.0, 0);
            assert_eq!(c.args[0].value, ValueRecord::Int { i: 1, type_id: TypeId(0) });
            assert_eq!(e.kind, EventLogKind::Write);
            assert_eq!(e.content, "w");
            assert_eq!(r.return_value, ValueRecord::Bool { b: false, type_id: TypeId(2) });
        }
        other => panic!("unexpected events {:?}", other),
    }
}

fn big(type_id: usize) -> TraceValue {
    TraceValue::BigInt { b: vec![1], negative: false, type_id }
}

#[test]
fn big_integer_is_turned_down_and_nothing_changes() {
    let mut rec = started();
    let n = rec.tracer.events.len();
    assert_eq!(
        rec.register_variable_with_full_value("n", &big(7)),
        Err(RecordError::UnsupportedValue)
    );
    assert_eq!(rec.register_return(&big(7)), Err(RecordError::UnsupportedValue));
    assert_eq!(rec.tracer.events.len(), n);
    // the name was not interned by the failed attempt
    assert_eq!(rec.ensure_variable_id("first"), 0);
    assert_eq!(rec.ensure_variable_id("n"), 1);
    assert_eq!(RecordError::UnsupportedValue.message(), "the trace writer cannot hold a big integer");
}

#[test]
fn big_integer_inside_a_value_is_turned_down() {
    let mut rec = started();
    let n = rec.tracer.events.len();
    let nested = TraceValue::Sequence {
        elements: vec![
            TraceValue::Int { i: 1, type_id: 0 },
            TraceValue::Struct { field_values: vec![big(7)], type_id: 3 },
        ],
        is_slice: false,
        type_id: 2,
    };
    assert_eq!(rec.register_variable_with_full_value("n", &nested), Err(RecordError::UnsupportedValue));
    let boxed = TraceValue::Reference {
        dereferenced: Box::new(TraceValue::Variant {
            discriminator: "d".to_string(),
            contents: Box::new(TraceValue::Tuple { elements: vec![big(1)], type_id: 1 }),
            type_id: 1,
        }),
        address: 0,
        mutable: false,
        type_id: 1,
    };
    assert_eq!(rec.register_return(&boxed), Err(RecordError::UnsupportedValue));
    assert_eq!(rec.tracer.events.len(), n);
}

#[test]
fn call_with_a_big_integer_argument_is_turned_down() {
    let mut rec = started();
    let n = rec.tracer.events.len();
    let args = vec![
        FullValue { variable_id: 0, value: TraceValue::Int { i: 1, type_id: 0 } },
        FullValue { variable_id: 1, value: big(7) },
    ];
    assert_eq!(rec.register_call(0, &args), Err(RecordError::UnsupportedValue));
    assert_eq!(
        rec.add_event(&LowLevelEvent::Call { function_id: 0, args }),
        Err(RecordError::UnsupportedValue)
    );
    assert_eq!(
        rec.add_event(&LowLevelEvent::Return { return_value: big(7) }),
        Err(RecordError::UnsupportedValue)
    );
    assert_eq!(rec.tracer.events.len(), n);
}
