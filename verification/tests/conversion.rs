use codetracer_ruby_recorder::host::{HostField, HostPair, HostValue};
use codetracer_ruby_recorder::recorder::Recorder;
use codetracer_ruby_recorder::value::TraceValue;
use runtime_tracing::{TraceLowLevelEvent, Tracer, TypeKind, TypeSpecificInfo};

fn started() -> Recorder {
    let mut rec = Recorder::new(Tracer::new("ruby", &[]));
    rec.enter_top_level();
    rec
}

fn type_names(rec: &Recorder) -> Vec<String> {
    let mut names = Vec::new();
    for event in &rec.tracer.events {
        if let TraceLowLevelEvent::Type(t) = event {
            names.push(t.lang_type.clone());
        }
    }
    names
}

fn field(name: &str, value: HostValue) -> HostField {
    HostField { name: name.to_string(), value }
}

fn object(class_name: &str, ivars: Option<Vec<HostField>>, text: &str) -> HostValue {
    HostValue::Object { class_name: class_name.to_string(), ivars, text: text.to_string() }
}

#[test]
fn baseline_types_are_registered_in_order() {
    let rec = started();
    assert_eq!(type_names(&rec), vec!["Integer", "String", "Bool", "Symbol", "No type", "Float"]);
    assert_eq!(rec.int_type_id, 0);
    assert_eq!(rec.string_type_id, 1);
    assert_eq!(rec.bool_type_id, 2);
    assert_eq!(rec.symbol_type_id, 3);
    assert_eq!(rec.error_type_id, 4);
    assert_eq!(rec.float_type_id, 5);
}

#[test]
fn new_session_holds_the_baseline_types_only() {
    let rec = Recorder::new(Tracer::new("ruby", &[]));
    assert_eq!(rec.tracer.events.len(), 6);
    assert!(rec.tracer.events.iter().all(|e| matches!(e, TraceLowLevelEvent::Type(_))));
    assert!(!rec.is_active());
    assert!(!rec.is_in_event_hook());
    assert!(!rec.is_finished());
}

#[test]
fn entering_the_top_level_registers_and_calls_it() {
    let mut rec = Recorder::new(Tracer::new("ruby", &[]));
    rec.enter_top_level();
    assert_eq!(rec.tracer.events.len(), 9);
    assert!(matches!(&rec.tracer.events[6], TraceLowLevelEvent::Path(p) if p.as_os_str() == ""));
    match &rec.tracer.events[7] {
        TraceLowLevelEvent::Function(f) => {
            assert_eq!(f.name, "<top-level>");
            assert_eq!(f.path_id.0, 0);
            assert_eq!(f.line.0, 1);
        }
        other => panic!("unexpected event {:?}", other),
    }
    match &rec.tracer.events[8] {
        TraceLowLevelEvent::Call(c) => {
            assert_eq!(c.function_id.0, 0);
            assert!(c.args.is_empty());
        }
        other => panic!("unexpected event {:?}", other),
    }
    assert_eq!(rec.ensure_function_id("<top-level>", "other.rb", 7), 0);
    assert_eq!(rec.tracer.events.len(), 9);
}

#[test]
fn depth_zero_yields_no_value_for_every_kind() {
    let mut rec = started();
    let before = rec.tracer.events.len();
    let values = vec![
        HostValue::Nil,
        HostValue::Bool(true),
        HostValue::Integer(7),
        HostValue::Float(1.5f64.to_bits()),
        HostValue::Symbol("s".to_string()),
        HostValue::Text("t".to_string()),
        HostValue::Array(vec![HostValue::Integer(1)]),
        HostValue::Hash(vec![HostPair { key: HostValue::Integer(1), value: HostValue::Nil }]),
        HostValue::Range { begin: Box::new(HostValue::Integer(1)), end: Box::new(HostValue::Integer(2)) },
        HostValue::SetItems(vec![HostValue::Integer(1)]),
        HostValue::Time { sec: Box::new(HostValue::Integer(1)), nsec: Box::new(HostValue::Integer(2)) },
        HostValue::Regexp {
            source: Box::new(HostValue::Text("a".to_string())),
            options: Box::new(HostValue::Integer(0)),
        },
        HostValue::Struct {
            class_name: "P".to_string(),
            members: Some(vec![field("x", HostValue::Integer(1))]),
            text: "p".to_string(),
        },
        HostValue::OpenStruct { table: Box::new(HostValue::Hash(vec![])) },
        object("O", Some(vec![field("@a", HostValue::Integer(1))]), "o"),
    ];
    for value in &values {
        assert_eq!(rec.to_value(value, 0), TraceValue::NoValue { type_id: 4 });
    }
    assert_eq!(rec.tracer.events.len(), before);
}

#[test]
fn primitives_map_to_the_baseline_types() {
    let mut rec = started();
    let before = rec.tracer.events.len();
    assert_eq!(rec.to_value(&HostValue::Nil, 10), TraceValue::NoValue { type_id: 4 });
    assert_eq!(rec.to_value(&HostValue::Bool(true), 10), TraceValue::Bool { b: true, type_id: 2 });
    assert_eq!(rec.to_value(&HostValue::Bool(false), 1), TraceValue::Bool { b: false, type_id: 2 });
    assert_eq!(rec.to_value(&HostValue::Integer(-42), 10), TraceValue::Int { i: -42, type_id: 0 });
    assert_eq!(
        rec.to_value(&HostValue::Symbol("name".to_string()), 10),
        TraceValue::String { text: "name".to_string(), type_id: 3 }
    );
    assert_eq!(
        rec.to_value(&HostValue::Text("hello".to_string()), 10),
        TraceValue::String { text: "hello".to_string(), type_id: 1 }
    );
    assert_eq!(rec.tracer.events.len(), before);
}

#[test]
fn floats_use_the_baseline_float_type() {
    let mut rec = started();
    let before = rec.tracer.events.len();
    let bits = 2.5f64.to_bits();
    assert_eq!(rec.to_value(&HostValue::Float(bits), 10), TraceValue::Float { bits, type_id: 5 });
    let other = (-0.0f64).to_bits();
    assert_eq!(
        rec.to_value(&HostValue::Float(other), 10),
        TraceValue::Float { bits: other, type_id: 5 }
    );
    assert_eq!(rec.tracer.events.len(), before);
}

#[test]
fn array_converts_elements_one_level_down() {
    let mut rec = started();
    let value = HostValue::Array(vec![
        HostValue::Integer(1),
        HostValue::Array(vec![HostValue::Integer(2)]),
    ]);
    assert_eq!(
        rec.to_value(&value, 2),
        TraceValue::Sequence {
            elements: vec![
                TraceValue::Int { i: 1, type_id: 0 },
                TraceValue::Sequence {
                    elements: vec![TraceValue::NoValue { type_id: 4 }],
                    is_slice: false,
                    type_id: 6,
                },
            ],
            is_slice: false,
            type_id: 6,
        }
    );
    assert_eq!(type_names(&rec).last().unwrap(), "Array");
    assert_eq!(type_names(&rec).len(), 7);
}

#[test]
fn array_at_depth_one_truncates_its_elements() {
    let mut rec = started();
    let value = HostValue::Array(vec![HostValue::Integer(1), HostValue::Text("x".to_string())]);
    assert_eq!(
        rec.to_value(&value, 1),
        TraceValue::Sequence {
            elements: vec![TraceValue::NoValue { type_id: 4 }, TraceValue::NoValue { type_id: 4 }],
            is_slice: false,
            type_id: 6,
        }
    );
}

#[test]
fn empty_array_is_an_empty_sequence() {
    let mut rec = started();
    assert_eq!(
        rec.to_value(&HostValue::Array(vec![]), 10),
        TraceValue::Sequence { elements: vec![], is_slice: false, type_id: 6 }
    );
}

#[test]
fn set_is_a_sequence_of_its_members() {
    let mut rec = started();
    let value = HostValue::SetItems(vec![HostValue::Integer(3), HostValue::Integer(4)]);
    assert_eq!(
        rec.to_value(&value, 10),
        TraceValue::Sequence {
            elements: vec![TraceValue::Int { i: 3, type_id: 0 }, TraceValue::Int { i: 4, type_id: 0 }],
            is_slice: false,
            type_id: 6,
        }
    );
    assert_eq!(type_names(&rec).last().unwrap(), "Set");
}

#[test]
fn hash_is_flattened_into_pairs_of_one_type() {
    let mut rec = started();
    let value = HostValue::Hash(vec![
        HostPair { key: HostValue::Symbol("a".to_string()), value: HostValue::Integer(1) },
        HostPair { key: HostValue::Symbol("b".to_string()), value: HostValue::Text("x".to_string()) },
    ]);
    assert_eq!(
        rec.to_value(&value, 10),
        TraceValue::Sequence {
            elements: vec![
                TraceValue::Struct {
                    field_values: vec![
                        TraceValue::String { text: "a".to_string(), type_id: 3 },
                        TraceValue::Int { i: 1, type_id: 0 },
                    ],
                    type_id: 6,
                },
                TraceValue::Struct {
                    field_values: vec![
                        TraceValue::String { text: "b".to_string(), type_id: 3 },
                        TraceValue::String { text: "x".to_string(), type_id: 1 },
                    ],
                    type_id: 6,
                },
            ],
            is_slice: false,
            type_id: 7,
        }
    );
    let names = type_names(&rec);
    assert_eq!(&names[6..], &["Pair", "Hash"]);
    match &rec.tracer.events[rec.tracer.events.len() - 2] {
        TraceLowLevelEvent::Type(t) => {
            assert_eq!(t.kind, TypeKind::Struct);
            match &t.specific_info {
                TypeSpecificInfo::Struct { fields } => {
                    assert_eq!(fields.len(), 2);
                    assert_eq!(fields[0].name, "k");
                    assert_eq!(fields[0].type_id.0, 3);
                    assert_eq!(fields[1].name, "v");
                    assert_eq!(fields[1].type_id.0, 0);
                }
                other => panic!("unexpected info {:?}", other),
            }
        }
        other => panic!("unexpected event {:?}", other),
    }
}

#[test]
fn pair_type_is_shared_across_hashes() {
    let mut rec = started();
    let first = HostValue::Hash(vec![HostPair { key: HostValue::Integer(1), value: HostValue::Nil }]);
    let second = HostValue::Hash(vec![HostPair { key: HostValue::Bool(true), value: HostValue::Nil }]);
    rec.to_value(&first, 10);
    let events = rec.tracer.events.len();
    let value = rec.to_value(&second, 10);
    assert_eq!(rec.tracer.events.len(), events);
    assert_eq!(
        value,
        TraceValue::Sequence {
            elements: vec![TraceValue::Struct {
                field_values: vec![
                    TraceValue::Bool { b: true, type_id: 2 },
                    TraceValue::NoValue { type_id: 4 },
                ],
                type_id: 6,
            }],
            is_slice: false,
            type_id: 7,
        }
    );
}

#[test]
fn range_time_and_regexp_have_fixed_fields() {
    let mut rec = started();
    let range = HostValue::Range {
        begin: Box::new(HostValue::Integer(1)),
        end: Box::new(HostValue::Integer(9)),
    };
    assert_eq!(
        rec.to_value(&range, 10),
        TraceValue::Struct {
            field_values: vec![TraceValue::Int { i: 1, type_id: 0 }, TraceValue::Int { i: 9, type_id: 0 }],
            type_id: 6,
        }
    );
    let time = HostValue::Time {
        sec: Box::new(HostValue::Integer(100)),
        nsec: Box::new(HostValue::Integer(5)),
    };
    assert_eq!(
        rec.to_value(&time, 10),
        TraceValue::Struct {
            field_values: vec![TraceValue::Int { i: 100, type_id: 0 }, TraceValue::Int { i: 5, type_id: 0 }],
            type_id: 7,
        }
    );
    let regexp = HostValue::Regexp {
        source: Box::new(HostValue::Text("a+".to_string())),
        options: Box::new(HostValue::Integer(0)),
    };
    assert_eq!(
        rec.to_value(&regexp, 10),
        TraceValue::Struct {
            field_values: vec![
                TraceValue::String { text: "a+".to_string(), type_id: 1 },
                TraceValue::Int { i: 0, type_id: 0 },
            ],
            type_id: 8,
        }
    );
    assert_eq!(&type_names(&rec)[6..], &["Range", "Time", "Regexp"]);
    let mut field_lists = Vec::new();
    for event in &rec.tracer.events {
        if let TraceLowLevelEvent::Type(t) = event {
            if let TypeSpecificInfo::Struct { fields } = &t.specific_info {
                field_lists.push(fields.iter().map(|f| f.name.clone()).collect::<Vec<_>>());
            }
        }
    }
    assert_eq!(
        field_lists,
        vec![vec!["begin", "end"], vec!["sec", "nsec"], vec!["source", "options"]]
    );
}

#[test]
fn fixed_classes_keep_one_type_entry() {
    let mut rec = started();
    let range = |a: i64, b: i64| HostValue::Range {
        begin: Box::new(HostValue::Integer(a)),
        end: Box::new(HostValue::Integer(b)),
    };
    let first = rec.to_value(&range(1, 2), 10);
    let events = rec.tracer.events.len();
    let second = rec.to_value(&range(3, 4), 10);
    assert!(matches!(first, TraceValue::Struct { type_id: 6, .. }));
    assert!(matches!(second, TraceValue::Struct { type_id: 6, .. }));
    assert_eq!(rec.tracer.events.len(), events);
}

#[test]
fn fixed_struct_value_uses_the_class_name() {
    let mut rec = started();
    let names = vec!["begin".to_string(), "end".to_string()];
    let one = HostValue::Integer(1);
    let two = HostValue::Integer(2);
    let value = rec.fixed_struct_value("Range", &names, &vec![&one, &two], 1);
    assert_eq!(
        value,
        TraceValue::Struct {
            field_values: vec![TraceValue::NoValue { type_id: 4 }, TraceValue::NoValue { type_id: 4 }],
            type_id: 6,
        }
    );
    assert_eq!(type_names(&rec).last().unwrap(), "Range");
}

#[test]
fn struct_versioning_gives_each_shape_its_own_type() {
    let mut rec = started();
    let first = object("Point", Some(vec![field("@x", HostValue::Integer(1))]), "");
    let second = object(
        "Point",
        Some(vec![field("@x", HostValue::Integer(1)), field("@y", HostValue::Text("b".to_string()))]),
        "",
    );
    let a = rec.to_value(&first, 10);
    let b = rec.to_value(&second, 10);
    assert_eq!(
        a,
        TraceValue::Struct { field_values: vec![TraceValue::Int { i: 1, type_id: 0 }], type_id: 6 }
    );
    assert_eq!(
        b,
        TraceValue::Struct {
            field_values: vec![
                TraceValue::Int { i: 1, type_id: 0 },
                TraceValue::String { text: "b".to_string(), type_id: 1 },
            ],
            type_id: 7,
        }
    );
    assert_eq!(&type_names(&rec)[6..], &["Point (#0)", "Point (#1)"]);
}

#[test]
fn same_shape_twice_still_gets_two_versions() {
    let mut rec = started();
    let value = object("Point", Some(vec![field("@x", HostValue::Integer(1))]), "");
    let a = rec.to_value(&value, 10);
    let b = rec.to_value(&value, 10);
    assert!(matches!(a, TraceValue::Struct { type_id: 6, .. }));
    assert!(matches!(b, TraceValue::Struct { type_id: 7, .. }));
}

#[test]
fn nested_struct_of_the_same_class_takes_the_earlier_version() {
    let mut rec = started();
    let inner = object("Node", Some(vec![field("@next", HostValue::Nil)]), "");
    let outer = object("Node", Some(vec![field("@next", inner)]), "");
    assert_eq!(
        rec.to_value(&outer, 10),
        TraceValue::Struct {
            field_values: vec![TraceValue::Struct {
                field_values: vec![TraceValue::NoValue { type_id: 4 }],
                type_id: 6,
            }],
            type_id: 7,
        }
    );
    assert_eq!(&type_names(&rec)[6..], &["Node (#0)", "Node (#1)"]);
}

#[test]
fn object_without_slots_falls_back_to_raw_text() {
    let mut rec = started();
    assert_eq!(
        rec.to_value(&object("Widget", Some(vec![]), "#<Widget>"), 10),
        TraceValue::Raw { r: "#<Widget>".to_string(), type_id: 6 }
    );
    assert_eq!(
        rec.to_value(&object("Widget", None, ""), 10),
        TraceValue::Raw { r: "".to_string(), type_id: 6 }
    );
    assert_eq!(&type_names(&rec)[6..], &["Widget"]);
    match rec.tracer.events.last().unwrap() {
        TraceLowLevelEvent::Type(t) => {
            assert_eq!(t.kind, TypeKind::Raw);
            assert!(matches!(t.specific_info, TypeSpecificInfo::None));
        }
        other => panic!("unexpected event {:?}", other),
    }
}

#[test]
fn struct_instance_uses_its_members() {
    let mut rec = started();
    let value = HostValue::Struct {
        class_name: "Pt".to_string(),
        members: Some(vec![field("x", HostValue::Integer(1)), field("y", HostValue::Integer(2))]),
        text: "unused".to_string(),
    };
    assert_eq!(
        rec.to_value(&value, 10),
        TraceValue::Struct {
            field_values: vec![TraceValue::Int { i: 1, type_id: 0 }, TraceValue::Int { i: 2, type_id: 0 }],
            type_id: 6,
        }
    );
    let unreadable = HostValue::Struct {
        class_name: "Pt".to_string(),
        members: None,
        text: "#<struct Pt>".to_string(),
    };
    assert_eq!(
        rec.to_value(&unreadable, 10),
        TraceValue::Raw { r: "#<struct Pt>".to_string(), type_id: 7 }
    );
    assert_eq!(&type_names(&rec)[6..], &["Pt (#0)", "Pt"]);
}

#[test]
fn struct_instance_without_members_falls_back_to_raw_text() {
    let mut rec = started();
    let value = HostValue::Struct {
        class_name: "Empty".to_string(),
        members: Some(vec![]),
        text: "#<struct Empty>".to_string(),
    };
    assert_eq!(
        rec.to_value(&value, 10),
        TraceValue::Raw { r: "#<struct Empty>".to_string(), type_id: 6 }
    );
}

#[test]
fn open_struct_converts_its_table_one_level_down() {
    let mut rec = started();
    let table = HostValue::Hash(vec![HostPair {
        key: HostValue::Symbol("a".to_string()),
        value: HostValue::Integer(1),
    }]);
    let value = HostValue::OpenStruct { table: Box::new(table) };
    assert_eq!(rec.to_value(&value, 1), TraceValue::NoValue { type_id: 4 });
    assert_eq!(
        rec.to_value(&value, 2),
        TraceValue::Sequence {
            elements: vec![TraceValue::Struct {
                field_values: vec![TraceValue::NoValue { type_id: 4 }, TraceValue::NoValue { type_id: 4 }],
                type_id: 6,
            }],
            is_slice: false,
            type_id: 7,
        }
    );
}

#[test]
fn struct_value_pairs_names_with_values_as_far_as_both_reach() {
    let mut rec = started();
    let names = vec!["a".to_string(), "b".to_string(), "c".to_string()];
    let one = HostValue::Integer(1);
    let two = HostValue::Bool(true);
    let values = vec![&one, &two];
    let value = rec.struct_value("Odd", &names, &values, 3);
    assert_eq!(
        value,
        TraceValue::Struct {
            field_values: vec![TraceValue::Int { i: 1, type_id: 0 }, TraceValue::Bool { b: true, type_id: 2 }],
            type_id: 6,
        }
    );
    match rec.tracer.events.last().unwrap() {
        TraceLowLevelEvent::Type(t) => {
            assert_eq!(t.lang_type, "Odd (#0)");
            match &t.specific_info {
                TypeSpecificInfo::Struct { fields } => {
                    assert_eq!(fields.len(), 2);
                    assert_eq!(fields[1].name, "b");
                    assert_eq!(fields[1].type_id.0, 2);
                }
                other => panic!("unexpected info {:?}", other),
            }
        }
        other => panic!("unexpected event {:?}", other),
    }
}

#[test]
fn a_class_named_like_a_version_reuses_the_registered_type() {
    let mut rec = started();
    let raw = rec.to_value(&object("Point (#0)", None, "p"), 10);
    assert_eq!(raw, TraceValue::Raw { r: "p".to_string(), type_id: 6 });
    let value = rec.to_value(&object("Point", Some(vec![field("@x", HostValue::Nil)]), ""), 10);
    assert!(matches!(value, TraceValue::Struct { type_id: 6, .. }));
    assert_eq!(type_names(&rec).len(), 7);
}

#[test]
fn versions_go_past_nine() {
    let mut rec = started();
    let value = object("Point", Some(vec![field("@x", HostValue::Integer(1))]), "");
    for _ in 0..11 {
        rec.to_value(&value, 10);
    }
    let names = type_names(&rec);
    assert_eq!(&names[names.len() - 3..], &["Point (#8)", "Point (#9)", "Point (#10)"]);
}

#[test]
fn earlier_struct_type_is_kept_when_a_new_shape_appears() {
    let mut rec = started();
    rec.to_value(&object("Point", Some(vec![field("@x", HostValue::Integer(1))]), ""), 10);
    let at = rec.tracer.events.len() - 1;
    rec.to_value(
        &object("Point", Some(vec![field("@y", HostValue::Bool(true)), field("@z", HostValue::Nil)]), ""),
        10,
    );
    match &rec.tracer.events[at] {
        TraceLowLevelEvent::Type(t) => {
            assert_eq!(t.lang_type, "Point (#0)");
            match &t.specific_info {
                TypeSpecificInfo::Struct { fields } => {
                    assert_eq!(fields.len(), 1);
                    assert_eq!(fields[0].name, "@x");
                }
                other => panic!("unexpected info {:?}", other),
            }
        }
        other => panic!("unexpected event {:?}", other),
    }
}
