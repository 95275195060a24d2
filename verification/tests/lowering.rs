use codetracer_ruby_recorder::recorder::{FullValue, Recorder};
use codetracer_ruby_recorder::value::{are_writable, clone_value, is_writable, value_type_id, TraceValue};
use runtime_tracing::{Place, TraceLowLevelEvent, Tracer, TypeId, ValueRecord};

fn started() -> Recorder {
    let mut rec = Recorder::new(Tracer::new("ruby", &[]));
    rec.enter_top_level();
    rec
}

fn recorded_value(value: &TraceValue) -> ValueRecord {
    let mut rec = started();
    rec.register_variable_with_full_value("v", value).unwrap();
    match rec.tracer.events.last().unwrap() {
        TraceLowLevelEvent::Value(full) => full.value.clone(),
        other => panic!("unexpected event {:?}", other),
    }
}

#[test]
fn int_reaches_the_writer_unchanged() {
    assert_eq!(
        recorded_value(&TraceValue::Int { i: -7, type_id: 3 }),
        ValueRecord::Int { i: -7, type_id: TypeId(3) }
    );
}

#[test]
fn float_reaches_the_writer_with_the_same_bits() {
    let bits = 1.5f64.to_bits();
    assert_eq!(
        recorded_value(&TraceValue::Float { bits, type_id: 9 }),
        ValueRecord::Float { f: 1.5, type_id: TypeId(9) }
    );
    let tiny = f64::MIN_POSITIVE.to_bits();
    match recorded_value(&TraceValue::Float { bits: tiny, type_id: 9 }) {
        ValueRecord::Float { f, type_id } => {
            assert_eq!(f.to_bits(), tiny);
            assert_eq!(type_id, TypeId(9));
        }
        other => panic!("unexpected value {:?}", other),
    }
    match recorded_value(&TraceValue::Float { bits: f64::NEG_INFINITY.to_bits(), type_id: 1 }) {
        ValueRecord::Float { f, .. } => assert_eq!(f, f64::NEG_INFINITY),
        other => panic!("unexpected value {:?}", other),
    }
}

#[test]
fn bool_reaches_the_writer_unchanged() {
    assert_eq!(
        recorded_value(&TraceValue::Bool { b: true, type_id: 2 }),
        ValueRecord::Bool { b: true, type_id: TypeId(2) }
    );
}

#[test]
fn string_reaches_the_writer_unchanged() {
    assert_eq!(
        recorded_value(&TraceValue::String { text: "héllo".to_string(), type_id: 1 }),
        ValueRecord::String { text: "héllo".to_string(), type_id: TypeId(1) }
    );
}

#[test]
fn sequence_reaches_the_writer_with_its_elements() {
    let value = TraceValue::Sequence {
        elements: vec![TraceValue::Int { i: 1, type_id: 0 }, TraceValue::Bool { b: false, type_id: 2 }],
        is_slice: true,
        type_id: 6,
    };
    assert_eq!(
        recorded_value(&value),
        ValueRecord::Sequence {
            elements: vec![
                ValueRecord::Int { i: 1, type_id: TypeId(0) },
                ValueRecord::Bool { b: false, type_id: TypeId(2) },
            ],
            is_slice: true,
            type_id: TypeId(6),
        }
    );
}

#[test]
fn tuple_reaches_the_writer_with_its_elements() {
    let value = TraceValue::Tuple { elements: vec![TraceValue::Int { i: 1, type_id: 0 }], type_id: 6 };
    assert_eq!(
        recorded_value(&value),
        ValueRecord::Tuple { elements: vec![ValueRecord::Int { i: 1, type_id: TypeId(0) }], type_id: TypeId(6) }
    );
}

#[test]
fn struct_reaches_the_writer_with_its_fields() {
    let value = TraceValue::Struct {
        field_values: vec![
            TraceValue::NoValue { type_id: 4 },
            TraceValue::Struct { field_values: vec![], type_id: 8 },
        ],
        type_id: 7,
    };
    assert_eq!(
        recorded_value(&value),
        ValueRecord::Struct {
            field_values: vec![
                ValueRecord::None { type_id: TypeId(4) },
                ValueRecord::Struct { field_values: vec![], type_id: TypeId(8) },
            ],
            type_id: TypeId(7),
        }
    );
}

#[test]
fn variant_reaches_the_writer_with_its_contents() {
    let value = TraceValue::Variant {
        discriminator: "Some".to_string(),
        contents: Box::new(TraceValue::Int { i: 5, type_id: 0 }),
        type_id: 11,
    };
    assert_eq!(
        recorded_value(&value),
        ValueRecord::Variant {
            discriminator: "Some".to_string(),
            contents: Box::new(ValueRecord::Int { i: 5, type_id: TypeId(0) }),
            type_id: TypeId(11),
        }
    );
}

#[test]
fn reference_reaches_the_writer_with_its_target() {
    let value = TraceValue::Reference {
        dereferenced: Box::new(TraceValue::Bool { b: true, type_id: 2 }),
        address: 0xdead_beef,
        mutable: true,
        type_id: 12,
    };
    assert_eq!(
        recorded_value(&value),
        ValueRecord::Reference {
            dereferenced: Box::new(ValueRecord::Bool { b: true, type_id: TypeId(2) }),
            address: 0xdead_beef,
            mutable: true,
            type_id: TypeId(12),
        }
    );
}

#[test]
fn raw_error_none_and_cell_reach_the_writer_unchanged() {
    assert_eq!(
        recorded_value(&TraceValue::Raw { r: "#<X>".to_string(), type_id: 5 }),
        ValueRecord::Raw { r: "#<X>".to_string(), type_id: TypeId(5) }
    );
    assert_eq!(
        recorded_value(&TraceValue::Error { msg: "boom".to_string(), type_id: 4 }),
        ValueRecord::Error { msg: "boom".to_string(), type_id: TypeId(4) }
    );
    assert_eq!(
        recorded_value(&TraceValue::NoValue { type_id: 4 }),
        ValueRecord::None { type_id: TypeId(4) }
    );
    assert_eq!(
        recorded_value(&TraceValue::Cell { place: -3 }),
        ValueRecord::Cell { place: Place(-3) }
    );
}

#[test]
fn return_and_call_arguments_are_lowered_too() {
    let mut rec = started();
    let args = vec![
        FullValue { variable_id: 4, value: TraceValue::Int { i: 1, type_id: 0 } },
        FullValue { variable_id: 2, value: TraceValue::String { text: "s".to_string(), type_id: 1 } },
    ];
    rec.register_call(3, &args).unwrap();
    match rec.tracer.events.last().unwrap() {
        TraceLowLevelEvent::Call(call) => {
            assert_eq!(call.function_id.0, 3);
            assert_eq!(call.args.len(), 2);
            assert_eq!(call.args[0].variable_id.0, 4);
            assert_eq!(call.args[0].value, ValueRecord::Int { i: 1, type_id: TypeId(0) });
            assert_eq!(call.args[1].variable_id.0, 2);
            assert_eq!(
                call.args[1].value,
                ValueRecord::String { text: "s".to_string(), type_id: TypeId(1) }
            );
        }
        other => panic!("unexpected event {:?}", other),
    }
    rec.register_return(&TraceValue::Bool { b: true, type_id: 2 }).unwrap();
    match rec.tracer.events.last().unwrap() {
        TraceLowLevelEvent::Return(ret) => {
            assert_eq!(ret.return_value, ValueRecord::Bool { b: true, type_id: TypeId(2) });
        }
        other => panic!("unexpected event {:?}", other),
    }
}

#[test]
fn type_id_of_every_variant() {
    let leaf = || Box::new(TraceValue::NoValue { type_id: 1 });
    assert_eq!(value_type_id(&TraceValue::Int { i: 0, type_id: 10 }), 10);
    assert_eq!(value_type_id(&TraceValue::Float { bits: 0, type_id: 11 }), 11);
    assert_eq!(value_type_id(&TraceValue::Bool { b: false, type_id: 12 }), 12);
    assert_eq!(value_type_id(&TraceValue::String { text: String::new(), type_id: 13 }), 13);
    assert_eq!(
        value_type_id(&TraceValue::Sequence { elements: vec![], is_slice: false, type_id: 14 }),
        14
    );
    assert_eq!(value_type_id(&TraceValue::Tuple { elements: vec![], type_id: 15 }), 15);
    assert_eq!(value_type_id(&TraceValue::Struct { field_values: vec![], type_id: 16 }), 16);
    assert_eq!(
        value_type_id(&TraceValue::Variant { discriminator: String::new(), contents: leaf(), type_id: 17 }),
        17
    );
    assert_eq!(
        value_type_id(&TraceValue::Reference {
            dereferenced: leaf(),
            address: 0,
            mutable: false,
            type_id: 18
        }),
        18
    );
    assert_eq!(value_type_id(&TraceValue::Raw { r: String::new(), type_id: 19 }), 19);
    assert_eq!(value_type_id(&TraceValue::Error { msg: String::new(), type_id: 20 }), 20);
    assert_eq!(value_type_id(&TraceValue::NoValue { type_id: 21 }), 21);
    assert_eq!(value_type_id(&TraceValue::Cell { place: 99 }), 0);
    assert_eq!(
        value_type_id(&TraceValue::BigInt { b: vec![1], negative: false, type_id: 7 }),
        7
    );
}

#[test]
fn only_big_integers_cannot_be_written() {
    let big = || TraceValue::BigInt { b: vec![255, 1], negative: true, type_id: 7 };
    assert!(!is_writable(&big()));
    assert!(is_writable(&TraceValue::Int { i: 1, type_id: 0 }));
    assert!(is_writable(&TraceValue::Cell { place: 1 }));
    assert!(is_writable(&TraceValue::Sequence { elements: vec![], is_slice: false, type_id: 0 }));
    assert!(!is_writable(&TraceValue::Sequence {
        elements: vec![TraceValue::NoValue { type_id: 4 }, big()],
        is_slice: false,
        type_id: 0
    }));
    assert!(!is_writable(&TraceValue::Tuple { elements: vec![big()], type_id: 0 }));
    assert!(!is_writable(&TraceValue::Struct { field_values: vec![big()], type_id: 0 }));
    assert!(!is_writable(&TraceValue::Variant {
        discriminator: String::new(),
        contents: Box::new(big()),
        type_id: 0
    }));
    assert!(!is_writable(&TraceValue::Reference {
        dereferenced: Box::new(big()),
        address: 0,
        mutable: false,
        type_id: 0
    }));
    assert!(are_writable(&vec![]));
    assert!(!are_writable(&vec![TraceValue::Bool { b: true, type_id: 2 }, big()]));
    assert_eq!(clone_value(&big()), big());
}

#[test]
fn clone_copies_the_whole_tree() {
    let value = TraceValue::Sequence {
        elements: vec![
            TraceValue::Struct {
                field_values: vec![TraceValue::String { text: "a".to_string(), type_id: 1 }],
                type_id: 5,
            },
            TraceValue::Variant {
                discriminator: "d".to_string(),
                contents: Box::new(TraceValue::Cell { place: 2 }),
                type_id: 6,
            },
            TraceValue::Reference {
                dereferenced: Box::new(TraceValue::Float { bits: 7, type_id: 8 }),
                address: 1,
                mutable: false,
                type_id: 9,
            },
            TraceValue::Tuple { elements: vec![TraceValue::Raw { r: "r".to_string(), type_id: 3 }], type_id: 4 },
            TraceValue::Error { msg: "e".to_string(), type_id: 4 },
        ],
        is_slice: false,
        type_id: 7,
    };
    assert_eq!(clone_value(&value), value);
}
