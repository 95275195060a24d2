//! Conversion of host values into trace values, bounded by a depth budget.

use vstd::prelude::*;
use crate::host::{field_names, field_values, HostField, HostPair, HostValue};
use crate::recorder::Recorder;
use crate::recorder_model::{
    convert, convert_all, convert_fixed, convert_object, convert_pairs, convert_struct,
    fixed_struct_of, raw_of, sequence_of, struct_fields, struct_of, versioned_name,
};
use crate::text::decimal;
use crate::trace_model::lemma_interned;
use crate::value::{
    all_writable, model_of, models_of, value_type_id, writable, TraceValue, TypeKind,
};
use crate::writer::{field_models, intern_struct_type, FieldType};

verus! {

/// The texts of a list of strings, in order.
pub open spec fn texts_of(names: Seq<String>) -> Seq<Seq<char>> {
    Seq::new(names.len(), |i: int| names[i]@)
}

/// The values that a list of references points at, in order.
pub open spec fn targets_of(values: Seq<&HostValue>) -> Seq<HostValue> {
    Seq::new(values.len(), |i: int| *values[i])
}

/// Appending a value appends its model, and a list of values that can be
/// written stays one when such a value is appended.
pub proof fn lemma_models_push(values: Seq<TraceValue>, value: TraceValue)
    ensures
        models_of(values.push(value)) == models_of(values).push(value@),
        all_writable(models_of(values)) && writable(value@) ==> all_writable(
            models_of(values.push(value)),
        ),
{
    assert(models_of(values.push(value)) =~= models_of(values).push(value@));
}

/// Writes the display name of a version of a struct class from the
/// version's numeral.
pub fn versioned_name_string(class_name: &str, numeral: &str) -> (name: String)
    ensures
        name@ == class_name@ + seq![' ', '(', '#'] + numeral@ + seq![')'],
        forall|version: nat|
            numeral@ == decimal(version) ==> name@ == #[trigger] versioned_name(
                class_name@,
                version,
            ),
{
    proof {
        reveal_strlit(" (#");
        reveal_strlit(")");
    }
    let mut name = String::from_str(class_name);
    name.append(" (#");
    name.append(numeral);
    name.append(")");
    assert(" (#"@ =~= seq![' ', '(', '#']);
    assert(")"@ =~= seq![')']);
    name
}

/// A list of two names.
pub fn two_names(first: &str, second: &str) -> (names: Vec<String>)
    ensures
        texts_of(names@) == seq![first@, second@],
{
    let mut names: Vec<String> = Vec::new();
    names.push(String::from_str(first));
    names.push(String::from_str(second));
    assert(texts_of(names@) =~= seq![first@, second@]);
    names
}

/// A list of two values.
pub fn two_values<'a>(first: &'a HostValue, second: &'a HostValue) -> (values: Vec<&'a HostValue>)
    ensures
        targets_of(values@) == seq![*first, *second],
{
    let mut values: Vec<&HostValue> = Vec::new();
    values.push(first);
    values.push(second);
    assert(targets_of(values@) =~= seq![*first, *second]);
    values
}

/// The fields of a struct type: each name with the type of the value at its
/// position, as far as both lists reach.
pub fn struct_field_types(names: &Vec<String>, values: &Vec<TraceValue>) -> (fields: Vec<FieldType>)
    ensures
        field_models(fields@) == struct_fields(texts_of(names@), models_of(values@)),
{
    let count: usize = if names.len() <= values.len() {
        names.len()
    } else {
        values.len()
    };
    let mut fields: Vec<FieldType> = Vec::new();
    let mut i: usize = 0;
    while i < count
        invariant
            i <= count,
            count <= names@.len(),
            count <= values@.len(),
            fields@.len() == i,
            forall|k: int|
                0 <= k < i ==> fields@[k].name@ == names@[k]@ && fields@[k].type_id as nat
                    == crate::value::model_type_id(model_of(values@[k])),
        decreases count - i,
    {
        let type_id = value_type_id(&values[i]);
        fields.push(FieldType { name: names[i].clone(), type_id });
        i += 1;
    }
    assert(field_models(fields@) =~= struct_fields(texts_of(names@), models_of(values@)));
    fields
}

impl Recorder {
    /// A sequence value over converted elements, of the type named
    /// `lang_type`.
    pub fn sequence_value(&mut self, elements: Vec<TraceValue>, lang_type: &str) -> (r: TraceValue)
        requires
            old(self).wf(),
        ensures
            final(self).wf(),
            (final(self)@, r@) == sequence_of(old(self)@, models_of(elements@), lang_type@),
            all_writable(models_of(elements@)) ==> writable(r@),
    {
        let type_id = self.ensure_type_id(TypeKind::Sequence, lang_type);
        TraceValue::Sequence { elements, is_slice: false, type_id }
    }

    /// The opaque fallback for an object of class `class_name` with display
    /// text `text`.
    pub fn raw_value(&mut self, class_name: &str, text: &str) -> (r: TraceValue)
        requires
            old(self).wf(),
        ensures
            final(self).wf(),
            (final(self)@, r@) == raw_of(old(self)@, class_name@, text@),
            writable(r@),
    {
        let type_id = self.ensure_type_id(TypeKind::Raw, class_name);
        TraceValue::Raw { r: String::from_str(text), type_id }
    }

    /// A struct value over converted field values: takes the class's next
    /// version and looks up the type named for it.
    pub fn struct_from_values(
        &mut self,
        class_name: &str,
        names: &Vec<String>,
        values: Vec<TraceValue>,
    ) -> (r: TraceValue)
        requires
            old(self).wf(),
        ensures
            final(self).wf(),
            (final(self)@, r@) == struct_of(
                old(self)@,
                class_name@,
                texts_of(names@),
                models_of(values@),
            ),
            all_writable(models_of(values@)) ==> writable(r@),
    {
        let numeral = self.take_version(class_name);
        let name = versioned_name_string(class_name, numeral.as_str());
        let fields = struct_field_types(names, &values);
        proof {
            lemma_interned(self@.types, name@);
        }
        let type_id = intern_struct_type(&mut self.tracer, name.as_str(), &fields);
        TraceValue::Struct { field_values: values, type_id }
    }

    /// A struct value of a class whose fields never change, over converted
    /// field values: its type is looked up under the class name itself.
    pub fn fixed_struct_from_values(
        &mut self,
        class_name: &str,
        names: &Vec<String>,
        values: Vec<TraceValue>,
    ) -> (r: TraceValue)
        requires
            old(self).wf(),
        ensures
            final(self).wf(),
            (final(self)@, r@) == fixed_struct_of(
                old(self)@,
                class_name@,
                texts_of(names@),
                models_of(values@),
            ),
            all_writable(models_of(values@)) ==> writable(r@),
    {
        let fields = struct_field_types(names, &values);
        proof {
            lemma_interned(self@.types, class_name@);
        }
        let type_id = intern_struct_type(&mut self.tracer, class_name, &fields);
        TraceValue::Struct { field_values: values, type_id }
    }

    /// Converts a list of referenced values in turn, each with `depth`
    /// levels left.
    pub fn to_target_values(&mut self, values: &Vec<&HostValue>, depth: usize) -> (r: Vec<
        TraceValue,
    >)
        requires
            old(self).wf(),
        ensures
            final(self).wf(),
            (final(self)@, models_of(r@)) == convert_all(
                old(self)@,
                targets_of(values@),
                depth as nat,
            ),
            all_writable(models_of(r@)),
        decreases depth, 3nat, 0nat,
    {
        let ghost targets = targets_of(values@);
        let mut converted: Vec<TraceValue> = Vec::new();
        let mut i: usize = 0;
        assert(targets.take(0) =~= Seq::empty());
        assert(models_of(converted@) =~= Seq::empty());
        while i < values.len()
            invariant
                i <= values@.len(),
                self.wf(),
                all_writable(models_of(converted@)),
                targets == targets_of(values@),
                (self@, models_of(converted@)) == convert_all(
                    old(self)@,
                    targets.take(i as int),
                    depth as nat,
                ),
            decreases values@.len() - i,
        {
            let item = self.to_value(values[i], depth);
            proof {
                lemma_models_push(converted@, item);
                assert(targets.take(i + 1).drop_last() =~= targets.take(i as int));
                assert(targets.take(i + 1).last() == *values@[i as int]);
            }
            converted.push(item);
            i += 1;
        }
        assert(targets.take(i as int) =~= targets);
        converted
    }

    /// Converts the field values one level down and builds the struct of the
    /// fixed class `class_name` from them.
    pub fn fixed_struct_value(
        &mut self,
        class_name: &str,
        field_names: &Vec<String>,
        field_values: &Vec<&HostValue>,
        depth: usize,
    ) -> (r: TraceValue)
        requires
            old(self).wf(),
            depth > 0,
        ensures
            final(self).wf(),
            (final(self)@, r@) == convert_fixed(
                old(self)@,
                class_name@,
                texts_of(field_names@),
                targets_of(field_values@),
                depth as nat,
            ),
            writable(r@),
        decreases depth, 0nat, 1nat,
    {
        let converted = self.to_target_values(field_values, depth - 1);
        self.fixed_struct_from_values(class_name, field_names, converted)
    }

    /// Converts each value of a list in turn.
    pub fn to_values(&mut self, values: &Vec<HostValue>, depth: usize) -> (r: Vec<TraceValue>)
        requires
            old(self).wf(),
        ensures
            final(self).wf(),
            (final(self)@, models_of(r@)) == convert_all(old(self)@, values@, depth as nat),
            all_writable(models_of(r@)),
        decreases depth, 3nat, 0nat,
    {
        let mut converted: Vec<TraceValue> = Vec::new();
        let mut i: usize = 0;
        assert(values@.take(0) =~= Seq::empty());
        assert(models_of(converted@) =~= Seq::empty());
        while i < values.len()
            invariant
                i <= values@.len(),
                self.wf(),
                all_writable(models_of(converted@)),
                (self@, models_of(converted@)) == convert_all(
                    old(self)@,
                    values@.take(i as int),
                    depth as nat,
                ),
            decreases values@.len() - i,
        {
            let item = self.to_value(&values[i], depth);
            proof {
                lemma_models_push(converted@, item);
                assert(values@.take(i + 1).drop_last() =~= values@.take(i as int));
                assert(values@.take(i + 1).last() == values@[i as int]);
            }
            converted.push(item);
            i += 1;
        }
        assert(values@.take(i as int) =~= values@);
        converted
    }

    /// Converts the entries of a hash into `Pair` structs.
    pub fn pair_values(&mut self, pairs: &Vec<HostPair>, depth: usize) -> (r: Vec<TraceValue>)
        requires
            old(self).wf(),
            depth > 0,
        ensures
            final(self).wf(),
            (final(self)@, models_of(r@)) == convert_pairs(old(self)@, pairs@, depth as nat),
            all_writable(models_of(r@)),
        decreases depth, 1nat, 0nat,
    {
        let names = two_names("k", "v");
        let mut converted: Vec<TraceValue> = Vec::new();
        let mut i: usize = 0;
        assert(pairs@.take(0) =~= Seq::empty());
        assert(models_of(converted@) =~= Seq::empty());
        while i < pairs.len()
            invariant
                i <= pairs@.len(),
                depth > 0,
                self.wf(),
                all_writable(models_of(converted@)),
                texts_of(names@) == seq!["k"@, "v"@],
                (self@, models_of(converted@)) == convert_pairs(
                    old(self)@,
                    pairs@.take(i as int),
                    depth as nat,
                ),
            decreases pairs@.len() - i,
        {
            let values = two_values(&pairs[i].key, &pairs[i].value);
            let item = self.fixed_struct_value("Pair", &names, &values, depth);
            proof {
                lemma_models_push(converted@, item);
                assert(pairs@.take(i + 1).drop_last() =~= pairs@.take(i as int));
                assert(pairs@.take(i + 1).last() == pairs@[i as int]);
            }
            converted.push(item);
            i += 1;
        }
        assert(pairs@.take(i as int) =~= pairs@);
        converted
    }

    /// Converts the field values one level down and builds the struct of
    /// class `class_name` from them, under the class's next version.
    pub fn struct_value(
        &mut self,
        class_name: &str,
        field_names: &Vec<String>,
        field_values: &Vec<&HostValue>,
        depth: usize,
    ) -> (r: TraceValue)
        requires
            old(self).wf(),
            depth > 0,
        ensures
            final(self).wf(),
            (final(self)@, r@) == convert_struct(
                old(self)@,
                class_name@,
                texts_of(field_names@),
                targets_of(field_values@),
                depth as nat,
            ),
            writable(r@),
        decreases depth, 0nat, 1nat,
    {
        let converted = self.to_target_values(field_values, depth - 1);
        self.struct_from_values(class_name, field_names, converted)
    }

    /// Converts an object with named slots: a struct where it has slots, the
    /// opaque fallback where it has none or they cannot be listed.
    pub fn object_value(
        &mut self,
        class_name: &str,
        slots: &Option<Vec<HostField>>,
        text: &str,
        depth: usize,
    ) -> (r: TraceValue)
        requires
            old(self).wf(),
            depth > 0,
        ensures
            final(self).wf(),
            (final(self)@, r@) == convert_object(
                old(self)@,
                class_name@,
                *slots,
                text@,
                depth as nat,
            ),
            writable(r@),
        decreases depth, 1nat, 0nat,
    {
        match slots {
            Some(fields) => {
                if fields.len() == 0 {
                    return self.raw_value(class_name, text);
                }
                let mut names: Vec<String> = Vec::new();
                let mut values: Vec<&HostValue> = Vec::new();
                let mut i: usize = 0;
                while i < fields.len()
                    invariant
                        i <= fields@.len(),
                        names@.len() == i,
                        values@.len() == i,
                        forall|k: int| 0 <= k < i ==> names@[k]@ == fields@[k].name@,
                        forall|k: int| 0 <= k < i ==> *values@[k] == fields@[k].value,
                    decreases fields@.len() - i,
                {
                    names.push(fields[i].name.clone());
                    values.push(&fields[i].value);
                    i += 1;
                }
                assert(texts_of(names@) =~= field_names(fields@));
                assert(targets_of(values@) =~= field_values(fields@));
                self.struct_value(class_name, &names, &values, depth)
            },
            None => self.raw_value(class_name, text),
        }
    }

    /// Converts a host value with `depth` levels left.
    pub fn to_value(&mut self, val: &HostValue, depth: usize) -> (r: TraceValue)
        requires
            old(self).wf(),
        ensures
            final(self).wf(),
            (final(self)@, r@) == convert(old(self)@, *val, depth as nat),
            writable(r@),
        decreases depth, 2nat, 0nat,
    {
        if depth == 0 {
            return TraceValue::NoValue { type_id: self.error_type_id };
        }
        match val {
            HostValue::Nil => TraceValue::NoValue { type_id: self.error_type_id },
            HostValue::Bool(b) => TraceValue::Bool { b: *b, type_id: self.bool_type_id },
            HostValue::Integer(i) => TraceValue::Int { i: *i, type_id: self.int_type_id },
            HostValue::Float(bits) => TraceValue::Float { bits: *bits, type_id: self.float_type_id },
            HostValue::Symbol(name) => TraceValue::String {
                text: name.clone(),
                type_id: self.symbol_type_id,
            },
            HostValue::Text(text) => TraceValue::String {
                text: text.clone(),
                type_id: self.string_type_id,
            },
            HostValue::Array(items) => {
                let elements = self.to_values(items, depth - 1);
                self.sequence_value(elements, "Array")
            },
            HostValue::Hash(pairs) => {
                let elements = self.pair_values(pairs, depth);
                self.sequence_value(elements, "Hash")
            },
            HostValue::Range { begin, end } => {
                let names = two_names("begin", "end");
                let values = two_values(&**begin, &**end);
                self.fixed_struct_value("Range", &names, &values, depth)
            },
            HostValue::SetItems(items) => {
                let elements = self.to_values(items, depth - 1);
                self.sequence_value(elements, "Set")
            },
            HostValue::Time { sec, nsec } => {
                let names = two_names("sec", "nsec");
                let values = two_values(&**sec, &**nsec);
                self.fixed_struct_value("Time", &names, &values, depth)
            },
            HostValue::Regexp { source, options } => {
                let names = two_names("source", "options");
                let values = two_values(&**source, &**options);
                self.fixed_struct_value("Regexp", &names, &values, depth)
            },
            HostValue::Struct { class_name, members, text } => self.object_value(
                class_name.as_str(),
                members,
                text.as_str(),
                depth,
            ),
            HostValue::OpenStruct { table } => self.to_value(&**table, depth - 1),
            HostValue::Object { class_name, ivars, text } => self.object_value(
                class_name.as_str(),
                ivars,
                text.as_str(),
                depth,
            ),
        }
    }
}

} // verus!
