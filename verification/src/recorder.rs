//! The recorder: one recording session over a trace writer.

use vstd::prelude::*;
use crate::text::{decimal, digit_char};
use crate::recorder_model::{
    with_event, with_function, with_step, with_type, with_value, with_variable, RecorderModel,
};
use crate::trace_model::{
    empty_log, empty_table, id_of, lemma_interned, table_wf, ArgModel, Table, TraceEvent,
};
use crate::value::{writable, EventKind, TraceValue, TypeKind};
use crate::lowering::{lower, outside_value};
use crate::writer::{
    intern_function, intern_type, intern_variable, path_key, push_call,
    register_return, register_special_event, register_step, register_value, tracer_events,
    tracer_functions, tracer_paths, tracer_types, tracer_variables,
};

verus! {

/// The version counter of one struct class. The counter is kept as a
/// decimal numeral, most significant digit first, so that it never runs out.
pub struct VersionEntry {
    pub name: String,
    pub digits: Vec<u8>,
    pub next: Ghost<nat>,
}

/// The numeral that a list of digits spells.
pub open spec fn numeral_of(digits: Seq<u8>) -> Seq<char> {
    Seq::new(digits.len(), |i: int| digit_char(digits[i] as nat))
}

/// The digits of a counter spell the number it stands at.
pub open spec fn entry_wf(entry: VersionEntry) -> bool {
    &&& forall|i: int| 0 <= i < entry.digits@.len() ==> #[trigger] entry.digits@[i] < 10
    &&& numeral_of(entry.digits@) == decimal(entry.next@)
}

/// Every counter of a list is well formed.
pub open spec fn entries_wf(entries: Seq<VersionEntry>) -> bool {
    forall|i: int| 0 <= i < entries.len() ==> entry_wf(#[trigger] entries[i])
}

/// `name` has a counter at position `i`.
pub open spec fn entry_at(entries: Seq<VersionEntry>, name: Seq<char>, i: int) -> bool {
    0 <= i < entries.len() && entries[i].name@ == name
}

/// No class has two counters.
pub open spec fn entries_distinct(entries: Seq<VersionEntry>) -> bool {
    forall|i: int, j: int|
        0 <= i < entries.len() && 0 <= j < entries.len() && entries[i].name@ == entries[j].name@
            ==> i == j
}

/// The counters as a table from class name to next version.
pub open spec fn versions_of(entries: Seq<VersionEntry>) -> Table {
    Map::new(
        |name: Seq<char>| exists|i: int| entry_at(entries, name, i),
        |name: Seq<char>| entries[choose|i: int| entry_at(entries, name, i)].next@,
    )
}

/// Why a value was not recorded.
#[derive(Clone, Copy, Debug, PartialEq, Eq, Structural)]
pub enum RecordError {
    /// The value holds a big integer, for which the trace writer has no
    /// entry.
    UnsupportedValue,
}

impl RecordError {
    /// The message shown for the error.
    pub fn message(&self) -> (text: &'static str)
        ensures
            text@ == "the trace writer cannot hold a big integer"@,
    {
        "the trace writer cannot hold a big integer"
    }
}

/// A value bound to the variable it was recorded under.
#[derive(Debug, PartialEq, Eq)]
pub struct FullValue {
    pub variable_id: usize,
    pub value: TraceValue,
}

/// The models of a list of bound values, in order.
pub open spec fn full_value_models(args: Seq<FullValue>) -> Seq<ArgModel> {
    Seq::new(
        args.len(),
        |i: int| ArgModel { variable_id: args[i].variable_id as nat, value: args[i].value@ },
    )
}

/// Every value of a list of bound values can be written.
pub open spec fn args_writable(args: Seq<FullValue>) -> bool {
    forall|i: int| 0 <= i < args.len() ==> writable(#[trigger] args[i].value@)
}

/// The session after an attempt to change it: changed where the attempt
/// succeeded, as it was where it failed.
pub open spec fn outcome(
    result: Result<(), RecordError>,
    supported: bool,
    before: RecorderModel,
    after: RecorderModel,
    changed: RecorderModel,
) -> bool {
    if supported {
        result == Ok::<(), RecordError>(()) && after == changed
    } else {
        result == Err::<(), RecordError>(RecordError::UnsupportedValue) && after == before
    }
}

/// One entry that a caller appends to the log by itself.
#[derive(Debug, PartialEq, Eq)]
pub enum LowLevelEvent {
    /// A call of a function with its arguments.
    Call { function_id: usize, args: Vec<FullValue> },
    /// A return with the returned value.
    Return { return_value: TraceValue },
    /// Something the program wrote, or an error it raised.
    Event { kind: EventKind, content: String },
}

/// The log entry that an event becomes.
pub open spec fn event_model(event: LowLevelEvent) -> TraceEvent {
    match event {
        LowLevelEvent::Call { function_id, args } => TraceEvent::Call {
            function_id: function_id as nat,
            args: full_value_models(args@),
        },
        LowLevelEvent::Return { return_value } => TraceEvent::Return {
            return_value: return_value@,
        },
        LowLevelEvent::Event { kind, content } => TraceEvent::Event {
            event_kind: kind,
            content: content@,
        },
    }
}

/// An event can be written if every value it carries can.
pub open spec fn event_writable(event: LowLevelEvent) -> bool {
    match event {
        LowLevelEvent::Call { args, .. } => args_writable(args@),
        LowLevelEvent::Return { return_value } => writable(return_value@),
        LowLevelEvent::Event { .. } => true,
    }
}

/// One recording session: the trace writer with the recorder's own state.
pub struct Recorder {
    pub tracer: runtime_tracing::Tracer,
    pub versions: Vec<VersionEntry>,
    pub int_type_id: usize,
    pub string_type_id: usize,
    pub bool_type_id: usize,
    pub symbol_type_id: usize,
    pub error_type_id: usize,
    pub float_type_id: usize,
    pub active: bool,
    pub in_event_hook: bool,
    pub thread_hook_installed: bool,
    pub finished: bool,
}

impl View for Recorder {
    type V = RecorderModel;

    open spec fn view(&self) -> RecorderModel {
        RecorderModel {
            types: tracer_types(self.tracer),
            variables: tracer_variables(self.tracer),
            functions: tracer_functions(self.tracer),
            paths: tracer_paths(self.tracer),
            events: tracer_events(self.tracer),
            versions: versions_of(self.versions@),
            int_type_id: self.int_type_id as nat,
            string_type_id: self.string_type_id as nat,
            bool_type_id: self.bool_type_id as nat,
            symbol_type_id: self.symbol_type_id as nat,
            error_type_id: self.error_type_id as nat,
            float_type_id: self.float_type_id as nat,
            active: self.active,
            in_event_hook: self.in_event_hook,
            thread_hook_installed: self.thread_hook_installed,
            finished: self.finished,
        }
    }
}

/// `name` is registered in `types` under `id`.
pub open spec fn registered_as(types: Table, name: Seq<char>, id: nat) -> bool {
    types.contains_key(name) && types[name] == id
}

/// The tables of a session are dense, and each baseline type is registered
/// under the identifier that the session keeps for it.
pub open spec fn model_wf(m: RecorderModel) -> bool {
    &&& table_wf(m.types)
    &&& table_wf(m.variables)
    &&& table_wf(m.functions)
    &&& table_wf(m.paths)
    &&& registered_as(m.types, "Integer"@, m.int_type_id)
    &&& registered_as(m.types, "String"@, m.string_type_id)
    &&& registered_as(m.types, "Bool"@, m.bool_type_id)
    &&& registered_as(m.types, "Symbol"@, m.symbol_type_id)
    &&& registered_as(m.types, "No type"@, m.error_type_id)
    &&& registered_as(m.types, "Float"@, m.float_type_id)
}

/// A session as it starts: the baseline types registered in a fixed order,
/// nothing else in its tables or its log, tracing switched off.
pub open spec fn initial_model() -> RecorderModel {
    let m0 = RecorderModel {
        types: empty_table(),
        variables: empty_table(),
        functions: empty_table(),
        paths: empty_table(),
        events: empty_log(),
        versions: empty_table(),
        int_type_id: 0,
        string_type_id: 1,
        bool_type_id: 2,
        symbol_type_id: 3,
        error_type_id: 4,
        float_type_id: 5,
        active: false,
        in_event_hook: false,
        thread_hook_installed: false,
        finished: false,
    };
    let m1 = with_type(m0, TypeKind::Int, "Integer"@);
    let m2 = with_type(m1, TypeKind::String, "String"@);
    let m3 = with_type(m2, TypeKind::Bool, "Bool"@);
    let m4 = with_type(m3, TypeKind::String, "Symbol"@);
    let m5 = with_type(m4, TypeKind::Error, "No type"@);
    with_type(m5, TypeKind::Float, "Float"@)
}

/// The session after the program's top level was entered: the function
/// `<top-level>` is looked up at the empty path, line 1, and a call of it
/// without arguments is logged.
pub open spec fn with_top_level(m: RecorderModel) -> RecorderModel {
    with_event(
        with_function(m, "<top-level>"@, ""@, 1),
        TraceEvent::Call { function_id: id_of(m.functions, "<top-level>"@), args: Seq::empty() },
    )
}

/// The baseline type names differ from one another.
pub proof fn lemma_baseline_names_differ()
    ensures
        "Integer"@ != "String"@,
        "Integer"@ != "Bool"@,
        "Integer"@ != "Symbol"@,
        "Integer"@ != "No type"@,
        "String"@ != "Bool"@,
        "String"@ != "Symbol"@,
        "String"@ != "No type"@,
        "Bool"@ != "Symbol"@,
        "Bool"@ != "No type"@,
        "Symbol"@ != "No type"@,
        "Float"@ != "Integer"@,
        "Float"@ != "String"@,
        "Float"@ != "Bool"@,
        "Float"@ != "Symbol"@,
        "Float"@ != "No type"@,
{
    reveal_strlit("Float");
    reveal_strlit("Integer");
    reveal_strlit("String");
    reveal_strlit("Bool");
    reveal_strlit("Symbol");
    reveal_strlit("No type");
    assert("Integer"@[0] != "No type"@[0]);
    assert("String"@[1] != "Symbol"@[1]);
    assert("Float"@[0] != "Integer"@[0]);
    assert("Float"@[0] != "Bool"@[0]);
}

impl Recorder {
    /// The session is well formed.
    pub open spec fn wf(&self) -> bool {
        &&& model_wf(self@)
        &&& entries_distinct(self.versions@)
        &&& entries_wf(self.versions@)
    }

    /// Starts a session on a trace writer that nothing was written to yet.
    pub fn new(tracer: runtime_tracing::Tracer) -> (r: Recorder)
        requires
            tracer_types(tracer) == empty_table(),
            tracer_variables(tracer) == empty_table(),
            tracer_functions(tracer) == empty_table(),
            tracer_paths(tracer) == empty_table(),
            tracer_events(tracer) == empty_log(),
        ensures
            r.wf(),
            r@ == initial_model(),
    {
        let mut tracer = tracer;
        let int_type_id = intern_type(&mut tracer, TypeKind::Int, "Integer");
        let string_type_id = intern_type(&mut tracer, TypeKind::String, "String");
        let bool_type_id = intern_type(&mut tracer, TypeKind::Bool, "Bool");
        let symbol_type_id = intern_type(&mut tracer, TypeKind::String, "Symbol");
        let error_type_id = intern_type(&mut tracer, TypeKind::Error, "No type");
        let float_type_id = intern_type(&mut tracer, TypeKind::Float, "Float");
        let r = Recorder {
            tracer,
            versions: Vec::new(),
            int_type_id,
            string_type_id,
            bool_type_id,
            symbol_type_id,
            error_type_id,
            float_type_id,
            active: false,
            in_event_hook: false,
            thread_hook_installed: false,
            finished: false,
        };
        proof {
            lemma_baseline_names_differ();
            let t0 = empty_table();
            assert(t0.dom() =~= Set::<Seq<char>>::empty());
            assert(table_wf(t0));
            assert(t0.len() == 0);
            lemma_interned(t0, "Integer"@);
            let t1 = crate::trace_model::interned(t0, "Integer"@);
            lemma_interned(t1, "String"@);
            let t2 = crate::trace_model::interned(t1, "String"@);
            lemma_interned(t2, "Bool"@);
            let t3 = crate::trace_model::interned(t2, "Bool"@);
            lemma_interned(t3, "Symbol"@);
            let t4 = crate::trace_model::interned(t3, "Symbol"@);
            lemma_interned(t4, "No type"@);
            let t5 = crate::trace_model::interned(t4, "No type"@);
            lemma_interned(t5, "Float"@);
            assert(t1.len() == 1);
            assert(t2.len() == 2);
            assert(t3.len() == 3);
            assert(t4.len() == 4);
            assert(t5.len() == 5);
            assert(versions_of(r.versions@) =~= empty_table());
            assert(r@ == initial_model());
        }
        r
    }

    /// Enters the program's top level: registers the function `<top-level>`
    /// and logs a call of it without arguments.
    pub fn enter_top_level(&mut self)
        requires
            old(self).wf(),
        ensures
            final(self).wf(),
            final(self)@ == with_top_level(old(self)@),
    {
        proof {
            lemma_interned(self@.functions, "<top-level>"@);
            lemma_interned(self@.paths, path_key(""@));
        }
        let function_id = intern_function(&mut self.tracer, "<top-level>", "", 1);
        push_call(&mut self.tracer, function_id, Vec::new(), Vec::new());
        assert(crate::writer::arg_models(Seq::<usize>::empty(), Seq::empty()) =~= Seq::<
            ArgModel,
        >::empty());
    }

    /// Looks a type up by name, registering it under `kind` if the name is
    /// new, and returns its identifier.
    pub fn ensure_type_id(&mut self, kind: TypeKind, name: &str) -> (id: usize)
        requires
            old(self).wf(),
        ensures
            final(self).wf(),
            final(self)@ == with_type(old(self)@, kind, name@),
            id as nat == id_of(old(self)@.types, name@),
            id < final(self)@.types.len(),
    {
        proof {
            lemma_interned(self@.types, name@);
        }
        intern_type(&mut self.tracer, kind, name)
    }

    /// Looks a variable up by name and returns its identifier.
    pub fn ensure_variable_id(&mut self, name: &str) -> (id: usize)
        requires
            old(self).wf(),
        ensures
            final(self).wf(),
            final(self)@ == with_variable(old(self)@, name@),
            id as nat == id_of(old(self)@.variables, name@),
    {
        proof {
            lemma_interned(self@.variables, name@);
        }
        intern_variable(&mut self.tracer, name)
    }

    /// Looks a function up by name, registering it at `path` and `line` if
    /// the name is new, and returns its identifier.
    pub fn ensure_function_id(&mut self, name: &str, path: &str, line: i64) -> (id: usize)
        requires
            old(self).wf(),
        ensures
            final(self).wf(),
            final(self)@ == with_function(old(self)@, name@, path@, line),
            id as nat == id_of(old(self)@.functions, name@),
    {
        proof {
            lemma_interned(self@.functions, name@);
            lemma_interned(self@.paths, path_key(path@));
        }
        intern_function(&mut self.tracer, name, path, line)
    }

    /// Moves the current position to `path`, `line`.
    pub fn register_step(&mut self, path: &str, line: i64)
        requires
            old(self).wf(),
        ensures
            final(self).wf(),
            final(self)@ == with_step(old(self)@, path@, line),
    {
        proof {
            lemma_interned(self@.paths, path_key(path@));
        }
        register_step(&mut self.tracer, path, line)
    }

    /// Records `value` under the variable `name` at the current position.
    /// A value that cannot be written is turned down and nothing changes.
    pub fn register_variable_with_full_value(&mut self, name: &str, value: &TraceValue) -> (r:
        Result<(), RecordError>)
        requires
            old(self).wf(),
        ensures
            final(self).wf(),
            outcome(
                r,
                writable(value@),
                old(self)@,
                final(self)@,
                with_value(old(self)@, name@, value@),
            ),
    {
        proof {
            lemma_interned(self@.variables, name@);
        }
        match lower(value) {
            Some(lowered) => {
                register_value(&mut self.tracer, name, lowered);
                Ok(())
            },
            None => Err(RecordError::UnsupportedValue),
        }
    }

    /// Binds `value` to the variable `name`, interning the name.
    pub fn arg(&mut self, name: &str, value: TraceValue) -> (bound: FullValue)
        requires
            old(self).wf(),
        ensures
            final(self).wf(),
            final(self)@ == with_variable(old(self)@, name@),
            bound.variable_id as nat == id_of(old(self)@.variables, name@),
            bound.value == value,
    {
        let variable_id = self.ensure_variable_id(name);
        FullValue { variable_id, value }
    }

    /// Appends the call of `function_id` with `args` to the log. Arguments
    /// that cannot be written are turned down and nothing changes.
    pub fn register_call(&mut self, function_id: usize, args: &Vec<FullValue>) -> (r: Result<
        (),
        RecordError,
    >)
        requires
            old(self).wf(),
        ensures
            final(self).wf(),
            outcome(
                r,
                args_writable(args@),
                old(self)@,
                final(self)@,
                with_event(
                    old(self)@,
                    TraceEvent::Call {
                        function_id: function_id as nat,
                        args: full_value_models(args@),
                    },
                ),
            ),
    {
        let mut ids: Vec<usize> = Vec::new();
        let mut values: Vec<runtime_tracing::ValueRecord> = Vec::new();
        let mut i: usize = 0;
        while i < args.len()
            invariant
                i <= args@.len(),
                ids@.len() == i,
                values@.len() == i,
                *self == *old(self),
                old(self).wf(),
                forall|k: int| 0 <= k < i ==> ids@[k] == args@[k].variable_id,
                forall|k: int| 0 <= k < i ==> writable(args@[k].value@),
                forall|k: int| 0 <= k < i ==> outside_value(values@[k]) == args@[k].value@,
            decreases args@.len() - i,
        {
            match lower(&args[i].value) {
                Some(lowered) => {
                    ids.push(args[i].variable_id);
                    values.push(lowered);
                },
                None => {
                    assert(!writable(args@[i as int].value@));
                    return Err(RecordError::UnsupportedValue);
                },
            }
            i += 1;
        }
        assert(crate::writer::arg_models(ids@, values@) =~= full_value_models(args@));
        push_call(&mut self.tracer, function_id, ids, values);
        Ok(())
    }

    /// Appends the return of `value` to the log. A value that cannot be
    /// written is turned down and nothing changes.
    pub fn register_return(&mut self, value: &TraceValue) -> (r: Result<(), RecordError>)
        requires
            old(self).wf(),
        ensures
            final(self).wf(),
            outcome(
                r,
                writable(value@),
                old(self)@,
                final(self)@,
                with_event(old(self)@, TraceEvent::Return { return_value: value@ }),
            ),
    {
        match lower(value) {
            Some(lowered) => {
                register_return(&mut self.tracer, lowered);
                Ok(())
            },
            None => Err(RecordError::UnsupportedValue),
        }
    }

    /// Appends one entry to the log. The position in the log is the only
    /// record of when the event happened. An event with a value that cannot
    /// be written is turned down and nothing changes.
    pub fn add_event(&mut self, event: &LowLevelEvent) -> (r: Result<(), RecordError>)
        requires
            old(self).wf(),
        ensures
            final(self).wf(),
            outcome(
                r,
                event_writable(*event),
                old(self)@,
                final(self)@,
                with_event(old(self)@, event_model(*event)),
            ),
    {
        match event {
            LowLevelEvent::Call { function_id, args } => self.register_call(*function_id, args),
            LowLevelEvent::Return { return_value } => self.register_return(return_value),
            LowLevelEvent::Event { kind, content } => {
                self.register_special_event(*kind, content.as_str());
                Ok(())
            },
        }
    }

    /// Appends a log event of `kind` with `content`.
    pub fn register_special_event(&mut self, kind: EventKind, content: &str)
        requires
            old(self).wf(),
        ensures
            final(self).wf(),
            final(self)@ == with_event(
                old(self)@,
                TraceEvent::Event { event_kind: kind, content: content@ },
            ),
    {
        register_special_event(&mut self.tracer, kind, content)
    }
}

} // verus!
