//! Recording of execution events: what the recorder does when the host
//! reports a line, a call, a return or a raised exception.

use vstd::prelude::*;
use crate::event_model::{
    accepts, after_call, after_hook_event, after_line, after_message, after_message_event,
    after_raise, after_return, collect_params, qualified_name, record_locals, recorded,
    register_params, NamedModel, DEFAULT_DEPTH,
};
use crate::host::{HostEvent, HostValue, HostVariable};
use crate::path_filter::{is_ignored_path, should_ignore_path};
use crate::recorder::{args_writable, full_value_models, FullValue, RecordError, Recorder};
use crate::recorder_model::RecorderModel;
use crate::trace_model::{lemma_interned, ArgModel};
use crate::value::{clone_value, is_writable, writable, EventKind, TraceValue, TypeKind};

verus! {

/// A converted value with the name it belongs to.
#[derive(Debug, PartialEq, Eq)]
pub struct NamedValue {
    pub name: String,
    pub value: TraceValue,
}

/// The models of a list of named values, in order.
pub open spec fn named_models(values: Seq<NamedValue>) -> Seq<NamedModel> {
    Seq::new(values.len(), |i: int| NamedModel { name: values[i].name@, value: values[i].value@ })
}

/// Every value of a list of named values can be written.
pub open spec fn named_writable(values: Seq<NamedValue>) -> bool {
    forall|i: int| 0 <= i < values.len() ==> writable(#[trigger] values[i].value@)
}

/// Writes the name a method is registered under.
pub fn qualified_name_string(class_name: &str, method_name: &str) -> (name: String)
    ensures
        name@ == qualified_name(class_name@, method_name@),
{
    if String::from_str(class_name) == String::from_str("Object") {
        String::from_str(method_name)
    } else {
        proof {
            reveal_strlit("#");
        }
        let mut name = String::from_str(class_name);
        name.append("#");
        name.append(method_name);
        assert("#"@ =~= seq!['#']);
        name
    }
}

impl Recorder {
    /// Converts and records each variable in scope, in order.
    pub fn record_variables(&mut self, locals: &Vec<HostVariable>)
        requires
            old(self).wf(),
        ensures
            final(self).wf(),
            final(self)@ == record_locals(old(self)@, locals@),
    {
        let mut i: usize = 0;
        assert(locals@.take(0) =~= Seq::empty());
        while i < locals.len()
            invariant
                i <= locals@.len(),
                self.wf(),
                self@ == record_locals(old(self)@, locals@.take(i as int)),
            decreases locals@.len() - i,
        {
            let value = self.to_value(&locals[i].value, DEFAULT_DEPTH);
            let _ = self.register_variable_with_full_value(locals[i].name.as_str(), &value);
            proof {
                assert(locals@.take(i + 1).drop_last() =~= locals@.take(i as int));
                assert(locals@.take(i + 1).last() == locals@[i as int]);
            }
            i += 1;
        }
        assert(locals@.take(i as int) =~= locals@);
    }

    /// Converts the named parameters of a call, in order.
    pub fn collect_parameter_values(&mut self, params: &Vec<HostVariable>) -> (r: Vec<NamedValue>)
        requires
            old(self).wf(),
        ensures
            final(self).wf(),
            (final(self)@, named_models(r@)) == collect_params(old(self)@, params@),
            named_writable(r@),
    {
        let mut converted: Vec<NamedValue> = Vec::new();
        let mut i: usize = 0;
        assert(params@.take(0) =~= Seq::empty());
        assert(named_models(converted@) =~= Seq::empty());
        while i < params.len()
            invariant
                i <= params@.len(),
                self.wf(),
                named_writable(converted@),
                (self@, named_models(converted@)) == collect_params(
                    old(self)@,
                    params@.take(i as int),
                ),
            decreases params@.len() - i,
        {
            let value = self.to_value(&params[i].value, DEFAULT_DEPTH);
            let item = NamedValue { name: params[i].name.clone(), value };
            proof {
                assert(named_models(converted@.push(item)) =~= named_models(converted@).push(
                    NamedModel { name: item.name@, value: item.value@ },
                ));
                assert(params@.take(i + 1).drop_last() =~= params@.take(i as int));
                assert(params@.take(i + 1).last() == params@[i as int]);
            }
            converted.push(item);
            i += 1;
        }
        assert(params@.take(i as int) =~= params@);
        converted
    }

    /// Records each converted parameter as a variable and binds it to its
    /// variable identifier. Where one of the values cannot be written, none
    /// is recorded.
    pub fn register_parameter_values(&mut self, params: Vec<NamedValue>) -> (r: Result<
        Vec<FullValue>,
        RecordError,
    >)
        requires
            old(self).wf(),
        ensures
            final(self).wf(),
            named_writable(params@) ==> r is Ok && args_writable(r->Ok_0@) && (
                final(self)@,
                full_value_models(r->Ok_0@),
            ) == register_params(old(self)@, named_models(params@)),
            !named_writable(params@) ==> r is Err && r->Err_0 == RecordError::UnsupportedValue
                && final(self)@ == old(self)@,
    {
        let mut checked: usize = 0;
        while checked < params.len()
            invariant
                checked <= params@.len(),
                *self == *old(self),
                old(self).wf(),
                forall|k: int| 0 <= k < checked ==> writable(#[trigger] params@[k].value@),
            decreases params@.len() - checked,
        {
            if !is_writable(&params[checked].value) {
                return Err(RecordError::UnsupportedValue);
            }
            checked += 1;
        }
        let ghost models = named_models(params@);
        let mut bound: Vec<FullValue> = Vec::new();
        let mut i: usize = 0;
        assert(models.take(0) =~= Seq::empty());
        assert(full_value_models(bound@) =~= Seq::empty());
        while i < params.len()
            invariant
                i <= params@.len(),
                self.wf(),
                named_writable(params@),
                args_writable(bound@),
                models == named_models(params@),
                (self@, full_value_models(bound@)) == register_params(
                    old(self)@,
                    models.take(i as int),
                ),
            decreases params@.len() - i,
        {
            let ghost before = self@;
            let name = params[i].name.as_str();
            let _ = self.register_variable_with_full_value(name, &params[i].value);
            proof {
                lemma_interned(before.variables, name@);
            }
            let variable_id = self.ensure_variable_id(name);
            let item = FullValue { variable_id, value: clone_value(&params[i].value) };
            proof {
                assert(full_value_models(bound@.push(item)) =~= full_value_models(bound@).push(
                    ArgModel { variable_id: item.variable_id as nat, value: item.value@ },
                ));
                assert(models.take(i + 1).drop_last() =~= models.take(i as int));
                assert(models.take(i + 1).last() == models[i as int]);
            }
            bound.push(item);
            i += 1;
        }
        assert(models.take(i as int) =~= models);
        Ok(bound)
    }

    /// Records a message that the traced program wrote at `path`, `line`.
    pub fn record_event(&mut self, path: &str, line: i64, content: &str)
        requires
            old(self).wf(),
        ensures
            final(self).wf(),
            final(self)@ == after_message(old(self)@, path@, line, content@),
    {
        self.register_step(path, line);
        self.register_special_event(EventKind::Write, content);
    }

    /// Decides whether a message written by the traced program is taken up,
    /// and if so marks the session as busy with it. The binding calls this
    /// before it turns the message into text, which may run host code.
    pub fn enter_message(&mut self) -> (accepted: bool)
        ensures
            accepted == (!old(self)@.in_event_hook && !old(self)@.finished),
            final(self)@ == (RecorderModel {
                in_event_hook: accepted || old(self)@.in_event_hook,
                ..old(self)@
            }),
            old(self).wf() ==> final(self).wf(),
    {
        if self.in_event_hook || self.finished {
            return false;
        }
        self.in_event_hook = true;
        true
    }

    /// Records the message that `enter_message` took up, then marks the
    /// session as free again. Outside such a message, and for an internal
    /// path, nothing is recorded.
    pub fn record_entered_message(&mut self, path: &str, line: i64, content: &str)
        requires
            old(self).wf(),
        ensures
            final(self).wf(),
            final(self)@ == if old(self)@.in_event_hook && !old(self)@.finished
                && !is_ignored_path(path@) {
                after_message(
                    RecorderModel { in_event_hook: false, ..old(self)@ },
                    path@,
                    line,
                    content@,
                )
            } else {
                RecorderModel { in_event_hook: false, ..old(self)@ }
            },
    {
        let entered = self.in_event_hook;
        self.in_event_hook = false;
        if !entered || self.finished {
            return ;
        }
        if should_ignore_path(path) {
            return ;
        }
        self.record_event(path, line, content);
    }

    /// Handles a message whose text is at hand from start to end: dropped
    /// while a hook event or another message is being recorded, after the
    /// trace is finished, and for an internal path; recorded otherwise.
    pub fn record_event_api(&mut self, path: &str, line: i64, content: &str)
        requires
            old(self).wf(),
        ensures
            final(self).wf(),
            final(self)@ == after_message_event(old(self)@, path@, line, content@),
    {
        if self.enter_message() {
            self.record_entered_message(path, line, content);
        }
    }

    /// Records a line event.
    pub fn record_line(&mut self, path: &str, line: i64, locals: &Vec<HostVariable>)
        requires
            old(self).wf(),
        ensures
            final(self).wf(),
            final(self)@ == after_line(old(self)@, path@, line, locals@),
    {
        self.register_step(path, line);
        self.record_variables(locals);
    }

    /// Records a call event.
    pub fn record_call(
        &mut self,
        path: &str,
        line: i64,
        class_name: &str,
        method_name: &str,
        self_text: &str,
        params: &Vec<HostVariable>,
    )
        requires
            old(self).wf(),
        ensures
            final(self).wf(),
            final(self)@ == after_call(
                old(self)@,
                path@,
                line,
                class_name@,
                method_name@,
                self_text@,
                params@,
            ),
    {
        let converted = self.collect_parameter_values(params);
        let self_type = self.ensure_type_id(TypeKind::Raw, class_name);
        let receiver = TraceValue::Raw { r: String::from_str(self_text), type_id: self_type };
        let ghost before = self@;
        let _ = self.register_variable_with_full_value("self", &receiver);
        proof {
            lemma_interned(before.variables, "self"@);
        }
        let self_arg = self.arg("self", receiver);
        let mut args = match self.register_parameter_values(converted) {
            Ok(bound) => bound,
            Err(_) => Vec::new(),
        };
        let ghost rest = full_value_models(args@);
        args.insert(0, self_arg);
        assert(full_value_models(args@) =~= seq![
            ArgModel { variable_id: self_arg.variable_id as nat, value: self_arg.value@ },
        ] + rest);
        self.register_step(path, line);
        let name = qualified_name_string(class_name, method_name);
        let function_id = self.ensure_function_id(name.as_str(), path, line);
        let _ = self.register_call(function_id, &args);
    }

    /// Records a return event.
    pub fn record_return(&mut self, path: &str, line: i64, value: &HostValue)
        requires
            old(self).wf(),
        ensures
            final(self).wf(),
            final(self)@ == after_return(old(self)@, path@, line, *value),
    {
        self.register_step(path, line);
        let converted = self.to_value(value, DEFAULT_DEPTH);
        let _ = self.register_variable_with_full_value("<return_value>", &converted);
        let _ = self.register_return(&converted);
    }

    /// Records a raise event.
    pub fn record_raise(&mut self, message: &str)
        requires
            old(self).wf(),
        ensures
            final(self).wf(),
            final(self)@ == after_raise(old(self)@, message@),
    {
        self.register_special_event(EventKind::Error, message);
    }

    /// Records `event` at `path`, `line`, whatever the session's switches
    /// say.
    pub fn record(&mut self, path: &str, line: i64, event: &HostEvent)
        requires
            old(self).wf(),
        ensures
            final(self).wf(),
            final(self)@ == recorded(old(self)@, path@, line, *event),
    {
        match event {
            HostEvent::Line { locals } => self.record_line(path, line, locals),
            HostEvent::Call { class_name, method_name, self_text, params } => self.record_call(
                path,
                line,
                class_name.as_str(),
                method_name.as_str(),
                self_text.as_str(),
                params,
            ),
            HostEvent::Return { value } => self.record_return(path, line, value),
            HostEvent::Raise { message } => self.record_raise(message.as_str()),
        }
    }

    /// Decides whether a hook event at `path` is taken up, and if so marks
    /// the session as busy with it. The binding calls this before it reads
    /// anything from the host that could run host code.
    pub fn enter_hook(&mut self, path: &str) -> (accepted: bool)
        ensures
            accepted == accepts(old(self)@, path@),
            final(self)@ == (RecorderModel { in_event_hook: accepted || old(self)@.in_event_hook, ..old(self)@ }),
            old(self).wf() ==> final(self).wf(),
    {
        if !self.active || self.finished || self.in_event_hook {
            return false;
        }
        if should_ignore_path(path) {
            return false;
        }
        self.in_event_hook = true;
        true
    }

    /// Marks the session as no longer busy with a hook event.
    pub fn leave_hook(&mut self)
        ensures
            final(self)@ == (RecorderModel { in_event_hook: false, ..old(self)@ }),
            old(self).wf() ==> final(self).wf(),
    {
        self.in_event_hook = false;
    }

    /// Records the event of a hook that `enter_hook` took up, then marks the
    /// session as free again. Outside such a hook, and for an internal path,
    /// nothing is recorded.
    pub fn record_hook_event(&mut self, path: &str, line: i64, event: &HostEvent)
        requires
            old(self).wf(),
        ensures
            final(self).wf(),
            final(self)@ == if accepts(
                RecorderModel { in_event_hook: false, ..old(self)@ },
                path@,
            ) && old(self)@.in_event_hook {
                recorded(RecorderModel { in_event_hook: false, ..old(self)@ }, path@, line, *event)
            } else {
                RecorderModel { in_event_hook: false, ..old(self)@ }
            },
    {
        let entered = self.in_event_hook;
        self.in_event_hook = false;
        if !entered || !self.active || self.finished {
            return ;
        }
        if should_ignore_path(path) {
            return ;
        }
        self.record(path, line, event);
    }

    /// Handles one hook event from start to end: dropped while tracing is
    /// off, after the trace is finished, while another hook event is being
    /// recorded, and for internal paths; recorded otherwise.
    pub fn event_hook(&mut self, path: &str, line: i64, event: &HostEvent)
        requires
            old(self).wf(),
        ensures
            final(self).wf(),
            final(self)@ == after_hook_event(old(self)@, path@, line, *event),
    {
        if self.enter_hook(path) {
            self.record_hook_event(path, line, event);
        }
    }
}

} // verus!
