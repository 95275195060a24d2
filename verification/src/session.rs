//! The lifecycle of a session: tracing is switched on and off, and the
//! session ends when the trace has been written out.

use vstd::prelude::*;
use crate::recorder::Recorder;
use crate::recorder_model::RecorderModel;

verus! {

/// What the binding has to install in the host after tracing was switched
/// on.
#[derive(Clone, Copy, Debug, PartialEq, Eq, Structural)]
pub struct HookRequest {
    /// Install the hook for line, call, return and raise events.
    pub install_event_hook: bool,
    /// Install the hook for thread events.
    pub install_thread_hook: bool,
}

/// Tracing can be switched on: it is off and the trace is not finished.
pub open spec fn can_enable(m: RecorderModel) -> bool {
    !m.active && !m.finished
}

/// The session after tracing was switched on.
pub open spec fn enabled(m: RecorderModel) -> RecorderModel {
    if can_enable(m) {
        RecorderModel { active: true, thread_hook_installed: true, ..m }
    } else {
        m
    }
}

impl Recorder {
    /// Switches tracing on unless it is on already or the trace is finished.
    /// The event hook is asked for each time tracing goes from off to on, the
    /// thread hook only the first time.
    pub fn enable_tracing(&mut self) -> (request: HookRequest)
        ensures
            final(self)@ == enabled(old(self)@),
            request.install_event_hook == can_enable(old(self)@),
            request.install_thread_hook == (can_enable(old(self)@)
                && !old(self)@.thread_hook_installed),
            old(self).wf() ==> final(self).wf(),
    {
        if self.active || self.finished {
            return HookRequest { install_event_hook: false, install_thread_hook: false };
        }
        let install_thread_hook = !self.thread_hook_installed;
        self.thread_hook_installed = true;
        self.active = true;
        HookRequest { install_event_hook: true, install_thread_hook }
    }

    /// Switches tracing off and tells whether the event hook has to be
    /// removed: it has if tracing was on.
    pub fn disable_tracing(&mut self) -> (remove_event_hook: bool)
        ensures
            final(self)@ == (RecorderModel { active: false, ..old(self)@ }),
            remove_event_hook == old(self)@.active,
            old(self).wf() ==> final(self).wf(),
    {
        let was_active = self.active;
        self.active = false;
        was_active
    }

    /// Ends the session after its trace was written out: from now on nothing
    /// is recorded.
    pub fn finish(&mut self)
        ensures
            final(self)@ == (RecorderModel { finished: true, ..old(self)@ }),
            old(self).wf() ==> final(self).wf(),
    {
        self.finished = true;
    }

    /// Whether tracing is switched on.
    pub fn is_active(&self) -> (active: bool)
        ensures
            active == self@.active,
    {
        self.active
    }

    /// Whether a hook event is being recorded.
    pub fn is_in_event_hook(&self) -> (busy: bool)
        ensures
            busy == self@.in_event_hook,
    {
        self.in_event_hook
    }

    /// Whether the session has ended.
    pub fn is_finished(&self) -> (finished: bool)
        ensures
            finished == self@.finished,
    {
        self.finished
    }
}

} // verus!
