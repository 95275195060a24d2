//! Recording engine of a Ruby execution tracer: turns snapshots of host values
//! into trace values, interns their types, and appends the events of a run to
//! a trace writer.

pub mod path_filter;
pub mod text;
pub mod value;
pub mod trace_model;
pub mod lowering;
pub mod writer;
pub mod host;
pub mod recorder_model;
pub mod recorder;
pub mod versions;
pub mod convert;
pub mod event_model;
pub mod hook;
pub mod session;
pub mod format;
pub mod laws;
pub mod convert_laws;
pub mod event_laws;
