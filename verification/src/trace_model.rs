//! The mathematical model of a trace: the events of the log and the tables
//! that intern type, variable, function and path identifiers.

use vstd::prelude::*;
use crate::value::{EventKind, TypeKind, ValueModel};

verus! {

/// A named field of a struct type and the type of what it holds.
pub struct FieldModel {
    pub name: Seq<char>,
    pub type_id: nat,
}

/// A variable bound to its value at one point in time.
pub struct ArgModel {
    pub variable_id: nat,
    pub value: ValueModel,
}

/// One entry of the event log. `Other` stands for entries that this library
/// never writes.
pub enum TraceEvent {
    Step { path_id: nat, line: i64 },
    Path { path: Seq<char> },
    VariableName { name: Seq<char> },
    Type { kind: TypeKind, lang_type: Seq<char>, fields: Option<Seq<FieldModel>> },
    Value { variable_id: nat, value: ValueModel },
    Function { path_id: nat, line: i64, name: Seq<char> },
    Call { function_id: nat, args: Seq<ArgModel> },
    Return { return_value: ValueModel },
    Event { event_kind: EventKind, content: Seq<char> },
    Other,
}

/// An interning table: each key seen so far with the identifier it got.
pub type Table = Map<Seq<char>, nat>;

/// The table that holds nothing.
pub open spec fn empty_table() -> Table {
    Map::empty()
}

/// The log that holds nothing.
pub open spec fn empty_log() -> Seq<TraceEvent> {
    Seq::empty()
}

/// The table after `key` was looked up: a new key gets the next free
/// identifier, a known key changes nothing.
pub open spec fn interned(table: Table, key: Seq<char>) -> Table {
    if table.contains_key(key) {
        table
    } else {
        table.insert(key, table.len())
    }
}

/// The identifier that a lookup of `key` returns.
pub open spec fn id_of(table: Table, key: Seq<char>) -> nat {
    if table.contains_key(key) {
        table[key]
    } else {
        table.len()
    }
}

/// The log after `entry` was written for a key that was new to `table`.
pub open spec fn logged_if_new(
    events: Seq<TraceEvent>,
    table: Table,
    key: Seq<char>,
    entry: TraceEvent,
) -> Seq<TraceEvent> {
    if table.contains_key(key) {
        events
    } else {
        events.push(entry)
    }
}

/// What a lookup of `key` adds to the log: `entry` for a key that is new to
/// `table`, nothing for a known one.
pub open spec fn entry_if_new(table: Table, key: Seq<char>, entry: TraceEvent) -> Seq<TraceEvent> {
    if table.contains_key(key) {
        Seq::empty()
    } else {
        seq![entry]
    }
}

/// Identifiers are dense: a table of `n` keys holds each of `0..n` once.
pub open spec fn table_wf(table: Table) -> bool {
    &&& table.dom().finite()
    &&& forall|k: Seq<char>| #[trigger] table.contains_key(k) ==> table[k] < table.len()
    &&& forall|j: Seq<char>, k: Seq<char>|
        #![trigger table[j], table[k]]
        table.contains_key(j) && table.contains_key(k) && table[j] == table[k] ==> j == k
}

/// Interning keeps a table dense, keeps every identifier already given, and
/// gives the looked-up key the identifier that `id_of` names.
pub proof fn lemma_interned(table: Table, key: Seq<char>)
    requires
        table_wf(table),
    ensures
        table_wf(interned(table, key)),
        interned(table, key).contains_key(key),
        interned(table, key)[key] == id_of(table, key),
        id_of(table, key) < interned(table, key).len(),
        table.len() <= interned(table, key).len(),
        forall|k: Seq<char>| #[trigger]
            table.contains_key(k) ==> interned(table, key).contains_key(k) && interned(
                table,
                key,
            )[k] == table[k],
        forall|k: Seq<char>| #[trigger]
            interned(table, key).contains_key(k) ==> k == key || table.contains_key(k),
{
    if !table.contains_key(key) {
        let next = table.insert(key, table.len());
        assert(next.dom() =~= table.dom().insert(key));
        assert(next.len() == table.len() + 1);
    }
}

} // verus!
