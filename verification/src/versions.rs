//! Per-class version counters of struct types.

use vstd::prelude::*;
use crate::recorder::{
    entries_distinct, entries_wf, entry_at, entry_wf, numeral_of, versions_of, Recorder,
    VersionEntry,
};
use crate::recorder_model::{next_version, RecorderModel};
use crate::text::{decimal, digit_char, digit_text, lemma_decimal_len};
use crate::value::clone_bytes;

verus! {

/// With distinct names, the table holds for a name the counter of the one
/// entry that carries it.
pub proof fn lemma_versions_lookup(entries: Seq<VersionEntry>, name: Seq<char>, i: int)
    requires
        entries_distinct(entries),
        entry_at(entries, name, i),
    ensures
        versions_of(entries).contains_key(name),
        versions_of(entries)[name] == entries[i].next@,
{
    let j = choose|j: int| entry_at(entries, name, j);
    assert(entry_at(entries, name, j));
    assert(i == j);
}

/// Advances a decimal numeral by one: `digits` spells `n` before and `n + 1`
/// after.
pub fn increment(digits: &mut Vec<u8>, Ghost(n): Ghost<nat>)
    requires
        forall|i: int| 0 <= i < old(digits)@.len() ==> #[trigger] old(digits)@[i] < 10,
        numeral_of(old(digits)@) == decimal(n),
    ensures
        forall|i: int| 0 <= i < final(digits)@.len() ==> #[trigger] final(digits)@[i] < 10,
        numeral_of(final(digits)@) == decimal(n + 1),
    decreases n,
{
    proof {
        lemma_decimal_len(n);
    }
    let ghost before = digits@;
    assert(before.len() == decimal(n).len());
    let last = digits.pop().unwrap();
    let ghost front = digits@;
    assert(front =~= before.drop_last());
    assert(numeral_of(before)[before.len() - 1] == digit_char(last as nat));
    assert(decimal(n).last() == digit_char((n % 10) as nat));
    assert(last as nat == n % 10);
    proof {
        if n >= 10 {
            assert(decimal(n).drop_last() =~= decimal(n / 10));
            assert(numeral_of(front) =~= numeral_of(before).drop_last());
        } else {
            assert(front.len() == 0);
        }
    }
    if last != 9 {
        digits.push(last + 1);
        proof {
            if n >= 10 {
                assert((n + 1) / 10 == n / 10);
                assert(numeral_of(digits@) =~= decimal(n / 10).push(
                    digit_char(((n + 1) % 10) as nat),
                ));
            } else {
                assert(numeral_of(digits@) =~= seq![digit_char(n + 1)]);
            }
        }
    } else {
        if digits.len() == 0 {
            digits.push(1);
            assert(numeral_of(digits@) =~= decimal(1));
        } else {
            increment(digits, Ghost(n / 10));
        }
        let ghost carried = digits@;
        digits.push(0);
        proof {
            assert((n + 1) / 10 == n / 10 + 1);
            assert((n + 1) % 10 == 0);
            assert(numeral_of(digits@) =~= numeral_of(carried).push(digit_char(0)));
        }
    }
}

/// Writes the numeral that a list of digits spells.
pub fn numeral_text(digits: &Vec<u8>) -> (text: String)
    requires
        forall|i: int| 0 <= i < digits@.len() ==> #[trigger] digits@[i] < 10,
    ensures
        text@ == numeral_of(digits@),
{
    let mut text = String::new();
    let mut i: usize = 0;
    while i < digits.len()
        invariant
            i <= digits@.len(),
            forall|k: int| 0 <= k < digits@.len() ==> #[trigger] digits@[k] < 10,
            text@ == numeral_of(digits@.take(i as int)),
        decreases digits@.len() - i,
    {
        let d: usize = digits[i] as usize;
        text.append(digit_text(d));
        assert(text@ =~= numeral_of(digits@.take(i + 1)));
        i += 1;
    }
    assert(digits@.take(i as int) =~= digits@);
    text
}

impl Recorder {
    /// Hands out the next version of the struct class `class_name`, as a
    /// decimal numeral, and advances the class's counter.
    pub fn take_version(&mut self, class_name: &str) -> (numeral: String)
        requires
            old(self).wf(),
        ensures
            final(self).wf(),
            numeral@ == decimal(next_version(old(self)@.versions, class_name@)),
            final(self)@ == (RecorderModel {
                versions: old(self)@.versions.insert(
                    class_name@,
                    next_version(old(self)@.versions, class_name@) + 1,
                ),
                ..old(self)@
            }),
    {
        let key = String::from_str(class_name);
        let ghost before = self.versions@;
        let mut i: usize = 0;
        while i < self.versions.len()
            invariant
                i <= self.versions@.len(),
                *self == *old(self),
                old(self).wf(),
                before == old(self).versions@,
                key@ == class_name@,
                forall|k: int| 0 <= k < i ==> !entry_at(before, class_name@, k),
            decreases self.versions@.len() - i,
        {
            if self.versions[i].name == key {
                let ghost version = self.versions[i as int].next@;
                assert(entry_wf(before[i as int]));
                let numeral = numeral_text(&self.versions[i].digits);
                let mut digits = clone_bytes(&self.versions[i].digits);
                increment(&mut digits, Ghost(version));
                self.versions.set(i, VersionEntry { name: key, digits, next: Ghost(version + 1) });
                proof {
                    let after = self.versions@;
                    assert(entry_at(before, class_name@, i as int));
                    lemma_versions_lookup(before, class_name@, i as int);
                    assert(forall|j: int| 0 <= j < after.len() ==> after[j].name@ == before[j].name@);
                    assert(entries_distinct(after));
                    assert(entries_wf(after)) by {
                        assert forall|j: int| 0 <= j < after.len() implies entry_wf(
                            #[trigger] after[j],
                        ) by {
                            if j != i {
                                assert(after[j] == before[j]);
                                assert(entry_wf(before[j]));
                            }
                        }
                    }
                    assert forall|name: Seq<char>|
                        versions_of(after).contains_key(name) <==> versions_of(before).insert(
                            class_name@,
                            version + 1,
                        ).contains_key(name) by {
                        if versions_of(after).contains_key(name) {
                            let j = choose|j: int| entry_at(after, name, j);
                            assert(entry_at(before, name, j));
                        }
                        if versions_of(before).contains_key(name) {
                            let j = choose|j: int| entry_at(before, name, j);
                            assert(entry_at(after, name, j));
                        }
                        if name == class_name@ {
                            assert(entry_at(after, name, i as int));
                        }
                    }
                    assert forall|name: Seq<char>| versions_of(after).contains_key(name) implies (
                    #[trigger] versions_of(after)[name]) == versions_of(before).insert(
                        class_name@,
                        version + 1,
                    )[name] by {
                        let j = choose|j: int| entry_at(after, name, j);
                        assert(entry_at(after, name, j));
                        lemma_versions_lookup(after, name, j);
                        if name != class_name@ {
                            assert(entry_at(before, name, j));
                            lemma_versions_lookup(before, name, j);
                        } else {
                            assert(entry_at(after, name, i as int));
                        }
                    }
                    assert(versions_of(after) =~= versions_of(before).insert(
                        class_name@,
                        version + 1,
                    ));
                }
                return numeral;
            }
            i += 1;
        }
        let mut digits: Vec<u8> = Vec::new();
        digits.push(1);
        assert(numeral_of(digits@) =~= decimal(1));
        self.versions.push(VersionEntry { name: key, digits, next: Ghost(1) });
        proof {
            let after = self.versions@;
            assert(forall|j: int| 0 <= j < before.len() ==> after[j] == before[j]);
            assert(after[before.len() as int].name@ == class_name@);
            assert(entries_distinct(after)) by {
                assert forall|a: int, b: int|
                    0 <= a < after.len() && 0 <= b < after.len() && after[a].name@
                        == after[b].name@ implies a == b by {
                    if a < before.len() && b == before.len() {
                        assert(entry_at(before, class_name@, a));
                    }
                    if b < before.len() && a == before.len() {
                        assert(entry_at(before, class_name@, b));
                    }
                }
            }
            assert(entries_wf(after)) by {
                assert forall|j: int| 0 <= j < after.len() implies entry_wf(#[trigger] after[j]) by {
                    if j < before.len() {
                        assert(entry_wf(before[j]));
                    }
                }
            }
            assert(!versions_of(before).contains_key(class_name@)) by {
                if versions_of(before).contains_key(class_name@) {
                    let j = choose|j: int| entry_at(before, class_name@, j);
                    assert(entry_at(before, class_name@, j));
                }
            }
            assert forall|name: Seq<char>|
                versions_of(after).contains_key(name) <==> versions_of(before).insert(
                    class_name@,
                    1,
                ).contains_key(name) by {
                if versions_of(after).contains_key(name) {
                    let j = choose|j: int| entry_at(after, name, j);
                    if j < before.len() {
                        assert(entry_at(before, name, j));
                    }
                }
                if versions_of(before).contains_key(name) {
                    let j = choose|j: int| entry_at(before, name, j);
                    assert(entry_at(after, name, j));
                }
                if name == class_name@ {
                    assert(entry_at(after, name, before.len() as int));
                }
            }
            assert forall|name: Seq<char>| versions_of(after).contains_key(name) implies (
            #[trigger] versions_of(after)[name]) == versions_of(before).insert(class_name@, 1)[name] by {
                let j = choose|j: int| entry_at(after, name, j);
                assert(entry_at(after, name, j));
                lemma_versions_lookup(after, name, j);
                if name != class_name@ {
                    assert(entry_at(before, name, j));
                    lemma_versions_lookup(before, name, j);
                } else {
                    assert(entry_at(after, name, before.len() as int));
                }
            }
            assert(versions_of(after) =~= versions_of(before).insert(class_name@, 1));
            reveal_strlit("0");
            assert("0"@ =~= decimal(0));
        }
        String::from_str("0")
    }
}

} // verus!
