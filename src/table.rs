//! An append-only table that hands out dense, never-reused handles.
use core::marker::PhantomData;
use vstd::prelude::*;

verus! {

/// A handle type that a [`Table`] can issue: a typed wrapper around the
/// position of an entry in the table.
pub trait TableKey: Sized + Copy {
    /// The position of the entry that this handle names.
    spec fn spec_index(&self) -> nat;

    fn from_index(index: u32) -> (key: Self)
        ensures
            key.spec_index() == index as nat,
    ;

    fn index(&self) -> (index: u32)
        ensures
            index as nat == self.spec_index(),
    ;
}

/// `after` is `before` with one entry appended, under handle `index`.
pub open spec fn issued<V>(before: Seq<V>, after: Seq<V>, index: nat) -> bool {
    &&& index == before.len()
    &&& after.len() == before.len() + 1
    &&& after.subrange(0, before.len() as int) == before
}

/// One call on a table: it issued handle `h` (`Some(h)`), or it left the
/// table as it was (`None`), as a failed insertion or any other call does.
pub open spec fn table_step<V>(before: Seq<V>, after: Seq<V>, outcome: Option<nat>) -> bool {
    match outcome {
        Some(h) => issued(before, after, h),
        None => after == before,
    }
}

/// The number of calls among `outcomes` that issued a handle.
pub open spec fn issued_count(outcomes: Seq<Option<nat>>) -> nat
    decreases outcomes.len(),
{
    if outcomes.len() == 0 {
        0
    } else {
        issued_count(outcomes.drop_last()) + if outcomes.last() is Some {
            1nat
        } else {
            0nat
        }
    }
}

/// Handles are issued as 0, 1, 2, ... in call order, with no gaps, for a
/// table that starts empty, whatever failed or other calls come between:
/// `states[i]` is the table before call `i` and `states[i + 1]` the table
/// after it. A call that issues a handle gets the number of handles issued
/// before it, so no handle is issued twice.
pub proof fn lemma_handles_in_call_order<V>(states: Seq<Seq<V>>, outcomes: Seq<Option<nat>>)
    requires
        states.len() == outcomes.len() + 1,
        states[0].len() == 0,
        forall|i: int| 0 <= i < outcomes.len() ==> table_step(#[trigger] states[i], states[i + 1], outcomes[i]),
    ensures
        forall|i: int| 0 <= i <= outcomes.len() ==> #[trigger] states[i].len() == issued_count(outcomes.take(i)),
        forall|i: int| 0 <= i < outcomes.len() ==> (#[trigger] outcomes[i] matches Some(h) ==> h == issued_count(
            outcomes.take(i),
        )),
    decreases outcomes.len(),
{
    if outcomes.len() == 0 {
        assert(outcomes.take(0) =~= Seq::<Option<nat>>::empty());
    } else {
        let n = outcomes.len() - 1;
        let rest = outcomes.drop_last();
        let earlier = states.drop_last();
        assert forall|i: int| 0 <= i < rest.len() implies table_step(#[trigger] earlier[i], earlier[i + 1], rest[i]) by {
            assert(table_step(states[i], states[i + 1], outcomes[i]));
        }
        lemma_handles_in_call_order(earlier, rest);
        assert forall|i: int| 0 <= i <= n implies #[trigger] rest.take(i) == outcomes.take(i) by {
            assert(rest.take(i) =~= outcomes.take(i));
        }
        assert(outcomes.take(n + 1) =~= outcomes);
        assert(rest =~= outcomes.take(n));
        assert(table_step(states[n], states[n + 1], outcomes[n]));
        assert(earlier[n] == states[n]);
        assert forall|i: int| 0 <= i <= outcomes.len() implies #[trigger] states[i].len() == issued_count(outcomes.take(i)) by {
            if i <= n {
                assert(earlier[i] == states[i]);
            }
        }
        assert forall|i: int| 0 <= i < outcomes.len() implies (#[trigger] outcomes[i] matches Some(h) ==> h == issued_count(
            outcomes.take(i),
        )) by {
            if i < n {
                assert(rest[i] == outcomes[i]);
            } else {
                assert(earlier[n] == states[n]);
            }
        }
    }
}

/// An entry, once issued, stays under its handle: an operation that leaves
/// a table as it was or appends one entry keeps every earlier handle valid
/// and naming the same entry.
pub proof fn lemma_entries_persist<V>(before: Seq<V>, after: Seq<V>, index: nat, handle: int)
    requires
        after == before || issued(before, after, index),
        0 <= handle < before.len(),
    ensures
        handle < after.len(),
        after[handle] == before[handle],
{
    if after != before {
        assert(after.subrange(0, before.len() as int)[handle] == after[handle]);
    }
}

/// Record handle entries in a table.
///
/// Handles are issued in order, starting at 0, and entries are never removed,
/// so the handle of an entry is its position and the next handle to issue is
/// the number of entries.
pub struct Table<K, V> {
    entries: Vec<V>,
    keys: PhantomData<K>,
}

impl<K, V> View for Table<K, V> {
    type V = Seq<V>;

    open spec fn view(&self) -> Seq<V> {
        self.spec_entries()
    }
}

impl<K, V> Table<K, V> {
    pub closed spec fn spec_entries(&self) -> Seq<V> {
        self.entries@
    }

    /// An empty table; the first handle it issues is 0.
    pub fn new() -> (t: Self)
        ensures
            t@ == Seq::<V>::empty(),
    {
        Table { entries: Vec::new(), keys: PhantomData }
    }

    /// The number of entries, which is also the next handle to be issued.
    pub fn len(&self) -> (n: usize)
        ensures
            n == self@.len(),
    {
        self.entries.len()
    }
}

impl<K: TableKey, V> Table<K, V> {
    /// Whether `key` was issued by this table.
    pub open spec fn contains(&self, key: K) -> bool {
        key.spec_index() < self@.len()
    }

    /// Store `value` under the next unused handle and return that handle.
    pub fn insert(&mut self, value: V) -> (key: K)
        requires
            old(self)@.len() < u32::MAX,
        ensures
            key.spec_index() == old(self)@.len(),
            final(self)@ == old(self)@.push(value),
            issued(old(self)@, final(self)@, key.spec_index()),
    {
        let key = K::from_index(self.entries.len() as u32);
        self.entries.push(value);
        assert(self@.subrange(0, old(self)@.len() as int) =~= old(self)@);
        key
    }

    /// The entry stored under `key`, or `None` when this table never issued it.
    pub fn get_mut(&mut self, key: K) -> (entry: Option<&mut V>)
        ensures
            match entry {
                Some(v) => {
                    &&& old(self).contains(key)
                    &&& *v == old(self)@[key.spec_index() as int]
                    &&& final(self)@ == old(self)@.update(key.spec_index() as int, *final(v))
                },
                None => {
                    &&& !old(self).contains(key)
                    &&& final(self)@ == old(self)@
                },
            },
    {
        let i = key.index() as usize;
        if i < self.entries.len() {
            Some(&mut self.entries[i])
        } else {
            None
        }
    }
}

} // verus!
