//! The result store: outcomes of invocations, kept under their execution ids
//! until the waiting invocation consumes them.
//!
//! The entries are held in vstd's `StringHashMap`, a hash map of std with
//! `String` keys whose view is a `Map` over the keys' characters. What vstd
//! says of std's own `HashMap` holds only for key types that are known to
//! hash as their values compare, which it states for integers but not for
//! `String`.

use serde_json::Value;
use vstd::hash_map::StringHashMap;
use vstd::prelude::*;

use crate::json::duplicate;

verus! {

/// The entry that the store `entries` holds under `id`, if any.
pub open spec fn stored(entries: Map<Seq<char>, Value>, id: Seq<char>) -> Option<Value> {
    if entries.contains_key(id) {
        Some(entries[id])
    } else {
        None
    }
}

/// Outcomes by execution id. Each id has at most one entry; writing an id
/// again replaces its entry, and reading an entry removes it.
pub struct ResultStore {
    entries: StringHashMap<Value>,
}

impl View for ResultStore {
    type V = Map<Seq<char>, Value>;

    closed spec fn view(&self) -> Map<Seq<char>, Value> {
        self.entries@
    }
}

impl ResultStore {
    /// A store without entries.
    pub fn new() -> (store: ResultStore)
        ensures
            store@ == Map::<Seq<char>, Value>::empty(),
    {
        ResultStore { entries: StringHashMap::new() }
    }

    /// Stores `outcome` under `id`. An earlier entry under the same id is
    /// replaced; the entries of all other ids stay as they are.
    pub fn put(&mut self, id: String, outcome: Value)
        ensures
            final(self)@ == old(self)@.insert(id@, outcome),
    {
        self.entries.insert(id, outcome);
    }

    /// Hands out the entry under `id` and removes it in the same step, so that
    /// a second call for the same id finds nothing. Returns `None`, and leaves
    /// the store as it is, where there is no such entry.
    pub fn take_if_present(&mut self, id: &str) -> (outcome: Option<Value>)
        ensures
            outcome == stored(old(self)@, id@),
            final(self)@ == old(self)@.remove(id@),
    {
        let found = match self.entries.get(id) {
            Some(entry) => Some(duplicate(entry)),
            None => None,
        };
        self.entries.remove(id);
        found
    }

    /// Whether the store holds an entry under `id`.
    pub fn contains(&self, id: &str) -> (present: bool)
        ensures
            present == self@.contains_key(id@),
    {
        self.entries.contains_key(id)
    }

    /// The number of entries, those that no invocation will ever consume included.
    pub fn len(&self) -> (n: usize)
        ensures
            n == self@.len(),
    {
        self.entries.len()
    }
}

/// One step on the store, as the contracts of `put` and `take_if_present` state it.
pub enum StoreOp {
    Put { id: Seq<char>, outcome: Value },
    Take { id: Seq<char> },
}

impl StoreOp {
    /// The id that the step writes or consumes.
    pub open spec fn id(self) -> Seq<char> {
        match self {
            StoreOp::Put { id, .. } => id,
            StoreOp::Take { id } => id,
        }
    }

    /// The store after the step.
    pub open spec fn apply(self, entries: Map<Seq<char>, Value>) -> Map<Seq<char>, Value> {
        match self {
            StoreOp::Put { id, outcome } => entries.insert(id, outcome),
            StoreOp::Take { id } => entries.remove(id),
        }
    }
}

/// The store after the steps `ops`, first to last.
pub open spec fn apply_all(entries: Map<Seq<char>, Value>, ops: Seq<StoreOp>) -> Map<
    Seq<char>,
    Value,
>
    decreases ops.len(),
{
    if ops.len() == 0 {
        entries
    } else {
        ops.last().apply(apply_all(entries, ops.drop_last()))
    }
}

/// At-most-once consumption: after a `put` under `id`, one `take_if_present`
/// returns exactly what was stored, and a second one returns nothing.
pub proof fn lemma_put_take_once(entries: Map<Seq<char>, Value>, id: Seq<char>, outcome: Value)
    ensures
        stored(entries.insert(id, outcome), id) == Some(outcome),
        stored(entries.insert(id, outcome).remove(id), id) is None,
{
}

/// Last writer wins: of two `put`s under one id, the entry is the second one's.
pub proof fn lemma_put_overwrites(
    entries: Map<Seq<char>, Value>,
    id: Seq<char>,
    first: Value,
    second: Value,
)
    ensures
        entries.insert(id, first).insert(id, second) == entries.insert(id, second),
{
    assert(entries.insert(id, first).insert(id, second) =~= entries.insert(id, second));
}

/// No cross-talk between two ids: a `put` or a `take_if_present` under `other`
/// changes neither whether `id` has an entry nor what it is.
pub proof fn lemma_other_id_untouched(
    entries: Map<Seq<char>, Value>,
    id: Seq<char>,
    other: Seq<char>,
    outcome: Value,
)
    requires
        id != other,
    ensures
        stored(entries.insert(other, outcome), id) == stored(entries, id),
        stored(entries.remove(other), id) == stored(entries, id),
{
}

/// No cross-talk among any number of ids: whatever steps are taken on other
/// ids, in whatever order, the entry under `id` is what it was.
pub proof fn lemma_no_cross_talk(entries: Map<Seq<char>, Value>, ops: Seq<StoreOp>, id: Seq<char>)
    requires
        forall|i: int| 0 <= i < ops.len() ==> (#[trigger] ops[i]).id() != id,
    ensures
        stored(apply_all(entries, ops), id) == stored(entries, id),
    decreases ops.len(),
{
    if ops.len() > 0 {
        let earlier = ops.drop_last();
        assert forall|i: int| 0 <= i < earlier.len() implies (#[trigger] earlier[i]).id() != id by {
            assert(earlier[i] == ops[i]);
        }
        lemma_no_cross_talk(entries, earlier, id);
        assert(ops.last() == ops[ops.len() - 1]);
    }
}

/// Two invocations whose callbacks and polls interleave: each consumes its own
/// outcome, whichever of the two is read first.
pub proof fn lemma_two_ids_interleaved(
    entries: Map<Seq<char>, Value>,
    a: Seq<char>,
    b: Seq<char>,
    for_a: Value,
    for_b: Value,
)
    requires
        a != b,
    ensures
        stored(entries.insert(a, for_a).insert(b, for_b), a) == Some(for_a),
        stored(entries.insert(a, for_a).insert(b, for_b), b) == Some(for_b),
        stored(entries.insert(a, for_a).insert(b, for_b).remove(a), b) == Some(for_b),
        stored(entries.insert(a, for_a).insert(b, for_b).remove(b), a) == Some(for_a),
        stored(entries.insert(a, for_a).remove(a).insert(b, for_b), a) is None,
{
}

} // verus!
