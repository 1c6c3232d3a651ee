//! The stored records of a contract, as a mapping from key to value.
use crate::rpc::query::StateItem;
use vstd::prelude::*;

verus! {

/// The mapping that a run of records stands for: each key maps to the value
/// of the last record that has it.
pub open spec fn state_map(items: Seq<StateItem>) -> Map<Seq<u8>, Seq<u8>>
    decreases items.len(),
{
    if items.len() == 0 {
        Map::empty()
    } else {
        state_map(items.drop_last()).insert(items.last().key@, items.last().value@)
    }
}

/// A key that no record has is not in the mapping.
pub proof fn lemma_state_map_misses(items: Seq<StateItem>, key: Seq<u8>)
    requires
        forall|j: int| 0 <= j < items.len() ==> (#[trigger] items[j]).key@ != key,
    ensures
        !state_map(items).contains_key(key),
    decreases items.len(),
{
    if items.len() > 0 {
        assert(items.last() == items[items.len() - 1]);
        assert forall|j: int| 0 <= j < items.drop_last().len() implies (
        #[trigger] items.drop_last()[j]).key@ != key by {
            assert(items.drop_last()[j] == items[j]);
        }
        lemma_state_map_misses(items.drop_last(), key);
    }
}

/// A key maps to the value of the last record that has it.
pub proof fn lemma_state_map_last_wins(items: Seq<StateItem>, at: int)
    requires
        0 <= at < items.len(),
        forall|j: int| at < j < items.len() ==> (#[trigger] items[j]).key@ != items[at].key@,
    ensures
        state_map(items).contains_key(items[at].key@),
        state_map(items)[items[at].key@] == items[at].value@,
    decreases items.len(),
{
    if at < items.len() - 1 {
        assert(items.last() == items[items.len() - 1]);
        assert(items.drop_last()[at] == items[at]);
        assert forall|j: int| at < j < items.drop_last().len() implies (
        #[trigger] items.drop_last()[j]).key@ != items.drop_last()[at].key@ by {
            assert(items.drop_last()[j] == items[j]);
        }
        lemma_state_map_last_wins(items.drop_last(), at);
    }
}

/// Whether two runs of bytes are the same.
pub fn bytes_eq(a: &[u8], b: &[u8]) -> (r: bool)
    ensures
        r == (a@ == b@),
{
    if a.len() != b.len() {
        return false;
    }
    let mut i: usize = 0;
    while i < a.len()
        invariant
            a.len() == b.len(),
            i <= a.len(),
            forall|j: int| 0 <= j < i ==> a@[j] == b@[j],
        decreases a.len() - i,
    {
        if a[i] != b[i] {
            return false;
        }
        i = i + 1;
    }
    assert(a@ =~= b@);
    true
}

/// The state of a contract: what is stored under each key. It keeps the
/// records as the node gave them; a key that occurs more than once maps to
/// the value of its last record.
#[derive(Clone, Debug, PartialEq, Eq)]
pub struct StateMap {
    pub items: Vec<StateItem>,
}

impl View for StateMap {
    type V = Map<Seq<u8>, Seq<u8>>;

    open spec fn view(&self) -> Map<Seq<u8>, Seq<u8>> {
        state_map(self.items@)
    }
}

impl StateMap {
    /// The mapping that `items` stand for.
    pub fn new(items: Vec<StateItem>) -> (r: StateMap)
        ensures
            r.items == items,
    {
        StateMap { items }
    }

    /// The value stored under `key`, if there is one.
    pub fn get(&self, key: &[u8]) -> (r: Option<&Vec<u8>>)
        ensures
            r is Some <==> self@.contains_key(key@),
            r matches Some(value) ==> value@ == self@[key@],
    {
        let mut i: usize = self.items.len();
        while i > 0
            invariant
                i <= self.items.len(),
                forall|j: int| i <= j < self.items.len() ==> (#[trigger] self.items@[j]).key@ != key@,
            decreases i,
        {
            i = i - 1;
            if bytes_eq(self.items[i].key.as_slice(), key) {
                proof {
                    lemma_state_map_last_wins(self.items@, i as int);
                }
                return Some(&self.items[i].value);
            }
        }
        proof {
            lemma_state_map_misses(self.items@, key@);
        }
        None
    }
}

} // verus!
