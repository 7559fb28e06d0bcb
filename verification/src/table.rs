use vstd::prelude::*;

use std::collections::HashMap;

use crate::goods::{kind_in_slot, lemma_slots_are_a_bijection, slot_of, GoodKind, GOOD_COUNT};

verus! {

/// A map from goods to values.
///
/// The values are held in a std `HashMap` keyed by the slot of each good
/// (`slot_of`): the hash map specification of vstd holds for integer keys,
/// while for an enum key it would hold only under an unproved assumption
/// about its derived `Hash` and `Eq`.
pub struct GoodTable<V> {
    by_slot: HashMap<usize, V>,
}

impl<V> GoodTable<V> {
    /// Only slots of goods are used as keys.
    #[verifier::type_invariant]
    closed spec fn keys_are_slots(&self) -> bool {
        forall|k: usize| #[trigger] self.by_slot@.contains_key(k) ==> k < GOOD_COUNT
    }
}

impl<V> View for GoodTable<V> {
    type V = Map<GoodKind, V>;

    closed spec fn view(&self) -> Map<GoodKind, V> {
        Map::new(
            |gk: GoodKind| self.by_slot@.contains_key(slot_of(gk) as usize),
            |gk: GoodKind| self.by_slot@[slot_of(gk) as usize],
        )
    }
}

impl<V> GoodTable<V> {
    /// An empty table.
    pub fn new() -> (t: Self)
        ensures
            t@ == Map::<GoodKind, V>::empty(),
    {
        let t = GoodTable { by_slot: HashMap::new() };
        assert(t@ =~= Map::<GoodKind, V>::empty());
        t
    }

    /// Stores `value` for `gk` and hands back what was stored for it before.
    pub fn insert(&mut self, gk: GoodKind, value: V) -> (previous: Option<V>)
        ensures
            final(self)@ == old(self)@.insert(gk, value),
            previous == (if old(self)@.contains_key(gk) {
                Some(old(self)@[gk])
            } else {
                None
            }),
    {
        broadcast use vstd::std_specs::hash::group_hash_axioms;
        proof {
            use_type_invariant(&*self);
        }
        let slot = gk.slot();
        let mut by_slot: HashMap<usize, V> = HashMap::new();
        std::mem::swap(&mut by_slot, &mut self.by_slot);
        let previous = by_slot.insert(slot, value);
        self.by_slot = by_slot;
        proof {
            assert forall|g: GoodKind| slot_of(g) == slot_of(gk) implies g == gk by {
                lemma_slots_are_a_bijection(g, 0);
                lemma_slots_are_a_bijection(gk, 0);
            }
        }
        assert(self@ =~= old(self)@.insert(gk, value));
        previous
    }

    /// The value stored for `gk`, if any.
    pub fn get(&self, gk: GoodKind) -> (r: Option<&V>)
        ensures
            r is Some <==> self@.contains_key(gk),
            r matches Some(v) ==> *v == self@[gk],
    {
        broadcast use vstd::std_specs::hash::group_hash_axioms;
        let slot = gk.slot();
        self.by_slot.get(&slot)
    }

    /// Whether the table holds nothing.
    pub fn is_empty(&self) -> (b: bool)
        ensures
            b == (self@ == Map::<GoodKind, V>::empty()),
    {
        broadcast use vstd::std_specs::hash::group_hash_axioms;
        proof {
            use_type_invariant(self);
        }
        let b = self.by_slot.is_empty();
        proof {
            if b {
                assert(self@ =~= Map::<GoodKind, V>::empty());
            } else {
                let k = choose|k: usize| self.by_slot@.contains_key(k);
                assert(self.by_slot@.dom().contains(k));
                let g = kind_in_slot(k as int);
                lemma_slots_are_a_bijection(g, k as int);
                assert(self@.contains_key(g));
            }
        }
        b
    }

    /// Whether a value is stored for `gk`.
    pub fn contains_key(&self, gk: GoodKind) -> (b: bool)
        ensures
            b == self@.contains_key(gk),
    {
        broadcast use vstd::std_specs::hash::group_hash_axioms;
        let slot = gk.slot();
        self.by_slot.contains_key(&slot)
    }
}

/// A read gives back the last value written for that good, and a write for
/// one good leaves every other good as it was.
pub proof fn lemma_read_after_write<V>(m: Map<GoodKind, V>, written: GoodKind, value: V, read: GoodKind)
    ensures
        m.insert(written, value).contains_key(written),
        m.insert(written, value)[written] == value,
        read != written ==> (m.insert(written, value).contains_key(read) == m.contains_key(read)),
        read != written && m.contains_key(read) ==> m.insert(written, value)[read] == m[read],
{
}

/// The order in which goods are written does not matter: writing two
/// different goods in either order leaves the same table.
pub proof fn lemma_write_order_irrelevant<V>(m: Map<GoodKind, V>, a: GoodKind, x: V, b: GoodKind, y: V)
    requires
        a != b,
    ensures
        m.insert(a, x).insert(b, y) == m.insert(b, y).insert(a, x),
{
    assert(m.insert(a, x).insert(b, y) =~= m.insert(b, y).insert(a, x));
}

} // verus!
