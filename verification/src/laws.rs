//! Properties of sequences of store operations, stated over the store's
//! mathematical model: a map from identifier to record, grown one insertion
//! per successful creation.

use vstd::prelude::*;
use crate::person::{NewPersonV, PersonV};
use crate::store::seed_person;

verus! {

/// The store's model after the given creations: each entry pairs the drawn
/// identifier with the validated input stored under it.
pub open spec fn store_after(
    m: Map<u128, PersonV>,
    entries: Seq<(u128, NewPersonV)>,
) -> Map<u128, PersonV>
    decreases entries.len(),
{
    if entries.len() == 0 {
        m
    } else {
        store_after(
            m.insert(entries[0].0, entries[0].1.with_id(entries[0].0)),
            entries.drop_first(),
        )
    }
}

/// Each creation draws an identifier not present in the store at its step.
pub open spec fn ids_fresh(m: Map<u128, PersonV>, entries: Seq<(u128, NewPersonV)>) -> bool
    decreases entries.len(),
{
    if entries.len() == 0 {
        true
    } else {
        !m.contains_key(entries[0].0) && ids_fresh(
            m.insert(entries[0].0, entries[0].1.with_id(entries[0].0)),
            entries.drop_first(),
        )
    }
}

/// A record once stored is still there after any further creations.
pub proof fn lemma_store_only_grows(
    m: Map<u128, PersonV>,
    entries: Seq<(u128, NewPersonV)>,
    k: u128,
)
    requires
        m.contains_key(k),
    ensures
        store_after(m, entries).contains_key(k),
    decreases entries.len(),
{
    if entries.len() > 0 {
        lemma_store_only_grows(
            m.insert(entries[0].0, entries[0].1.with_id(entries[0].0)),
            entries.drop_first(),
            k,
        );
    }
}

/// No creation of a fresh-identifier run draws an identifier that the store
/// already holds.
pub proof fn lemma_fresh_ids_avoid_stored(
    m: Map<u128, PersonV>,
    entries: Seq<(u128, NewPersonV)>,
    k: u128,
)
    requires
        ids_fresh(m, entries),
        m.contains_key(k),
    ensures
        forall|i: int| 0 <= i < entries.len() ==> (#[trigger] entries[i]).0 != k,
    decreases entries.len(),
{
    if entries.len() > 0 {
        lemma_fresh_ids_avoid_stored(
            m.insert(entries[0].0, entries[0].1.with_id(entries[0].0)),
            entries.drop_first(),
            k,
        );
        assert(forall|i: int|
            0 <= i < entries.drop_first().len() ==> (#[trigger] entries.drop_first()[i]).0 != k);
        assert(forall|i: int| 1 <= i < entries.len() ==> entries.drop_first()[i - 1] == entries[i]);
    }
}

/// Identifier uniqueness: the identifiers drawn by a run of creations that
/// are each fresh at their step are pairwise distinct.
pub proof fn lemma_created_ids_distinct(m: Map<u128, PersonV>, entries: Seq<(u128, NewPersonV)>)
    requires
        ids_fresh(m, entries),
    ensures
        forall|i: int, j: int|
            0 <= i < j < entries.len() ==> (#[trigger] entries[i]).0 != (#[trigger] entries[j]).0,
    decreases entries.len(),
{
    if entries.len() > 0 {
        let m1 = m.insert(entries[0].0, entries[0].1.with_id(entries[0].0));
        lemma_created_ids_distinct(m1, entries.drop_first());
        lemma_fresh_ids_avoid_stored(m1, entries.drop_first(), entries[0].0);
        assert(forall|i: int| 1 <= i < entries.len() ==> entries.drop_first()[i - 1] == entries[i]);
    }
}

/// Count: every creation of a fresh-identifier run grows the store by exactly
/// one record.
pub proof fn lemma_count_after_creates(m: Map<u128, PersonV>, entries: Seq<(u128, NewPersonV)>)
    requires
        ids_fresh(m, entries),
        m.dom().finite(),
    ensures
        store_after(m, entries).dom().finite(),
        store_after(m, entries).len() == m.len() + entries.len(),
    decreases entries.len(),
{
    if entries.len() > 0 {
        let m1 = m.insert(entries[0].0, entries[0].1.with_id(entries[0].0));
        assert(m1.dom() =~= m.dom().insert(entries[0].0));
        lemma_count_after_creates(m1, entries.drop_first());
    }
}

/// Count from startup: the seeded store counts one record, and after any
/// fresh-identifier run of creations it counts one plus their number. A
/// rejected creation is no entry of the run: it leaves the store untouched.
pub proof fn lemma_count_from_seed(seed_id: u128, entries: Seq<(u128, NewPersonV)>)
    requires
        ids_fresh(Map::<u128, PersonV>::empty().insert(seed_id, seed_person(seed_id)), entries),
    ensures
        store_after(
            Map::<u128, PersonV>::empty().insert(seed_id, seed_person(seed_id)),
            entries,
        ).len() == 1 + entries.len(),
{
    let m = Map::<u128, PersonV>::empty().insert(seed_id, seed_person(seed_id));
    assert(m.dom() =~= Set::empty().insert(seed_id));
    lemma_count_after_creates(m, entries);
}

/// Absence: an identifier never stored and never drawn is absent after the
/// run, and lookup of it reports no record.
pub proof fn lemma_absent_id_stays_absent(
    m: Map<u128, PersonV>,
    entries: Seq<(u128, NewPersonV)>,
    k: u128,
)
    requires
        !m.contains_key(k),
        forall|i: int| 0 <= i < entries.len() ==> (#[trigger] entries[i]).0 != k,
    ensures
        !store_after(m, entries).contains_key(k),
    decreases entries.len(),
{
    if entries.len() > 0 {
        assert(forall|i: int| 1 <= i < entries.len() ==> entries.drop_first()[i - 1] == entries[i]);
        lemma_absent_id_stays_absent(
            m.insert(entries[0].0, entries[0].1.with_id(entries[0].0)),
            entries.drop_first(),
            k,
        );
    }
}

/// Every record of the store's model satisfies the creation constraints.
pub open spec fn all_valid(m: Map<u128, PersonV>) -> bool {
    forall|k: u128| m.contains_key(k) ==> (#[trigger] m[k]).valid()
}

/// Stored records stay within the creation constraints: creations of valid
/// inputs preserve the store-wide validity invariant.
pub proof fn lemma_creations_preserve_validity(
    m: Map<u128, PersonV>,
    entries: Seq<(u128, NewPersonV)>,
)
    requires
        all_valid(m),
        forall|i: int| 0 <= i < entries.len() ==> (#[trigger] entries[i]).1.valid(),
    ensures
        all_valid(store_after(m, entries)),
    decreases entries.len(),
{
    if entries.len() > 0 {
        let m1 = m.insert(entries[0].0, entries[0].1.with_id(entries[0].0));
        assert(entries[0].1.with_id(entries[0].0).valid());
        assert(all_valid(m1));
        assert(forall|i: int| 1 <= i < entries.len() ==> entries.drop_first()[i - 1] == entries[i]);
        lemma_creations_preserve_validity(m1, entries.drop_first());
    }
}

/// Round trip: after a creation stores a valid input under identifier `id`,
/// lookup of `id` yields exactly that input plus `id`.
pub proof fn lemma_create_lookup_round_trip(m: Map<u128, PersonV>, input: NewPersonV, id: u128)
    requires
        input.valid(),
    ensures
        m.insert(id, input.with_id(id)).contains_key(id),
        m.insert(id, input.with_id(id))[id] == input.with_id(id),
        m.insert(id, input.with_id(id))[id].id == id,
        m.insert(id, input.with_id(id))[id].valid(),
{
}

} // verus!
