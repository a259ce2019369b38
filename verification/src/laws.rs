//! The laws of the generated builder, stated over the slot model of
//! `crate::builder`: any setter order fills the builder; a single omitted
//! required field is the one reported; the reported field is the first in
//! declaration order; optional fields never block a build; setters
//! overwrite.

use vstd::prelude::*;

use crate::builder::{all_unset, complete, first_missing_is, missing_at};
use crate::generate::BuilderDesc;

verus! {

/// The slot state of a fresh builder: `n` unset slots.
pub open spec fn unset_slots<V>(n: nat) -> Seq<Option<V>> {
    Seq::new(n, |i: int| None)
}

/// The slot state after running a sequence of setter calls, each a pair of a
/// field index and the stored value, on a fresh builder of `n` slots.
pub open spec fn slots_after<V>(n: nat, sets: Seq<(usize, V)>) -> Seq<Option<V>>
    decreases sets.len(),
{
    if sets.len() == 0 {
        unset_slots(n)
    } else {
        slots_after(n, sets.drop_last()).update(
            sets.last().0 as int,
            Some(sets.last().1),
        )
    }
}

/// The value that the last setter call for field `i` stored, if any call
/// named that field.
pub open spec fn last_set<V>(sets: Seq<(usize, V)>, i: int) -> Option<V>
    decreases sets.len(),
{
    if sets.len() == 0 {
        None
    } else if sets.last().0 as int == i {
        Some(sets.last().1)
    } else {
        last_set(sets.drop_last(), i)
    }
}

/// After any sequence of in-range setter calls, slot `i` holds exactly the
/// value of the last call that named field `i`.
pub proof fn lemma_slots_after_is_last_set<V>(n: nat, sets: Seq<(usize, V)>, i: int)
    requires
        0 <= i < n,
        forall|j: int| 0 <= j < sets.len() ==> (#[trigger] sets[j]).0 < n,
    ensures
        slots_after(n, sets).len() == n,
        slots_after(n, sets)[i] == last_set(sets, i),
    decreases sets.len(),
{
    if sets.len() == 0 {
    } else {
        assert(forall|j: int|
            0 <= j < sets.drop_last().len() ==> (#[trigger] sets.drop_last()[j]).0 < n);
        lemma_slots_after_is_last_set(n, sets.drop_last(), i);
    }
}

/// Any sequence of in-range setter calls keeps the number of slots.
pub proof fn lemma_slots_after_len<V>(n: nat, sets: Seq<(usize, V)>)
    requires
        forall|j: int| 0 <= j < sets.len() ==> (#[trigger] sets[j]).0 < n,
    ensures
        slots_after(n, sets).len() == n,
    decreases sets.len(),
{
    if sets.len() == 0 {
    } else {
        assert(forall|j: int|
            0 <= j < sets.drop_last().len() ==> (#[trigger] sets.drop_last()[j]).0 < n);
        lemma_slots_after_len(n, sets.drop_last());
    }
}

/// A field that some setter call named ends up set.
pub proof fn lemma_named_field_is_set<V>(sets: Seq<(usize, V)>, i: int)
    requires
        exists|j: int| 0 <= j < sets.len() && (#[trigger] sets[j]).0 as int == i,
    ensures
        last_set(sets, i) is Some,
    decreases sets.len(),
{
    if sets.last().0 as int == i {
    } else {
        let j = choose|j: int| 0 <= j < sets.len() && (#[trigger] sets[j]).0 as int == i;
        assert(sets.drop_last()[j] == sets[j]);
        lemma_named_field_is_set(sets.drop_last(), i);
    }
}

/// Law: on a fresh builder, setting every required field, in any order,
/// yields a state from which `build` is owed success, and every slot then
/// holds exactly the last value set for its field — still unset where no
/// setter ran — so the built record equals the directly assembled one.
pub proof fn lemma_set_all_required_then_build_succeeds<V>(
    desc: BuilderDesc,
    sets: Seq<(usize, V)>,
)
    requires
        forall|j: int| 0 <= j < sets.len() ==> (#[trigger] sets[j]).0 < desc.fields@.len(),
        forall|i: int|
            0 <= i < desc.fields@.len() && (#[trigger] desc.fields@[i]).required
                ==> exists|j: int| 0 <= j < sets.len() && (#[trigger] sets[j]).0 as int == i,
    ensures
        slots_after(desc.fields@.len(), sets).len() == desc.fields@.len(),
        complete(desc, slots_after(desc.fields@.len(), sets)),
        forall|i: int|
            0 <= i < desc.fields@.len()
                ==> slots_after(desc.fields@.len(), sets)[i] == last_set(sets, i),
{
    let n = desc.fields@.len();
    assert forall|i: int| 0 <= i < n implies slots_after(n, sets)[i] == last_set(sets, i) by {
        lemma_slots_after_is_last_set(n, sets, i);
    }
    lemma_slots_after_len(n, sets);
    assert forall|i: int| 0 <= i < n implies !missing_at(desc, slots_after(n, sets), i) by {
        if desc.fields@[i].required {
            lemma_named_field_is_set(sets, i);
        }
    }
}

/// Law: if exactly one required field is unset, it is the first missing
/// field and the only one, so `build` must fail naming exactly that field.
pub proof fn lemma_omitted_required_field_is_reported<V>(
    desc: BuilderDesc,
    slots: Seq<Option<V>>,
    k: int,
)
    requires
        0 <= k < desc.fields@.len(),
        desc.fields@[k].required,
        slots[k] is None,
        forall|j: int| 0 <= j < desc.fields@.len() && j != k ==> !missing_at(desc, slots, j),
    ensures
        !complete(desc, slots),
        first_missing_is(desc, slots, k),
        forall|k2: int| first_missing_is(desc, slots, k2) ==> k2 == k,
{
    assert(missing_at(desc, slots, k));
}

/// Law: whenever `build` must fail, some field is the first missing one.
pub proof fn lemma_first_missing_exists<V>(desc: BuilderDesc, slots: Seq<Option<V>>)
    requires
        !complete(desc, slots),
    ensures
        exists|k: int| first_missing_is(desc, slots, k),
{
    let i = choose|i: int| 0 <= i < desc.fields@.len() && missing_at(desc, slots, i);
    lemma_scan_down(desc, slots, i);
}

/// Below any missing field stands a first missing field.
proof fn lemma_scan_down<V>(desc: BuilderDesc, slots: Seq<Option<V>>, i: int)
    requires
        0 <= i < desc.fields@.len(),
        missing_at(desc, slots, i),
    ensures
        exists|k: int| first_missing_is(desc, slots, k),
    decreases i,
{
    if forall|j: int| 0 <= j < i ==> !missing_at(desc, slots, j) {
        assert(first_missing_is(desc, slots, i));
    } else {
        let j = choose|j: int| 0 <= j < i && missing_at(desc, slots, j);
        lemma_scan_down(desc, slots, j);
    }
}

/// Law: when two or more required fields are unset, the one reported is the
/// one that appears first in the declaration order: the first missing field
/// is no later than any missing field, and it is unique.
pub proof fn lemma_first_missing_is_earliest<V>(
    desc: BuilderDesc,
    slots: Seq<Option<V>>,
    k: int,
)
    requires
        first_missing_is(desc, slots, k),
    ensures
        forall|j: int|
            0 <= j < desc.fields@.len() && missing_at(desc, slots, j) ==> k <= j,
        forall|k2: int| first_missing_is(desc, slots, k2) ==> k2 == k,
{
}

/// Law: an optional field never blocks `build`: clearing its slot — or never
/// setting it — does not change whether the builder is complete, and the
/// slot then carries the empty value into the built record.
pub proof fn lemma_optional_field_never_blocks<V>(
    desc: BuilderDesc,
    slots: Seq<Option<V>>,
    i: int,
)
    requires
        slots.len() == desc.fields@.len(),
        0 <= i < slots.len(),
        !desc.fields@[i].required,
    ensures
        complete(desc, slots.update(i, None)) == complete(desc, slots),
        slots.update(i, None)[i] is None,
{
    let cleared = slots.update(i, None);
    assert forall|j: int| 0 <= j < desc.fields@.len() implies
        missing_at(desc, cleared, j) == missing_at(desc, slots, j) by {
        if j != i {
            assert(cleared[j] == slots[j]);
        }
    }
}

/// Law: setters overwrite: setting a field to `a` and then to `b` leaves the
/// builder exactly as setting it once to `b`, and the slot holds `b`.
pub proof fn lemma_setter_overwrites<V>(slots: Seq<Option<V>>, i: int, a: V, b: V)
    requires
        0 <= i < slots.len(),
    ensures
        slots.update(i, Some(a)).update(i, Some(b)) == slots.update(i, Some(b)),
        slots.update(i, Some(a)).update(i, Some(b))[i] == Some(b),
{
    assert(slots.update(i, Some(a)).update(i, Some(b)) =~= slots.update(i, Some(b)));
}

/// The model's starting state has every slot unset.
pub proof fn lemma_unset_slots_all_unset<V>(n: nat)
    ensures
        all_unset(unset_slots::<V>(n)),
        unset_slots::<V>(n).len() == n,
{
}

/// A slot state with every slot unset — a fresh builder's state — is the
/// model's starting state of its length, so the setter laws above apply to
/// it.
pub proof fn lemma_all_unset_is_unset_slots<V>(slots: Seq<Option<V>>)
    requires
        all_unset(slots),
    ensures
        slots =~= unset_slots(slots.len()),
{
}

} // verus!
