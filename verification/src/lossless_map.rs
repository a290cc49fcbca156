//! Round trips of maps.

use std::collections::{BTreeMap, HashMap};

use vstd::prelude::*;

use crate::error::{GError, GResult, MapType};
use crate::from_map::{gathered, map_model};
use crate::from_val::{FromVal, Modelled, Plain};
use crate::into_map::{
    btree_pairs, distinct, entered, entered_all, hash_pairs, lemma_listed_keys, lemma_put, lists,
    ref_pairs, tabled,
};
use crate::into_val::IntoVal;
use crate::lossless::{lemma_extends, ByRef, Lossless, RoundTrip};
use crate::marker::{BuildHasherDefaultMarker, HashEqMarker, OrdMarker, StaticMarker};
use crate::store::Store;
use crate::value::{Slot, Val};

verus! {

/// The map that `pairs` make up.
pub open spec fn mapped<K, V: Modelled>(pairs: Seq<(K, V)>) -> Map<K, V::Model>
    decreases pairs.len(),
{
    if pairs.len() == 0 {
        Map::empty()
    } else {
        mapped(pairs.drop_last()).insert(pairs.last().0, pairs.last().1.model())
    }
}

/// The map that is read back of `pairs`.
pub open spec fn meant_map<K: FromVal + Plain, V: FromVal, A: Lossless<K>, B: Lossless<V>>(
    pairs: Seq<(A, B)>,
) -> Map<K, V::Model>
    decreases pairs.len(),
{
    if pairs.len() == 0 {
        Map::empty()
    } else {
        meant_map::<K, V, A, B>(pairs.drop_last()).insert(
            <A as Lossless<K>>::meant(pairs.last().0),
            <B as Lossless<V>>::meant(pairs.last().1),
        )
    }
}

/// No two of `pairs` are read back with one key.
pub open spec fn meant_distinct<K: FromVal + Plain, A: Lossless<K>, B>(pairs: Seq<(A, B)>) -> bool {
    forall|i: int, j: int|
        0 <= i < j < pairs.len() ==> <A as Lossless<K>>::meant(
            (#[trigger] pairs[i]).0,
        ) != <A as Lossless<K>>::meant((#[trigger] pairs[j]).0)
}

/// Each of `pairs` is as every host value of its type is.
pub open spec fn sound_pairs<K: FromVal, V: FromVal, A: Lossless<K>, B: Lossless<V>>(
    pairs: Seq<(A, B)>,
) -> bool {
    forall|i: int|
        0 <= i < pairs.len() ==> <A as Lossless<K>>::sound(
            (#[trigger] pairs[i]).0,
        ) && <B as Lossless<V>>::sound(pairs[i].1)
}

/// What is in the map that `pairs` make up.
proof fn lemma_mapped<K, V: Modelled>(pairs: Seq<(K, V)>)
    requires
        distinct(pairs),
    ensures
        forall|i: int|
            0 <= i < pairs.len() ==> mapped(pairs).contains_key((#[trigger] pairs[i]).0)
                && mapped(pairs)[pairs[i].0] == pairs[i].1.model(),
        forall|k: K| #[trigger]
            mapped(pairs).contains_key(k) ==> exists|i: int|
                0 <= i < pairs.len() && (#[trigger] pairs[i]).0 == k,
    decreases pairs.len(),
{
    if pairs.len() > 0 {
        let earlier = pairs.drop_last();
        let last = pairs.len() - 1;
        assert(distinct(earlier)) by {
            assert forall|i: int, j: int| 0 <= i < j < earlier.len() implies (
            #[trigger] earlier[i]).0 != (#[trigger] earlier[j]).0 by {
                assert(pairs[i].0 != pairs[j].0);
            }
        }
        lemma_mapped(earlier);
        assert forall|i: int| 0 <= i < pairs.len() implies mapped(pairs).contains_key(
            (#[trigger] pairs[i]).0,
        ) && mapped(pairs)[pairs[i].0] == pairs[i].1.model() by {
            if i < last {
                assert(earlier[i] == pairs[i]);
                assert(pairs[i].0 != pairs[last].0);
            }
        }
        assert forall|k: K| #[trigger] mapped(pairs).contains_key(k) implies exists|i: int|
            0 <= i < pairs.len() && (#[trigger] pairs[i]).0 == k by {
            if k == pairs[last].0 {
            } else {
                assert(mapped(earlier).contains_key(k));
                let i = choose|i: int| 0 <= i < earlier.len() && (#[trigger] earlier[i]).0 == k;
                assert(pairs[i].0 == k);
            }
        }
    }
}

/// The entries of a map make it up.
proof fn lemma_listed<K, V: Modelled>(pairs: Seq<(K, V)>, map: Map<K, V>)
    requires
        lists(pairs, map),
    ensures
        distinct(pairs),
        mapped(pairs) == map_model(map),
{
    lemma_listed_keys(pairs, map);
    lemma_mapped(pairs);
    assert forall|k: K| map.contains_key(k) implies #[trigger] mapped(pairs).contains_key(k) by {
        assert(map.kv_pairs().contains((k, map[k])));
        assert(pairs.to_set().contains((k, map[k])));
        let i = choose|i: int| 0 <= i < pairs.len() && pairs[i] == (k, map[k]);
        assert(mapped(pairs).contains_key(pairs[i].0));
    }
    assert forall|k: K| #[trigger] mapped(pairs).contains_key(k) implies map.contains_key(k)
        && mapped(pairs)[k] == map_model(map)[k] by {
        let i = choose|i: int| 0 <= i < pairs.len() && (#[trigger] pairs[i]).0 == k;
        assert(mapped(pairs)[pairs[i].0] == pairs[i].1.model());
    }
    assert(mapped(pairs) =~= map_model(map));
}

/// Where each of `pairs` is read back as the one of `base` that it was made of, all of them are
/// read back as the map that `base` makes up.
proof fn lemma_meant_is_mapped<K: FromVal + Plain, V: FromVal, A: Lossless<K>, B: Lossless<V>>(
    pairs: Seq<(A, B)>,
    base: Seq<(K, V)>,
)
    requires
        pairs.len() == base.len(),
        distinct(base),
        forall|i: int|
            0 <= i < base.len() ==> <A as Lossless<K>>::meant((#[trigger] pairs[i]).0) == base[i].0
                && <B as Lossless<V>>::meant(pairs[i].1) == base[i].1.model(),
    ensures
        meant_distinct::<K, A, B>(pairs),
        meant_map::<K, V, A, B>(pairs) == mapped(base),
    decreases base.len(),
{
    if base.len() > 0 {
        let fewer = pairs.drop_last();
        let base_fewer = base.drop_last();
        assert forall|i: int| 0 <= i < base_fewer.len() implies <A as Lossless<K>>::meant(
            (#[trigger] fewer[i]).0,
        ) == base_fewer[i].0 && <B as Lossless<V>>::meant(fewer[i].1)
            == base_fewer[i].1.model() by {
            assert(fewer[i] == pairs[i]);
        }
        assert(distinct(base_fewer)) by {
            assert forall|i: int, j: int| 0 <= i < j < base_fewer.len() implies (
            #[trigger] base_fewer[i]).0 != (#[trigger] base_fewer[j]).0 by {
                assert(base[i].0 != base[j].0);
            }
        }
        lemma_meant_is_mapped::<K, V, A, B>(fewer, base_fewer);
        assert(pairs.last() == pairs[base.len() - 1]);
    }
    assert forall|i: int, j: int| 0 <= i < j < pairs.len() implies <A as Lossless<K>>::meant(
        (#[trigger] pairs[i]).0,
    ) != <A as Lossless<K>>::meant((#[trigger] pairs[j]).0) by {
        assert(base[i].0 != base[j].0);
    }
}

/// What is in the map that is read back of `pairs`.
proof fn lemma_meant_keys<K: FromVal + Plain, V: FromVal, A: Lossless<K>, B: Lossless<V>>(
    pairs: Seq<(A, B)>,
)
    ensures
        forall|k: K| #[trigger]
            meant_map::<K, V, A, B>(pairs).contains_key(k) ==> exists|i: int|
                0 <= i < pairs.len() && <A as Lossless<K>>::meant((#[trigger] pairs[i]).0) == k,
    decreases pairs.len(),
{
    if pairs.len() > 0 {
        let fewer = pairs.drop_last();
        let last = pairs.len() - 1;
        lemma_meant_keys::<K, V, A, B>(fewer);
        assert forall|k: K| #[trigger]
            meant_map::<K, V, A, B>(pairs).contains_key(k) implies exists|i: int|
            0 <= i < pairs.len() && <A as Lossless<K>>::meant((#[trigger] pairs[i]).0) == k by {
            if k == <A as Lossless<K>>::meant(pairs[last].0) {
            } else {
                assert(meant_map::<K, V, A, B>(fewer).contains_key(k));
                let i = choose|i: int|
                    0 <= i < fewer.len() && <A as Lossless<K>>::meant((#[trigger] fewer[i]).0) == k;
                assert(<A as Lossless<K>>::meant(pairs[i].0) == k);
            }
        }
    }
}

/// Entering one more pair adds to the heap, and changes nothing that is there.
proof fn lemma_enter_grows<K: FromVal, V: FromVal, A: Lossless<K>, B: Lossless<V>>(
    run: (Store, GResult<Seq<(Slot, Slot)>>),
    key: A,
    value: B,
)
    ensures
        entered(run, key, value).0.extends(run.0),
{
    reveal(Store::extends);
    <A as Lossless<K>>::grows(key, run.0);
    let h1 = key.to_val(run.0).0;
    <B as Lossless<V>>::grows(value, h1);
    lemma_extends(run.0, h1, value.to_val(h1).0);
}

/// A run of entries adds to the heap, and changes nothing that is there.
proof fn lemma_entries_grow<K: FromVal, V: FromVal, A: Lossless<K>, B: Lossless<V>>(
    h: Store,
    pairs: Seq<(A, B)>,
)
    ensures
        entered_all(h, pairs).0.extends(h),
    decreases pairs.len(),
{
    if pairs.len() > 0 {
        let before = entered_all(h, pairs.drop_last());
        lemma_entries_grow::<K, V, A, B>(h, pairs.drop_last());
        lemma_enter_grows::<K, V, A, B>(before, pairs.last().0, pairs.last().1);
        lemma_extends(h, before.0, entered(before, pairs.last().0, pairs.last().1).0);
    } else {
        reveal(Store::extends);
    }
}

/// The table that a run of entries ends in is read back as the map that they make up.
proof fn lemma_entries_lossless<K: FromVal + Plain, V: FromVal, A: Lossless<K>, B: Lossless<V>>(
    h: Store,
    pairs: Seq<(A, B)>,
    later: Store,
    map_type: MapType,
)
    requires
        meant_distinct::<K, A, B>(pairs),
        sound_pairs::<K, V, A, B>(pairs),
        entered_all(h, pairs).1 is Ok,
        later.extends(entered_all(h, pairs).0),
        later.addressable(),
    ensures
        ({
            let entries = entered_all(h, pairs).1->Ok_0;
            &&& entries.len() == pairs.len()
            &&& forall|i: int|
                0 <= i < entries.len() ==> K::of_val(later, (#[trigger] entries[i]).0.val())
                    == Ok::<K, GError>(<A as Lossless<K>>::meant(pairs[i].0))
            &&& gathered::<K, V>(later, entries, map_type) == Ok::<Map<K, V::Model>, GError>(
                meant_map::<K, V, A, B>(pairs),
            )
        }),
    decreases pairs.len(),
{
    if pairs.len() > 0 {
        let last = pairs.len() - 1;
        let earlier = pairs.drop_last();
        let (key, value) = pairs.last();
        let before = entered_all(h, earlier);
        assert(pairs[last] == (key, value));
        assert(meant_distinct::<K, A, B>(earlier)) by {
            assert forall|i: int, j: int| 0 <= i < j < earlier.len() implies <A as Lossless<K>>::meant(
                (#[trigger] earlier[i]).0,
            ) != <A as Lossless<K>>::meant(
                (#[trigger] earlier[j]).0,
            ) by {
                assert(earlier[i] == pairs[i] && earlier[j] == pairs[j]);
            }
        }
        assert(sound_pairs::<K, V, A, B>(earlier)) by {
            assert forall|i: int| 0 <= i < earlier.len() implies <A as Lossless<K>>::sound(
                (#[trigger] earlier[i]).0,
            ) && <B as Lossless<V>>::sound(earlier[i].1) by {
                assert(earlier[i] == pairs[i]);
            }
        }
        let h1 = key.to_val(before.0).0;
        let h2 = value.to_val(h1).0;
        <B as Lossless<V>>::grows(value, h1);
        lemma_extends(h1, h2, later);
        <A as Lossless<K>>::grows(key, before.0);
        lemma_extends(before.0, h1, later);
        <B as Lossless<V>>::lossless(value, h1, later);
        <A as Lossless<K>>::lossless(key, before.0, later);
        lemma_entries_lossless::<K, V, A, B>(h, earlier, later, map_type);
        let old_entries = before.1->Ok_0;
        let k = key.to_val(before.0).1->Ok_0.slot();
        let v = value.to_val(h1).1->Ok_0.slot();
        assert forall|i: int| 0 <= i < old_entries.len() implies (#[trigger] old_entries[i]).0
            != k by {
            assert(earlier[i] == pairs[i]);
            assert(<A as Lossless<K>>::meant(pairs[i].0) != <A as Lossless<K>>::meant(
                pairs[last].0,
            ));
        }
        lemma_put(old_entries, k, v, old_entries.len() as int);
        let entries = entered_all(h, pairs).1->Ok_0;
        assert(entries == old_entries.push((k, v)));
        assert(entries.drop_last() =~= old_entries);
        assert forall|i: int| 0 <= i < entries.len() implies K::of_val(
            later,
            (#[trigger] entries[i]).0.val(),
        ) == Ok::<K, GError>(<A as Lossless<K>>::meant(pairs[i].0)) by {
            if i < last {
                assert(entries[i] == old_entries[i]);
                assert(earlier[i] == pairs[i]);
            }
        }
        lemma_meant_keys::<K, V, A, B>(earlier);
        let read_key = <A as Lossless<K>>::meant(key);
        assert(!meant_map::<K, V, A, B>(earlier).contains_key(read_key)) by {
            if meant_map::<K, V, A, B>(earlier).contains_key(read_key) {
                let i = choose|i: int|
                    0 <= i < earlier.len() && <A as Lossless<K>>::meant((#[trigger] earlier[i]).0)
                        == read_key;
                assert(earlier[i] == pairs[i]);
                assert(<A as Lossless<K>>::meant(pairs[i].0) != <A as Lossless<K>>::meant(
                    pairs[last].0,
                ));
            }
        }
    }
}

/// The table that a run of entries ends in is read back as them.
proof fn lemma_table_lossless(run: (Store, GResult<Seq<(Slot, Slot)>>), later: Store)
    requires
        run.1 is Ok,
        later.extends(tabled(run).0),
        later.addressable(),
    ensures
        later.extends(run.0),
        tabled(run).1 matches Ok(Val::Tab(root)) && later.tab(root) == Ok::<
            Seq<(Slot, Slot)>,
            GError,
        >(run.1->Ok_0),
{
    reveal(Store::extends);
    assert(tabled(run).0.tabs[run.0.tabs.len() as int] == run.1->Ok_0);
}

/// Ending a run of entries adds to the heap, and changes nothing that is there.
proof fn lemma_table_grows(run: (Store, GResult<Seq<(Slot, Slot)>>))
    ensures
        tabled(run).0.extends(run.0),
{
    reveal(Store::extends);
}

impl<K, V, S> Lossless<HashMap<K, V, S>> for HashMap<K, V, S> where
    K: HashEqMarker + Copy + Plain + RoundTrip,
    V: RoundTrip,
    S: BuildHasherDefaultMarker + StaticMarker,
 {
    open spec fn sound(self) -> bool {
        &&& lists(hash_pairs(self), self@)
        &&& sound_pairs::<K, V, K, V>(hash_pairs(self))
    }

    open spec fn meant(self) -> Map<K, V::Model> {
        map_model(self@)
    }

    proof fn grows(self, h: Store) {
        let pairs = hash_pairs(self);
        let run = entered_all(h, pairs);
        lemma_entries_grow::<K, V, K, V>(h, pairs);
        lemma_table_grows(run);
        lemma_extends(h, run.0, tabled(run).0);
    }

    proof fn lossless(self, h: Store, later: Store) {
        let base = hash_pairs(self);
        let pairs = hash_pairs(self);
        let run = entered_all(h, pairs);
        lemma_table_lossless(run, later);
        lemma_listed(base, self@);
        assert forall|i: int| 0 <= i < base.len() implies <K as Lossless<K>>::meant(
            (#[trigger] pairs[i]).0,
        ) == base[i].0 && <V as Lossless<V>>::meant(pairs[i].1) == base[i].1.model() by {
                base[i].0.faithful();
                base[i].0.stands_for_itself();
                base[i].1.faithful();
        }
        lemma_meant_is_mapped::<K, V, K, V>(pairs, base);
        lemma_entries_lossless::<K, V, K, V>(h, pairs, later, MapType::HashMap);
    }
}

impl<K, V, S> RoundTrip for HashMap<K, V, S> where
    K: HashEqMarker + Copy + Plain + RoundTrip,
    V: RoundTrip,
    S: BuildHasherDefaultMarker + StaticMarker,
 {
    proof fn faithful(self) {
    }
}

impl<K, V> Lossless<BTreeMap<K, V>> for BTreeMap<K, V> where
    K: OrdMarker + Copy + Plain + RoundTrip,
    V: RoundTrip,
 {
    open spec fn sound(self) -> bool {
        &&& lists(btree_pairs(self), self@)
        &&& sound_pairs::<K, V, K, V>(btree_pairs(self))
    }

    open spec fn meant(self) -> Map<K, V::Model> {
        map_model(self@)
    }

    proof fn grows(self, h: Store) {
        let pairs = btree_pairs(self);
        let run = entered_all(h, pairs);
        lemma_entries_grow::<K, V, K, V>(h, pairs);
        lemma_table_grows(run);
        lemma_extends(h, run.0, tabled(run).0);
    }

    proof fn lossless(self, h: Store, later: Store) {
        let base = btree_pairs(self);
        let pairs = btree_pairs(self);
        let run = entered_all(h, pairs);
        lemma_table_lossless(run, later);
        lemma_listed(base, self@);
        assert forall|i: int| 0 <= i < base.len() implies <K as Lossless<K>>::meant(
            (#[trigger] pairs[i]).0,
        ) == base[i].0 && <V as Lossless<V>>::meant(pairs[i].1) == base[i].1.model() by {
                base[i].0.faithful();
                base[i].0.stands_for_itself();
                base[i].1.faithful();
        }
        lemma_meant_is_mapped::<K, V, K, V>(pairs, base);
        lemma_entries_lossless::<K, V, K, V>(h, pairs, later, MapType::BTreeMap);
    }
}

impl<K, V> RoundTrip for BTreeMap<K, V> where
    K: OrdMarker + Copy + Plain + RoundTrip,
    V: RoundTrip,
 {
    proof fn faithful(self) {
    }
}

impl<'a, K, V, S> Lossless<HashMap<K, V, S>> for &'a HashMap<K, V, S> where
    K: HashEqMarker + FromVal + Plain + ByRef,
    V: FromVal + ByRef,
    S: BuildHasherDefaultMarker + StaticMarker,
    for <'b>&'b K: Lossless<K>,
    for <'b>&'b V: Lossless<V>,
 {
    open spec fn sound(self) -> bool {
        &&& lists(hash_pairs(*self), self@)
        &&& sound_pairs::<K, V, &'a K, &'a V>(ref_pairs(hash_pairs(*self)))
    }

    open spec fn meant(self) -> Map<K, V::Model> {
        map_model(self@)
    }

    proof fn grows(self, h: Store) {
        let pairs = ref_pairs(hash_pairs(*self));
        let run = entered_all(h, pairs);
        lemma_entries_grow::<K, V, &'a K, &'a V>(h, pairs);
        lemma_table_grows(run);
        lemma_extends(h, run.0, tabled(run).0);
    }

    proof fn lossless(self, h: Store, later: Store) {
        let base = hash_pairs(*self);
        let pairs = ref_pairs(hash_pairs(*self));
        let run = entered_all(h, pairs);
        lemma_table_lossless(run, later);
        lemma_listed(base, self@);
        assert forall|i: int| 0 <= i < base.len() implies <&'a K as Lossless<K>>::meant(
            (#[trigger] pairs[i]).0,
        ) == base[i].0 && <&'a V as Lossless<V>>::meant(pairs[i].1) == base[i].1.model() by {
                base[i].0.faithful_by_ref();
                base[i].0.stands_for_itself();
                base[i].1.faithful_by_ref();
        }
        lemma_meant_is_mapped::<K, V, &'a K, &'a V>(pairs, base);
        lemma_entries_lossless::<K, V, &'a K, &'a V>(h, pairs, later, MapType::HashMap);
    }
}

impl<K, V, S> ByRef for HashMap<K, V, S> where
    K: HashEqMarker + FromVal + Plain + ByRef,
    V: FromVal + ByRef,
    S: BuildHasherDefaultMarker + StaticMarker,
    for <'b>&'b K: Lossless<K>,
    for <'b>&'b V: Lossless<V>,
 {
    proof fn faithful_by_ref(&self) {
    }
}

impl<'a, K, V> Lossless<BTreeMap<K, V>> for &'a BTreeMap<K, V> where
    K: OrdMarker + FromVal + Plain + ByRef,
    V: FromVal + ByRef,
    for <'b>&'b K: Lossless<K>,
    for <'b>&'b V: Lossless<V>,
 {
    open spec fn sound(self) -> bool {
        &&& lists(btree_pairs(*self), self@)
        &&& sound_pairs::<K, V, &'a K, &'a V>(ref_pairs(btree_pairs(*self)))
    }

    open spec fn meant(self) -> Map<K, V::Model> {
        map_model(self@)
    }

    proof fn grows(self, h: Store) {
        let pairs = ref_pairs(btree_pairs(*self));
        let run = entered_all(h, pairs);
        lemma_entries_grow::<K, V, &'a K, &'a V>(h, pairs);
        lemma_table_grows(run);
        lemma_extends(h, run.0, tabled(run).0);
    }

    proof fn lossless(self, h: Store, later: Store) {
        let base = btree_pairs(*self);
        let pairs = ref_pairs(btree_pairs(*self));
        let run = entered_all(h, pairs);
        lemma_table_lossless(run, later);
        lemma_listed(base, self@);
        assert forall|i: int| 0 <= i < base.len() implies <&'a K as Lossless<K>>::meant(
            (#[trigger] pairs[i]).0,
        ) == base[i].0 && <&'a V as Lossless<V>>::meant(pairs[i].1) == base[i].1.model() by {
                base[i].0.faithful_by_ref();
                base[i].0.stands_for_itself();
                base[i].1.faithful_by_ref();
        }
        lemma_meant_is_mapped::<K, V, &'a K, &'a V>(pairs, base);
        lemma_entries_lossless::<K, V, &'a K, &'a V>(h, pairs, later, MapType::BTreeMap);
    }
}

impl<K, V> ByRef for BTreeMap<K, V> where
    K: OrdMarker + FromVal + Plain + ByRef,
    V: FromVal + ByRef,
    for <'b>&'b K: Lossless<K>,
    for <'b>&'b V: Lossless<V>,
 {
    proof fn faithful_by_ref(&self) {
    }
}

} // verus!
