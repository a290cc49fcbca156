//! `IntoVal` for maps: each becomes a new table of its entries.
//!
//! A map that is converted by value is taken apart key by key, and one that is converted by mutable
//! reference lends out its values in the same way: both need keys that can be copied. A shared
//! reference needs no such thing.

use std::collections::{BTreeMap, HashMap};

use vstd::prelude::*;
use vstd::std_specs::btree::{increasing_seq, spec_btree_map_iter};
use vstd::std_specs::hash::spec_hash_map_iter;
use vstd::std_specs::iter::IteratorSpec;

use crate::error::{GError, GResult};
use crate::into_val::{slotted, IntoVal, IntoValMut};
use crate::marker::{BuildHasherDefaultMarker, HashEqMarker, OrdMarker};
use crate::store::{Heap, Store};
use crate::value::{Slot, Val};

verus! {

/// The entries of a table, after `key` has been set to `value`: the entry of that key changes in
/// place, or a new one joins the others.
pub open spec fn put(entries: Seq<(Slot, Slot)>, key: Slot, value: Slot) -> Seq<(Slot, Slot)>
    decreases entries.len(),
{
    if entries.len() == 0 {
        seq![(key, value)]
    } else if entries[0].0 == key {
        entries.update(0, (key, value))
    } else {
        seq![entries[0]] + put(entries.drop_first(), key, value)
    }
}

/// A run of entries, carried on by one of which the key and then the value are converted.
pub open spec fn entered<A: IntoVal, B: IntoVal>(
    run: (Store, GResult<Seq<(Slot, Slot)>>),
    key: A,
    value: B,
) -> (Store, GResult<Seq<(Slot, Slot)>>) {
    match run.1 {
        Err(_) => run,
        Ok(entries) => {
            let (h1, rk) = slotted(key.to_val(run.0));
            match rk {
                Err(e) => (h1, Err(e)),
                Ok(k) => {
                    let (h2, rv) = slotted(value.to_val(h1));
                    match rv {
                        Err(e) => (h2, Err(e)),
                        Ok(v) => (h2, Ok(put(entries, k, v))),
                    }
                },
            }
        },
    }
}

/// A run of entries, carried on by all that `pairs` holds, in order: where it has failed, nothing
/// more happens.
pub open spec fn entered_all<A: IntoVal, B: IntoVal>(h: Store, pairs: Seq<(A, B)>) -> (
    Store,
    GResult<Seq<(Slot, Slot)>>,
)
    decreases pairs.len(),
{
    if pairs.len() == 0 {
        (h, Ok(seq![]))
    } else {
        entered(entered_all(h, pairs.drop_last()), pairs.last().0, pairs.last().1)
    }
}

/// The same of one entry of which the value is converted by mutable reference.
pub open spec fn mut_entered<A: IntoVal, V: IntoValMut>(
    run: (Store, GResult<Seq<(Slot, Slot)>>),
    key: A,
    value: V,
) -> (Store, GResult<Seq<(Slot, Slot)>>) {
    match run.1 {
        Err(_) => run,
        Ok(entries) => {
            let (h1, rk) = slotted(key.to_val(run.0));
            match rk {
                Err(e) => (h1, Err(e)),
                Ok(k) => {
                    let (h2, rv) = slotted(value.mut_to_val(h1));
                    match rv {
                        Err(e) => (h2, Err(e)),
                        Ok(v) => (h2, Ok(put(entries, k, v))),
                    }
                },
            }
        },
    }
}

/// The same of all that `pairs` holds: the keys are converted by shared reference, and the values
/// by mutable reference.
pub open spec fn mut_entered_all<'a, K: 'a, V: IntoValMut>(h: Store, pairs: Seq<(K, V)>) -> (
    Store,
    GResult<Seq<(Slot, Slot)>>,
) where &'a K: IntoVal
    decreases pairs.len(),
{
    if pairs.len() == 0 {
        (h, Ok(seq![]))
    } else {
        mut_entered::<&K, V>(
            mut_entered_all::<K, V>(h, pairs.drop_last()),
            &pairs.last().0,
            pairs.last().1,
        )
    }
}

/// `after` is what may be left of a value when a run is carried on by its entry: what its
/// conversion leaves, or the value itself where it is not converted.
pub open spec fn value_left<A: IntoVal, V: IntoValMut>(
    run: (Store, GResult<Seq<(Slot, Slot)>>),
    key: A,
    value: V,
    after: V,
) -> bool {
    if run.1 is Ok && key.to_val(run.0).1 is Ok {
        value.leaves(key.to_val(run.0).0, after)
    } else {
        after == value
    }
}

/// `after` is what may be left of a map whose entries are `pairs`.
pub open spec fn values_left<'a, K: 'a, V: IntoValMut>(
    h: Store,
    pairs: Seq<(K, V)>,
    before: Map<K, V>,
    after: Map<K, V>,
) -> bool where &'a K: IntoVal {
    &&& after.dom() == before.dom()
    &&& forall|i: int|
        0 <= i < pairs.len() ==> value_left::<&K, V>(
            mut_entered_all::<K, V>(h, pairs.take(i)),
            &(#[trigger] pairs[i]).0,
            pairs[i].1,
            after[pairs[i].0],
        )
}

/// References to the keys and the values of `pairs`.
pub open spec fn ref_pairs<'a, K, V>(pairs: Seq<(K, V)>) -> Seq<(&'a K, &'a V)> {
    Seq::new(pairs.len(), |i: int| (&pairs[i].0, &pairs[i].1))
}

/// A run of entries, ended: they become a new table.
pub open spec fn tabled(run: (Store, GResult<Seq<(Slot, Slot)>>)) -> (Store, GResult<Val>) {
    match run.1 {
        Ok(entries) => (run.0.with_tab(entries), Ok(Val::Tab(run.0.next_tab()))),
        Err(e) => (run.0, Err(e)),
    }
}

/// The entries of a hash map, in the order in which it is walked.
pub open spec fn hash_pairs<K, V, S>(map: HashMap<K, V, S>) -> Seq<(K, V)> {
    vstd::std_specs::hash::into_iter(spec_hash_map_iter(&map))
}

/// `pairs` holds every entry of `map` once, and nothing else.
pub open spec fn lists<K, V>(pairs: Seq<(K, V)>, map: Map<K, V>) -> bool {
    &&& pairs.no_duplicates()
    &&& pairs.to_set() == map.kv_pairs()
}

/// No two of `pairs` have one key.
pub open spec fn distinct<K, V>(pairs: Seq<(K, V)>) -> bool {
    forall|i: int, j: int|
        0 <= i < j < pairs.len() ==> (#[trigger] pairs[i]).0 != (#[trigger] pairs[j]).0
}

/// Every entry of a map is under a key of its own.
pub(crate) proof fn lemma_listed_keys<K, V>(pairs: Seq<(K, V)>, map: Map<K, V>)
    requires
        lists(pairs, map),
    ensures
        distinct(pairs),
        forall|i: int|
            0 <= i < pairs.len() ==> map.contains_key((#[trigger] pairs[i]).0) && map[pairs[i].0]
                == pairs[i].1,
{
    assert forall|i: int| 0 <= i < pairs.len() implies map.contains_key((#[trigger] pairs[i]).0)
        && map[pairs[i].0] == pairs[i].1 by {
        assert(pairs.contains(pairs[i]));
        assert(pairs.to_set().contains(pairs[i]));
    }
    assert forall|i: int, j: int| 0 <= i < j < pairs.len() implies (#[trigger] pairs[i]).0 != (
    #[trigger] pairs[j]).0 by {
        if pairs[i].0 == pairs[j].0 {
            assert(pairs[i] == pairs[j]);
        }
    }
}

/// What `put` does where the key has an entry, and where it has none.
pub(crate) proof fn lemma_put(entries: Seq<(Slot, Slot)>, key: Slot, value: Slot, at: int)
    requires
        0 <= at <= entries.len(),
        forall|i: int| 0 <= i < at ==> (#[trigger] entries[i]).0 != key,
        at < entries.len() ==> entries[at].0 == key,
    ensures
        put(entries, key, value) == (if at < entries.len() {
            entries.update(at, (key, value))
        } else {
            entries.push((key, value))
        }),
    decreases entries.len(),
{
    if entries.len() == 0 {
        assert(entries.push((key, value)) =~= seq![(key, value)]);
    } else if at > 0 {
        let rest = entries.drop_first();
        assert forall|i: int| 0 <= i < at - 1 implies (#[trigger] rest[i]).0 != key by {
            assert(rest[i] == entries[i + 1]);
        }
        lemma_put(rest, key, value, at - 1);
        assert(entries[0].0 != key);
        if at < entries.len() {
            assert(seq![entries[0]] + rest.update(at - 1, (key, value)) =~= entries.update(
                at,
                (key, value),
            ));
        } else {
            assert(seq![entries[0]] + rest.push((key, value)) =~= entries.push((key, value)));
        }
    }
}

/// Sets a key of a table.
fn set_entry(entries: &mut Vec<(Slot, Slot)>, key: Slot, value: Slot)
    ensures
        final(entries)@ == put(old(entries)@, key, value),
{
    let mut at: usize = 0;
    while at < entries.len() && entries[at].0 != key
        invariant
            at <= entries.len(),
            entries@ == old(entries)@,
            forall|i: int| 0 <= i < at ==> (#[trigger] entries@[i]).0 != key,
        decreases entries.len() - at,
    {
        at = at + 1;
    }
    proof {
        lemma_put(entries@, key, value, at as int);
    }
    if at < entries.len() {
        entries.set(at, (key, value));
    } else {
        entries.push((key, value));
    }
}

/// A run of entries that has failed stays as it is.
proof fn lemma_entered_all_failed<A: IntoVal, B: IntoVal>(h: Store, pairs: Seq<(A, B)>, k: int)
    requires
        0 <= k <= pairs.len(),
        entered_all(h, pairs.take(k)).1 is Err,
    ensures
        entered_all(h, pairs) == entered_all(h, pairs.take(k)),
    decreases pairs.len(),
{
    if k < pairs.len() {
        assert(pairs.drop_last().take(k) =~= pairs.take(k));
        lemma_entered_all_failed(h, pairs.drop_last(), k);
    } else {
        assert(pairs.take(k) =~= pairs);
    }
}

/// The same where the values are converted by mutable reference.
proof fn lemma_mut_entered_all_failed<'a, K: 'a, V: IntoValMut>(
    h: Store,
    pairs: Seq<(K, V)>,
    k: int,
) where &'a K: IntoVal
    requires
        0 <= k <= pairs.len(),
        mut_entered_all::<K, V>(h, pairs.take(k)).1 is Err,
    ensures
        mut_entered_all::<K, V>(h, pairs) == mut_entered_all::<K, V>(h, pairs.take(k)),
    decreases pairs.len(),
{
    if k < pairs.len() {
        assert(pairs.drop_last().take(k) =~= pairs.take(k));
        lemma_mut_entered_all_failed::<K, V>(h, pairs.drop_last(), k);
    } else {
        assert(pairs.take(k) =~= pairs);
    }
}

/// Converts all of `pairs`, in order, to the entries of a new table.
fn enter_all<A: IntoVal, B: IntoVal>(pairs: Vec<(A, B)>, heap: &mut Heap) -> (r: GResult<Val>)
    ensures
        (final(heap)@, r) == tabled(entered_all(old(heap)@, pairs@)),
{
    let ghost h = heap@;
    let ghost all = pairs@;
    let mut entries: Vec<(Slot, Slot)> = Vec::new();
    proof {
        assert(all.take(0) =~= seq![]);
    }
    for pair in it: pairs
        invariant
            h == old(heap)@,
            all == pairs@,
            it.seq() == all,
            (heap@, Ok::<Seq<(Slot, Slot)>, GError>(entries@)) == entered_all(
                h,
                all.take(it.index() as int),
            ),
    {
        let ghost k = it.index() as int;
        proof {
            assert(all.take(k + 1).drop_last() =~= all.take(k));
        }
        let (key, value) = pair;
        let key_slot = match key.into_slot(heap) {
            Ok(slot) => slot,
            Err(e) => {
                proof {
                    lemma_entered_all_failed(h, all, k + 1);
                }
                return Err(e);
            },
        };
        let value_slot = match value.into_slot(heap) {
            Ok(slot) => slot,
            Err(e) => {
                proof {
                    lemma_entered_all_failed(h, all, k + 1);
                }
                return Err(e);
            },
        };
        set_entry(&mut entries, key_slot, value_slot);
    }
    proof {
        assert(all.take(all.len() as int) =~= all);
    }
    Ok(Val::Tab(heap.alloc_tab(entries)))
}

/// Copies the keys of some entries.
fn copy_keys<K: Copy, V>(entries: &Vec<(&K, &V)>) -> (keys: Vec<K>)
    ensures
        keys@.len() == entries@.len(),
        forall|i: int| 0 <= i < keys@.len() ==> #[trigger] keys@[i] == *entries@[i].0,
{
    let mut keys: Vec<K> = Vec::with_capacity(entries.len());
    let mut i: usize = 0;
    while i < entries.len()
        invariant
            i <= entries.len(),
            keys@.len() == i,
            forall|j: int| 0 <= j < i ==> #[trigger] keys@[j] == *entries@[j].0,
        decreases entries.len() - i,
    {
        keys.push(*entries[i].0);
        i = i + 1;
    }
    keys
}

/// The entries of an ordered map, in the order in which it is walked.
pub open spec fn btree_pairs<K, V>(map: BTreeMap<K, V>) -> Seq<(K, V)> {
    vstd::std_specs::btree::into_iter(spec_btree_map_iter(&map))
}

/// The keys of some entries.
pub open spec fn keys_of<K, V>(pairs: Seq<(K, V)>) -> Seq<K> {
    pairs.map_values(|kv: (K, V)| kv.0)
}

/// The entries stand in the order of their keys.
pub open spec fn ascending<K, V>(pairs: Seq<(K, V)>) -> bool {
    increasing_seq(keys_of(pairs))
}

/// Lists the entries of a hash map, in the order in which it is walked:
/// every one of them, and nothing else.
pub fn hash_entries<'a, K, V, S>(map: &'a HashMap<K, V, S>) -> (entries: Vec<(&'a K, &'a V)>) where
    K: HashEqMarker,
    S: BuildHasherDefaultMarker,

    ensures
        entries@ == ref_pairs(hash_pairs(*map)),
        lists(hash_pairs(*map), map@),
{
    proof {
        K::lawful_key();
        S::lawful_hasher();
    }
    let ghost pairs = hash_pairs(*map);
    let mut entries: Vec<(&'a K, &'a V)> = Vec::new();
    let iter = map.iter();
    proof {
        assert(pairs =~= iter.remaining().unref());
    }
    for (key, value) in it: iter
        invariant
            pairs == hash_pairs(*map),
            lists(pairs, map@),
            it.seq().unref() == pairs,
            entries@ =~= ref_pairs(pairs).take(it.index() as int),
    {
        proof {
            let k = it.index() as int;
            assert(it.seq().unref()[k] == (*it.seq()[k].0, *it.seq()[k].1));
        }
        entries.push((key, value));
    }
    assert(entries@ =~= ref_pairs(pairs));
    entries
}

/// Takes a hash map apart into its entries, in the order in which it is walked.
fn hash_unload<K, V, S>(map: HashMap<K, V, S>) -> (entries: Vec<(K, V)>) where
    K: HashEqMarker + Copy,
    S: BuildHasherDefaultMarker,

    ensures
        entries@ == hash_pairs(map),
        lists(hash_pairs(map), map@),
{
    let ghost pairs = hash_pairs(map);
    let ghost whole = map@;
    let listed = hash_entries(&map);
    let keys = copy_keys(&listed);
    let mut left = map;
    let mut entries: Vec<(K, V)> = Vec::with_capacity(keys.len());
    let mut i: usize = 0;
    proof {
        lemma_listed_keys(pairs, whole);
    }
    while i < keys.len()
        invariant
            i <= keys@.len(),
            pairs.len() == keys@.len(),
            forall|j: int| 0 <= j < keys@.len() ==> #[trigger] keys@[j] == pairs[j].0,
            distinct(pairs),
            entries@ =~= pairs.take(i as int),
            forall|j: int|
                i <= j < pairs.len() ==> left@.contains_key((#[trigger] pairs[j]).0)
                    && left@[pairs[j].0] == pairs[j].1,
        decreases keys@.len() - i,
    {
        proof {
            K::lawful_key();
            S::lawful_hasher();
            assert(pairs[i as int] == (keys@[i as int], left@[keys@[i as int]]));
        }
        let key = keys[i];
        match left.remove(&key) {
            Some(value) => {
                entries.push((key, value));
            },
            None => {},
        }
        i = i + 1;
    }
    assert(entries@ =~= pairs);
    entries
}

impl<'a, K, V, S> IntoVal for &'a HashMap<K, V, S> where
    K: HashEqMarker,
    S: BuildHasherDefaultMarker,
    &'a K: IntoVal,
    &'a V: IntoVal,
 {
    open spec fn to_val(self, h: Store) -> (Store, GResult<Val>) {
        tabled(entered_all::<&K, &V>(h, ref_pairs(hash_pairs(*self))))
    }

    fn into_val(self, heap: &mut Heap) -> (r: GResult<Val>)
        ensures
            lists(hash_pairs(*self), self@),
    {
        let entries = hash_entries(self);
        enter_all::<&'a K, &'a V>(entries, heap)
    }

    fn into_slot(self, heap: &mut Heap) -> (r: GResult<Slot>)
        ensures
            lists(hash_pairs(*self), self@),
    {
        match self.into_val(heap) {
            Ok(val) => Ok(Slot::from_val(&val)),
            Err(e) => Err(e),
        }
    }
}

impl<K, V, S> IntoVal for HashMap<K, V, S> where
    K: HashEqMarker + Copy + IntoVal,
    V: IntoVal,
    S: BuildHasherDefaultMarker,
 {
    open spec fn to_val(self, h: Store) -> (Store, GResult<Val>) {
        tabled(entered_all(h, hash_pairs(self)))
    }

    fn into_val(self, heap: &mut Heap) -> (r: GResult<Val>)
        ensures
            lists(hash_pairs(self), self@),
    {
        enter_all(hash_unload(self), heap)
    }

    fn into_slot(self, heap: &mut Heap) -> (r: GResult<Slot>)
        ensures
            lists(hash_pairs(self), self@),
    {
        match self.into_val(heap) {
            Ok(val) => Ok(Slot::from_val(&val)),
            Err(e) => Err(e),
        }
    }
}

impl<K, V, S> IntoValMut for HashMap<K, V, S> where
    K: HashEqMarker + Copy,
    for <'b>&'b K: IntoVal,
    V: IntoValMut,
    S: BuildHasherDefaultMarker,
 {
    open spec fn mut_to_val(self, h: Store) -> (Store, GResult<Val>) {
        tabled(mut_entered_all::<K, V>(h, hash_pairs(self)))
    }

    open spec fn leaves(self, h: Store, after: Self) -> bool {
        values_left::<K, V>(h, hash_pairs(self), self@, after@)
    }

    fn into_val_mut(&mut self, heap: &mut Heap) -> (r: GResult<Val>)
        ensures
            lists(hash_pairs(*old(self)), old(self)@),
    {
        let ghost h = heap@;
        let ghost pairs = hash_pairs(*self);
        let ghost whole = self@;
        let listed = hash_entries(&*self);
        let keys = copy_keys(&listed);
        let mut entries: Vec<(Slot, Slot)> = Vec::new();
        let mut failure: Option<GError> = None;
        let mut i: usize = 0;
        proof {
            lemma_listed_keys(pairs, whole);
            assert(pairs.take(0) =~= seq![]);
        }
        while i < keys.len() && failure.is_none()
            invariant
                i <= keys@.len(),
                h == old(heap)@,
                pairs.len() == keys@.len(),
                forall|j: int| 0 <= j < keys@.len() ==> #[trigger] keys@[j] == pairs[j].0,
                distinct(pairs),
                self@.dom() == whole.dom(),
                forall|j: int|
                    0 <= j < pairs.len() ==> self@.contains_key((#[trigger] pairs[j]).0),
                forall|j: int|
                    i <= j < pairs.len() ==> self@[(#[trigger] pairs[j]).0] == pairs[j].1,
                forall|j: int|
                    0 <= j < i ==> value_left::<&K, V>(
                        mut_entered_all::<K, V>(h, pairs.take(j)),
                        &(#[trigger] pairs[j]).0,
                        pairs[j].1,
                        self@[pairs[j].0],
                    ),
                match failure {
                    None => (heap@, Ok::<Seq<(Slot, Slot)>, GError>(entries@)) == mut_entered_all::<
                        K,
                        V,
                    >(h, pairs.take(i as int)),
                    Some(e) => (heap@, Err::<Seq<(Slot, Slot)>, GError>(e)) == mut_entered_all::<
                        K,
                        V,
                    >(h, pairs.take(i as int)),
                },
            decreases keys@.len() - i,
        {
            let ghost now = self@;
            let key = keys[i];
            proof {
                K::lawful_key();
                S::lawful_hasher();
                assert(pairs.take(i + 1).drop_last() =~= pairs.take(i as int));
                assert(pairs.take(i + 1).last() == pairs[i as int]);
                assert(pairs[i as int].0 == keys@[i as int]);
                assert(now.contains_key(pairs[i as int].0));
            }
            match (&key).into_slot(heap) {
                Err(e) => {
                    failure = Some(e);
                },
                Ok(key_slot) => match self.remove(&key) {
                    Some(value) => {
                        let mut value = value;
                        match value.into_val_mut(heap) {
                            Ok(val) => set_entry(&mut entries, key_slot, Slot::from_val(&val)),
                            Err(e) => {
                                failure = Some(e);
                            },
                        }
                        self.insert(key, value);
                        assert(self@.dom() =~= now.dom());
                    },
                    None => {},
                },
            }
            i = i + 1;
        }
        proof {
            if failure is Some {
                lemma_mut_entered_all_failed::<K, V>(h, pairs, i as int);
                assert forall|j: int| 0 <= j < pairs.len() implies value_left::<&K, V>(
                    mut_entered_all::<K, V>(h, pairs.take(j)),
                    &(#[trigger] pairs[j]).0,
                    pairs[j].1,
                    self@[pairs[j].0],
                ) by {
                    if j >= i {
                        assert(pairs.take(j).take(i as int) =~= pairs.take(i as int));
                        lemma_mut_entered_all_failed::<K, V>(h, pairs.take(j), i as int);
                    }
                }
            } else {
                assert(pairs.take(i as int) =~= pairs);
            }
        }
        match failure {
            Some(e) => Err(e),
            None => Ok(Val::Tab(heap.alloc_tab(entries))),
        }
    }
}

/// Lists the entries of an ordered map, in the order of their keys:
/// every one of them, and nothing else.
pub fn btree_entries<'a, K, V>(map: &'a BTreeMap<K, V>) -> (entries: Vec<(&'a K, &'a V)>) where
    K: OrdMarker,

    ensures
        entries@ == ref_pairs(btree_pairs(*map)),
        lists(btree_pairs(*map), map@),
        ascending(btree_pairs(*map)),
{
    proof {
        K::lawful_order();
    }
    let ghost pairs = btree_pairs(*map);
    let mut entries: Vec<(&'a K, &'a V)> = Vec::new();
    let iter = map.iter();
    proof {
        assert(pairs =~= iter.remaining().unref());
        assert(keys_of(pairs) =~= iter.remaining().map_values(|kv: (&K, &V)| *kv.0));
    }
    for (key, value) in it: iter
        invariant
            pairs == btree_pairs(*map),
            lists(pairs, map@),
            ascending(pairs),
            it.seq().unref() == pairs,
            entries@ =~= ref_pairs(pairs).take(it.index() as int),
    {
        proof {
            let k = it.index() as int;
            assert(it.seq().unref()[k] == (*it.seq()[k].0, *it.seq()[k].1));
        }
        entries.push((key, value));
    }
    assert(entries@ =~= ref_pairs(pairs));
    entries
}

/// Takes an ordered map apart into its entries, in the order of their keys.
fn btree_unload<K, V>(map: BTreeMap<K, V>) -> (entries: Vec<(K, V)>) where
    K: OrdMarker + Copy,

    ensures
        entries@ == btree_pairs(map),
        lists(btree_pairs(map), map@),
        ascending(btree_pairs(map)),
{
    let ghost pairs = btree_pairs(map);
    let ghost whole = map@;
    let listed = btree_entries(&map);
    let keys = copy_keys(&listed);
    let mut left = map;
    let mut entries: Vec<(K, V)> = Vec::with_capacity(keys.len());
    let mut i: usize = 0;
    proof {
        lemma_listed_keys(pairs, whole);
    }
    while i < keys.len()
        invariant
            i <= keys@.len(),
            pairs.len() == keys@.len(),
            forall|j: int| 0 <= j < keys@.len() ==> #[trigger] keys@[j] == pairs[j].0,
            distinct(pairs),
            entries@ =~= pairs.take(i as int),
            forall|j: int|
                i <= j < pairs.len() ==> left@.contains_key((#[trigger] pairs[j]).0)
                    && left@[pairs[j].0] == pairs[j].1,
        decreases keys@.len() - i,
    {
        proof {
            K::lawful_order();
            assert(pairs[i as int] == (keys@[i as int], left@[keys@[i as int]]));
        }
        let key = keys[i];
        match left.remove(&key) {
            Some(value) => {
                entries.push((key, value));
            },
            None => {},
        }
        i = i + 1;
    }
    assert(entries@ =~= pairs);
    entries
}

impl<'a, K, V> IntoVal for &'a BTreeMap<K, V> where
    K: OrdMarker,
    &'a K: IntoVal,
    &'a V: IntoVal,
 {
    open spec fn to_val(self, h: Store) -> (Store, GResult<Val>) {
        tabled(entered_all::<&K, &V>(h, ref_pairs(btree_pairs(*self))))
    }

    fn into_val(self, heap: &mut Heap) -> (r: GResult<Val>)
        ensures
            lists(btree_pairs(*self), self@),
            ascending(btree_pairs(*self)),
    {
        let entries = btree_entries(self);
        enter_all::<&'a K, &'a V>(entries, heap)
    }

    fn into_slot(self, heap: &mut Heap) -> (r: GResult<Slot>)
        ensures
            lists(btree_pairs(*self), self@),
            ascending(btree_pairs(*self)),
    {
        match self.into_val(heap) {
            Ok(val) => Ok(Slot::from_val(&val)),
            Err(e) => Err(e),
        }
    }
}

impl<K, V> IntoVal for BTreeMap<K, V> where
    K: OrdMarker + Copy + IntoVal,
    V: IntoVal,
 {
    open spec fn to_val(self, h: Store) -> (Store, GResult<Val>) {
        tabled(entered_all(h, btree_pairs(self)))
    }

    fn into_val(self, heap: &mut Heap) -> (r: GResult<Val>)
        ensures
            lists(btree_pairs(self), self@),
            ascending(btree_pairs(self)),
    {
        enter_all(btree_unload(self), heap)
    }

    fn into_slot(self, heap: &mut Heap) -> (r: GResult<Slot>)
        ensures
            lists(btree_pairs(self), self@),
            ascending(btree_pairs(self)),
    {
        match self.into_val(heap) {
            Ok(val) => Ok(Slot::from_val(&val)),
            Err(e) => Err(e),
        }
    }
}

impl<K, V> IntoValMut for BTreeMap<K, V> where
    K: OrdMarker + Copy,
    for <'b>&'b K: IntoVal,
    V: IntoValMut,
 {
    open spec fn mut_to_val(self, h: Store) -> (Store, GResult<Val>) {
        tabled(mut_entered_all::<K, V>(h, btree_pairs(self)))
    }

    open spec fn leaves(self, h: Store, after: Self) -> bool {
        values_left::<K, V>(h, btree_pairs(self), self@, after@)
    }

    fn into_val_mut(&mut self, heap: &mut Heap) -> (r: GResult<Val>)
        ensures
            lists(btree_pairs(*old(self)), old(self)@),
            ascending(btree_pairs(*old(self))),
    {
        let ghost h = heap@;
        let ghost pairs = btree_pairs(*self);
        let ghost whole = self@;
        let listed = btree_entries(&*self);
        let keys = copy_keys(&listed);
        let mut entries: Vec<(Slot, Slot)> = Vec::new();
        let mut failure: Option<GError> = None;
        let mut i: usize = 0;
        proof {
            lemma_listed_keys(pairs, whole);
            assert(pairs.take(0) =~= seq![]);
        }
        while i < keys.len() && failure.is_none()
            invariant
                i <= keys@.len(),
                h == old(heap)@,
                pairs.len() == keys@.len(),
                forall|j: int| 0 <= j < keys@.len() ==> #[trigger] keys@[j] == pairs[j].0,
                distinct(pairs),
                self@.dom() == whole.dom(),
                forall|j: int|
                    0 <= j < pairs.len() ==> self@.contains_key((#[trigger] pairs[j]).0),
                forall|j: int|
                    i <= j < pairs.len() ==> self@[(#[trigger] pairs[j]).0] == pairs[j].1,
                forall|j: int|
                    0 <= j < i ==> value_left::<&K, V>(
                        mut_entered_all::<K, V>(h, pairs.take(j)),
                        &(#[trigger] pairs[j]).0,
                        pairs[j].1,
                        self@[pairs[j].0],
                    ),
                match failure {
                    None => (heap@, Ok::<Seq<(Slot, Slot)>, GError>(entries@)) == mut_entered_all::<
                        K,
                        V,
                    >(h, pairs.take(i as int)),
                    Some(e) => (heap@, Err::<Seq<(Slot, Slot)>, GError>(e)) == mut_entered_all::<
                        K,
                        V,
                    >(h, pairs.take(i as int)),
                },
            decreases keys@.len() - i,
        {
            let ghost now = self@;
            let key = keys[i];
            proof {
                K::lawful_order();
                assert(pairs.take(i + 1).drop_last() =~= pairs.take(i as int));
                assert(pairs.take(i + 1).last() == pairs[i as int]);
                assert(pairs[i as int].0 == keys@[i as int]);
                assert(now.contains_key(pairs[i as int].0));
            }
            match (&key).into_slot(heap) {
                Err(e) => {
                    failure = Some(e);
                },
                Ok(key_slot) => match self.remove(&key) {
                    Some(value) => {
                        let mut value = value;
                        match value.into_val_mut(heap) {
                            Ok(val) => set_entry(&mut entries, key_slot, Slot::from_val(&val)),
                            Err(e) => {
                                failure = Some(e);
                            },
                        }
                        self.insert(key, value);
                        assert(self@.dom() =~= now.dom());
                    },
                    None => {},
                },
            }
            i = i + 1;
        }
        proof {
            if failure is Some {
                lemma_mut_entered_all_failed::<K, V>(h, pairs, i as int);
                assert forall|j: int| 0 <= j < pairs.len() implies value_left::<&K, V>(
                    mut_entered_all::<K, V>(h, pairs.take(j)),
                    &(#[trigger] pairs[j]).0,
                    pairs[j].1,
                    self@[pairs[j].0],
                ) by {
                    if j >= i {
                        assert(pairs.take(j).take(i as int) =~= pairs.take(i as int));
                        lemma_mut_entered_all_failed::<K, V>(h, pairs.take(j), i as int);
                    }
                }
            } else {
                assert(pairs.take(i as int) =~= pairs);
            }
        }
        match failure {
            Some(e) => Err(e),
            None => Ok(Val::Tab(heap.alloc_tab(entries))),
        }
    }
}

} // verus!
