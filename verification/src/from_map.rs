//! `FromVal` for maps: each is filled from the entries of a table.

use std::collections::{BTreeMap, HashMap};

use vstd::prelude::*;

use crate::error::{Expected, GError, GResult, MapType};
use crate::from_val::{FromVal, Modelled, Plain};
use crate::marker::{BuildHasherDefaultMarker, HashEqMarker, OrdMarker, StaticMarker};
use crate::store::{Heap, Store};
use crate::value::{Slot, Val};

verus! {

/// `HashMap::with_capacity_and_hasher`: a map without entries.
pub assume_specification<K, V, S>[ std::collections::HashMap::<
    K,
    V,
    S,
>::with_capacity_and_hasher ](capacity: usize, hash_builder: S) -> (m: std::collections::HashMap<
    K,
    V,
    S,
>)
    ensures
        m@ == (Map::<K, V>::empty()),
;

/// The entries of the table that a value is.
pub open spec fn entries_of(h: Store, v: Val, expected: Expected) -> GResult<Seq<(Slot, Slot)>> {
    match v {
        Val::Tab(root) => h.tab(root),
        _ => Err(GError::WrongType { expected, received: v.type_of() }),
    }
}

/// The map that `entries` become, up to the first that fails: of each, the key and then the value
/// is converted, and no key may come twice.
pub open spec fn gathered<K: FromVal + Plain, V: FromVal>(
    h: Store,
    entries: Seq<(Slot, Slot)>,
    map_type: MapType,
) -> GResult<Map<K, V::Model>>
    decreases entries.len(),
{
    if entries.len() == 0 {
        Ok(Map::empty())
    } else {
        match gathered::<K, V>(h, entries.drop_last(), map_type) {
            Err(e) => Err(e),
            Ok(map) => match K::of_val(h, entries.last().0.val()) {
                Err(e) => Err(e),
                Ok(key) => match V::of_val(h, entries.last().1.val()) {
                    Err(e) => Err(e),
                    Ok(value) => if map.contains_key(key) {
                        Err(GError::DuplicateKey { expected: map_type })
                    } else {
                        Ok(map.insert(key, value))
                    },
                },
            },
        }
    }
}

/// The map that the entries of the table become.
pub open spec fn map_of<K: FromVal + Plain, V: FromVal>(
    h: Store,
    v: Val,
    expected: Expected,
    map_type: MapType,
) -> GResult<Map<K, V::Model>> {
    match entries_of(h, v, expected) {
        Err(e) => Err(e),
        Ok(entries) => gathered::<K, V>(h, entries, map_type),
    }
}

/// What a map of host values stands for.
pub open spec fn map_model<K, V: Modelled>(map: Map<K, V>) -> Map<K, V::Model> {
    map.map_values(|value: V| value.model())
}

/// A map that could not be filled further stays so.
proof fn lemma_gathered_failed<K: FromVal + Plain, V: FromVal>(
    h: Store,
    entries: Seq<(Slot, Slot)>,
    map_type: MapType,
    k: int,
)
    requires
        0 <= k <= entries.len(),
        gathered::<K, V>(h, entries.take(k), map_type) is Err,
    ensures
        gathered::<K, V>(h, entries, map_type) == gathered::<K, V>(h, entries.take(k), map_type),
    decreases entries.len(),
{
    if k < entries.len() {
        assert(entries.drop_last().take(k) =~= entries.take(k));
        lemma_gathered_failed::<K, V>(h, entries.drop_last(), map_type, k);
    } else {
        assert(entries.take(k) =~= entries);
    }
}

/// Looks up the entries of the table that a value is.
fn read_entries<'a>(heap: &'a Heap, val: &Val, expected: Expected) -> (r: GResult<
    &'a Vec<(Slot, Slot)>,
>)
    ensures
        match r {
            Ok(entries) => entries_of(heap@, *val, expected) == Ok::<Seq<(Slot, Slot)>, GError>(
                entries@,
            ),
            Err(e) => entries_of(heap@, *val, expected) == Err::<Seq<(Slot, Slot)>, GError>(e),
        },
{
    match *val {
        Val::Tab(root) => heap.tab(root),
        _ => Err(GError::WrongType { expected, received: val.val_type() }),
    }
}

impl<K, V: Modelled, S> Modelled for HashMap<K, V, S> {
    type Model = Map<K, V::Model>;

    open spec fn model(self) -> Map<K, V::Model> {
        map_model(self@)
    }
}

impl<K, V, S> FromVal for HashMap<K, V, S> where
    K: HashEqMarker + FromVal + Plain,
    V: FromVal,
    S: BuildHasherDefaultMarker + StaticMarker,
 {
    open spec fn of_val(h: Store, v: Val) -> GResult<Map<K, V::Model>> {
        map_of::<K, V>(h, v, Expected::HashMap, MapType::HashMap)
    }

    fn from_val(heap: &Heap, val: &Val) -> (r: GResult<HashMap<K, V, S>>) {
        proof {
            K::lawful_key();
            S::lawful_hasher();
        }
        let entries = match read_entries(heap, val, Expected::HashMap) {
            Ok(entries) => entries,
            Err(e) => return Err(e),
        };
        let ghost all = entries@;
        let mut map: HashMap<K, V, S> = HashMap::with_capacity_and_hasher(
            entries.len(),
            S::default(),
        );
        let mut i: usize = 0;
        proof {
            assert(all.take(0) =~= seq![]);
            assert(map_model(map@) =~= Map::<K, V::Model>::empty());
        }
        while i < entries.len()
            invariant
                i <= entries.len(),
                all == entries@,
                entries_of(heap@, *val, Expected::HashMap) == Ok::<Seq<(Slot, Slot)>, GError>(all),
                gathered::<K, V>(heap@, all.take(i as int), MapType::HashMap) == Ok::<
                    Map<K, V::Model>,
                    GError,
                >(map_model(map@)),
            decreases entries.len() - i,
        {
            let ghost before = map@;
            proof {
                K::lawful_key();
                S::lawful_hasher();
                assert(all.take(i + 1).drop_last() =~= all.take(i as int));
            }
            let key = match K::from_slot(heap, &entries[i].0) {
                Ok(key) => key,
                Err(e) => {
                    proof {
                        lemma_gathered_failed::<K, V>(heap@, all, MapType::HashMap, i + 1);
                    }
                    return Err(e);
                },
            };
            let value = match V::from_slot(heap, &entries[i].1) {
                Ok(value) => value,
                Err(e) => {
                    proof {
                        lemma_gathered_failed::<K, V>(heap@, all, MapType::HashMap, i + 1);
                    }
                    return Err(e);
                },
            };
            let ghost (k, v) = (key, value);
            proof {
                key.stands_for_itself();
            }
            if map.insert(key, value).is_some() {
                proof {
                    lemma_gathered_failed::<K, V>(heap@, all, MapType::HashMap, i + 1);
                }
                return Err(GError::DuplicateKey { expected: MapType::HashMap });
            }
            assert(map_model(map@) =~= map_model(before).insert(k, v.model()));
            i = i + 1;
        }
        proof {
            assert(all.take(i as int) =~= all);
        }
        Ok(map)
    }
}

impl<K, V: Modelled> Modelled for BTreeMap<K, V> {
    type Model = Map<K, V::Model>;

    open spec fn model(self) -> Map<K, V::Model> {
        map_model(self@)
    }
}

impl<K, V> FromVal for BTreeMap<K, V> where
    K: OrdMarker + FromVal + Plain,
    V: FromVal,
 {
    open spec fn of_val(h: Store, v: Val) -> GResult<Map<K, V::Model>> {
        map_of::<K, V>(h, v, Expected::BTreeMap, MapType::BTreeMap)
    }

    fn from_val(heap: &Heap, val: &Val) -> (r: GResult<BTreeMap<K, V>>) {
        proof {
            K::lawful_order();
        }
        let entries = match read_entries(heap, val, Expected::BTreeMap) {
            Ok(entries) => entries,
            Err(e) => return Err(e),
        };
        let ghost all = entries@;
        let mut map: BTreeMap<K, V> = BTreeMap::new();
        let mut i: usize = 0;
        proof {
            assert(all.take(0) =~= seq![]);
            assert(map_model(map@) =~= Map::<K, V::Model>::empty());
        }
        while i < entries.len()
            invariant
                i <= entries.len(),
                all == entries@,
                entries_of(heap@, *val, Expected::BTreeMap) == Ok::<Seq<(Slot, Slot)>, GError>(all),
                gathered::<K, V>(heap@, all.take(i as int), MapType::BTreeMap) == Ok::<
                    Map<K, V::Model>,
                    GError,
                >(map_model(map@)),
            decreases entries.len() - i,
        {
            let ghost before = map@;
            proof {
                K::lawful_order();
                assert(all.take(i + 1).drop_last() =~= all.take(i as int));
            }
            let key = match K::from_slot(heap, &entries[i].0) {
                Ok(key) => key,
                Err(e) => {
                    proof {
                        lemma_gathered_failed::<K, V>(heap@, all, MapType::BTreeMap, i + 1);
                    }
                    return Err(e);
                },
            };
            let value = match V::from_slot(heap, &entries[i].1) {
                Ok(value) => value,
                Err(e) => {
                    proof {
                        lemma_gathered_failed::<K, V>(heap@, all, MapType::BTreeMap, i + 1);
                    }
                    return Err(e);
                },
            };
            let ghost (k, v) = (key, value);
            proof {
                key.stands_for_itself();
            }
            if map.insert(key, value).is_some() {
                proof {
                    lemma_gathered_failed::<K, V>(heap@, all, MapType::BTreeMap, i + 1);
                }
                return Err(GError::DuplicateKey { expected: MapType::BTreeMap });
            }
            assert(map_model(map@) =~= map_model(before).insert(k, v.model()));
            i = i + 1;
        }
        proof {
            assert(all.take(i as int) =~= all);
        }
        Ok(map)
    }
}

} // verus!
