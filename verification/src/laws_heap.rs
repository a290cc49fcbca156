//! What holds of the heap: what is put on it is found again, and borrows exclude each other.

use vstd::prelude::*;

use crate::error::{GError, TypeKey};
use crate::store::{begins, clashes, first_of, Guard, HostCell, Place, Store};
use crate::value::{Arr, RData, Raw, Root, Slot, Str, Sym, Tab, ValType};

verus! {

/// A new heap holds no objects, no globals and no borrows. The symbols that it knows have the names
/// that they stand for.
pub proof fn law_new_heap()
    ensures
        Store::empty().arrs.len() == 0,
        Store::empty().strs.len() == 0,
        Store::empty().tabs.len() == 0,
        Store::empty().rfns.len() == 0,
        Store::empty().gfns.len() == 0,
        Store::empty().classes.len() == 0,
        Store::empty().datas.len() == 0,
        Store::empty().globals.len() == 0,
        Store::empty().guards.len() == 0,
        Store::empty().types.len() == 0,
        Store::empty().syms.len() == 7,
        Store::empty().sym_name(Sym { id: 0 }) == "<"@,
        Store::empty().sym_name(Sym { id: 1 }) == "=="@,
        Store::empty().sym_name(Sym { id: 2 }) == ">"@,
        Store::empty().sym_name(Sym { id: 3 }) == "fresh"@,
        Store::empty().sym_name(Sym { id: 4 }) == "copied"@,
        Store::empty().sym_name(Sym { id: 5 }) == "infinite"@,
        Store::empty().sym_name(Sym { id: 6 }) == "unknown"@,
{
}

/// A new array is found under its own handle, as it was made; every array that was there before is
/// found as before, and nothing else has changed.
pub proof fn law_new_array(h: Store, items: Seq<Slot>, other: Root<Arr>)
    requires
        h.arrs.len() < usize::MAX,
    ensures
        h.next_arr().id == h.arrs.len(),
        h.with_arr(items).arr(h.next_arr()) == Ok::<Seq<Slot>, GError>(items),
        other.id < h.arrs.len() ==> h.with_arr(items).arr(other) == h.arr(other),
        h.with_arr(items) == (Store { arrs: h.arrs.push(items), ..h }),
{
}

/// A new string is found under its own handle, as it was made; every string that was there before
/// is found as before, and nothing else has changed.
pub proof fn law_new_string(h: Store, chars: Seq<char>, other: Root<Str>)
    requires
        h.strs.len() < usize::MAX,
    ensures
        h.next_str().id == h.strs.len(),
        h.with_str(chars).str(h.next_str()) == Ok::<Seq<char>, GError>(chars),
        other.id < h.strs.len() ==> h.with_str(chars).str(other) == h.str(other),
        h.with_str(chars) == (Store { strs: h.strs.push(chars), ..h }),
{
}

/// A new table is found under its own handle, as it was made; every table that was there before is
/// found as before, and nothing else has changed.
pub proof fn law_new_table(h: Store, entries: Seq<(Slot, Slot)>, other: Root<Tab>)
    requires
        h.tabs.len() < usize::MAX,
    ensures
        h.next_tab().id == h.tabs.len(),
        h.with_tab(entries).tab(h.next_tab()) == Ok::<Seq<(Slot, Slot)>, GError>(entries),
        other.id < h.tabs.len() ==> h.with_tab(entries).tab(other) == h.tab(other),
        h.with_tab(entries) == (Store { tabs: h.tabs.push(entries), ..h }),
{
}

/// A new host value is borrowed under its own handle, as the one that it is, and nothing else has
/// changed.
pub proof fn law_new_data(h: Store, cell: HostCell, exclusive: bool)
    requires
        h.datas.len() < usize::MAX,
        forall|i: int|
            0 <= i < h.guards.len() ==> (#[trigger] h.guards[i]).place != Place::Data(
                h.datas.len() as usize,
            ),
    ensures
        h.next_data().id == h.datas.len(),
        h.with_data(cell) == (Store { datas: h.datas.push(cell), ..h }),
        h.with_data(cell).borrow_data(
            Raw { id: h.next_data().id, kind: RData },
            cell.type_key,
            exclusive,
        ).1 == Ok::<u64, GError>(cell.payload),
{
}

/// A handle is good exactly where the heap has that many objects of its kind, and then it gives the
/// object of its own number. Any other is answered with an error that tells its kind.
pub proof fn law_handles(h: Store, arr: Root<Arr>, str: Root<Str>, tab: Root<Tab>)
    ensures
        arr.id < h.arrs.len() ==> h.arr(arr) == Ok::<Seq<Slot>, GError>(h.arrs[arr.id as int]),
        arr.id >= h.arrs.len() ==> h.arr(arr) == Err::<Seq<Slot>, GError>(
            GError::StaleHandle { received: ValType::Arr },
        ),
        str.id < h.strs.len() ==> h.str(str) == Ok::<Seq<char>, GError>(h.strs[str.id as int]),
        str.id >= h.strs.len() ==> h.str(str) == Err::<Seq<char>, GError>(
            GError::StaleHandle { received: ValType::Str },
        ),
        tab.id < h.tabs.len() ==> h.tab(tab) == Ok::<Seq<(Slot, Slot)>, GError>(
            h.tabs[tab.id as int],
        ),
        tab.id >= h.tabs.len() ==> h.tab(tab) == Err::<Seq<(Slot, Slot)>, GError>(
            GError::StaleHandle { received: ValType::Tab },
        ),
{
}

/// Symbols and host types are known by the names under which they were made known, and those that
/// were not by none.
pub proof fn law_names(h: Store, sym: Sym, key: TypeKey)
    ensures
        sym.id < h.syms.len() ==> h.sym_name(sym) == h.syms[sym.id as int],
        sym.id >= h.syms.len() ==> h.sym_name(sym).len() == 0,
        key.id < h.types.len() ==> h.name_of_type(key) == h.types[key.id as int],
        key.id >= h.types.len() ==> h.name_of_type(key).len() == 0,
{
}

/// Many shared borrows of one place can be in force, but an exclusive one only alone: what rules
/// out a borrow is any borrow of the same place, if one of the two is exclusive, and nothing else.
pub proof fn law_borrows_exclude(guards: Seq<Guard>, place: Place, exclusive: bool, i: int)
    ensures
        0 <= i < guards.len() && guards[i].place == place && (exclusive || guards[i].exclusive)
            ==> clashes(guards, place, exclusive),
        (forall|j: int|
            0 <= j < guards.len() ==> (#[trigger] guards[j]).place != place || (!exclusive
                && !guards[j].exclusive)) ==> !clashes(guards, place, exclusive),
{
}

/// A host value is borrowed from the heap by its own number, as one of its own type, unless a
/// borrow in force rules that out. The borrow is in force from then on, and nothing else has
/// changed.
pub proof fn law_borrowed_data(h: Store, raw: Raw<RData>, key: TypeKey, exclusive: bool)
    ensures
        raw.id < h.datas.len() && h.datas[raw.id as int].type_key == key && (forall|i: int|
            0 <= i < h.guards.len() ==> (#[trigger] h.guards[i]).place != Place::Data(raw.id) || (
            !exclusive && !h.guards[i].exclusive)) ==> h.borrow_data(raw, key, exclusive) == (
            Store {
                guards: h.guards.push(Guard { place: Place::Data(raw.id), exclusive }),
                ..h
            },
            Ok::<u64, GError>(h.datas[raw.id as int].payload),
        ),
{
}

/// A host value that cannot be borrowed is left alone, and the reason is told: there is none of
/// that number, or it is of another type, or a borrow in force rules it out.
pub proof fn law_data_refused(
    h: Store,
    raw: Raw<RData>,
    key: TypeKey,
    exclusive: bool,
    in_force: int,
)
    ensures
        raw.id >= h.datas.len() ==> h.borrow_data(raw, key, exclusive) == (
            h,
            Err::<u64, GError>(GError::StaleHandle { received: ValType::RData }),
        ),
        raw.id < h.datas.len() && h.datas[raw.id as int].type_key != key ==> h.borrow_data(
            raw,
            key,
            exclusive,
        ) == (
            h,
            Err::<u64, GError>(
                GError::WrongData { expected: key, received: h.datas[raw.id as int].type_key },
            ),
        ),
        raw.id < h.datas.len() && h.datas[raw.id as int].type_key == key && 0 <= in_force
            < h.guards.len() && h.guards[in_force].place == Place::Data(raw.id) && (exclusive
            || h.guards[in_force].exclusive) ==> h.borrow_data(raw, key, exclusive) == (
            h,
            Err::<u64, GError>(GError::DataInUse { type_key: key }),
        ),
{
}

/// The first cell of a type is the one that is found.
proof fn lemma_first_of(cells: Seq<HostCell>, key: TypeKey, at: int)
    requires
        0 <= at <= cells.len(),
        at < cells.len() ==> cells[at].type_key == key,
        forall|i: int| 0 <= i < at ==> (#[trigger] cells[i]).type_key != key,
    ensures
        first_of(cells, key) == at,
    decreases cells.len(),
{
    if cells.len() > 0 {
        let fewer = cells.drop_last();
        if at < cells.len() {
            if at < fewer.len() {
                assert(fewer[at] == cells[at]);
            }
            assert forall|i: int| 0 <= i < at implies (#[trigger] fewer[i]).type_key != key by {
                assert(fewer[i] == cells[i]);
            }
            lemma_first_of(fewer, key, at);
        } else {
            assert forall|i: int| 0 <= i < fewer.len() implies (#[trigger] fewer[i]).type_key
                != key by {
                assert(fewer[i] == cells[i]);
            }
            lemma_first_of(fewer, key, fewer.len() as int);
        }
    }
}

/// The global of a type is the first of that type that was made known. It is borrowed unless a
/// borrow in force rules that out: what comes back is its own token, and the borrow that is in
/// force from then on is of the same global. Nothing else changes.
pub proof fn law_borrowed_global(h: Store, key: TypeKey, exclusive: bool, at: int)
    requires
        0 <= at < h.globals.len(),
        at <= usize::MAX,
        h.globals[at].type_key == key,
        forall|i: int| 0 <= i < at ==> (#[trigger] h.globals[i]).type_key != key,
    ensures
        (forall|i: int|
            0 <= i < h.guards.len() ==> (#[trigger] h.guards[i]).place != Place::Global(at as usize)
                || (!exclusive && !h.guards[i].exclusive)) ==> h.borrow_global(key, exclusive) == (
            Store {
                guards: h.guards.push(Guard { place: Place::Global(at as usize), exclusive }),
                ..h
            },
            Ok::<u64, GError>(h.globals[at].payload),
        ),
        (exists|i: int|
            0 <= i < h.guards.len() && (#[trigger] h.guards[i]).place == Place::Global(at as usize)
                && (exclusive || h.guards[i].exclusive)) ==> h.borrow_global(key, exclusive) == (
            h,
            Err::<u64, GError>(GError::GlobalInUse { type_key: key }),
        ),
{
    lemma_first_of(h.globals, key, at);
}

/// Where there is no global of a type, none is borrowed.
pub proof fn law_no_such_global(h: Store, key: TypeKey, exclusive: bool)
    requires
        forall|i: int| 0 <= i < h.globals.len() ==> (#[trigger] h.globals[i]).type_key != key,
    ensures
        h.borrow_global(key, exclusive) == (
            h,
            Err::<u64, GError>(GError::NoSuchGlobal { type_key: key }),
        ),
{
    lemma_first_of(h.globals, key, h.globals.len() as int);
}

/// A borrow of a global that succeeds is a borrow of a global of that very type.
pub proof fn law_global_is_of_its_type(h: Store, key: TypeKey, exclusive: bool)
    requires
        h.borrow_global(key, exclusive).1 is Ok,
    ensures
        exists|i: int|
            #![trigger h.globals[i]]
            {
                &&& 0 <= i < h.globals.len()
                &&& h.globals[i].type_key == key
                &&& h.borrow_global(key, exclusive).1 == Ok::<u64, GError>(h.globals[i].payload)
                &&& forall|j: int| 0 <= j < i ==> (#[trigger] h.globals[j]).type_key != key
                &&& h.borrow_global(key, exclusive).0.guards.last().place == Place::Global(
                    i as usize,
                )
            },
{
    let at = lemma_some_first(h.globals, key);
    lemma_first_of(h.globals, key, at);
    assert(h.globals[at].type_key == key);
}

/// Finds the first cell of a type, or the end.
proof fn lemma_some_first(cells: Seq<HostCell>, key: TypeKey) -> (at: int)
    ensures
        0 <= at <= cells.len(),
        at < cells.len() ==> cells[at].type_key == key,
        forall|i: int| 0 <= i < at ==> (#[trigger] cells[i]).type_key != key,
    decreases cells.len(),
{
    if cells.len() == 0 {
        0
    } else {
        let fewer = cells.drop_last();
        let at = lemma_some_first(fewer, key);
        assert forall|i: int| 0 <= i < at implies (#[trigger] cells[i]).type_key != key by {
            assert(fewer[i] == cells[i]);
        }
        if at < fewer.len() {
            assert(fewer[at] == cells[at]);
            at
        } else if cells.last().type_key == key {
            at
        } else {
            at + 1
        }
    }
}

/// To release what was borrowed since a mark is to keep the borrows that were in force at it, and
/// those alone. Nothing else changes.
pub proof fn law_release(h: Store, mark: nat)
    ensures
        mark <= h.guards.len() ==> h.released(mark as int).guards.len() == mark,
        mark > h.guards.len() ==> h.released(mark as int).guards.len() == h.guards.len(),
        forall|i: int|
            0 <= i < mark && i < h.guards.len() ==> #[trigger] h.released(mark as int).guards[i]
                == h.guards[i],
        h.released(mark as int) == (Store { guards: h.released(mark as int).guards, ..h }),
{
}

/// A borrow that is given back leaves the heap as it was.
pub proof fn law_borrow_and_release(h: Store, raw: Raw<RData>, key: TypeKey, exclusive: bool)
    ensures
        h.borrow_data(raw, key, exclusive).0.released(h.guards.len() as int) == h,
        h.borrow_global(key, exclusive).0.released(h.guards.len() as int) == h,
{
    assert(h.borrow_data(raw, key, exclusive).0.released(h.guards.len() as int) =~= h);
    assert(h.borrow_global(key, exclusive).0.released(h.guards.len() as int) =~= h);
}

/// A heap that only had objects added has every object that it had, under the same handle.
pub proof fn law_extended_heap(later: Store, h: Store)
    ensures
        later.extends(h) <==> {
            &&& h.arrs.len() <= later.arrs.len() && later.arrs.take(h.arrs.len() as int) =~= h.arrs
            &&& h.strs.len() <= later.strs.len() && later.strs.take(h.strs.len() as int) =~= h.strs
            &&& h.tabs.len() <= later.tabs.len() && later.tabs.take(h.tabs.len() as int) =~= h.tabs
            &&& h.datas.len() <= later.datas.len() && later.datas.take(h.datas.len() as int)
                =~= h.datas
            &&& later == (Store {
                arrs: later.arrs,
                strs: later.strs,
                tabs: later.tabs,
                datas: later.datas,
                ..h
            })
        },
{
    reveal(Store::extends);
    lemma_begins(later.arrs, h.arrs);
    lemma_begins(later.strs, h.strs);
    lemma_begins(later.tabs, h.tabs);
    lemma_begins(later.datas, h.datas);
}

proof fn lemma_begins<A>(s: Seq<A>, prefix: Seq<A>)
    ensures
        begins(s, prefix) <==> prefix.len() <= s.len() && s.take(prefix.len() as int) =~= prefix,
{
    if prefix.len() <= s.len() && s.take(prefix.len() as int) =~= prefix {
        assert forall|i: int| 0 <= i < prefix.len() implies s[i] == prefix[i] by {
            assert(s.take(prefix.len() as int)[i] == prefix[i]);
        }
    }
}

/// A heap on which only borrows have come into force is the same in all else, and the borrows that
/// were in force still are.
pub proof fn law_only_borrowed(later: Store, h: Store)
    ensures
        later.only_borrowed(h) <==> {
            &&& h.guards.len() <= later.guards.len()
            &&& later.guards.take(h.guards.len() as int) =~= h.guards
            &&& later == (Store { guards: later.guards, ..h })
        },
{
    lemma_begins(later.guards, h.guards);
}

} // verus!
