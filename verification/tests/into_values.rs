use std::cmp::Ordering;
use std::collections::{BTreeMap, HashMap, VecDeque};

use glsp_wrap::callable::Callable;
use glsp_wrap::error::{ForeignError, GError, GResult, TextType, TypeKey, WideInt};
use glsp_wrap::into_map::{btree_entries, hash_entries};
use glsp_wrap::into_val::{IntoVal, IntoValMut};
use glsp_wrap::marker::HostType;
use glsp_wrap::order::{ordering_into_slot, ordering_into_val};
use glsp_wrap::small::SmallList;
use glsp_wrap::store::{Heap, HostCell, Store};
use glsp_wrap::text::{CText, OsText, PathText};
use glsp_wrap::value::{
    Arr, Class, Deque, Expander, Flo, GFn, GIterLen, HostValue, Iterable, Num, Order, RData, RFn,
    RRoot, Root, Slot, Str, Sym, Tab, Val, GT_SYM, INFINITE_SYM, LT_SYM, NUM_EQ_SYM, UNKNOWN_SYM,
};

fn items(heap: &Heap, val: &Val) -> Vec<Slot> {
    match val {
        Val::Arr(root) => heap.arr(*root).unwrap().clone(),
        other => panic!("not an array: {:?}", other),
    }
}

fn chars(heap: &Heap, val: &Val) -> String {
    match val {
        Val::Str(root) => heap.str(*root).unwrap().iter().collect(),
        other => panic!("not a string: {:?}", other),
    }
}

fn entries(heap: &Heap, val: &Val) -> Vec<(Slot, Slot)> {
    match val {
        Val::Tab(root) => heap.tab(*root).unwrap().clone(),
        other => panic!("not a table: {:?}", other),
    }
}

#[test]
fn small_integers_become_ints() {
    let mut heap = Heap::new();
    assert_eq!((-128i8).into_val(&mut heap), Ok(Val::Int(-128)));
    assert_eq!((&300i16).into_val(&mut heap), Ok(Val::Int(300)));
    assert_eq!((&mut 7i32).into_val(&mut heap), Ok(Val::Int(7)));
    assert_eq!(255u8.into_slot(&mut heap), Ok(Slot::Int(255)));
    assert_eq!(65535u16.into_val(&mut heap), Ok(Val::Int(65535)));
}

#[test]
fn large_integers_become_ints_while_they_fit() {
    let mut heap = Heap::new();
    assert_eq!(i64::from(i32::MAX).into_val(&mut heap), Ok(Val::Int(i32::MAX)));
    assert_eq!(i128::from(i32::MIN).into_val(&mut heap), Ok(Val::Int(i32::MIN)));
    assert_eq!(12isize.into_val(&mut heap), Ok(Val::Int(12)));
    assert_eq!(0x7fff_ffffu32.into_val(&mut heap), Ok(Val::Int(i32::MAX)));
    assert_eq!(12u64.into_slot(&mut heap), Ok(Slot::Int(12)));
    assert_eq!((&12u128).into_val(&mut heap), Ok(Val::Int(12)));
    assert_eq!((&mut 12usize).into_val(&mut heap), Ok(Val::Int(12)));
}

#[test]
fn integers_outside_the_range_of_an_i32_are_refused() {
    let mut heap = Heap::new();
    let over = i64::from(i32::MAX) + 1;
    let under = i64::from(i32::MIN) - 1;
    assert_eq!(
        over.into_val(&mut heap),
        Err(GError::NotAnI32 { value: WideInt::Signed(2_147_483_648) })
    );
    assert_eq!(
        under.into_slot(&mut heap),
        Err(GError::NotAnI32 { value: WideInt::Signed(-2_147_483_649) })
    );
    assert_eq!(
        0x8000_0000u32.into_val(&mut heap),
        Err(GError::NotAnI32 { value: WideInt::Unsigned(2_147_483_648) })
    );
    assert_eq!(
        u128::MAX.into_val(&mut heap),
        Err(GError::NotAnI32 { value: WideInt::Unsigned(u128::MAX) })
    );
    assert_eq!(
        i128::MIN.into_val(&mut heap),
        Err(GError::NotAnI32 { value: WideInt::Signed(i128::MIN) })
    );
}

#[test]
fn other_scalars() {
    let mut heap = Heap::new();
    assert_eq!('x'.into_val(&mut heap), Ok(Val::Char('x')));
    assert_eq!(true.into_slot(&mut heap), Ok(Slot::Bool(true)));
    assert_eq!(Sym { id: 9 }.into_val(&mut heap), Ok(Val::Sym(Sym { id: 9 })));
    let half = Flo { bits: 0.5f32.to_bits() };
    assert_eq!(half.into_val(&mut heap), Ok(Val::Flo(half)));
    assert_eq!(Num::Int(3).into_val(&mut heap), Ok(Val::Int(3)));
    assert_eq!((&Num::Flo(half)).into_slot(&mut heap), Ok(Slot::Flo(half)));
    assert_eq!(().into_val(&mut heap), Ok(Val::Nil));
    assert_eq!((&()).into_slot(&mut heap), Ok(Slot::Nil));
}

#[test]
fn values_and_slots_are_left_as_they_are() {
    let mut heap = Heap::new();
    let root: Root<Arr> = heap.alloc_arr(vec![]);
    assert_eq!(Val::Arr(root).into_val(&mut heap), Ok(Val::Arr(root)));
    assert_eq!(Val::Arr(root).into_slot(&mut heap), Ok(Slot::Arr(root.to_raw())));
    assert_eq!(Slot::Arr(root.to_raw()).into_val(&mut heap), Ok(Val::Arr(root)));
    assert_eq!((&Slot::Nil).into_slot(&mut heap), Ok(Slot::Nil));
}

#[test]
fn handles_become_what_they_are() {
    let mut heap = Heap::new();
    let arr = heap.alloc_arr(vec![]);
    let st = heap.alloc_str(vec!['a']);
    assert_eq!(arr.into_val(&mut heap), Ok(Val::Arr(arr)));
    assert_eq!((&st).into_slot(&mut heap), Ok(Slot::Str(st.to_raw())));
    assert_eq!(st.to_raw().into_val(&mut heap), Ok(Val::Str(st)));
    assert_eq!((&st.to_raw()).into_val(&mut heap), Ok(Val::Str(st)));
    assert_eq!(Deque::Str(st).into_val(&mut heap), Ok(Val::Str(st)));
    assert_eq!(Iterable::Arr(arr).into_slot(&mut heap), Ok(Slot::Arr(arr.to_raw())));
    let class: Root<Class> = Root { id: 4, kind: Class };
    assert_eq!(Callable::Class(class).into_val(&mut heap), Ok(Val::Class(class)));
    let gfn: Root<GFn> = Root { id: 5, kind: GFn };
    assert_eq!((&Expander::GFn(gfn)).into_val(&mut heap), Ok(Val::GFn(gfn)));
    let rfn: Root<RFn> = Root { id: 6, kind: RFn };
    assert_eq!((&mut Callable::RFn(rfn)).into_val(&mut heap), Ok(Val::RFn(rfn)));
    let data: Root<RData> = Root { id: 7, kind: RData };
    let typed: RRoot<u8> = RRoot::new(data);
    assert_eq!((&typed).into_val(&mut heap), Ok(Val::RData(data)));
    assert_eq!(typed.into_slot(&mut heap), Ok(Slot::RData(data.to_raw())));
}

#[test]
fn lengths_of_iterators() {
    let mut heap = Heap::new();
    assert_eq!(GIterLen::Exact(5).into_val(&mut heap), Ok(Val::Int(5)));
    assert_eq!(GIterLen::Infinite.into_val(&mut heap), Ok(Val::Sym(Sym { id: INFINITE_SYM })));
    assert_eq!(GIterLen::Unknown.into_slot(&mut heap), Ok(Slot::Sym(Sym { id: UNKNOWN_SYM })));
}

#[test]
fn orderings_become_symbols() {
    let mut heap = Heap::new();
    assert_eq!(Order::Less.into_val(&mut heap), Ok(Val::Sym(Sym { id: LT_SYM })));
    assert_eq!(
        ordering_into_val(Ordering::Equal, &mut heap),
        Ok(Val::Sym(Sym { id: NUM_EQ_SYM }))
    );
    assert_eq!(
        ordering_into_slot(Ordering::Greater, &mut heap),
        Ok(Slot::Sym(Sym { id: GT_SYM }))
    );
    assert_eq!(heap.sym_name(Sym { id: GT_SYM }), ">");
}

#[test]
fn an_absent_value_becomes_nil() {
    let mut heap = Heap::new();
    assert_eq!(None::<i32>.into_val(&mut heap), Ok(Val::Nil));
    assert_eq!(Some(3i32).into_val(&mut heap), Ok(Val::Int(3)));
    assert_eq!((&Some('c')).into_slot(&mut heap), Ok(Slot::Char('c')));
    assert_eq!((&mut None::<bool>).into_slot(&mut heap), Ok(Slot::Nil));
}

#[test]
fn errors_of_the_engine_pass_through_untouched() {
    let mut heap = Heap::new();
    let ok: GResult<i32> = Ok(8);
    assert_eq!(ok.into_val(&mut heap), Ok(Val::Int(8)));
    let quiet: GResult<i32> = Err(GError::MacroNoOp);
    assert_eq!(quiet.into_val(&mut heap), Err(GError::MacroNoOp));
    let loud: GResult<i32> = Err(GError::Raised { token: 3 });
    assert_eq!(loud.into_slot(&mut heap), Err(GError::Raised { token: 3 }));
}

#[test]
fn errors_of_the_host_are_wrapped() {
    let mut heap = Heap::new();
    let io = heap.add_type("std::io::Error");
    let error = ForeignError { type_key: io, source: 77 };
    let failed: Result<i32, ForeignError> = Err(error);
    let got = failed.into_val(&mut heap).unwrap_err();
    assert_eq!(got, GError::Encountered { error });
    assert_eq!(got.message(&heap).unwrap(), "IntoVal encountered std::io::Error");
}

#[test]
fn sequences_become_arrays() {
    let mut heap = Heap::new();
    let expected = vec![Slot::Int(1), Slot::Int(2), Slot::Int(3)];
    let vec = vec![1u8, 2, 3].into_val(&mut heap).unwrap();
    assert_eq!(items(&heap, &vec), expected);
    let by_ref = (&vec![1u8, 2, 3]).into_val(&mut heap).unwrap();
    assert_eq!(items(&heap, &by_ref), expected);
    let by_mut = (&mut vec![1u8, 2, 3]).into_val(&mut heap).unwrap();
    assert_eq!(items(&heap, &by_mut), expected);
    let mut deque = VecDeque::new();
    deque.push_back(2u8);
    deque.push_back(3);
    deque.push_front(1);
    let by_ref = (&deque).into_val(&mut heap).unwrap();
    assert_eq!(items(&heap, &by_ref), expected);
    let owned = deque.into_val(&mut heap).unwrap();
    assert_eq!(items(&heap, &owned), expected);
    let array = [1i64, 2, 3].into_val(&mut heap).unwrap();
    assert_eq!(items(&heap, &array), expected);
    let slice = (&[1i64, 2, 3][..]).into_val(&mut heap).unwrap();
    assert_eq!(items(&heap, &slice), expected);
    let mut numbers = [1u16, 2, 3];
    let slice_mut = (&mut numbers[..]).into_val(&mut heap).unwrap();
    assert_eq!(items(&heap, &slice_mut), expected);
    assert_ne!(vec, owned);
}

#[test]
fn small_lists_become_arrays() {
    let mut heap = Heap::new();
    let list: SmallList<u8, 2> = SmallList::collect(vec![9, 8, 7]);
    assert_eq!(list.as_slice(), &[9, 8, 7]);
    let by_ref = (&list).into_val(&mut heap).unwrap();
    assert_eq!(items(&heap, &by_ref), vec![Slot::Int(9), Slot::Int(8), Slot::Int(7)]);
    let owned = list.into_val(&mut heap).unwrap();
    assert_eq!(items(&heap, &owned), vec![Slot::Int(9), Slot::Int(8), Slot::Int(7)]);
}

#[test]
fn the_first_item_that_fails_ends_a_sequence() {
    let mut heap = Heap::new();
    let numbers = vec![1i64, 5_000_000_000, 6_000_000_000];
    assert_eq!(
        numbers.into_val(&mut heap),
        Err(GError::NotAnI32 { value: WideInt::Signed(5_000_000_000) })
    );
}

#[test]
fn tuples_become_arrays() {
    let mut heap = Heap::new();
    let one = (1u8,).into_val(&mut heap).unwrap();
    assert_eq!(items(&heap, &one), vec![Slot::Int(1)]);
    let mixed = (0i32, 'a', true, None::<u8>).into_val(&mut heap).unwrap();
    assert_eq!(
        items(&heap, &mixed),
        vec![Slot::Int(0), Slot::Char('a'), Slot::Bool(true), Slot::Nil]
    );
    let by_ref = (&(1u8, 2u8)).into_val(&mut heap).unwrap();
    assert_eq!(items(&heap, &by_ref), vec![Slot::Int(1), Slot::Int(2)]);
    let by_mut = (&mut (1u8, 2u8)).into_val(&mut heap).unwrap();
    assert_eq!(items(&heap, &by_mut), vec![Slot::Int(1), Slot::Int(2)]);
    let twelve =
        (1u8, 2u8, 3u8, 4u8, 5u8, 6u8, 7u8, 8u8, 9u8, 10u8, 11u8, 12u8).into_val(&mut heap).unwrap();
    assert_eq!(items(&heap, &twelve).len(), 12);
    assert_eq!(items(&heap, &twelve)[11], Slot::Int(12));
}

#[test]
fn nested_sequences_share_nothing() {
    let mut heap = Heap::new();
    let outer = vec![vec![1u8], vec![2u8, 3]].into_val(&mut heap).unwrap();
    let inner: Vec<Vec<Slot>> =
        items(&heap, &outer).iter().map(|slot| items(&heap, &slot.root())).collect();
    assert_eq!(inner, vec![vec![Slot::Int(1)], vec![Slot::Int(2), Slot::Int(3)]]);
}

#[test]
fn text_becomes_strings() {
    let mut heap = Heap::new();
    let owned = "héllo".to_string().into_val(&mut heap).unwrap();
    assert_eq!(chars(&heap, &owned), "héllo");
    let slice = "an example string".into_val(&mut heap).unwrap();
    assert_eq!(chars(&heap, &slice), "an example string");
    let by_ref = (&"x".to_string()).into_val(&mut heap).unwrap();
    assert_eq!(chars(&heap, &by_ref), "x");
    let empty = "".into_val(&mut heap).unwrap();
    assert_eq!(chars(&heap, &empty), "");
}

#[test]
fn c_text_becomes_a_string_where_it_is_utf8() {
    let mut heap = Heap::new();
    let text = CText::new("né".as_bytes().to_vec()).unwrap();
    let val = (&text).into_val(&mut heap).unwrap();
    assert_eq!(chars(&heap, &val), "né");
    let noise = CText::new(vec![0xff, 0xfe]).unwrap();
    let error = noise.into_val(&mut heap).unwrap_err();
    assert_eq!(error, GError::NotUtf8 { received: TextType::CStr });
    assert_eq!(error.message(&heap).unwrap(), "CStr contained non-UTF-8 data");
    assert_eq!(CText::new(vec![65, 0, 66]).unwrap_err(), GError::InnerNul);
}

#[test]
fn os_text_and_paths_become_strings_where_they_are_text() {
    let mut heap = Heap::new();
    let os = OsText::new(Some("name".to_string()));
    let val = os.into_val(&mut heap).unwrap();
    assert_eq!(chars(&heap, &val), "name");
    let path = PathText::new(OsText::new(Some("a/b".to_string())));
    let val = (&path).into_val(&mut heap).unwrap();
    assert_eq!(chars(&heap, &val), "a/b");
    let error = PathText::new(OsText::new(None)).into_val(&mut heap).unwrap_err();
    assert_eq!(error, GError::NotUtf8 { received: TextType::OsStr });
    assert_eq!(error.message(&heap).unwrap(), "OsStr contained non-UTF-8 data");
}

#[test]
fn maps_become_tables() {
    let mut heap = Heap::new();
    let mut ordered: BTreeMap<i32, char> = BTreeMap::new();
    ordered.insert(2, 'b');
    ordered.insert(1, 'a');
    ordered.insert(3, 'c');
    let by_ref = (&ordered).into_val(&mut heap).unwrap();
    let expected = vec![
        (Slot::Int(1), Slot::Char('a')),
        (Slot::Int(2), Slot::Char('b')),
        (Slot::Int(3), Slot::Char('c')),
    ];
    assert_eq!(entries(&heap, &by_ref), expected);
    let owned = ordered.into_val(&mut heap).unwrap();
    assert_eq!(entries(&heap, &owned), expected);

    let mut hashed: HashMap<i32, char> = HashMap::new();
    hashed.insert(2, 'b');
    hashed.insert(1, 'a');
    let by_mut = (&mut hashed).into_val(&mut heap).unwrap();
    let got = entries(&heap, &by_mut);
    assert_eq!(got.len(), 2);
    assert!(got.contains(&(Slot::Int(1), Slot::Char('a'))));
    assert!(got.contains(&(Slot::Int(2), Slot::Char('b'))));
}

#[test]
fn a_map_whose_entries_cannot_be_converted_is_refused() {
    let mut heap = Heap::new();
    let mut map: BTreeMap<u64, i32> = BTreeMap::new();
    map.insert(1, 1);
    map.insert(9_000_000_000, 2);
    assert_eq!(
        map.into_val(&mut heap),
        Err(GError::NotAnI32 { value: WideInt::Unsigned(9_000_000_000) })
    );
}

struct Sprite;

impl HostType for Sprite {
    fn key() -> TypeKey {
        unreachable!()
    }

    fn is_global() -> bool {
        unreachable!()
    }

    fn type_key() -> TypeKey {
        TypeKey { id: 3 }
    }

    fn rglobal() -> bool {
        false
    }
}

#[test]
fn host_values_move_to_the_heap() {
    let mut heap = Heap::new();
    let val = HostValue::<Sprite>::new(42).into_val(&mut heap).unwrap();
    let root = match val {
        Val::RData(root) => root,
        other => panic!("not host data: {:?}", other),
    };
    assert_eq!(heap.borrow_data(root.to_raw(), TypeKey { id: 3 }, false), Ok(42));
    let again = heap.alloc_data(HostCell { type_key: TypeKey { id: 3 }, payload: 43 });
    assert_eq!(again.id, root.id + 1);
}

struct Rgb(u8, u8, u8);

impl IntoVal for Rgb {
    fn to_val(self, _: Store) -> (Store, GResult<Val>) {
        unreachable!()
    }

    fn into_val(self, heap: &mut Heap) -> GResult<Val> {
        let Rgb(r, g, b) = self;
        (r, g, b).into_val(heap)
    }
}

#[test]
fn a_type_of_your_own() {
    let mut heap = Heap::new();
    let val = Rgb(32, 178, 170).into_val(&mut heap).unwrap();
    assert_eq!(items(&heap, &val), vec![Slot::Int(32), Slot::Int(178), Slot::Int(170)]);
    let slot = Rgb(1, 2, 3).into_slot(&mut heap).unwrap();
    assert_eq!(items(&heap, &slot.root()), vec![Slot::Int(1), Slot::Int(2), Slot::Int(3)]);
}

#[test]
fn the_values_of_a_map_are_converted_by_value() {
    let mut heap = Heap::new();
    let mut ordered: BTreeMap<u8, Rgb> = BTreeMap::new();
    ordered.insert(9, Rgb(255, 0, 0));
    ordered.insert(4, Rgb(0, 0, 255));
    let val = ordered.into_val(&mut heap).unwrap();
    let got = entries(&heap, &val);
    assert_eq!(got[0].0, Slot::Int(4));
    assert_eq!(items(&heap, &got[0].1.root()), vec![Slot::Int(0), Slot::Int(0), Slot::Int(255)]);
    assert_eq!(got[1].0, Slot::Int(9));
    assert_eq!(items(&heap, &got[1].1.root()), vec![Slot::Int(255), Slot::Int(0), Slot::Int(0)]);

    let mut hashed: HashMap<i32, Rgb> = HashMap::new();
    hashed.insert(7, Rgb(1, 2, 3));
    let slot = hashed.into_slot(&mut heap).unwrap();
    let got = entries(&heap, &slot.root());
    assert_eq!(got.len(), 1);
    assert_eq!(got[0].0, Slot::Int(7));
    assert_eq!(items(&heap, &got[0].1.root()), vec![Slot::Int(1), Slot::Int(2), Slot::Int(3)]);
}

#[test]
fn the_entries_of_a_map_in_the_order_of_its_table() {
    let mut heap = Heap::new();
    let mut hashed: HashMap<u8, bool> = HashMap::new();
    for key in 0..10 {
        hashed.insert(key, key % 2 == 0);
    }
    let listed: Vec<(Slot, Slot)> = hash_entries(&hashed)
        .into_iter()
        .map(|(key, value)| (Slot::Int(i32::from(*key)), Slot::Bool(*value)))
        .collect();
    assert_eq!(listed.len(), 10);
    let slot = (&hashed).into_slot(&mut heap).unwrap();
    assert_eq!(entries(&heap, &slot.root()), listed);
    let slot = hashed.into_slot(&mut heap).unwrap();
    assert_eq!(entries(&heap, &slot.root()), listed);

    let mut ordered: BTreeMap<i32, char> = BTreeMap::new();
    ordered.insert(9, 'z');
    ordered.insert(-9, 'a');
    assert_eq!(btree_entries(&ordered), vec![(&-9, &'a'), (&9, &'z')]);
    let slot = (&ordered).into_slot(&mut heap).unwrap();
    assert_eq!(
        entries(&heap, &slot.root()),
        vec![(Slot::Int(-9), Slot::Char('a')), (Slot::Int(9), Slot::Char('z'))]
    );
}

/// A counter: to convert it by mutable reference moves it on.
#[derive(Debug, PartialEq)]
struct Counter(i32);

impl IntoValMut for Counter {
    fn mut_to_val(self, _: Store) -> (Store, GResult<Val>) {
        unreachable!()
    }

    fn leaves(self, _: Store, _: Counter) -> bool {
        unreachable!()
    }

    fn into_val_mut(&mut self, _: &mut Heap) -> GResult<Val> {
        if self.0 < 0 {
            return Err(GError::MacroNoOp);
        }
        self.0 += 1;
        Ok(Val::Int(self.0))
    }
}

#[test]
fn items_are_converted_by_mutable_reference_where_the_whole_is() {
    let mut heap = Heap::new();
    let mut one = Counter(10);
    assert_eq!((&mut one).into_val(&mut heap), Ok(Val::Int(11)));
    assert_eq!((&mut one).into_slot(&mut heap), Ok(Slot::Int(12)));
    let mut maybe = Some(one);
    assert_eq!((&mut maybe).into_val(&mut heap), Ok(Val::Int(13)));
    assert_eq!(maybe, Some(Counter(13)));

    let expected = vec![Slot::Int(2), Slot::Int(6)];
    let mut vec = vec![Counter(1), Counter(5)];
    let val = (&mut vec).into_val(&mut heap).unwrap();
    assert_eq!(items(&heap, &val), expected);
    assert_eq!(vec, vec![Counter(2), Counter(6)]);
    let val = (&mut vec[..]).into_val(&mut heap).unwrap();
    assert_eq!(items(&heap, &val), vec![Slot::Int(3), Slot::Int(7)]);
    assert_eq!(vec, vec![Counter(3), Counter(7)]);

    let mut array = [Counter(1), Counter(5)];
    let val = (&mut array).into_val(&mut heap).unwrap();
    assert_eq!(items(&heap, &val), expected);
    assert_eq!(array, [Counter(2), Counter(6)]);

    let mut queue = VecDeque::from(vec![Counter(5)]);
    queue.push_front(Counter(1));
    let val = (&mut queue).into_val(&mut heap).unwrap();
    assert_eq!(items(&heap, &val), expected);
    assert_eq!(queue, VecDeque::from(vec![Counter(2), Counter(6)]));

    let mut list: SmallList<Counter, 4> = SmallList::collect(vec![Counter(1), Counter(5)]);
    let val = (&mut list).into_val(&mut heap).unwrap();
    assert_eq!(items(&heap, &val), expected);
    assert_eq!(list.as_slice(), &[Counter(2), Counter(6)]);

    let mut tuple = (Counter(1), 7u8, Counter(5));
    let val = (&mut tuple).into_val(&mut heap).unwrap();
    assert_eq!(items(&heap, &val), vec![Slot::Int(2), Slot::Int(7), Slot::Int(6)]);
    assert_eq!(tuple, (Counter(2), 7, Counter(6)));
}

#[test]
fn the_values_of_a_map_are_converted_by_mutable_reference_where_the_whole_is() {
    let mut heap = Heap::new();
    let mut ordered: BTreeMap<i32, Counter> = BTreeMap::new();
    ordered.insert(8, Counter(5));
    ordered.insert(-3, Counter(1));
    let val = (&mut ordered).into_val(&mut heap).unwrap();
    assert_eq!(
        entries(&heap, &val),
        vec![(Slot::Int(-3), Slot::Int(2)), (Slot::Int(8), Slot::Int(6))]
    );
    assert_eq!(ordered[&-3], Counter(2));
    assert_eq!(ordered[&8], Counter(6));

    let mut hashed: HashMap<u16, Counter> = HashMap::new();
    hashed.insert(30, Counter(8));
    let val = (&mut hashed).into_val(&mut heap).unwrap();
    assert_eq!(entries(&heap, &val), vec![(Slot::Int(30), Slot::Int(9))]);
    assert_eq!(hashed[&30], Counter(9));
}

#[test]
fn nothing_after_the_first_failure_is_touched_by_mutable_reference() {
    let mut heap = Heap::new();
    let mut vec = vec![Counter(1), Counter(-1), Counter(5)];
    assert_eq!((&mut vec).into_val(&mut heap), Err(GError::MacroNoOp));
    assert_eq!(vec, vec![Counter(2), Counter(-1), Counter(5)]);
    let mut ordered: BTreeMap<u8, Counter> = BTreeMap::new();
    ordered.insert(1, Counter(1));
    ordered.insert(2, Counter(-1));
    ordered.insert(3, Counter(5));
    assert_eq!((&mut ordered).into_val(&mut heap), Err(GError::MacroNoOp));
    assert_eq!(ordered.into_values().collect::<Vec<_>>(), vec![Counter(2), Counter(-1), Counter(5)]);
}

#[test]
fn handles_of_different_kinds_differ() {
    let tab: Root<Tab> = Root { id: 0, kind: Tab };
    let st: Root<Str> = Root { id: 0, kind: Str };
    assert_ne!(Val::Tab(tab), Val::Str(st));
}
