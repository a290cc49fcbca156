use std::cmp::Ordering;
use std::collections::{BTreeMap, HashMap, VecDeque};

use glsp_wrap::callable::Callable;
use glsp_wrap::error::{Expected, GError, GResult, MapType, TypeKey};
use glsp_wrap::from_val::{FromVal, Modelled};
use glsp_wrap::into_val::IntoVal;
use glsp_wrap::marker::HostType;
use glsp_wrap::order::{ordering_from_slot, ordering_from_val};
use glsp_wrap::small::SmallList;
use glsp_wrap::store::{Heap, Store};
use glsp_wrap::text::{CText, OsText, PathText};
use glsp_wrap::value::{
    Arr, Class, Coro, Deque, EnvMode, Expander, Flo, GFn, GIter, Iterable, Num, Order, RData, RFn,
    RRoot, Raw, Root, Slot, Str, Sym, Tab, Val, ValType, COPIED_SYM, FRESH_SYM, GT_SYM,
    INFINITE_SYM, LT_SYM, NUM_EQ_SYM,
};

fn wrong<T>(expected: Expected, received: ValType) -> GResult<T> {
    Err(GError::WrongType { expected, received })
}

#[test]
fn ints_become_integers() {
    let heap = Heap::new();
    assert_eq!(i32::from_val(&heap, &Val::Int(-5)), Ok(-5));
    assert_eq!(i64::from_val(&heap, &Val::Int(i32::MIN)), Ok(-2_147_483_648));
    assert_eq!(i128::from_slot(&heap, &Slot::Int(7)), Ok(7));
    assert_eq!(isize::from_val(&heap, &Val::Int(-1)), Ok(-1));
    assert_eq!(u8::from_val(&heap, &Val::Int(255)), Ok(255));
    assert_eq!(i8::from_slot(&heap, &Slot::Int(-128)), Ok(-128));
    assert_eq!(u16::from_val(&heap, &Val::Int(65535)), Ok(65535));
    assert_eq!(i16::from_val(&heap, &Val::Int(-32768)), Ok(-32768));
    assert_eq!(u32::from_val(&heap, &Val::Int(i32::MAX)), Ok(0x7fff_ffff));
    assert_eq!(u64::from_val(&heap, &Val::Int(0)), Ok(0));
    assert_eq!(u128::from_slot(&heap, &Slot::Int(1)), Ok(1));
    assert_eq!(usize::from_val(&heap, &Val::Int(1)), Ok(1));
}

#[test]
fn ints_out_of_range_are_refused() {
    let heap = Heap::new();
    let refused = |expected, received| GError::IntOutOfRange { expected, received };
    assert_eq!(u8::from_val(&heap, &Val::Int(256)), Err(refused(Expected::U8, 256)));
    assert_eq!(u8::from_slot(&heap, &Slot::Int(-1)), Err(refused(Expected::U8, -1)));
    assert_eq!(i8::from_val(&heap, &Val::Int(128)), Err(refused(Expected::I8, 128)));
    assert_eq!(i16::from_val(&heap, &Val::Int(-32769)), Err(refused(Expected::I16, -32769)));
    assert_eq!(u16::from_val(&heap, &Val::Int(65536)), Err(refused(Expected::U16, 65536)));
    assert_eq!(u32::from_val(&heap, &Val::Int(-1)), Err(refused(Expected::U32, -1)));
    assert_eq!(u64::from_val(&heap, &Val::Int(-2)), Err(refused(Expected::U64, -2)));
    assert_eq!(u128::from_val(&heap, &Val::Int(-3)), Err(refused(Expected::U128, -3)));
    let error = usize::from_val(&heap, &Val::Int(-4)).unwrap_err();
    assert_eq!(error, refused(Expected::Usize, -4));
    assert_eq!(error.message(&heap).unwrap(), "expected usize, received an int with value -4");
}

#[test]
fn the_words_for_numbers_of_either_width() {
    let heap = Heap::new();
    let narrow = GError::WrongType { expected: Expected::F32, received: ValType::Nil };
    assert_eq!(narrow.message(&heap).unwrap(), "expected f32, received nil");
    let wide = GError::WrongType { expected: Expected::F64, received: ValType::Nil };
    assert_eq!(wide.message(&heap).unwrap(), "expected f64, received nil");
}

#[test]
fn values_of_another_type_are_refused() {
    let heap = Heap::new();
    assert_eq!(i32::from_val(&heap, &Val::Nil), wrong(Expected::I32, ValType::Nil));
    assert_eq!(u8::from_slot(&heap, &Slot::Char('a')), wrong(Expected::U8, ValType::Char));
    assert_eq!(char::from_val(&heap, &Val::Int(65)), wrong(Expected::Char, ValType::Int));
    assert_eq!(bool::from_val(&heap, &Val::Nil), wrong(Expected::Bool, ValType::Nil));
    assert_eq!(Sym::from_val(&heap, &Val::Bool(true)), wrong(Expected::Sym, ValType::Bool));
    assert_eq!(Flo::from_val(&heap, &Val::Int(1)), wrong(Expected::F32, ValType::Int));
    assert_eq!(Num::from_val(&heap, &Val::Char('1')), wrong(Expected::Num, ValType::Char));
    let error = i32::from_val(&heap, &Val::Bool(true)).unwrap_err();
    assert_eq!(error.message(&heap).unwrap(), "expected i32, received a bool");
}

#[test]
fn scalars_come_out_as_they_are() {
    let heap = Heap::new();
    assert_eq!(char::from_val(&heap, &Val::Char('z')), Ok('z'));
    assert_eq!(bool::from_slot(&heap, &Slot::Bool(false)), Ok(false));
    assert_eq!(Sym::from_val(&heap, &Val::Sym(Sym { id: 8 })), Ok(Sym { id: 8 }));
    let hundred = Flo { bits: 100.0f32.to_bits() };
    assert_eq!(Flo::from_val(&heap, &Val::Flo(hundred)), Ok(hundred));
    assert_eq!(Num::from_val(&heap, &Val::Flo(hundred)), Ok(Num::Flo(hundred)));
    assert_eq!(Num::from_slot(&heap, &Slot::Int(4)), Ok(Num::Int(4)));
    assert_eq!(Val::from_slot(&heap, &Slot::Int(4)), Ok(Val::Int(4)));
    assert_eq!(Slot::from_val(&Val::Int(4)), Slot::Int(4));
    assert_eq!(<Slot as FromVal>::from_val(&heap, &Val::Int(4)), Ok(Slot::Int(4)));
}

#[test]
fn handles_are_found_in_values_of_their_kind_only() {
    let mut heap = Heap::new();
    let arr = heap.alloc_arr(vec![]);
    assert_eq!(Root::<Arr>::from_val(&heap, &Val::Arr(arr)), Ok(arr));
    assert_eq!(Raw::<Arr>::from_slot(&heap, &Slot::Arr(arr.to_raw())), Ok(arr.to_raw()));
    assert_eq!(
        Root::<Str>::from_val(&heap, &Val::Arr(arr)),
        wrong(Expected::Root(ValType::Str), ValType::Arr)
    );
    let error = Raw::<Tab>::from_val(&heap, &Val::Arr(arr)).unwrap_err();
    assert_eq!(error, GError::WrongType {
        expected: Expected::Raw(ValType::Tab),
        received: ValType::Arr,
    });
    assert_eq!(error.message(&heap).unwrap(), "expected Raw<Tab>, received an arr");
}

#[derive(Debug)]
struct Sound;

impl HostType for Sound {
    fn key() -> TypeKey {
        unreachable!()
    }

    fn is_global() -> bool {
        unreachable!()
    }

    fn type_key() -> TypeKey {
        TypeKey { id: 0 }
    }

    fn rglobal() -> bool {
        false
    }
}

#[test]
fn typed_handles_are_found_in_host_data() {
    let mut heap = Heap::new();
    heap.add_type("game::Sound");
    let root: Root<RData> = Root { id: 2, kind: RData };
    let typed = RRoot::<Sound>::from_val(&heap, &Val::RData(root)).unwrap();
    assert_eq!(typed.to_root(), root);
    let error = RRoot::<Sound>::from_slot(&heap, &Slot::Nil).unwrap_err();
    assert_eq!(error.message(&heap).unwrap(), "expected RRoot<game::Sound>, received nil");
}

#[test]
fn type_erased_enums() {
    let mut heap = Heap::new();
    let arr = heap.alloc_arr(vec![]);
    let st = heap.alloc_str(vec![]);
    let tab = heap.alloc_tab(vec![]);
    let class: Root<Class> = Root { id: 0, kind: Class };
    let gfn: Root<GFn> = Root { id: 0, kind: GFn };
    let rfn: Root<RFn> = Root { id: 0, kind: RFn };
    let giter: Root<GIter> = Root { id: 0, kind: GIter };
    let coro: Root<Coro> = Root { id: 0, kind: Coro };
    assert_eq!(Deque::from_val(&heap, &Val::Arr(arr)), Ok(Deque::Arr(arr)));
    assert_eq!(Deque::from_slot(&heap, &Slot::Str(st.to_raw())), Ok(Deque::Str(st)));
    assert_eq!(
        Deque::from_val(&heap, &Val::Tab(tab)),
        wrong(Expected::Deque, ValType::Tab)
    );
    assert_eq!(Callable::from_val(&heap, &Val::Class(class)), Ok(Callable::Class(class)));
    assert_eq!(Callable::from_val(&heap, &Val::RFn(rfn)), Ok(Callable::RFn(rfn)));
    assert_eq!(
        Callable::from_val(&heap, &Val::Coro(coro)),
        wrong(Expected::Callable, ValType::Coro)
    );
    assert_eq!(Expander::from_val(&heap, &Val::GFn(gfn)), Ok(Expander::GFn(gfn)));
    assert_eq!(
        Expander::from_slot(&heap, &Slot::Class(class.to_raw())),
        wrong(Expected::Expander, ValType::Class)
    );
    assert_eq!(Iterable::from_val(&heap, &Val::GIter(giter)), Ok(Iterable::GIter(giter)));
    assert_eq!(Iterable::from_val(&heap, &Val::Coro(coro)), Ok(Iterable::Coro(coro)));
    assert_eq!(Iterable::from_val(&heap, &Val::Tab(tab)), Ok(Iterable::Tab(tab)));
    assert_eq!(Iterable::from_val(&heap, &Val::Nil), wrong(Expected::Iterable, ValType::Nil));
}

#[test]
fn environment_modes_are_named_by_symbols() {
    let heap = Heap::new();
    assert_eq!(EnvMode::from_val(&heap, &Val::Sym(Sym { id: FRESH_SYM })), Ok(EnvMode::Fresh));
    assert_eq!(EnvMode::from_val(&heap, &Val::Sym(Sym { id: COPIED_SYM })), Ok(EnvMode::Copied));
    let other = Sym { id: INFINITE_SYM };
    let error = EnvMode::from_val(&heap, &Val::Sym(other)).unwrap_err();
    assert_eq!(error, GError::UnknownEnvMode { received: other });
    assert_eq!(
        error.message(&heap).unwrap(),
        "expected an EnvMode, received the symbol infinite"
    );
    let error = EnvMode::from_val(&heap, &Val::Int(1)).unwrap_err();
    assert_eq!(error.message(&heap).unwrap(), "expected an EnvMode, received an int");
}

#[test]
fn orderings_are_named_by_symbols() {
    let heap = Heap::new();
    assert_eq!(Order::from_val(&heap, &Val::Sym(Sym { id: LT_SYM })), Ok(Order::Less));
    assert_eq!(
        ordering_from_val(&heap, &Val::Sym(Sym { id: NUM_EQ_SYM })),
        Ok(Ordering::Equal)
    );
    assert_eq!(
        ordering_from_slot(&heap, &Slot::Sym(Sym { id: GT_SYM })),
        Ok(Ordering::Greater)
    );
    let error = ordering_from_val(&heap, &Val::Sym(Sym { id: FRESH_SYM })).unwrap_err();
    assert_eq!(error.message(&heap).unwrap(), "expected Ordering, received a sym");
}

#[test]
fn arrays_become_sequences() {
    let mut heap = Heap::new();
    let val = (1i32, 2i32, 3i32).into_val(&mut heap).unwrap();
    assert_eq!(Vec::<u8>::from_val(&heap, &val), Ok(vec![1, 2, 3]));
    assert_eq!(VecDeque::<i64>::from_val(&heap, &val), Ok(VecDeque::from(vec![1, 2, 3])));
    let list = SmallList::<u16, 2>::from_val(&heap, &val).unwrap();
    assert_eq!(list.into_vec(), vec![1, 2, 3]);
    assert_eq!(<[i32; 3]>::from_val(&heap, &val), Ok([1, 2, 3]));
    let empty = Val::Arr(heap.alloc_arr(vec![]));
    assert_eq!(Vec::<u8>::from_val(&heap, &empty), Ok(vec![]));
    assert_eq!(<[u8; 0]>::from_val(&heap, &empty), Ok([]));
}

#[test]
fn what_is_no_array_becomes_no_sequence() {
    let heap = Heap::new();
    assert_eq!(Vec::<u8>::from_val(&heap, &Val::Int(1)), wrong(Expected::Vec, ValType::Int));
    assert_eq!(
        VecDeque::<u8>::from_val(&heap, &Val::Int(1)),
        wrong(Expected::VecDeque, ValType::Int)
    );
    let error = SmallList::<u8, 4>::from_val(&heap, &Val::Nil).err().unwrap();
    assert_eq!(error.message(&heap).unwrap(), "expected a SmallVec, received nil");
    let error = <[u8; 4]>::from_val(&heap, &Val::Nil).unwrap_err();
    assert_eq!(error.message(&heap).unwrap(), "expected a [T; 4], received nil");
}

#[test]
fn the_first_item_of_another_type_is_the_reason() {
    let mut heap = Heap::new();
    let val = (1i32, 'x', true).into_val(&mut heap).unwrap();
    assert_eq!(Vec::<i32>::from_val(&heap, &val), wrong(Expected::I32, ValType::Char));
    assert_eq!(<[bool; 3]>::from_val(&heap, &val), wrong(Expected::Bool, ValType::Int));
}

#[test]
fn arrays_of_another_length_are_refused() {
    let mut heap = Heap::new();
    let val = (1i32, 2i32).into_val(&mut heap).unwrap();
    let error = <[i32; 3]>::from_val(&heap, &val).unwrap_err();
    assert_eq!(error, GError::ArrayLength { expected: 3, received: 2 });
    assert_eq!(
        error.message(&heap).unwrap(),
        "expected a [T; 3], received an array of length 2"
    );
    let error = <(i32,)>::from_val(&heap, &val).unwrap_err();
    assert_eq!(error, GError::TupleLength { expected: 1, received: 2 });
    assert_eq!(
        error.message(&heap).unwrap(),
        "expected a 1-element tuple, received an arr of length 2"
    );
}

#[test]
fn arrays_become_tuples() {
    let mut heap = Heap::new();
    let val = (7u8, 'q', false).into_val(&mut heap).unwrap();
    assert_eq!(<(u8, char, bool)>::from_val(&heap, &val), Ok((7, 'q', false)));
    assert_eq!(
        <(u8, u8, u8)>::from_val(&heap, &val),
        wrong(Expected::U8, ValType::Char)
    );
    let error = <(u8, u8)>::from_val(&heap, &Val::Nil).unwrap_err();
    assert_eq!(error.message(&heap).unwrap(), "expected a tuple, received nil");
    let long = vec![1u8; 12].into_val(&mut heap).unwrap();
    let twelve =
        <(u8, u8, u8, u8, u8, u8, u8, u8, u8, u8, u8, i64)>::from_val(&heap, &long).unwrap();
    assert_eq!(twelve.11, 1);
}

#[test]
fn strings_become_text() {
    let mut heap = Heap::new();
    let val = "día".into_val(&mut heap).unwrap();
    assert_eq!(String::from_val(&heap, &val), Ok("día".to_string()));
    assert_eq!(CText::from_val(&heap, &val).unwrap().as_bytes(), "día".as_bytes());
    assert_eq!(OsText::from_val(&heap, &val).unwrap().to_str(), Ok("día"));
    assert_eq!(PathText::from_val(&heap, &val).unwrap().as_os_text().to_str(), Ok("día"));
    for (error, text) in [
        (String::from_val(&heap, &Val::Nil).err(), "expected a str, received nil"),
        (CText::from_val(&heap, &Val::Nil).err(), "expected a C string, received nil"),
        (OsText::from_val(&heap, &Val::Nil).err(), "expected an OS string, received nil"),
        (PathText::from_val(&heap, &Val::Nil).err(), "expected a path, received nil"),
    ] {
        assert_eq!(error.unwrap().message(&heap).unwrap(), text);
    }
}

#[test]
fn a_string_with_a_nul_becomes_no_c_text() {
    let mut heap = Heap::new();
    let val = "a\0b".into_val(&mut heap).unwrap();
    let error = CText::from_val(&heap, &val).unwrap_err();
    assert_eq!(error, GError::InnerNul);
    assert_eq!(
        error.message(&heap).unwrap(),
        "expected a C string, received a str with an inner nul"
    );
    assert_eq!(String::from_val(&heap, &val), Ok("a\0b".to_string()));
}

#[test]
fn tables_become_maps() {
    let mut heap = Heap::new();
    let root = heap.alloc_tab(vec![
        (Slot::Int(2), Slot::Char('b')),
        (Slot::Int(1), Slot::Char('a')),
    ]);
    let mut hashed: HashMap<i32, char> = HashMap::new();
    hashed.insert(1, 'a');
    hashed.insert(2, 'b');
    let ordered: BTreeMap<i32, char> = hashed.iter().map(|(k, v)| (*k, *v)).collect();
    assert_eq!(HashMap::<i32, char>::from_val(&heap, &Val::Tab(root)), Ok(hashed));
    assert_eq!(BTreeMap::<i32, char>::from_val(&heap, &Val::Tab(root)), Ok(ordered));
    assert_eq!(
        HashMap::<i32, i32>::from_val(&heap, &Val::Tab(root)),
        wrong(Expected::I32, ValType::Char)
    );
    assert_eq!(
        BTreeMap::<i32, i32>::from_val(&heap, &Val::Nil),
        wrong(Expected::BTreeMap, ValType::Nil)
    );
    let error = HashMap::<i32, i32>::from_val(&heap, &Val::Nil).unwrap_err();
    assert_eq!(error.message(&heap).unwrap(), "expected a HashMap, received nil");
}

#[test]
fn a_key_that_comes_twice_is_refused() {
    let mut heap = Heap::new();
    let root = heap.alloc_tab(vec![
        (Slot::Int(1), Slot::Char('a')),
        (Slot::Int(1), Slot::Char('b')),
    ]);
    let error = HashMap::<i32, char>::from_val(&heap, &Val::Tab(root)).unwrap_err();
    assert_eq!(error, GError::DuplicateKey { expected: MapType::HashMap });
    assert_eq!(error.message(&heap).unwrap(), "duplicate key in HashMap argument");
    let error = BTreeMap::<i32, char>::from_val(&heap, &Val::Tab(root)).unwrap_err();
    assert_eq!(error, GError::DuplicateKey { expected: MapType::BTreeMap });
    assert_eq!(error.message(&heap).unwrap(), "duplicate key in BTreeMap argument");
}

#[test]
fn a_handle_of_another_heap_is_refused() {
    let heap = Heap::new();
    let stale: Root<Arr> = Root { id: 12, kind: Arr };
    assert_eq!(
        Vec::<u8>::from_val(&heap, &Val::Arr(stale)),
        Err(GError::StaleHandle { received: ValType::Arr })
    );
}

#[derive(Debug, PartialEq)]
struct Rgb(u8, u8, u8);

impl Modelled for Rgb {
    type Model = (u8, u8, u8);

    fn model(self) -> (u8, u8, u8) {
        unreachable!()
    }
}

impl FromVal for Rgb {
    fn of_val(_: Store, _: Val) -> GResult<(u8, u8, u8)> {
        unreachable!()
    }

    fn from_val(heap: &Heap, val: &Val) -> GResult<Rgb> {
        let (r, g, b) = <(u8, u8, u8)>::from_val(heap, val)?;
        Ok(Rgb(r, g, b))
    }
}

#[test]
fn reading_a_type_of_your_own() {
    let mut heap = Heap::new();
    let val = (32i32, 178i32, 178i32).into_val(&mut heap).unwrap();
    assert_eq!(Rgb::from_val(&heap, &val), Ok(Rgb(32, 178, 178)));
    assert_eq!(Rgb::from_slot(&heap, &Slot::from_val(&val)), Ok(Rgb(32, 178, 178)));
    let short = (32i32, 178i32).into_val(&mut heap).unwrap();
    assert_eq!(
        Rgb::from_val(&heap, &short),
        Err(GError::TupleLength { expected: 3, received: 2 })
    );
}

#[test]
fn what_goes_in_comes_out() {
    let mut heap = Heap::new();
    let val = vec![("one".to_string(), 1i32), ("two".to_string(), 2)];
    let copy = vec![("one".to_string(), 1i32), ("two".to_string(), 2)];
    let converted = val.into_val(&mut heap).unwrap();
    let unrelated = "something else".into_val(&mut heap).unwrap();
    assert_eq!(Vec::<(String, i32)>::from_val(&heap, &converted), Ok(copy));
    assert_eq!(String::from_val(&heap, &unrelated), Ok("something else".to_string()));

    let mut map: HashMap<i32, Vec<u8>> = HashMap::new();
    map.insert(4, vec![4, 4]);
    map.insert(5, vec![]);
    let converted = (&map).into_val(&mut heap).unwrap();
    assert_eq!(HashMap::<i32, Vec<u8>>::from_val(&heap, &converted), Ok(map));

    let array = [[1u8, 2], [3, 4]];
    let converted = array.into_val(&mut heap).unwrap();
    assert_eq!(<[[u8; 2]; 2]>::from_val(&heap, &converted), Ok(array));
}
