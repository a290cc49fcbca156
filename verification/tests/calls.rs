use glsp_wrap::args_ref::FromArgRef;
use glsp_wrap::call_args::IntoCallArgs;
use glsp_wrap::callable::{Callable, CallableOps, Reply};
use glsp_wrap::error::{Expected, GError, GResult, TypeKey, WideInt};
use glsp_wrap::from_val::{FromVal, Modelled};
use glsp_wrap::into_val::{IntoVal, IntoValMut};
use glsp_wrap::limits::ArgType;
use glsp_wrap::marker::{DataType, GlobalType, HostType, RGlobal};
use glsp_wrap::rest::Rest;
use glsp_wrap::store::{FnInfo, Heap, HostCell, Store};
use glsp_wrap::text::{CText, OsText, PathText};
use glsp_wrap::value::{
    Arr, Class, GFn, HostValue, Obj, RFn, Raw, Root, Slot, Str, Sym, Val, ValType,
};
use glsp_wrap::wrap::{wrap, TagArg, TagArgRef, WrappedCall};

fn num(i: i32) -> Slot {
    Slot::Int(i)
}

struct Tank;

impl HostType for Tank {
    fn key() -> TypeKey {
        unreachable!()
    }

    fn is_global() -> bool {
        unreachable!()
    }

    fn type_key() -> TypeKey {
        TypeKey { id: 0 }
    }

    fn rglobal() -> bool {
        false
    }
}

struct Screen;

impl HostType for Screen {
    fn key() -> TypeKey {
        unreachable!()
    }

    fn is_global() -> bool {
        unreachable!()
    }

    fn type_key() -> TypeKey {
        TypeKey { id: 1 }
    }

    fn rglobal() -> bool {
        true
    }
}

impl RGlobal for Screen {
    fn lawful_global() {}
}

fn world() -> Heap {
    let mut heap = Heap::new();
    heap.add_type("Tank");
    heap.add_type("Screen");
    heap.add_global(HostCell { type_key: TypeKey { id: 1 }, payload: 500 });
    heap
}

fn add_integers(first: i32, rest: Rest<i32>) -> i32 {
    let mut accumulator = first;
    for integer in rest {
        accumulator += integer;
    }
    accumulator
}

#[test]
fn rest_collects_trailing_arguments() {
    let mut heap = Heap::new();
    let w = wrap::<((i32, TagArg), (Rest<'static, i32>, TagArg)), i32, _>(
        |heap: Heap, first: i32, rest: Rest<i32>| (heap, add_integers(first, rest)),
    );
    assert_eq!(w.arg_limits(), (1, usize::MAX));
    assert_eq!(w.wrapped_call(&[num(42)], &mut heap), Ok(num(42)));
    let five = [num(10), num(20), num(30), num(40), num(50)];
    assert_eq!(w.wrapped_call(&five, &mut heap), Ok(num(150)));
    let many: Vec<Slot> = (1..=20).map(num).collect();
    assert_eq!(w.wrapped_call(&many, &mut heap), Ok(num(210)));
    assert_eq!(
        w.wrapped_call(&[num(1), num(2), Slot::Nil], &mut heap),
        Err(GError::WrongType { expected: Expected::I32, received: ValType::Nil })
    );
}

#[test]
fn rest_can_be_made_by_hand() {
    let total = Rest::with([20, 30, 40, 50].iter().copied(), |rest| add_integers(10, rest));
    assert_eq!(total, 150);
}

#[test]
fn rest_can_be_read_changed_and_indexed_like_a_slice() {
    let seen = Rest::with(vec![3, 1, 2].into_iter(), |mut rest: Rest<i32>| {
        assert_eq!(rest.len(), 3);
        assert_eq!(rest[0], 3);
        assert_eq!(&rest[1..], &[1, 2]);
        rest[0] = 9;
        rest.sort();
        let by_ref: Vec<i32> = (&rest).into_iter().copied().collect();
        assert_eq!(by_ref, vec![1, 2, 9]);
        for item in rest.iter_mut() {
            *item += 1;
        }
        rest.into_vec()
    });
    assert_eq!(seen, vec![2, 3, 10]);
}

#[test]
fn rest_is_walked_by_value_and_by_either_reference() {
    let left = Rest::with(vec![1, 2, 3].into_iter(), |mut rest: Rest<i32>| {
        let mut seen = vec![];
        for item in &rest {
            seen.push(*item);
        }
        assert_eq!(seen, vec![1, 2, 3]);
        for item in &mut rest {
            *item *= 10;
        }
        for (i, item) in (&mut rest).into_iter().enumerate() {
            *item += i as i32;
        }
        assert_eq!(&rest[..], &[10, 21, 32]);
        let mut left = vec![];
        for item in rest {
            left.push(item);
        }
        left
    });
    assert_eq!(left, vec![10, 21, 32]);
}

#[test]
fn rest_can_be_changed_by_the_function_that_gets_it() {
    let mut heap = Heap::new();
    let w = wrap::<((Rest<'static, i32>, TagArg),), i32, _>(|heap: Heap, mut rest: Rest<i32>| {
        for item in &mut rest {
            *item *= *item;
        }
        (heap, add_integers(0, rest))
    });
    assert_eq!(w.wrapped_call(&[num(1), num(2), num(3)], &mut heap), Ok(num(14)));
}

#[test]
fn the_leftmost_failure_of_the_first_step_comes_before_all_others() {
    let mut heap = world();
    let w = wrap::<
        ((i32, TagArg), (&'static str, TagArg), (&'static Tank, TagArgRef)),
        i32,
        _,
    >(|heap: Heap, n: i32, _: &str, _: &HostValue<Tank>| (heap, n));
    let text = "text".into_slot(&mut heap).unwrap();
    let tank = HostValue::<Tank>::new(1).into_slot(&mut heap).unwrap();
    assert_eq!(
        w.wrapped_call(&[Slot::Nil, num(1), num(2)], &mut heap),
        Err(GError::WrongType { expected: Expected::StrRef, received: ValType::Int })
    );
    assert!(matches!(
        w.wrapped_call(&[Slot::Nil, text, num(2)], &mut heap),
        Err(GError::WrongType { received: ValType::Int, .. })
    ));
    assert_eq!(
        w.wrapped_call(&[Slot::Nil, text, tank], &mut heap),
        Err(GError::WrongType { expected: Expected::I32, received: ValType::Nil })
    );
    assert_eq!(w.wrapped_call(&[num(5), text, tank], &mut heap), Ok(num(5)));
}

#[test]
fn the_leftmost_failure_of_the_second_step_is_the_reason() {
    let mut heap = Heap::new();
    let w = wrap::<((i32, TagArg), (bool, TagArg), (char, TagArg)), i32, _>(
        |heap: Heap, n: i32, _: bool, _: char| (heap, n),
    );
    assert_eq!(
        w.wrapped_call(&[num(1), Slot::Nil, Slot::Nil], &mut heap),
        Err(GError::WrongType { expected: Expected::Bool, received: ValType::Nil })
    );
}

#[test]
fn a_missing_argument_and_nil_are_the_same() {
    let mut heap = Heap::new();
    let w = wrap::<((i32, TagArg), (Option<i32>, TagArg)), Option<i32>, _>(
        |heap: Heap, a: i32, b: Option<i32>| (heap, b.map(|b| a + b)),
    );
    assert_eq!(w.arg_limits(), (1, 2));
    assert_eq!(w.wrapped_call(&[num(1)], &mut heap), Ok(Slot::Nil));
    assert_eq!(w.wrapped_call(&[num(1), Slot::Nil], &mut heap), Ok(Slot::Nil));
    assert_eq!(w.wrapped_call(&[num(1), num(2)], &mut heap), Ok(num(3)));
}

#[test]
fn what_a_function_returns_is_converted_by_its_own_type() {
    let mut heap = Heap::new();
    let w = wrap::<((i32, TagArg),), GResult<Option<bool>>, _>(|heap: Heap, n: i32| {
        let r = match n {
            0 => Ok(None),
            1 => Ok(Some(true)),
            _ => Err(GError::MacroNoOp),
        };
        (heap, r)
    });
    assert_eq!(w.wrapped_call(&[num(0)], &mut heap), Ok(Slot::Nil));
    assert_eq!(w.wrapped_call(&[num(1)], &mut heap), Ok(Slot::Bool(true)));
    assert_eq!(w.wrapped_call(&[num(2)], &mut heap), Err(GError::MacroNoOp));
}

#[test]
fn a_function_without_parameters() {
    let mut heap = Heap::new();
    let w = wrap::<(), &'static str, _>(|heap: Heap| (heap, "ready"));
    assert_eq!(w.arg_limits(), (0, 0));
    let slot = w.wrapped_call(&[], &mut heap).unwrap();
    match slot {
        Slot::Str(raw) => assert_eq!(heap.str(raw.root()).unwrap().len(), 5),
        other => panic!("not a string: {:?}", other),
    }
    assert_eq!(
        w.wrapped_call(&[num(1)], &mut heap),
        Err(GError::TooManyArgs { received: 1, at_most: 0 })
    );
}

#[test]
fn too_few_and_too_many_arguments() {
    let mut heap = Heap::new();
    let w = wrap::<((i32, TagArg), (i32, TagArg), (Option<i32>, TagArg)), i32, _>(
        |heap: Heap, a: i32, b: i32, c: Option<i32>| (heap, a - b + c.unwrap_or(1000)),
    );
    assert_eq!(w.arg_limits(), (2, 3));
    let error = w.wrapped_call(&[num(1)], &mut heap).unwrap_err();
    assert_eq!(error, GError::TooFewArgs { received: 1, at_least: 2 });
    assert_eq!(
        error.message(&heap).unwrap(),
        "too few arguments: received 1, expected at least 2"
    );
    let error = w.wrapped_call(&[num(1), num(2), num(3), num(4)], &mut heap).unwrap_err();
    assert_eq!(error, GError::TooManyArgs { received: 4, at_most: 3 });
    assert_eq!(
        error.message(&heap).unwrap(),
        "too many arguments: received 4, expected no more than 3"
    );
    assert_eq!(w.wrapped_call(&[num(5), num(3)], &mut heap), Ok(num(1002)));
    assert_eq!(w.wrapped_call(&[num(5), num(3), Slot::Nil], &mut heap), Ok(num(1002)));
    assert_eq!(w.wrapped_call(&[num(5), num(3), num(7)], &mut heap), Ok(num(9)));
}

#[test]
fn an_optional_argument_before_a_plain_one() {
    let mut heap = Heap::new();
    let w = wrap::<((Option<i32>, TagArg), (i32, TagArg)), i32, _>(
        |heap: Heap, a: Option<i32>, b: i32| (heap, a.unwrap_or(-1) * 10 + b),
    );
    assert_eq!(w.arg_limits(), (2, 2));
    assert_eq!(w.wrapped_call(&[Slot::Nil, num(4)], &mut heap), Ok(num(-6)));
    assert_eq!(w.wrapped_call(&[num(2), num(4)], &mut heap), Ok(num(24)));
}

#[test]
#[allow(clippy::type_complexity)]
fn eight_arguments() {
    let mut heap = Heap::new();
    let w = wrap::<
        (
            (u8, TagArg),
            (u8, TagArg),
            (u8, TagArg),
            (u8, TagArg),
            (u8, TagArg),
            (u8, TagArg),
            (u8, TagArg),
            (Option<u8>, TagArg),
        ),
        (u8, u8, u8, u8, u8, u8, u8, Option<u8>),
        _,
    >(|heap: Heap, a: u8, b: u8, c: u8, d: u8, e: u8, f: u8, g: u8, h: Option<u8>| {
        (heap, (h.map_or(g, |_| a), b, c, d, e, f, g, h))
    });
    assert_eq!(w.arg_limits(), (7, 8));
    let args: Vec<Slot> = (1..=8).map(num).collect();
    let slot = w.wrapped_call(&args, &mut heap).unwrap();
    match slot {
        Slot::Arr(raw) => assert_eq!(heap.arr(raw.root()).unwrap(), &args),
        other => panic!("not an array: {:?}", other),
    }
}

#[test]
fn slices_of_items_and_text_by_reference() {
    let mut heap = Heap::new();
    let numbers = heap.alloc_arr(vec![num(1), num(2), num(3)]);
    let text = heap.alloc_str(vec!['f', 'u', 'ß']);
    let w = wrap::<((&'static [i32], TagArg), (&'static str, TagArg)), (i32, usize, bool), _>(
        |heap: Heap, numbers: &[i32], text: &str| {
            (heap, (numbers.iter().sum(), text.len(), text == "fuß"))
        },
    );
    let args = [Slot::Arr(numbers.to_raw()), Slot::Str(text.to_raw())];
    let slot = w.wrapped_call(&args, &mut heap).unwrap();
    match slot {
        Slot::Arr(raw) => {
            assert_eq!(heap.arr(raw.root()).unwrap(), &vec![num(6), num(4), Slot::Bool(true)]);
        },
        other => panic!("not an array: {:?}", other),
    }
    let error = w.wrapped_call(&[args[0], num(3)], &mut heap).unwrap_err();
    assert_eq!(error.message(&heap).unwrap(), "expected a &str, received an int");
    let error = w.wrapped_call(&[num(3), args[1]], &mut heap).unwrap_err();
    assert_eq!(error.message(&heap).unwrap(), "expected a SmallVec, received an int");
}

#[test]
fn long_text_by_reference() {
    let mut heap = Heap::new();
    let long: Vec<char> = (0..500).map(|_| 'é').collect();
    let text = heap.alloc_str(long);
    let w = wrap::<((&'static str, TagArg),), usize, _>(|heap: Heap, text: &str| {
        (heap, text.chars().filter(|c| *c == 'é').count())
    });
    assert_eq!(w.wrapped_call(&[Slot::Str(text.to_raw())], &mut heap), Ok(num(500)));
}

#[test]
fn the_other_text_types_by_reference() {
    let mut heap = Heap::new();
    let text = Slot::Str(heap.alloc_str(vec!['a', '/', 'b']).to_raw());
    let nul = Slot::Str(heap.alloc_str(vec!['a', '\0']).to_raw());
    let w = wrap::<
        ((&'static CText, TagArg), (&'static OsText, TagArg), (&'static PathText, TagArg)),
        (usize, bool, bool),
        _,
    >(|heap: Heap, c: &CText, os: &OsText, path: &PathText| {
        let same = os.to_str() == Ok("a/b");
        let path_same = path.as_os_text().to_str() == Ok("a/b");
        (heap, (c.as_bytes().len(), same, path_same))
    });
    let slot = w.wrapped_call(&[text, text, text], &mut heap).unwrap();
    match slot {
        Slot::Arr(raw) => assert_eq!(
            heap.arr(raw.root()).unwrap(),
            &vec![num(3), Slot::Bool(true), Slot::Bool(true)]
        ),
        other => panic!("not an array: {:?}", other),
    }
    assert_eq!(w.wrapped_call(&[nul, text, text], &mut heap), Err(GError::InnerNul));
    let error = w.wrapped_call(&[text, text, num(0)], &mut heap).unwrap_err();
    assert_eq!(error.message(&heap).unwrap(), "expected a path, received an int");
}

#[test]
fn host_values_by_reference() {
    let mut heap = world();
    let tank = heap.alloc_data(HostCell { type_key: TypeKey { id: 0 }, payload: 77 });
    let slot = Slot::RData(tank.to_raw());
    let w = wrap::<((&'static Tank, TagArgRef),), u32, _>(|heap: Heap, tank: &HostValue<Tank>| {
        (heap, tank.payload() as u32)
    });
    assert_eq!(w.arg_limits(), (1, 1));
    assert_eq!(w.wrapped_call(&[slot], &mut heap), Ok(num(77)));
    assert_eq!(heap.mark(), 0);
    let error = w.wrapped_call(&[num(1)], &mut heap).unwrap_err();
    assert_eq!(error.message(&heap).unwrap(), "expected &Tank, received an int");
    let w = wrap::<((&'static mut Tank, TagArgRef),), u32, _>(
        |heap: Heap, tank: &mut HostValue<Tank>| (heap, tank.payload() as u32),
    );
    let error = w.wrapped_call(&[Slot::Nil], &mut heap).unwrap_err();
    assert_eq!(error.message(&heap).unwrap(), "expected &mut Tank, received nil");
    assert_eq!(w.wrapped_call(&[slot], &mut heap), Ok(num(77)));
}

#[test]
fn one_exclusive_borrow_rules_out_all_others() {
    let mut heap = world();
    let tank = heap.alloc_data(HostCell { type_key: TypeKey { id: 0 }, payload: 1 });
    let other = heap.alloc_data(HostCell { type_key: TypeKey { id: 0 }, payload: 2 });
    let shot = heap.alloc_data(HostCell { type_key: TypeKey { id: 9 }, payload: 3 });
    let (a, b) = (Slot::RData(tank.to_raw()), Slot::RData(other.to_raw()));
    let both = wrap::<((&'static mut Tank, TagArgRef), (&'static Tank, TagArgRef)), u32, _>(
        |heap: Heap, x: &mut HostValue<Tank>, y: &HostValue<Tank>| {
            (heap, (x.payload() * 10 + y.payload()) as u32)
        },
    );
    assert_eq!(both.wrapped_call(&[a, b], &mut heap), Ok(num(12)));
    assert_eq!(
        both.wrapped_call(&[a, a], &mut heap),
        Err(GError::DataInUse { type_key: TypeKey { id: 0 } })
    );
    assert_eq!(heap.mark(), 0);
    assert_eq!(
        both.wrapped_call(&[a, Slot::RData(shot.to_raw())], &mut heap),
        Err(GError::WrongData { expected: TypeKey { id: 0 }, received: TypeKey { id: 9 } })
    );
    assert_eq!(heap.mark(), 0);
    let shared = wrap::<((&'static Tank, TagArgRef), (&'static Tank, TagArgRef)), u32, _>(
        |heap: Heap, x: &HostValue<Tank>, y: &HostValue<Tank>| {
            (heap, (x.payload() * 10 + y.payload()) as u32)
        },
    );
    assert_eq!(shared.wrapped_call(&[a, a], &mut heap), Ok(num(11)));
}

#[test]
fn globals_take_no_argument() {
    let mut heap = world();
    let w = wrap::<
        ((i32, TagArg), (&'static Screen, TagArgRef), (Option<i32>, TagArg)),
        (i32, u32, Option<i32>),
        _,
    >(|heap: Heap, a: i32, screen: &HostValue<Screen>, b: Option<i32>| {
        (heap, (a, screen.payload() as u32, b))
    });
    assert_eq!(w.arg_limits(), (1, 2));
    let slot = w.wrapped_call(&[num(1), num(2)], &mut heap).unwrap();
    match slot {
        Slot::Arr(raw) => {
            assert_eq!(heap.arr(raw.root()).unwrap(), &vec![num(1), num(500), num(2)]);
        },
        other => panic!("not an array: {:?}", other),
    }
    assert_eq!(<&Screen as FromArgRef>::arg_type(), ArgType::RGlobal);
    assert_eq!(<&mut Screen as FromArgRef>::arg_type(), ArgType::RGlobal);
    assert_eq!(<&Tank as FromArgRef>::arg_type(), ArgType::Normal);
}

#[test]
fn a_global_that_is_missing_or_in_use_is_refused() {
    let w = wrap::<((&'static mut Screen, TagArgRef),), u32, _>(
        |heap: Heap, screen: &mut HostValue<Screen>| (heap, screen.payload() as u32),
    );
    let mut bare = Heap::new();
    assert_eq!(
        w.wrapped_call(&[], &mut bare),
        Err(GError::NoSuchGlobal { type_key: TypeKey { id: 1 } })
    );
    let mut heap = world();
    assert_eq!(w.wrapped_call(&[], &mut heap), Ok(num(500)));
    assert_eq!(heap.borrow_global(TypeKey { id: 1 }, false), Ok(500));
    assert_eq!(
        w.wrapped_call(&[], &mut heap),
        Err(GError::GlobalInUse { type_key: TypeKey { id: 1 } })
    );
    assert_eq!(heap.mark(), 1);
}

#[test]
fn what_a_call_borrows_is_borrowed_while_it_lasts() {
    let mut heap = world();
    let tank = heap.alloc_data(HostCell { type_key: TypeKey { id: 0 }, payload: 1 });
    let raw = tank.to_raw();
    let w = wrap::<((&'static mut Tank, TagArgRef),), GResult<u32>, _>(
        move |mut heap: Heap, _: &mut HostValue<Tank>| {
            let again = heap.borrow_data(raw, TypeKey { id: 0 }, false).map(|p| p as u32);
            (heap, again)
        },
    );
    assert_eq!(
        w.wrapped_call(&[Slot::RData(raw)], &mut heap),
        Err(GError::DataInUse { type_key: TypeKey { id: 0 } })
    );
    assert_eq!(heap.mark(), 0);
    assert_eq!(heap.borrow_data(raw, TypeKey { id: 0 }, true), Ok(1));
}

#[test]
fn optional_references() {
    let mut heap = world();
    let tank = heap.alloc_data(HostCell { type_key: TypeKey { id: 0 }, payload: 6 });
    let w = wrap::<((Option<&'static Tank>, TagArgRef),), Option<u32>, _>(
        |heap: Heap, tank: Option<&HostValue<Tank>>| (heap, tank.map(|t| t.payload() as u32)),
    );
    assert_eq!(w.arg_limits(), (0, 1));
    assert_eq!(w.wrapped_call(&[], &mut heap), Ok(Slot::Nil));
    assert_eq!(w.wrapped_call(&[Slot::Nil], &mut heap), Ok(Slot::Nil));
    assert_eq!(w.wrapped_call(&[Slot::RData(tank.to_raw())], &mut heap), Ok(num(6)));
}

#[test]
fn heap_objects_by_reference() {
    let mut heap = Heap::new();
    let arr = heap.alloc_arr(vec![num(1), num(2)]);
    let st = heap.alloc_str(vec!['x']);
    let w = wrap::<((&'static Arr, TagArgRef), (&'static Str, TagArgRef)), usize, _>(
        |heap: Heap, arr: &Raw<Arr>, st: &Raw<Str>| {
            let len = heap.arr(arr.root()).unwrap().len() + heap.str(st.root()).unwrap().len();
            (heap, len)
        },
    );
    let (a, s) = (Slot::Arr(arr.to_raw()), Slot::Str(st.to_raw()));
    assert_eq!(w.wrapped_call(&[a, s], &mut heap), Ok(num(3)));
    let error = w.wrapped_call(&[s, s], &mut heap).unwrap_err();
    assert_eq!(error, GError::WrongPointee { expected: ValType::Arr, received: ValType::Str });
    assert_eq!(error.message(&heap).unwrap(), "expected &Arr, received str");
}

#[test]
fn a_refused_call_leaves_the_heap_alone() {
    let mut heap = world();
    let tank = heap.alloc_data(HostCell { type_key: TypeKey { id: 0 }, payload: 1 });
    let w = wrap::<((&'static mut Tank, TagArgRef), (u8, TagArg)), Vec<u8>, _>(
        |heap: Heap, _: &mut HostValue<Tank>, n: u8| (heap, vec![n]),
    );
    let slot = Slot::RData(tank.to_raw());
    assert_eq!(
        w.wrapped_call(&[slot, num(-1)], &mut heap),
        Err(GError::IntOutOfRange { expected: Expected::U8, received: -1 })
    );
    assert_eq!(heap.mark(), 0);
    let untouched = heap.alloc_arr(vec![]);
    assert_eq!(untouched.id, 0);
    assert!(w.wrapped_call(&[slot, num(1)], &mut heap).is_ok());
}

#[test]
fn results_that_cannot_be_converted() {
    let mut heap = Heap::new();
    let w = wrap::<((i32, TagArg),), i64, _>(|heap: Heap, n: i32| (heap, i64::from(n) << 20));
    assert_eq!(w.wrapped_call(&[num(1)], &mut heap), Ok(num(1 << 20)));
    let error = w.wrapped_call(&[num(1 << 20)], &mut heap).unwrap_err();
    assert_eq!(error, GError::NotAnI32 { value: WideInt::Signed(1 << 40) });
    assert_eq!(
        error.message(&heap).unwrap(),
        "the result was 1099511627776, which is outside the range of an i32"
    );
}

#[test]
fn wrapped_functions_of_any_signature_together() {
    let mut heap = Heap::new();
    let double = wrap::<((i32, TagArg),), i32, _>(|heap: Heap, n: i32| (heap, n * 2));
    let sum = wrap::<((i32, TagArg), (i32, TagArg)), i32, _>(|heap: Heap, a: i32, b: i32| {
        (heap, a + b)
    });
    let table: Vec<Box<dyn WrappedCall>> = vec![double, sum];
    assert_eq!(table[0].arg_limits(), (1, 1));
    assert_eq!(table[1].arg_limits(), (2, 2));
    assert_eq!(table[0].wrapped_call(&[num(21)], &mut heap), Ok(num(42)));
    assert_eq!(table[1].wrapped_call(&[num(21), num(1)], &mut heap), Ok(num(22)));
}

#[test]
fn what_is_known_of_a_callable() {
    let mut heap = Heap::new();
    let name = heap.add_sym("push!");
    let rfn: Root<RFn> = heap.add_rfn(FnInfo { name, min_args: 2, max_args: None });
    let gfn: Root<GFn> = heap.add_gfn(FnInfo { name: None, min_args: 0, max_args: Some(3) });
    let class: Root<Class> = heap.add_class(FnInfo { name, min_args: 1, max_args: Some(1) });
    assert_eq!(Callable::RFn(rfn).arg_limits(&heap), (2, None));
    assert_eq!(rfn.name(&heap), name);
    assert_eq!(heap.sym_name(name.unwrap()), "push!");
    assert_eq!(gfn.to_raw().max_args(&heap), Some(3));
    assert_eq!(gfn.min_args(&heap), 0);
    assert_eq!(Callable::GFn(gfn).name(&heap), None);
    assert_eq!(Callable::Class(class).min_args(&heap), 1);
    assert_eq!(class.to_raw().arg_limits(&heap), (1, Some(1)));
    let stale: Root<RFn> = Root { id: 8, kind: RFn };
    assert!(!Callable::RFn(stale).is_known(&heap));
    assert!(class.is_known(&heap));
}

#[test]
fn calls_are_handed_to_the_engine_and_finished() {
    let rfn: Root<RFn> = Root { id: 0, kind: RFn };
    let gfn: Root<GFn> = Root { id: 1, kind: GFn };
    let class: Root<Class> = Root { id: 2, kind: Class };
    let obj: Root<Obj> = Root { id: 3, kind: Obj };
    let call = Callable::RFn(rfn).receive_call(4);
    assert_eq!((call.callee, call.arg_count), (Callable::RFn(rfn), 4));
    assert_eq!(rfn.finish_call(Reply::RFn(Ok(num(5)))), Ok(Val::Int(5)));
    assert_eq!(gfn.to_raw().receive_call(0).callee, Callable::GFn(gfn));
    assert_eq!(gfn.finish_call(Reply::GFn(Ok(Val::Nil))), Ok(Val::Nil));
    assert_eq!(
        Callable::Class(class).finish_call(Reply::Class(Ok(obj))),
        Ok(Val::Obj(obj))
    );
    let failed = GError::Raised { token: 1 };
    assert_eq!(rfn.finish_call(Reply::RFn(Err(failed))), Err(failed));
    assert_eq!(gfn.finish_call(Reply::GFn(Err(failed))), Err(failed));
    assert_eq!(class.finish_call(Reply::Class(Err(failed))), Err(failed));
}

#[test]
fn argument_lists_from_tuples() {
    let mut heap = Heap::new();
    let mut dst = vec![Slot::Nil];
    let arr = heap.alloc_arr(vec![]);
    assert_eq!((arr, 100i32).arg_count(), 2);
    assert_eq!((arr, 100i32).into_call_args(&mut dst, &mut heap), Ok(()));
    assert_eq!(dst, vec![Slot::Nil, Slot::Arr(arr.to_raw()), num(100)]);
    assert_eq!((&(1u8, 'c')).into_call_args(&mut dst, &mut heap), Ok(()));
    assert_eq!((&mut (true,)).into_call_args(&mut dst, &mut heap), Ok(()));
    assert_eq!(dst[3..], [num(1), Slot::Char('c'), Slot::Bool(true)]);
    assert_eq!(().arg_count(), 0);
    assert_eq!((&()).into_call_args(&mut dst, &mut heap), Ok(()));
    assert_eq!(dst.len(), 6);
}

#[test]
fn a_tuple_that_fails_adds_nothing() {
    let mut heap = Heap::new();
    let mut dst = vec![num(0)];
    assert_eq!(
        (1i32, 1i64 << 40, 1i64 << 41).into_call_args(&mut dst, &mut heap),
        Err(GError::NotAnI32 { value: WideInt::Signed(1 << 40) })
    );
    assert_eq!(dst, vec![num(0)]);
}

#[test]
fn argument_lists_from_slices() {
    let mut heap = Heap::new();
    let mut dst = vec![];
    let numbers = [1u8, 2, 3];
    assert_eq!((&numbers[..]).arg_count(), 3);
    assert_eq!((&numbers[..]).into_call_args(&mut dst, &mut heap), Ok(()));
    assert_eq!(numbers.into_call_args(&mut dst, &mut heap), Ok(()));
    assert_eq!((&[4u8; 2]).into_call_args(&mut dst, &mut heap), Ok(()));
    assert_eq!((&mut [5u8; 1]).into_call_args(&mut dst, &mut heap), Ok(()));
    let flat: Vec<i32> = vec![1, 2, 3, 1, 2, 3, 4, 4, 5];
    assert_eq!(dst, flat.into_iter().map(num).collect::<Vec<Slot>>());
}

#[test]
fn a_slice_that_fails_adds_nil_and_goes_on() {
    let mut heap = Heap::new();
    let mut dst = vec![];
    let numbers = [1i64, 1 << 40, 3, 1 << 41];
    assert_eq!(
        (&numbers[..]).into_call_args(&mut dst, &mut heap),
        Err(GError::NotAnI32 { value: WideInt::Signed(1 << 40) })
    );
    assert_eq!(dst, vec![num(1), Slot::Nil, num(3), Slot::Nil]);
}

#[test]
fn argument_lists_from_rest() {
    let mut heap = Heap::new();
    let mut dst = vec![];
    Rest::with(vec![1u8, 2].into_iter(), |mut rest: Rest<u8>| {
        assert_eq!((&rest).arg_count(), 2);
        assert_eq!((&rest).into_call_args(&mut dst, &mut heap), Ok(()));
        assert_eq!((&mut rest).into_call_args(&mut dst, &mut heap), Ok(()));
        assert_eq!(rest.into_call_args(&mut dst, &mut heap), Ok(()));
    });
    assert_eq!(dst, vec![num(1), num(2), num(1), num(2), num(1), num(2)]);
    let mut dst = vec![];
    Rest::with(vec![1u64 << 40, 2].into_iter(), |rest: Rest<u64>| {
        assert!(rest.into_call_args(&mut dst, &mut heap).is_err());
    });
    assert_eq!(dst, vec![Slot::Nil, num(2)]);
}

/// A counter: to convert it by mutable reference moves it on.
#[derive(Debug, PartialEq)]
struct Counter(i32);

impl IntoValMut for Counter {
    fn mut_to_val(self, _: Store) -> (Store, GResult<Val>) {
        unreachable!()
    }

    fn leaves(self, _: Store, _: Counter) -> bool {
        unreachable!()
    }

    fn into_val_mut(&mut self, _: &mut Heap) -> GResult<Val> {
        if self.0 < 0 {
            return Err(GError::Raised { token: 1 });
        }
        self.0 += 1;
        Ok(Val::Int(self.0))
    }
}

#[test]
fn argument_lists_by_mutable_reference() {
    let mut heap = Heap::new();
    let mut dst = vec![];
    let mut array = [Counter(1), Counter(-1), Counter(5)];
    assert_eq!((&mut array).arg_count(), 3);
    let failed = (&mut array).into_call_args(&mut dst, &mut heap);
    assert_eq!(failed, Err(GError::Raised { token: 1 }));
    assert_eq!(dst, vec![num(2), Slot::Nil, num(6)]);
    assert_eq!(array, [Counter(2), Counter(-1), Counter(6)]);
    assert_eq!((&mut array[2..]).into_call_args(&mut dst, &mut heap), Ok(()));
    assert_eq!(dst[3..], [num(7)]);

    let mut tuple = (Counter(1), 'c', Counter(5));
    dst.clear();
    assert_eq!((&mut tuple).into_call_args(&mut dst, &mut heap), Ok(()));
    assert_eq!(dst, vec![num(2), Slot::Char('c'), num(6)]);
    assert_eq!(tuple, (Counter(2), 'c', Counter(6)));
    let mut tuple = (Counter(1), Counter(-1), Counter(5));
    let failed = (&mut tuple).into_call_args(&mut dst, &mut heap);
    assert_eq!(failed, Err(GError::Raised { token: 1 }));
    assert_eq!(dst.len(), 3);
    assert_eq!(tuple, (Counter(2), Counter(-1), Counter(5)));

    dst.clear();
    let left = Rest::with(vec![Counter(3), Counter(4)].into_iter(), |mut rest: Rest<Counter>| {
        assert_eq!((&mut rest).into_call_args(&mut dst, &mut heap), Ok(()));
        rest.into_vec()
    });
    assert_eq!(dst, vec![num(4), num(5)]);
    assert_eq!(left, vec![Counter(4), Counter(5)]);
}

#[test]
fn symbols_beyond_the_stock_have_no_name() {
    let heap = Heap::new();
    assert_eq!(heap.sym_name(Sym { id: 99 }), "");
    assert_eq!(heap.name_of_type(TypeKey { id: 99 }), "");
}

#[test]
fn what_is_passed_to_a_call_arrives() {
    let mut heap = Heap::new();
    let mut args = vec![];
    let list = vec![(1u8, "one".to_string()), (2, "two".to_string())];
    assert_eq!((list, -7i64, true).into_call_args(&mut args, &mut heap), Ok(()));
    let w = wrap::<((Vec<(u8, String)>, TagArg), (i64, TagArg), (bool, TagArg)), bool, _>(
        |heap: Heap, list: Vec<(u8, String)>, n: i64, flag: bool| {
            let same = list == vec![(1, "one".to_string()), (2, "two".to_string())];
            (heap, same && n == -7 && flag)
        },
    );
    assert_eq!(w.wrapped_call(&args, &mut heap), Ok(Slot::Bool(true)));
}

#[test]
fn host_types_known_by_number_alone() {
    let mut heap = Heap::new();
    let data = HostValue::<DataType<6>>::new(60).into_slot(&mut heap).unwrap();
    heap.add_global(HostCell { type_key: TypeKey { id: 7 }, payload: 70 });
    let w = wrap::<
        ((&'static GlobalType<7>, TagArgRef), (&'static mut DataType<6>, TagArgRef)),
        u64,
        _,
    >(|heap: Heap, global: &HostValue<GlobalType<7>>, data: &mut HostValue<DataType<6>>| {
        (heap, global.payload() + data.payload())
    });
    assert_eq!(w.arg_limits(), (1, 1));
    assert_eq!(w.wrapped_call(&[data], &mut heap), Ok(num(130)));
}

struct Rgb(u8, u8, u8);

impl IntoVal for Rgb {
    fn to_val(self, _: Store) -> (Store, GResult<Val>) {
        unreachable!()
    }

    fn into_val(self, heap: &mut Heap) -> GResult<Val> {
        let Rgb(r, g, b) = self;
        (r, g, b).into_val(heap)
    }
}

impl Modelled for Rgb {
    type Model = (u8, u8, u8);

    fn model(self) -> (u8, u8, u8) {
        unreachable!()
    }
}

impl FromVal for Rgb {
    fn of_val(_: Store, _: Val) -> GResult<(u8, u8, u8)> {
        unreachable!()
    }

    fn from_val(heap: &Heap, val: &Val) -> GResult<Rgb> {
        let (r, g, b) = <(u8, u8, u8)>::from_val(heap, val)?;
        Ok(Rgb(r, g, b))
    }
}

fn light_sea_green() -> Rgb {
    Rgb(32, 178, 170)
}

fn describe_rgb(rgb: Rgb) -> String {
    let Rgb(r, g, b) = rgb;
    format!("Red: {}\nGreen: {}\nBlue: {}", r, g, b)
}

#[test]
fn functions_of_a_type_of_your_own() {
    let mut heap = Heap::new();
    let make = wrap::<(), Rgb, _>(|heap: Heap| (heap, light_sea_green()));
    let describe = wrap::<((Rgb, TagArg),), String, _>(|heap: Heap, rgb: Rgb| {
        (heap, describe_rgb(rgb))
    });
    let green = make.wrapped_call(&[], &mut heap).unwrap();
    match green {
        Slot::Arr(raw) => {
            assert_eq!(heap.arr(raw.root()).unwrap(), &vec![num(32), num(178), num(170)]);
        },
        other => panic!("not an array: {:?}", other),
    }
    let text = describe.wrapped_call(&[green], &mut heap).unwrap();
    assert_eq!(
        String::from_slot(&heap, &text),
        Ok("Red: 32\nGreen: 178\nBlue: 170".to_string())
    );
}
