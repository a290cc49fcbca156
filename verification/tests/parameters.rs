use glsp_wrap::limits::{arg_limits, ArgType, ParamError};

const N: ArgType = ArgType::Normal;
const O: ArgType = ArgType::Option;
const R: ArgType = ArgType::Rest;
const G: ArgType = ArgType::RGlobal;

#[test]
fn limits_of_plain_parameters() {
    assert_eq!(arg_limits(&[]), Ok((0, 0)));
    assert_eq!(arg_limits(&[N]), Ok((1, 1)));
    assert_eq!(arg_limits(&[N, N, N]), Ok((3, 3)));
}

#[test]
fn optional_parameters_widen_the_limits() {
    assert_eq!(arg_limits(&[O]), Ok((0, 1)));
    assert_eq!(arg_limits(&[N, O, O]), Ok((1, 3)));
}

#[test]
fn an_optional_parameter_before_a_plain_one_is_required() {
    assert_eq!(arg_limits(&[O, N]), Ok((2, 2)));
    assert_eq!(arg_limits(&[N, O, N, O]), Ok((3, 4)));
}

#[test]
fn rest_lifts_the_upper_limit() {
    assert_eq!(arg_limits(&[R]), Ok((0, usize::MAX)));
    assert_eq!(arg_limits(&[N, O, R]), Ok((1, usize::MAX)));
    assert_eq!(arg_limits(&[N, R, R, G]), Ok((1, usize::MAX)));
}

#[test]
fn nothing_that_takes_an_argument_may_follow_rest() {
    let error = arg_limits(&[R, N]).unwrap_err();
    assert_eq!(error, ParamError::NormalAfterRest);
    assert_eq!(error.message(), "Rest<T> followed by a normal argument");
    let error = arg_limits(&[N, R, G, O, N]).unwrap_err();
    assert_eq!(error, ParamError::OptionAfterRest);
    assert_eq!(error.message(), "Rest<T> followed by an Option<T> argument");
}

#[test]
fn globals_count_for_nothing() {
    assert_eq!(arg_limits(&[G]), Ok((0, 0)));
    assert_eq!(arg_limits(&[G, N, G, O, G]), arg_limits(&[N, O]));
    assert_eq!(arg_limits(&[G, N, O, G, N, R, G]), arg_limits(&[N, O, N, R]));
}

#[test]
fn eight_parameters() {
    assert_eq!(arg_limits(&[N, N, N, N, O, O, O, O]), Ok((4, 8)));
}

fn lists_of(len: usize) -> Vec<Vec<ArgType>> {
    let mut lists = vec![vec![]];
    for _ in 0..len {
        let mut longer = vec![];
        for list in &lists {
            for kind in [N, O, R, G] {
                let mut next = list.clone();
                next.push(kind);
                longer.push(next);
            }
        }
        lists = longer;
    }
    lists
}

#[test]
fn the_lower_limit_is_never_above_the_upper() {
    for len in 0..6 {
        for list in lists_of(len) {
            if let Ok((min, max)) = arg_limits(&list) {
                assert!(min <= max, "{:?}", list);
            }
        }
    }
}

#[test]
fn rest_may_stand_last() {
    for list in lists_of(4) {
        let takes: Vec<ArgType> = list.iter().copied().filter(|kind| *kind != G).collect();
        let early = takes.iter().rev().skip(1).any(|kind| *kind == R);
        if !early {
            assert!(arg_limits(&list).is_ok(), "{:?}", list);
        }
    }
}

#[test]
fn a_global_anywhere_leaves_the_limits_alone() {
    for list in lists_of(4) {
        for at in 0..=list.len() {
            let mut with = list.clone();
            with.insert(at, G);
            assert_eq!(arg_limits(&with), arg_limits(&list));
        }
    }
}
