//! How many arguments a host function takes, worked out from the types of its parameters.

use vstd::prelude::*;

verus! {

/// How a parameter takes its argument.
#[derive(Clone, Copy, Debug, PartialEq, Eq, Structural)]
pub enum ArgType {
    /// It takes none: it borrows a global.
    RGlobal,
    /// It takes one.
    Normal,
    /// It takes one, or goes without.
    Option,
    /// It takes all that are left.
    Rest,
}

/// Why a list of parameters makes no sense.
#[derive(Clone, Copy, Debug, PartialEq, Eq, Structural)]
pub enum ParamError {
    /// `Rest<T>` followed by a normal argument.
    NormalAfterRest,
    /// `Rest<T>` followed by an `Option<T>` argument.
    OptionAfterRest,
}

/// The parameter takes one argument at most.
pub open spec fn positional(param: ArgType) -> bool {
    param is Normal || param is Option
}

/// How many parameters take one argument at most.
pub open spec fn positions(params: Seq<ArgType>) -> nat
    decreases params.len(),
{
    if params.len() == 0 {
        0
    } else if positional(params.last()) {
        positions(params.drop_last()) + 1
    } else {
        positions(params.drop_last())
    }
}

/// The fewest arguments with which every normal parameter gets one: as many as there are
/// positional parameters up to the last normal one.
pub open spec fn fewest(params: Seq<ArgType>) -> nat
    decreases params.len(),
{
    if params.len() == 0 {
        0
    } else if params.last() is Normal {
        positions(params)
    } else {
        fewest(params.drop_last())
    }
}

/// Some parameter takes all the arguments that are left.
pub open spec fn open_ended(params: Seq<ArgType>) -> bool {
    exists|i: int| #![trigger params[i]] 0 <= i < params.len() && params[i] is Rest
}

/// The most arguments for which there is a parameter.
pub open spec fn most(params: Seq<ArgType>) -> nat {
    if open_ended(params) {
        usize::MAX as nat
    } else {
        positions(params)
    }
}

/// The parameter `i` can never get an argument: one before it takes all that are left.
pub open spec fn starved(params: Seq<ArgType>, i: int) -> bool {
    0 <= i < params.len() && positional(params[i]) && open_ended(params.take(i))
}

/// Every parameter can get its argument.
pub open spec fn sensible(params: Seq<ArgType>) -> bool {
    forall|i: int| !#[trigger] starved(params, i)
}

/// The argument at which parameter `i` starts: every parameter before it moves on by one, but
/// for those that borrow a global.
pub open spec fn start_of(params: Seq<ArgType>, i: int) -> nat
    decreases i,
{
    if i <= 0 {
        0
    } else if params[i - 1] is RGlobal {
        start_of(params, i - 1)
    } else {
        start_of(params, i - 1) + 1
    }
}

/// What is wrong with a list of parameters, told by the first that can get no argument.
pub open spec fn fault(params: Seq<ArgType>, i: int) -> ParamError {
    if params[i] is Normal {
        ParamError::NormalAfterRest
    } else {
        ParamError::OptionAfterRest
    }
}

/// Works out the fewest and the most arguments that a function with these parameters takes.
pub fn arg_limits(params: &[ArgType]) -> (r: Result<(usize, usize), ParamError>)
    ensures
        match r {
            Ok(limits) => {
                &&& sensible(params@)
                &&& limits.0 == fewest(params@)
                &&& limits.1 == most(params@)
            },
            Err(e) => exists|i: int|
                #[trigger] starved(params@, i) && e == fault(params@, i) && forall|j: int|
                    j < i ==> !#[trigger] starved(params@, j),
        },
{
    let mut required_args: usize = 0;
    let mut optional_args: usize = 0;
    let mut seen_rest: bool = false;
    let mut i: usize = 0;
    while i < params.len()
        invariant
            i <= params.len(),
            required_args == fewest(params@.take(i as int)),
            required_args + optional_args == positions(params@.take(i as int)),
            required_args + optional_args <= i,
            seen_rest == open_ended(params@.take(i as int)),
            forall|j: int| j < i ==> !#[trigger] starved(params@, j),
        decreases params.len() - i,
    {
        let ghost now = params@.take(i as int);
        let ghost next = params@.take(i + 1);
        let param = params[i];
        proof {
            assert(next.drop_last() =~= now);
            assert(next.last() == param);
            assert(open_ended(next) == (open_ended(now) || param is Rest)) by {
                if open_ended(now) {
                    let j = choose|j: int| #![trigger now[j]] 0 <= j < now.len() && now[j] is Rest;
                    assert(next[j] is Rest);
                }
                if param is Rest {
                    assert(next[i as int] is Rest);
                }
                if open_ended(next) && !(param is Rest) {
                    let j = choose|j: int|
                        #![trigger next[j]]
                        0 <= j < next.len() && next[j] is Rest;
                    assert(now[j] is Rest);
                }
            }
        }
        match param {
            ArgType::Normal => {
                if seen_rest {
                    assert(starved(params@, i as int));
                    return Err(ParamError::NormalAfterRest);
                }
                required_args = required_args + optional_args + 1;
                optional_args = 0;
            },
            ArgType::Option => {
                if seen_rest {
                    assert(starved(params@, i as int));
                    return Err(ParamError::OptionAfterRest);
                }
                optional_args = optional_args + 1;
            },
            ArgType::Rest => {
                seen_rest = true;
            },
            ArgType::RGlobal => {},
        }
        i = i + 1;
    }
    proof {
        assert(params@.take(i as int) =~= params@);
    }
    if seen_rest {
        Ok((required_args, usize::MAX))
    } else {
        Ok((required_args, required_args + optional_args))
    }
}

proof fn lemma_fewest_le_positions(params: Seq<ArgType>)
    ensures
        fewest(params) <= positions(params) <= params.len(),
    decreases params.len(),
{
    if params.len() > 0 {
        lemma_fewest_le_positions(params.drop_last());
    }
}

/// A function never asks for more arguments than it takes.
pub proof fn law_limits_ordered(params: Seq<ArgType>)
    requires
        params.len() <= usize::MAX,
    ensures
        fewest(params) <= most(params),
{
    lemma_fewest_le_positions(params);
}

proof fn lemma_start_of_take(params: Seq<ArgType>, k: int, i: int)
    requires
        0 <= i <= k <= params.len(),
    ensures
        start_of(params.take(k), i) == start_of(params, i),
    decreases i,
{
    if i > 0 {
        lemma_start_of_take(params, k, i - 1);
    }
}

proof fn lemma_start_of_positions(params: Seq<ArgType>, i: int)
    requires
        0 <= i <= params.len(),
        !open_ended(params.take(i)),
    ensures
        start_of(params, i) == positions(params.take(i)),
    decreases i,
{
    if i > 0 {
        let now = params.take(i);
        assert(now.drop_last() =~= params.take(i - 1));
        assert(now[i - 1] == params[i - 1]);
        assert(!open_ended(params.take(i - 1))) by {
            if open_ended(params.take(i - 1)) {
                let j = choose|j: int|
                    #![trigger params.take(i - 1)[j]]
                    0 <= j < i - 1 && params.take(i - 1)[j] is Rest;
                assert(now[j] is Rest);
            }
        }
        lemma_start_of_positions(params, i - 1);
    }
}

proof fn lemma_fewest_reaches(params: Seq<ArgType>, i: int)
    requires
        0 <= i < params.len(),
        params[i] is Normal,
    ensures
        positions(params.take(i)) < fewest(params),
    decreases params.len(),
{
    if i == params.len() - 1 {
        assert(params.take(i) =~= params.drop_last());
    } else {
        let shorter = params.drop_last();
        assert(shorter.take(i) =~= params.take(i));
        lemma_fewest_reaches(shorter, i);
        lemma_fewest_le_positions(shorter);
    }
}

/// Where a call brings as many arguments as the limits ask for, every normal parameter starts at
/// one of them.
pub proof fn law_normal_in_range(params: Seq<ArgType>, i: int, count: nat)
    requires
        sensible(params),
        0 <= i < params.len(),
        params[i] is Normal,
        fewest(params) <= count,
    ensures
        start_of(params, i) < count,
{
    assert(!starved(params, i));
    lemma_start_of_positions(params, i);
    lemma_fewest_reaches(params, i);
}

/// Where none but the last parameter takes all the arguments that are left, every parameter can get
/// its argument.
pub proof fn law_rest_may_stand_last(params: Seq<ArgType>)
    requires
        params.len() == 0 || !open_ended(params.drop_last()),
    ensures
        sensible(params),
{
    assert forall|i: int| !#[trigger] starved(params, i) by {
        if starved(params, i) {
            let before = params.take(i);
            let j = choose|j: int| #![trigger before[j]] 0 <= j < before.len() && before[j] is Rest;
            assert(params.drop_last()[j] is Rest);
        }
    }
}

/// The limits ask for no more than it takes: with one argument less than the fewest, some normal
/// parameter would start past the last of them.
pub proof fn law_fewest_is_least(params: Seq<ArgType>)
    requires
        sensible(params),
        fewest(params) > 0,
    ensures
        exists|i: int|
            0 <= i < params.len() && params[i] is Normal && #[trigger] start_of(params, i) + 1
                == fewest(params),
    decreases params.len(),
{
    let last = params.len() - 1;
    let shorter = params.drop_last();
    if params.last() is Normal {
        assert(!starved(params, last));
        assert(params.take(last) =~= shorter);
        lemma_start_of_positions(params, last);
        assert(start_of(params, last) + 1 == fewest(params));
    } else {
        assert forall|i: int| !#[trigger] starved(shorter, i) by {
            if 0 <= i < shorter.len() {
                assert(shorter.take(i) =~= params.take(i));
                assert(!starved(params, i));
            }
        }
        law_fewest_is_least(shorter);
        let i = choose|i: int|
            0 <= i < shorter.len() && shorter[i] is Normal && #[trigger] start_of(shorter, i) + 1
                == fewest(shorter);
        lemma_start_of_take(params, last, i);
        assert(shorter =~= params.take(last));
        assert(start_of(params, i) + 1 == fewest(params));
    }
}

} // verus!
