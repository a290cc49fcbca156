//! `FromVal` for tuples of up to twelve fields: each is filled from an array of as many items.

use vstd::prelude::*;

use crate::error::{Expected, GError, GResult};
use crate::from_val::{items_of, read_items, FromVal, Modelled, Plain};
use crate::store::{Heap, Store};
use crate::value::{Slot, Val};

verus! {

/// The items of the array that a value is, where there are `len` of them.
pub open spec fn fields_of(h: Store, v: Val, len: usize) -> GResult<Seq<Slot>> {
    match items_of(h, v, Expected::Tuple) {
        Err(e) => Err(e),
        Ok(slots) => if slots.len() != len {
            Err(GError::TupleLength { expected: len, received: slots.len() as usize })
        } else {
            Ok(slots)
        },
    }
}

/// Looks up the items of the array that a value is, where there are `len` of them.
fn read_fields<'a>(heap: &'a Heap, val: &Val, len: usize) -> (r: GResult<&'a Vec<Slot>>)
    ensures
        match r {
            Ok(slots) => fields_of(heap@, *val, len) == Ok::<Seq<Slot>, GError>(slots@)
                && slots@.len() == len,
            Err(e) => fields_of(heap@, *val, len) == Err::<Seq<Slot>, GError>(e),
        },
{
    match read_items(heap, val, Expected::Tuple) {
        Err(e) => Err(e),
        Ok(slots) => if slots.len() != len {
            Err(GError::TupleLength { expected: len, received: slots.len() })
        } else {
            Ok(slots)
        },
    }
}

impl<A: Modelled> Modelled for (A,) {
    type Model = (A::Model,);

    open spec fn model(self) -> (A::Model,) {
        (self.0.model(),)
    }
}

impl<A: Plain> Plain for (A,) {
    proof fn stands_for_itself(self) {
        self.0.stands_for_itself();
    }
}

impl<A: FromVal> FromVal for (A,) {
    open spec fn of_val(h: Store, v: Val) -> GResult<(A::Model,)> {
        match fields_of(h, v, 1) {
            Err(e) => Err(e),
            Ok(slots) => {
                let f0 = A::of_val(h, slots[0].val());
                if f0 is Err {
                    Err(f0->Err_0)
                } else {
                    Ok((f0->Ok_0,))
                }
            },
        }
    }

    fn from_val(heap: &Heap, val: &Val) -> (r: GResult<(A,)>) {
        let slots = match read_fields(heap, val, 1) {
            Ok(slots) => slots,
            Err(e) => return Err(e),
        };
        let f0 = match A::from_slot(heap, &slots[0]) {
            Ok(f0) => f0,
            Err(e) => return Err(e),
        };
        Ok((f0,))
    }
}

impl<A: Modelled, B: Modelled> Modelled for (A, B) {
    type Model = (A::Model, B::Model);

    open spec fn model(self) -> (A::Model, B::Model) {
        (self.0.model(), self.1.model())
    }
}

impl<A: Plain, B: Plain> Plain for (A, B) {
    proof fn stands_for_itself(self) {
        self.0.stands_for_itself();
        self.1.stands_for_itself();
    }
}

impl<A: FromVal, B: FromVal> FromVal for (A, B) {
    open spec fn of_val(h: Store, v: Val) -> GResult<(A::Model, B::Model)> {
        match fields_of(h, v, 2) {
            Err(e) => Err(e),
            Ok(slots) => {
                let f0 = A::of_val(h, slots[0].val());
                let f1 = B::of_val(h, slots[1].val());
                if f0 is Err {
                    Err(f0->Err_0)
                } else if f1 is Err {
                    Err(f1->Err_0)
                } else {
                    Ok((f0->Ok_0, f1->Ok_0))
                }
            },
        }
    }

    fn from_val(heap: &Heap, val: &Val) -> (r: GResult<(A, B)>) {
        let slots = match read_fields(heap, val, 2) {
            Ok(slots) => slots,
            Err(e) => return Err(e),
        };
        let f0 = match A::from_slot(heap, &slots[0]) {
            Ok(f0) => f0,
            Err(e) => return Err(e),
        };
        let f1 = match B::from_slot(heap, &slots[1]) {
            Ok(f1) => f1,
            Err(e) => return Err(e),
        };
        Ok((f0, f1))
    }
}

impl<A: Modelled, B: Modelled, C: Modelled> Modelled for (A, B, C) {
    type Model = (A::Model, B::Model, C::Model);

    open spec fn model(self) -> (A::Model, B::Model, C::Model) {
        (self.0.model(), self.1.model(), self.2.model())
    }
}

impl<A: Plain, B: Plain, C: Plain> Plain for (A, B, C) {
    proof fn stands_for_itself(self) {
        self.0.stands_for_itself();
        self.1.stands_for_itself();
        self.2.stands_for_itself();
    }
}

impl<A: FromVal, B: FromVal, C: FromVal> FromVal for (A, B, C) {
    open spec fn of_val(h: Store, v: Val) -> GResult<(A::Model, B::Model, C::Model)> {
        match fields_of(h, v, 3) {
            Err(e) => Err(e),
            Ok(slots) => {
                let f0 = A::of_val(h, slots[0].val());
                let f1 = B::of_val(h, slots[1].val());
                let f2 = C::of_val(h, slots[2].val());
                if f0 is Err {
                    Err(f0->Err_0)
                } else if f1 is Err {
                    Err(f1->Err_0)
                } else if f2 is Err {
                    Err(f2->Err_0)
                } else {
                    Ok((f0->Ok_0, f1->Ok_0, f2->Ok_0))
                }
            },
        }
    }

    fn from_val(heap: &Heap, val: &Val) -> (r: GResult<(A, B, C)>) {
        let slots = match read_fields(heap, val, 3) {
            Ok(slots) => slots,
            Err(e) => return Err(e),
        };
        let f0 = match A::from_slot(heap, &slots[0]) {
            Ok(f0) => f0,
            Err(e) => return Err(e),
        };
        let f1 = match B::from_slot(heap, &slots[1]) {
            Ok(f1) => f1,
            Err(e) => return Err(e),
        };
        let f2 = match C::from_slot(heap, &slots[2]) {
            Ok(f2) => f2,
            Err(e) => return Err(e),
        };
        Ok((f0, f1, f2))
    }
}

impl<A: Modelled, B: Modelled, C: Modelled, D: Modelled> Modelled for (A, B, C, D) {
    type Model = (A::Model, B::Model, C::Model, D::Model);

    open spec fn model(self) -> (A::Model, B::Model, C::Model, D::Model) {
        (self.0.model(), self.1.model(), self.2.model(), self.3.model())
    }
}

impl<A: Plain, B: Plain, C: Plain, D: Plain> Plain for (A, B, C, D) {
    proof fn stands_for_itself(self) {
        self.0.stands_for_itself();
        self.1.stands_for_itself();
        self.2.stands_for_itself();
        self.3.stands_for_itself();
    }
}

impl<A: FromVal, B: FromVal, C: FromVal, D: FromVal> FromVal for (A, B, C, D) {
    open spec fn of_val(h: Store, v: Val) -> GResult<(A::Model, B::Model, C::Model, D::Model)> {
        match fields_of(h, v, 4) {
            Err(e) => Err(e),
            Ok(slots) => {
                let f0 = A::of_val(h, slots[0].val());
                let f1 = B::of_val(h, slots[1].val());
                let f2 = C::of_val(h, slots[2].val());
                let f3 = D::of_val(h, slots[3].val());
                if f0 is Err {
                    Err(f0->Err_0)
                } else if f1 is Err {
                    Err(f1->Err_0)
                } else if f2 is Err {
                    Err(f2->Err_0)
                } else if f3 is Err {
                    Err(f3->Err_0)
                } else {
                    Ok((f0->Ok_0, f1->Ok_0, f2->Ok_0, f3->Ok_0))
                }
            },
        }
    }

    fn from_val(heap: &Heap, val: &Val) -> (r: GResult<(A, B, C, D)>) {
        let slots = match read_fields(heap, val, 4) {
            Ok(slots) => slots,
            Err(e) => return Err(e),
        };
        let f0 = match A::from_slot(heap, &slots[0]) {
            Ok(f0) => f0,
            Err(e) => return Err(e),
        };
        let f1 = match B::from_slot(heap, &slots[1]) {
            Ok(f1) => f1,
            Err(e) => return Err(e),
        };
        let f2 = match C::from_slot(heap, &slots[2]) {
            Ok(f2) => f2,
            Err(e) => return Err(e),
        };
        let f3 = match D::from_slot(heap, &slots[3]) {
            Ok(f3) => f3,
            Err(e) => return Err(e),
        };
        Ok((f0, f1, f2, f3))
    }
}

impl<A: Modelled, B: Modelled, C: Modelled, D: Modelled, E: Modelled> Modelled for (A, B, C, D, E) {
    type Model = (A::Model, B::Model, C::Model, D::Model, E::Model);

    open spec fn model(self) -> (A::Model, B::Model, C::Model, D::Model, E::Model) {
        (self.0.model(), self.1.model(), self.2.model(), self.3.model(), self.4.model())
    }
}

impl<A: Plain, B: Plain, C: Plain, D: Plain, E: Plain> Plain for (A, B, C, D, E) {
    proof fn stands_for_itself(self) {
        self.0.stands_for_itself();
        self.1.stands_for_itself();
        self.2.stands_for_itself();
        self.3.stands_for_itself();
        self.4.stands_for_itself();
    }
}

impl<A: FromVal, B: FromVal, C: FromVal, D: FromVal, E: FromVal> FromVal for (A, B, C, D, E) {
    open spec fn of_val(h: Store, v: Val) -> GResult<
        (A::Model, B::Model, C::Model, D::Model, E::Model),
    > {
        match fields_of(h, v, 5) {
            Err(e) => Err(e),
            Ok(slots) => {
                let f0 = A::of_val(h, slots[0].val());
                let f1 = B::of_val(h, slots[1].val());
                let f2 = C::of_val(h, slots[2].val());
                let f3 = D::of_val(h, slots[3].val());
                let f4 = E::of_val(h, slots[4].val());
                if f0 is Err {
                    Err(f0->Err_0)
                } else if f1 is Err {
                    Err(f1->Err_0)
                } else if f2 is Err {
                    Err(f2->Err_0)
                } else if f3 is Err {
                    Err(f3->Err_0)
                } else if f4 is Err {
                    Err(f4->Err_0)
                } else {
                    Ok((f0->Ok_0, f1->Ok_0, f2->Ok_0, f3->Ok_0, f4->Ok_0))
                }
            },
        }
    }

    fn from_val(heap: &Heap, val: &Val) -> (r: GResult<(A, B, C, D, E)>) {
        let slots = match read_fields(heap, val, 5) {
            Ok(slots) => slots,
            Err(e) => return Err(e),
        };
        let f0 = match A::from_slot(heap, &slots[0]) {
            Ok(f0) => f0,
            Err(e) => return Err(e),
        };
        let f1 = match B::from_slot(heap, &slots[1]) {
            Ok(f1) => f1,
            Err(e) => return Err(e),
        };
        let f2 = match C::from_slot(heap, &slots[2]) {
            Ok(f2) => f2,
            Err(e) => return Err(e),
        };
        let f3 = match D::from_slot(heap, &slots[3]) {
            Ok(f3) => f3,
            Err(e) => return Err(e),
        };
        let f4 = match E::from_slot(heap, &slots[4]) {
            Ok(f4) => f4,
            Err(e) => return Err(e),
        };
        Ok((f0, f1, f2, f3, f4))
    }
}

impl<
    A: Modelled,
    B: Modelled,
    C: Modelled,
    D: Modelled,
    E: Modelled,
    F: Modelled,
> Modelled for (A, B, C, D, E, F) {
    type Model = (A::Model, B::Model, C::Model, D::Model, E::Model, F::Model);

    open spec fn model(self) -> (A::Model, B::Model, C::Model, D::Model, E::Model, F::Model) {
        (
            self.0.model(),
            self.1.model(),
            self.2.model(),
            self.3.model(),
            self.4.model(),
            self.5.model(),
        )
    }
}

impl<A: Plain, B: Plain, C: Plain, D: Plain, E: Plain, F: Plain> Plain for (A, B, C, D, E, F) {
    proof fn stands_for_itself(self) {
        self.0.stands_for_itself();
        self.1.stands_for_itself();
        self.2.stands_for_itself();
        self.3.stands_for_itself();
        self.4.stands_for_itself();
        self.5.stands_for_itself();
    }
}

impl<
    A: FromVal,
    B: FromVal,
    C: FromVal,
    D: FromVal,
    E: FromVal,
    F: FromVal,
> FromVal for (A, B, C, D, E, F) {
    open spec fn of_val(h: Store, v: Val) -> GResult<
        (A::Model, B::Model, C::Model, D::Model, E::Model, F::Model),
    > {
        match fields_of(h, v, 6) {
            Err(e) => Err(e),
            Ok(slots) => {
                let f0 = A::of_val(h, slots[0].val());
                let f1 = B::of_val(h, slots[1].val());
                let f2 = C::of_val(h, slots[2].val());
                let f3 = D::of_val(h, slots[3].val());
                let f4 = E::of_val(h, slots[4].val());
                let f5 = F::of_val(h, slots[5].val());
                if f0 is Err {
                    Err(f0->Err_0)
                } else if f1 is Err {
                    Err(f1->Err_0)
                } else if f2 is Err {
                    Err(f2->Err_0)
                } else if f3 is Err {
                    Err(f3->Err_0)
                } else if f4 is Err {
                    Err(f4->Err_0)
                } else if f5 is Err {
                    Err(f5->Err_0)
                } else {
                    Ok((f0->Ok_0, f1->Ok_0, f2->Ok_0, f3->Ok_0, f4->Ok_0, f5->Ok_0))
                }
            },
        }
    }

    fn from_val(heap: &Heap, val: &Val) -> (r: GResult<(A, B, C, D, E, F)>) {
        let slots = match read_fields(heap, val, 6) {
            Ok(slots) => slots,
            Err(e) => return Err(e),
        };
        let f0 = match A::from_slot(heap, &slots[0]) {
            Ok(f0) => f0,
            Err(e) => return Err(e),
        };
        let f1 = match B::from_slot(heap, &slots[1]) {
            Ok(f1) => f1,
            Err(e) => return Err(e),
        };
        let f2 = match C::from_slot(heap, &slots[2]) {
            Ok(f2) => f2,
            Err(e) => return Err(e),
        };
        let f3 = match D::from_slot(heap, &slots[3]) {
            Ok(f3) => f3,
            Err(e) => return Err(e),
        };
        let f4 = match E::from_slot(heap, &slots[4]) {
            Ok(f4) => f4,
            Err(e) => return Err(e),
        };
        let f5 = match F::from_slot(heap, &slots[5]) {
            Ok(f5) => f5,
            Err(e) => return Err(e),
        };
        Ok((f0, f1, f2, f3, f4, f5))
    }
}

impl<
    A: Modelled,
    B: Modelled,
    C: Modelled,
    D: Modelled,
    E: Modelled,
    F: Modelled,
    G: Modelled,
> Modelled for (A, B, C, D, E, F, G) {
    type Model = (A::Model, B::Model, C::Model, D::Model, E::Model, F::Model, G::Model);

    open spec fn model(self) -> (
        A::Model,
        B::Model,
        C::Model,
        D::Model,
        E::Model,
        F::Model,
        G::Model,
    ) {
        (
            self.0.model(),
            self.1.model(),
            self.2.model(),
            self.3.model(),
            self.4.model(),
            self.5.model(),
            self.6.model(),
        )
    }
}

impl<
    A: Plain,
    B: Plain,
    C: Plain,
    D: Plain,
    E: Plain,
    F: Plain,
    G: Plain,
> Plain for (A, B, C, D, E, F, G) {
    proof fn stands_for_itself(self) {
        self.0.stands_for_itself();
        self.1.stands_for_itself();
        self.2.stands_for_itself();
        self.3.stands_for_itself();
        self.4.stands_for_itself();
        self.5.stands_for_itself();
        self.6.stands_for_itself();
    }
}

impl<
    A: FromVal,
    B: FromVal,
    C: FromVal,
    D: FromVal,
    E: FromVal,
    F: FromVal,
    G: FromVal,
> FromVal for (A, B, C, D, E, F, G) {
    open spec fn of_val(h: Store, v: Val) -> GResult<
        (A::Model, B::Model, C::Model, D::Model, E::Model, F::Model, G::Model),
    > {
        match fields_of(h, v, 7) {
            Err(e) => Err(e),
            Ok(slots) => {
                let f0 = A::of_val(h, slots[0].val());
                let f1 = B::of_val(h, slots[1].val());
                let f2 = C::of_val(h, slots[2].val());
                let f3 = D::of_val(h, slots[3].val());
                let f4 = E::of_val(h, slots[4].val());
                let f5 = F::of_val(h, slots[5].val());
                let f6 = G::of_val(h, slots[6].val());
                if f0 is Err {
                    Err(f0->Err_0)
                } else if f1 is Err {
                    Err(f1->Err_0)
                } else if f2 is Err {
                    Err(f2->Err_0)
                } else if f3 is Err {
                    Err(f3->Err_0)
                } else if f4 is Err {
                    Err(f4->Err_0)
                } else if f5 is Err {
                    Err(f5->Err_0)
                } else if f6 is Err {
                    Err(f6->Err_0)
                } else {
                    Ok((f0->Ok_0, f1->Ok_0, f2->Ok_0, f3->Ok_0, f4->Ok_0, f5->Ok_0, f6->Ok_0))
                }
            },
        }
    }

    fn from_val(heap: &Heap, val: &Val) -> (r: GResult<(A, B, C, D, E, F, G)>) {
        let slots = match read_fields(heap, val, 7) {
            Ok(slots) => slots,
            Err(e) => return Err(e),
        };
        let f0 = match A::from_slot(heap, &slots[0]) {
            Ok(f0) => f0,
            Err(e) => return Err(e),
        };
        let f1 = match B::from_slot(heap, &slots[1]) {
            Ok(f1) => f1,
            Err(e) => return Err(e),
        };
        let f2 = match C::from_slot(heap, &slots[2]) {
            Ok(f2) => f2,
            Err(e) => return Err(e),
        };
        let f3 = match D::from_slot(heap, &slots[3]) {
            Ok(f3) => f3,
            Err(e) => return Err(e),
        };
        let f4 = match E::from_slot(heap, &slots[4]) {
            Ok(f4) => f4,
            Err(e) => return Err(e),
        };
        let f5 = match F::from_slot(heap, &slots[5]) {
            Ok(f5) => f5,
            Err(e) => return Err(e),
        };
        let f6 = match G::from_slot(heap, &slots[6]) {
            Ok(f6) => f6,
            Err(e) => return Err(e),
        };
        Ok((f0, f1, f2, f3, f4, f5, f6))
    }
}

impl<
    A: Modelled,
    B: Modelled,
    C: Modelled,
    D: Modelled,
    E: Modelled,
    F: Modelled,
    G: Modelled,
    H: Modelled,
> Modelled for (A, B, C, D, E, F, G, H) {
    type Model = (A::Model, B::Model, C::Model, D::Model, E::Model, F::Model, G::Model, H::Model);

    open spec fn model(self) -> (
        A::Model,
        B::Model,
        C::Model,
        D::Model,
        E::Model,
        F::Model,
        G::Model,
        H::Model,
    ) {
        (
            self.0.model(),
            self.1.model(),
            self.2.model(),
            self.3.model(),
            self.4.model(),
            self.5.model(),
            self.6.model(),
            self.7.model(),
        )
    }
}

impl<
    A: Plain,
    B: Plain,
    C: Plain,
    D: Plain,
    E: Plain,
    F: Plain,
    G: Plain,
    H: Plain,
> Plain for (A, B, C, D, E, F, G, H) {
    proof fn stands_for_itself(self) {
        self.0.stands_for_itself();
        self.1.stands_for_itself();
        self.2.stands_for_itself();
        self.3.stands_for_itself();
        self.4.stands_for_itself();
        self.5.stands_for_itself();
        self.6.stands_for_itself();
        self.7.stands_for_itself();
    }
}

impl<
    A: FromVal,
    B: FromVal,
    C: FromVal,
    D: FromVal,
    E: FromVal,
    F: FromVal,
    G: FromVal,
    H: FromVal,
> FromVal for (A, B, C, D, E, F, G, H) {
    open spec fn of_val(h: Store, v: Val) -> GResult<
        (A::Model, B::Model, C::Model, D::Model, E::Model, F::Model, G::Model, H::Model),
    > {
        match fields_of(h, v, 8) {
            Err(e) => Err(e),
            Ok(slots) => {
                let f0 = A::of_val(h, slots[0].val());
                let f1 = B::of_val(h, slots[1].val());
                let f2 = C::of_val(h, slots[2].val());
                let f3 = D::of_val(h, slots[3].val());
                let f4 = E::of_val(h, slots[4].val());
                let f5 = F::of_val(h, slots[5].val());
                let f6 = G::of_val(h, slots[6].val());
                let f7 = H::of_val(h, slots[7].val());
                if f0 is Err {
                    Err(f0->Err_0)
                } else if f1 is Err {
                    Err(f1->Err_0)
                } else if f2 is Err {
                    Err(f2->Err_0)
                } else if f3 is Err {
                    Err(f3->Err_0)
                } else if f4 is Err {
                    Err(f4->Err_0)
                } else if f5 is Err {
                    Err(f5->Err_0)
                } else if f6 is Err {
                    Err(f6->Err_0)
                } else if f7 is Err {
                    Err(f7->Err_0)
                } else {
                    Ok(
                        (
                            f0->Ok_0,
                            f1->Ok_0,
                            f2->Ok_0,
                            f3->Ok_0,
                            f4->Ok_0,
                            f5->Ok_0,
                            f6->Ok_0,
                            f7->Ok_0,
                        ),
                    )
                }
            },
        }
    }

    fn from_val(heap: &Heap, val: &Val) -> (r: GResult<(A, B, C, D, E, F, G, H)>) {
        let slots = match read_fields(heap, val, 8) {
            Ok(slots) => slots,
            Err(e) => return Err(e),
        };
        let f0 = match A::from_slot(heap, &slots[0]) {
            Ok(f0) => f0,
            Err(e) => return Err(e),
        };
        let f1 = match B::from_slot(heap, &slots[1]) {
            Ok(f1) => f1,
            Err(e) => return Err(e),
        };
        let f2 = match C::from_slot(heap, &slots[2]) {
            Ok(f2) => f2,
            Err(e) => return Err(e),
        };
        let f3 = match D::from_slot(heap, &slots[3]) {
            Ok(f3) => f3,
            Err(e) => return Err(e),
        };
        let f4 = match E::from_slot(heap, &slots[4]) {
            Ok(f4) => f4,
            Err(e) => return Err(e),
        };
        let f5 = match F::from_slot(heap, &slots[5]) {
            Ok(f5) => f5,
            Err(e) => return Err(e),
        };
        let f6 = match G::from_slot(heap, &slots[6]) {
            Ok(f6) => f6,
            Err(e) => return Err(e),
        };
        let f7 = match H::from_slot(heap, &slots[7]) {
            Ok(f7) => f7,
            Err(e) => return Err(e),
        };
        Ok((f0, f1, f2, f3, f4, f5, f6, f7))
    }
}

impl<
    A: Modelled,
    B: Modelled,
    C: Modelled,
    D: Modelled,
    E: Modelled,
    F: Modelled,
    G: Modelled,
    H: Modelled,
    I: Modelled,
> Modelled for (A, B, C, D, E, F, G, H, I) {
    type Model = (
        A::Model,
        B::Model,
        C::Model,
        D::Model,
        E::Model,
        F::Model,
        G::Model,
        H::Model,
        I::Model,
    );

    open spec fn model(self) -> (
        A::Model,
        B::Model,
        C::Model,
        D::Model,
        E::Model,
        F::Model,
        G::Model,
        H::Model,
        I::Model,
    ) {
        (
            self.0.model(),
            self.1.model(),
            self.2.model(),
            self.3.model(),
            self.4.model(),
            self.5.model(),
            self.6.model(),
            self.7.model(),
            self.8.model(),
        )
    }
}

impl<
    A: Plain,
    B: Plain,
    C: Plain,
    D: Plain,
    E: Plain,
    F: Plain,
    G: Plain,
    H: Plain,
    I: Plain,
> Plain for (A, B, C, D, E, F, G, H, I) {
    proof fn stands_for_itself(self) {
        self.0.stands_for_itself();
        self.1.stands_for_itself();
        self.2.stands_for_itself();
        self.3.stands_for_itself();
        self.4.stands_for_itself();
        self.5.stands_for_itself();
        self.6.stands_for_itself();
        self.7.stands_for_itself();
        self.8.stands_for_itself();
    }
}

impl<
    A: FromVal,
    B: FromVal,
    C: FromVal,
    D: FromVal,
    E: FromVal,
    F: FromVal,
    G: FromVal,
    H: FromVal,
    I: FromVal,
> FromVal for (A, B, C, D, E, F, G, H, I) {
    open spec fn of_val(h: Store, v: Val) -> GResult<
        (A::Model, B::Model, C::Model, D::Model, E::Model, F::Model, G::Model, H::Model, I::Model),
    > {
        match fields_of(h, v, 9) {
            Err(e) => Err(e),
            Ok(slots) => {
                let f0 = A::of_val(h, slots[0].val());
                let f1 = B::of_val(h, slots[1].val());
                let f2 = C::of_val(h, slots[2].val());
                let f3 = D::of_val(h, slots[3].val());
                let f4 = E::of_val(h, slots[4].val());
                let f5 = F::of_val(h, slots[5].val());
                let f6 = G::of_val(h, slots[6].val());
                let f7 = H::of_val(h, slots[7].val());
                let f8 = I::of_val(h, slots[8].val());
                if f0 is Err {
                    Err(f0->Err_0)
                } else if f1 is Err {
                    Err(f1->Err_0)
                } else if f2 is Err {
                    Err(f2->Err_0)
                } else if f3 is Err {
                    Err(f3->Err_0)
                } else if f4 is Err {
                    Err(f4->Err_0)
                } else if f5 is Err {
                    Err(f5->Err_0)
                } else if f6 is Err {
                    Err(f6->Err_0)
                } else if f7 is Err {
                    Err(f7->Err_0)
                } else if f8 is Err {
                    Err(f8->Err_0)
                } else {
                    Ok(
                        (
                            f0->Ok_0,
                            f1->Ok_0,
                            f2->Ok_0,
                            f3->Ok_0,
                            f4->Ok_0,
                            f5->Ok_0,
                            f6->Ok_0,
                            f7->Ok_0,
                            f8->Ok_0,
                        ),
                    )
                }
            },
        }
    }

    fn from_val(heap: &Heap, val: &Val) -> (r: GResult<(A, B, C, D, E, F, G, H, I)>) {
        let slots = match read_fields(heap, val, 9) {
            Ok(slots) => slots,
            Err(e) => return Err(e),
        };
        let f0 = match A::from_slot(heap, &slots[0]) {
            Ok(f0) => f0,
            Err(e) => return Err(e),
        };
        let f1 = match B::from_slot(heap, &slots[1]) {
            Ok(f1) => f1,
            Err(e) => return Err(e),
        };
        let f2 = match C::from_slot(heap, &slots[2]) {
            Ok(f2) => f2,
            Err(e) => return Err(e),
        };
        let f3 = match D::from_slot(heap, &slots[3]) {
            Ok(f3) => f3,
            Err(e) => return Err(e),
        };
        let f4 = match E::from_slot(heap, &slots[4]) {
            Ok(f4) => f4,
            Err(e) => return Err(e),
        };
        let f5 = match F::from_slot(heap, &slots[5]) {
            Ok(f5) => f5,
            Err(e) => return Err(e),
        };
        let f6 = match G::from_slot(heap, &slots[6]) {
            Ok(f6) => f6,
            Err(e) => return Err(e),
        };
        let f7 = match H::from_slot(heap, &slots[7]) {
            Ok(f7) => f7,
            Err(e) => return Err(e),
        };
        let f8 = match I::from_slot(heap, &slots[8]) {
            Ok(f8) => f8,
            Err(e) => return Err(e),
        };
        Ok((f0, f1, f2, f3, f4, f5, f6, f7, f8))
    }
}

impl<
    A: Modelled,
    B: Modelled,
    C: Modelled,
    D: Modelled,
    E: Modelled,
    F: Modelled,
    G: Modelled,
    H: Modelled,
    I: Modelled,
    J: Modelled,
> Modelled for (A, B, C, D, E, F, G, H, I, J) {
    type Model = (
        A::Model,
        B::Model,
        C::Model,
        D::Model,
        E::Model,
        F::Model,
        G::Model,
        H::Model,
        I::Model,
        J::Model,
    );

    open spec fn model(self) -> (
        A::Model,
        B::Model,
        C::Model,
        D::Model,
        E::Model,
        F::Model,
        G::Model,
        H::Model,
        I::Model,
        J::Model,
    ) {
        (
            self.0.model(),
            self.1.model(),
            self.2.model(),
            self.3.model(),
            self.4.model(),
            self.5.model(),
            self.6.model(),
            self.7.model(),
            self.8.model(),
            self.9.model(),
        )
    }
}

impl<
    A: Plain,
    B: Plain,
    C: Plain,
    D: Plain,
    E: Plain,
    F: Plain,
    G: Plain,
    H: Plain,
    I: Plain,
    J: Plain,
> Plain for (A, B, C, D, E, F, G, H, I, J) {
    proof fn stands_for_itself(self) {
        self.0.stands_for_itself();
        self.1.stands_for_itself();
        self.2.stands_for_itself();
        self.3.stands_for_itself();
        self.4.stands_for_itself();
        self.5.stands_for_itself();
        self.6.stands_for_itself();
        self.7.stands_for_itself();
        self.8.stands_for_itself();
        self.9.stands_for_itself();
    }
}

impl<
    A: FromVal,
    B: FromVal,
    C: FromVal,
    D: FromVal,
    E: FromVal,
    F: FromVal,
    G: FromVal,
    H: FromVal,
    I: FromVal,
    J: FromVal,
> FromVal for (A, B, C, D, E, F, G, H, I, J) {
    open spec fn of_val(h: Store, v: Val) -> GResult<
        (
            A::Model,
            B::Model,
            C::Model,
            D::Model,
            E::Model,
            F::Model,
            G::Model,
            H::Model,
            I::Model,
            J::Model,
        ),
    > {
        match fields_of(h, v, 10) {
            Err(e) => Err(e),
            Ok(slots) => {
                let f0 = A::of_val(h, slots[0].val());
                let f1 = B::of_val(h, slots[1].val());
                let f2 = C::of_val(h, slots[2].val());
                let f3 = D::of_val(h, slots[3].val());
                let f4 = E::of_val(h, slots[4].val());
                let f5 = F::of_val(h, slots[5].val());
                let f6 = G::of_val(h, slots[6].val());
                let f7 = H::of_val(h, slots[7].val());
                let f8 = I::of_val(h, slots[8].val());
                let f9 = J::of_val(h, slots[9].val());
                if f0 is Err {
                    Err(f0->Err_0)
                } else if f1 is Err {
                    Err(f1->Err_0)
                } else if f2 is Err {
                    Err(f2->Err_0)
                } else if f3 is Err {
                    Err(f3->Err_0)
                } else if f4 is Err {
                    Err(f4->Err_0)
                } else if f5 is Err {
                    Err(f5->Err_0)
                } else if f6 is Err {
                    Err(f6->Err_0)
                } else if f7 is Err {
                    Err(f7->Err_0)
                } else if f8 is Err {
                    Err(f8->Err_0)
                } else if f9 is Err {
                    Err(f9->Err_0)
                } else {
                    Ok(
                        (
                            f0->Ok_0,
                            f1->Ok_0,
                            f2->Ok_0,
                            f3->Ok_0,
                            f4->Ok_0,
                            f5->Ok_0,
                            f6->Ok_0,
                            f7->Ok_0,
                            f8->Ok_0,
                            f9->Ok_0,
                        ),
                    )
                }
            },
        }
    }

    fn from_val(heap: &Heap, val: &Val) -> (r: GResult<(A, B, C, D, E, F, G, H, I, J)>) {
        let slots = match read_fields(heap, val, 10) {
            Ok(slots) => slots,
            Err(e) => return Err(e),
        };
        let f0 = match A::from_slot(heap, &slots[0]) {
            Ok(f0) => f0,
            Err(e) => return Err(e),
        };
        let f1 = match B::from_slot(heap, &slots[1]) {
            Ok(f1) => f1,
            Err(e) => return Err(e),
        };
        let f2 = match C::from_slot(heap, &slots[2]) {
            Ok(f2) => f2,
            Err(e) => return Err(e),
        };
        let f3 = match D::from_slot(heap, &slots[3]) {
            Ok(f3) => f3,
            Err(e) => return Err(e),
        };
        let f4 = match E::from_slot(heap, &slots[4]) {
            Ok(f4) => f4,
            Err(e) => return Err(e),
        };
        let f5 = match F::from_slot(heap, &slots[5]) {
            Ok(f5) => f5,
            Err(e) => return Err(e),
        };
        let f6 = match G::from_slot(heap, &slots[6]) {
            Ok(f6) => f6,
            Err(e) => return Err(e),
        };
        let f7 = match H::from_slot(heap, &slots[7]) {
            Ok(f7) => f7,
            Err(e) => return Err(e),
        };
        let f8 = match I::from_slot(heap, &slots[8]) {
            Ok(f8) => f8,
            Err(e) => return Err(e),
        };
        let f9 = match J::from_slot(heap, &slots[9]) {
            Ok(f9) => f9,
            Err(e) => return Err(e),
        };
        Ok((f0, f1, f2, f3, f4, f5, f6, f7, f8, f9))
    }
}

impl<
    A: Modelled,
    B: Modelled,
    C: Modelled,
    D: Modelled,
    E: Modelled,
    F: Modelled,
    G: Modelled,
    H: Modelled,
    I: Modelled,
    J: Modelled,
    K: Modelled,
> Modelled for (A, B, C, D, E, F, G, H, I, J, K) {
    type Model = (
        A::Model,
        B::Model,
        C::Model,
        D::Model,
        E::Model,
        F::Model,
        G::Model,
        H::Model,
        I::Model,
        J::Model,
        K::Model,
    );

    open spec fn model(self) -> (
        A::Model,
        B::Model,
        C::Model,
        D::Model,
        E::Model,
        F::Model,
        G::Model,
        H::Model,
        I::Model,
        J::Model,
        K::Model,
    ) {
        (
            self.0.model(),
            self.1.model(),
            self.2.model(),
            self.3.model(),
            self.4.model(),
            self.5.model(),
            self.6.model(),
            self.7.model(),
            self.8.model(),
            self.9.model(),
            self.10.model(),
        )
    }
}

impl<
    A: Plain,
    B: Plain,
    C: Plain,
    D: Plain,
    E: Plain,
    F: Plain,
    G: Plain,
    H: Plain,
    I: Plain,
    J: Plain,
    K: Plain,
> Plain for (A, B, C, D, E, F, G, H, I, J, K) {
    proof fn stands_for_itself(self) {
        self.0.stands_for_itself();
        self.1.stands_for_itself();
        self.2.stands_for_itself();
        self.3.stands_for_itself();
        self.4.stands_for_itself();
        self.5.stands_for_itself();
        self.6.stands_for_itself();
        self.7.stands_for_itself();
        self.8.stands_for_itself();
        self.9.stands_for_itself();
        self.10.stands_for_itself();
    }
}

impl<
    A: FromVal,
    B: FromVal,
    C: FromVal,
    D: FromVal,
    E: FromVal,
    F: FromVal,
    G: FromVal,
    H: FromVal,
    I: FromVal,
    J: FromVal,
    K: FromVal,
> FromVal for (A, B, C, D, E, F, G, H, I, J, K) {
    open spec fn of_val(h: Store, v: Val) -> GResult<
        (
            A::Model,
            B::Model,
            C::Model,
            D::Model,
            E::Model,
            F::Model,
            G::Model,
            H::Model,
            I::Model,
            J::Model,
            K::Model,
        ),
    > {
        match fields_of(h, v, 11) {
            Err(e) => Err(e),
            Ok(slots) => {
                let f0 = A::of_val(h, slots[0].val());
                let f1 = B::of_val(h, slots[1].val());
                let f2 = C::of_val(h, slots[2].val());
                let f3 = D::of_val(h, slots[3].val());
                let f4 = E::of_val(h, slots[4].val());
                let f5 = F::of_val(h, slots[5].val());
                let f6 = G::of_val(h, slots[6].val());
                let f7 = H::of_val(h, slots[7].val());
                let f8 = I::of_val(h, slots[8].val());
                let f9 = J::of_val(h, slots[9].val());
                let f10 = K::of_val(h, slots[10].val());
                if f0 is Err {
                    Err(f0->Err_0)
                } else if f1 is Err {
                    Err(f1->Err_0)
                } else if f2 is Err {
                    Err(f2->Err_0)
                } else if f3 is Err {
                    Err(f3->Err_0)
                } else if f4 is Err {
                    Err(f4->Err_0)
                } else if f5 is Err {
                    Err(f5->Err_0)
                } else if f6 is Err {
                    Err(f6->Err_0)
                } else if f7 is Err {
                    Err(f7->Err_0)
                } else if f8 is Err {
                    Err(f8->Err_0)
                } else if f9 is Err {
                    Err(f9->Err_0)
                } else if f10 is Err {
                    Err(f10->Err_0)
                } else {
                    Ok(
                        (
                            f0->Ok_0,
                            f1->Ok_0,
                            f2->Ok_0,
                            f3->Ok_0,
                            f4->Ok_0,
                            f5->Ok_0,
                            f6->Ok_0,
                            f7->Ok_0,
                            f8->Ok_0,
                            f9->Ok_0,
                            f10->Ok_0,
                        ),
                    )
                }
            },
        }
    }

    fn from_val(heap: &Heap, val: &Val) -> (r: GResult<(A, B, C, D, E, F, G, H, I, J, K)>) {
        let slots = match read_fields(heap, val, 11) {
            Ok(slots) => slots,
            Err(e) => return Err(e),
        };
        let f0 = match A::from_slot(heap, &slots[0]) {
            Ok(f0) => f0,
            Err(e) => return Err(e),
        };
        let f1 = match B::from_slot(heap, &slots[1]) {
            Ok(f1) => f1,
            Err(e) => return Err(e),
        };
        let f2 = match C::from_slot(heap, &slots[2]) {
            Ok(f2) => f2,
            Err(e) => return Err(e),
        };
        let f3 = match D::from_slot(heap, &slots[3]) {
            Ok(f3) => f3,
            Err(e) => return Err(e),
        };
        let f4 = match E::from_slot(heap, &slots[4]) {
            Ok(f4) => f4,
            Err(e) => return Err(e),
        };
        let f5 = match F::from_slot(heap, &slots[5]) {
            Ok(f5) => f5,
            Err(e) => return Err(e),
        };
        let f6 = match G::from_slot(heap, &slots[6]) {
            Ok(f6) => f6,
            Err(e) => return Err(e),
        };
        let f7 = match H::from_slot(heap, &slots[7]) {
            Ok(f7) => f7,
            Err(e) => return Err(e),
        };
        let f8 = match I::from_slot(heap, &slots[8]) {
            Ok(f8) => f8,
            Err(e) => return Err(e),
        };
        let f9 = match J::from_slot(heap, &slots[9]) {
            Ok(f9) => f9,
            Err(e) => return Err(e),
        };
        let f10 = match K::from_slot(heap, &slots[10]) {
            Ok(f10) => f10,
            Err(e) => return Err(e),
        };
        Ok((f0, f1, f2, f3, f4, f5, f6, f7, f8, f9, f10))
    }
}

impl<
    A: Modelled,
    B: Modelled,
    C: Modelled,
    D: Modelled,
    E: Modelled,
    F: Modelled,
    G: Modelled,
    H: Modelled,
    I: Modelled,
    J: Modelled,
    K: Modelled,
    L: Modelled,
> Modelled for (A, B, C, D, E, F, G, H, I, J, K, L) {
    type Model = (
        A::Model,
        B::Model,
        C::Model,
        D::Model,
        E::Model,
        F::Model,
        G::Model,
        H::Model,
        I::Model,
        J::Model,
        K::Model,
        L::Model,
    );

    open spec fn model(self) -> (
        A::Model,
        B::Model,
        C::Model,
        D::Model,
        E::Model,
        F::Model,
        G::Model,
        H::Model,
        I::Model,
        J::Model,
        K::Model,
        L::Model,
    ) {
        (
            self.0.model(),
            self.1.model(),
            self.2.model(),
            self.3.model(),
            self.4.model(),
            self.5.model(),
            self.6.model(),
            self.7.model(),
            self.8.model(),
            self.9.model(),
            self.10.model(),
            self.11.model(),
        )
    }
}

impl<
    A: Plain,
    B: Plain,
    C: Plain,
    D: Plain,
    E: Plain,
    F: Plain,
    G: Plain,
    H: Plain,
    I: Plain,
    J: Plain,
    K: Plain,
    L: Plain,
> Plain for (A, B, C, D, E, F, G, H, I, J, K, L) {
    proof fn stands_for_itself(self) {
        self.0.stands_for_itself();
        self.1.stands_for_itself();
        self.2.stands_for_itself();
        self.3.stands_for_itself();
        self.4.stands_for_itself();
        self.5.stands_for_itself();
        self.6.stands_for_itself();
        self.7.stands_for_itself();
        self.8.stands_for_itself();
        self.9.stands_for_itself();
        self.10.stands_for_itself();
        self.11.stands_for_itself();
    }
}

impl<
    A: FromVal,
    B: FromVal,
    C: FromVal,
    D: FromVal,
    E: FromVal,
    F: FromVal,
    G: FromVal,
    H: FromVal,
    I: FromVal,
    J: FromVal,
    K: FromVal,
    L: FromVal,
> FromVal for (A, B, C, D, E, F, G, H, I, J, K, L) {
    open spec fn of_val(h: Store, v: Val) -> GResult<
        (
            A::Model,
            B::Model,
            C::Model,
            D::Model,
            E::Model,
            F::Model,
            G::Model,
            H::Model,
            I::Model,
            J::Model,
            K::Model,
            L::Model,
        ),
    > {
        match fields_of(h, v, 12) {
            Err(e) => Err(e),
            Ok(slots) => {
                let f0 = A::of_val(h, slots[0].val());
                let f1 = B::of_val(h, slots[1].val());
                let f2 = C::of_val(h, slots[2].val());
                let f3 = D::of_val(h, slots[3].val());
                let f4 = E::of_val(h, slots[4].val());
                let f5 = F::of_val(h, slots[5].val());
                let f6 = G::of_val(h, slots[6].val());
                let f7 = H::of_val(h, slots[7].val());
                let f8 = I::of_val(h, slots[8].val());
                let f9 = J::of_val(h, slots[9].val());
                let f10 = K::of_val(h, slots[10].val());
                let f11 = L::of_val(h, slots[11].val());
                if f0 is Err {
                    Err(f0->Err_0)
                } else if f1 is Err {
                    Err(f1->Err_0)
                } else if f2 is Err {
                    Err(f2->Err_0)
                } else if f3 is Err {
                    Err(f3->Err_0)
                } else if f4 is Err {
                    Err(f4->Err_0)
                } else if f5 is Err {
                    Err(f5->Err_0)
                } else if f6 is Err {
                    Err(f6->Err_0)
                } else if f7 is Err {
                    Err(f7->Err_0)
                } else if f8 is Err {
                    Err(f8->Err_0)
                } else if f9 is Err {
                    Err(f9->Err_0)
                } else if f10 is Err {
                    Err(f10->Err_0)
                } else if f11 is Err {
                    Err(f11->Err_0)
                } else {
                    Ok(
                        (
                            f0->Ok_0,
                            f1->Ok_0,
                            f2->Ok_0,
                            f3->Ok_0,
                            f4->Ok_0,
                            f5->Ok_0,
                            f6->Ok_0,
                            f7->Ok_0,
                            f8->Ok_0,
                            f9->Ok_0,
                            f10->Ok_0,
                            f11->Ok_0,
                        ),
                    )
                }
            },
        }
    }

    fn from_val(heap: &Heap, val: &Val) -> (r: GResult<(A, B, C, D, E, F, G, H, I, J, K, L)>) {
        let slots = match read_fields(heap, val, 12) {
            Ok(slots) => slots,
            Err(e) => return Err(e),
        };
        let f0 = match A::from_slot(heap, &slots[0]) {
            Ok(f0) => f0,
            Err(e) => return Err(e),
        };
        let f1 = match B::from_slot(heap, &slots[1]) {
            Ok(f1) => f1,
            Err(e) => return Err(e),
        };
        let f2 = match C::from_slot(heap, &slots[2]) {
            Ok(f2) => f2,
            Err(e) => return Err(e),
        };
        let f3 = match D::from_slot(heap, &slots[3]) {
            Ok(f3) => f3,
            Err(e) => return Err(e),
        };
        let f4 = match E::from_slot(heap, &slots[4]) {
            Ok(f4) => f4,
            Err(e) => return Err(e),
        };
        let f5 = match F::from_slot(heap, &slots[5]) {
            Ok(f5) => f5,
            Err(e) => return Err(e),
        };
        let f6 = match G::from_slot(heap, &slots[6]) {
            Ok(f6) => f6,
            Err(e) => return Err(e),
        };
        let f7 = match H::from_slot(heap, &slots[7]) {
            Ok(f7) => f7,
            Err(e) => return Err(e),
        };
        let f8 = match I::from_slot(heap, &slots[8]) {
            Ok(f8) => f8,
            Err(e) => return Err(e),
        };
        let f9 = match J::from_slot(heap, &slots[9]) {
            Ok(f9) => f9,
            Err(e) => return Err(e),
        };
        let f10 = match K::from_slot(heap, &slots[10]) {
            Ok(f10) => f10,
            Err(e) => return Err(e),
        };
        let f11 = match L::from_slot(heap, &slots[11]) {
            Ok(f11) => f11,
            Err(e) => return Err(e),
        };
        Ok((f0, f1, f2, f3, f4, f5, f6, f7, f8, f9, f10, f11))
    }
}

} // verus!
