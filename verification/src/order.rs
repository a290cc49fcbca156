//! `Ordering`: the host's own, to and from values.

use std::cmp::Ordering;

use vstd::prelude::*;

use crate::error::GResult;
use crate::from_val::FromVal;
use crate::into_val::{slotted, IntoVal};
use crate::store::Heap;
use crate::value::{Order, Slot, Val};

verus! {

/// The host's ordering, as this library's own.
pub open spec fn order_of(ordering: Ordering) -> Order {
    match ordering {
        Ordering::Less => Order::Less,
        Ordering::Equal => Order::Equal,
        Ordering::Greater => Order::Greater,
    }
}

/// Makes this library's own ordering of the host's.
pub fn to_order(ordering: Ordering) -> (order: Order)
    ensures
        order == order_of(ordering),
{
    match ordering {
        Ordering::Less => Order::Less,
        Ordering::Equal => Order::Equal,
        Ordering::Greater => Order::Greater,
    }
}

/// Makes the host's ordering of this library's own.
pub fn to_ordering(order: Order) -> (ordering: Ordering)
    ensures
        order_of(ordering) == order,
{
    match order {
        Order::Less => Ordering::Less,
        Order::Equal => Ordering::Equal,
        Order::Greater => Ordering::Greater,
    }
}

/// Converts the host's ordering to a value.
pub fn ordering_into_val(ordering: Ordering, heap: &mut Heap) -> (r: GResult<Val>)
    ensures
        (final(heap)@, r) == order_of(ordering).to_val(old(heap)@),
{
    to_order(ordering).into_val(heap)
}

/// Converts the host's ordering to a slot.
pub fn ordering_into_slot(ordering: Ordering, heap: &mut Heap) -> (r: GResult<Slot>)
    ensures
        (final(heap)@, r) == slotted(order_of(ordering).to_val(old(heap)@)),
{
    to_order(ordering).into_slot(heap)
}

/// What is read as the host's ordering, as this library's own.
pub open spec fn read_as(r: GResult<Ordering>) -> GResult<Order> {
    match r {
        Ok(ordering) => Ok(order_of(ordering)),
        Err(e) => Err(e),
    }
}

/// Converts a value to the host's ordering.
pub fn ordering_from_val(heap: &Heap, val: &Val) -> (r: GResult<Ordering>)
    ensures
        read_as(r) == Order::of_val(heap@, *val),
{
    match Order::from_val(heap, val) {
        Ok(order) => Ok(to_ordering(order)),
        Err(e) => Err(e),
    }
}

/// Converts a slot to the host's ordering.
pub fn ordering_from_slot(heap: &Heap, slot: &Slot) -> (r: GResult<Ordering>)
    ensures
        read_as(r) == Order::of_val(heap@, slot.val()),
{
    match Order::from_slot(heap, slot) {
        Ok(order) => Ok(to_ordering(order)),
        Err(e) => Err(e),
    }
}

} // verus!
