//! Comparing what the library counts with plain numbers.
//!
//! A [`Resource`] compares with a `u32` as the amount it holds does, and a
//! [`Tick`] compares with a `u64` as the tick it reads does.

use crate::resources::{Resource, ResourceType};
use crate::tick::Tick;
use std::cmp::Ordering;
use vstd::prelude::*;
use vstd::std_specs::cmp::{PartialEqSpecImpl, PartialOrdSpecImpl};

verus! {

/// The number that a `u32` holds.
pub open spec fn number_u32(held: u32) -> nat {
    held as nat
}

/// The number that a `u64` holds.
pub open spec fn number_u64(held: u64) -> nat {
    held as nat
}

/// How two numbers compare.
pub open spec fn order_of(left: nat, right: nat) -> Ordering {
    if left < right {
        Ordering::Less
    } else if left == right {
        Ordering::Equal
    } else {
        Ordering::Greater
    }
}

fn order_u32(left: u32, right: u32) -> (order: Ordering)
    ensures
        order == order_of(number_u32(left), number_u32(right)),
{
    if left < right {
        Ordering::Less
    } else if left == right {
        Ordering::Equal
    } else {
        Ordering::Greater
    }
}

fn order_u64(left: u64, right: u64) -> (order: Ordering)
    ensures
        order == order_of(number_u64(left), number_u64(right)),
{
    if left < right {
        Ordering::Less
    } else if left == right {
        Ordering::Equal
    } else {
        Ordering::Greater
    }
}

impl<Content: ResourceType> PartialEq<u32> for Resource<Content> {
    fn eq(&self, other: &u32) -> (equal: bool) {
        self.amount() == *other
    }
}

impl<Content: ResourceType> PartialEqSpecImpl<u32> for Resource<Content> {
    open spec fn obeys_eq_spec() -> bool {
        true
    }

    open spec fn eq_spec(&self, other: &u32) -> bool {
        self@ == *other
    }
}

impl<Content: ResourceType> PartialEq<Resource<Content>> for u32 {
    fn eq(&self, other: &Resource<Content>) -> (equal: bool) {
        *self == other.amount()
    }
}

impl<Content: ResourceType> PartialEqSpecImpl<Resource<Content>> for u32 {
    open spec fn obeys_eq_spec() -> bool {
        true
    }

    open spec fn eq_spec(&self, other: &Resource<Content>) -> bool {
        *self == other@
    }
}

impl<Content: ResourceType> PartialOrd<u32> for Resource<Content> {
    fn partial_cmp(&self, other: &u32) -> (order: Option<Ordering>) {
        Some(order_u32(self.amount(), *other))
    }
}

impl<Content: ResourceType> PartialOrdSpecImpl<u32> for Resource<Content> {
    open spec fn obeys_partial_cmp_spec() -> bool {
        true
    }

    open spec fn partial_cmp_spec(&self, other: &u32) -> Option<Ordering> {
        Some(order_of(self@, number_u32(*other)))
    }
}

impl<Content: ResourceType> PartialOrd<Resource<Content>> for u32 {
    fn partial_cmp(&self, other: &Resource<Content>) -> (order: Option<Ordering>) {
        Some(order_u32(*self, other.amount()))
    }
}

impl<Content: ResourceType> PartialOrdSpecImpl<Resource<Content>> for u32 {
    open spec fn obeys_partial_cmp_spec() -> bool {
        true
    }

    open spec fn partial_cmp_spec(&self, other: &Resource<Content>) -> Option<Ordering> {
        Some(order_of(number_u32(*self), other@))
    }
}

impl<Content: ResourceType> PartialOrd for Resource<Content> {
    fn partial_cmp(&self, other: &Resource<Content>) -> (order: Option<Ordering>) {
        Some(order_u32(self.amount(), other.amount()))
    }
}

impl<Content: ResourceType> PartialOrdSpecImpl for Resource<Content> {
    open spec fn obeys_partial_cmp_spec() -> bool {
        true
    }

    open spec fn partial_cmp_spec(&self, other: &Resource<Content>) -> Option<Ordering> {
        Some(order_of(self@, other@))
    }
}

impl PartialEq<u64> for &Tick {
    fn eq(&self, other: &u64) -> (equal: bool) {
        self.cur() == *other
    }
}

impl PartialEqSpecImpl<u64> for &Tick {
    open spec fn obeys_eq_spec() -> bool {
        true
    }

    open spec fn eq_spec(&self, other: &u64) -> bool {
        self@ == *other
    }
}

impl PartialEq<&Tick> for u64 {
    fn eq(&self, other: &&Tick) -> (equal: bool) {
        *self == other.cur()
    }
}

impl PartialEqSpecImpl<&Tick> for u64 {
    open spec fn obeys_eq_spec() -> bool {
        true
    }

    open spec fn eq_spec(&self, other: &&Tick) -> bool {
        *self == other@
    }
}

impl PartialOrd<u64> for &Tick {
    fn partial_cmp(&self, other: &u64) -> (order: Option<Ordering>) {
        Some(order_u64(self.cur(), *other))
    }
}

impl PartialOrdSpecImpl<u64> for &Tick {
    open spec fn obeys_partial_cmp_spec() -> bool {
        true
    }

    open spec fn partial_cmp_spec(&self, other: &u64) -> Option<Ordering> {
        Some(order_of(self@, number_u64(*other)))
    }
}

impl PartialOrd<&Tick> for u64 {
    fn partial_cmp(&self, other: &&Tick) -> (order: Option<Ordering>) {
        Some(order_u64(*self, other.cur()))
    }
}

impl PartialOrdSpecImpl<&Tick> for u64 {
    open spec fn obeys_partial_cmp_spec() -> bool {
        true
    }

    open spec fn partial_cmp_spec(&self, other: &&Tick) -> Option<Ordering> {
        Some(order_of(number_u64(*self), other@))
    }
}

} // verus!
