//! Resources are held in either [`Resource`] or [`Bundle`] objects.
//!
//! A [`Bundle`] holds an amount that its type fixes, a [`Resource`] holds any amount.
//! Both are tagged with a kind, and two kinds never mix.

use crate::Sealed;
use std::marker::PhantomData;
use std::ops::{Add, AddAssign};
use vstd::prelude::*;
use vstd::std_specs::cmp::PartialEqSpecImpl;
use vstd::std_specs::convert::FromSpecImpl;
use vstd::std_specs::ops::AddSpecImpl;

verus! {

/// A kind of resource. Kinds differ as types, so amounts of two kinds cannot be
/// merged or take each other's place.
pub trait ResourceType: Sealed {
    /// The name of the kind.
    const NAME: &'static str;

    /// The name of the kind, as contracts speak of it.
    spec fn name() -> Seq<char>;

    /// `NAME` is the name that contracts speak of.
    proof fn lemma_name()
        ensures
            Self::NAME@ == Self::name(),
    ;
}

/// Used to win the game in some game modes.
#[derive(Debug)]
pub struct Point;

impl Sealed for Point {

}

impl ResourceType for Point {
    const NAME: &'static str = "Point";

    open spec fn name() -> Seq<char> {
        "Point"@
    }

    proof fn lemma_name() {
    }
}

/// Raw iron ore mined from the ground. Can be smelted into iron ingots.
#[derive(Debug)]
pub struct IronOre;

impl Sealed for IronOre {

}

impl ResourceType for IronOre {
    const NAME: &'static str = "IronOre";

    open spec fn name() -> Seq<char> {
        "IronOre"@
    }

    proof fn lemma_name() {
    }
}

/// Refined iron ingots. Used in various recipes and to build structures.
#[derive(Debug)]
pub struct Iron;

impl Sealed for Iron {

}

impl ResourceType for Iron {
    const NAME: &'static str = "Iron";

    open spec fn name() -> Seq<char> {
        "Iron"@
    }

    proof fn lemma_name() {
    }
}

/// Raw copper ore mined from the ground. Can be smelted into copper ingots.
#[derive(Debug)]
pub struct CopperOre;

impl Sealed for CopperOre {

}

impl ResourceType for CopperOre {
    const NAME: &'static str = "CopperOre";

    open spec fn name() -> Seq<char> {
        "CopperOre"@
    }

    proof fn lemma_name() {
    }
}

/// Refined copper ingots. Used in various recipes and to build structures.
#[derive(Debug)]
pub struct Copper;

impl Sealed for Copper {

}

impl ResourceType for Copper {
    const NAME: &'static str = "Copper";

    open spec fn name() -> Seq<char> {
        "Copper"@
    }

    proof fn lemma_name() {
    }
}

/// What a checked extraction reports when it asks for more than there is.
#[derive(Debug)]
pub struct InsufficientResourceError<Resource: ResourceType> {
    /// The amount that was asked for.
    pub requested_amount: u32,
    /// The amount that was there.
    pub available_amount: u32,
    /// The kind of the resource.
    pub phantom: PhantomData<Resource>,
}

impl<Resource: ResourceType> InsufficientResourceError<Resource> {
    /// The report that `requested_amount` was asked for where only
    /// `available_amount` was there.
    pub fn new(requested_amount: u32, available_amount: u32) -> (error: Self)
        ensures
            error.requested_amount == requested_amount,
            error.available_amount == available_amount,
    {
        Self { requested_amount, available_amount, phantom: PhantomData }
    }
}

impl<Resource: ResourceType> Clone for InsufficientResourceError<Resource> {
    fn clone(&self) -> (copy: Self)
        ensures
            copy == *self,
    {
        Self {
            requested_amount: self.requested_amount,
            available_amount: self.available_amount,
            phantom: PhantomData,
        }
    }
}

/// Holds an arbitrary amount of a resource.
///
/// A `Resource` can be split into smaller parts, merged with another of its kind,
/// and [`Bundle`]s can be taken out of it.
#[derive(Debug)]
pub struct Resource<Content: ResourceType> {
    amount: u32,
    phantom: PhantomData<Content>,
}

impl<Content: ResourceType> View for Resource<Content> {
    type V = nat;

    /// The amount held.
    closed spec fn view(&self) -> nat {
        self.amount as nat
    }
}

/// Makes a resource of the given amount out of nothing. This is how resources
/// come into the game; everywhere else they only change hands.
pub fn resource<Content: ResourceType>(amount: u32) -> (made: Resource<Content>)
    ensures
        made@ == amount,
{
    Resource { amount, phantom: PhantomData }
}

/// A mutable reference to the amount that a resource holds.
pub(crate) fn resource_amount<Content: ResourceType>(held: &mut Resource<Content>) -> (amount:
    &mut u32)
    ensures
        *amount == old(held)@,
        final(held)@ == *final(amount),
{
    &mut held.amount
}

impl<Content: ResourceType> Resource<Content> {
    /// Every amount held fits the machine word that stores it.
    pub proof fn lemma_bounded(&self)
        ensures
            self@ <= u32::MAX,
    {
    }

    /// The resource that holds `amount`.
    pub closed spec fn of(amount: nat) -> Self {
        Resource { amount: amount as u32, phantom: PhantomData }
    }

    /// The resource that holds an amount does hold it, if the amount fits the
    /// machine word that stores it.
    pub proof fn lemma_of(amount: nat)
        requires
            amount <= u32::MAX,
        ensures
            Self::of(amount)@ == amount,
    {
    }

    /// Creates a new empty `Resource`.
    pub fn empty() -> (made: Self)
        ensures
            made@ == 0,
    {
        Self { amount: 0, phantom: PhantomData }
    }

    pub(crate) fn new(amount: u32) -> (made: Self)
        ensures
            made@ == amount,
    {
        Self { amount, phantom: PhantomData }
    }

    /// The current amount of the resource contained in this `Resource`.
    pub fn amount(&self) -> (amount: u32)
        ensures
            amount == self@,
    {
        self.amount
    }

    /// Splits the `Resource` into what remains and what is taken, in that order.
    /// If it holds less than `amount`, the whole resource comes back, with the
    /// report of what was asked for and what was there.
    pub fn split(self, amount: u32) -> (parts: Result<
        (Self, Self),
        (Self, InsufficientResourceError<Content>),
    >)
        ensures
            match parts {
                Ok((rest, taken)) => amount <= self@ && rest@ == self@ - amount && taken@
                    == amount,
                Err((whole, error)) => amount > self@ && whole == self && error.requested_amount
                    == amount && error.available_amount == self@,
            },
    {
        if amount <= self.amount {
            let remaining: u32 = self.amount - amount;
            Ok((Self::new(remaining), Self::new(amount)))
        } else {
            let error = InsufficientResourceError::new(amount, self.amount);
            Err((self, error))
        }
    }

    /// Removes `amount` from this `Resource` and returns it as a new `Resource`.
    /// If it holds less, nothing is removed and the error says what was asked for
    /// and what was there.
    pub fn split_off(&mut self, amount: u32) -> (taken: Result<
        Self,
        InsufficientResourceError<Content>,
    >)
        ensures
            match taken {
                Ok(part) => amount <= old(self)@ && part@ == amount && final(self)@ == old(self)@
                    - amount,
                Err(error) => amount > old(self)@ && error.requested_amount == amount
                    && error.available_amount == old(self)@ && *final(self) == *old(self),
            },
    {
        if amount <= self.amount {
            self.amount = self.amount - amount;
            Ok(Resource::new(amount))
        } else {
            Err(InsufficientResourceError::new(amount, self.amount))
        }
    }

    /// Consumes a [`Bundle`] of the same kind and adds what it holds to this `Resource`.
    pub fn add_bundle<const AMOUNT: u32>(&mut self, bundle: Bundle<Content, AMOUNT>)
        requires
            old(self)@ + AMOUNT <= u32::MAX,
        ensures
            final(self)@ == old(self)@ + AMOUNT,
    {
        self.amount = self.amount + bundle.amount();
    }

    /// Takes `AMOUNT` out of this `Resource` and puts it into a [`Bundle`].
    /// If it holds less, nothing is taken and the error says what was asked for
    /// and what was there.
    pub fn bundle<const AMOUNT: u32>(&mut self) -> (taken: Result<
        Bundle<Content, AMOUNT>,
        InsufficientResourceError<Content>,
    >)
        ensures
            match taken {
                Ok(_) => AMOUNT <= old(self)@ && final(self)@ == old(self)@ - AMOUNT,
                Err(error) => AMOUNT > old(self)@ && error.requested_amount == AMOUNT
                    && error.available_amount == old(self)@ && *final(self) == *old(self),
            },
    {
        if AMOUNT <= self.amount {
            self.amount = self.amount - AMOUNT;
            Ok(Bundle::new())
        } else {
            Err(InsufficientResourceError::new(AMOUNT, self.amount))
        }
    }
}

/// Contains a fixed amount of a resource, known from its type.
///
/// A `Bundle` is proof that the amount exists: a player can only take it out of
/// a [`Resource`] that holds as much, and its amount never changes.
#[derive(Debug)]
pub struct Bundle<Content: ResourceType, const AMOUNT: u32> {
    dummy: PhantomData<Content>,
}

/// Makes a bundle of the given kind and amount out of nothing. This is how
/// resources come into the game; everywhere else they only change hands.
pub fn bundle<Content: ResourceType, const AMOUNT: u32>() -> (made: Bundle<Content, AMOUNT>)
    ensures
        made@ == AMOUNT,
{
    Bundle::new()
}

impl<Content: ResourceType, const AMOUNT: u32> View for Bundle<Content, AMOUNT> {
    type V = nat;

    /// The amount held, which is the one in the type.
    open spec fn view(&self) -> nat {
        AMOUNT as nat
    }
}

impl<Content: ResourceType, const AMOUNT: u32> Bundle<Content, AMOUNT> {
    pub(crate) fn new() -> (made: Self)
        ensures
            made@ == AMOUNT,
    {
        Self { dummy: PhantomData }
    }

    /// The amount held.
    pub fn amount(&self) -> (amount: u32)
        ensures
            amount == AMOUNT,
    {
        AMOUNT
    }

    /// Splits the bundle into two whose amounts add up to its own.
    pub fn split<const AMOUNT1: u32, const AMOUNT2: u32>(self) -> (parts: (
        Bundle<Content, AMOUNT1>,
        Bundle<Content, AMOUNT2>,
    ))
        requires
            AMOUNT1 + AMOUNT2 == AMOUNT,
        ensures
            parts.0@ + parts.1@ == self@,
    {
        (Bundle::new(), Bundle::new())
    }

    /// Converts this `Bundle` into a [`Resource`] of the same kind and amount.
    pub fn to_resource(self) -> (made: Resource<Content>)
        ensures
            made@ == self@,
    {
        Resource::new(AMOUNT)
    }
}

impl<Content: ResourceType> PartialEq for Resource<Content> {
    /// Two resources of one kind are equal if they hold the same amount.
    fn eq(&self, other: &Self) -> (equal: bool) {
        self.amount == other.amount
    }
}

impl<Content: ResourceType> PartialEqSpecImpl for Resource<Content> {
    open spec fn obeys_eq_spec() -> bool {
        true
    }

    open spec fn eq_spec(&self, other: &Self) -> bool {
        self@ == other@
    }
}

impl<Content: ResourceType> Eq for Resource<Content> {

}

impl<Content: ResourceType> AddAssign for Resource<Content> {
    /// Merges another `Resource` of the same kind into this one.
    fn add_assign(&mut self, rhs: Self)
        requires
            old(self)@ + rhs@ <= u32::MAX,
        ensures
            final(self)@ == old(self)@ + rhs@,
    {
        self.amount = self.amount + rhs.amount;
    }
}

impl<Content: ResourceType> Add for Resource<Content> {
    type Output = Self;

    /// Merges two `Resource`s of the same kind.
    fn add(self, rhs: Self) -> (sum: Self)
        ensures
            sum@ == self@ + rhs@,
    {
        Resource::new(self.amount + rhs.amount)
    }
}

impl<Content: ResourceType> AddSpecImpl for Resource<Content> {
    open spec fn obeys_add_spec() -> bool {
        true
    }

    open spec fn add_req(self, rhs: Self) -> bool {
        self@ + rhs@ <= u32::MAX
    }

    open spec fn add_spec(self, rhs: Self) -> Self {
        Self::of(self@ + rhs@)
    }
}

impl<Content: ResourceType, const AMOUNT: u32> AddAssign<Bundle<Content, AMOUNT>> for Resource<Content> {
    /// Adds what a [`Bundle`] of the same kind holds to this `Resource`.
    fn add_assign(&mut self, bundle: Bundle<Content, AMOUNT>)
        requires
            old(self)@ + AMOUNT <= u32::MAX,
        ensures
            final(self)@ == old(self)@ + AMOUNT,
    {
        self.amount = self.amount + AMOUNT;
    }
}

impl<Content: ResourceType, const AMOUNT: u32> Add<Bundle<Content, AMOUNT>> for Resource<Content> {
    type Output = Self;

    /// Merges a `Resource` and a [`Bundle`] of the same kind.
    fn add(self, rhs: Bundle<Content, AMOUNT>) -> (sum: Self)
        ensures
            sum@ == self@ + AMOUNT,
    {
        Resource::new(self.amount + AMOUNT)
    }
}

impl<Content: ResourceType, const AMOUNT: u32> AddSpecImpl<Bundle<Content, AMOUNT>> for Resource<Content> {
    open spec fn obeys_add_spec() -> bool {
        true
    }

    open spec fn add_req(self, rhs: Bundle<Content, AMOUNT>) -> bool {
        self@ + AMOUNT <= u32::MAX
    }

    open spec fn add_spec(self, rhs: Bundle<Content, AMOUNT>) -> Self {
        Self::of(self@ + AMOUNT as nat)
    }
}

impl<Content: ResourceType, const AMOUNT: u32> Add<Resource<Content>> for Bundle<Content, AMOUNT> {
    type Output = Resource<Content>;

    /// Merges a [`Bundle`] and a `Resource` of the same kind.
    fn add(self, rhs: Resource<Content>) -> (sum: Resource<Content>)
        ensures
            sum@ == AMOUNT + rhs@,
    {
        Resource::new(AMOUNT + rhs.amount)
    }
}

impl<Content: ResourceType, const AMOUNT: u32> AddSpecImpl<Resource<Content>> for Bundle<Content, AMOUNT> {
    open spec fn obeys_add_spec() -> bool {
        true
    }

    open spec fn add_req(self, rhs: Resource<Content>) -> bool {
        AMOUNT + rhs@ <= u32::MAX
    }

    open spec fn add_spec(self, rhs: Resource<Content>) -> Resource<Content> {
        Resource::of(AMOUNT as nat + rhs@)
    }
}

impl<Content: ResourceType, const AMOUNT: u32> From<Bundle<Content, AMOUNT>> for Resource<Content> {
    /// The `Resource` that holds what the [`Bundle`] held.
    fn from(bundle: Bundle<Content, AMOUNT>) -> (made: Self)
        ensures
            made@ == AMOUNT,
    {
        Resource::new(AMOUNT)
    }
}

impl<Content: ResourceType, const AMOUNT: u32> FromSpecImpl<Bundle<Content, AMOUNT>> for Resource<Content> {
    open spec fn obeys_from_spec() -> bool {
        true
    }

    open spec fn from_spec(bundle: Bundle<Content, AMOUNT>) -> Self {
        Self::of(AMOUNT as nat)
    }
}

} // verus!
