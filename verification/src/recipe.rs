//! Recipes define all item transformations in the game via input items, output
//! items, and time.

use crate::resources::{Resource, ResourceType};
use std::fmt::Debug;
use std::ops::{Deref, DerefMut};
use vstd::prelude::*;

verus! {

/// One recipe item and its current amount inside a machine's input or output
/// buffer. `AMOUNT` is what one cycle of the recipe takes or gives of it.
#[derive(Debug)]
pub struct RecipeItem<const AMOUNT: u32, Content: ResourceType>(
    /// What the buffer holds.
    pub Resource<Content>,
);

impl<const AMOUNT: u32, Content: ResourceType> View for RecipeItem<AMOUNT, Content> {
    type V = nat;

    /// The amount in the buffer.
    open spec fn view(&self) -> nat {
        self.0@
    }
}

impl<const AMOUNT: u32, Content: ResourceType> Default for RecipeItem<AMOUNT, Content> {
    /// An empty buffer.
    fn default() -> (item: Self)
        ensures
            item@ == 0,
    {
        Self(Resource::empty())
    }
}

impl<const AMOUNT: u32, Content: ResourceType> Deref for RecipeItem<AMOUNT, Content> {
    type Target = Resource<Content>;

    fn deref(&self) -> (held: &Resource<Content>)
        ensures
            *held == self.0,
    {
        &self.0
    }
}

impl<const AMOUNT: u32, Content: ResourceType> DerefMut for RecipeItem<AMOUNT, Content> {
    fn deref_mut(&mut self) -> (held: &mut Resource<Content>)
        ensures
            *held == old(self).0,
            final(self).0 == *final(held),
    {
        &mut self.0
    }
}

impl<const AMOUNT: u32, Content: ResourceType> RecipeItem<AMOUNT, Content> {
    /// Needed amount of the resource for one cycle of its recipe.
    pub fn needed_amount(&self) -> (amount: u32)
        ensures
            amount == AMOUNT,
    {
        AMOUNT
    }
}

/// Get a mutable reference to the amount in the buffer.
pub fn recipe_item_amount<const AMOUNT: u32, Content: ResourceType>(
    item: &mut RecipeItem<AMOUNT, Content>,
) -> (amount: &mut u32)
    ensures
        *amount == old(item)@,
        final(item)@ == *final(amount),
{
    crate::resources::resource_amount(&mut item.0)
}

/// The buffers on one side of a machine: a tuple of [`RecipeItem`]s, one for each
/// resource that the recipe takes, or gives.
///
/// The items are numbered from 0. Beyond the last item there is nothing: no
/// amount per cycle, no name, and a buffer that holds nothing and takes nothing.
pub trait RecipeItems: Sized {
    /// What one cycle takes or gives of each item, in order.
    spec fn per_cycle() -> Seq<nat>;

    /// The name of each item's resource kind, in order.
    spec fn kinds() -> Seq<Seq<char>>;

    /// The amount in each buffer, in order.
    spec fn amounts(&self) -> Seq<nat>;

    /// There is one buffer and one name for each item, and every amount fits the
    /// machine word that stores it.
    proof fn lemma_shape(&self)
        ensures
            self.amounts().len() == Self::per_cycle().len(),
            Self::kinds().len() == Self::per_cycle().len(),
            forall|i: int| 0 <= i < Self::per_cycle().len() ==> Self::per_cycle()[i] <= u32::MAX,
            forall|i: int| 0 <= i < self.amounts().len() ==> self.amounts()[i] <= u32::MAX,
    ;

    /// The number of items.
    fn count() -> (count: usize)
        ensures
            count == Self::per_cycle().len(),
    ;

    /// What one cycle takes or gives of the item at `index`.
    fn needed(index: usize) -> (amount: u32)
        ensures
            amount == if index < Self::per_cycle().len() {
                Self::per_cycle()[index as int]
            } else {
                0
            },
    ;

    /// The name of the resource kind of the item at `index`.
    fn kind(index: usize) -> (name: &'static str)
        ensures
            name@ == if index < Self::per_cycle().len() {
                Self::kinds()[index as int]
            } else {
                Seq::empty()
            },
    ;

    /// The amount in the buffer at `index`.
    fn amount(&self, index: usize) -> (amount: u32)
        ensures
            amount == if index < Self::per_cycle().len() {
                self.amounts()[index as int]
            } else {
                0
            },
    ;

    /// Sets the amount in the buffer at `index`, and no other.
    fn set_amount(&mut self, index: usize, amount: u32)
        ensures
            final(self).amounts() == if index < Self::per_cycle().len() {
                old(self).amounts().update(index as int, amount as nat)
            } else {
                old(self).amounts()
            },
    ;

    /// Buffers with nothing in them.
    fn new_empty() -> (items: Self)
        ensures
            items.amounts() == Seq::new(Self::per_cycle().len(), |i: int| 0nat),
    ;
}

impl RecipeItems for () {
    open spec fn per_cycle() -> Seq<nat> {
        Seq::empty()
    }

    open spec fn kinds() -> Seq<Seq<char>> {
        Seq::empty()
    }

    open spec fn amounts(&self) -> Seq<nat> {
        Seq::empty()
    }

    proof fn lemma_shape(&self) {
    }

    fn count() -> (count: usize) {
        0
    }

    fn needed(index: usize) -> (amount: u32) {
        0
    }

    fn kind(index: usize) -> (name: &'static str) {
        proof {
            reveal_strlit("");
        }
        assert(""@ =~= Seq::<char>::empty());
        ""
    }

    fn amount(&self, index: usize) -> (amount: u32) {
        0
    }

    fn set_amount(&mut self, index: usize, amount: u32) {
    }

    fn new_empty() -> (items: Self) {
        let items = ();
        assert(items.amounts() =~= Seq::new(Self::per_cycle().len(), |i: int| 0nat));
        items
    }
}

impl<const A0: u32, C0: ResourceType> RecipeItems for (RecipeItem<A0, C0>,) {
    open spec fn per_cycle() -> Seq<nat> {
        seq![A0 as nat]
    }

    open spec fn kinds() -> Seq<Seq<char>> {
        seq![C0::name()]
    }

    open spec fn amounts(&self) -> Seq<nat> {
        seq![self.0@]
    }

    proof fn lemma_shape(&self) {
        self.0.0.lemma_bounded();
    }

    fn count() -> (count: usize) {
        1
    }

    fn needed(index: usize) -> (amount: u32) {
        if index == 0 {
            A0
        } else {
            0
        }
    }

    fn kind(index: usize) -> (name: &'static str) {
        proof {
            C0::lemma_name();
            reveal_strlit("");
        }
        assert(""@ =~= Seq::<char>::empty());
        if index == 0 {
            C0::NAME
        } else {
            ""
        }
    }

    fn amount(&self, index: usize) -> (amount: u32) {
        if index == 0 {
            self.0.amount()
        } else {
            0
        }
    }

    fn set_amount(&mut self, index: usize, amount: u32) {
        if index == 0 {
            *recipe_item_amount(&mut self.0) = amount;
        }
        assert(self.amounts() =~= if index < 1 {
            old(self).amounts().update(index as int, amount as nat)
        } else {
            old(self).amounts()
        });
    }

    fn new_empty() -> (items: Self) {
        let items = (RecipeItem::default(),);
        assert(items.amounts() =~= Seq::new(Self::per_cycle().len(), |i: int| 0nat));
        items
    }
}

impl<const A0: u32, C0: ResourceType, const A1: u32, C1: ResourceType> RecipeItems for (
    RecipeItem<A0, C0>,
    RecipeItem<A1, C1>,
) {
    open spec fn per_cycle() -> Seq<nat> {
        seq![A0 as nat, A1 as nat]
    }

    open spec fn kinds() -> Seq<Seq<char>> {
        seq![C0::name(), C1::name()]
    }

    open spec fn amounts(&self) -> Seq<nat> {
        seq![self.0@, self.1@]
    }

    proof fn lemma_shape(&self) {
        self.0.0.lemma_bounded();
        self.1.0.lemma_bounded();
    }

    fn count() -> (count: usize) {
        2
    }

    fn needed(index: usize) -> (amount: u32) {
        if index == 0 {
            A0
        } else if index == 1 {
            A1
        } else {
            0
        }
    }

    fn kind(index: usize) -> (name: &'static str) {
        proof {
            C0::lemma_name();
            C1::lemma_name();
            reveal_strlit("");
        }
        assert(""@ =~= Seq::<char>::empty());
        if index == 0 {
            C0::NAME
        } else if index == 1 {
            C1::NAME
        } else {
            ""
        }
    }

    fn amount(&self, index: usize) -> (amount: u32) {
        if index == 0 {
            self.0.amount()
        } else if index == 1 {
            self.1.amount()
        } else {
            0
        }
    }

    fn set_amount(&mut self, index: usize, amount: u32) {
        if index == 0 {
            *recipe_item_amount(&mut self.0) = amount;
        } else if index == 1 {
            *recipe_item_amount(&mut self.1) = amount;
        }
        assert(self.amounts() =~= if index < 2 {
            old(self).amounts().update(index as int, amount as nat)
        } else {
            old(self).amounts()
        });
    }

    fn new_empty() -> (items: Self) {
        let items = (RecipeItem::default(), RecipeItem::default());
        assert(items.amounts() =~= Seq::new(Self::per_cycle().len(), |i: int| 0nat));
        items
    }
}

impl<
    const A0: u32,
    C0: ResourceType,
    const A1: u32,
    C1: ResourceType,
    const A2: u32,
    C2: ResourceType,
> RecipeItems for (RecipeItem<A0, C0>, RecipeItem<A1, C1>, RecipeItem<A2, C2>) {
    open spec fn per_cycle() -> Seq<nat> {
        seq![A0 as nat, A1 as nat, A2 as nat]
    }

    open spec fn kinds() -> Seq<Seq<char>> {
        seq![C0::name(), C1::name(), C2::name()]
    }

    open spec fn amounts(&self) -> Seq<nat> {
        seq![self.0@, self.1@, self.2@]
    }

    proof fn lemma_shape(&self) {
        self.0.0.lemma_bounded();
        self.1.0.lemma_bounded();
        self.2.0.lemma_bounded();
    }

    fn count() -> (count: usize) {
        3
    }

    fn needed(index: usize) -> (amount: u32) {
        if index == 0 {
            A0
        } else if index == 1 {
            A1
        } else if index == 2 {
            A2
        } else {
            0
        }
    }

    fn kind(index: usize) -> (name: &'static str) {
        proof {
            C0::lemma_name();
            C1::lemma_name();
            C2::lemma_name();
            reveal_strlit("");
        }
        assert(""@ =~= Seq::<char>::empty());
        if index == 0 {
            C0::NAME
        } else if index == 1 {
            C1::NAME
        } else if index == 2 {
            C2::NAME
        } else {
            ""
        }
    }

    fn amount(&self, index: usize) -> (amount: u32) {
        if index == 0 {
            self.0.amount()
        } else if index == 1 {
            self.1.amount()
        } else if index == 2 {
            self.2.amount()
        } else {
            0
        }
    }

    fn set_amount(&mut self, index: usize, amount: u32) {
        if index == 0 {
            *recipe_item_amount(&mut self.0) = amount;
        } else if index == 1 {
            *recipe_item_amount(&mut self.1) = amount;
        } else if index == 2 {
            *recipe_item_amount(&mut self.2) = amount;
        }
        assert(self.amounts() =~= if index < 3 {
            old(self).amounts().update(index as int, amount as nat)
        } else {
            old(self).amounts()
        });
    }

    fn new_empty() -> (items: Self) {
        let items = (RecipeItem::default(), RecipeItem::default(), RecipeItem::default());
        assert(items.amounts() =~= Seq::new(Self::per_cycle().len(), |i: int| 0nat));
        items
    }
}

/// A recipe: what one cycle takes, what it gives, and how many ticks it lasts.
///
/// A recipe that takes 2 iron ore and gives 1 iron in 10 ticks has `TIME` 10,
/// `Inputs` `(RecipeItem<2, IronOre>,)` and `Outputs` `(RecipeItem<1, Iron>,)`.
pub trait Recipe {
    /// Amount of ticks one cycle of the recipe takes to complete. With 0, a
    /// machine completes as many cycles at once as its inputs allow.
    const TIME: u64;

    /// A tuple of [`RecipeItem`]s: the inputs for one cycle of the recipe.
    type Inputs: RecipeItems + Debug;

    /// A tuple of [`RecipeItem`]s: the outputs of one cycle of the recipe.
    type Outputs: RecipeItems + Debug;

    /// The ticks that one cycle takes, as contracts speak of them.
    spec fn time() -> nat;

    /// `TIME` is the time that contracts speak of, every input takes something,
    /// and the time or an input bounds the number of cycles.
    proof fn lemma_valid()
        ensures
            Self::TIME == Self::time(),
            forall|i: int|
                0 <= i < Self::Inputs::per_cycle().len() ==> Self::Inputs::per_cycle()[i] > 0,
            Self::time() > 0 || Self::Inputs::per_cycle().len() > 0,
    ;
}

} // verus!
