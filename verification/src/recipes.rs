//! A recipe is a way of turning resources into other resources.
//!
//! A specific recipe specifies the input and output resources, as well as the
//! time it takes to complete one cycle.

use crate::recipe::{Recipe, RecipeItem, RecipeItems};
use crate::research::RedScience;
use crate::resources::{Copper, CopperOre, Iron, IronOre, Point};
use crate::Sealed;
use std::fmt::Debug;
use vstd::prelude::*;

verus! {

/// Any recipe that implements this trait can be used in an
/// [`Assembler`](crate::buildings::Assembler).
pub trait AssemblerRecipe: Debug + Sealed + Recipe {

}

/// A recipe for crafting red science packs. Converts 1 iron and 1 copper into 1
/// red science pack. Takes 5 ticks.
#[derive(Debug, Clone, Copy)]
pub struct RedScienceRecipe;

impl Sealed for RedScienceRecipe {

}

impl Recipe for RedScienceRecipe {
    const TIME: u64 = 5;

    type Inputs = (RecipeItem<1, Iron>, RecipeItem<1, Copper>);

    type Outputs = (RecipeItem<1, RedScience>,);

    open spec fn time() -> nat {
        5
    }

    proof fn lemma_valid() {
        assert(Self::Inputs::per_cycle() =~= seq![1nat, 1nat]);
    }
}

impl AssemblerRecipe for RedScienceRecipe {

}

/// The recipe you need to win! An assembler recipe that creates points.
/// Converts 4 iron and 4 copper into 1 point. Takes 20 ticks.
///
/// The recipe is unlocked by researching
/// [`PointsTechnology`](crate::research::PointsTechnology).
#[derive(Debug, Clone, Copy)]
#[non_exhaustive]
pub struct PointRecipe;

impl Sealed for PointRecipe {

}

impl Recipe for PointRecipe {
    const TIME: u64 = 20;

    type Inputs = (RecipeItem<4, Iron>, RecipeItem<4, Copper>);

    type Outputs = (RecipeItem<1, Point>,);

    open spec fn time() -> nat {
        20
    }

    proof fn lemma_valid() {
        assert(Self::Inputs::per_cycle() =~= seq![4nat, 4nat]);
    }
}

impl AssemblerRecipe for PointRecipe {

}

/// Any recipe that implements this trait can be used in a
/// [`Furnace`](crate::buildings::Furnace).
pub trait FurnaceRecipe: Debug + Sealed + Recipe {

}

/// A furnace recipe that smelts iron ore into iron. Converts 2 iron ore into 1
/// iron. Takes 10 ticks.
#[derive(Debug, Clone, Copy)]
pub struct IronSmelting;

impl Sealed for IronSmelting {

}

impl Recipe for IronSmelting {
    const TIME: u64 = 10;

    type Inputs = (RecipeItem<2, IronOre>,);

    type Outputs = (RecipeItem<1, Iron>,);

    open spec fn time() -> nat {
        10
    }

    proof fn lemma_valid() {
        assert(Self::Inputs::per_cycle() =~= seq![2nat]);
    }
}

impl FurnaceRecipe for IronSmelting {

}

/// A furnace recipe that smelts copper ore into copper. Converts 2 copper ore
/// into 1 copper. Takes 10 ticks.
#[derive(Debug, Clone, Copy)]
pub struct CopperSmelting;

impl Sealed for CopperSmelting {

}

impl Recipe for CopperSmelting {
    const TIME: u64 = 10;

    type Inputs = (RecipeItem<2, CopperOre>,);

    type Outputs = (RecipeItem<1, Copper>,);

    open spec fn time() -> nat {
        10
    }

    proof fn lemma_valid() {
        assert(Self::Inputs::per_cycle() =~= seq![2nat]);
    }
}

impl FurnaceRecipe for CopperSmelting {

}

} // verus!
