//! Technologies are unlocked by research, and unlock new recipes or further
//! technologies.
//!
//! Research is paid for in points. Every technology has points of its own kind,
//! which a machine produces by the technology's point recipe, so the progress
//! made on one technology cannot be spent on another.

use crate::recipe::{Recipe, RecipeItem, RecipeItems};
use crate::recipes::PointRecipe;
use crate::resources::{Bundle, ResourceType};
use crate::Sealed;
use std::marker::PhantomData;
use vstd::prelude::*;

verus! {

/// Red science packs used for research.
#[derive(Debug)]
pub struct RedScience;

impl Sealed for RedScience {

}

impl ResourceType for RedScience {
    const NAME: &'static str = "RedScience";

    open spec fn name() -> Seq<char> {
        "RedScience"@
    }

    proof fn lemma_name() {
    }
}

/// The points of the technology `T`. Points of two technologies are of two
/// kinds, whatever their amounts.
#[derive(Debug)]
pub struct ResearchPoint<T>(PhantomData<T>);

impl<T> Sealed for ResearchPoint<T> {

}

impl<T> ResourceType for ResearchPoint<T> {
    const NAME: &'static str = "ResearchPoint";

    open spec fn name() -> Seq<char> {
        "ResearchPoint"@
    }

    proof fn lemma_name() {
    }
}

/// A technology that costs `POINT_COST` of its points.
///
/// A research is carried out by calling the `research` method with the points
/// it costs. This consumes the points and the technology itself, and returns
/// whatever the technology unlocks, mostly recipes and other technologies.
/// The bundle is proof that the points are there, so research cannot fail.
pub trait Research<const POINT_COST: u32>: Sealed + Sized {
    /// The recipe by which a machine produces the points of this technology,
    /// one per cycle.
    type PointRecipe: Recipe<Outputs = (RecipeItem<1, ResearchPoint<Self>>,)>;

    /// The reward for completing this research.
    type Unlocks;

    /// Carries out the research by consuming the points and the technology
    /// itself, returning whatever this technology unlocks.
    fn research(self, points: Bundle<ResearchPoint<Self>, POINT_COST>) -> Self::Unlocks;
}

/// Technology that unlocks the ability to produce points.
#[derive(Debug)]
#[non_exhaustive]
pub struct PointsTechnology;

impl Sealed for PointsTechnology {

}

/// The recipe by which the points of [`PointsTechnology`] are produced. Converts
/// 1 red science pack into 1 research point. Takes no time: a machine converts
/// what it holds whenever it is touched.
#[derive(Debug, Clone, Copy)]
pub struct PointsResearch;

impl Sealed for PointsResearch {

}

impl Recipe for PointsResearch {
    const TIME: u64 = 0;

    type Inputs = (RecipeItem<1, RedScience>,);

    type Outputs = (RecipeItem<1, ResearchPoint<PointsTechnology>>,);

    open spec fn time() -> nat {
        0
    }

    proof fn lemma_valid() {
        assert(Self::Inputs::per_cycle() =~= seq![1nat]);
    }
}

impl Research<5> for PointsTechnology {
    type PointRecipe = PointsResearch;

    type Unlocks = PointRecipe;

    fn research(self, points: Bundle<ResearchPoint<PointsTechnology>, 5>) -> PointRecipe {
        PointRecipe
    }
}

} // verus!
