//! A guide that provides hints to the player during the tutorial.

use crate::buildings::Furnace;
use crate::recipes::FurnaceRecipe;
use crate::resources::{Bundle, Copper, CopperOre, Iron, IronOre, Resource, ResourceType};
use crate::territory::Territory;
use crate::tick::Tick;
use vstd::prelude::*;

verus! {

/// The hint about the clock.
pub const TICK_HINT: &'static str =
    "The `Tick` object you are given handles the passage of time in the game. You can use methods like `Tick::advance` or `Tick::advance_until` to make time pass, which is necessary for buildings to process resources. Some functions like `Territory::hand_mine` take a mutable reference to the Tick to let them advance time internally.";

/// The hint about iron.
pub const IRON_HINT: &'static str =
    "In this tutorial you start with 10 iron. You can use iron to build buildings like Furnaces and Assemblers.
Try building a Furnace using `Furnace::build`. If you're in doubt about what recipe to pick, try `CopperSmelting` to smelt copper ore into copper ingots.";

/// The hint about furnaces.
pub const FURNACE_HINT: &'static str =
    "Congratulations on building your first Furnace! If you haven't already, mine some copper ore using `Territory::hand_mine`. You can add the ore to the furnace using `Furnace::inputs`. If you then use `Tick::advance` to make ticks pass, the ore will turn into ingots which can be extracted using `Furnace::outputs`.";

/// The hint about territories.
pub const TERRITORY_HINT: &'static str =
    "A territory is where ore comes from. Make one using `Territory::new`. To begin with you can mine by hand using `Territory::hand_mine`, which takes time. Later you can build miners and add them to the territory using `Territory::add_miner`; what they mine is found in `Territory::resources`.";

/// The hint about copper ore.
pub const COPPER_ORE_HINT: &'static str =
    "Great job on mining some copper ore! Add the ore to a Furnace using `Furnace::inputs`, then advance time using `Tick::advance` to smelt the ore into copper ingots. Finally, extract the ingots using `Furnace::outputs`.

If you don't have a Furnace yet, build one using `Furnace::build`, and use the `CopperSmelting` recipe to smelt copper ore into copper ingots.";

/// The hint about iron ore.
pub const IRON_ORE_HINT: &'static str =
    "Good job on figuring out how to mine iron ore! You can smelt the iron ore into iron ingots using a Furnace, but you won't need to for this tutorial, instead try mining some copper ore.";

/// The hint about copper.
pub const COPPER_HINT: &'static str =
    "Awesome! You've made some copper ingots. To win the tutorial, you need to make 4 copper ingots. If you don't have them yet, try mining some more copper ore, then smelt it into copper ingots using a Furnace.";

/// A topic that the guide can provide hints about.
pub trait GuideTopic {
    /// The hint about the topic, as contracts speak of it.
    spec fn text() -> Seq<char>;

    /// The hint about the topic.
    fn hint() -> (message: &'static str)
        ensures
            message@ == Self::text(),
    ;
}

impl GuideTopic for Tick {
    open spec fn text() -> Seq<char> {
        TICK_HINT@
    }

    fn hint() -> (message: &'static str) {
        TICK_HINT
    }
}

impl GuideTopic for Resource<Iron> {
    open spec fn text() -> Seq<char> {
        IRON_HINT@
    }

    fn hint() -> (message: &'static str) {
        IRON_HINT
    }
}

impl<R: FurnaceRecipe> GuideTopic for Furnace<R> {
    open spec fn text() -> Seq<char> {
        FURNACE_HINT@
    }

    fn hint() -> (message: &'static str) {
        FURNACE_HINT
    }
}

impl<OreType: ResourceType> GuideTopic for Territory<OreType> {
    open spec fn text() -> Seq<char> {
        TERRITORY_HINT@
    }

    fn hint() -> (message: &'static str) {
        TERRITORY_HINT
    }
}

impl GuideTopic for Resource<CopperOre> {
    open spec fn text() -> Seq<char> {
        COPPER_ORE_HINT@
    }

    fn hint() -> (message: &'static str) {
        COPPER_ORE_HINT
    }
}

impl GuideTopic for Resource<IronOre> {
    open spec fn text() -> Seq<char> {
        IRON_ORE_HINT@
    }

    fn hint() -> (message: &'static str) {
        IRON_ORE_HINT
    }
}

impl GuideTopic for Resource<Copper> {
    open spec fn text() -> Seq<char> {
        COPPER_HINT@
    }

    fn hint() -> (message: &'static str) {
        COPPER_HINT
    }
}

impl<T: GuideTopic> GuideTopic for &T {
    open spec fn text() -> Seq<char> {
        T::text()
    }

    fn hint() -> (message: &'static str) {
        T::hint()
    }
}

impl<Content: ResourceType, const AMOUNT: u32> GuideTopic for Bundle<Content, AMOUNT> where
    Resource<Content>: GuideTopic,
 {
    open spec fn text() -> Seq<char> {
        <Resource<Content> as GuideTopic>::text()
    }

    fn hint() -> (message: &'static str) {
        <Resource<Content> as GuideTopic>::hint()
    }
}

/// A guide that provides hints to the player during the tutorial.
#[derive(Debug)]
#[non_exhaustive]
pub struct Guide;

impl Guide {
    /// The hint about the specified topic. A bundle is as good a topic as the
    /// resource in it, and a reference as good as what it refers to.
    pub fn hint<T: GuideTopic>(&self, topic: T) -> (message: &'static str)
        ensures
            message@ == T::text(),
    {
        T::hint()
    }
}

} // verus!
