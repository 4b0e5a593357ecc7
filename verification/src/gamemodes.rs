//! A game mode defines the starting resources and victory conditions for a game.

use crate::guide::Guide;
use crate::research::PointsTechnology;
use crate::resources::{bundle, Bundle, Copper, Iron, Point};
use crate::tick::Tick;
use vstd::prelude::*;

verus! {

/// The starting resources of a game mode. These are provided to the player at the
/// beginning of the game.
pub trait StartingResources: Sized {
    /// Called once at the start of the game, before control is handed to the
    /// player, to create the starting resources. The tick is the one of the start
    /// of the game.
    fn init(tick: &Tick) -> Self;
}

/// A game mode defines the starting resources and victory conditions for a game.
pub trait GameMode {
    /// Starting resources provided to the player at the beginning of the game.
    type StartingResources: StartingResources;

    /// Resources required to achieve victory.
    type VictoryResources;
}

/// Starting resources for the tutorial game mode.
pub struct TutorialStartingResources {
    /// Initial iron bundle.
    pub iron: Bundle<Iron, 10>,
    /// The in-game guide that provides hints to the player.
    pub guide: Guide,
}

impl StartingResources for TutorialStartingResources {
    fn init(tick: &Tick) -> Self {
        Self { iron: bundle(), guide: Guide }
    }
}

/// The tutorial game mode. Very short distance from start to victory, meant to
/// teach the very most basic elements of play.
pub struct Tutorial;

impl GameMode for Tutorial {
    type StartingResources = TutorialStartingResources;

    type VictoryResources = Bundle<Copper, 4>;
}

/// Starting resources for the standard game mode. Includes 10 iron and the
/// ability to research points.
pub struct StandardStartingResources {
    /// Initial iron bundle.
    pub iron: Bundle<Iron, 10>,
    /// The tech you must research to start creating the game winning points.
    pub points_technology: PointsTechnology,
}

impl StartingResources for StandardStartingResources {
    fn init(tick: &Tick) -> Self {
        Self { iron: bundle(), points_technology: PointsTechnology }
    }
}

/// The standard game mode. Forces the player through the main gameplay
/// mechanics.
pub struct Standard;

impl GameMode for Standard {
    type StartingResources = StandardStartingResources;

    type VictoryResources = Bundle<Point, 10>;
}

} // verus!
