//! What a new save starts from: the game modes, by name, and the first lines of
//! a save of each.

use vstd::prelude::*;

verus! {

/// The first lines of a save of the tutorial.
pub const TUTORIAL_START: &'static str = r#"#![forbid(unsafe_code)]

use rustorio::gamemodes::{Tutorial, TutorialStartingResources};
use rustorio::resources::Copper;
use rustorio::{play, Bundle, Session, Tick};

fn main() {
    let mut session = Session::new();
    let ticks = play::<Tutorial, _>(&mut session, user_main).expect("a play is started once");
    println!("You won in {ticks} ticks!");
}

fn user_main(
    mut tick: Tick,
    starting_resources: TutorialStartingResources,
) -> (Tick, Bundle<Copper, 4>) {
    let TutorialStartingResources { iron, guide } = starting_resources;

    // To start, run the game using `rustorio play tutorial` (or whatever this save is called), and follow the hint.
    // If you get stuck, try giving the guide other objects you've found, like the `tick` object.
    println!("{}", guide.hint(&iron));
    todo!("Use the iron to build a furnace, mine some copper ore, and smelt it into copper ingots to win the game.")
}
"#;

/// The first lines of a save of the standard game.
pub const STANDARD_START: &'static str = r#"#![forbid(unsafe_code)]

use rustorio::gamemodes::{Standard, StandardStartingResources};
use rustorio::resources::Point;
use rustorio::{play, Bundle, Session, Tick};

fn main() {
    let mut session = Session::new();
    let ticks = play::<Standard, _>(&mut session, user_main).expect("a play is started once");
    println!("You won in {ticks} ticks!");
}

fn user_main(
    mut tick: Tick,
    starting_resources: StandardStartingResources,
) -> (Tick, Bundle<Point, 10>) {
    let StandardStartingResources {
        iron,
        points_technology,
    } = starting_resources;

    todo!("Return the `tick` and the victory resources to win the game!")
}
"#;

/// The game modes that a new save can be made for.
#[derive(Debug, Clone, Copy, PartialEq, Eq, Structural)]
pub enum GameMode {
    /// The tutorial.
    Tutorial,
    /// The standard game.
    Standard,
}

impl GameMode {
    /// The name of the game mode, as it is written on the command line.
    pub open spec fn name(&self) -> Seq<char> {
        match self {
            GameMode::Tutorial => "tutorial"@,
            GameMode::Standard => "standard"@,
        }
    }

    /// The name of the game mode, as it is written on the command line.
    pub fn as_str(&self) -> (name: &'static str)
        ensures
            name@ == self.name(),
    {
        match self {
            GameMode::Tutorial => "tutorial",
            GameMode::Standard => "standard",
        }
    }

    /// The first lines of a save of the game mode.
    pub open spec fn start_text(&self) -> Seq<char> {
        match self {
            GameMode::Tutorial => TUTORIAL_START@,
            GameMode::Standard => STANDARD_START@,
        }
    }

    /// The first lines of a save of the game mode.
    pub fn start_file(&self) -> (text: &'static str)
        ensures
            text@ == self.start_text(),
    {
        match self {
            GameMode::Tutorial => TUTORIAL_START,
            GameMode::Standard => STANDARD_START,
        }
    }
}

} // verus!
