//! A factory simulation on a logical clock.
//!
//! Time passes only when the [`Tick`] is advanced. Machines and territories are
//! brought up to date lazily, whenever their buffers are touched, by one batched
//! computation whose result is exactly that of stepping through every tick.

use vstd::prelude::*;

pub mod batch;
pub mod buildings;
pub mod compare;
pub mod gamemodes;
pub mod guide;
pub mod machine;
pub mod recipe;
pub mod recipes;
pub mod research;
pub mod resources;
pub mod saves;
pub mod territory;
pub mod tick;

pub use crate::gamemodes::{GameMode, StartingResources};
pub use crate::research::Research;
pub use crate::resources::{Bundle, InsufficientResourceError, Resource, ResourceType};
pub use crate::tick::Tick;

verus! {

/// Marks the traits of this library whose implementors it vouches for.
pub trait Sealed {

}

/// Whether a play has been started. There is to be one for each process, so that
/// one clock is the only authority on time.
#[derive(Debug)]
pub struct Session {
    played: bool,
}

/// What a second play in one session is refused with, where a caller that
/// nothing holds to the rule of one play starts one all the same.
#[derive(Debug, PartialEq, Eq, Structural)]
pub struct AlreadyPlayed;

impl Session {
    /// Whether a play has been started in this session.
    pub closed spec fn played(&self) -> bool {
        self.played
    }

    /// A session in which no play has been started.
    pub fn new() -> (session: Session)
        ensures
            !session.played(),
    {
        Session { played: false }
    }

    /// Whether a play has been started in this session.
    pub fn has_played(&self) -> (played: bool)
        ensures
            played == self.played(),
    {
        self.played
    }
}

/// Runs your play, once.
///
/// A session has one play: to start a second is a violation of the rules, and
/// no play may be started in a session that has played. The play starts the
/// clock at tick 0, creates the starting resources of the game mode and hands
/// both to `main`. When `main` returns the clock and the victory resources, the
/// play is won, and the number of ticks it took is returned.
///
/// The session is tested all the same, for the sake of callers that nothing
/// holds to the rule: in a session that has played, `main` is not called and
/// the play is refused.
pub fn play<G: GameMode, F>(session: &mut Session, main: F) -> (won: Result<u64, AlreadyPlayed>)
    where F: FnOnce(Tick, G::StartingResources) -> (Tick, G::VictoryResources)
    requires
        !old(session).played(),
        forall|tick: Tick, start: G::StartingResources|
            tick@ == 0 && tick.logging() ==> call_requires(main, (tick, start)),
    ensures
        final(session).played(),
        won matches Ok(ticks) && exists|
            tick: Tick,
            start: G::StartingResources,
            end: (Tick, G::VictoryResources),
        |
            tick@ == 0 && tick.logging() && call_ensures(main, (tick, start), end) && end.0@
                == ticks,
{
    if session.played {
        return Err(AlreadyPlayed);
    }
    session.played = true;
    let tick = Tick::start();
    let start_resources = G::StartingResources::init(&tick);
    let (tick, _points) = main(tick, start_resources);
    Ok(tick.cur())
}

} // verus!
