//! Territories are where you can get ore.
//!
//! To begin with you can mine by hand using [`Territory::hand_mine`], but later
//! you can add [`Miner`]s to the territory to automate mining. Like a machine, a
//! territory does no work in the background: whenever it is touched, it is first
//! brought up to date with the clock, in one batch.

use crate::resources::{bundle, resource, Bundle, Iron, Resource, ResourceType};
use crate::tick::Tick;
use std::ops::AddAssign;
use vstd::prelude::*;

verus! {

/// Ore is mined every `MINING_TICK_LENGTH` ticks by each miner in a territory.
pub const MINING_TICK_LENGTH: u64 = 2;

/// The number of whole mining ticks that have passed at a tick.
pub open spec fn mining_tick_at(tick: nat) -> nat {
    tick / (MINING_TICK_LENGTH as nat)
}

fn tick_to_mining_tick(tick: u64) -> (mining_tick: u64)
    ensures
        mining_tick == mining_tick_at(tick as nat),
{
    tick / MINING_TICK_LENGTH
}

/// A miner that can be added to a territory to mine resources.
#[derive(Debug)]
#[non_exhaustive]
pub struct Miner;

impl Miner {
    /// Builds a new miner. Requires 10 iron to build.
    pub fn build(iron: Bundle<Iron, 10>) -> (miner: Self) {
        Miner
    }
}

/// Error returned when trying to add a miner to a full territory.
#[derive(Debug)]
pub struct TerritoryFullError {
    /// The maximum number of miners allowed in the territory.
    pub max_miners: u32,
    /// The miner that could not be added.
    pub miner: Miner,
}

/// What a territory holds: the tick at which it was last brought up to date,
/// its slots for miners, the miners in it and the ore they have mined.
pub struct TerritoryState {
    /// The tick at which the territory was last brought up to date. The miners'
    /// work is counted up to the mining tick that this tick lies in.
    pub tick: nat,
    /// The maximum number of miners allowed in the territory.
    pub max_miners: nat,
    /// The number of miners in the territory.
    pub miners: nat,
    /// The ore mined and not yet taken away.
    pub ore: nat,
}

impl TerritoryState {
    /// The state with another amount of ore.
    pub open spec fn with_ore(self, ore: nat) -> TerritoryState {
        TerritoryState { ore, ..self }
    }

    /// The state with another number of miners.
    pub open spec fn with_miners(self, miners: nat) -> TerritoryState {
        TerritoryState { miners, ..self }
    }
}

/// The ore that the miners of a territory mine until tick `now`: one unit for
/// each miner and each whole mining tick that has passed since the mining tick
/// in which the territory was last brought up to date.
pub open spec fn ore_mined(state: TerritoryState, now: nat) -> nat {
    ((mining_tick_at(now) - mining_tick_at(state.tick)) * state.miners) as nat
}

/// The state of a territory after it is brought up to date at tick `now`.
pub open spec fn mine(state: TerritoryState, now: nat) -> TerritoryState {
    TerritoryState { tick: now, ore: state.ore + ore_mined(state, now), ..state }
}

/// The ore mined until tick `now` is one unit for each miner and each full
/// length of a mining tick that has passed since the beginning of the mining
/// tick in which the territory was last brought up to date.
pub proof fn lemma_ore_mined(state: TerritoryState, now: nat)
    requires
        state.tick <= now,
    ensures
        ore_mined(state, now) == ((now - mining_tick_at(state.tick) * MINING_TICK_LENGTH)
            / (MINING_TICK_LENGTH as int)) * state.miners,
{
    let counted = mining_tick_at(state.tick) as int;
    assert((now - counted * 2) / 2 == now as int / 2 - counted) by (nonlinear_arith)
        requires
            0 <= counted <= now as int / 2,
    ;
}

/// Bringing a territory up to date at tick `t1` and then at a later
/// tick `t2` leaves it exactly as bringing it up to date at `t2` alone does, and
/// no ore is ever lost on the way.
pub proof fn lemma_mine_composes(state: TerritoryState, t1: nat, t2: nat)
    requires
        state.tick <= t1 <= t2,
    ensures
        mine(mine(state, t1), t2) == mine(state, t2),
        state.ore <= mine(state, t1).ore <= mine(state, t2).ore,
{
    let m0 = mining_tick_at(state.tick) as int;
    let m1 = mining_tick_at(t1) as int;
    let m2 = mining_tick_at(t2) as int;
    let k = state.miners as int;
    assert(m0 <= m1 <= m2);
    assert((m2 - m1) * k + (m1 - m0) * k == (m2 - m0) * k) by (nonlinear_arith);
    assert((m1 - m0) * k >= 0 && (m2 - m1) * k >= 0) by (nonlinear_arith)
        requires
            m0 <= m1 <= m2,
            k >= 0,
    ;
}

/// The slots of a territory and the miners in them, which are never more than
/// the slots.
#[derive(Debug)]
struct Slots {
    /// The maximum number of miners allowed in the territory.
    max_miners: u32,
    miners: u32,
}

impl Slots {
    #[verifier::type_invariant]
    spec fn within_slots(&self) -> bool {
        self.miners <= self.max_miners
    }
}

/// A territory that can hold miners to mine a specific type of ore.
#[derive(Debug)]
#[non_exhaustive]
pub struct Territory<OreType: ResourceType> {
    tick: u64,
    slots: Slots,
    resources: Resource<OreType>,
}

impl<OreType: ResourceType> View for Territory<OreType> {
    type V = TerritoryState;

    /// What the territory holds.
    closed spec fn view(&self) -> TerritoryState {
        TerritoryState {
            tick: self.tick as nat,
            max_miners: self.slots.max_miners as nat,
            miners: self.slots.miners as nat,
            ore: self.resources@,
        }
    }
}

impl<OreType: ResourceType> Territory<OreType> {
    /// The numbers of a territory fit the machine words that store them.
    pub proof fn lemma_bounded(&self)
        ensures
            self@.max_miners <= u32::MAX,
            self@.miners <= u32::MAX,
            self@.ore <= u32::MAX,
            self@.tick <= u64::MAX,
    {
        self.resources.lemma_bounded();
    }

    /// The territory can be brought up to date at tick `now`: the tick is not
    /// before the one it was last brought up to date at, and the ore mined since
    /// fits beside the ore that is there.
    pub open spec fn can_sync(&self, now: nat) -> bool {
        &&& self@.tick <= now
        &&& self@.ore + ore_mined(self@, now) <= u32::MAX
    }

    /// A territory is never brought up to date at a tick before the one it was
    /// last brought up to date at, be it in the same mining tick: such a tick is
    /// refused.
    pub proof fn lemma_refuses_the_past(&self, now: nat)
        requires
            now < self@.tick,
        ensures
            !self.can_sync(now),
    {
    }

    /// Creates a new territory that can hold up to `max_miners` miners. It holds
    /// no miner and no ore.
    pub fn new(tick: &Tick, max_miners: u32) -> (territory: Self)
        ensures
            territory@ == (TerritoryState {
                tick: tick@,
                max_miners: max_miners as nat,
                miners: 0,
                ore: 0,
            }),
    {
        Self {
            tick: tick.cur(),
            slots: Slots { max_miners, miners: 0 },
            resources: Resource::empty(),
        }
    }

    /// Returns the the number of miner slots available in the territory.
    pub fn max_miners(&self) -> (slots: u32)
        ensures
            slots == self@.max_miners,
    {
        self.slots.max_miners
    }

    /// Returns the current number of miners in the territory, which is never
    /// more than the number of slots.
    pub fn num_miners(&self) -> (miners: u32)
        ensures
            miners == self@.miners,
            miners <= self@.max_miners,
    {
        proof {
            use_type_invariant(&self.slots);
        }
        self.slots.miners
    }

    /// Whether the territory can be brought up to date at the tick.
    pub fn accepts(&self, tick: &Tick) -> (ok: bool)
        ensures
            ok == self.can_sync(tick@),
    {
        let now: u64 = tick.cur();
        if now < self.tick {
            return false;
        }
        let delta: u128 = (tick_to_mining_tick(now) - tick_to_mining_tick(self.tick)) as u128;
        let miners: u128 = self.slots.miners as u128;
        let held: u128 = self.resources.amount() as u128;
        assert(delta * miners <= 0xffff_ffff_ffff_ffff * 0xffff_ffff) by (nonlinear_arith)
            requires
                0 <= delta <= 0xffff_ffff_ffff_ffff,
                0 <= miners <= 0xffff_ffff,
        ;
        held + delta * miners <= 0xffff_ffff
    }

    /// Brings the territory up to date with the clock.
    fn tick(&mut self, tick: &Tick)
        requires
            old(self).can_sync(tick@),
        ensures
            final(self)@ == mine(old(self)@, tick@),
    {
        let now: u64 = tick.cur();
        let mining_tick_delta: u64 = tick_to_mining_tick(now) - tick_to_mining_tick(self.tick);
        if self.slots.miners > 0 {
            assert(mining_tick_delta <= u32::MAX) by (nonlinear_arith)
                requires
                    mining_tick_delta * self.slots.miners <= u32::MAX,
                    self.slots.miners > 0,
            ;
            let gain: u64 = mining_tick_delta * (self.slots.miners as u64);
            self.resources.add_assign(resource(gain as u32));
        } else {
            assert(mining_tick_delta * self.slots.miners == 0) by (nonlinear_arith)
                requires
                    self.slots.miners == 0,
            ;
        }
        self.tick = now;
    }

    /// Mines ore by hand, advancing the tick by [`MINING_TICK_LENGTH`] for each
    /// unit mined. The territory is brought up to date at the tick at which the
    /// mining begins; the ore mined by hand is handed out, not stored.
    pub fn hand_mine<const AMOUNT: u32>(&mut self, tick: &mut Tick) -> (mined: Bundle<
        OreType,
        AMOUNT,
    >)
        requires
            old(self).can_sync(old(tick)@),
            old(tick)@ + AMOUNT * MINING_TICK_LENGTH <= u64::MAX,
        ensures
            final(self)@ == mine(old(self)@, old(tick)@),
            final(tick)@ == old(tick)@ + AMOUNT * MINING_TICK_LENGTH,
            final(tick).logging() == old(tick).logging(),
            mined@ == AMOUNT,
    {
        self.tick(tick);
        tick.advance_by((AMOUNT as u64) * MINING_TICK_LENGTH);
        bundle()
    }

    /// Adds a miner to the territory, once it is brought up to date.
    /// Returns an error including the given miner if the territory is already full.
    pub fn add_miner(&mut self, tick: &Tick, miner: Miner) -> (added: Result<
        (),
        TerritoryFullError,
    >)
        requires
            old(self).can_sync(tick@),
        ensures
            match added {
                Ok(_) => old(self)@.miners < old(self)@.max_miners && final(self)@ == mine(
                    old(self)@,
                    tick@,
                ).with_miners(old(self)@.miners + 1),
                Err(error) => old(self)@.miners >= old(self)@.max_miners && final(self)@ == mine(
                    old(self)@,
                    tick@,
                ) && error.max_miners == old(self)@.max_miners && error.miner == miner,
            },
    {
        self.tick(tick);
        if self.slots.miners < self.slots.max_miners {
            self.slots.miners = self.slots.miners + 1;
            Ok(())
        } else {
            Err(TerritoryFullError { max_miners: self.slots.max_miners, miner })
        }
    }

    /// Takes a miner from the territory, once it is brought up to date.
    /// Returns `None` if there are no miners in the territory.
    pub fn take_miner(&mut self, tick: &Tick) -> (taken: Option<Miner>)
        requires
            old(self).can_sync(tick@),
        ensures
            match taken {
                Some(_) => old(self)@.miners > 0 && final(self)@ == mine(
                    old(self)@,
                    tick@,
                ).with_miners((old(self)@.miners - 1) as nat),
                None => old(self)@.miners == 0 && final(self)@ == mine(old(self)@, tick@),
            },
    {
        self.tick(tick);
        if self.slots.miners > 0 {
            proof {
                use_type_invariant(&self.slots);
            }
            self.slots.miners = self.slots.miners - 1;
            Some(Miner)
        } else {
            None
        }
    }

    /// Access the resources mined in this territory.
    ///
    /// The resource handed out is the ore of the territory brought up to date at
    /// the tick; what the caller leaves in it is what the territory then holds.
    pub fn resources(&mut self, tick: &Tick) -> (ore: &mut Resource<OreType>)
        requires
            old(self).can_sync(tick@),
        ensures
            ore@ == mine(old(self)@, tick@).ore,
            final(self)@ == mine(old(self)@, tick@).with_ore(final(ore)@),
    {
        self.tick(tick);
        &mut self.resources
    }
}

} // verus!
