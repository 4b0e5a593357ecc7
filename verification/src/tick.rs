//! The logical clock.

use vstd::prelude::*;
use vstd::std_specs::convert::FromSpecImpl;

verus! {

/// The tick keeps track of time in the simulation.
///
/// A function that takes a `&mut Tick` takes time; a function that takes a `&Tick`,
/// or no tick at all, never advances the clock. The clock only moves forward.
#[derive(Debug)]
pub struct Tick {
    tick: u64,
    log: bool,
}

impl View for Tick {
    type V = nat;

    /// The number of ticks that have passed since the start.
    closed spec fn view(&self) -> nat {
        self.tick as nat
    }
}

impl Tick {
    /// Whether advancing the clock is to be reported.
    pub closed spec fn logging(&self) -> bool {
        self.log
    }

    /// The clock that reads `tick`, with reporting on or off.
    pub closed spec fn at(tick: nat, logging: bool) -> Tick {
        Tick { tick: tick as u64, log: logging }
    }

    /// The clock that reads a tick does read it, if the tick fits the machine
    /// word that stores it; and a clock is no more than its reading and its
    /// switch.
    pub proof fn lemma_at(&self)
        ensures
            Tick::at(self@, self.logging()) == *self,
            forall|tick: nat, logging: bool|
                tick <= u64::MAX ==> (#[trigger] Tick::at(tick, logging))@ == tick && Tick::at(
                    tick,
                    logging,
                ).logging() == logging,
    {
    }

    /// The clock after `ticks` more ticks have passed.
    pub closed spec fn after(&self, ticks: nat) -> Tick {
        Tick { tick: (self.tick + ticks) as u64, log: self.log }
    }

    /// The clock after every one of `ticks` single ticks has passed in turn.
    pub open spec fn after_each(&self, ticks: nat) -> Tick
        decreases ticks,
    {
        if ticks == 0 {
            *self
        } else {
            self.after_each((ticks - 1) as nat).after(1)
        }
    }

    /// After more ticks the clock reads that many more, and its switch is as it
    /// was.
    pub proof fn lemma_after(&self, ticks: nat)
        requires
            self@ + ticks <= u64::MAX,
        ensures
            self.after(ticks)@ == self@ + ticks,
            self.after(ticks).logging() == self.logging(),
    {
    }

    /// Passing the ticks one by one leaves the clock exactly where
    /// passing them all at once does.
    pub proof fn lemma_after_each(&self, ticks: nat)
        requires
            self@ + ticks <= u64::MAX,
        ensures
            self.after_each(ticks) == self.after(ticks),
        decreases ticks,
    {
        if ticks > 0 {
            self.lemma_after_each((ticks - 1) as nat);
        }
    }

    /// The clock at the start of a run: no tick has passed, reporting is on.
    pub fn start() -> (tick: Tick)
        ensures
            tick@ == 0,
            tick.logging(),
    {
        Tick { tick: 0, log: true }
    }

    /// Sets whether advancing the clock is to be reported. The time is not touched.
    pub fn log(&mut self, log: bool)
        ensures
            final(self)@ == old(self)@,
            final(self).logging() == log,
    {
        self.log = log;
    }

    /// Whether advancing the clock is to be reported.
    pub fn is_logging(&self) -> (log: bool)
        ensures
            log == self.logging(),
    {
        self.log
    }

    /// Advances the clock by one tick.
    pub fn advance(&mut self)
        requires
            old(self)@ < u64::MAX,
        ensures
            *final(self) == old(self).after(1),
            final(self)@ == old(self)@ + 1,
            final(self).logging() == old(self).logging(),
    {
        self.advance_by(1);
    }

    /// Advances the clock by `ticks` ticks.
    pub fn advance_by(&mut self, ticks: u64)
        requires
            old(self)@ + ticks <= u64::MAX,
        ensures
            *final(self) == old(self).after(ticks as nat),
            final(self)@ == old(self)@ + ticks,
            final(self).logging() == old(self).logging(),
    {
        self.tick = self.tick + ticks;
    }

    /// Advances the clock until it reads `target_tick`. Does nothing if that tick
    /// has been reached already.
    pub fn advance_to_tick(&mut self, target_tick: u64)
        ensures
            final(self)@ == if target_tick > old(self)@ { target_tick as nat } else { old(self)@ },
            final(self).logging() == old(self).logging(),
    {
        if target_tick > self.tick {
            self.advance_by(target_tick - self.tick);
        }
    }

    /// Advances the clock tick by tick until `condition` holds or `max_ticks` ticks
    /// have passed. Returns whether the condition was met before the budget ran out.
    ///
    /// The condition is asked once at the current tick and once after every tick
    /// that passes, so it must bear being asked at every tick within the budget.
    /// The clock cannot pass `u64::MAX`: either the budget ends before that, or
    /// there is a tick from here on at which the condition cannot fail.
    pub fn advance_until<F>(&mut self, mut condition: F, max_ticks: u64) -> (met: bool) where
        F: FnMut(&Tick) -> bool,

        requires
            forall|t: &Tick|
                old(self)@ <= t@ <= old(self)@ + max_ticks && t.logging() == old(self).logging()
                    ==> call_requires(condition, (t,)),
            old(self)@ + max_ticks <= u64::MAX || exists|t: Tick|
                old(self)@ <= t@ && t.logging() == old(self).logging() && !call_ensures(
                    condition,
                    (&t,),
                    false,
                ),
        ensures
            old(self)@ <= final(self)@ <= old(self)@ + max_ticks,
            final(self).logging() == old(self).logging(),
            met == (final(self)@ - old(self)@ < max_ticks),
            met ==> call_ensures(condition, (final(self),), true),
            !met ==> final(self)@ == old(self)@ + max_ticks,
            forall|t: &Tick|
                old(self)@ <= t@ < final(self)@ && t.logging() == old(self).logging()
                    ==> call_ensures(condition, (t,), false),
    {
        let ghost asked = condition;
        let ghost bounded = self.tick + max_ticks <= u64::MAX;
        let ghost last = choose|t: Tick|
            self@ <= t@ && t.logging() == self.logging() && !call_ensures(asked, (&t,), false);
        let start_tick: u64 = self.tick;
        let mut holds: bool = condition(self);
        while !holds && self.tick - start_tick < max_ticks
            invariant
                condition == asked,
                start_tick == old(self).tick,
                self.log == old(self).log,
                start_tick <= self.tick,
                self.tick - start_tick <= max_ticks,
                forall|t: &Tick|
                    start_tick <= t@ <= start_tick + max_ticks && t.logging() == self.log
                        ==> call_requires(condition, (t,)),
                bounded ==> start_tick + max_ticks <= u64::MAX,
                !bounded ==> self.tick <= last.tick && last.log == self.log && !call_ensures(
                    asked,
                    (&last,),
                    false,
                ),
                call_ensures(condition, (&*self,), holds),
                forall|t: &Tick|
                    start_tick <= t@ < self.tick && t.logging() == self.log ==> call_ensures(
                        condition,
                        (t,),
                        false,
                    ),
            decreases max_ticks - (self.tick - start_tick),
        {
            assert(!bounded ==> self.tick < last.tick) by {
                if !bounded && self.tick == last.tick {
                    assert(*self == last);
                }
            }
            self.advance();
            holds = condition(self);
        }
        self.tick - start_tick < max_ticks
    }

    /// The current tick number.
    pub fn cur(&self) -> (tick: u64)
        ensures
            tick == self@,
    {
        self.tick
    }
}

impl From<&Tick> for u64 {
    /// The current tick number.
    fn from(tick: &Tick) -> (number: u64)
        ensures
            number == tick@,
    {
        tick.tick
    }
}

impl FromSpecImpl<&Tick> for u64 {
    open spec fn obeys_from_spec() -> bool {
        true
    }

    open spec fn from_spec(tick: &Tick) -> u64 {
        tick@ as u64
    }
}

} // verus!
