//! Basic machine that can process recipes.
//!
//! A machine holds one buffer for each input and each output of its recipe. It
//! does no work in the background: whenever its buffers are touched, it is first
//! brought up to date with the clock, in one batch.

use crate::batch::{
    affordable, banked, cycles, drained, filled, input_limit, lemma_cycles_affordable, sync,
    sync_cycles, time_limit, MachineState, RecipeTable,
};
use crate::recipe::{Recipe, RecipeItems};
use crate::tick::Tick;
use vstd::prelude::*;

verus! {

/// Location of a resource buffer in a machine.
#[derive(Debug, Clone, Copy, PartialEq, Eq, Structural)]
pub enum BufferLocation {
    /// Input buffer.
    Input,
    /// Output buffer.
    Output,
}

/// Error returned when trying to change a machine's recipe while it has non-empty
/// input or output buffers.
#[derive(Debug)]
pub struct MachineNotEmptyError<M> {
    /// The machine, unchanged, with the recipe it had.
    pub machine: M,
    /// Name of the type of the resource in the machine's buffers.
    pub resource_type: &'static str,
    /// The amount of the resource in the machine's buffers.
    pub amount: u32,
    /// Whether the resource is in the input or the output.
    pub location: BufferLocation,
}

impl<M> MachineNotEmptyError<M> {
    /// Converts the error to another machine type, keeping the same resource
    /// information.
    pub fn map_machine<F, M2>(self, f: F) -> (mapped: MachineNotEmptyError<M2>) where
        F: FnOnce(M) -> M2,

        requires
            call_requires(f, (self.machine,)),
        ensures
            call_ensures(f, (self.machine,), mapped.machine),
            mapped.resource_type == self.resource_type,
            mapped.amount == self.amount,
            mapped.location == self.location,
    {
        MachineNotEmptyError {
            machine: f(self.machine),
            resource_type: self.resource_type,
            amount: self.amount,
            location: self.location,
        }
    }
}

/// The numbers of the recipe `R`.
pub open spec fn table_of<R: Recipe>() -> RecipeTable {
    RecipeTable {
        time: R::time(),
        inputs: R::Inputs::per_cycle(),
        outputs: R::Outputs::per_cycle(),
    }
}

/// The first of the first `k` buffers that holds something, if one does.
pub open spec fn first_held(amounts: Seq<nat>, k: nat) -> Option<int>
    decreases k,
{
    if k == 0 {
        None
    } else {
        match first_held(amounts, (k - 1) as nat) {
            Some(i) => Some(i),
            None => if amounts[k - 1] > 0 {
                Some(k - 1)
            } else {
                None
            },
        }
    }
}

/// Nothing is in any buffer.
pub open spec fn is_empty(state: MachineState) -> bool {
    &&& forall|i: int| 0 <= i < state.inputs.len() ==> state.inputs[i] == 0
    &&& forall|j: int| 0 <= j < state.outputs.len() ==> state.outputs[j] == 0
}

/// The buffer at `location` that holds `amount` of the resource named
/// `resource_type` is the first one of a machine of recipe `R` that holds
/// something: the first such input or, where all inputs are empty, the first
/// such output.
pub open spec fn blocked_by<R: Recipe>(
    state: MachineState,
    location: BufferLocation,
    resource_type: Seq<char>,
    amount: nat,
) -> bool {
    match first_held(state.inputs, state.inputs.len()) {
        Some(i) => {
            &&& location == BufferLocation::Input
            &&& resource_type == R::Inputs::kinds()[i]
            &&& amount == state.inputs[i]
        },
        None => {
            &&& first_held(state.outputs, state.outputs.len()) matches Some(j)
            &&& location == BufferLocation::Output
            &&& resource_type == R::Outputs::kinds()[j]
            &&& amount == state.outputs[j]
        },
    }
}

/// The first buffer that holds something is the one before which all are empty;
/// there is none exactly if all are empty.
pub proof fn lemma_first_held(amounts: Seq<nat>, k: nat)
    requires
        k <= amounts.len(),
    ensures
        match first_held(amounts, k) {
            Some(i) => 0 <= i < k && amounts[i] > 0 && forall|j: int|
                0 <= j < i ==> amounts[j] == 0,
            None => forall|j: int| 0 <= j < k ==> amounts[j] == 0,
        },
    decreases k,
{
    if k > 0 {
        lemma_first_held(amounts, (k - 1) as nat);
    }
}

/// The first buffer that holds something stays the first when more buffers are
/// looked at.
proof fn lemma_first_held_stays(amounts: Seq<nat>, k: nat, more: nat)
    requires
        k <= more,
        first_held(amounts, k) is Some,
    ensures
        first_held(amounts, more) == first_held(amounts, k),
    decreases more,
{
    if more > k {
        lemma_first_held_stays(amounts, k, (more - 1) as nat);
    }
}

/// The number of cycles that the buffers allow: the least, over all of them, of
/// the amount held divided by the amount that one cycle takes.
fn limit_of<I: RecipeItems>(items: &I) -> (limit: Option<u32>)
    requires
        forall|i: int| 0 <= i < I::per_cycle().len() ==> #[trigger] I::per_cycle()[i] > 0,
    ensures
        match limit {
            Some(m) => input_limit(items.amounts(), I::per_cycle(), I::per_cycle().len())
                == Some(m as nat),
            None => input_limit(items.amounts(), I::per_cycle(), I::per_cycle().len()) is None,
        },
{
    proof {
        items.lemma_shape();
    }
    let count: usize = I::count();
    let mut limit: Option<u32> = None;
    let mut index: usize = 0;
    while index < count
        invariant
            index <= count,
            count == I::per_cycle().len(),
            items.amounts().len() == count,
            forall|i: int| 0 <= i < count ==> #[trigger] I::per_cycle()[i] > 0,
            match limit {
                Some(m) => input_limit(items.amounts(), I::per_cycle(), index as nat) == Some(
                    m as nat,
                ),
                None => input_limit(items.amounts(), I::per_cycle(), index as nat) is None,
            },
        decreases count - index,
    {
        let quotient: u32 = items.amount(index) / I::needed(index);
        limit =
        match limit {
            Some(m) => if quotient < m {
                Some(quotient)
            } else {
                Some(m)
            },
            None => Some(quotient),
        };
        index = index + 1;
    }
    limit
}

/// Takes the amounts of `count` cycles out of the buffers.
fn drain<I: RecipeItems>(items: &mut I, count: u32)
    requires
        forall|i: int|
            0 <= i < I::per_cycle().len() ==> count * I::per_cycle()[i] <= #[trigger] old(
                items,
            ).amounts()[i],
    ensures
        final(items).amounts() == drained(old(items).amounts(), I::per_cycle(), count as nat),
{
    proof {
        items.lemma_shape();
    }
    let len: usize = I::count();
    let mut index: usize = 0;
    while index < len
        invariant
            index <= len,
            len == I::per_cycle().len(),
            items.amounts().len() == len,
            forall|i: int|
                0 <= i < len ==> count * I::per_cycle()[i] <= #[trigger] old(items).amounts()[i]
                    <= u32::MAX,
            forall|i: int|
                0 <= i < index ==> #[trigger] items.amounts()[i] == old(items).amounts()[i]
                    - count * I::per_cycle()[i],
            forall|i: int|
                index <= i < len ==> #[trigger] items.amounts()[i] == old(items).amounts()[i],
        decreases len - index,
    {
        let held: u32 = items.amount(index);
        let needed: u32 = I::needed(index);
        assert(count * needed <= held);
        items.set_amount(index, held - count * needed);
        index = index + 1;
    }
    assert(items.amounts() =~= drained(old(items).amounts(), I::per_cycle(), count as nat));
}

/// Puts the amounts of `count` cycles into the buffers.
fn fill<I: RecipeItems>(items: &mut I, count: u64)
    requires
        forall|j: int|
            0 <= j < I::per_cycle().len() ==> #[trigger] old(items).amounts()[j] + count
                * I::per_cycle()[j] <= u32::MAX,
    ensures
        final(items).amounts() == filled(old(items).amounts(), I::per_cycle(), count as nat),
{
    proof {
        items.lemma_shape();
    }
    let len: usize = I::count();
    let mut index: usize = 0;
    while index < len
        invariant
            index <= len,
            len == I::per_cycle().len(),
            items.amounts().len() == len,
            forall|j: int|
                0 <= j < len ==> #[trigger] old(items).amounts()[j] + count * I::per_cycle()[j]
                    <= u32::MAX,
            forall|j: int|
                0 <= j < index ==> #[trigger] items.amounts()[j] == old(items).amounts()[j]
                    + count * I::per_cycle()[j],
            forall|j: int|
                index <= j < len ==> #[trigger] items.amounts()[j] == old(items).amounts()[j],
        decreases len - index,
    {
        let held: u32 = items.amount(index);
        let made: u32 = I::needed(index);
        assert(held + count * made <= u32::MAX);
        let gain: u64 = count * (made as u64);
        items.set_amount(index, held + (gain as u32));
        index = index + 1;
    }
    assert(items.amounts() =~= filled(old(items).amounts(), I::per_cycle(), count as nat));
}

/// Whether some buffer holds less than one cycle takes.
fn short<I: RecipeItems>(items: &I) -> (short: bool)
    ensures
        short == exists|i: int|
            0 <= i < I::per_cycle().len() && #[trigger] items.amounts()[i] < I::per_cycle()[i],
{
    let len: usize = I::count();
    let mut index: usize = 0;
    while index < len
        invariant
            index <= len,
            len == I::per_cycle().len(),
            forall|i: int| 0 <= i < index ==> #[trigger] items.amounts()[i] >= I::per_cycle()[i],
        decreases len - index,
    {
        if items.amount(index) < I::needed(index) {
            return true;
        }
        index = index + 1;
    }
    false
}

/// The index of the first buffer that holds something, if one does.
fn first_nonempty<I: RecipeItems>(items: &I) -> (found: Option<usize>)
    ensures
        match found {
            Some(i) => first_held(items.amounts(), I::per_cycle().len()) == Some(i as int),
            None => first_held(items.amounts(), I::per_cycle().len()) is None,
        },
{
    let len: usize = I::count();
    let mut index: usize = 0;
    while index < len
        invariant
            index <= len,
            len == I::per_cycle().len(),
            first_held(items.amounts(), index as nat) is None,
        decreases len - index,
    {
        if items.amount(index) > 0 {
            proof {
                lemma_first_held_stays(items.amounts(), (index + 1) as nat, len as nat);
            }
            return Some(index);
        }
        index = index + 1;
    }
    None
}

/// The time that a machine keeps: the tick at which it was last brought up to
/// date, and the ticks banked towards its next cycle, which are never more than
/// the ticks that have passed.
#[derive(Debug)]
struct Progress {
    tick: u64,
    crafting_time: u64,
}

impl Progress {
    #[verifier::type_invariant]
    spec fn within_time(&self) -> bool {
        self.crafting_time <= self.tick
    }
}

/// Basic machine that can process recipes.
#[derive(Debug)]
pub struct Machine<R: Recipe> {
    inputs: R::Inputs,
    outputs: R::Outputs,
    progress: Progress,
}

impl<R: Recipe> View for Machine<R> {
    type V = MachineState;

    /// What the machine holds.
    closed spec fn view(&self) -> MachineState {
        MachineState {
            inputs: self.inputs.amounts(),
            outputs: self.outputs.amounts(),
            tick: self.progress.tick as nat,
            carried: self.progress.crafting_time as nat,
        }
    }
}

impl<R: Recipe> Machine<R> {
    /// The numbers of the machine's recipe.
    pub open spec fn table() -> RecipeTable {
        table_of::<R>()
    }

    /// The machine can be brought up to date at tick `now`: the tick is not
    /// before the one it was last brought up to date at, and every output buffer
    /// has room for what the completed cycles give.
    pub open spec fn can_sync(&self, now: nat) -> bool {
        &&& self@.tick <= now
        &&& forall|j: int|
            0 <= j < Self::table().outputs.len() ==> self@.outputs[j] + sync_cycles(
                Self::table(),
                self@,
                now,
            ) * #[trigger] Self::table().outputs[j] <= u32::MAX
    }

    /// A machine is never brought up to date at a tick before the
    /// one it was last brought up to date at: such a tick is refused, not taken
    /// for the machine's own.
    pub proof fn lemma_refuses_the_past(&self, now: nat)
        requires
            now < self@.tick,
        ensures
            !self.can_sync(now),
    {
    }

    /// A machine has one buffer for each input and output of its recipe, its
    /// numbers fit the machine words that store them, and its recipe can be run.
    pub proof fn lemma_shaped(&self)
        ensures
            Self::table().valid(),
            self@.shaped(Self::table()),
            self@.tick <= u64::MAX,
            forall|i: int| 0 <= i < self@.inputs.len() ==> self@.inputs[i] <= u32::MAX,
            forall|j: int| 0 <= j < self@.outputs.len() ==> self@.outputs[j] <= u32::MAX,
    {
        R::lemma_valid();
        self.inputs.lemma_shape();
        self.outputs.lemma_shape();
    }

    fn new_inner(tick: u64) -> (machine: Self)
        ensures
            machine@ == MachineState::fresh(Self::table(), tick as nat),
    {
        Self {
            inputs: R::Inputs::new_empty(),
            outputs: R::Outputs::new_empty(),
            progress: Progress { tick, crafting_time: 0 },
        }
    }

    /// Build a new machine. It holds nothing and has banked no time.
    pub fn new(tick: &Tick) -> (machine: Self)
        ensures
            machine@ == MachineState::fresh(Self::table(), tick@),
    {
        Self::new_inner(tick.cur())
    }

    /// The number of cycles that the machine completes when it has banked
    /// `banked` ticks.
    fn count_cycles(&self, banked: u64) -> (count: u64)
        ensures
            count == cycles(Self::table(), self@.inputs, banked as nat),
    {
        proof {
            R::lemma_valid();
        }
        let by_time: Option<u64> = if R::TIME > 0 {
            Some(banked / R::TIME)
        } else {
            None
        };
        assert(match by_time {
            Some(q) => time_limit(R::time(), banked as nat) == Some(q as nat),
            None => time_limit(R::time(), banked as nat) is None,
        });
        match limit_of(&self.inputs) {
            Some(m) => match by_time {
                Some(q) => if (m as u64) < q {
                    m as u64
                } else {
                    q
                },
                None => m as u64,
            },
            None => match by_time {
                Some(q) => q,
                None => 0,
            },
        }
    }

    /// Whether the machine can be brought up to date at the tick.
    pub fn accepts(&self, tick: &Tick) -> (ok: bool)
        ensures
            ok == self.can_sync(tick@),
    {
        proof {
            use_type_invariant(&self.progress);
        }
        let now: u64 = tick.cur();
        if now < self.progress.tick {
            return false;
        }
        let banked_time: u64 = self.progress.crafting_time + (now - self.progress.tick);
        let count: u64 = self.count_cycles(banked_time);
        let len: usize = R::Outputs::count();
        let mut index: usize = 0;
        proof {
            self.outputs.lemma_shape();
        }
        while index < len
            invariant
                index <= len,
                len == R::Outputs::per_cycle().len(),
                self.outputs.amounts().len() == len,
                count == sync_cycles(Self::table(), self@, tick@),
                forall|j: int|
                    0 <= j < index ==> self@.outputs[j] + count * #[trigger] Self::table().outputs[j]
                        <= u32::MAX,
                forall|j: int| 0 <= j < len ==> #[trigger] R::Outputs::per_cycle()[j] <= u32::MAX,
                forall|j: int| 0 <= j < len ==> #[trigger] self.outputs.amounts()[j] <= u32::MAX,
            decreases len - index,
        {
            let held: u128 = self.outputs.amount(index) as u128;
            let made: u128 = R::Outputs::needed(index) as u128;
            assert(count * made <= 0xffff_ffff_ffff_ffff * 0xffff_ffff) by (nonlinear_arith)
                requires
                    count <= 0xffff_ffff_ffff_ffff,
                    made <= 0xffff_ffff,
            ;
            if held + (count as u128) * made > 0xffff_ffff {
                assert(!(self@.outputs[index as int] + sync_cycles(Self::table(), self@, tick@)
                    * Self::table().outputs[index as int] <= u32::MAX));
                return false;
            }
            index = index + 1;
        }
        true
    }

    /// Brings the machine up to date with the clock.
    fn tick(&mut self, tick: &Tick)
        requires
            old(self).can_sync(tick@),
        ensures
            final(self)@ == sync(Self::table(), old(self)@, tick@),
    {
        proof {
            use_type_invariant(&self.progress);
            R::lemma_valid();
            self.lemma_shaped();
            lemma_cycles_affordable(Self::table(), self@.inputs, banked(self@, tick@));
        }
        let now: u64 = tick.cur();
        let banked_time: u64 = self.progress.crafting_time + (now - self.progress.tick);
        let count: u64 = self.count_cycles(banked_time);
        assert(affordable(Self::table(), self@.inputs, banked_time as nat, count as nat));
        if R::Inputs::count() > 0 {
            assert(count * R::Inputs::per_cycle()[0] <= self@.inputs[0]);
            assert(count <= u32::MAX) by (nonlinear_arith)
                requires
                    count * R::Inputs::per_cycle()[0] <= self@.inputs[0],
                    self@.inputs[0] <= u32::MAX,
                    R::Inputs::per_cycle()[0] > 0,
            ;
            drain(&mut self.inputs, count as u32);
        } else {
            assert(self.inputs.amounts() =~= drained(
                self.inputs.amounts(),
                R::Inputs::per_cycle(),
                count as nat,
            ));
        }
        fill(&mut self.outputs, count);
        let crafting_time: u64 = if short(&self.inputs) {
            0
        } else {
            assert(count * R::TIME <= banked_time) by {
                if R::TIME == 0 {
                    assert(count * R::TIME == 0) by (nonlinear_arith)
                        requires
                            R::TIME == 0,
                    ;
                }
            }
            banked_time - count * R::TIME
        };
        self.progress = Progress { tick: now, crafting_time };
    }

    /// Update internal state and access input buffers.
    ///
    /// The buffers handed out are those of the machine brought up to date at the
    /// tick; what the caller leaves in them is what the machine then holds.
    pub fn inputs(&mut self, tick: &Tick) -> (buffers: &mut R::Inputs)
        requires
            old(self).can_sync(tick@),
        ensures
            buffers.amounts() == sync(Self::table(), old(self)@, tick@).inputs,
            final(self)@ == sync(Self::table(), old(self)@, tick@).with_inputs(
                final(buffers).amounts(),
            ),
    {
        self.tick(tick);
        &mut self.inputs
    }

    /// Update internal state and access output buffers.
    ///
    /// The buffers handed out are those of the machine brought up to date at the
    /// tick; what the caller leaves in them is what the machine then holds.
    pub fn outputs(&mut self, tick: &Tick) -> (buffers: &mut R::Outputs)
        requires
            old(self).can_sync(tick@),
        ensures
            buffers.amounts() == sync(Self::table(), old(self)@, tick@).outputs,
            final(self)@ == sync(Self::table(), old(self)@, tick@).with_outputs(
                final(buffers).amounts(),
            ),
    {
        self.tick(tick);
        &mut self.outputs
    }

    /// Changes the recipe of the machine.
    ///
    /// A machine with nothing in its buffers becomes a new machine for the other
    /// recipe, at the same tick, with nothing banked. Otherwise the machine comes
    /// back unchanged, with the first buffer that holds something: its place (the
    /// inputs come before the outputs), the name of its resource and the amount.
    pub fn change_recipe<R2: Recipe>(self, recipe: R2) -> (changed: Result<
        Machine<R2>,
        MachineNotEmptyError<Self>,
    >)
        ensures
            match changed {
                Ok(machine) => {
                    &&& is_empty(self@)
                    &&& machine@ == MachineState::fresh(Machine::<R2>::table(), self@.tick)
                },
                Err(error) => {
                    &&& !is_empty(self@)
                    &&& error.machine == self
                    &&& blocked_by::<R>(
                        self@,
                        error.location,
                        error.resource_type@,
                        error.amount as nat,
                    )
                },
            },
    {
        proof {
            self.lemma_shaped();
            lemma_first_held(self@.inputs, self@.inputs.len());
            lemma_first_held(self@.outputs, self@.outputs.len());
        }
        match first_nonempty(&self.inputs) {
            Some(i) => {
                let resource_type = R::Inputs::kind(i);
                let amount: u32 = self.inputs.amount(i);
                Err(
                    MachineNotEmptyError {
                        machine: self,
                        resource_type,
                        amount,
                        location: BufferLocation::Input,
                    },
                )
            },
            None => match first_nonempty(&self.outputs) {
                Some(j) => {
                    let resource_type = R::Outputs::kind(j);
                    let amount: u32 = self.outputs.amount(j);
                    Err(
                        MachineNotEmptyError {
                            machine: self,
                            resource_type,
                            amount,
                            location: BufferLocation::Output,
                        },
                    )
                },
                None => Ok(Machine::new_inner(self.progress.tick)),
            },
        }
    }
}

} // verus!
