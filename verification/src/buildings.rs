//! Buildings take inputs to produce outputs over time.
//!
//! To use a building, you must first build it, which takes a number of
//! resources. Then you can add inputs to it using `inputs`. Once it has
//! sufficient inputs, it produces outputs as time passes, which can be taken out
//! using `outputs`.
//!
//! When created, a building is set to a specific recipe, which defines the inputs
//! and outputs. This can be changed using the `change_recipe` method, but only if
//! the building is empty (no inputs or outputs).

use crate::batch::{sync, MachineState};
use crate::machine::{blocked_by, is_empty, Machine, MachineNotEmptyError};
use crate::recipe::{Recipe, RecipeItems};
use crate::recipes::{AssemblerRecipe, FurnaceRecipe};
use crate::resources::{Bundle, Copper, Iron};
use crate::tick::Tick;
use vstd::prelude::*;

verus! {

/// The assembler is used for recipes that require two different inputs to
/// produce an output.
#[derive(Debug)]
pub struct Assembler<R: AssemblerRecipe>(Machine<R>);

impl<R: AssemblerRecipe> Assembler<R> {
    /// The machine that the assembler is.
    pub closed spec fn machine(&self) -> Machine<R> {
        self.0
    }

    /// Builds an assembler. Costs 15 iron and 10 copper.
    pub fn build(tick: &Tick, recipe: R, iron: Bundle<Iron, 15>, copper: Bundle<Copper, 10>) -> (built:
        Self)
        ensures
            built.machine()@ == MachineState::fresh(Machine::<R>::table(), tick@),
    {
        Self(Machine::new(tick))
    }

    /// Changes the recipe of the assembler.
    ///
    /// An assembler with nothing in its buffers becomes a new one for the other
    /// recipe. Otherwise the assembler comes back unchanged, with the first
    /// buffer that holds something.
    pub fn change_recipe<R2: AssemblerRecipe>(self, recipe: R2) -> (changed: Result<
        Assembler<R2>,
        MachineNotEmptyError<Assembler<R>>,
    >)
        ensures
            match changed {
                Ok(assembler) => {
                    &&& is_empty(self.machine()@)
                    &&& assembler.machine()@ == MachineState::fresh(
                        Machine::<R2>::table(),
                        self.machine()@.tick,
                    )
                },
                Err(error) => {
                    &&& !is_empty(self.machine()@)
                    &&& error.machine == self
                    &&& blocked_by::<R>(
                        self.machine()@,
                        error.location,
                        error.resource_type@,
                        error.amount as nat,
                    )
                },
            },
    {
        match self.0.change_recipe(recipe) {
            Ok(machine) => Ok(Assembler(machine)),
            Err(error) => {
                let wrap = |machine: Machine<R>| -> (assembler: Assembler<R>)
                    ensures
                        assembler.machine() == machine,
                    {
                        Assembler(machine)
                    };
                Err(error.map_machine(wrap))
            },
        }
    }

    /// Update internal state and access input buffers.
    pub fn inputs(&mut self, tick: &Tick) -> (buffers: &mut <R as Recipe>::Inputs)
        requires
            old(self).machine().can_sync(tick@),
        ensures
            buffers.amounts() == sync(Machine::<R>::table(), old(self).machine()@, tick@).inputs,
            final(self).machine()@ == sync(
                Machine::<R>::table(),
                old(self).machine()@,
                tick@,
            ).with_inputs(final(buffers).amounts()),
    {
        self.0.inputs(tick)
    }

    /// Update internal state and access output buffers.
    pub fn outputs(&mut self, tick: &Tick) -> (buffers: &mut <R as Recipe>::Outputs)
        requires
            old(self).machine().can_sync(tick@),
        ensures
            buffers.amounts() == sync(Machine::<R>::table(), old(self).machine()@, tick@).outputs,
            final(self).machine()@ == sync(
                Machine::<R>::table(),
                old(self).machine()@,
                tick@,
            ).with_outputs(final(buffers).amounts()),
    {
        self.0.outputs(tick)
    }

    /// Whether the assembler can be brought up to date at the tick.
    pub fn accepts(&self, tick: &Tick) -> (ok: bool)
        ensures
            ok == self.machine().can_sync(tick@),
    {
        self.0.accepts(tick)
    }
}

/// The furnace is used to smelt ores into base resources.
#[derive(Debug)]
pub struct Furnace<R: FurnaceRecipe>(Machine<R>);

impl<R: FurnaceRecipe> Furnace<R> {
    /// The machine that the furnace is.
    pub closed spec fn machine(&self) -> Machine<R> {
        self.0
    }

    /// Builds a furnace. Costs 10 iron.
    pub fn build(tick: &Tick, recipe: R, iron: Bundle<Iron, 10>) -> (built: Self)
        ensures
            built.machine()@ == MachineState::fresh(Machine::<R>::table(), tick@),
    {
        Self(Machine::new(tick))
    }

    /// Changes the recipe of the furnace.
    ///
    /// A furnace with nothing in its buffers becomes a new one for the other
    /// recipe. Otherwise the furnace comes back unchanged, with the first buffer
    /// that holds something.
    pub fn change_recipe<R2: FurnaceRecipe>(self, recipe: R2) -> (changed: Result<
        Furnace<R2>,
        MachineNotEmptyError<Furnace<R>>,
    >)
        ensures
            match changed {
                Ok(furnace) => {
                    &&& is_empty(self.machine()@)
                    &&& furnace.machine()@ == MachineState::fresh(
                        Machine::<R2>::table(),
                        self.machine()@.tick,
                    )
                },
                Err(error) => {
                    &&& !is_empty(self.machine()@)
                    &&& error.machine == self
                    &&& blocked_by::<R>(
                        self.machine()@,
                        error.location,
                        error.resource_type@,
                        error.amount as nat,
                    )
                },
            },
    {
        match self.0.change_recipe(recipe) {
            Ok(machine) => Ok(Furnace(machine)),
            Err(error) => {
                let wrap = |machine: Machine<R>| -> (furnace: Furnace<R>)
                    ensures
                        furnace.machine() == machine,
                    {
                        Furnace(machine)
                    };
                Err(error.map_machine(wrap))
            },
        }
    }

    /// Update internal state and access input buffers.
    pub fn inputs(&mut self, tick: &Tick) -> (buffers: &mut <R as Recipe>::Inputs)
        requires
            old(self).machine().can_sync(tick@),
        ensures
            buffers.amounts() == sync(Machine::<R>::table(), old(self).machine()@, tick@).inputs,
            final(self).machine()@ == sync(
                Machine::<R>::table(),
                old(self).machine()@,
                tick@,
            ).with_inputs(final(buffers).amounts()),
    {
        self.0.inputs(tick)
    }

    /// Update internal state and access output buffers.
    pub fn outputs(&mut self, tick: &Tick) -> (buffers: &mut <R as Recipe>::Outputs)
        requires
            old(self).machine().can_sync(tick@),
        ensures
            buffers.amounts() == sync(Machine::<R>::table(), old(self).machine()@, tick@).outputs,
            final(self).machine()@ == sync(
                Machine::<R>::table(),
                old(self).machine()@,
                tick@,
            ).with_outputs(final(buffers).amounts()),
    {
        self.0.outputs(tick)
    }

    /// Whether the furnace can be brought up to date at the tick.
    pub fn accepts(&self, tick: &Tick) -> (ok: bool)
        ensures
            ok == self.machine().can_sync(tick@),
    {
        self.0.accepts(tick)
    }
}

} // verus!
