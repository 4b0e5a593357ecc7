use rustorio::machine::{BufferLocation, Machine, MachineNotEmptyError};
use rustorio::recipe::{recipe_item_amount, Recipe, RecipeItem, RecipeItems};
use rustorio::recipes::{CopperSmelting, IronSmelting, RedScienceRecipe};
use rustorio::research::PointsResearch;
use rustorio::resources::{bundle, resource, Iron, IronOre};
use rustorio::Tick;

fn smelter_with(ore: u32) -> (Tick, Machine<IronSmelting>) {
    let tick = Tick::start();
    let mut machine: Machine<IronSmelting> = Machine::new(&tick);
    *machine.inputs(&tick).0 += resource(ore);
    (tick, machine)
}

#[test]
fn first_cycle_completes_after_its_time() {
    let (mut tick, mut machine) = smelter_with(20);
    tick.advance_to_tick(10);
    assert_eq!(machine.outputs(&tick).0.amount(), 1);
    assert_eq!(machine.inputs(&tick).0.amount(), 18);
    // Nothing is banked: the next cycle completes ten ticks later, not sooner.
    tick.advance_to_tick(19);
    assert_eq!(machine.outputs(&tick).0.amount(), 1);
    tick.advance_to_tick(20);
    assert_eq!(machine.outputs(&tick).0.amount(), 2);
}

#[test]
fn one_jump_runs_all_cycles_at_once() {
    let (mut tick, mut machine) = smelter_with(20);
    tick.advance_to_tick(100);
    assert_eq!(machine.outputs(&tick).0.amount(), 10);
    assert_eq!(machine.inputs(&tick).0.amount(), 0);
}

#[test]
fn short_inputs_bound_the_cycles_and_forfeit_the_rest() {
    let (mut tick, mut machine) = smelter_with(3);
    tick.advance_to_tick(100);
    assert_eq!(machine.outputs(&tick).0.amount(), 1);
    assert_eq!(machine.inputs(&tick).0.amount(), 1);
    // The ninety ticks left in the bank are forfeited: with ore enough for one
    // more cycle, the cycle takes its full ten ticks from here.
    machine.inputs(&tick).0.add_bundle(bundle::<IronOre, 1>());
    tick.advance_to_tick(109);
    assert_eq!(machine.outputs(&tick).0.amount(), 1);
    tick.advance_to_tick(110);
    assert_eq!(machine.outputs(&tick).0.amount(), 2);
    assert_eq!(machine.inputs(&tick).0.amount(), 0);
}

#[test]
fn recipe_change_needs_empty_buffers() {
    let (mut tick, mut machine) = smelter_with(10);
    tick.advance_to_tick(50);
    assert_eq!(machine.outputs(&tick).0.amount(), 5);
    assert_eq!(machine.inputs(&tick).0.amount(), 0);

    let error = machine.change_recipe(CopperSmelting).unwrap_err();
    assert_eq!(error.location, BufferLocation::Output);
    assert_eq!(error.resource_type, "Iron");
    assert_eq!(error.amount, 5);
    let mut machine = error.machine;
    assert_eq!(machine.outputs(&tick).0.amount(), 5);

    let taken = machine.outputs(&tick).0.split_off(5).unwrap();
    assert_eq!(taken.amount(), 5);
    let mut machine = machine.change_recipe(CopperSmelting).unwrap();
    assert_eq!(machine.inputs(&tick).0.amount(), 0);
    assert_eq!(machine.outputs(&tick).0.amount(), 0);
    // The new machine stands at the tick of the old one, with nothing banked.
    machine.inputs(&tick).0.add_bundle(bundle::<_, 2>());
    tick.advance_to_tick(59);
    assert_eq!(machine.outputs(&tick).0.amount(), 0);
    tick.advance_to_tick(60);
    assert_eq!(machine.outputs(&tick).0.amount(), 1);
}

#[test]
fn recipe_change_reports_first_input() {
    let tick = Tick::start();
    let mut machine: Machine<RedScienceRecipe> = Machine::new(&tick);
    machine.inputs(&tick).1.add_bundle(bundle::<_, 7>());
    machine.outputs(&tick).0.add_bundle(bundle::<_, 3>());
    let error = machine.change_recipe(IronSmelting).unwrap_err();
    assert_eq!(error.location, BufferLocation::Input);
    assert_eq!(error.resource_type, "Copper");
    assert_eq!(error.amount, 7);

    let mut machine = error.machine;
    machine.inputs(&tick).0.add_bundle(bundle::<_, 2>());
    let error = machine.change_recipe(IronSmelting).unwrap_err();
    assert_eq!(error.location, BufferLocation::Input);
    assert_eq!(error.resource_type, "Iron");
    assert_eq!(error.amount, 2);
}

#[test]
fn map_machine_keeps_the_report() {
    let error = MachineNotEmptyError {
        machine: 7u8,
        resource_type: "Iron",
        amount: 12,
        location: BufferLocation::Input,
    };
    let mapped = error.map_machine(|machine| u32::from(machine) + 1);
    assert_eq!(mapped.machine, 8u32);
    assert_eq!(mapped.resource_type, "Iron");
    assert_eq!(mapped.amount, 12);
    assert_eq!(mapped.location, BufferLocation::Input);
}

#[test]
fn cycles_are_bound_by_the_scarcest_input() {
    let mut tick = Tick::start();
    let mut machine: Machine<RedScienceRecipe> = Machine::new(&tick);
    machine.inputs(&tick).0.add_bundle(bundle::<_, 9>());
    machine.inputs(&tick).1.add_bundle(bundle::<_, 4>());
    tick.advance_by(1000);
    assert_eq!(machine.outputs(&tick).0.amount(), 4);
    assert_eq!(machine.inputs(&tick).0.amount(), 5);
    assert_eq!(machine.inputs(&tick).1.amount(), 0);
}

#[test]
fn cycles_are_bound_by_time() {
    let mut tick = Tick::start();
    let mut machine: Machine<RedScienceRecipe> = Machine::new(&tick);
    machine.inputs(&tick).0.add_bundle(bundle::<_, 9>());
    machine.inputs(&tick).1.add_bundle(bundle::<_, 9>());
    tick.advance_by(17);
    assert_eq!(machine.outputs(&tick).0.amount(), 3);
    assert_eq!(machine.inputs(&tick).0.amount(), 6);
    assert_eq!(machine.inputs(&tick).1.amount(), 6);
    // Two ticks are banked: three more complete the fourth cycle.
    tick.advance_by(2);
    assert_eq!(machine.outputs(&tick).0.amount(), 3);
    tick.advance_by(1);
    assert_eq!(machine.outputs(&tick).0.amount(), 4);
}

#[test]
fn cycle_time_zero_is_bound_by_inputs_only() {
    let tick = Tick::start();
    let mut machine: Machine<PointsResearch> = Machine::new(&tick);
    machine.inputs(&tick).0.add_bundle(bundle::<_, 6>());
    assert_eq!(machine.outputs(&tick).0.amount(), 6);
    assert_eq!(machine.inputs(&tick).0.amount(), 0);
}

#[test]
fn conservation_over_many_accesses() {
    let mut tick = Tick::start();
    let mut machine: Machine<IronSmelting> = Machine::new(&tick);
    let mut put_in: u32 = 0;
    let mut taken_out: u32 = 0;
    let mut step: u64 = 0;
    while step < 200 {
        if step % 7 == 0 {
            machine.inputs(&tick).0.add_bundle(bundle::<_, 3>());
            put_in += 3;
        }
        if step % 13 == 0 {
            let held = machine.outputs(&tick).0.amount();
            taken_out += machine.outputs(&tick).0.split_off(held).unwrap().amount();
        }
        tick.advance_by(step % 5);
        step += 1;
    }
    let ore_left = machine.inputs(&tick).0.amount();
    let iron_held = machine.outputs(&tick).0.amount();
    let cycles = taken_out + iron_held;
    assert_eq!(put_in - ore_left, 2 * cycles);
    assert_eq!(cycles, 39);
}

#[test]
fn syncing_twice_at_one_tick_changes_nothing() {
    let (mut tick, mut machine) = smelter_with(7);
    tick.advance_by(25);
    assert_eq!(machine.outputs(&tick).0.amount(), 2);
    assert_eq!(machine.inputs(&tick).0.amount(), 3);
    assert_eq!(machine.outputs(&tick).0.amount(), 2);
    assert_eq!(machine.inputs(&tick).0.amount(), 3);
    // Five ticks are still banked after the second look.
    tick.advance_by(5);
    assert_eq!(machine.outputs(&tick).0.amount(), 3);
}

#[test]
fn one_jump_equals_tick_by_tick() {
    let mut jumps: u64 = 0;
    while jumps <= 60 {
        let mut ore: u32 = 0;
        while ore <= 9 {
            let (mut tick_a, mut batched) = smelter_with(ore);
            let (mut tick_b, mut stepped) = smelter_with(ore);
            tick_a.advance_by(jumps);
            let mut passed: u64 = 0;
            while passed < jumps {
                tick_b.advance();
                stepped.inputs(&tick_b);
                passed += 1;
            }
            assert_eq!(tick_a.cur(), tick_b.cur());
            assert_eq!(
                batched.outputs(&tick_a).0.amount(),
                stepped.outputs(&tick_b).0.amount()
            );
            assert_eq!(
                batched.inputs(&tick_a).0.amount(),
                stepped.inputs(&tick_b).0.amount()
            );
            // What is banked is the same too: both complete their next cycle together.
            batched.inputs(&tick_a).0.add_bundle(bundle::<_, 2>());
            stepped.inputs(&tick_b).0.add_bundle(bundle::<_, 2>());
            let mut later: u64 = 0;
            while later < 12 {
                tick_a.advance();
                tick_b.advance();
                assert_eq!(
                    batched.outputs(&tick_a).0.amount(),
                    stepped.outputs(&tick_b).0.amount()
                );
                later += 1;
            }
            ore += 1;
        }
        jumps += 7;
    }
}

#[test]
fn shortage_forfeits_banked_progress() {
    let (mut tick, mut machine) = smelter_with(4);
    tick.advance_by(5);
    // Five ticks are banked and the inputs suffice.
    assert_eq!(machine.outputs(&tick).0.amount(), 0);
    // The ore is taken away: the next access finds the machine short.
    let ore = machine.inputs(&tick).0.split_off(4).unwrap();
    tick.advance_by(3);
    assert_eq!(machine.outputs(&tick).0.amount(), 0);
    // The ore comes back at once, but the eight ticks are gone.
    *machine.inputs(&tick).0 += ore;
    tick.advance_by(9);
    assert_eq!(machine.outputs(&tick).0.amount(), 0);
    tick.advance_by(1);
    assert_eq!(machine.outputs(&tick).0.amount(), 1);
}

#[test]
fn machine_refuses_a_tick_in_its_past() {
    let (mut tick, mut machine) = smelter_with(4);
    tick.advance_by(30);
    assert!(machine.accepts(&tick));
    assert_eq!(machine.outputs(&tick).0.amount(), 2);
    let earlier = Tick::start();
    assert!(!machine.accepts(&earlier));
    assert!(machine.accepts(&tick));
}

#[test]
fn machine_refuses_what_its_outputs_cannot_hold() {
    let mut tick = Tick::start();
    let mut machine: Machine<IronSmelting> = Machine::new(&tick);
    *machine.outputs(&tick).0 += resource::<Iron>(u32::MAX - 1);
    *machine.inputs(&tick).0 += resource(10);
    tick.advance_by(10);
    assert!(machine.accepts(&tick));
    tick.advance_by(10);
    assert!(!machine.accepts(&tick));
}

#[test]
fn recipe_items_know_their_recipe() {
    let mut item: RecipeItem<3, Iron> = RecipeItem::default();
    assert_eq!(item.needed_amount(), 3);
    assert_eq!(item.amount(), 0);
    *recipe_item_amount(&mut item) = 11;
    assert_eq!(item.amount(), 11);

    type Inputs = <RedScienceRecipe as Recipe>::Inputs;
    assert_eq!(Inputs::count(), 2);
    assert_eq!(Inputs::needed(0), 1);
    assert_eq!(Inputs::kind(0), "Iron");
    assert_eq!(Inputs::kind(1), "Copper");
    assert_eq!(<RedScienceRecipe as Recipe>::TIME, 5);
    let mut inputs = Inputs::new_empty();
    inputs.set_amount(1, 8);
    assert_eq!(inputs.amount(0), 0);
    assert_eq!(inputs.amount(1), 8);
    assert_eq!(inputs.1.amount(), 8);
}
