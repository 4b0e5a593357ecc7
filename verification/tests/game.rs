use rustorio::buildings::{Assembler, Furnace};
use rustorio::gamemodes::{
    Standard, StandardStartingResources, Tutorial, TutorialStartingResources,
};
use rustorio::machine::{BufferLocation, Machine};
use rustorio::recipe::Recipe;
use rustorio::recipes::{CopperSmelting, IronSmelting, PointRecipe, RedScienceRecipe};
use rustorio::research::{PointsResearch, PointsTechnology, RedScience, ResearchPoint};
use rustorio::resources::{bundle, resource, Copper, Iron, Point};
use rustorio::{
    play, AlreadyPlayed, Bundle, Research, Resource, Session, StartingResources, Tick,
};

#[test]
fn starting_resources_hold_ten_iron() {
    let tick = Tick::start();
    let start = TutorialStartingResources::init(&tick);
    assert_eq!(start.iron.amount(), 10);
    let start = StandardStartingResources::init(&tick);
    assert_eq!(start.iron.amount(), 10);
}

#[test]
fn recipes_have_their_numbers() {
    assert_eq!(<IronSmelting as Recipe>::TIME, 10);
    assert_eq!(<CopperSmelting as Recipe>::TIME, 10);
    assert_eq!(<RedScienceRecipe as Recipe>::TIME, 5);
    assert_eq!(<PointRecipe as Recipe>::TIME, 20);
    assert_eq!(<PointsResearch as Recipe>::TIME, 0);
}

#[test]
fn research_takes_the_points_of_its_technology() {
    let tick = Tick::start();
    let StandardStartingResources {
        iron: _,
        points_technology,
    } = StandardStartingResources::init(&tick);

    let mut lab: Machine<PointsResearch> = Machine::new(&tick);
    lab.inputs(&tick).0.add_bundle(bundle::<RedScience, 4>());
    let short = lab.outputs(&tick).0.bundle::<5>().unwrap_err();
    assert_eq!(short.requested_amount, 5);
    assert_eq!(short.available_amount, 4);
    lab.inputs(&tick).0.add_bundle(bundle::<RedScience, 3>());
    let points: Bundle<ResearchPoint<PointsTechnology>, 5> =
        lab.outputs(&tick).0.bundle().unwrap();
    assert_eq!(lab.outputs(&tick).0.amount(), 2);

    let point_recipe: PointRecipe = points_technology.research(points);

    let mut tick = tick;
    let mut assembler = Assembler::build(&tick, point_recipe, bundle(), bundle());
    *assembler.inputs(&tick).0 += resource::<Iron>(9);
    *assembler.inputs(&tick).1 += resource::<Copper>(8);
    tick.advance_by(40);
    let won: Resource<Point> = assembler.outputs(&tick).0.split_off(2).unwrap();
    assert_eq!(won.amount(), 2);
    assert_eq!(assembler.inputs(&tick).0.amount(), 1);
    assert_eq!(assembler.inputs(&tick).1.amount(), 0);
}

#[test]
fn session_has_one_play() {
    fn tutorial_main(
        mut tick: Tick,
        _start: TutorialStartingResources,
    ) -> (Tick, Bundle<Copper, 4>) {
        assert_eq!(tick.cur(), 0);
        assert!(tick.is_logging());
        tick.advance_by(7);
        (tick, bundle())
    }
    fn standard_main(
        mut tick: Tick,
        _start: StandardStartingResources,
    ) -> (Tick, Bundle<Point, 10>) {
        tick.advance_by(9);
        (tick, bundle())
    }
    let mut session = Session::new();
    assert!(!session.has_played());
    assert_eq!(play::<Tutorial, _>(&mut session, tutorial_main), Ok(7));
    assert!(session.has_played());
    // Each session has a play of its own.
    let mut other = Session::new();
    assert!(!other.has_played());
    assert_eq!(play::<Standard, _>(&mut other, standard_main), Ok(9));
    assert!(other.has_played());
    assert!(session.has_played());
}

#[test]
fn second_play_is_not_run() {
    fn never(_tick: Tick, _start: TutorialStartingResources) -> (Tick, Bundle<Copper, 4>) {
        panic!("a second play was run");
    }
    fn once(mut tick: Tick, _start: TutorialStartingResources) -> (Tick, Bundle<Copper, 4>) {
        tick.advance_by(3);
        (tick, bundle())
    }
    let mut session = Session::new();
    assert_eq!(play::<Tutorial, _>(&mut session, once), Ok(3));
    // Who starts a second play against the rule is refused, and the play is not run.
    assert!(session.has_played());
    assert_eq!(play::<Tutorial, _>(&mut session, never), Err(AlreadyPlayed));
    assert!(session.has_played());
    assert_eq!(play::<Tutorial, _>(&mut session, never), Err(AlreadyPlayed));
}

#[test]
fn furnace_keeps_what_it_holds_when_the_change_fails() {
    let mut tick = Tick::start();
    let mut furnace = Furnace::build(&tick, IronSmelting, bundle());
    furnace.inputs(&tick).0.add_bundle(bundle::<_, 5>());
    tick.advance_by(12);
    assert!(furnace.accepts(&tick));
    let error = furnace.change_recipe(CopperSmelting).unwrap_err();
    // The change does not bring the furnace up to date: the ore is all there.
    assert_eq!(error.location, BufferLocation::Input);
    assert_eq!(error.resource_type, "IronOre");
    assert_eq!(error.amount, 5);
    let mut furnace = error.machine;
    assert_eq!(furnace.outputs(&tick).0.amount(), 1);
    assert_eq!(furnace.inputs(&tick).0.amount(), 3);
}

#[test]
fn assembler_changes_recipe_when_empty() {
    let mut tick = Tick::start();
    let mut assembler = Assembler::build(&tick, RedScienceRecipe, bundle(), bundle());
    assembler.inputs(&tick).0.add_bundle(bundle::<_, 1>());
    assembler.inputs(&tick).1.add_bundle(bundle::<_, 1>());
    tick.advance_by(5);
    assert!(assembler.accepts(&tick));
    let error = assembler.change_recipe(RedScienceRecipe).unwrap_err();
    assert_eq!(error.location, BufferLocation::Input);
    assert_eq!(error.resource_type, "Iron");
    assert_eq!(error.amount, 1);
    let mut assembler = error.machine;
    let pack = assembler.outputs(&tick).0.bundle::<1>().unwrap();
    assert_eq!(pack.amount(), 1);
    let mut assembler = assembler.change_recipe(RedScienceRecipe).unwrap();
    assert_eq!(assembler.inputs(&tick).0.amount(), 0);
    assert_eq!(assembler.inputs(&tick).1.amount(), 0);
    assert_eq!(assembler.outputs(&tick).0.amount(), 0);
}
