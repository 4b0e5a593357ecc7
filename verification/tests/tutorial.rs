use rustorio::buildings::Furnace;
use rustorio::gamemodes::{Tutorial, TutorialStartingResources};
use rustorio::recipes::CopperSmelting;
use rustorio::resources::{Bundle, Copper, CopperOre};
use rustorio::territory::Territory;
use rustorio::{play, Session, Tick};

type StartingResources = TutorialStartingResources;
type VictoryResources = Bundle<Copper, 4>;

#[test]
fn tutorial() {
    let mut session = Session::new();
    assert!(!session.has_played());
    let won = play::<Tutorial, _>(&mut session, user_main);
    // 8 ore by hand take 16 ticks, 4 cycles of smelting take 40 more.
    assert_eq!(won, Ok(56));
    assert!(session.has_played());
}

fn user_main(mut tick: Tick, starting_resources: StartingResources) -> (Tick, VictoryResources) {
    let StartingResources { iron, guide: _ } = starting_resources;

    let mut furnace = Furnace::build(&tick, CopperSmelting, iron);

    let mut copper_territory: Territory<CopperOre> = Territory::new(&tick, 0);
    let copper_ore = copper_territory.hand_mine::<8>(&mut tick);

    furnace.inputs(&tick).0.add_bundle(copper_ore);
    let met = tick.advance_until(|tick| furnace.outputs(tick).0.amount() >= 4, 100);
    assert!(met);

    let win_bundle = furnace.outputs(&tick).0.bundle().unwrap();
    (tick, win_bundle)
}
