use rustorio::Tick;

#[test]
fn clock_starts_at_zero_and_logs() {
    let tick = Tick::start();
    assert_eq!(tick.cur(), 0);
    assert!(tick.is_logging());
}

#[test]
fn log_switch_leaves_the_time_alone() {
    let mut tick = Tick::start();
    tick.advance_by(5);
    tick.log(false);
    assert!(!tick.is_logging());
    assert_eq!(tick.cur(), 5);
    tick.advance();
    assert!(!tick.is_logging());
    assert_eq!(tick.cur(), 6);
    tick.log(true);
    assert!(tick.is_logging());
}

#[test]
fn advance_by_adds_and_advance_adds_one() {
    let mut tick = Tick::start();
    tick.advance();
    assert_eq!(tick.cur(), 1);
    tick.advance_by(41);
    assert_eq!(tick.cur(), 42);
    tick.advance_by(0);
    assert_eq!(tick.cur(), 42);
    tick.advance_by(u64::MAX - 42);
    assert_eq!(tick.cur(), u64::MAX);
}

#[test]
fn advance_to_tick_never_goes_back() {
    let mut tick = Tick::start();
    tick.advance_to_tick(30);
    assert_eq!(tick.cur(), 30);
    tick.advance_to_tick(30);
    assert_eq!(tick.cur(), 30);
    tick.advance_to_tick(7);
    assert_eq!(tick.cur(), 30);
    tick.advance_to_tick(31);
    assert_eq!(tick.cur(), 31);
}

#[test]
fn one_advance_by_equals_many_advances() {
    let mut jump = Tick::start();
    let mut steps = Tick::start();
    jump.advance_by(250);
    let mut n: u32 = 0;
    while n < 250 {
        steps.advance();
        n += 1;
    }
    assert_eq!(jump.cur(), steps.cur());
}

#[test]
fn advance_until_stops_when_the_condition_holds() {
    let mut tick = Tick::start();
    tick.advance_by(10);
    let mut asked: Vec<u64> = Vec::new();
    let met = tick.advance_until(
        |tick| {
            asked.push(tick.cur());
            tick.cur() >= 13
        },
        100,
    );
    assert!(met);
    assert_eq!(tick.cur(), 13);
    assert_eq!(asked, vec![10, 11, 12, 13]);
}

#[test]
fn advance_until_gives_up_when_the_budget_runs_out() {
    let mut tick = Tick::start();
    let met = tick.advance_until(|_| false, 25);
    assert!(!met);
    assert_eq!(tick.cur(), 25);
}

#[test]
fn advance_until_counts_the_last_tick_as_too_late() {
    let mut tick = Tick::start();
    let met = tick.advance_until(|tick| tick.cur() >= 5, 5);
    assert!(!met);
    assert_eq!(tick.cur(), 5);
    let met = tick.advance_until(|tick| tick.cur() >= 5, 0);
    assert!(!met);
    assert_eq!(tick.cur(), 5);
    let met = tick.advance_until(|tick| tick.cur() >= 5, 1);
    assert!(met);
    assert_eq!(tick.cur(), 5);
}

#[test]
fn advance_until_takes_the_largest_budget() {
    let mut tick = Tick::start();
    tick.advance_by(1000);
    let met = tick.advance_until(|tick| tick.cur() == 1234, u64::MAX);
    assert!(met);
    assert_eq!(tick.cur(), 1234);
}
