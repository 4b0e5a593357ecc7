use rustorio::resources::{bundle, resource, Copper, Iron, IronOre};
use rustorio::{Bundle, InsufficientResourceError, Resource};

#[test]
fn empty_resource_holds_nothing() {
    let iron: Resource<Iron> = Resource::empty();
    assert_eq!(iron.amount(), 0);
    let ore: Resource<IronOre> = resource(42);
    assert_eq!(ore.amount(), 42);
}

#[test]
fn split_gives_rest_and_taken() {
    let iron: Resource<Iron> = resource(10);
    let (rest, taken) = iron.split(4).unwrap();
    assert_eq!(rest.amount(), 6);
    assert_eq!(taken.amount(), 4);
    let (rest, taken) = rest.split(6).unwrap();
    assert_eq!(rest.amount(), 0);
    assert_eq!(taken.amount(), 6);
    let (rest, taken) = rest.split(0).unwrap();
    assert_eq!(rest.amount(), 0);
    assert_eq!(taken.amount(), 0);
}

#[test]
fn split_of_too_much_gives_the_whole_back() {
    let iron: Resource<Iron> = resource(10);
    let (whole, error) = iron.split(11).unwrap_err();
    assert_eq!(whole.amount(), 10);
    assert_eq!(error.requested_amount, 11);
    assert_eq!(error.available_amount, 10);
    // What came back is all there, and splits as before.
    let (rest, taken) = whole.split(10).unwrap();
    assert_eq!(rest.amount(), 0);
    assert_eq!(taken.amount(), 10);
    let (empty, error) = rest.split(1).unwrap_err();
    assert_eq!(empty.amount(), 0);
    assert_eq!(error.requested_amount, 1);
    assert_eq!(error.available_amount, 0);
}

#[test]
fn split_off_takes_or_reports() {
    let mut iron: Resource<Iron> = resource(10);
    let taken = iron.split_off(3).unwrap();
    assert_eq!(taken.amount(), 3);
    assert_eq!(iron.amount(), 7);
    let error = iron.split_off(8).unwrap_err();
    assert_eq!(error.requested_amount, 8);
    assert_eq!(error.available_amount, 7);
    assert_eq!(iron.amount(), 7);
    let taken = iron.split_off(7).unwrap();
    assert_eq!(taken.amount(), 7);
    assert_eq!(iron.amount(), 0);
}

#[test]
fn bundle_takes_or_reports() {
    let mut copper: Resource<Copper> = resource(9);
    let four: Bundle<Copper, 4> = copper.bundle().unwrap();
    assert_eq!(four.amount(), 4);
    assert_eq!(copper.amount(), 5);
    let error = copper.bundle::<6>().unwrap_err();
    assert_eq!(error.requested_amount, 6);
    assert_eq!(error.available_amount, 5);
    assert_eq!(copper.amount(), 5);
    let five = copper.bundle::<5>().unwrap();
    assert_eq!(five.amount(), 5);
    assert_eq!(copper.amount(), 0);
}

#[test]
fn bundles_merge_into_resources() {
    let mut iron: Resource<Iron> = Resource::empty();
    iron.add_bundle(bundle::<Iron, 15>());
    assert_eq!(iron.amount(), 15);
    iron += bundle::<Iron, 5>();
    assert_eq!(iron.amount(), 20);
    iron += resource(2);
    assert_eq!(iron.amount(), 22);
    let sum = iron + resource(8);
    assert_eq!(sum.amount(), 30);
    let sum = sum + bundle::<Iron, 1>();
    assert_eq!(sum.amount(), 31);
    let sum = bundle::<Iron, 9>() + sum;
    assert_eq!(sum.amount(), 40);
    let made: Resource<Iron> = Resource::from(bundle::<Iron, 3>());
    assert_eq!(made.amount(), 3);
    assert!(made == resource(3));
    assert!(made != resource(4));
}

#[test]
fn bundle_splits_into_its_parts() {
    let ten: Bundle<Iron, 10> = bundle();
    assert_eq!(ten.amount(), 10);
    let (three, seven): (Bundle<Iron, 3>, Bundle<Iron, 7>) = ten.split();
    assert_eq!(three.amount(), 3);
    assert_eq!(seven.amount(), 7);
    let (none, all) = seven.split::<0, 7>();
    assert_eq!(none.amount(), 0);
    assert_eq!(all.to_resource().amount(), 7);
}

#[test]
fn insufficient_resource_error_carries_both_amounts() {
    let error: InsufficientResourceError<Iron> = InsufficientResourceError::new(12, 5);
    assert_eq!(error.requested_amount, 12);
    assert_eq!(error.available_amount, 5);
    let copy = error.clone();
    assert_eq!(copy.requested_amount, 12);
    assert_eq!(copy.available_amount, 5);
}

#[test]
fn what_is_taken_and_what_is_left_add_up() {
    let mut total: u32 = 0;
    let mut ore: Resource<IronOre> = resource(1000);
    let mut ask: u32 = 1;
    while ask < 400 {
        match ore.split_off(ask) {
            Ok(part) => total += part.amount(),
            Err(error) => {
                assert_eq!(error.requested_amount, ask);
                assert_eq!(error.available_amount, ore.amount());
            }
        }
        assert_eq!(total + ore.amount(), 1000);
        ask += 37;
    }
}
