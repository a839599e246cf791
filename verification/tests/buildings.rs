use fortress::buildings::{fence_level, full_repair_cost, Building, Constructions, Production};
use fortress::population::Population;

fn start() -> Constructions {
    Constructions { armory: 1, refinery: 1, factory: 1, laboratory: 1 }
}

#[test]
fn upgrades_cost_a_hundred_per_level() {
    let mut c = start();
    assert_eq!(c.upgrade_cost(Building::Armory), 200);
    assert!(c.upgrade(Building::Armory, true));
    assert_eq!(c.upgrade_cost(Building::Armory), 300);
    assert_eq!(c.upgrade_cost(Building::Laboratory), 200);
}

#[test]
fn upgrade_needs_the_materials() {
    let mut c = start();
    assert!(!c.upgrade(Building::Factory, false));
    assert_eq!(c, start());
    assert!(c.upgrade(Building::Factory, true));
    assert_eq!(c, Constructions { armory: 1, refinery: 1, factory: 2, laboratory: 1 });
    assert_eq!(c.get_level(Building::Factory), 2);
    assert_eq!(c.get_level(Building::Refinery), 1);
}

#[test]
fn production_is_workers_times_level() {
    let c = Constructions { armory: 2, refinery: 1, factory: 3, laboratory: 1 };
    let p = Population { soldier: 5, armorer: 60, refiner: 40, constructor: 40, scientist: 7, idle: 3 };
    assert_eq!(
        c.base_production(&p),
        Production { bullets: 1200, gasoline: 400, materials: 1200, technology: 70 }
    );
}

#[test]
fn fence_has_up_to_three_lines() {
    assert_eq!(fence_level(0), 1);
    assert_eq!(fence_level(999), 1);
    assert_eq!(fence_level(1000), 2);
    assert_eq!(fence_level(2500), 3);
    assert_eq!(fence_level(90000), 3);
}

#[test]
fn full_repair_costs_the_missing_health_and_more() {
    assert_eq!(full_repair_cost(0), 99);
    assert_eq!(full_repair_cost(400), 499);
}
