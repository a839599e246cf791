use fortress::population::{DispatchError, Population, Trade};

fn pop(soldier: u32, armorer: u32, refiner: u32, constructor: u32, scientist: u32, idle: u32) -> Population {
    Population { soldier, armorer, refiner, constructor, scientist, idle }
}

#[test]
fn total_counts_everyone() {
    assert_eq!(pop(5, 60, 40, 40, 40, 0).total(), 185);
    assert_eq!(pop(1, 2, 3, 4, 5, 6).total(), 21);
}

#[test]
fn default_population_is_empty() {
    let p = Population::default();
    assert_eq!(p, pop(0, 0, 0, 0, 0, 0));
    assert_eq!(p.total(), 0);
}

#[test]
fn assign_within_total_makes_the_rest_idle() {
    let mut p = pop(5, 60, 40, 40, 40, 20);
    p.assign(10, 50, 50, 40, 30);
    assert_eq!(p, pop(10, 50, 50, 40, 30, 25));
    assert_eq!(p.total(), 205);
}

#[test]
fn assign_beyond_total_changes_nothing() {
    let mut p = pop(5, 60, 40, 40, 40, 0);
    p.assign(100, 60, 40, 40, 40);
    assert_eq!(p, pop(5, 60, 40, 40, 40, 0));
}

#[test]
fn assign_everything_leaves_nobody_idle() {
    let mut p = pop(0, 0, 0, 0, 0, 30);
    p.assign(10, 5, 5, 5, 5);
    assert_eq!(p.idle, 0);
    assert!(p.ready_for_night());
}

#[test]
fn soldiers_absorb_damage_first() {
    let mut p = pop(3, 10, 0, 0, 0, 0);
    let mut c = Population::default();
    p.suffer_attack(17, 5, &mut c);
    assert_eq!(p, pop(0, 8, 0, 0, 0, 0));
    assert_eq!(c, pop(3, 2, 0, 0, 0, 0));
}

#[test]
fn soldiers_can_stop_a_bug_alone() {
    let mut p = pop(3, 10, 10, 10, 10, 4);
    let mut c = Population::default();
    p.suffer_attack(9, 5, &mut c);
    assert_eq!(p, pop(1, 10, 10, 10, 10, 4));
    assert_eq!(c, pop(2, 0, 0, 0, 0, 0));
}

#[test]
fn stronger_soldiers_die_less() {
    let mut p = pop(3, 10, 0, 0, 0, 0);
    let mut c = Population::default();
    p.suffer_attack(17, 10, &mut c);
    assert_eq!(p, pop(1, 10, 0, 0, 0, 0));
    assert_eq!(c.soldier, 2);
}

#[test]
fn damage_left_kills_workers_of_any_trade() {
    for _ in 0..50 {
        let before = pop(0, 3, 3, 3, 3, 7);
        let mut p = before;
        let mut c = Population::default();
        p.suffer_attack(10, 5, &mut c);
        assert_eq!(p.total() + c.total(), before.total());
        assert_eq!(c.total(), 10);
        assert_eq!(p.idle, 7);
        assert_eq!(p.armorer + c.armorer, 3);
        assert_eq!(p.refiner + c.refiner, 3);
        assert_eq!(p.constructor + c.constructor, 3);
        assert_eq!(p.scientist + c.scientist, 3);
    }
}

#[test]
fn random_picks_reach_every_trade() {
    let mut seen = [false; 4];
    for _ in 0..200 {
        let mut p = pop(0, 5, 5, 5, 5, 0);
        let mut c = Population::default();
        p.suffer_attack(1, 5, &mut c);
        seen[0] |= c.armorer == 1;
        seen[1] |= c.refiner == 1;
        seen[2] |= c.constructor == 1;
        seen[3] |= c.scientist == 1;
    }
    assert_eq!(seen, [true; 4]);
}

#[test]
fn a_strong_bug_ends_the_fortress() {
    let mut p = pop(2, 1, 1, 1, 1, 0);
    let mut c = pop(1, 0, 0, 0, 0, 0);
    p.suffer_attack(580, 5, &mut c);
    assert_eq!(p.total(), 0);
    assert!(p.wiped_out());
    assert_eq!(c, pop(3, 1, 1, 1, 1, 0));
}

#[test]
fn a_harmless_bug_kills_nobody() {
    let mut p = pop(2, 1, 1, 1, 1, 0);
    let mut c = Population::default();
    p.suffer_attack(0, 5, &mut c);
    assert_eq!(p, pop(2, 1, 1, 1, 1, 0));
    assert_eq!(c.total(), 0);
}

#[test]
fn idle_people_count_against_the_night() {
    assert!(!pop(1, 0, 0, 0, 0, 1).ready_for_night());
    assert!(pop(1, 0, 0, 0, 0, 0).ready_for_night());
}

#[test]
fn newcomers_are_idle() {
    let mut p = pop(1, 2, 3, 4, 5, 6);
    p.welcome(14);
    assert_eq!(p, pop(1, 2, 3, 4, 5, 20));
}

#[test]
fn dispatch_needs_idle_people_first() {
    let mut p = pop(1, 2, 3, 4, 5, 20);
    assert_eq!(p.dispatch(25, false), Err(DispatchError::NotEnoughIdle));
    assert_eq!(p.dispatch(25, true), Err(DispatchError::NotEnoughIdle));
    assert_eq!(p, pop(1, 2, 3, 4, 5, 20));
}

#[test]
fn dispatch_needs_the_price() {
    let mut p = pop(1, 2, 3, 4, 5, 30);
    assert_eq!(p.dispatch(25, false), Err(DispatchError::NotEnoughResources));
    assert_eq!(p, pop(1, 2, 3, 4, 5, 30));
}

#[test]
fn dispatch_takes_the_members_along() {
    let mut p = pop(1, 2, 3, 4, 5, 30);
    let before = p.total();
    assert_eq!(p.dispatch(25, true), Ok(()));
    assert_eq!(p, pop(1, 2, 3, 4, 5, 5));
    assert_eq!(p.total(), before - 25);
}

#[test]
fn a_fight_that_reaches_only_idle_people_cannot_end() {
    assert!(!pop(0, 1, 0, 0, 0, 5).attack_can_end(3, 5));
    assert!(pop(0, 1, 0, 0, 0, 0).attack_can_end(3, 5));
    assert!(pop(1, 1, 0, 0, 0, 5).attack_can_end(6, 5));
    assert!(!pop(1, 1, 0, 0, 0, 5).attack_can_end(7, 5));
    assert!(!pop(1, 0, 0, 0, 0, 5).attack_can_end(10, 5));
    assert!(pop(0, 0, 0, 0, 0, 5).attack_can_end(0, 5));
}

#[test]
fn a_fight_without_idle_people_spends_what_it_can() {
    let mut p = pop(1, 1, 0, 0, 0, 0);
    let mut c = Population::default();
    p.suffer_attack(20, 5, &mut c);
    assert_eq!(p, pop(0, 0, 0, 0, 0, 0));
    assert_eq!(c, pop(1, 1, 0, 0, 0, 0));
    assert!(p.wiped_out());

    let mut p = pop(1, 2, 0, 0, 0, 4);
    let mut c = Population::default();
    p.suffer_attack(6, 5, &mut c);
    assert_eq!(p, pop(0, 1, 0, 0, 0, 4));
    assert_eq!(c, pop(1, 1, 0, 0, 0, 0));
}

#[test]
fn occupied_trades_lists_each_trade_with_members_in_order() {
    assert_eq!(pop(9, 0, 0, 0, 0, 9).occupied_trades(), vec![]);
    assert_eq!(
        pop(0, 1, 0, 2, 3, 0).occupied_trades(),
        vec![Trade::Armorer, Trade::Constructor, Trade::Scientist]
    );
    assert_eq!(
        pop(0, 4, 3, 2, 1, 0).occupied_trades(),
        vec![Trade::Armorer, Trade::Refiner, Trade::Constructor, Trade::Scientist]
    );
}

#[test]
fn lose_worker_takes_the_picked_trade() {
    let mut p = pop(2, 0, 5, 0, 7, 1);
    let mut c = pop(0, 0, 1, 0, 0, 0);
    p.lose_worker(0, &mut c);
    assert_eq!(p, pop(2, 0, 4, 0, 7, 1));
    assert_eq!(c, pop(0, 0, 2, 0, 0, 0));
    p.lose_worker(1, &mut c);
    assert_eq!(p, pop(2, 0, 4, 0, 6, 1));
    assert_eq!(c, pop(0, 0, 2, 0, 1, 0));
    let mut q = pop(0, 1, 0, 0, 1, 0);
    let mut d = Population::default();
    q.lose_worker(0, &mut d);
    assert_eq!(q.occupied_trades(), vec![Trade::Scientist]);
    q.lose_worker(0, &mut d);
    assert!(q.wiped_out());
    assert_eq!(d, pop(0, 1, 0, 0, 1, 0));
}

#[test]
fn wiped_out_only_when_nobody_is_left() {
    assert!(pop(0, 0, 0, 0, 0, 0).wiped_out());
    assert!(!pop(0, 0, 0, 0, 0, 1).wiped_out());
    assert!(!pop(1, 0, 0, 0, 0, 0).wiped_out());
    assert!(!pop(0, 0, 0, 1, 0, 0).wiped_out());
}

#[test]
fn a_bug_kills_at_most_its_damage() {
    let mut p = pop(10, 10, 10, 10, 10, 0);
    let mut c = Population::default();
    p.suffer_attack(3, 5, &mut c);
    assert_eq!(c.total(), 1);
    let mut p = pop(0, 10, 10, 10, 10, 0);
    let mut c = Population::default();
    p.suffer_attack(3, 5, &mut c);
    assert_eq!(c.total(), 3);
    assert_eq!(p.total(), 37);
}
