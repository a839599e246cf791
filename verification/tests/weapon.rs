use fortress::constants::{MAX_BOMBS, MAX_MINES, MAX_SPOTS};
use fortress::names::NameFromEnum;
use fortress::weapon::{
    add_spot, spots_hold, toggle_level, AirFireStrategy, Explosive, FireStrategy, MortarShell,
    PurchaseError, Size, Spot, StrategyUpdate, WeaponName, WeaponSettings,
};

fn settings() -> WeaponSettings {
    WeaponSettings {
        aaa: AirFireStrategy::Off,
        artillery: FireStrategy::Off,
        canon: AirFireStrategy::Off,
        flamethrower: 0,
        machine_gun: 0,
        missile_launcher: 0,
        mortar: MortarShell::Off,
        bomb: FireStrategy::Density,
        mine: Size::Medium,
    }
}

fn update(name: WeaponName, s: &WeaponSettings) -> StrategyUpdate {
    name.strategy_update(s)
}

#[test]
fn weapons_off_do_not_fire() {
    let s = settings();
    for name in [WeaponName::AAA, WeaponName::Artillery, WeaponName::Canon, WeaponName::Flamethrower,
        WeaponName::MachineGun, WeaponName::MissileLauncher, WeaponName::Mortar] {
        assert_eq!(update(name, &s).fire_strategy, Some(FireStrategy::Off));
    }
    assert_eq!(update(WeaponName::Turret, &s), StrategyUpdate { fire_strategy: None, reset_target: false });
}

#[test]
fn weapons_follow_their_settings() {
    let mut s = settings();
    s.aaa = AirFireStrategy::Airborne;
    s.artillery = FireStrategy::Strongest;
    s.canon = AirFireStrategy::Grounded;
    s.flamethrower = 3;
    s.machine_gun = 5;
    s.missile_launcher = 2;
    s.mortar = MortarShell::Heavy;
    assert_eq!(update(WeaponName::AAA, &s), StrategyUpdate { fire_strategy: Some(FireStrategy::Closest), reset_target: true });
    assert_eq!(update(WeaponName::Artillery, &s), StrategyUpdate { fire_strategy: Some(FireStrategy::Strongest), reset_target: true });
    assert_eq!(update(WeaponName::Canon, &s), StrategyUpdate { fire_strategy: Some(FireStrategy::Closest), reset_target: true });
    assert_eq!(update(WeaponName::Flamethrower, &s), StrategyUpdate { fire_strategy: Some(FireStrategy::Closest), reset_target: false });
    assert_eq!(update(WeaponName::MachineGun, &s), StrategyUpdate { fire_strategy: Some(FireStrategy::Closest), reset_target: false });
    assert_eq!(update(WeaponName::MissileLauncher, &s), StrategyUpdate { fire_strategy: Some(FireStrategy::Strongest), reset_target: false });
    assert_eq!(update(WeaponName::Mortar, &s), StrategyUpdate { fire_strategy: Some(FireStrategy::Density), reset_target: true });
}

#[test]
fn changed_settings_are_detected_per_weapon() {
    let old = settings();
    let mut new = settings();
    new.machine_gun = 2;
    assert!(WeaponName::MachineGun.setting_changed(&old, &new, false));
    assert!(!WeaponName::Canon.setting_changed(&old, &new, false));
    assert!(WeaponName::Turret.setting_changed(&old, &new, true));
    assert!(!WeaponName::Turret.setting_changed(&old, &new, false));
}

#[test]
fn clicking_a_label_toggles_the_slider() {
    assert_eq!(toggle_level(3, 5), 0);
    assert_eq!(toggle_level(0, 5), 5);
}

#[test]
fn spots_tell_which_weapons_stand_on_the_wall() {
    let spots = vec![
        Spot { id: uuid::Uuid::from_u128(1), weapon: Some(WeaponName::MachineGun) },
        Spot { id: uuid::Uuid::from_u128(2), weapon: None },
    ];
    assert!(spots_hold(&spots, WeaponName::MachineGun));
    assert!(!spots_hold(&spots, WeaponName::Mortar));
}

#[test]
fn new_spots_are_empty_and_distinct() {
    let mut spots = vec![Spot { id: uuid::Uuid::from_u128(1), weapon: Some(WeaponName::MachineGun) }];
    assert_eq!(add_spot(&mut spots, false), Err(PurchaseError::NotEnoughResources));
    assert_eq!(spots.len(), 1);
    assert_eq!(add_spot(&mut spots, true), Ok(()));
    assert_eq!(add_spot(&mut spots, true), Ok(()));
    assert_eq!(spots.len(), 3);
    assert!(spots[1].weapon.is_none() && spots[2].weapon.is_none());
    assert_ne!(spots[1].id, spots[2].id);
    assert_eq!(spots[0].weapon, Some(WeaponName::MachineGun));
}

#[test]
fn the_wall_holds_at_most_ten_spots() {
    let mut spots = Vec::new();
    for _ in 0..MAX_SPOTS {
        assert_eq!(add_spot(&mut spots, true), Ok(()));
    }
    assert_eq!(add_spot(&mut spots, true), Err(PurchaseError::MaxReached));
    assert_eq!(spots.len(), 10);
}

#[test]
fn explosives_respect_their_maximum() {
    let mut mines = MAX_MINES - 1;
    assert_eq!(Explosive::Mine.buy(&mut mines, false), Err(PurchaseError::NotEnoughResources));
    assert_eq!(Explosive::Mine.buy(&mut mines, true), Ok(()));
    assert_eq!(mines, 25);
    assert_eq!(Explosive::Mine.buy(&mut mines, true), Err(PurchaseError::MaxReached));
    assert_eq!(mines, 25);
    let mut bombs = MAX_BOMBS;
    assert_eq!(Explosive::Bomb.buy(&mut bombs, true), Err(PurchaseError::MaxReached));
    let mut nukes = 0;
    assert_eq!(Explosive::Nuke.buy(&mut nukes, true), Ok(()));
    assert_eq!(Explosive::Nuke.buy(&mut nukes, true), Err(PurchaseError::MaxReached));
    assert_eq!(Explosive::Nuke.max(), 1);
}

#[test]
fn mines_detonate_from_their_threshold() {
    assert!(!Size::Small.detonates_mine(Size::Medium));
    assert!(Size::Medium.detonates_mine(Size::Medium));
    assert!(Size::Huge.detonates_mine(Size::Large));
    assert!(Size::Small.detonates_mine(Size::Small));
}

#[test]
fn strategies_are_named_as_shown() {
    assert_eq!(FireStrategy::Off.name(), "None");
    assert_eq!(AirFireStrategy::Grounded.name(), "Grounded");
    assert_eq!(MortarShell::Heavy.name(), "Heavy");
    assert_eq!(WeaponName::MissileLauncher.name(), "MissileLauncher");
    assert_eq!(Size::Huge.name(), "Huge");
}
