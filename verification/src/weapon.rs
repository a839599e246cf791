use crate::constants::{MAX_BOMBS, MAX_MINES, MAX_NUKES, MAX_SPOTS};
use vstd::prelude::*;

verus! {

#[verifier::external_type_specification]
#[verifier::external_body]
pub struct ExUuid(uuid::Uuid);

/// A fresh identifier for a weapon spot.
///
/// Calls `uuid::Uuid::new_v4`, which draws the identifier at random; nothing
/// is claimed of the value.
#[verifier::external_body]
fn new_spot_id() -> (id: uuid::Uuid) {
    uuid::Uuid::new_v4()
}

/// The weapons that can be placed on the wall.
#[derive(Clone, Copy, Debug, PartialEq, Eq, Hash, Structural)]
pub enum WeaponName {
    AAA,
    Artillery,
    Canon,
    Flamethrower,
    MachineGun,
    MissileLauncher,
    Mortar,
    Turret,
}

/// How a weapon picks its target.
#[derive(Clone, Copy, Debug, PartialEq, Eq, Structural)]
pub enum FireStrategy {
    /// Don't fire
    Off,
    /// Fire at the closest enemy
    Closest,
    /// Fire at enemy with the highest `max_health`
    Strongest,
    /// Fire at the enemy with the most surrounding enemies at
    /// a distance given by the explosion's `radius`
    Density,
}

/// Which enemies a weapon that can hit the air fires at.
#[derive(Clone, Copy, Debug, PartialEq, Eq, Structural)]
pub enum AirFireStrategy {
    /// Don't fire
    Off,
    All,
    Grounded,
    Airborne,
}

/// The shells a mortar fires.
#[derive(Clone, Copy, Debug, PartialEq, Eq, Structural)]
pub enum MortarShell {
    /// Don't fire
    Off,
    Light,
    Heavy,
}

/// The size of an enemy.
#[derive(Clone, Copy, Debug, PartialEq, Eq, Structural)]
pub enum Size {
    Small,
    Medium,
    Large,
    Huge,
}

impl Size {
    pub open spec fn spec_rank(self) -> nat {
        match self {
            Size::Small => 0,
            Size::Medium => 1,
            Size::Large => 2,
            Size::Huge => 3,
        }
    }

    /// The position of the size from small (0) to huge (3).
    pub fn rank(&self) -> (r: u8)
        ensures
            r == self.spec_rank(),
    {
        match self {
            Size::Small => 0,
            Size::Medium => 1,
            Size::Large => 2,
            Size::Huge => 3,
        }
    }

    /// Whether an enemy of this size sets off a mine set to detonate from
    /// `threshold` upwards: it does unless it is smaller than the threshold.
    pub fn detonates_mine(&self, threshold: Size) -> (r: bool)
        ensures
            r == (self.spec_rank() >= threshold.spec_rank()),
    {
        self.rank() >= threshold.rank()
    }
}

/// The player's choices for the weapons during the night.
#[derive(Clone, Copy, Debug, PartialEq, Eq, Structural)]
pub struct WeaponSettings {
    pub aaa: AirFireStrategy,
    pub artillery: FireStrategy,
    pub canon: AirFireStrategy,
    pub flamethrower: u32,
    pub machine_gun: u32,
    pub missile_launcher: u32,
    pub mortar: MortarShell,
    pub bomb: FireStrategy,
    pub mine: Size,
}

/// How a weapon's targeting changes after its setting changed.
#[derive(Clone, Copy, Debug, PartialEq, Eq, Structural)]
pub struct StrategyUpdate {
    /// The new fire strategy, or `None` when it stays as it is.
    pub fire_strategy: Option<FireStrategy>,
    /// Whether the current target is dropped.
    pub reset_target: bool,
}

impl WeaponName {
    /// The settings that the weapon can take: the AAA has no grounded-only
    /// mode and the canon has no fire-at-all mode.
    pub open spec fn accepts(self, s: WeaponSettings) -> bool {
        match self {
            WeaponName::AAA => s.aaa != AirFireStrategy::Grounded,
            WeaponName::Canon => s.canon != AirFireStrategy::All,
            _ => true,
        }
    }

    /// The fire strategy that the weapon takes under the settings.
    pub open spec fn spec_strategy(self, s: WeaponSettings) -> Option<FireStrategy> {
        match self {
            WeaponName::AAA => Some(
                if s.aaa == AirFireStrategy::Off {
                    FireStrategy::Off
                } else {
                    FireStrategy::Closest
                },
            ),
            WeaponName::Artillery => Some(s.artillery),
            WeaponName::Canon => Some(
                if s.canon == AirFireStrategy::Off {
                    FireStrategy::Off
                } else {
                    FireStrategy::Closest
                },
            ),
            WeaponName::Flamethrower => Some(
                if s.flamethrower == 0 {
                    FireStrategy::Off
                } else {
                    FireStrategy::Closest
                },
            ),
            WeaponName::MachineGun => Some(
                if s.machine_gun == 0 {
                    FireStrategy::Off
                } else {
                    FireStrategy::Closest
                },
            ),
            WeaponName::MissileLauncher => Some(
                if s.missile_launcher == 0 {
                    FireStrategy::Off
                } else {
                    FireStrategy::Strongest
                },
            ),
            WeaponName::Mortar => Some(
                if s.mortar == MortarShell::Off {
                    FireStrategy::Off
                } else {
                    FireStrategy::Density
                },
            ),
            WeaponName::Turret => None,
        }
    }

    /// Whether the weapon's setting switches it off.
    pub open spec fn setting_off(self, s: WeaponSettings) -> bool {
        match self {
            WeaponName::AAA => s.aaa == AirFireStrategy::Off,
            WeaponName::Artillery => s.artillery == FireStrategy::Off,
            WeaponName::Canon => s.canon == AirFireStrategy::Off,
            WeaponName::Flamethrower => s.flamethrower == 0,
            WeaponName::MachineGun => s.machine_gun == 0,
            WeaponName::MissileLauncher => s.missile_launcher == 0,
            WeaponName::Mortar => s.mortar == MortarShell::Off,
            WeaponName::Turret => false,
        }
    }

    /// Whether the weapon drops its target when its setting changes.
    pub open spec fn spec_resets_target(self) -> bool {
        match self {
            WeaponName::AAA | WeaponName::Artillery | WeaponName::Canon | WeaponName::Mortar => true,
            _ => false,
        }
    }

    /// How the weapon's targeting follows the settings.
    pub fn strategy_update(&self, settings: &WeaponSettings) -> (u: StrategyUpdate)
        requires
            self.accepts(*settings),
        ensures
            u.fire_strategy == self.spec_strategy(*settings),
            u.reset_target == self.spec_resets_target(),
            *self == WeaponName::Artillery ==> u.fire_strategy == Some(settings.artillery),
            *self == WeaponName::Turret ==> u.fire_strategy is None,
            *self != WeaponName::Turret ==> u.fire_strategy is Some,
    {
        match self {
            WeaponName::AAA => StrategyUpdate {
                fire_strategy: Some(
                    match settings.aaa {
                        AirFireStrategy::Off => FireStrategy::Off,
                        _ => FireStrategy::Closest,
                    },
                ),
                reset_target: true,
            },
            WeaponName::Artillery => StrategyUpdate {
                fire_strategy: Some(settings.artillery),
                reset_target: true,
            },
            WeaponName::Canon => StrategyUpdate {
                fire_strategy: Some(
                    match settings.canon {
                        AirFireStrategy::Off => FireStrategy::Off,
                        _ => FireStrategy::Closest,
                    },
                ),
                reset_target: true,
            },
            WeaponName::Flamethrower => StrategyUpdate {
                fire_strategy: Some(
                    if settings.flamethrower == 0 {
                        FireStrategy::Off
                    } else {
                        FireStrategy::Closest
                    },
                ),
                reset_target: false,
            },
            WeaponName::MachineGun => StrategyUpdate {
                fire_strategy: Some(
                    if settings.machine_gun == 0 {
                        FireStrategy::Off
                    } else {
                        FireStrategy::Closest
                    },
                ),
                reset_target: false,
            },
            WeaponName::MissileLauncher => StrategyUpdate {
                fire_strategy: Some(
                    if settings.missile_launcher == 0 {
                        FireStrategy::Off
                    } else {
                        FireStrategy::Strongest
                    },
                ),
                reset_target: false,
            },
            WeaponName::Mortar => StrategyUpdate {
                fire_strategy: Some(
                    match settings.mortar {
                        MortarShell::Off => FireStrategy::Off,
                        _ => FireStrategy::Density,
                    },
                ),
                reset_target: true,
            },
            WeaponName::Turret => StrategyUpdate { fire_strategy: None, reset_target: false },
        }
    }

    /// Whether the setting of this weapon differs between `old` and `new`.
    /// The turret's setting (its power) is kept elsewhere; whether it changed
    /// is passed in `turret_changed`.
    pub fn setting_changed(
        &self,
        old: &WeaponSettings,
        new: &WeaponSettings,
        turret_changed: bool,
    ) -> (r: bool)
        ensures
            r == match self {
                WeaponName::AAA => old.aaa != new.aaa,
                WeaponName::Artillery => old.artillery != new.artillery,
                WeaponName::Canon => old.canon != new.canon,
                WeaponName::MachineGun => old.machine_gun != new.machine_gun,
                WeaponName::Flamethrower => old.flamethrower != new.flamethrower,
                WeaponName::Mortar => old.mortar != new.mortar,
                WeaponName::Turret => turret_changed,
                WeaponName::MissileLauncher => old.missile_launcher != new.missile_launcher,
            },
    {
        match self {
            WeaponName::AAA => old.aaa != new.aaa,
            WeaponName::Artillery => old.artillery != new.artillery,
            WeaponName::Canon => old.canon != new.canon,
            WeaponName::MachineGun => old.machine_gun != new.machine_gun,
            WeaponName::Flamethrower => old.flamethrower != new.flamethrower,
            WeaponName::Mortar => old.mortar != new.mortar,
            WeaponName::Turret => turret_changed,
            WeaponName::MissileLauncher => old.missile_launcher != new.missile_launcher,
        }
    }
}

/// The value a slider takes when its label is clicked: off when it was on,
/// and at its maximum when it was off.
pub fn toggle_level(value: u32, max: u32) -> (r: u32)
    ensures
        r == if value > 0 {
            0
        } else {
            max
        },
{
    if value > 0 {
        0
    } else {
        max
    }
}

/// A place for a weapon on the wall.
#[derive(Clone, Copy, Debug)]
pub struct Spot {
    pub id: uuid::Uuid,
    pub weapon: Option<WeaponName>,
}

/// Whether one of the spots holds the given weapon.
pub fn spots_hold(spots: &Vec<Spot>, name: WeaponName) -> (r: bool)
    ensures
        r == exists|i: int| 0 <= i < spots.len() && #[trigger] spots[i].weapon == Some(name),
{
    let mut i: usize = 0;
    while i < spots.len()
        invariant
            i <= spots.len(),
            forall|j: int| 0 <= j < i ==> #[trigger] spots[j].weapon != Some(name),
        decreases spots.len() - i,
    {
        match spots[i].weapon {
            Some(w) => {
                if w == name {
                    return true;
                }
            },
            None => {},
        }
        i = i + 1;
    }
    false
}

/// Why a purchase was refused.
#[derive(Clone, Copy, Debug, PartialEq, Eq, Structural)]
pub enum PurchaseError {
    /// The maximum number is reached already.
    MaxReached,
    /// The price cannot be paid.
    NotEnoughResources,
}

/// The number of spots after trying to add one to `len` spots.
pub open spec fn spots_after_add(len: nat, affordable: bool) -> nat {
    if len < MAX_SPOTS && affordable {
        len + 1
    } else {
        len
    }
}

/// Adds an empty weapon spot to the wall, when the maximum number of spots is
/// not reached and its price can be paid (`affordable`).
pub fn add_spot(spots: &mut Vec<Spot>, affordable: bool) -> (r: Result<(), PurchaseError>)
    ensures
        final(spots).len() == spots_after_add(old(spots).len() as nat, affordable),
        old(spots).len() >= MAX_SPOTS ==> r == Err::<(), PurchaseError>(PurchaseError::MaxReached)
            && final(spots)@ == old(spots)@,
        old(spots).len() < MAX_SPOTS && !affordable ==> r == Err::<(), PurchaseError>(
            PurchaseError::NotEnoughResources,
        ) && final(spots)@ == old(spots)@,
        old(spots).len() < MAX_SPOTS && affordable ==> {
            &&& r == Ok::<(), PurchaseError>(())
            &&& final(spots).len() == old(spots).len() + 1
            &&& final(spots)@.take(old(spots).len() as int) == old(spots)@
            &&& final(spots)@.last().weapon == None::<WeaponName>
        },
{
    if spots.len() >= MAX_SPOTS as usize {
        Err(PurchaseError::MaxReached)
    } else if !affordable {
        Err(PurchaseError::NotEnoughResources)
    } else {
        let id = new_spot_id();
        spots.push(Spot { id, weapon: None });
        assert(spots@.take(old(spots).len() as int) =~= old(spots)@);
        Ok(())
    }
}

/// The explosives that can be bought in the armory.
#[derive(Clone, Copy, Debug, PartialEq, Eq, Structural)]
pub enum Explosive {
    Mine,
    Bomb,
    Nuke,
}

impl Explosive {
    pub open spec fn spec_max(self) -> u32 {
        match self {
            Explosive::Mine => MAX_MINES,
            Explosive::Bomb => MAX_BOMBS,
            Explosive::Nuke => MAX_NUKES,
        }
    }

    /// The answer to buying one more when `count` are held.
    pub open spec fn buy_result(self, count: u32, affordable: bool) -> Result<(), PurchaseError> {
        if count >= self.spec_max() {
            Err(PurchaseError::MaxReached)
        } else if !affordable {
            Err(PurchaseError::NotEnoughResources)
        } else {
            Ok(())
        }
    }

    /// How many are held after trying to buy one more.
    pub open spec fn count_after_buy(self, count: u32, affordable: bool) -> u32 {
        if self.buy_result(count, affordable) is Ok {
            (count + 1) as u32
        } else {
            count
        }
    }

    /// The most of this explosive the player can buy up to.
    pub fn max(&self) -> (m: u32)
        ensures
            m == self.spec_max(),
    {
        match self {
            Explosive::Mine => MAX_MINES,
            Explosive::Bomb => MAX_BOMBS,
            Explosive::Nuke => MAX_NUKES,
        }
    }

    /// Buys one explosive of this kind, held in `count`: refused when the
    /// maximum is reached, then when the price cannot be paid (`affordable`).
    pub fn buy(&self, count: &mut u32, affordable: bool) -> (r: Result<(), PurchaseError>)
        ensures
            r == self.buy_result(*old(count), affordable),
            *final(count) == self.count_after_buy(*old(count), affordable),
    {
        if *count >= self.max() {
            Err(PurchaseError::MaxReached)
        } else if !affordable {
            Err(PurchaseError::NotEnoughResources)
        } else {
            *count = *count + 1;
            Ok(())
        }
    }
}

/// Law: buying never takes the stock of an explosive beyond its maximum.
pub proof fn law_buy_respects_max(kind: Explosive, count: u32, affordable: bool)
    requires
        count <= kind.spec_max(),
    ensures
        kind.count_after_buy(count, affordable) <= kind.spec_max(),
{
}

/// Law: the limits of the explosives are twenty-five mines, five bombs and
/// one nuke; a purchase below the limit that can be paid adds exactly one,
/// and a refused one changes nothing, the limit being checked first.
pub proof fn law_buy_adds_one(kind: Explosive, count: u32, affordable: bool)
    ensures
        Explosive::Mine.spec_max() == 25,
        Explosive::Bomb.spec_max() == 5,
        Explosive::Nuke.spec_max() == 1,
        count < kind.spec_max() && affordable ==> kind.buy_result(count, affordable) is Ok
            && kind.count_after_buy(count, affordable) == count + 1,
        count >= kind.spec_max() ==> kind.buy_result(count, affordable) == Err::<(), PurchaseError>(
            PurchaseError::MaxReached,
        ) && kind.count_after_buy(count, affordable) == count,
        count < kind.spec_max() && !affordable ==> kind.buy_result(count, affordable) == Err::<
            (),
            PurchaseError,
        >(PurchaseError::NotEnoughResources) && kind.count_after_buy(count, affordable) == count,
{
}

/// Law: a spot is added exactly when fewer than ten stand and the price can
/// be paid, and then exactly one.
pub proof fn law_spot_added_below_max(len: nat, affordable: bool)
    ensures
        len < 10 && affordable ==> spots_after_add(len, affordable) == len + 1,
        !(len < 10 && affordable) ==> spots_after_add(len, affordable) == len,
{
}

/// Law: adding spots never takes the wall beyond its maximum of spots.
pub proof fn law_spots_respect_max(len: nat, affordable: bool)
    requires
        len <= MAX_SPOTS,
    ensures
        spots_after_add(len, affordable) <= MAX_SPOTS,
{
}

/// Law: the artillery fires exactly as its setting says, whatever the setting.
pub proof fn law_artillery_follows_setting(s: WeaponSettings)
    ensures
        WeaponName::Artillery.spec_strategy(s) == Some(s.artillery),
{
}

/// Law: a weapon with a setting stops firing exactly when its setting
/// switches it off; the turret's strategy is never touched.
pub proof fn law_off_exactly_when_switched_off(w: WeaponName, s: WeaponSettings)
    ensures
        w == WeaponName::Turret ==> w.spec_strategy(s) is None,
        w != WeaponName::Turret ==> (w.spec_strategy(s) == Some(FireStrategy::Off)
            <==> w.setting_off(s)),
{
}

/// Law: a weapon that is switched on aims as its kind does: the missile
/// launcher at the strongest enemy, the mortar at the densest group, the
/// AAA, canon, flamethrower and machine gun at the closest enemy.
pub proof fn law_aim_of_switched_on_weapons(w: WeaponName, s: WeaponSettings)
    requires
        !w.setting_off(s),
    ensures
        w == WeaponName::MissileLauncher ==> w.spec_strategy(s) == Some(FireStrategy::Strongest),
        w == WeaponName::Mortar ==> w.spec_strategy(s) == Some(FireStrategy::Density),
        (w == WeaponName::AAA || w == WeaponName::Canon || w == WeaponName::Flamethrower || w
            == WeaponName::MachineGun) ==> w.spec_strategy(s) == Some(FireStrategy::Closest),
{
}

} // verus!
