use vstd::prelude::*;

verus! {

/// Maximum number of weapon spots on the wall.
pub const MAX_SPOTS: u32 = 10;

/// Maximum fire rate of the machine gun (bullets per second).
pub const MAX_MACHINE_GUN_FIRE_RATE: u32 = 5;

/// Maximum power of the flamethrower.
pub const MAX_FLAMETHROWER_POWER: u32 = 5;

/// Maximum number of shells the missile launcher fires per round.
pub const MAX_MISSILE_LAUNCHER_SHELLS: u32 = 10;

/// Maximum power of the spotlight.
pub const MAX_SPOTLIGHT_POWER: u32 = 100;

/// Maximum number of mines that can be bought.
pub const MAX_MINES: u32 = 25;

/// Maximum number of bombs that can be bought.
pub const MAX_BOMBS: u32 = 5;

/// Maximum number of nukes that can be bought.
pub const MAX_NUKES: u32 = 1;

/// Damage a soldier absorbs before dying, without the marines technology.
pub const SOLDIER_BASE_DAMAGE: u32 = 5;

/// Resources produced per day by one worker in a level-one building.
pub const RESOURCE_FACTOR: u32 = 10;

/// Materials per building level that an upgrade costs.
pub const UPGRADE_COST_STEP: u32 = 100;

/// Technology that an extra weapon spot costs.
pub const SPOT_PRICE: u32 = 500;

} // verus!
