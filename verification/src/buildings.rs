use crate::constants::{RESOURCE_FACTOR, UPGRADE_COST_STEP};
use crate::population::Population;
use vstd::prelude::*;

verus! {

/// The levels of the buildings that produce resources.
#[derive(Clone, Copy, Debug, PartialEq, Eq, Structural)]
pub struct Constructions {
    pub armory: u32,
    pub refinery: u32,
    pub factory: u32,
    pub laboratory: u32,
}

/// One of the buildings that produce resources.
#[derive(Clone, Copy, Debug, PartialEq, Eq, Structural)]
pub enum Building {
    /// Produces bullets, worked by armorers.
    Armory,
    /// Produces gasoline, worked by refiners.
    Refinery,
    /// Produces materials, worked by constructors.
    Factory,
    /// Produces technology, worked by scientists.
    Laboratory,
}

/// What the workers produce in a day, before any productivity bonus.
#[derive(Clone, Copy, Debug, PartialEq, Eq, Structural)]
pub struct Production {
    pub bullets: u32,
    pub gasoline: u32,
    pub materials: u32,
    pub technology: u32,
}

/// Materials that upgrading a building at `level` costs.
pub open spec fn spec_upgrade_cost(level: nat) -> nat {
    (level + 1) * (UPGRADE_COST_STEP as nat)
}

/// What `workers` produce in a building at `level`.
pub open spec fn spec_output(workers: nat, level: nat) -> nat {
    workers * level * (RESOURCE_FACTOR as nat)
}

impl Constructions {
    pub open spec fn level(self, building: Building) -> u32 {
        match building {
            Building::Armory => self.armory,
            Building::Refinery => self.refinery,
            Building::Factory => self.factory,
            Building::Laboratory => self.laboratory,
        }
    }

    /// The level of a building.
    pub fn get_level(&self, building: Building) -> (l: u32)
        ensures
            l == self.level(building),
    {
        match building {
            Building::Armory => self.armory,
            Building::Refinery => self.refinery,
            Building::Factory => self.factory,
            Building::Laboratory => self.laboratory,
        }
    }

    /// Materials that the next upgrade of a building costs.
    pub fn upgrade_cost(&self, building: Building) -> (c: u32)
        requires
            spec_upgrade_cost(self.level(building) as nat) <= u32::MAX,
        ensures
            c == spec_upgrade_cost(self.level(building) as nat),
            c == (self.level(building) + 1) * UPGRADE_COST_STEP,
    {
        (self.get_level(building) + 1) * UPGRADE_COST_STEP
    }

    /// Upgrades a building by one level when its cost can be paid
    /// (`affordable`). Returns whether it was upgraded; the other buildings
    /// never change.
    pub fn upgrade(&mut self, building: Building, affordable: bool) -> (r: bool)
        requires
            old(self).level(building) < u32::MAX,
        ensures
            r == affordable,
            forall|b: Building|
                #![trigger final(self).level(b)]
                final(self).level(b) == if b == building && affordable {
                    old(self).level(b) + 1
                } else {
                    old(self).level(b) as int
                },
    {
        if affordable {
            match building {
                Building::Armory => self.armory = self.armory + 1,
                Building::Refinery => self.refinery = self.refinery + 1,
                Building::Factory => self.factory = self.factory + 1,
                Building::Laboratory => self.laboratory = self.laboratory + 1,
            }
        }
        affordable
    }

    /// The day's production of every resource: workers times building level
    /// times the resource factor.
    pub fn base_production(&self, population: &Population) -> (p: Production)
        requires
            spec_output(population.armorer as nat, self.armory as nat) <= u32::MAX,
            spec_output(population.refiner as nat, self.refinery as nat) <= u32::MAX,
            spec_output(population.constructor as nat, self.factory as nat) <= u32::MAX,
            spec_output(population.scientist as nat, self.laboratory as nat) <= u32::MAX,
        ensures
            p.bullets == spec_output(population.armorer as nat, self.armory as nat),
            p.gasoline == spec_output(population.refiner as nat, self.refinery as nat),
            p.materials == spec_output(population.constructor as nat, self.factory as nat),
            p.technology == spec_output(population.scientist as nat, self.laboratory as nat),
            p.bullets == population.armorer * self.armory * RESOURCE_FACTOR,
            p.gasoline == population.refiner * self.refinery * RESOURCE_FACTOR,
            p.materials == population.constructor * self.factory * RESOURCE_FACTOR,
            p.technology == population.scientist * self.laboratory * RESOURCE_FACTOR,
    {
        Production {
            bullets: output(population.armorer, self.armory),
            gasoline: output(population.refiner, self.refinery),
            materials: output(population.constructor, self.factory),
            technology: output(population.scientist, self.laboratory),
        }
    }
}

fn output(workers: u32, level: u32) -> (o: u32)
    requires
        spec_output(workers as nat, level as nat) <= u32::MAX,
    ensures
        o == spec_output(workers as nat, level as nat),
        o == workers * level * RESOURCE_FACTOR,
{
    let w = workers as u64;
    let l = level as u64;
    proof {
        assert(w * l <= 0xffff_ffff * 0xffff_ffff) by (nonlinear_arith)
            requires
                w <= 0xffff_ffff,
                l <= 0xffff_ffff,
        ;
    }
    let p = w * l;
    proof {
        assert(p * RESOURCE_FACTOR <= u32::MAX);
    }
    (p * RESOURCE_FACTOR as u64) as u32
}

/// The image level of the fence (one to three lines of fence): one more
/// line per thousand health, at most three.
pub fn fence_level(max_health: u32) -> (l: u32)
    ensures
        l == if 1 + max_health / 1000 <= 3 {
            1 + max_health / 1000
        } else {
            3
        },
{
    let l = 1 + max_health / 1000;
    if l <= 3 {
        l
    } else {
        3
    }
}

/// Materials that repairing the wall or the fence to full health at once
/// costs, given the whole points of health it misses: the missing health plus
/// ninety-nine, for both structures. This is about one material per missing
/// point, far above the rate of a single repair click (one hundred materials
/// for five hundred health on the wall, three hundred on the fence); the game
/// charges it so, and so does this function.
pub fn full_repair_cost(missing: u32) -> (c: u32)
    requires
        missing + 99 <= u32::MAX,
    ensures
        c == missing + 99,
{
    missing + 99
}

/// Law: the first upgrade costs one step, and every upgrade makes the next
/// one dearer by the same step.
pub proof fn law_upgrade_cost_rises(level: nat)
    ensures
        spec_upgrade_cost(0) == UPGRADE_COST_STEP,
        spec_upgrade_cost(level + 1) == spec_upgrade_cost(level) + UPGRADE_COST_STEP,
{
}

/// Law: production grows with the building's level without limit: an
/// unbuilt building produces nothing, and every level adds the workers times
/// the resource factor.
pub proof fn law_output_per_level(workers: nat, level: nat)
    ensures
        spec_output(workers, 0) == 0,
        spec_output(workers, level + 1) == spec_output(workers, level) + workers
            * RESOURCE_FACTOR,
{
    assert(workers * (level + 1) * RESOURCE_FACTOR == workers * level * RESOURCE_FACTOR + workers
        * RESOURCE_FACTOR) by (nonlinear_arith);
}

/// Law: production is proportional to the workers: every worker adds the
/// building's level times the resource factor.
pub proof fn law_output_per_worker(workers: nat, level: nat)
    ensures
        spec_output(0, level) == 0,
        spec_output(workers + 1, level) == spec_output(workers, level) + level
            * RESOURCE_FACTOR,
{
    assert((workers + 1) * level * RESOURCE_FACTOR == workers * level * RESOURCE_FACTOR + level
        * RESOURCE_FACTOR) by (nonlinear_arith);
}

} // verus!
