use vstd::prelude::*;

verus! {

/// The sizes of expedition that can be sent out.
#[derive(Clone, Copy, Debug, PartialEq, Eq, Structural)]
pub enum ExpeditionName {
    Small,
    Medium,
    Large,
}

/// The day an expedition has reached, and whether it got lost on that day.
#[derive(Clone, Copy, Debug, PartialEq, Eq, Structural)]
pub struct ExpeditionDay {
    pub day: u32,
    pub lost: bool,
}

/// The amounts that the random draws of a returning expedition's reward
/// are scaled by.
#[derive(Clone, Copy, Debug, PartialEq, Eq, Structural)]
pub struct RewardScale {
    pub population: u32,
    pub bullets: u32,
    pub gasoline: u32,
    pub materials: u32,
    pub technology: u32,
    pub mines: u32,
    pub bombs: u32,
}

pub open spec fn all_expedition_names() -> Seq<ExpeditionName> {
    seq![ExpeditionName::Small, ExpeditionName::Medium, ExpeditionName::Large]
}

impl ExpeditionName {
    /// Every expedition size, from small to large.
    pub fn iter() -> (v: Vec<ExpeditionName>)
        ensures
            v@ == all_expedition_names(),
    {
        let v = vec![ExpeditionName::Small, ExpeditionName::Medium, ExpeditionName::Large];
        assert(v@ == all_expedition_names());
        v
    }

    pub open spec fn spec_members(self) -> u32 {
        match self {
            ExpeditionName::Small => 25,
            ExpeditionName::Medium => 75,
            ExpeditionName::Large => 125,
        }
    }

    pub open spec fn spec_max_day(self) -> u32 {
        match self {
            ExpeditionName::Small => 3,
            ExpeditionName::Medium => 4,
            ExpeditionName::Large => 5,
        }
    }

    pub open spec fn spec_gasoline_price(self) -> u32 {
        match self {
            ExpeditionName::Small => 150,
            ExpeditionName::Medium => 300,
            ExpeditionName::Large => 450,
        }
    }

    pub open spec fn spec_materials_price(self) -> u32 {
        match self {
            ExpeditionName::Small => 75,
            ExpeditionName::Medium => 150,
            ExpeditionName::Large => 225,
        }
    }

    /// How many idle people the expedition takes along.
    pub fn members(&self) -> (m: u32)
        ensures
            m == self.spec_members(),
    {
        match self {
            ExpeditionName::Small => 25,
            ExpeditionName::Medium => 75,
            ExpeditionName::Large => 125,
        }
    }

    /// The day on which the expedition is lost if it has not returned yet.
    pub fn max_day(&self) -> (d: u32)
        ensures
            d == self.spec_max_day(),
    {
        match self {
            ExpeditionName::Small => 3,
            ExpeditionName::Medium => 4,
            ExpeditionName::Large => 5,
        }
    }

    /// The gasoline that sending the expedition costs.
    pub fn gasoline_price(&self) -> (g: u32)
        ensures
            g == self.spec_gasoline_price(),
    {
        match self {
            ExpeditionName::Small => 150,
            ExpeditionName::Medium => 300,
            ExpeditionName::Large => 450,
        }
    }

    /// The materials that sending the expedition costs.
    pub fn materials_price(&self) -> (m: u32)
        ensures
            m == self.spec_materials_price(),
    {
        match self {
            ExpeditionName::Small => 75,
            ExpeditionName::Medium => 150,
            ExpeditionName::Large => 225,
        }
    }

    /// How long the expedition may be away, as shown to the player.
    pub fn duration(&self) -> (s: String)
        ensures
            s@ == (match self {
                ExpeditionName::Small => "1-2 days",
                ExpeditionName::Medium => "1-3 days",
                ExpeditionName::Large => "2-4 days",
            })@,
    {
        match self {
            ExpeditionName::Small => "1-2 days".to_owned(),
            ExpeditionName::Medium => "1-3 days".to_owned(),
            ExpeditionName::Large => "2-4 days".to_owned(),
        }
    }
}

/// An expedition out for `day` days lives another day; reaching `max_day`
/// it is lost.
pub fn advance(day: u32, max_day: u32) -> (r: ExpeditionDay)
    requires
        day < u32::MAX,
    ensures
        r.day == day + 1,
        r.lost == (day + 1 == max_day),
{
    let next = day + 1;
    ExpeditionDay { day: next, lost: next == max_day }
}

pub open spec fn cube(d: nat) -> nat {
    d * d * d
}

/// What the reward of an expedition that returns after `day` days is scaled
/// by: its members times the cube of the days for the population, its
/// gasoline price times the cube of the days for the bullets, the gasoline
/// price times the sixth power of the days for the gasoline, the materials
/// price times the sixth power for materials and technology, the square of
/// the days for the mines and the days for the bombs.
pub fn reward_scale(members: u32, gasoline_price: u32, materials_price: u32, day: u32) -> (r:
    RewardScale)
    requires
        members * cube(day as nat) <= u32::MAX,
        gasoline_price * cube(day as nat) * cube(day as nat) <= u32::MAX,
        materials_price * cube(day as nat) * cube(day as nat) <= u32::MAX,
        cube(day as nat) * cube(day as nat) <= u32::MAX,
    ensures
        r.population == members * cube(day as nat),
        r.bullets == gasoline_price * cube(day as nat),
        r.gasoline == gasoline_price * cube(day as nat) * cube(day as nat),
        r.materials == materials_price * cube(day as nat) * cube(day as nat),
        r.technology == materials_price * cube(day as nat) * cube(day as nat),
        r.mines == day * day,
        r.bombs == day,
{
    let d = day as u64;
    let c3: u64;
    let c6: u64;
    proof {
        lemma_powers_fit(day as nat, members as nat, gasoline_price as nat, materials_price as nat);
    }
    c3 = d * d * d;
    c6 = c3 * c3;
    RewardScale {
        population: (members as u64 * c3) as u32,
        bullets: (gasoline_price as u64 * c3) as u32,
        gasoline: (gasoline_price as u64 * c6) as u32,
        materials: (materials_price as u64 * c6) as u32,
        technology: (materials_price as u64 * c6) as u32,
        mines: (d * d) as u32,
        bombs: day,
    }
}

proof fn lemma_powers_fit(d: nat, m: nat, g: nat, t: nat)
    requires
        cube(d) * cube(d) <= u32::MAX,
        m * cube(d) <= u32::MAX,
        g * cube(d) * cube(d) <= u32::MAX,
        t * cube(d) * cube(d) <= u32::MAX,
    ensures
        d * d <= d * d * d || d == 0,
        d * d * d <= u32::MAX,
        d * d <= u32::MAX,
        g * cube(d) <= u32::MAX,
        g * (cube(d) * cube(d)) == g * cube(d) * cube(d),
        t * (cube(d) * cube(d)) == t * cube(d) * cube(d),
{
    assert(g * (cube(d) * cube(d)) == g * cube(d) * cube(d)) by (nonlinear_arith);
    assert(t * (cube(d) * cube(d)) == t * cube(d) * cube(d)) by (nonlinear_arith);
    assert(d * d <= u32::MAX && d * d * d <= u32::MAX && g * cube(d) <= u32::MAX && (d * d
        <= d * d * d || d == 0)) by (nonlinear_arith)
        requires
            cube(d) == d * d * d,
            cube(d) * cube(d) <= u32::MAX,
            g * cube(d) * cube(d) <= u32::MAX,
    ;
}

} // verus!
