use rand::Rng;
use vstd::prelude::*;

verus! {

/// A draw from the uniform distribution over `0..n`.
///
/// Calls `rand::Rng::gen_range` on `rand::thread_rng()`. The contract claims
/// only what holds of every outcome: the result lies in `0..n`. `gen_range`
/// panics on an empty range, hence `n > 0` is required.
#[verifier::external_body]
fn uniform_index(n: usize) -> (r: usize)
    requires
        n > 0,
    ensures
        r < n,
{
    rand::thread_rng().gen_range(0..n)
}

/// The inhabitants of the fortress, by occupation.
#[derive(Clone, Copy, Debug, PartialEq, Eq, Structural)]
pub struct Population {
    pub soldier: u32,
    pub armorer: u32,
    pub refiner: u32,
    pub constructor: u32,
    pub scientist: u32,
    pub idle: u32,
}

/// Why an expedition could not leave.
#[derive(Clone, Copy, Debug, PartialEq, Eq, Structural)]
pub enum DispatchError {
    /// Fewer idle people than the expedition needs.
    NotEnoughIdle,
    /// The expedition's price cannot be paid.
    NotEnoughResources,
}

impl Default for Population {
    /// Nobody at all.
    fn default() -> (p: Population)
        ensures
            p.spec_total() == 0,
            p == (Population {
                soldier: 0,
                armorer: 0,
                refiner: 0,
                constructor: 0,
                scientist: 0,
                idle: 0,
            }),
    {
        Population { soldier: 0, armorer: 0, refiner: 0, constructor: 0, scientist: 0, idle: 0 }
    }
}

/// The occupations that produce resources (everyone but soldiers and idle people).
#[derive(Clone, Copy, Debug, PartialEq, Eq, Structural)]
pub enum Trade {
    Armorer,
    Refiner,
    Constructor,
    Scientist,
}

pub open spec fn min_nat(a: nat, b: nat) -> nat {
    if a <= b {
        a
    } else {
        b
    }
}

/// Number of soldiers that die fighting a bug that deals `damage`, when each
/// soldier absorbs `strength` damage before dying: soldiers keep dying one by
/// one while damage is left.
pub open spec fn soldiers_killed(soldiers: nat, damage: nat, strength: nat) -> nat {
    if damage == 0 {
        0
    } else if strength == 0 {
        soldiers
    } else {
        min_nat(soldiers, ((damage + strength - 1) as int / strength as int) as nat)
    }
}

/// Damage left once the soldiers have fought.
pub open spec fn damage_after_soldiers(soldiers: nat, damage: nat, strength: nat) -> nat {
    let absorbed = soldiers_killed(soldiers, damage, strength) * strength;
    if absorbed >= damage {
        0
    } else {
        (damage - absorbed) as nat
    }
}

/// The soldiers' loop kills exactly `soldiers_killed` soldiers and leaves
/// exactly `damage_after_soldiers` damage.
proof fn lemma_soldier_phase(s0: nat, d0: nat, sd: nat, i: nat, dmg: nat)
    requires
        i <= s0,
        dmg == (if i * sd >= d0 {
            0
        } else {
            d0 - i * sd
        }),
        i == 0 || (i - 1) * sd < d0,
        i == s0 || dmg == 0,
    ensures
        i == soldiers_killed(s0, d0, sd),
        dmg == damage_after_soldiers(s0, d0, sd),
{
    if d0 == 0 {
        assert(i == 0) by (nonlinear_arith)
            requires
                i == 0 || (i - 1) * sd < d0,
                d0 == 0,
        ;
    } else if sd == 0 {
        assert(i * sd == 0) by (nonlinear_arith)
            requires
                sd == 0,
        ;
    } else {
        let q = ((d0 + sd - 1) as int / sd as int) as nat;
        lemma_ceil_div(d0, sd);
        if dmg == 0 {
            assert(i * sd >= d0);
            assert(i == q) by (nonlinear_arith)
                requires
                    sd > 0,
                    i * sd >= d0,
                    i == 0 || (i - 1) * sd < d0,
                    q * sd >= d0,
                    (q - 1) * sd < d0,
                    d0 > 0,
            ;
        } else {
            assert(i == s0);
            assert(i < q) by (nonlinear_arith)
                requires
                    sd > 0,
                    i * sd < d0,
                    q * sd >= d0,
            ;
        }
    }
}

/// Ceiling division: `q = ceil(d / s)` is the least multiple count reaching `d`.
proof fn lemma_ceil_div(d: nat, s: nat)
    requires
        s > 0,
        d > 0,
    ensures
        ({
            let q = ((d + s - 1) as int / s as int);
            q * s >= d && (q - 1) * s < d && q >= 1
        }),
{
    let x = (d + s - 1) as int;
    let q = x / s as int;
    let r = x % s as int;
    vstd::arithmetic::div_mod::lemma_fundamental_div_mod(x, s as int);
    assert(0 <= r < s);
    assert(q * s >= d && (q - 1) * s < d && q >= 1) by (nonlinear_arith)
        requires
            x == s * q + r,
            0 <= r < s,
            x == d + s - 1,
            s > 0,
            d > 0,
    ;
}

impl Population {
    /// Everybody in the fortress.
    pub open spec fn spec_total(self) -> nat {
        (self.soldier + self.armorer + self.refiner + self.constructor + self.scientist
            + self.idle) as nat
    }

    /// The workers that produce resources.
    pub open spec fn spec_workers(self) -> nat {
        (self.armorer + self.refiner + self.constructor + self.scientist) as nat
    }

    /// The population can be counted in a `u32`.
    pub open spec fn fits(self) -> bool {
        self.spec_total() <= u32::MAX
    }

    pub open spec fn trade_count(self, trade: Trade) -> u32 {
        match trade {
            Trade::Armorer => self.armorer,
            Trade::Refiner => self.refiner,
            Trade::Constructor => self.constructor,
            Trade::Scientist => self.scientist,
        }
    }

    /// Total number of people in the fortress.
    pub fn total(&self) -> (t: u32)
        requires
            self.fits(),
        ensures
            t == self.spec_total(),
    {
        self.soldier + self.armorer + self.refiner + self.constructor + self.scientist + self.idle
    }

    /// Whether nobody is left in the fortress, which ends the game.
    pub fn wiped_out(&self) -> (r: bool)
        ensures
            r == (self.spec_total() == 0),
    {
        self.soldier == 0 && self.armorer == 0 && self.refiner == 0 && self.constructor == 0
            && self.scientist == 0 && self.idle == 0
    }

    /// Whether the fighting of a bug dealing `damage` ends. The fighting goes
    /// on while damage is left and anybody is in the fortress, and each round
    /// only ever kills a soldier or a worker: once the soldiers and workers
    /// are dead, damage left over with idle people present is never spent and
    /// the fighting never ends.
    pub open spec fn attack_ends(self, damage: nat, strength: nat) -> bool {
        let left = damage_after_soldiers(self.soldier as nat, damage, strength);
        left <= self.spec_workers() || self.idle == 0
    }

    /// Whether the fighting of a bug dealing `damage` ends (see `attack_ends`).
    pub fn attack_can_end(&self, damage: u32, soldier_strength: u32) -> (r: bool)
        ensures
            r == self.attack_ends(damage as nat, soldier_strength as nat),
    {
        let left: u64 = if damage == 0 {
            0
        } else if soldier_strength == 0 {
            damage as u64
        } else {
            let s = soldier_strength as u64;
            let ceil = (damage as u64 + s - 1) / s;
            let k = if (self.soldier as u64) < ceil {
                self.soldier as u64
            } else {
                ceil
            };
            proof {
                assert(k * s <= 0xffff_ffff * 0xffff_ffff) by (nonlinear_arith)
                    requires
                        k <= 0xffff_ffff,
                        s <= 0xffff_ffff,
                ;
            }
            let absorbed = k * s;
            if absorbed >= damage as u64 {
                0
            } else {
                damage as u64 - absorbed
            }
        };
        let workers = self.armorer as u64 + self.refiner as u64 + self.constructor as u64
            + self.scientist as u64;
        proof {
            assert(left == damage_after_soldiers(self.soldier as nat, damage as nat, soldier_strength as nat));
        }
        left <= workers || self.idle == 0
    }

    /// What `suffer_attack` does to the population and to the casualty count.
    pub open spec fn attack_outcome(
        self,
        casualties: Population,
        damage: nat,
        strength: nat,
        after: Population,
        casualties_after: Population,
    ) -> bool {
        let k = soldiers_killed(self.soldier as nat, damage, strength);
        let left = damage_after_soldiers(self.soldier as nat, damage, strength);
        &&& after.soldier == self.soldier - k
        &&& casualties_after.soldier == casualties.soldier + k
        &&& after.idle == self.idle
        &&& casualties_after.idle == casualties.idle
        &&& after.armorer <= self.armorer
        &&& after.refiner <= self.refiner
        &&& after.constructor <= self.constructor
        &&& after.scientist <= self.scientist
        &&& casualties_after.armorer == casualties.armorer + (self.armorer - after.armorer)
        &&& casualties_after.refiner == casualties.refiner + (self.refiner - after.refiner)
        &&& casualties_after.constructor == casualties.constructor + (self.constructor
            - after.constructor)
        &&& casualties_after.scientist == casualties.scientist + (self.scientist
            - after.scientist)
        &&& self.spec_workers() - after.spec_workers() == min_nat(left, self.spec_workers())
    }

    /// A bug entered the fortress and deals `damage` to the population.
    ///
    /// The soldiers fight first: each one dies and absorbs up to
    /// `soldier_strength` damage, as long as damage is left. The damage that
    /// is still left then kills that many workers, one at a time, each picked
    /// uniformly among the trades that still have members (see `lose_worker`).
    /// Idle people are never hurt, so the fighting only ends when the damage
    /// is spent or no worker is left with nobody idle (see `attack_ends`);
    /// other inputs are left out. Every death is added to `casualties`.
    pub fn suffer_attack(&mut self, damage: u32, soldier_strength: u32, casualties: &mut Population)
        requires
            old(self).fits(),
            old(self).spec_total() + old(casualties).spec_total() <= u32::MAX,
            old(self).attack_ends(damage as nat, soldier_strength as nat),
        ensures
            old(self).attack_outcome(
                *old(casualties),
                damage as nat,
                soldier_strength as nat,
                *final(self),
                *final(casualties),
            ),
    {
        let ghost s0 = self.soldier as nat;
        let ghost d0 = damage as nat;
        let ghost sd = soldier_strength as nat;
        let ghost p0 = *self;
        let ghost c0 = *casualties;
        let mut damage = damage;
        while self.soldier > 0 && damage > 0
            invariant
                self.soldier <= s0,
                casualties.soldier == c0.soldier + (s0 - self.soldier),
                damage == (if (s0 - self.soldier) * sd >= d0 {
                    0
                } else {
                    d0 - (s0 - self.soldier) * sd
                }),
                s0 - self.soldier == 0 || (s0 - self.soldier - 1) * sd < d0,
                self.armorer == p0.armorer,
                self.refiner == p0.refiner,
                self.constructor == p0.constructor,
                self.scientist == p0.scientist,
                self.idle == p0.idle,
                casualties.armorer == c0.armorer,
                casualties.refiner == c0.refiner,
                casualties.constructor == c0.constructor,
                casualties.scientist == c0.scientist,
                casualties.idle == c0.idle,
                s0 == p0.soldier,
                sd == soldier_strength,
                p0.spec_total() + c0.spec_total() <= u32::MAX,
            decreases self.soldier,
        {
            let ghost i = (s0 - self.soldier) as nat;
            proof {
                assert((i + 1) * sd == i * sd + sd) by (nonlinear_arith);
            }
            self.soldier = self.soldier - 1;
            casualties.soldier = casualties.soldier + 1;
            if soldier_strength < damage {
                damage = damage - soldier_strength;
            } else {
                damage = 0;
            }
        }
        proof {
            lemma_soldier_phase(s0, d0, sd, (s0 - self.soldier) as nat, damage as nat);
        }
        let ghost p1 = *self;
        let ghost c1 = *casualties;
        let ghost left = damage as nat;
        while damage > 0 && (self.armorer > 0 || self.refiner > 0 || self.constructor > 0
            || self.scientist > 0)
            invariant
                damage <= left,
                p1.spec_workers() - self.spec_workers() == left - damage,
                self.soldier == p1.soldier,
                self.idle == p1.idle,
                casualties.soldier == c1.soldier,
                casualties.idle == c1.idle,
                forall|t: Trade|
                    #![trigger self.trade_count(t)]
                    self.trade_count(t) <= p1.trade_count(t) && casualties.trade_count(t)
                        == c1.trade_count(t) + (p1.trade_count(t) - self.trade_count(t)),
                p1.spec_total() + c1.spec_total() <= u32::MAX,
            decreases damage,
        {
            let ghost prev = *self;
            let ghost prev_c = *casualties;
            let trades = self.occupied_trades();
            let pick = uniform_index(trades.len());
            let ghost trade = trades@[pick as int];
            assert(trades@.contains(trade));
            assert(prev_c.trade_count(trade) < u32::MAX) by {
                assert(prev.trade_count(trade) > 0);
                assert(p1.trade_count(trade) + c1.trade_count(trade) <= p1.spec_total()
                    + c1.spec_total()) by {
                    match trade {
                        Trade::Armorer => {},
                        Trade::Refiner => {},
                        Trade::Constructor => {},
                        Trade::Scientist => {},
                    }
                }
            }
            self.lose_worker(pick, casualties);
            damage = damage - 1;
            proof {
                assert forall|t: Trade|
                    #![trigger self.trade_count(t)]
                    self.trade_count(t) <= p1.trade_count(t) && casualties.trade_count(t)
                        == c1.trade_count(t) + (p1.trade_count(t) - self.trade_count(t)) by {
                    assert(prev.trade_count(t) <= p1.trade_count(t));
                    assert(prev_c.trade_count(t) == c1.trade_count(t) + (p1.trade_count(t)
                        - prev.trade_count(t)));
                    match t {
                        Trade::Armorer => {},
                        Trade::Refiner => {},
                        Trade::Constructor => {},
                        Trade::Scientist => {},
                    }
                }
                match trade {
                    Trade::Armorer => {},
                    Trade::Refiner => {},
                    Trade::Constructor => {},
                    Trade::Scientist => {},
                }
            }
        }
        proof {
            assert(self.trade_count(Trade::Armorer) <= p1.trade_count(Trade::Armorer));
            assert(self.trade_count(Trade::Refiner) <= p1.trade_count(Trade::Refiner));
            assert(self.trade_count(Trade::Constructor) <= p1.trade_count(Trade::Constructor));
            assert(self.trade_count(Trade::Scientist) <= p1.trade_count(Trade::Scientist));
        }
    }

    /// The trades that still have members, in the order armorer, refiner,
    /// constructor, scientist.
    pub open spec fn occupied(self) -> Seq<Trade> {
        let a = if self.armorer > 0 { seq![Trade::Armorer] } else { Seq::empty() };
        let r = if self.refiner > 0 { seq![Trade::Refiner] } else { Seq::empty() };
        let c = if self.constructor > 0 { seq![Trade::Constructor] } else { Seq::empty() };
        let s = if self.scientist > 0 { seq![Trade::Scientist] } else { Seq::empty() };
        a + r + c + s
    }

    /// The population with `n` members in `trade` and everyone else unchanged.
    pub open spec fn with_trade(self, trade: Trade, n: u32) -> Population {
        match trade {
            Trade::Armorer => Population { armorer: n, ..self },
            Trade::Refiner => Population { refiner: n, ..self },
            Trade::Constructor => Population { constructor: n, ..self },
            Trade::Scientist => Population { scientist: n, ..self },
        }
    }

    /// One worker dies: the `pick`-th of the trades that still have members
    /// (in the order of `occupied`) loses one member, who is added to the
    /// casualties of that trade.
    pub fn lose_worker(&mut self, pick: usize, casualties: &mut Population)
        requires
            pick < old(self).occupied().len(),
            old(casualties).trade_count(old(self).occupied()[pick as int]) < u32::MAX,
        ensures
            *final(self) == old(self).with_trade(
                old(self).occupied()[pick as int],
                (old(self).trade_count(old(self).occupied()[pick as int]) - 1) as u32,
            ),
            *final(casualties) == old(casualties).with_trade(
                old(self).occupied()[pick as int],
                (old(casualties).trade_count(old(self).occupied()[pick as int]) + 1) as u32,
            ),
    {
        let trades = self.occupied_trades();
        let trade = trades[pick];
        assert(trades@.contains(trade));
        match trade {
            Trade::Armorer => {
                self.armorer = self.armorer - 1;
                casualties.armorer = casualties.armorer + 1;
            },
            Trade::Refiner => {
                self.refiner = self.refiner - 1;
                casualties.refiner = casualties.refiner + 1;
            },
            Trade::Constructor => {
                self.constructor = self.constructor - 1;
                casualties.constructor = casualties.constructor + 1;
            },
            Trade::Scientist => {
                self.scientist = self.scientist - 1;
                casualties.scientist = casualties.scientist + 1;
            },
        }
    }

    /// The population after choosing these numbers for the occupations.
    pub open spec fn assigned(
        self,
        soldier: u32,
        armorer: u32,
        refiner: u32,
        constructor: u32,
        scientist: u32,
    ) -> Population {
        let chosen = soldier + armorer + refiner + constructor + scientist;
        if chosen <= self.spec_total() {
            Population {
                soldier,
                armorer,
                refiner,
                constructor,
                scientist,
                idle: (self.spec_total() - chosen) as u32,
            }
        } else {
            self
        }
    }

    /// Spreads the population over the occupations as chosen in the day's
    /// population tab: when the chosen numbers sum to at most the total
    /// population they are taken and everyone else is idle; otherwise the
    /// population stays as it is. Either way nobody is added or lost.
    pub fn assign(
        &mut self,
        soldier: u32,
        armorer: u32,
        refiner: u32,
        constructor: u32,
        scientist: u32,
    )
        requires
            old(self).fits(),
        ensures
            *final(self) == old(self).assigned(soldier, armorer, refiner, constructor, scientist),
            soldier + armorer + refiner + constructor + scientist <= old(self).spec_total() ==> {
                &&& final(self).soldier == soldier
                &&& final(self).armorer == armorer
                &&& final(self).refiner == refiner
                &&& final(self).constructor == constructor
                &&& final(self).scientist == scientist
                &&& final(self).idle == old(self).spec_total() - (soldier + armorer + refiner
                    + constructor + scientist)
            },
            soldier + armorer + refiner + constructor + scientist > old(self).spec_total()
                ==> *final(self) == *old(self),
    {
        let total = self.total() as u64;
        let chosen = soldier as u64 + armorer as u64 + refiner as u64 + constructor as u64
            + scientist as u64;
        if chosen <= total {
            *self = Population {
                soldier,
                armorer,
                refiner,
                constructor,
                scientist,
                idle: (total - chosen) as u32,
            };
        }
    }

    /// New people join the fortress as idle population.
    pub fn welcome(&mut self, newcomers: u32)
        requires
            old(self).idle + newcomers <= u32::MAX,
        ensures
            *final(self) == (Population { idle: (old(self).idle + newcomers) as u32, ..*old(self) }),
    {
        self.idle = self.idle + newcomers;
    }

    /// Whether the night can start: nobody may be idle.
    pub fn ready_for_night(&self) -> (r: bool)
        ensures
            r == (self.idle == 0),
    {
        self.idle == 0
    }

    /// Sends `members` idle people on an expedition. The idle population is
    /// checked first, then whether the expedition's price can be paid
    /// (`affordable`); only when both hold do the members leave.
    pub fn dispatch(&mut self, members: u32, affordable: bool) -> (r: Result<(), DispatchError>)
        ensures
            old(self).idle < members ==> r == Err::<(), DispatchError>(
                DispatchError::NotEnoughIdle,
            ) && *final(self) == *old(self),
            old(self).idle >= members && !affordable ==> r == Err::<(), DispatchError>(
                DispatchError::NotEnoughResources,
            ) && *final(self) == *old(self),
            old(self).idle >= members && affordable ==> r == Ok::<(), DispatchError>(())
                && *final(self) == (Population {
                idle: (old(self).idle - members) as u32,
                ..*old(self)
            }),
    {
        if self.idle >= members {
            if affordable {
                self.idle = self.idle - members;
                Ok(())
            } else {
                Err(DispatchError::NotEnoughResources)
            }
        } else {
            Err(DispatchError::NotEnoughIdle)
        }
    }

    /// The trades that still have members, in the order armorer, refiner,
    /// constructor, scientist; each at most once.
    pub fn occupied_trades(&self) -> (v: Vec<Trade>)
        ensures
            v@ == self.occupied(),
            forall|t: Trade| v@.contains(t) <==> self.trade_count(t) > 0,
            v@.no_duplicates(),
            v.len() > 0 <==> self.spec_workers() > 0,
    {
        let mut v: Vec<Trade> = Vec::new();
        if self.armorer > 0 {
            v.push(Trade::Armorer);
        }
        assert(v@ == (if self.armorer > 0 { seq![Trade::Armorer] } else { Seq::<Trade>::empty() }));
        let ghost v1 = v@;
        if self.refiner > 0 {
            v.push(Trade::Refiner);
        }
        assert(v@ == v1 + (if self.refiner > 0 { seq![Trade::Refiner] } else { Seq::<Trade>::empty() }));
        let ghost v2 = v@;
        if self.constructor > 0 {
            v.push(Trade::Constructor);
        }
        assert(v@ == v2 + (if self.constructor > 0 { seq![Trade::Constructor] } else { Seq::<Trade>::empty() }));
        let ghost v3 = v@;
        if self.scientist > 0 {
            v.push(Trade::Scientist);
        }
        assert(v@ == v3 + (if self.scientist > 0 { seq![Trade::Scientist] } else { Seq::<Trade>::empty() }));
        proof {
            assert forall|t: Trade| v@.contains(t) <==> self.trade_count(t) > 0 by {
                if self.trade_count(t) > 0 {
                    match t {
                        Trade::Armorer => { assert(v@[0] == t); },
                        Trade::Refiner => { assert(v@[v1.len() as int] == t); },
                        Trade::Constructor => { assert(v@[v2.len() as int] == t); },
                        Trade::Scientist => { assert(v@[v3.len() as int] == t); },
                    }
                }
                if v@.contains(t) {
                    let i = choose|i: int| 0 <= i < v.len() && v@[i] == t;
                    assert(self.trade_count(v@[i]) > 0);
                }
            }
        }
        v
    }
}

} // verus!

verus! {

/// Law: choosing the occupations never adds or loses anybody; whatever is not
/// chosen becomes idle.
pub proof fn law_assign_keeps_total(
    p: Population,
    soldier: u32,
    armorer: u32,
    refiner: u32,
    constructor: u32,
    scientist: u32,
)
    requires
        p.fits(),
    ensures
        p.assigned(soldier, armorer, refiner, constructor, scientist).spec_total()
            == p.spec_total(),
{
}

/// Law: when the chosen numbers fit in the population, every occupation
/// holds exactly the number chosen for it and the rest of the population is
/// idle; when they do not fit, nothing changes.
pub proof fn law_assign_takes_the_choice(
    p: Population,
    soldier: u32,
    armorer: u32,
    refiner: u32,
    constructor: u32,
    scientist: u32,
)
    requires
        p.fits(),
    ensures
        soldier + armorer + refiner + constructor + scientist <= p.spec_total() ==> {
            let a = p.assigned(soldier, armorer, refiner, constructor, scientist);
            &&& a.soldier == soldier
            &&& a.armorer == armorer
            &&& a.refiner == refiner
            &&& a.constructor == constructor
            &&& a.scientist == scientist
            &&& a.idle + soldier + armorer + refiner + constructor + scientist == p.spec_total()
        },
        soldier + armorer + refiner + constructor + scientist > p.spec_total() ==> p.assigned(
            soldier,
            armorer,
            refiner,
            constructor,
            scientist,
        ) == p,
{
}

/// Law: soldiers die one at a time only while damage is left: with strong
/// soldiers, the soldiers killed absorb all the damage (or all of them die),
/// and one soldier fewer would not have absorbed it; no damage kills nobody.
pub proof fn law_soldiers_absorb_damage(soldiers: nat, damage: nat, strength: nat)
    ensures
        damage == 0 ==> soldiers_killed(soldiers, damage, strength) == 0,
        soldiers_killed(soldiers, damage, strength) <= soldiers,
        strength > 0 && damage > 0 ==> {
            let k = soldiers_killed(soldiers, damage, strength);
            &&& k >= 1 || soldiers == 0
            &&& k * strength >= damage || k == soldiers
            &&& k == 0 || (k - 1) * strength < damage
        },
        damage_after_soldiers(soldiers, damage, strength) + soldiers_killed(
            soldiers,
            damage,
            strength,
        ) * strength >= damage,
        damage_after_soldiers(soldiers, damage, strength) <= damage,
{
    if strength > 0 && damage > 0 {
        lemma_ceil_div(damage, strength);
        let q = ((damage + strength - 1) as int / strength as int) as nat;
        let k = soldiers_killed(soldiers, damage, strength);
        if k > 0 {
            assert((k - 1) * strength < damage) by (nonlinear_arith)
                requires
                    k <= q,
                    (q - 1) * strength < damage,
                    k >= 1,
            ;
        }
    }
}

/// Law: when a bug enters the fortress, everybody who dies is counted as a
/// casualty: the people in the fortress and the casualties together stay as
/// many as before.
pub proof fn law_attack_conserves_people(
    before: Population,
    casualties: Population,
    damage: nat,
    strength: nat,
    after: Population,
    casualties_after: Population,
)
    requires
        before.attack_outcome(casualties, damage, strength, after, casualties_after),
    ensures
        after.spec_total() + casualties_after.spec_total() == before.spec_total()
            + casualties.spec_total(),
        after.spec_total() <= before.spec_total(),
{
}

/// Law: the soldiers fight first. Workers only die once every soldier is
/// dead, and idle people never die.
pub proof fn law_soldiers_fight_first(
    before: Population,
    casualties: Population,
    damage: nat,
    strength: nat,
    after: Population,
    casualties_after: Population,
)
    requires
        before.attack_outcome(casualties, damage, strength, after, casualties_after),
    ensures
        after.spec_workers() < before.spec_workers() ==> after.soldier == 0,
        after.idle == before.idle,
{
    let s0 = before.soldier as nat;
    let k = soldiers_killed(s0, damage, strength);
    if after.spec_workers() < before.spec_workers() {
        let left = damage_after_soldiers(s0, damage, strength);
        assert(left > 0);
        if strength > 0 && damage > 0 && k < s0 {
            lemma_ceil_div(damage, strength);
            let q = ((damage + strength - 1) as int / strength as int) as nat;
            assert(k == q);
            assert(k * strength >= damage);
        }
    }
}

/// Law: a bug whose damage is spent on soldiers of positive strength never
/// kills more people than its damage.
pub proof fn law_deaths_bounded_by_damage(
    before: Population,
    casualties: Population,
    damage: nat,
    strength: nat,
    after: Population,
    casualties_after: Population,
)
    requires
        before.attack_outcome(casualties, damage, strength, after, casualties_after),
        strength > 0,
    ensures
        before.spec_total() - after.spec_total() <= damage,
{
    let s0 = before.soldier as nat;
    let k = soldiers_killed(s0, damage, strength);
    let left = damage_after_soldiers(s0, damage, strength);
    law_attack_conserves_people(before, casualties, damage, strength, after, casualties_after);
    if damage > 0 {
        lemma_ceil_div(damage, strength);
        let q = ((damage + strength - 1) as int / strength as int) as nat;
        assert(k <= q);
        assert(k * strength <= q * strength) by (nonlinear_arith)
            requires
                k <= q,
        ;
        assert(k <= k * strength) by (nonlinear_arith)
            requires
                strength >= 1,
        ;
        if k * strength < damage {
            assert(left == damage - k * strength);
        } else {
            assert(left == 0);
            assert(k <= damage) by (nonlinear_arith)
                requires
                    strength >= 1,
                    k <= q,
                    (q - 1) * strength < damage,
            ;
        }
    }
}

/// Law: a successful dispatch removes exactly the expedition's members from
/// the fortress; a refused one changes nothing.
pub proof fn law_dispatch_removes_members(before: Population, members: u32, after: Population)
    requires
        before.idle >= members,
        after == (Population { idle: (before.idle - members) as u32, ..before }),
    ensures
        after.spec_total() == before.spec_total() - members,
{
}

} // verus!
