use crate::constants::SOLDIER_BASE_DAMAGE;
use std::collections::HashSet;
use vstd::prelude::*;

verus! {

/// The technologies that can be researched.
#[derive(Clone, Copy, Debug, PartialEq, Eq, Hash, Structural)]
pub enum TechnologyName {
    Spotlight,
    Electricity,
    Physics,
    Marines,
    Aimbot,
    Explosives,
    Homing,
    Charts,
    Productivity,
}

/// The groups in which the technologies are shown.
#[derive(Clone, Copy, Debug, PartialEq, Eq, Structural)]
pub enum TechnologyCategory {
    Science,
    Military,
    Economy,
}

/// A technology with its price (in technology points) and description.
#[derive(Clone, Copy, Debug, PartialEq, Eq)]
pub struct Technology {
    pub name: TechnologyName,
    pub price: u32,
    pub category: TechnologyCategory,
    pub description: &'static str,
}

/// Every technology, in the order in which they are shown.
pub open spec fn all_technology_names() -> Seq<TechnologyName> {
    seq![
        TechnologyName::Spotlight,
        TechnologyName::Electricity,
        TechnologyName::Physics,
        TechnologyName::Marines,
        TechnologyName::Aimbot,
        TechnologyName::Explosives,
        TechnologyName::Homing,
        TechnologyName::Charts,
        TechnologyName::Productivity,
    ]
}

/// Every category, in the order in which they are shown.
pub open spec fn all_categories() -> Seq<TechnologyCategory> {
    seq![TechnologyCategory::Science, TechnologyCategory::Military, TechnologyCategory::Economy]
}

/// The price of researching a technology.
pub open spec fn technology_price(name: TechnologyName) -> u32 {
    match name {
        TechnologyName::Spotlight => 600,
        TechnologyName::Electricity => 2400,
        TechnologyName::Physics => 5000,
        TechnologyName::Marines => 500,
        TechnologyName::Aimbot => 1000,
        TechnologyName::Explosives => 2500,
        TechnologyName::Homing => 5000,
        TechnologyName::Charts => 1500,
        TechnologyName::Productivity => 5000,
    }
}

/// The category a technology belongs to.
pub open spec fn technology_category(name: TechnologyName) -> TechnologyCategory {
    match name {
        TechnologyName::Spotlight | TechnologyName::Electricity | TechnologyName::Physics => {
            TechnologyCategory::Science
        },
        TechnologyName::Marines | TechnologyName::Aimbot | TechnologyName::Explosives
        | TechnologyName::Homing => TechnologyCategory::Military,
        TechnologyName::Charts | TechnologyName::Productivity => TechnologyCategory::Economy,
    }
}

/// What a technology does, as shown to the player.
pub open spec fn technology_description(name: TechnologyName) -> &'static str {
    match name {
        TechnologyName::Spotlight => "Enables the spotlight during the night. The spotlight increases the vision of the player, allowing weapons to shoot earlier. Using it costs gasoline.",
        TechnologyName::Electricity => "Enables the option to electrify the fence, doing damage to adjacent enemies.",
        TechnologyName::Physics => "Unlocks the nuke.",
        TechnologyName::Marines => "Doubles the strength of your soldiers.",
        TechnologyName::Aimbot => "Predict the movement of enemies, shooting at the position where an enemy is going to be when the bullet arrives. Not relevant for homing bullets.",
        TechnologyName::Explosives => "Unlocks mines and bombs.",
        TechnologyName::Homing => "Homing bullets are directed to a specific enemy and follow its movement.Unlocks homing weapons turret and missile launcher.",
        TechnologyName::Charts => "Enables sending expeditions. Expeditions cost gasoline, materials and population, but can yield interesting rewards after some days.",
        TechnologyName::Productivity => "Armorers, refiners and constructors produce 50% more resources.",
    }
}

impl TechnologyName {
    /// Every technology name, in the order in which they are shown.
    pub fn iter() -> (v: Vec<TechnologyName>)
        ensures
            v@ == all_technology_names(),
    {
        let v = vec![
            TechnologyName::Spotlight,
            TechnologyName::Electricity,
            TechnologyName::Physics,
            TechnologyName::Marines,
            TechnologyName::Aimbot,
            TechnologyName::Explosives,
            TechnologyName::Homing,
            TechnologyName::Charts,
            TechnologyName::Productivity,
        ];
        assert(v@ == all_technology_names());
        v
    }
}

impl TechnologyCategory {
    /// Every category, in the order in which they are shown.
    pub fn iter() -> (v: Vec<TechnologyCategory>)
        ensures
            v@ == all_categories(),
    {
        let v = vec![
            TechnologyCategory::Science,
            TechnologyCategory::Military,
            TechnologyCategory::Economy,
        ];
        assert(v@ == all_categories());
        v
    }
}

impl Technology {
    /// The technology of the given name.
    pub fn get(name: TechnologyName) -> (t: Technology)
        ensures
            t.name == name,
            t.price == technology_price(name),
            t.category == technology_category(name),
            t.description == technology_description(name),
    {
        match name {
            TechnologyName::Spotlight => Technology {
                name,
                price: 600,
                category: TechnologyCategory::Science,
                description: "Enables the spotlight during the night. The spotlight increases the vision of the player, allowing weapons to shoot earlier. Using it costs gasoline.",
            },
            TechnologyName::Electricity => Technology {
                name,
                price: 2400,
                category: TechnologyCategory::Science,
                description: "Enables the option to electrify the fence, doing damage to adjacent enemies.",
            },
            TechnologyName::Physics => Technology {
                name,
                price: 5000,
                category: TechnologyCategory::Science,
                description: "Unlocks the nuke.",
            },
            TechnologyName::Marines => Technology {
                name,
                price: 500,
                category: TechnologyCategory::Military,
                description: "Doubles the strength of your soldiers.",
            },
            TechnologyName::Aimbot => Technology {
                name,
                price: 1000,
                category: TechnologyCategory::Military,
                description: "Predict the movement of enemies, shooting at the position where an enemy is going to be when the bullet arrives. Not relevant for homing bullets.",
            },
            TechnologyName::Explosives => Technology {
                name,
                price: 2500,
                category: TechnologyCategory::Military,
                description: "Unlocks mines and bombs.",
            },
            TechnologyName::Homing => Technology {
                name,
                price: 5000,
                category: TechnologyCategory::Military,
                description: "Homing bullets are directed to a specific enemy and follow its movement.Unlocks homing weapons turret and missile launcher.",
            },
            TechnologyName::Charts => Technology {
                name,
                price: 1500,
                category: TechnologyCategory::Economy,
                description: "Enables sending expeditions. Expeditions cost gasoline, materials and population, but can yield interesting rewards after some days.",
            },
            TechnologyName::Productivity => Technology {
                name,
                price: 5000,
                category: TechnologyCategory::Economy,
                description: "Armorers, refiners and constructors produce 50% more resources.",
            },
        }
    }

    /// Every technology, in the order in which they are shown.
    pub fn iter() -> (v: Vec<Technology>)
        ensures
            v.len() == all_technology_names().len(),
            forall|i: int|
                0 <= i < v.len() ==> {
                    &&& (#[trigger] v[i]).name == all_technology_names()[i]
                    &&& v[i].price == technology_price(all_technology_names()[i])
                    &&& v[i].category == technology_category(all_technology_names()[i])
                    &&& v[i].description == technology_description(all_technology_names()[i])
                },
    {
        let names = TechnologyName::iter();
        let mut v: Vec<Technology> = Vec::new();
        let mut i: usize = 0;
        while i < names.len()
            invariant
                names@ == all_technology_names(),
                i <= names.len(),
                v.len() == i,
                forall|j: int|
                    0 <= j < i ==> {
                        &&& (#[trigger] v[j]).name == all_technology_names()[j]
                        &&& v[j].price == technology_price(all_technology_names()[j])
                        &&& v[j].category == technology_category(all_technology_names()[j])
                        &&& v[j].description == technology_description(all_technology_names()[j])
                    },
            decreases names.len() - i,
        {
            v.push(Technology::get(names[i]));
            i = i + 1;
        }
        v
    }
}

/// The damage a soldier absorbs given the researched technologies: doubled
/// by the marines technology.
pub open spec fn soldier_damage_of(researched: Set<TechnologyName>) -> nat {
    if researched.contains(TechnologyName::Marines) {
        2 * (SOLDIER_BASE_DAMAGE as nat)
    } else {
        SOLDIER_BASE_DAMAGE as nat
    }
}

/// The number under which a technology is kept in the set of researched
/// technologies: its place in the order in which they are shown.
pub open spec fn technology_code(name: TechnologyName) -> u8 {
    match name {
        TechnologyName::Spotlight => 0,
        TechnologyName::Electricity => 1,
        TechnologyName::Physics => 2,
        TechnologyName::Marines => 3,
        TechnologyName::Aimbot => 4,
        TechnologyName::Explosives => 5,
        TechnologyName::Homing => 6,
        TechnologyName::Charts => 7,
        TechnologyName::Productivity => 8,
    }
}

/// Different technologies are kept under different numbers.
proof fn lemma_code_injective(a: TechnologyName, b: TechnologyName)
    ensures
        technology_code(a) == technology_code(b) ==> a == b,
{
}

impl TechnologyName {
    /// The number under which the technology is kept (see `technology_code`).
    fn code(self) -> (c: u8)
        ensures
            c == technology_code(self),
    {
        match self {
            TechnologyName::Spotlight => 0,
            TechnologyName::Electricity => 1,
            TechnologyName::Physics => 2,
            TechnologyName::Marines => 3,
            TechnologyName::Aimbot => 4,
            TechnologyName::Explosives => 5,
            TechnologyName::Homing => 6,
            TechnologyName::Charts => 7,
            TechnologyName::Productivity => 8,
        }
    }
}

/// The technologies researched so far, kept in a hash set by their numbers.
#[derive(Debug)]
pub struct Technologies {
    researched: HashSet<u8>,
}

impl Clone for Technologies {
    fn clone(&self) -> (c: Self)
        ensures
            c.view() == self.view(),
    {
        let names = self.list();
        let mut c = Technologies::new();
        let mut i: usize = 0;
        while i < names.len()
            invariant
                i <= names.len(),
                names@.to_set() == self.view(),
                c.view() == names@.take(i as int).to_set(),
            decreases names.len() - i,
        {
            c.research(names[i], true);
            proof {
                lemma_take_push_to_set(names@, i as int);
            }
            i = i + 1;
        }
        assert(names@.take(names.len() as int) =~= names@);
        c
    }
}

/// Taking one more element of a sequence adds that element to its set.
proof fn lemma_take_push_to_set(s: Seq<TechnologyName>, i: int)
    requires
        0 <= i < s.len(),
    ensures
        s.take(i + 1).to_set() == s.take(i).to_set().insert(s[i]),
{
    assert(s.take(i + 1) =~= s.take(i).push(s[i]));
    assert(s.take(i + 1).to_set() =~= s.take(i).to_set().insert(s[i])) by {
        assert forall|x: TechnologyName|
            s.take(i + 1).to_set().contains(x) == s.take(i).to_set().insert(s[i]).contains(x) by {
            if s.take(i + 1).contains(x) {
                let k = choose|k: int| 0 <= k < i + 1 && #[trigger] s.take(i + 1)[k] == x;
                if k < i {
                    assert(s.take(i)[k] == x);
                }
            }
            if s.take(i).contains(x) {
                let k = choose|k: int| 0 <= k < i && #[trigger] s.take(i)[k] == x;
                assert(s.take(i + 1)[k] == x);
            }
            if x == s[i] {
                assert(s.take(i + 1)[i] == x);
            }
        }
    }
}

impl Technologies {
    /// The set of researched technologies.
    pub closed spec fn view(&self) -> Set<TechnologyName> {
        Set::new(|t: TechnologyName| self.researched@.contains(technology_code(t)))
    }

    /// Nothing researched yet.
    pub fn new() -> (t: Technologies)
        ensures
            t.view() == Set::<TechnologyName>::empty(),
    {
        let t = Technologies { researched: HashSet::new() };
        assert(t.view() =~= Set::<TechnologyName>::empty());
        t
    }

    /// Whether a technology has been researched.
    pub fn has_tech(&self, tech: TechnologyName) -> (r: bool)
        ensures
            r == self.view().contains(tech),
    {
        broadcast use vstd::std_specs::hash::group_hash_axioms;

        let code = tech.code();
        self.researched.contains(&code)
    }

    /// Researches a technology when its price can be paid (`affordable`).
    /// Returns whether the technology was researched; nothing else changes.
    pub fn research(&mut self, tech: TechnologyName, affordable: bool) -> (r: bool)
        ensures
            r == affordable,
            affordable ==> final(self).view() == old(self).view().insert(tech),
            !affordable ==> final(self).view() == old(self).view(),
    {
        broadcast use vstd::std_specs::hash::group_hash_axioms;

        if !affordable {
            return false;
        }
        let ghost before = self.view();
        self.researched.insert(tech.code());
        assert(self.view() =~= before.insert(tech)) by {
            assert forall|x: TechnologyName| self.view().contains(x) == before.insert(tech).contains(
                x,
            ) by {
                lemma_code_injective(x, tech);
            }
        }
        true
    }

    /// The technologies of a list, such as one loaded from a saved game.
    pub fn from_list(list: &Vec<TechnologyName>) -> (t: Technologies)
        ensures
            t.view() == list@.to_set(),
    {
        let mut t = Technologies::new();
        let mut i: usize = 0;
        while i < list.len()
            invariant
                i <= list.len(),
                t.view() == list@.take(i as int).to_set(),
            decreases list.len() - i,
        {
            t.research(list[i], true);
            proof {
                lemma_take_push_to_set(list@, i as int);
            }
            i = i + 1;
        }
        assert(list@.take(list.len() as int) =~= list@);
        t
    }

    /// The researched technologies, in the order in which they are shown.
    pub fn list(&self) -> (v: Vec<TechnologyName>)
        ensures
            v@ == all_technology_names().filter(|t: TechnologyName| self.view().contains(t)),
            v@.to_set() == self.view(),
            v@.no_duplicates(),
    {
        let names = TechnologyName::iter();
        let ghost pred = |t: TechnologyName| self.view().contains(t);
        let mut v: Vec<TechnologyName> = Vec::new();
        let mut i: usize = 0;
        while i < names.len()
            invariant
                names@ == all_technology_names(),
                i <= names.len(),
                pred == (|t: TechnologyName| self.view().contains(t)),
                v@ == names@.take(i as int).filter(pred),
            decreases names.len() - i,
        {
            let name = names[i];
            proof {
                assert(names@.take(i as int + 1) =~= names@.take(i as int).push(name));
                names@.take(i as int).lemma_filter_push(name, pred);
            }
            if self.has_tech(name) {
                v.push(name);
            }
            i = i + 1;
        }
        assert(names@.take(names.len() as int) =~= names@);
        proof {
            lemma_shown_order_complete(self.view(), v@);
        }
        v
    }

    /// How much damage one soldier absorbs: doubled by the marines technology.
    pub fn get_soldier_damage(&self) -> (d: u32)
        ensures
            d == soldier_damage_of(self.view()),
    {
        if self.has_tech(TechnologyName::Marines) {
            2 * SOLDIER_BASE_DAMAGE
        } else {
            SOLDIER_BASE_DAMAGE
        }
    }
}

/// Keeping some elements of a sequence without repeats gives no repeats.
proof fn lemma_filter_keeps_distinct(s: Seq<TechnologyName>, pred: spec_fn(TechnologyName) -> bool)
    requires
        s.no_duplicates(),
    ensures
        s.filter(pred).no_duplicates(),
    decreases s.len(),
{
    reveal(Seq::filter);
    if s.len() > 0 {
        let init = s.drop_last();
        assert(init.no_duplicates());
        lemma_filter_keeps_distinct(init, pred);
        if pred(s.last()) {
            if init.filter(pred).contains(s.last()) {
                init.lemma_filter_contains_rev(pred, s.last());
                let k = choose|k: int| 0 <= k < init.len() && init[k] == s.last();
                assert(s[k] == s[s.len() - 1]);
            }
            let f = init.filter(pred);
            assert forall|i: int, j: int|
                0 <= i < f.push(s.last()).len() && 0 <= j < f.push(s.last()).len() && i != j
                implies f.push(s.last())[i] != f.push(s.last())[j] by {
                if i == f.len() {
                    assert(!f.contains(s.last()));
                    assert(f[j] == f.push(s.last())[j]);
                } else if j == f.len() {
                    assert(!f.contains(s.last()));
                    assert(f[i] == f.push(s.last())[i]);
                }
            }
        }
    }
}

/// The researched technologies taken in the order in which they are shown
/// hold each researched technology once.
proof fn lemma_shown_order_complete(researched: Set<TechnologyName>, v: Seq<TechnologyName>)
    requires
        v == all_technology_names().filter(|t: TechnologyName| researched.contains(t)),
    ensures
        v.to_set() == researched,
        v.no_duplicates(),
{
    let all = all_technology_names();
    let pred = |t: TechnologyName| researched.contains(t);
    assert forall|x: TechnologyName| v.contains(x) == researched.contains(x) by {
        if v.contains(x) {
            let k = choose|k: int| 0 <= k < v.len() && v[k] == x;
            all.lemma_filter_pred(pred, k);
        }
        if researched.contains(x) {
            let k: int = match x {
                TechnologyName::Spotlight => 0,
                TechnologyName::Electricity => 1,
                TechnologyName::Physics => 2,
                TechnologyName::Marines => 3,
                TechnologyName::Aimbot => 4,
                TechnologyName::Explosives => 5,
                TechnologyName::Homing => 6,
                TechnologyName::Charts => 7,
                TechnologyName::Productivity => 8,
            };
            assert(all[k] == x);
            all.lemma_filter_contains(pred, k);
        }
    }
    assert(v.to_set() =~= researched);
    assert(all.no_duplicates());
    lemma_filter_keeps_distinct(all, pred);
}

/// Law: research only adds. What was researched stays researched, the new
/// technology is researched afterwards, and researching it again changes
/// nothing.
pub proof fn law_research_only_adds(before: Set<TechnologyName>, tech: TechnologyName)
    ensures
        before.subset_of(before.insert(tech)),
        before.insert(tech).contains(tech),
        before.insert(tech).insert(tech) == before.insert(tech),
{
    assert(before.insert(tech).insert(tech) =~= before.insert(tech));
}

/// Law: the marines technology doubles the strength of the soldiers.
pub proof fn law_marines_double_soldiers(researched: Set<TechnologyName>)
    ensures
        soldier_damage_of(researched.insert(TechnologyName::Marines)) == 2 * soldier_damage_of(
            researched.remove(TechnologyName::Marines),
        ),
{
}

} // verus!
