use bevy::utils::hashbrown::HashMap;
use vstd::prelude::*;

verus! {

/// How many enemies of one kind were spawned and killed during a night.
#[derive(Clone, Copy, Debug, PartialEq, Eq, Structural)]
pub struct EnemyStatus {
    pub spawned: u32,
    pub killed: u32,
}

/// A hashbrown map from enemy names to their status. Its allocator parameter
/// is bounded by a trait that this crate cannot name, so the map is held in a
/// private field here and reached only through the functions below.
#[verifier::external_body]
#[derive(Debug)]
pub struct StatusMap {
    map: HashMap<String, EnemyStatus>,
}

/// What a status map holds: the status of each enemy name in it.
pub uninterp spec fn status_map_contents(m: StatusMap) -> Map<Seq<char>, EnemyStatus>;

/// No enemy name at all.
pub open spec fn no_statuses() -> Map<Seq<char>, EnemyStatus> {
    Map::empty()
}

/// `HashMap::new` of hashbrown: a map that holds nothing.
#[verifier::external_body]
fn status_map_new() -> (fresh: StatusMap)
    ensures
        status_map_contents(fresh) == no_statuses(),
{
    StatusMap { map: HashMap::new() }
}

/// `HashMap::get` of hashbrown: the status stored under a name equal to
/// `name`, if there is one.
#[verifier::external_body]
fn status_map_get(m: &StatusMap, name: &String) -> (r: Option<EnemyStatus>)
    ensures
        r == (if status_map_contents(*m).dom().contains(name@) {
            Some(status_map_contents(*m)[name@])
        } else {
            None::<EnemyStatus>
        }),
{
    m.map.get(name).copied()
}

/// `HashMap::insert` of hashbrown: stores `status` under `name`, replacing
/// the status stored under an equal name; every other entry stays. The old
/// status that `insert` hands back is dropped.
#[verifier::external_body]
fn status_map_insert(m: &mut StatusMap, name: String, status: EnemyStatus)
    ensures
        status_map_contents(*final(m)) == status_map_contents(*old(m)).insert(name@, status),
{
    m.map.insert(name, status);
}

/// `HashMap::iter` of hashbrown, each entry copied out: every entry exactly
/// once. The order is that of the map's buckets, which depends on the
/// process's random hash seed, and is not stated.
#[verifier::external_body]
fn status_map_entries(m: &StatusMap) -> (v: Vec<(String, EnemyStatus)>)
    ensures
        v.len() == status_map_contents(*m).dom().len(),
        forall|i: int, j: int| 0 <= i < j < v.len() ==> v[i].0@ != v[j].0@,
        forall|k: Seq<char>|
            #![trigger status_map_contents(*m).dom().contains(k)]
            status_map_contents(*m).dom().contains(k) ==> exists|i: int|
                0 <= i < v.len() && (#[trigger] v[i]).0@ == k,
        forall|i: int|
            0 <= i < v.len() ==> status_map_contents(*m).dom().contains((#[trigger] v[i]).0@)
                && status_map_contents(*m)[v[i].0@] == v[i].1,
{
    m.map.iter().map(|(name, status)| (name.clone(), *status)).collect()
}

/// `Clone` of hashbrown's `HashMap`: a map with the same entries.
#[verifier::external_body]
fn status_map_clone(m: &StatusMap) -> (c: StatusMap)
    ensures
        status_map_contents(c) == status_map_contents(*m),
{
    StatusMap { map: m.map.clone() }
}

/// The night's count of spawned and killed enemies, by enemy name.
#[derive(Debug)]
pub struct EnemyTally {
    statuses: StatusMap,
}

/// Names are told apart by their characters.
pub open spec fn unique_names(entries: Seq<(String, EnemyStatus)>) -> bool {
    forall|i: int, j: int| 0 <= i < j < entries.len() ==> entries[i].0@ != entries[j].0@
}

impl Clone for EnemyTally {
    fn clone(&self) -> (c: Self)
        ensures
            c.view() == self.view(),
    {
        EnemyTally { statuses: status_map_clone(&self.statuses) }
    }
}

impl EnemyTally {
    /// The status of every enemy name seen this night.
    pub closed spec fn view(&self) -> Map<Seq<char>, EnemyStatus> {
        status_map_contents(self.statuses)
    }

    /// No enemy seen yet.
    pub fn new() -> (t: EnemyTally)
        ensures
            t.view() == Map::<Seq<char>, EnemyStatus>::empty(),
    {
        EnemyTally { statuses: status_map_new() }
    }

    /// The status of an enemy name, if it was seen this night.
    pub fn get(&self, name: &String) -> (r: Option<EnemyStatus>)
        ensures
            r == (if self.view().dom().contains(name@) {
                Some(self.view()[name@])
            } else {
                None::<EnemyStatus>
            }),
    {
        status_map_get(&self.statuses, name)
    }

    /// An enemy of this name was spawned: its count goes up by one, starting
    /// from one spawned and none killed for a name not seen before.
    pub fn record_spawn(&mut self, name: &String)
        requires
            old(self).view().dom().contains(name@) ==> old(self).view()[name@].spawned < u32::MAX,
        ensures
            final(self).view() == old(self).view().insert(
                name@,
                if old(self).view().dom().contains(name@) {
                    EnemyStatus {
                        spawned: (old(self).view()[name@].spawned + 1) as u32,
                        killed: old(self).view()[name@].killed,
                    }
                } else {
                    EnemyStatus { spawned: 1, killed: 0 }
                },
            ),
    {
        let status = match status_map_get(&self.statuses, name) {
            Some(s) => EnemyStatus { spawned: s.spawned + 1, killed: s.killed },
            None => EnemyStatus { spawned: 1, killed: 0 },
        };
        status_map_insert(&mut self.statuses, name.clone(), status);
    }

    /// An enemy of this name was killed: its kill count goes up by one when
    /// the name was seen this night; otherwise nothing changes.
    pub fn record_kill(&mut self, name: &String)
        requires
            old(self).view().dom().contains(name@) ==> old(self).view()[name@].killed < u32::MAX,
        ensures
            old(self).view().dom().contains(name@) ==> final(self).view() == old(
                self,
            ).view().insert(
                name@,
                EnemyStatus {
                    spawned: old(self).view()[name@].spawned,
                    killed: (old(self).view()[name@].killed + 1) as u32,
                },
            ),
            !old(self).view().dom().contains(name@) ==> final(self).view() == old(self).view(),
    {
        match status_map_get(&self.statuses, name) {
            Some(s) => {
                let status = EnemyStatus { spawned: s.spawned, killed: s.killed + 1 };
                status_map_insert(&mut self.statuses, name.clone(), status);
            },
            None => {},
        }
    }

    /// Sets the status of an enemy name, as when restoring a saved night.
    pub fn insert(&mut self, name: &String, status: EnemyStatus)
        ensures
            final(self).view() == old(self).view().insert(name@, status),
    {
        status_map_insert(&mut self.statuses, name.clone(), status);
    }

    /// Every enemy name seen this night with its status, each name exactly
    /// once, in no stated order.
    pub fn entries(&self) -> (v: Vec<(String, EnemyStatus)>)
        ensures
            v.len() == self.view().dom().len(),
            unique_names(v@),
            forall|k: Seq<char>|
                #![trigger self.view().dom().contains(k)]
                self.view().dom().contains(k) ==> exists|i: int|
                    0 <= i < v.len() && (#[trigger] v[i]).0@ == k,
            forall|i: int|
                0 <= i < v.len() ==> self.view().dom().contains((#[trigger] v[i]).0@)
                    && self.view()[v[i].0@] == v[i].1,
    {
        status_map_entries(&self.statuses)
    }
}

} // verus!
