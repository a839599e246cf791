use vstd::prelude::*;

verus! {

/// Which resource warnings were given this night; each is given once.
#[derive(Clone, Copy, Debug, PartialEq, Eq, Structural)]
pub struct ResourcesWarnings {
    pub low_bullets: bool,
    pub no_bullets: bool,
    pub low_gasoline: bool,
    pub no_gasoline: bool,
}

/// How the resources stand at a moment of the night.
#[derive(Clone, Copy, Debug, PartialEq, Eq, Structural)]
pub struct ResourceLevels {
    /// Bullets are below two hundred per day survived.
    pub low_bullets: bool,
    /// Gasoline is below two hundred per day survived.
    pub low_gasoline: bool,
    /// Bullets are almost gone.
    pub no_bullets: bool,
    /// Gasoline is almost gone.
    pub no_gasoline: bool,
}

/// A message about the resources for the player.
#[derive(Clone, Copy, Debug, PartialEq, Eq, Structural)]
pub enum Warning {
    LowBullets,
    LowGasoline,
    NoBullets,
    NoGasoline,
}

pub open spec fn warn_if(c: bool, w: Warning) -> Seq<Warning> {
    if c {
        seq![w]
    } else {
        Seq::empty()
    }
}

impl ResourcesWarnings {
    /// No warning given yet.
    pub fn new() -> (w: ResourcesWarnings)
        ensures
            w == (ResourcesWarnings {
                low_bullets: false,
                no_bullets: false,
                low_gasoline: false,
                no_gasoline: false,
            }),
    {
        ResourcesWarnings { low_bullets: false, no_bullets: false, low_gasoline: false, no_gasoline: false }
    }

    /// The warnings that the levels call for and that were not given yet, in
    /// the order low bullets, low gasoline, no bullets, no gasoline; each
    /// one given is marked as given.
    pub fn check(&mut self, levels: ResourceLevels) -> (v: Vec<Warning>)
        ensures
            v@ == warn_if(levels.low_bullets && !old(self).low_bullets, Warning::LowBullets)
                + warn_if(levels.low_gasoline && !old(self).low_gasoline, Warning::LowGasoline)
                + warn_if(levels.no_bullets && !old(self).no_bullets, Warning::NoBullets)
                + warn_if(levels.no_gasoline && !old(self).no_gasoline, Warning::NoGasoline),
            final(self).low_bullets == (old(self).low_bullets || levels.low_bullets),
            final(self).low_gasoline == (old(self).low_gasoline || levels.low_gasoline),
            final(self).no_bullets == (old(self).no_bullets || levels.no_bullets),
            final(self).no_gasoline == (old(self).no_gasoline || levels.no_gasoline),
    {
        let mut v: Vec<Warning> = Vec::new();
        let ghost s0 = *self;
        if levels.low_bullets && !self.low_bullets {
            v.push(Warning::LowBullets);
            self.low_bullets = true;
        }
        let ghost v1 = v@;
        if levels.low_gasoline && !self.low_gasoline {
            v.push(Warning::LowGasoline);
            self.low_gasoline = true;
        }
        let ghost v2 = v@;
        if levels.no_bullets && !self.no_bullets {
            v.push(Warning::NoBullets);
            self.no_bullets = true;
        }
        let ghost v3 = v@;
        if levels.no_gasoline && !self.no_gasoline {
            v.push(Warning::NoGasoline);
            self.no_gasoline = true;
        }
        proof {
            assert(v1 =~= warn_if(levels.low_bullets && !s0.low_bullets, Warning::LowBullets));
            assert(v2 =~= v1 + warn_if(levels.low_gasoline && !s0.low_gasoline, Warning::LowGasoline));
            assert(v3 =~= v2 + warn_if(levels.no_bullets && !s0.no_bullets, Warning::NoBullets));
            assert(v@ =~= v3 + warn_if(levels.no_gasoline && !s0.no_gasoline, Warning::NoGasoline));
        }
        v
    }
}

/// Law: a warning is never given twice in a night: after a check, checking
/// the same levels again gives nothing.
pub proof fn law_warnings_given_once(w: ResourcesWarnings, levels: ResourceLevels)
    ensures
        ({
            let after = ResourcesWarnings {
                low_bullets: w.low_bullets || levels.low_bullets,
                low_gasoline: w.low_gasoline || levels.low_gasoline,
                no_bullets: w.no_bullets || levels.no_bullets,
                no_gasoline: w.no_gasoline || levels.no_gasoline,
            };
            warn_if(levels.low_bullets && !after.low_bullets, Warning::LowBullets) + warn_if(
                levels.low_gasoline && !after.low_gasoline,
                Warning::LowGasoline,
            ) + warn_if(levels.no_bullets && !after.no_bullets, Warning::NoBullets) + warn_if(
                levels.no_gasoline && !after.no_gasoline,
                Warning::NoGasoline,
            ) == Seq::<Warning>::empty()
        }),
{
    assert(Seq::<Warning>::empty() + Seq::<Warning>::empty() + Seq::<Warning>::empty() + Seq::<
        Warning,
    >::empty() =~= Seq::<Warning>::empty());
}

} // verus!
