use vstd::prelude::*;

verus! {

/// The kinds of fish that live in the tank.
#[derive(Clone, Copy, PartialEq, Eq, Debug, Structural)]
pub enum Species {
    Neon,
    Goldfish,
    Guppy,
    Piranha,
    Angelfish,
    Betta,
    Octopus,
    Whale,
}

/// Life stage of a fish.
#[derive(Clone, Copy, PartialEq, Eq, Debug, Structural)]
pub enum Stage {
    Fry,
    Adult,
}

/// The five common species, in the order used by the spawn toggles.
pub open spec fn spec_common_species() -> Seq<Species> {
    seq![Species::Neon, Species::Goldfish, Species::Guppy, Species::Angelfish, Species::Betta]
}

/// Predators hunt other fish: piranhas and octopuses.
pub open spec fn spec_is_predator(sp: Species) -> bool {
    sp == Species::Piranha || sp == Species::Octopus
}

/// Display name of each species.
pub open spec fn spec_species_name(sp: Species) -> Seq<char> {
    match sp {
        Species::Neon => "ネオン"@,
        Species::Goldfish => "金魚"@,
        Species::Guppy => "グッピー"@,
        Species::Piranha => "ピラニア"@,
        Species::Angelfish => "エンゼルフィッシュ"@,
        Species::Betta => "ベタ"@,
        Species::Octopus => "タコ"@,
        Species::Whale => "クジラ"@,
    }
}

impl Species {
    /// Whether this species hunts other fish.
    pub fn is_predator(&self) -> (r: bool)
        ensures
            r == spec_is_predator(*self),
    {
        match self {
            Species::Piranha => true,
            Species::Octopus => true,
            _ => false,
        }
    }
}

/// The five common species, in toggle order.
pub fn common_species() -> (r: Vec<Species>)
    ensures
        r@ == spec_common_species(),
{
    let r = vec![Species::Neon, Species::Goldfish, Species::Guppy, Species::Angelfish, Species::Betta];
    assert(r@ =~= spec_common_species());
    r
}

/// Display name of a species.
pub fn species_name(sp: Species) -> (r: &'static str)
    ensures
        r@ == spec_species_name(sp),
{
    match sp {
        Species::Neon => "ネオン",
        Species::Goldfish => "金魚",
        Species::Guppy => "グッピー",
        Species::Piranha => "ピラニア",
        Species::Angelfish => "エンゼルフィッシュ",
        Species::Betta => "ベタ",
        Species::Octopus => "タコ",
        Species::Whale => "クジラ",
    }
}


/// The common species are five distinct species, none of them a predator or a
/// whale; the predators are exactly the piranha and the octopus.
pub proof fn law_common_species_are_harmless_and_distinct(sp: Species)
    ensures
        spec_common_species().len() == 5,
        spec_common_species().no_duplicates(),
        spec_common_species().contains(sp) <==> (!spec_is_predator(sp) && sp != Species::Whale),
        spec_is_predator(sp) <==> (sp == Species::Piranha || sp == Species::Octopus),
{
    let c = spec_common_species();
    if !spec_is_predator(sp) && sp != Species::Whale {
        if sp == Species::Neon { assert(c[0] == sp); }
        else if sp == Species::Goldfish { assert(c[1] == sp); }
        else if sp == Species::Guppy { assert(c[2] == sp); }
        else if sp == Species::Angelfish { assert(c[3] == sp); }
        else { assert(c[4] == sp); }
    }
}

} // verus!
