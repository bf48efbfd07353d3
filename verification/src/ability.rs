//! Active skills the player triggers with a key.
use crate::palette::Rgb;
use crate::timer::Cooldown;
use vstd::prelude::*;

verus! {

/// Active skills the player triggers with a key. Dash is the starter; the rest
/// are found in rooms and slotted onto the second and third keys.
#[derive(Clone, Copy, PartialEq, Eq, Structural, Debug, Hash)]
pub enum Ability {
    Dash,
    Whirlwind,
    WarCry,
    Hairball,
    SecondWind,
    /// Three times the speed for 2 s, leaving an afterimage trail.
    Zoomies,
    /// Charms nearby enemies for 3 s.
    Purr,
    /// Heals 2 hit points over 3 s, during which the cat cannot move.
    CatNap,
}

/// How long Zoomies lasts, in milliseconds.
pub const ZOOMIES_MS: u64 = 2000;

/// How long a Cat Nap lasts, in milliseconds.
pub const CAT_NAP_MS: u64 = 3000;

/// Hit points a whole Cat Nap heals.
pub const CAT_NAP_HEAL: u32 = 2;

/// The display name of an ability.
pub open spec fn ability_name(a: Ability) -> Seq<char> {
    match a {
        Ability::Dash => "Dash"@,
        Ability::Whirlwind => "Whirlwind"@,
        Ability::WarCry => "War Cry"@,
        Ability::Hairball => "Hairball"@,
        Ability::SecondWind => "Second Wind"@,
        Ability::Zoomies => "Zoomies"@,
        Ability::Purr => "Purr"@,
        Ability::CatNap => "Cat Nap"@,
    }
}

/// The time between two uses of an ability, in milliseconds.
pub open spec fn ability_cooldown_ms(a: Ability) -> u64 {
    match a {
        Ability::Dash => 1100,
        Ability::Whirlwind => 3000,
        Ability::WarCry => 5000,
        Ability::Hairball => 2200,
        Ability::SecondWind => 14000,
        Ability::Zoomies => 12000,
        Ability::Purr => 8000,
        Ability::CatNap => 20000,
    }
}

/// The accent colour of an ability.
pub open spec fn ability_color(a: Ability) -> Rgb {
    match a {
        Ability::Dash => Rgb { r: 500, g: 900, b: 1000 },
        Ability::Whirlwind => Rgb { r: 850, g: 950, b: 1000 },
        Ability::WarCry => Rgb { r: 1000, g: 650, b: 300 },
        Ability::Hairball => Rgb { r: 850, g: 700, b: 500 },
        Ability::SecondWind => Rgb { r: 500, g: 950, b: 600 },
        Ability::Zoomies => Rgb { r: 900, g: 600, b: 1000 },
        Ability::Purr => Rgb { r: 1000, g: 700, b: 800 },
        Ability::CatNap => Rgb { r: 600, g: 800, b: 1000 },
    }
}

impl Ability {
    /// The display name.
    pub fn name(self) -> (s: &'static str)
        ensures
            s@ == ability_name(self),
    {
        match self {
            Ability::Dash => "Dash",
            Ability::Whirlwind => "Whirlwind",
            Ability::WarCry => "War Cry",
            Ability::Hairball => "Hairball",
            Ability::SecondWind => "Second Wind",
            Ability::Zoomies => "Zoomies",
            Ability::Purr => "Purr",
            Ability::CatNap => "Cat Nap",
        }
    }

    /// The cooldown, in milliseconds.
    pub fn cooldown(self) -> (ms: u64)
        ensures
            ms == ability_cooldown_ms(self),
            0 < ms <= 20000,
    {
        match self {
            Ability::Dash => 1100,
            Ability::Whirlwind => 3000,
            Ability::WarCry => 5000,
            Ability::Hairball => 2200,
            Ability::SecondWind => 14000,
            Ability::Zoomies => 12000,
            Ability::Purr => 8000,
            Ability::CatNap => 20000,
        }
    }

    /// The accent colour.
    pub fn color(self) -> (c: Rgb)
        ensures
            c == ability_color(self),
            c.valid(),
    {
        match self {
            Ability::Dash => Rgb::new(500, 900, 1000),
            Ability::Whirlwind => Rgb::new(850, 950, 1000),
            Ability::WarCry => Rgb::new(1000, 650, 300),
            Ability::Hairball => Rgb::new(850, 700, 500),
            Ability::SecondWind => Rgb::new(500, 950, 600),
            Ability::Zoomies => Rgb::new(900, 600, 1000),
            Ability::Purr => Rgb::new(1000, 700, 800),
            Ability::CatNap => Rgb::new(600, 800, 1000),
        }
    }
}

/// One equipped ability plus its cooldown timer.
pub struct AbilitySlot {
    pub ability: Ability,
    pub cd: Cooldown,
}

/// A slot holding `a`, ready to use.
pub open spec fn ready_slot(a: Ability) -> AbilitySlot {
    AbilitySlot { ability: a, cd: Cooldown::spent(ability_cooldown_ms(a) as nat) }
}

impl AbilitySlot {
    /// A slot holding `ability`, ready to use at once.
    pub fn new(ability: Ability) -> (s: AbilitySlot)
        ensures
            s == ready_slot(ability),
            s.ability == ability,
            s.cd.duration() == ability_cooldown_ms(ability) * 1_000_000,
            s.cd.done(),
            s.cd.elapsed() == s.cd.duration(),
    {
        AbilitySlot { ability, cd: Cooldown::ready(ability.cooldown()) }
    }
}

/// Number of ability slots (and of ability keys).
pub const ABILITY_SLOTS: usize = 3;

/// Labels of the keys bound to ability slots 0, 1 and 2.
pub const ABILITY_KEY_LABELS: [&'static str; 3] = ["Space", "Q", "F"];

/// Abilities that can drop in rooms (Dash is granted at the start instead).
pub const FOUND_ABILITIES: [Ability; 7] = [
    Ability::Whirlwind,
    Ability::WarCry,
    Ability::Hairball,
    Ability::SecondWind,
    Ability::Zoomies,
    Ability::Purr,
    Ability::CatNap,
];

/// The ability found with draw `index` (the abilities other than Dash, in order).
pub open spec fn found_ability(index: int) -> Ability {
    if index == 0 {
        Ability::Whirlwind
    } else if index == 1 {
        Ability::WarCry
    } else if index == 2 {
        Ability::Hairball
    } else if index == 3 {
        Ability::SecondWind
    } else if index == 4 {
        Ability::Zoomies
    } else if index == 5 {
        Ability::Purr
    } else {
        Ability::CatNap
    }
}

/// The ability found with draw `index`, for `index < 7`.
pub fn found_ability_at(index: usize) -> (a: Ability)
    requires
        index < 7,
    ensures
        a == found_ability(index as int),
        a != Ability::Dash,
{
    FOUND_ABILITIES[index]
}

} // verus!
