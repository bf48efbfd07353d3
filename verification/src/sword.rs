//! Melee blades.
use crate::palette::Rgb;
use vstd::prelude::*;

verus! {

/// A melee blade. Damage is the sword's base; passive gem upgrades add on top.
#[derive(Clone, Copy)]
pub struct Sword {
    pub name: &'static str,
    pub quirk: &'static str,
    /// Index of the sword's icon among the sword images.
    pub icon: usize,
    /// Base damage per hit.
    pub damage: i32,
    /// How far the slash extends, in pixels.
    pub reach: u32,
    /// Half-angle of the swing cone, in milliradians.
    pub arc: u32,
    /// Time between swings, in milliseconds.
    pub cooldown: u64,
    /// Push applied to hit enemies, in pixels.
    pub knockback: u32,
    /// Hit points gained per kill.
    pub lifesteal: i32,
    /// Whether each swing also fires a ranged slash projectile.
    pub slash_wave: bool,
    /// Slash and accent tint.
    pub color: Rgb,
}

/// Number of swords in the game.
pub const SWORD_COUNT: usize = 6;

/// The sword with index `i`; index 0 is always the starter sword.
pub open spec fn sword_spec(i: int) -> Sword {
    if i == 0 {
        Sword {
            name: "Rusty Claw",
            quirk: "A trusty starter blade.",
            icon: 0,
            damage: 2,
            reach: 92,
            arc: 950,
            cooldown: 340,
            knockback: 80,
            lifesteal: 0,
            slash_wave: false,
            color: Rgb { r: 850, g: 850, b: 900 },
        }
    } else if i == 1 {
        Sword {
            name: "Tuna Slicer",
            quirk: "Fast, light, flurry of cuts.",
            icon: 1,
            damage: 2,
            reach: 84,
            arc: 800,
            cooldown: 160,
            knockback: 45,
            lifesteal: 0,
            slash_wave: false,
            color: Rgb { r: 550, g: 800, b: 950 },
        }
    } else if i == 2 {
        Sword {
            name: "Greatpurr",
            quirk: "Slow, huge arc, big knockback.",
            icon: 2,
            damage: 5,
            reach: 120,
            arc: 1500,
            cooldown: 600,
            knockback: 220,
            lifesteal: 0,
            slash_wave: false,
            color: Rgb { r: 850, g: 860, b: 920 },
        }
    } else if i == 3 {
        Sword {
            name: "Flaming Edge",
            quirk: "Searing strikes hit harder.",
            icon: 3,
            damage: 4,
            reach: 100,
            arc: 1000,
            cooldown: 320,
            knockback: 110,
            lifesteal: 0,
            slash_wave: false,
            color: Rgb { r: 1000, g: 550, b: 250 },
        }
    } else if i == 4 {
        Sword {
            name: "Nine Lives",
            quirk: "Heals 1 HP per kill.",
            icon: 4,
            damage: 3,
            reach: 96,
            arc: 1000,
            cooldown: 300,
            knockback: 90,
            lifesteal: 1,
            slash_wave: false,
            color: Rgb { r: 450, g: 950, b: 600 },
        }
    } else {
        Sword {
            name: "Wind Whisker",
            quirk: "Each swing flings a slash-wave.",
            icon: 5,
            damage: 3,
            reach: 100,
            arc: 1000,
            cooldown: 360,
            knockback: 100,
            lifesteal: 0,
            slash_wave: true,
            color: Rgb { r: 600, g: 950, b: 950 },
        }
    }
}

/// The sword with index `i`.
pub fn sword_at(i: usize) -> (s: Sword)
    requires
        i < SWORD_COUNT,
    ensures
        s == sword_spec(i as int),
        1 <= s.damage <= 5,
        0 <= s.lifesteal <= 1,
        s.icon == i,
        s.cooldown <= 600,
{
    if i == 0 {
        Sword {
            name: "Rusty Claw",
            quirk: "A trusty starter blade.",
            icon: 0,
            damage: 2,
            reach: 92,
            arc: 950,
            cooldown: 340,
            knockback: 80,
            lifesteal: 0,
            slash_wave: false,
            color: Rgb::new(850, 850, 900),
        }
    } else if i == 1 {
        Sword {
            name: "Tuna Slicer",
            quirk: "Fast, light, flurry of cuts.",
            icon: 1,
            damage: 2,
            reach: 84,
            arc: 800,
            cooldown: 160,
            knockback: 45,
            lifesteal: 0,
            slash_wave: false,
            color: Rgb::new(550, 800, 950),
        }
    } else if i == 2 {
        Sword {
            name: "Greatpurr",
            quirk: "Slow, huge arc, big knockback.",
            icon: 2,
            damage: 5,
            reach: 120,
            arc: 1500,
            cooldown: 600,
            knockback: 220,
            lifesteal: 0,
            slash_wave: false,
            color: Rgb::new(850, 860, 920),
        }
    } else if i == 3 {
        Sword {
            name: "Flaming Edge",
            quirk: "Searing strikes hit harder.",
            icon: 3,
            damage: 4,
            reach: 100,
            arc: 1000,
            cooldown: 320,
            knockback: 110,
            lifesteal: 0,
            slash_wave: false,
            color: Rgb::new(1000, 550, 250),
        }
    } else if i == 4 {
        Sword {
            name: "Nine Lives",
            quirk: "Heals 1 HP per kill.",
            icon: 4,
            damage: 3,
            reach: 96,
            arc: 1000,
            cooldown: 300,
            knockback: 90,
            lifesteal: 1,
            slash_wave: false,
            color: Rgb::new(450, 950, 600),
        }
    } else {
        Sword {
            name: "Wind Whisker",
            quirk: "Each swing flings a slash-wave.",
            icon: 5,
            damage: 3,
            reach: 100,
            arc: 1000,
            cooldown: 360,
            knockback: 100,
            lifesteal: 0,
            slash_wave: true,
            color: Rgb::new(600, 950, 950),
        }
    }
}

impl Sword {
    /// The starter sword: index 0.
    pub fn starter() -> (s: Sword)
        ensures
            s == sword_spec(0),
    {
        sword_at(0)
    }
}

} // verus!
