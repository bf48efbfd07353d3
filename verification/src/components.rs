//! The kinds and records that gameplay entities carry.
use crate::ability::Ability;
use crate::timer::Cooldown;
use vstd::prelude::*;

verus! {

/// Behaviour phases shared by all enemies.
#[derive(Clone, Copy, PartialEq, Eq, Structural, Debug)]
pub enum EnemyState {
    Chase,
    Windup,
    Charge,
    Recover,
}

/// All enemy types in the game.
#[derive(Clone, Copy, PartialEq, Eq, Structural, Debug, Hash)]
pub enum EnemyKind {
    Hunter,
    Bruiser,
    Seeker,
    Boss,
    Charger,
    Bomber,
    Kitten,
    Splitter,
    Caster,
    Summoner,
    Scratcher,
    Chonker,
    ShadowCat,
    /// Revives corpses as weaker enemies.
    NecromancerCat,
    /// Frontal shield, must be flanked.
    ShieldBearer,
    /// Ignores obstacles.
    FlyingCat,
    /// Disguises as a pickup and ambushes the player.
    MimicChest,
    /// Grows when hit.
    Goliath,
}

/// Boss type: decides special behaviours and phase transitions.
#[derive(Clone, Copy, PartialEq, Eq, Structural, Debug)]
pub enum BossType {
    GoblinKing,
    Necromancer,
    Dragon,
}

/// Tracks a boss's phase for transitions driven by its hit points.
#[derive(Clone, Copy, PartialEq, Eq, Structural, Debug)]
pub struct BossPhases {
    pub boss_type: BossType,
    pub current_phase: u8,
}

/// Enemy synergy behaviours that help nearby allies.
#[derive(Clone, Copy, PartialEq, Eq, Structural, Debug)]
pub enum SynergyKind {
    Healer,
    Pack,
    Commander,
}

/// Who fired a projectile.
#[derive(Clone, Copy, PartialEq, Eq, Structural, Debug)]
pub enum ProjectileOwner {
    Player,
    Enemy,
}

/// An item the player can collect.
#[derive(Clone, Copy, PartialEq, Eq, Structural, Debug)]
pub enum PickupKind {
    Heal(i32),
    DamageUp(i32),
    SpeedUp(i32),
    MaxHpUp(i32),
    SwordDrop(usize),
    AbilityDrop(Ability),
}

/// What a shop sells.
#[derive(Clone, Copy, PartialEq, Eq, Structural, Debug)]
pub enum ShopItemKind {
    HealFull,
    DamageUp(i32),
    SpeedUp(i32),
    MaxHpUp(i32),
    Sword(usize),
    Ability(Ability),
    Reroll,
}

/// One item on sale.
#[derive(Clone, Copy, PartialEq, Eq, Structural, Debug)]
pub struct ShopItem {
    pub kind: ShopItemKind,
    pub cost: u32,
    pub purchased: bool,
}

/// A shop item entity that can be purchased.
#[derive(Clone, Copy, PartialEq, Eq, Structural, Debug)]
pub struct ShopItemMarker {
    pub kind: ShopItemKind,
    pub cost: u32,
}

/// Shop room state with purchasable items.
pub struct ShopRoom {
    pub items: Vec<ShopItem>,
}

/// Main enemy record: kind, stats and the state of its behaviour.
pub struct Enemy {
    pub kind: EnemyKind,
    pub hp: i32,
    pub max_hp: i32,
    pub damage: i32,
    /// Movement speed, in pixels per second.
    pub speed: u64,
    pub elite: bool,
    pub splits: bool,
    pub explodes: bool,
    /// Generic counter: summons remaining, projectiles per volley, etc.
    pub ammo: i32,
    pub state: EnemyState,
    /// Counts down the current state; the state changes when it finishes.
    pub state_timer: Cooldown,
    /// Gates how soon the next windup, charge or cast can begin.
    pub action_cd: Cooldown,
    /// Whether a telegraph has been shown for the current windup.
    pub has_telegraph: bool,
    /// Runs while the enemy is charmed: it neither attacks nor hurts.
    pub charm: Cooldown,
    /// A mimic still disguised as a pickup: it lies in wait until the
    /// player comes near.
    pub disguised: bool,
    /// Size, in thousandths of the usual size.
    pub scale: u32,
}

/// How long a purr charms an enemy, in milliseconds.
pub const CHARM_MS: u64 = 3000;

/// Whether `e` is charmed.
pub open spec fn charmed(e: Enemy) -> bool {
    !e.charm.done()
}

/// Whether `e` does nothing this frame: it is charmed, or a mimic still in
/// disguise.
pub open spec fn dormant(e: Enemy) -> bool {
    charmed(e) || e.disguised
}

/// How close the player must come to wake a disguised mimic, in pixels.
pub const MIMIC_TRIGGER_RANGE: u32 = 50;

/// How much a goliath grows per hit, in thousandths of its usual size.
pub const GOLIATH_GROWTH_PER_HIT: u32 = 150;

/// The largest a goliath grows, in thousandths of its usual size.
pub const GOLIATH_MAX_SCALE: u32 = 2500;

/// Half the angle of a shield bearer's shield cone, in milliradians.
pub const SHIELD_HALF_CONE_MRAD: u32 = 600;

/// How close a corpse must lie to a necromancer cat to be revived, in pixels.
pub const REVIVE_RANGE: u32 = 120;

/// The pause between two revivals by a necromancer cat, in milliseconds.
pub const REVIVE_PAUSE_MS: u64 = 4000;

/// How many corpses a necromancer cat may revive in all.
pub const MAX_REVIVES: u32 = 2;

/// A necromancer cat's power over the dead: how many more corpses it may
/// revive, and the pause before the next revival.
pub struct Reviver {
    pub revives_left: u32,
    pub timer: Cooldown,
}

impl Reviver {
    /// A necromancer cat's power at its spawn: two revivals, the first
    /// after a pause of 4 s.
    pub fn new() -> (r: Reviver)
        ensures
            r.revives_left == MAX_REVIVES,
            r.timer == Cooldown::fresh(REVIVE_PAUSE_MS as nat),
    {
        Reviver { revives_left: MAX_REVIVES, timer: Cooldown::from_millis(REVIVE_PAUSE_MS) }
    }

    /// Lets `delta_ns` pass and revives a corpse if one lies in range, the
    /// pause is over and revivals are left: one revival is used up and the
    /// pause starts over. Returns whether a corpse is revived.
    pub fn try_revive(&mut self, delta_ns: u64, corpse_in_range: bool) -> (revived: bool)
        ensures
            revived == (old(self).timer.ticked(delta_ns as nat).done() && old(self).revives_left > 0
                && corpse_in_range),
            revived ==> *final(self) == (Reviver {
                revives_left: (old(self).revives_left - 1) as u32,
                timer: old(self).timer.ticked(delta_ns as nat).restarted(),
            }),
            !revived ==> *final(self) == (Reviver { timer: old(self).timer.ticked(delta_ns as nat), ..*old(self) }),
    {
        self.timer.tick(delta_ns);
        if self.timer.is_finished() && self.revives_left > 0 && corpse_in_range {
            self.revives_left = self.revives_left - 1;
            self.timer.reset();
            true
        } else {
            false
        }
    }
}

/// A synergy an enemy carries, with the timer that paces its pulses.
pub struct EnemySynergy {
    pub kind: SynergyKind,
    pub timer: Cooldown,
}

impl EnemySynergy {
    /// Advances the timer by `delta_ns`. When it has run out the synergy
    /// pulses: the timer starts over and the result is `true`.
    pub fn pulse(&mut self, delta_ns: u64) -> (fired: bool)
        ensures
            final(self).kind == old(self).kind,
            fired == old(self).timer.ticked(delta_ns as nat).done(),
            final(self).timer == if fired {
                old(self).timer.ticked(delta_ns as nat).restarted()
            } else {
                old(self).timer.ticked(delta_ns as nat)
            },
    {
        self.timer.tick(delta_ns);
        if self.timer.is_finished() {
            self.timer.reset();
            true
        } else {
            false
        }
    }
}

/// What a healer sees of one ally: whether it stands within healing range,
/// and its hit points.
#[derive(Clone, Copy, PartialEq, Eq, Structural, Debug)]
pub struct AllyVitals {
    pub in_range: bool,
    pub hp: i32,
    pub max_hp: i32,
}

/// An ally that a healer's pulse can mend: in range and hurt.
pub open spec fn heal_candidate(a: AllyVitals) -> bool {
    a.in_range && a.hp < a.max_hp
}

/// The ally a healer's pulse mends: the first in range that is hurt, if any.
pub fn first_heal_target(allies: &Vec<AllyVitals>) -> (target: Option<usize>)
    ensures
        match target {
            Some(i) => {
                &&& i < allies.len()
                &&& heal_candidate(allies@[i as int])
                &&& forall|j: int| 0 <= j < i ==> !heal_candidate(#[trigger] allies@[j])
            },
            None => forall|j: int| 0 <= j < allies.len() ==> !heal_candidate(#[trigger] allies@[j]),
        },
{
    let mut i: usize = 0;
    while i < allies.len()
        invariant
            i <= allies.len(),
            forall|j: int| 0 <= j < i ==> !heal_candidate(#[trigger] allies@[j]),
        decreases allies.len() - i,
    {
        let a = allies[i];
        if a.in_range && a.hp < a.max_hp {
            return Some(i);
        }
        i = i + 1;
    }
    None
}

/// Bleeding applied by a scratcher: damage per tick and the ticks left.
pub struct Bleed {
    pub damage: i32,
    pub tick_timer: Cooldown,
    pub remaining_ticks: u8,
}

/// Where an enemy fell, so that a necromancer can raise it again.
pub struct Corpse {
    pub kind: EnemyKind,
    pub floor: u32,
    pub was_elite: bool,
    pub despawn_timer: Cooldown,
}

/// A brief flash when an entity takes damage.
pub struct HitFlash(pub Cooldown);

impl HitFlash {
    /// A flash of one tenth of a second.
    pub fn new() -> (f: HitFlash)
        ensures
            f.0.duration() == 100 * 1_000_000,
            f.0.elapsed() == 0,
            !f.0.done(),
    {
        HitFlash(Cooldown::from_millis(100))
    }
}

/// An obstacle's durability: destructible ones break after a few hits.
#[derive(Clone, Copy, PartialEq, Eq, Structural, Debug)]
pub struct Obstacle {
    pub destructible: bool,
    pub hp: i32,
}

/// Sprite animation between idle, walk and attack clips (inclusive frame ranges).
#[derive(Clone, Copy, Debug)]
pub struct CatAnimation {
    pub idle: (usize, usize),
    pub walk: (usize, usize),
    pub attack: Option<(usize, usize)>,
    pub moving: bool,
    pub attacking: bool,
    /// Frames per second.
    pub fps: u8,
}

/// The clip an animation is showing.
pub open spec fn clip_spec(a: CatAnimation) -> (usize, usize) {
    if a.attacking && a.attack is Some {
        a.attack->0
    } else if a.moving {
        a.walk
    } else {
        a.idle
    }
}

/// Every clip runs forwards: its first frame is not after its last.
pub open spec fn clips_well_formed(a: CatAnimation) -> bool {
    &&& a.idle.0 <= a.idle.1
    &&& a.walk.0 <= a.walk.1
    &&& (a.attack matches Some(c) ==> c.0 <= c.1)
}

impl CatAnimation {
    /// An animation that starts idle and not attacking.
    pub fn new(idle: (usize, usize), walk: (usize, usize), attack: Option<(usize, usize)>, fps: u8) -> (a: CatAnimation)
        ensures
            a == (CatAnimation { idle, walk, attack, moving: false, attacking: false, fps }),
    {
        CatAnimation { idle, walk, attack, moving: false, attacking: false, fps }
    }

    /// The clip to show: the attack clip while attacking (if there is one),
    /// else the walk clip while moving, else the idle clip.
    pub fn clip(&self) -> (c: (usize, usize))
        ensures
            c == clip_spec(*self),
    {
        if self.attacking {
            if let Some(attack) = self.attack {
                return attack;
            }
        }
        if self.moving {
            self.walk
        } else {
            self.idle
        }
    }

    /// Starts the attack clip if there is one. Returns whether it started, in
    /// which case the frame timer must start over.
    pub fn start_attack(&mut self) -> (started: bool)
        ensures
            started == (old(self).attack is Some),
            *final(self) == (CatAnimation { attacking: old(self).attacking || started, ..*old(self) }),
    {
        if self.attack.is_some() {
            self.attacking = true;
            true
        } else {
            false
        }
    }

    /// The next frame to show after `index`, given whether the frame timer
    /// just ran out. A frame outside the current clip jumps to the clip's
    /// start; at the end of a clip the animation loops, except that an attack
    /// ends and hands over to the walk or idle clip.
    pub fn advance(&mut self, index: usize, just_finished: bool) -> (next: usize)
        ensures
            ({
                let c = clip_spec(*old(self));
                if index < c.0 || index > c.1 {
                    next == c.0 && *final(self) == *old(self)
                } else if !just_finished {
                    next == index && *final(self) == *old(self)
                } else if index >= c.1 {
                    if old(self).attacking {
                        &&& *final(self) == (CatAnimation { attacking: false, ..*old(self) })
                        &&& next == clip_spec(*final(self)).0
                    } else {
                        next == c.0 && *final(self) == *old(self)
                    }
                } else {
                    next == index + 1 && *final(self) == *old(self)
                }
            }),
            clips_well_formed(*old(self)) ==> {
                let c = clip_spec(*final(self));
                c.0 <= next <= c.1
            },
    {
        let (first, last) = self.clip();
        if index < first || index > last {
            first
        } else if just_finished {
            if index >= last {
                if self.attacking {
                    self.attacking = false;
                    self.clip().0
                } else {
                    first
                }
            } else {
                index + 1
            }
        } else {
            index
        }
    }
}

} // verus!
