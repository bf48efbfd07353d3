//! Hits, attacks and the enemy behaviour state machine.
use crate::components::{
    charmed, dormant, BossPhases, BossType, Enemy, EnemyKind, EnemyState, ProjectileOwner, CHARM_MS, GOLIATH_GROWTH_PER_HIT,
    GOLIATH_MAX_SCALE, MIMIC_TRIGGER_RANGE, SHIELD_HALF_CONE_MRAD,
};
use crate::palette::Rgb;
use crate::timer::Cooldown;
use vstd::prelude::*;

verus! {

/// Radius of the player's hurt circle, in pixels.
pub const PLAYER_HURT_RADIUS: u32 = 13;

/// Radius of an enemy projectile, in pixels.
pub const ENEMY_PROJECTILE_RADIUS: u32 = 7;

/// Radius of a player projectile, in pixels.
pub const PLAYER_PROJECTILE_RADIUS: u32 = 12;

/// Radius of an explosion, in pixels.
pub const EXPLOSION_RADIUS: u32 = 120;

/// How far beyond the player's hurt circle a charging enemy connects, in pixels.
pub const CHARGE_CONTACT_PAD: u32 = 24;

/// How long the player cannot be hurt again after a hit, in milliseconds.
pub const HURT_INVULN_MS: u64 = 900;

/// Starts the player's invulnerability after a hit.
pub fn reset_hurt_invuln(invuln: &mut Cooldown)
    ensures
        *final(invuln) == Cooldown::fresh(HURT_INVULN_MS as nat),
{
    *invuln = Cooldown::from_millis(HURT_INVULN_MS);
}

/// What one step of flight does to a projectile.
#[derive(Clone, Copy, PartialEq, Eq, Structural, Debug)]
pub enum ProjectileFate {
    /// Its lifetime ran out: it vanishes before it moves.
    Expired,
    /// It left the arena.
    LeftArena,
    /// It struck an obstacle.
    Blocked,
    /// A player's shot struck the enemy at this index.
    HitEnemy(usize),
    /// An enemy's shot reached the player; it is spent whether or not it hurts.
    HitPlayer,
    /// It flies on.
    Flies,
}

/// What became of a projectile over one step, checked in order: its
/// lifetime, the arena's bounds, obstacles along its path, then its targets
/// (the first enemy on its path for the player's shots, the player for the
/// enemies').
pub fn projectile_fate(
    expired: bool,
    out_of_arena: bool,
    hit_obstacle: bool,
    owner: ProjectileOwner,
    first_enemy_hit: Option<usize>,
    reaches_player: bool,
) -> (f: ProjectileFate)
    ensures
        f == if expired {
            ProjectileFate::Expired
        } else if out_of_arena {
            ProjectileFate::LeftArena
        } else if hit_obstacle {
            ProjectileFate::Blocked
        } else if owner == ProjectileOwner::Player {
            match first_enemy_hit {
                Some(i) => ProjectileFate::HitEnemy(i),
                None => ProjectileFate::Flies,
            }
        } else if reaches_player {
            ProjectileFate::HitPlayer
        } else {
            ProjectileFate::Flies
        },
{
    if expired {
        ProjectileFate::Expired
    } else if out_of_arena {
        ProjectileFate::LeftArena
    } else if hit_obstacle {
        ProjectileFate::Blocked
    } else {
        match owner {
            ProjectileOwner::Player => match first_enemy_hit {
                Some(i) => ProjectileFate::HitEnemy(i),
                None => ProjectileFate::Flies,
            },
            ProjectileOwner::Enemy => if reaches_player {
                ProjectileFate::HitPlayer
            } else {
                ProjectileFate::Flies
            },
        }
    }
}

/// Intensity tier for hit effects, by damage as a share of maximum hit points.
#[derive(Clone, Copy, PartialEq, Eq, Structural, Debug)]
pub enum HitIntensity {
    /// Less than 10% of the maximum.
    Light,
    /// From 10% to 25%.
    Medium,
    /// More than 25%, at most 50%.
    Heavy,
    /// More than 50%.
    Critical,
}

/// The tier of a hit of `damage` on a target with `max_hp` hit points.
pub open spec fn intensity_spec(damage: int, max_hp: int) -> HitIntensity {
    if max_hp <= 0 {
        HitIntensity::Light
    } else if damage * 100 > 50 * max_hp {
        HitIntensity::Critical
    } else if damage * 100 > 25 * max_hp {
        HitIntensity::Heavy
    } else if damage * 100 >= 10 * max_hp {
        HitIntensity::Medium
    } else {
        HitIntensity::Light
    }
}

/// Orders the tiers from light (0) to critical (3).
pub open spec fn intensity_rank(i: HitIntensity) -> int {
    match i {
        HitIntensity::Light => 0,
        HitIntensity::Medium => 1,
        HitIntensity::Heavy => 2,
        HitIntensity::Critical => 3,
    }
}

impl HitIntensity {
    /// The tier of a hit of `damage` on a target with `max_hp` hit points; a
    /// target without hit points always takes light hits.
    pub fn from_damage(damage: i32, max_hp: i32) -> (i: HitIntensity)
        ensures
            i == intensity_spec(damage as int, max_hp as int),
    {
        if max_hp <= 0 {
            return HitIntensity::Light;
        }
        let d = damage as i64 * 100;
        let m = max_hp as i64;
        if d > 50 * m {
            HitIntensity::Critical
        } else if d > 25 * m {
            HitIntensity::Heavy
        } else if d >= 10 * m {
            HitIntensity::Medium
        } else {
            HitIntensity::Light
        }
    }

    /// Time frozen on impact, in milliseconds.
    pub fn hitstop_duration(&self) -> (ms: u32)
        ensures
            ms == match *self {
                HitIntensity::Light => 20u32,
                HitIntensity::Medium => 40u32,
                HitIntensity::Heavy => 60u32,
                HitIntensity::Critical => 100u32,
            },
    {
        match self {
            HitIntensity::Light => 20,
            HitIntensity::Medium => 40,
            HitIntensity::Heavy => 60,
            HitIntensity::Critical => 100,
        }
    }

    /// Screen shake added, in thousandths of full trauma.
    pub fn shake_trauma(&self) -> (t: u32)
        ensures
            t == match *self {
                HitIntensity::Light => 100u32,
                HitIntensity::Medium => 200u32,
                HitIntensity::Heavy => 350u32,
                HitIntensity::Critical => 500u32,
            },
    {
        match self {
            HitIntensity::Light => 100,
            HitIntensity::Medium => 200,
            HitIntensity::Heavy => 350,
            HitIntensity::Critical => 500,
        }
    }

    /// Number of impact particles.
    pub fn particle_count(&self) -> (n: usize)
        ensures
            n == match *self {
                HitIntensity::Light => 4usize,
                HitIntensity::Medium => 8usize,
                HitIntensity::Heavy => 14usize,
                HitIntensity::Critical => 22usize,
            },
    {
        match self {
            HitIntensity::Light => 4,
            HitIntensity::Medium => 8,
            HitIntensity::Heavy => 14,
            HitIntensity::Critical => 22,
        }
    }
}

/// Radius of an enemy's hurt circle in quarter pixels; elites are a quarter larger.
pub open spec fn hurt_radius_spec(kind: EnemyKind, elite: bool) -> int {
    let base = match kind {
        EnemyKind::Boss => 58int,
        EnemyKind::Chonker | EnemyKind::Goliath => 43,
        EnemyKind::Charger => 36,
        EnemyKind::Bruiser | EnemyKind::ShieldBearer => 34,
        EnemyKind::Hunter | EnemyKind::Seeker | EnemyKind::Splitter | EnemyKind::Summoner => 29,
        EnemyKind::Caster | EnemyKind::NecromancerCat | EnemyKind::MimicChest => 28,
        EnemyKind::Bomber | EnemyKind::ShadowCat | EnemyKind::FlyingCat => 25,
        EnemyKind::Scratcher | EnemyKind::Kitten => 22,
    };
    if elite { base * 5 } else { base * 4 }
}

/// Radius of an enemy's hurt circle, in quarter pixels.
pub fn enemy_hurt_radius(kind: EnemyKind, elite: bool) -> (quarters: u32)
    ensures
        quarters == hurt_radius_spec(kind, elite),
{
    let base: u32 = match kind {
        EnemyKind::Boss => 58,
        EnemyKind::Chonker | EnemyKind::Goliath => 43,
        EnemyKind::Charger => 36,
        EnemyKind::Bruiser | EnemyKind::ShieldBearer => 34,
        EnemyKind::Hunter | EnemyKind::Seeker | EnemyKind::Splitter | EnemyKind::Summoner => 29,
        EnemyKind::Caster | EnemyKind::NecromancerCat | EnemyKind::MimicChest => 28,
        EnemyKind::Bomber | EnemyKind::ShadowCat | EnemyKind::FlyingCat => 25,
        EnemyKind::Scratcher | EnemyKind::Kitten => 22,
    };
    if elite { base * 5 } else { base * 4 }
}

/// How far an enemy's melee attack reaches beyond the player's hurt circle, in pixels.
pub fn enemy_melee_reach(kind: EnemyKind) -> (px: u32)
    ensures
        px == match kind {
            EnemyKind::Boss => 50u32,
            EnemyKind::Bruiser | EnemyKind::Goliath | EnemyKind::ShieldBearer => 42u32,
            EnemyKind::Kitten | EnemyKind::Scratcher | EnemyKind::FlyingCat => 34u32,
            _ => 40u32,
        },
{
    match kind {
        EnemyKind::Boss => 50,
        EnemyKind::Bruiser | EnemyKind::Goliath | EnemyKind::ShieldBearer => 42,
        EnemyKind::Kitten | EnemyKind::Scratcher | EnemyKind::FlyingCat => 34,
        _ => 40,
    }
}

/// Wind-up before an enemy commits its attack (the telegraph window), in milliseconds.
pub open spec fn windup_spec(kind: EnemyKind) -> u64 {
    match kind {
        EnemyKind::Charger => 550,
        EnemyKind::Bomber => 400,
        EnemyKind::Boss => 750,
        EnemyKind::NecromancerCat => 800,
        EnemyKind::MimicChest => 0,
        _ => 300,
    }
}

/// Wind-up time of `kind`, in milliseconds.
pub fn windup_time(kind: EnemyKind) -> (ms: u64)
    ensures
        ms == windup_spec(kind),
        ms <= 800,
{
    match kind {
        EnemyKind::Charger => 550,
        EnemyKind::Bomber => 400,
        EnemyKind::Boss => 750,
        EnemyKind::NecromancerCat => 800,
        EnemyKind::MimicChest => 0,
        _ => 300,
    }
}

/// How far away an enemy will commit to an attack, in pixels.
pub fn trigger_range(kind: EnemyKind) -> (px: u32)
    ensures
        px == match kind {
            EnemyKind::Charger => 320u32,
            EnemyKind::Bomber => 60u32,
            EnemyKind::Seeker => 340u32,
            EnemyKind::Caster => 320u32,
            EnemyKind::Boss => 420u32,
            EnemyKind::Summoner => 500u32,
            EnemyKind::NecromancerCat => 300u32,
            EnemyKind::MimicChest => 50u32,
            _ => 40u32,
        },
{
    match kind {
        EnemyKind::Charger => 320,
        EnemyKind::Bomber => 60,
        EnemyKind::Seeker => 340,
        EnemyKind::Caster => 320,
        EnemyKind::Boss => 420,
        EnemyKind::Summoner => 500,
        EnemyKind::NecromancerCat => 300,
        EnemyKind::MimicChest => 50,
        _ => 40,
    }
}

/// Pause between telegraphed actions after a recovery, in milliseconds.
pub open spec fn action_cooldown_spec(kind: EnemyKind) -> u64 {
    match kind {
        EnemyKind::Charger => 1400,
        EnemyKind::Seeker => 1100,
        EnemyKind::Caster => 1300,
        EnemyKind::Boss => 1450,
        EnemyKind::Summoner => 3000,
        EnemyKind::NecromancerCat => 4000,
        _ => 500,
    }
}

/// Pause between telegraphed actions of `kind`, in milliseconds.
pub fn action_cooldown(kind: EnemyKind) -> (ms: u64)
    ensures
        ms == action_cooldown_spec(kind),
        ms <= 4000,
{
    match kind {
        EnemyKind::Charger => 1400,
        EnemyKind::Seeker => 1100,
        EnemyKind::Caster => 1300,
        EnemyKind::Boss => 1450,
        EnemyKind::Summoner => 3000,
        EnemyKind::NecromancerCat => 4000,
        _ => 500,
    }
}

/// The band of a boss's hit points: 1 above two thirds (66%), 2 above one
/// third (33%), 3 otherwise. A non-positive maximum counts as 1.
pub open spec fn hp_band(hp: int, max_hp: int) -> u8 {
    let m = if max_hp < 1 { 1 } else { max_hp };
    if hp * 100 > 66 * m {
        1
    } else if hp * 100 > 33 * m {
        2
    } else {
        3
    }
}

/// The phase of a boss with `hp` of `max_hp` hit points.
pub fn boss_phase(hp: i32, max_hp: i32) -> (p: u8)
    ensures
        p == hp_band(hp as int, max_hp as int),
        1 <= p <= 3,
{
    let m: i64 = if max_hp < 1 { 1 } else { max_hp as i64 };
    let h = hp as i64 * 100;
    if h > 66 * m {
        1
    } else if h > 33 * m {
        2
    } else {
        3
    }
}

/// Moves the boss's phase tracker to the phase of its hit points; returns
/// whether the phase changed.
pub fn update_boss_phase(phases: &mut BossPhases, hp: i32, max_hp: i32) -> (changed: bool)
    ensures
        final(phases).current_phase == hp_band(hp as int, max_hp as int),
        final(phases).boss_type == old(phases).boss_type,
        changed == (old(phases).current_phase != hp_band(hp as int, max_hp as int)),
{
    let next = boss_phase(hp, max_hp);
    if next != phases.current_phase {
        phases.current_phase = next;
        true
    } else {
        false
    }
}

/// How close the player must be for a boss to begin an attack, in pixels:
/// the Goblin King attacks from afar, other bosses from closer in.
pub fn boss_attack_range(boss_type: Option<BossType>) -> (px: u32)
    ensures
        px == if boss_type == Some(BossType::GoblinKing) { 760u32 } else { 450u32 },
{
    match boss_type {
        Some(BossType::GoblinKing) => 760,
        _ => 450,
    }
}

/// A boss's pause after recovering, in milliseconds, by type and hit-point band.
pub open spec fn boss_cooldown_spec(boss_type: Option<BossType>, hp: int, max_hp: int) -> u64 {
    let band = hp_band(hp, max_hp);
    match boss_type {
        Some(BossType::GoblinKing) => if band == 1 { 1550 } else if band == 2 { 1300 } else { 1100 },
        Some(BossType::Necromancer) => if band == 1 { 1800 } else if band == 2 { 1300 } else { 900 },
        _ => if band == 1 { 1400 } else if band == 2 { 1100 } else { 800 },
    }
}

/// A boss's pause after recovering, in milliseconds.
pub fn boss_cooldown(boss_type: Option<BossType>, hp: i32, max_hp: i32) -> (ms: u64)
    ensures
        ms == boss_cooldown_spec(boss_type, hp as int, max_hp as int),
        ms <= 1800,
{
    let band = boss_phase(hp, max_hp);
    match boss_type {
        Some(BossType::GoblinKing) => if band == 1 { 1550 } else if band == 2 { 1300 } else { 1100 },
        Some(BossType::Necromancer) => if band == 1 { 1800 } else if band == 2 { 1300 } else { 900 },
        _ => if band == 1 { 1400 } else if band == 2 { 1100 } else { 800 },
    }
}

/// The shape a telegraph takes.
#[derive(Clone, Copy, PartialEq, Eq, Structural, Debug)]
pub enum TelegraphShape {
    /// A line of this length, in pixels.
    Line { length: u32 },
    /// A circle of this radius, in pixels.
    Circle { radius: u32 },
    /// A cone of this half-angle (milliradians) and reach (pixels).
    Cone { angle: u32, reach: u32 },
}

/// The telegraph shape and colour shown before an attack of `kind`.
pub fn telegraph_for(kind: EnemyKind) -> (t: (TelegraphShape, Rgb))
    ensures
        t == match kind {
            EnemyKind::Charger => (TelegraphShape::Line { length: 320 }, Rgb { r: 1000, g: 600, b: 300 }),
            EnemyKind::Bomber => (TelegraphShape::Circle { radius: 120 }, Rgb { r: 1000, g: 400, b: 300 }),
            EnemyKind::Boss => (TelegraphShape::Cone { angle: 500, reach: 460 }, Rgb { r: 900, g: 300, b: 350 }),
            EnemyKind::Caster | EnemyKind::Seeker => (
                TelegraphShape::Cone { angle: 300, reach: 320 },
                Rgb { r: 700, g: 500, b: 1000 },
            ),
            _ => (TelegraphShape::Line { length: 60 }, Rgb { r: 1000, g: 500, b: 400 }),
        },
{
    match kind {
        EnemyKind::Charger => (TelegraphShape::Line { length: 320 }, Rgb::new(1000, 600, 300)),
        EnemyKind::Bomber => (TelegraphShape::Circle { radius: 120 }, Rgb::new(1000, 400, 300)),
        EnemyKind::Boss => (TelegraphShape::Cone { angle: 500, reach: 460 }, Rgb::new(900, 300, 350)),
        EnemyKind::Caster | EnemyKind::Seeker => (TelegraphShape::Cone { angle: 300, reach: 320 }, Rgb::new(700, 500, 1000)),
        _ => (TelegraphShape::Line { length: 60 }, Rgb::new(1000, 500, 400)),
    }
}

/// A goliath's size after one more hit, in thousandths: 150 more, at most 2500.
pub open spec fn grown_scale(scale: u32) -> u32 {
    if scale + GOLIATH_GROWTH_PER_HIT >= GOLIATH_MAX_SCALE {
        GOLIATH_MAX_SCALE
    } else {
        (scale + GOLIATH_GROWTH_PER_HIT) as u32
    }
}

/// Whether an enemy of `kind` blocks a hit coming `off_axis_mrad`
/// milliradians off the way it faces: only a shield bearer does, and only
/// within its shield cone.
pub open spec fn shield_blocks_spec(kind: EnemyKind, off_axis_mrad: u32) -> bool {
    kind == EnemyKind::ShieldBearer && off_axis_mrad <= SHIELD_HALF_CONE_MRAD
}

/// Whether an enemy of `kind` blocks a hit coming `off_axis_mrad`
/// milliradians off the way it faces.
pub fn shield_blocks(kind: EnemyKind, off_axis_mrad: u32) -> (b: bool)
    ensures
        b == shield_blocks_spec(kind, off_axis_mrad),
{
    kind == EnemyKind::ShieldBearer && off_axis_mrad <= SHIELD_HALF_CONE_MRAD
}

impl Enemy {
    /// Advances both behaviour timers by `delta_ns`.
    pub fn tick_timers(&mut self, delta_ns: u64)
        ensures
            *final(self) == (Enemy {
                action_cd: old(self).action_cd.ticked(delta_ns as nat),
                state_timer: old(self).state_timer.ticked(delta_ns as nat),
                charm: old(self).charm.ticked(delta_ns as nat),
                ..*old(self)
            }),
    {
        self.action_cd.tick(delta_ns);
        self.state_timer.tick(delta_ns);
        self.charm.tick(delta_ns);
    }

    /// A purr reaches this enemy: it is charmed for 3 s from now.
    pub fn charm(&mut self)
        ensures
            *final(self) == (Enemy { charm: Cooldown::fresh(CHARM_MS as nat), ..*old(self) }),
            charmed(*final(self)),
    {
        self.charm = Cooldown::from_millis(CHARM_MS);
    }

    /// Whether the enemy is charmed.
    pub fn is_charmed(&self) -> (b: bool)
        ensures
            b == charmed(*self),
    {
        !self.charm.is_finished()
    }

    /// A healer's pulse: a hurt enemy gets one hit point back; one at full
    /// health is left as it is.
    pub fn receive_heal(&mut self)
        ensures
            *final(self) == (Enemy {
                hp: if old(self).hp < old(self).max_hp { (old(self).hp + 1) as i32 } else { old(self).hp },
                ..*old(self)
            }),
            old(self).hp <= old(self).max_hp ==> final(self).hp <= final(self).max_hp,
    {
        if self.hp < self.max_hp {
            self.hp = self.hp + 1;
        }
    }

    /// Takes `amount` damage; returns whether the enemy is dead. A goliath
    /// grows with every hit, up to its largest size.
    pub fn take_damage(&mut self, amount: i32) -> (dead: bool)
        requires
            i32::MIN <= old(self).hp - amount <= i32::MAX,
        ensures
            *final(self) == (Enemy {
                hp: (old(self).hp - amount) as i32,
                scale: if old(self).kind == EnemyKind::Goliath {
                    grown_scale(old(self).scale)
                } else {
                    old(self).scale
                },
                ..*old(self)
            }),
            dead == (final(self).hp <= 0),
    {
        self.hp = self.hp - amount;
        if self.kind == EnemyKind::Goliath {
            self.scale = if self.scale >= GOLIATH_MAX_SCALE - GOLIATH_GROWTH_PER_HIT {
                GOLIATH_MAX_SCALE
            } else {
                self.scale + GOLIATH_GROWTH_PER_HIT
            };
        }
        self.hp <= 0
    }

    /// A hit of `amount` that comes `off_axis_mrad` milliradians off the way
    /// the enemy faces: a shield bearer blocks it when it comes within its
    /// shield cone, and nothing changes; otherwise the enemy takes the
    /// damage. Returns whether it was blocked and whether the enemy is dead.
    pub fn take_hit_from(&mut self, amount: i32, off_axis_mrad: u32) -> (r: (bool, bool))
        requires
            i32::MIN <= old(self).hp - amount <= i32::MAX,
        ensures
            r.0 == shield_blocks_spec(old(self).kind, off_axis_mrad),
            r.0 ==> *final(self) == *old(self) && r.1 == (old(self).hp <= 0),
            !r.0 ==> *final(self) == (Enemy {
                hp: (old(self).hp - amount) as i32,
                scale: if old(self).kind == EnemyKind::Goliath {
                    grown_scale(old(self).scale)
                } else {
                    old(self).scale
                },
                ..*old(self)
            }) && r.1 == (final(self).hp <= 0),
    {
        if shield_blocks(self.kind, off_axis_mrad) {
            (true, self.hp <= 0)
        } else {
            (false, self.take_damage(amount))
        }
    }

    /// Lets a disguised mimic notice the player `distance_px` pixels away:
    /// it wakes once the player is within its trigger range.
    pub fn notice_player(&mut self, distance_px: u32)
        ensures
            *final(self) == (Enemy {
                disguised: old(self).disguised && distance_px > MIMIC_TRIGGER_RANGE,
                ..*old(self)
            }),
    {
        if distance_px <= MIMIC_TRIGGER_RANGE {
            self.disguised = false;
        }
    }

    /// Whether the enemy does nothing this frame: charmed, or still in
    /// disguise.
    pub fn is_dormant(&self) -> (b: bool)
        ensures
            b == dormant(*self),
    {
        self.is_charmed() || self.disguised
    }
}

/// Enemy `e` after a hit of `damage` coming `off_axis_mrad` milliradians off
/// the way it faces: unchanged when its shield blocks the hit; otherwise it
/// loses `damage` hit points, and a goliath grows.
pub open spec fn hit_from_spec(e: Enemy, damage: i32, off_axis_mrad: u32) -> Enemy {
    if shield_blocks_spec(e.kind, off_axis_mrad) {
        e
    } else {
        Enemy {
            hp: (e.hp - damage) as i32,
            scale: if e.kind == EnemyKind::Goliath { grown_scale(e.scale) } else { e.scale },
            ..e
        }
    }
}

/// How many of the strikes on ids `ids`, made one after the other by an
/// attack that had already struck `struck`, land on `x`: a strike lands the
/// first time the attack meets its target.
pub open spec fn strikes_landing(struck: Set<u64>, ids: Seq<u64>, x: u64) -> nat
    decreases ids.len(),
{
    if ids.len() == 0 {
        0
    } else {
        strikes_landing(struck, ids.drop_last(), x) + if ids.last() == x && !struck.contains(x)
            && !ids.drop_last().contains(x) {
            1nat
        } else {
            0nat
        }
    }
}

/// Enemy `e`, of id `x`, after the strikes on ids `ids` of an attack of
/// `damage` that had already struck `struck`: each strike that lands on `x`
/// hits it.
pub open spec fn struck_enemy_after(
    struck: Set<u64>,
    ids: Seq<u64>,
    x: u64,
    e: Enemy,
    damage: i32,
    off_axis_mrad: u32,
) -> Enemy
    decreases ids.len(),
{
    if ids.len() == 0 {
        e
    } else {
        let before = struck_enemy_after(struck, ids.drop_last(), x, e, damage, off_axis_mrad);
        if ids.last() == x && !struck.contains(x) && !ids.drop_last().contains(x) {
            hit_from_spec(before, damage, off_axis_mrad)
        } else {
            before
        }
    }
}

/// An attack hurts each enemy at most once in its whole life: of any
/// strikes it makes, at most one lands on a given enemy (exactly one when
/// the enemy had not been struck and comes up), so the enemy is hit once by
/// the attack's damage, or not at all.
pub proof fn law_attack_hits_each_enemy_once(
    struck: Set<u64>,
    ids: Seq<u64>,
    x: u64,
    e: Enemy,
    damage: i32,
    off_axis_mrad: u32,
)
    ensures
        strikes_landing(struck, ids, x) == if !struck.contains(x) && ids.contains(x) { 1nat } else { 0nat },
        struck_enemy_after(struck, ids, x, e, damage, off_axis_mrad) == if !struck.contains(x) && ids.contains(x) {
            hit_from_spec(e, damage, off_axis_mrad)
        } else {
            e
        },
    decreases ids.len(),
{
    if ids.len() > 0 {
        let rest = ids.drop_last();
        law_attack_hits_each_enemy_once(struck, rest, x, e, damage, off_axis_mrad);
        assert(ids.contains(x) <==> rest.contains(x) || ids.last() == x) by {
            if ids.contains(x) {
                let j = choose|j: int| 0 <= j < ids.len() && ids[j] == x;
                if j < rest.len() {
                    assert(rest[j] == x);
                }
            }
            if rest.contains(x) {
                let j = choose|j: int| 0 <= j < rest.len() && rest[j] == x;
                assert(ids[j] == x);
            }
            if ids.last() == x {
                assert(ids[ids.len() - 1] == x);
            }
        }
    }
}

/// The targets an attack has already struck, by id, so that it strikes each
/// at most once.
pub struct HitSet {
    ids: Vec<u64>,
}

impl HitSet {
    #[verifier::type_invariant]
    spec fn inv(self) -> bool {
        self.ids@.no_duplicates()
    }

    /// The ids struck so far.
    pub closed spec fn struck(self) -> Set<u64> {
        Set::new(|id: u64| self.ids@.contains(id))
    }

    /// Nothing struck yet.
    pub fn new() -> (h: HitSet)
        ensures
            h.struck() == Set::<u64>::empty(),
    {
        let h = HitSet { ids: Vec::new() };
        assert(h.struck() =~= Set::<u64>::empty());
        h
    }

    /// Whether `id` has been struck.
    pub fn contains(&self, id: u64) -> (b: bool)
        ensures
            b == self.struck().contains(id),
    {
        let mut i: usize = 0;
        while i < self.ids.len()
            invariant
                i <= self.ids@.len(),
                forall|j: int| 0 <= j < i ==> self.ids@[j] != id,
            decreases self.ids@.len() - i,
        {
            if self.ids[i] == id {
                assert(self.ids@.contains(id));
                return true;
            }
            i = i + 1;
        }
        false
    }

    /// Strikes `id` unless it was struck before; returns whether this is
    /// its first strike. Either way it counts as struck afterwards.
    pub fn strike(&mut self, id: u64) -> (first: bool)
        ensures
            first == !old(self).struck().contains(id),
            final(self).struck() == old(self).struck().insert(id),
    {
        proof {
            use_type_invariant(&*self);
        }
        if self.contains(id) {
            assert(old(self).struck().insert(id) =~= old(self).struck());
            return false;
        }
        let ghost before = self.ids@;
        let mut ids: Vec<u64> = Vec::new();
        std::mem::swap(&mut ids, &mut self.ids);
        ids.push(id);
        proof {
            assert(ids@ == before.push(id));
            assert forall|a: int, b: int| 0 <= a < b < ids@.len() implies ids@[a] != ids@[b] by {
                if b == ids@.len() - 1 {
                    assert(before.contains(before[a]));
                }
            }
            assert forall|x: u64| ids@.contains(x) <==> before.contains(x) || x == id by {
                if ids@.contains(x) {
                    let j = choose|j: int| 0 <= j < ids@.len() && ids@[j] == x;
                    if j < before.len() {
                        assert(before[j] == x);
                    }
                }
                if before.contains(x) {
                    let j = choose|j: int| 0 <= j < before.len() && before[j] == x;
                    assert(ids@[j] == x);
                }
                if x == id {
                    assert(ids@[before.len() as int] == x);
                }
            }
        }
        self.ids = ids;
        assert(self.struck() =~= old(self).struck().insert(id));
        true
    }

    /// Strikes `enemy`, of id `id`, with `damage` coming `off_axis_mrad`
    /// milliradians off the way it faces, unless it was struck before: the
    /// first strike hits it (a shield may still block it) and reports
    /// whether it was blocked and whether the enemy is dead; a later strike
    /// leaves it as it is and reports nothing.
    pub fn strike_enemy(&mut self, id: u64, enemy: &mut Enemy, damage: i32, off_axis_mrad: u32) -> (r: Option<(bool, bool)>)
        requires
            i32::MIN <= old(enemy).hp - damage <= i32::MAX,
        ensures
            final(self).struck() == old(self).struck().insert(id),
            old(self).struck().contains(id) ==> r is None && *final(enemy) == *old(enemy),
            !old(self).struck().contains(id) ==> {
                &&& *final(enemy) == hit_from_spec(*old(enemy), damage, off_axis_mrad)
                &&& r == Some((shield_blocks_spec(old(enemy).kind, off_axis_mrad), final(enemy).hp <= 0))
            },
    {
        if self.strike(id) {
            Some(enemy.take_hit_from(damage, off_axis_mrad))
        } else {
            None
        }
    }
}

} // verus!
