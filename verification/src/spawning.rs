//! What rooms, enemies and rewards are made of.
use crate::ability::{found_ability, found_ability_at};
use crate::components::{BossPhases, BossType, Enemy, EnemyKind, EnemyState, Obstacle, PickupKind};
use crate::palette::Rgb;
use crate::state::{Phase, RoomKind};
use crate::timer::Cooldown;
use vstd::prelude::*;

verus! {

/// Base statistics of an enemy kind on a floor.
#[derive(Clone, Copy, PartialEq, Eq, Structural, Debug)]
pub struct EnemyStats {
    pub hp: i32,
    pub damage: i32,
    /// Pixels per second.
    pub speed: u64,
    pub color: Rgb,
    /// Sprite size, in pixels.
    pub size: u32,
}

/// Hit points of `kind` on floor `f`.
pub open spec fn stat_hp(kind: EnemyKind, f: int) -> int {
    match kind {
        EnemyKind::Hunter => 2 + f,
        EnemyKind::Bruiser => 5 + f * 2,
        EnemyKind::Seeker => 3 + f,
        EnemyKind::Boss => 60 + f * 20,
        EnemyKind::Charger => 6 + f * 2,
        EnemyKind::Bomber => 2 + f / 2,
        EnemyKind::Kitten => 1,
        EnemyKind::Splitter => 4 + f,
        EnemyKind::Caster => 3 + f,
        EnemyKind::Summoner => 5 + f,
        EnemyKind::Scratcher => 2 + f / 2,
        EnemyKind::Chonker => 15 + f * 3,
        EnemyKind::ShadowCat => 4 + f,
        EnemyKind::NecromancerCat => 6 + f,
        EnemyKind::ShieldBearer => 8 + f * 2,
        EnemyKind::FlyingCat => 3 + f / 2,
        EnemyKind::MimicChest => 4 + f,
        EnemyKind::Goliath => 12 + f * 3,
    }
}

/// Damage per attack of `kind` on floor `f`.
pub open spec fn stat_damage(kind: EnemyKind, f: int) -> int {
    match kind {
        EnemyKind::Hunter => 1 + f / 4,
        EnemyKind::Bruiser => 2 + f / 3,
        EnemyKind::Seeker => 1 + f / 3,
        EnemyKind::Boss => 3 + f / 3,
        EnemyKind::Charger => 3 + f / 2,
        EnemyKind::Bomber => 4 + f / 2,
        EnemyKind::Kitten => 1,
        EnemyKind::Splitter => 2 + f / 3,
        EnemyKind::Caster => 1 + f / 3,
        EnemyKind::Summoner => 1 + f / 4,
        EnemyKind::Scratcher => 1 + f / 4,
        EnemyKind::Chonker => 2 + f / 3,
        EnemyKind::ShadowCat => 2 + f / 3,
        EnemyKind::NecromancerCat => 1 + f / 4,
        EnemyKind::ShieldBearer => 2 + f / 3,
        EnemyKind::FlyingCat => 1 + f / 4,
        EnemyKind::MimicChest => 2 + f / 3,
        EnemyKind::Goliath => 3 + f / 2,
    }
}

/// Movement speed of `kind` on floor `f`, in pixels per second.
pub open spec fn stat_speed(kind: EnemyKind, f: int) -> int {
    match kind {
        EnemyKind::Hunter => 130 + f * 6,
        EnemyKind::Bruiser => 92 + f * 4,
        EnemyKind::Seeker => 150 + f * 7,
        EnemyKind::Boss => 100 + f * 2,
        EnemyKind::Charger => 120 + f * 4,
        EnemyKind::Bomber => 150 + f * 8,
        EnemyKind::Kitten => 170 + f * 8,
        EnemyKind::Splitter => 96 + f * 4,
        EnemyKind::Caster => 120 + f * 5,
        EnemyKind::Summoner => 105 + f * 4,
        EnemyKind::Scratcher => 180 + f * 10,
        EnemyKind::Chonker => 70 + f * 2,
        EnemyKind::ShadowCat => 140 + f * 6,
        EnemyKind::NecromancerCat => 100 + f * 3,
        EnemyKind::ShieldBearer => 85 + f * 3,
        EnemyKind::FlyingCat => 160 + f * 7,
        EnemyKind::MimicChest => 130 + f * 5,
        EnemyKind::Goliath => 60 + f * 2,
    }
}

/// Tint of `kind`.
pub open spec fn stat_color(kind: EnemyKind) -> Rgb {
    match kind {
        EnemyKind::Hunter => Rgb { r: 1000, g: 660, b: 450 },
        EnemyKind::Bruiser => Rgb { r: 860, g: 400, b: 400 },
        EnemyKind::Seeker => Rgb { r: 720, g: 550, b: 1000 },
        EnemyKind::Boss => Rgb { r: 1000, g: 340, b: 400 },
        EnemyKind::Charger => Rgb { r: 920, g: 660, b: 340 },
        EnemyKind::Bomber => Rgb { r: 950, g: 400, b: 280 },
        EnemyKind::Kitten => Rgb { r: 820, g: 820, b: 880 },
        EnemyKind::Splitter => Rgb { r: 520, g: 860, b: 520 },
        EnemyKind::Caster => Rgb { r: 500, g: 620, b: 1000 },
        EnemyKind::Summoner => Rgb { r: 920, g: 500, b: 920 },
        EnemyKind::Scratcher => Rgb { r: 800, g: 200, b: 250 },
        EnemyKind::Chonker => Rgb { r: 900, g: 700, b: 400 },
        EnemyKind::ShadowCat => Rgb { r: 400, g: 200, b: 600 },
        EnemyKind::NecromancerCat => Rgb { r: 600, g: 400, b: 800 },
        EnemyKind::ShieldBearer => Rgb { r: 500, g: 600, b: 700 },
        EnemyKind::FlyingCat => Rgb { r: 700, g: 900, b: 1000 },
        EnemyKind::MimicChest => Rgb { r: 850, g: 750, b: 400 },
        EnemyKind::Goliath => Rgb { r: 700, g: 500, b: 600 },
    }
}

/// Sprite size of `kind`, in pixels.
pub open spec fn stat_size(kind: EnemyKind) -> int {
    match kind {
        EnemyKind::Hunter => 74,
        EnemyKind::Bruiser => 88,
        EnemyKind::Seeker => 74,
        EnemyKind::Boss => 156,
        EnemyKind::Charger => 100,
        EnemyKind::Bomber => 64,
        EnemyKind::Kitten => 46,
        EnemyKind::Splitter => 80,
        EnemyKind::Caster => 72,
        EnemyKind::Summoner => 82,
        EnemyKind::Scratcher => 56,
        EnemyKind::Chonker => 110,
        EnemyKind::ShadowCat => 68,
        EnemyKind::NecromancerCat => 76,
        EnemyKind::ShieldBearer => 92,
        EnemyKind::FlyingCat => 60,
        EnemyKind::MimicChest => 70,
        EnemyKind::Goliath => 120,
    }
}

/// The statistics of `kind` on `floor` fit their machine types.
pub open spec fn stats_fit(kind: EnemyKind, floor: u32) -> bool {
    &&& floor <= i32::MAX
    &&& stat_hp(kind, floor as int) <= i32::MAX
    &&& stat_damage(kind, floor as int) <= i32::MAX
}

/// Base statistics of `kind` on `floor`.
pub fn enemy_stats(kind: EnemyKind, floor: u32) -> (s: EnemyStats)
    requires
        stats_fit(kind, floor),
    ensures
        s.hp == stat_hp(kind, floor as int),
        s.damage == stat_damage(kind, floor as int),
        s.speed == stat_speed(kind, floor as int),
        s.color == stat_color(kind),
        s.size == stat_size(kind),
        s.hp >= 1,
        s.damage >= 1,
{
    let f = floor as i32;
    let ff = floor as u64;
    match kind {
        EnemyKind::Hunter => EnemyStats { hp: 2 + f, damage: 1 + f / 4, speed: 130 + ff * 6, color: Rgb::new(1000, 660, 450), size: 74 },
        EnemyKind::Bruiser => EnemyStats { hp: 5 + f * 2, damage: 2 + f / 3, speed: 92 + ff * 4, color: Rgb::new(860, 400, 400), size: 88 },
        EnemyKind::Seeker => EnemyStats { hp: 3 + f, damage: 1 + f / 3, speed: 150 + ff * 7, color: Rgb::new(720, 550, 1000), size: 74 },
        EnemyKind::Boss => EnemyStats { hp: 60 + f * 20, damage: 3 + f / 3, speed: 100 + ff * 2, color: Rgb::new(1000, 340, 400), size: 156 },
        EnemyKind::Charger => EnemyStats { hp: 6 + f * 2, damage: 3 + f / 2, speed: 120 + ff * 4, color: Rgb::new(920, 660, 340), size: 100 },
        EnemyKind::Bomber => EnemyStats { hp: 2 + f / 2, damage: 4 + f / 2, speed: 150 + ff * 8, color: Rgb::new(950, 400, 280), size: 64 },
        EnemyKind::Kitten => EnemyStats { hp: 1, damage: 1, speed: 170 + ff * 8, color: Rgb::new(820, 820, 880), size: 46 },
        EnemyKind::Splitter => EnemyStats { hp: 4 + f, damage: 2 + f / 3, speed: 96 + ff * 4, color: Rgb::new(520, 860, 520), size: 80 },
        EnemyKind::Caster => EnemyStats { hp: 3 + f, damage: 1 + f / 3, speed: 120 + ff * 5, color: Rgb::new(500, 620, 1000), size: 72 },
        EnemyKind::Summoner => EnemyStats { hp: 5 + f, damage: 1 + f / 4, speed: 105 + ff * 4, color: Rgb::new(920, 500, 920), size: 82 },
        EnemyKind::Scratcher => EnemyStats { hp: 2 + f / 2, damage: 1 + f / 4, speed: 180 + ff * 10, color: Rgb::new(800, 200, 250), size: 56 },
        EnemyKind::Chonker => EnemyStats { hp: 15 + f * 3, damage: 2 + f / 3, speed: 70 + ff * 2, color: Rgb::new(900, 700, 400), size: 110 },
        EnemyKind::ShadowCat => EnemyStats { hp: 4 + f, damage: 2 + f / 3, speed: 140 + ff * 6, color: Rgb::new(400, 200, 600), size: 68 },
        EnemyKind::NecromancerCat => EnemyStats { hp: 6 + f, damage: 1 + f / 4, speed: 100 + ff * 3, color: Rgb::new(600, 400, 800), size: 76 },
        EnemyKind::ShieldBearer => EnemyStats { hp: 8 + f * 2, damage: 2 + f / 3, speed: 85 + ff * 3, color: Rgb::new(500, 600, 700), size: 92 },
        EnemyKind::FlyingCat => EnemyStats { hp: 3 + f / 2, damage: 1 + f / 4, speed: 160 + ff * 7, color: Rgb::new(700, 900, 1000), size: 60 },
        EnemyKind::MimicChest => EnemyStats { hp: 4 + f, damage: 2 + f / 3, speed: 130 + ff * 5, color: Rgb::new(850, 750, 400), size: 70 },
        EnemyKind::Goliath => EnemyStats { hp: 12 + f * 3, damage: 3 + f / 2, speed: 60 + ff * 2, color: Rgb::new(700, 500, 600), size: 120 },
    }
}

/// Rounds left in an enemy's counter when it appears: summons, volley size or
/// revives.
pub open spec fn spawn_ammo(kind: EnemyKind) -> i32 {
    match kind {
        EnemyKind::Summoner => 4,
        EnemyKind::Caster => 3,
        EnemyKind::NecromancerCat => 2,
        _ => 0,
    }
}

/// The numbers of an elite (or plain) `kind` on `floor` fit their machine types.
pub open spec fn spawn_fits(kind: EnemyKind, floor: u32, elite: bool) -> bool {
    &&& stats_fit(kind, floor)
    &&& elite ==> 2 * stat_hp(kind, floor as int) <= i32::MAX
    &&& elite ==> stat_damage(kind, floor as int) + 1 + floor / 3 <= i32::MAX
}

/// Whether an elite (or plain) `kind` on `floor` can be spawned: its hit
/// points and damage fit in an `i32`.
pub fn spawn_fits_check(kind: EnemyKind, floor: u32, elite: bool) -> (b: bool)
    ensures
        b == spawn_fits(kind, floor, elite),
{
    let f = floor as i64;
    let hp: i64 = match kind {
        EnemyKind::Hunter => 2 + f,
        EnemyKind::Bruiser => 5 + f * 2,
        EnemyKind::Seeker => 3 + f,
        EnemyKind::Boss => 60 + f * 20,
        EnemyKind::Charger => 6 + f * 2,
        EnemyKind::Bomber => 2 + f / 2,
        EnemyKind::Kitten => 1,
        EnemyKind::Splitter => 4 + f,
        EnemyKind::Caster => 3 + f,
        EnemyKind::Summoner => 5 + f,
        EnemyKind::Scratcher => 2 + f / 2,
        EnemyKind::Chonker => 15 + f * 3,
        EnemyKind::ShadowCat => 4 + f,
        EnemyKind::NecromancerCat => 6 + f,
        EnemyKind::ShieldBearer => 8 + f * 2,
        EnemyKind::FlyingCat => 3 + f / 2,
        EnemyKind::MimicChest => 4 + f,
        EnemyKind::Goliath => 12 + f * 3,
    };
    let damage: i64 = match kind {
        EnemyKind::Hunter => 1 + f / 4,
        EnemyKind::Bruiser => 2 + f / 3,
        EnemyKind::Seeker => 1 + f / 3,
        EnemyKind::Boss => 3 + f / 3,
        EnemyKind::Charger => 3 + f / 2,
        EnemyKind::Bomber => 4 + f / 2,
        EnemyKind::Kitten => 1,
        EnemyKind::Splitter => 2 + f / 3,
        EnemyKind::Caster => 1 + f / 3,
        EnemyKind::Summoner => 1 + f / 4,
        EnemyKind::Scratcher => 1 + f / 4,
        EnemyKind::Chonker => 2 + f / 3,
        EnemyKind::ShadowCat => 2 + f / 3,
        EnemyKind::NecromancerCat => 1 + f / 4,
        EnemyKind::ShieldBearer => 2 + f / 3,
        EnemyKind::FlyingCat => 1 + f / 4,
        EnemyKind::MimicChest => 2 + f / 3,
        EnemyKind::Goliath => 3 + f / 2,
    };
    let max: i64 = 0x7FFF_FFFF;
    let fits = f <= max && hp <= max && damage <= max;
    if elite {
        fits && 2 * hp <= max && damage + 1 + f / 3 <= max
    } else {
        fits
    }
}

/// The enemy record for a `kind` appearing on `floor`. An elite has twice the
/// hit points and `1 + floor / 3` more damage.
pub fn spawn_enemy_kind(kind: EnemyKind, floor: u32, elite: bool) -> (e: Enemy)
    requires
        spawn_fits(kind, floor, elite),
    ensures
        e.kind == kind,
        e.hp == if elite { 2 * stat_hp(kind, floor as int) } else { stat_hp(kind, floor as int) },
        e.max_hp == e.hp,
        e.damage == if elite {
            stat_damage(kind, floor as int) + 1 + floor / 3
        } else {
            stat_damage(kind, floor as int)
        },
        e.speed == stat_speed(kind, floor as int),
        e.elite == elite,
        e.splits == (kind == EnemyKind::Splitter),
        e.explodes == (kind == EnemyKind::Bomber),
        e.ammo == spawn_ammo(kind),
        e.state == EnemyState::Chase,
        e.state_timer.duration() == 100 * 1_000_000,
        e.state_timer.elapsed() == 0,
        !e.state_timer.done(),
        e.action_cd.duration() == 600 * 1_000_000,
        e.action_cd.elapsed() == 0,
        !e.action_cd.done(),
        !e.has_telegraph,
        e.charm.done(),
        e.disguised == (kind == EnemyKind::MimicChest),
        e.scale == 1000,
        e.hp >= 1,
        e.max_hp >= 1,
{
    let stats = enemy_stats(kind, floor);
    let mut hp = stats.hp;
    let mut damage = stats.damage;
    if elite {
        hp = hp * 2;
        damage = damage + 1 + (floor as i32) / 3;
    }
    let ammo = match kind {
        EnemyKind::Summoner => 4,
        EnemyKind::Caster => 3,
        EnemyKind::NecromancerCat => 2,
        _ => 0,
    };
    Enemy {
        kind,
        hp,
        max_hp: hp,
        damage,
        speed: stats.speed,
        elite,
        splits: kind == EnemyKind::Splitter,
        explodes: kind == EnemyKind::Bomber,
        ammo,
        state: EnemyState::Chase,
        state_timer: Cooldown::from_millis(100),
        action_cd: Cooldown::from_millis(600),
        has_telegraph: false,
        charm: Cooldown::ready(0),
        disguised: kind == EnemyKind::MimicChest,
        scale: 1000,
    }
}

/// Hit points of a revived `kind` on `floor`: half a fresh one's, at least one.
pub open spec fn revived_hp(kind: EnemyKind, floor: u32) -> int {
    if stat_hp(kind, floor as int) / 2 < 1 {
        1
    } else {
        stat_hp(kind, floor as int) / 2
    }
}

/// A corpse of `kind` raised by a necromancer cat on `floor`: a weaker
/// enemy of that kind, never elite and never in disguise, with half the hit
/// points of a fresh one.
pub fn revive_corpse(kind: EnemyKind, floor: u32) -> (e: Enemy)
    requires
        spawn_fits(kind, floor, false),
    ensures
        e.kind == kind,
        e.hp == revived_hp(kind, floor),
        e.max_hp == e.hp,
        e.damage == stat_damage(kind, floor as int),
        e.speed == stat_speed(kind, floor as int),
        !e.elite,
        !e.disguised,
        e.state == EnemyState::Chase,
        e.charm.done(),
        e.scale == 1000,
{
    let mut e = spawn_enemy_kind(kind, floor, false);
    let half = e.hp / 2;
    e.hp = if half < 1 { 1 } else { half };
    e.max_hp = e.hp;
    e.disguised = false;
    e
}

/// The boss that guards floor `floor`.
pub open spec fn boss_type_spec(floor: u32) -> BossType {
    if floor == 1 {
        BossType::GoblinKing
    } else if floor == 2 {
        BossType::Necromancer
    } else {
        BossType::Dragon
    }
}

/// The boss that guards floor `floor`.
pub fn boss_type_for(floor: u32) -> (b: BossType)
    ensures
        b == boss_type_spec(floor),
{
    if floor == 1 {
        BossType::GoblinKing
    } else if floor == 2 {
        BossType::Necromancer
    } else {
        BossType::Dragon
    }
}

/// Hit points of the boss of floor `floor`.
pub open spec fn boss_hp(floor: u32) -> int {
    match boss_type_spec(floor) {
        BossType::GoblinKing => 80,
        BossType::Necromancer => 75 + (floor + 2) * 25 + 20,
        BossType::Dragon => 75 + (floor + 2) * 25 + 40,
    }
}

/// Damage of the boss of floor `floor`.
pub open spec fn boss_damage(floor: u32) -> int {
    match boss_type_spec(floor) {
        BossType::GoblinKing => 2,
        _ => 3 + floor / 2,
    }
}

/// Speed of the boss of floor `floor`, in pixels per second.
pub open spec fn boss_speed(floor: u32) -> int {
    match boss_type_spec(floor) {
        BossType::GoblinKing => 78,
        _ => 100 + floor * 2,
    }
}

/// The boss of floor `floor` and its phase tracker, starting in phase 1.
pub fn spawn_boss(floor: u32) -> (r: (Enemy, BossPhases))
    requires
        (floor + 2) * 25 + 115 <= i32::MAX,
    ensures
        r.0.kind == EnemyKind::Boss,
        r.0.hp == boss_hp(floor),
        r.0.max_hp == boss_hp(floor),
        r.0.damage == boss_damage(floor),
        r.0.speed == boss_speed(floor),
        !r.0.elite && !r.0.splits && !r.0.explodes,
        r.0.ammo == match boss_type_spec(floor) {
            BossType::GoblinKing => 2i32,
            BossType::Necromancer => 4i32,
            BossType::Dragon => 3i32,
        },
        r.0.state == EnemyState::Chase,
        r.0.state_timer.duration() == 100 * 1_000_000,
        r.0.state_timer.elapsed() == 0,
        !r.0.state_timer.done(),
        r.0.action_cd.duration() == (if boss_type_spec(floor) == BossType::GoblinKing { 700int } else { 600int }) * 1_000_000,
        r.0.action_cd.elapsed() == 0,
        !r.0.action_cd.done(),
        !r.0.has_telegraph,
        r.0.charm.done(),
        !r.0.disguised,
        r.0.scale == 1000,
        r.1 == (BossPhases { boss_type: boss_type_spec(floor), current_phase: 1 }),
        r.0.max_hp >= 1,
{
    let boss_type = boss_type_for(floor);
    let (hp, damage, speed, action_ms, ammo) = match boss_type {
        BossType::GoblinKing => (80i32, 2i32, 78u64, 700u64, 2i32),
        BossType::Necromancer => (
            (75 + (floor + 2) * 25 + 20) as i32,
            3 + (floor as i32) / 2,
            100 + (floor as u64) * 2,
            600u64,
            4i32,
        ),
        BossType::Dragon => (
            (75 + (floor + 2) * 25 + 40) as i32,
            3 + (floor as i32) / 2,
            100 + (floor as u64) * 2,
            600u64,
            3i32,
        ),
    };
    let enemy = Enemy {
        kind: EnemyKind::Boss,
        hp,
        max_hp: hp,
        damage,
        speed,
        elite: false,
        splits: false,
        explodes: false,
        ammo,
        state: EnemyState::Chase,
        state_timer: Cooldown::from_millis(100),
        action_cd: Cooldown::from_millis(action_ms),
        has_telegraph: false,
        charm: Cooldown::ready(0),
        disguised: false,
        scale: 1000,
    };
    (enemy, BossPhases { boss_type, current_phase: 1 })
}

/// The three-dimensional boss of a depth room.
#[derive(Clone, Copy)]
pub struct DepthBossStats {
    pub name: &'static str,
    pub hp: i32,
    pub damage: i32,
    /// Speed in hundredths of a world unit per second.
    pub speed: u32,
    pub final_boss: bool,
    /// Time between volleys, in milliseconds.
    pub attack_ms: u64,
}

/// The boss of a depth room, if the room has one: the Depth Warden in an
/// arena, the Dragon of Depth in the final room.
pub fn depth_boss_for(kind: RoomKind) -> (b: Option<DepthBossStats>)
    ensures
        kind == RoomKind::DepthArena ==> (b matches Some(s) && s.name@ == "Depth Warden"@ && s.hp == 55
            && s.damage == 2 && s.speed == 135 && !s.final_boss && s.attack_ms == 1700),
        kind == RoomKind::DepthBoss ==> (b matches Some(s) && s.name@ == "Dragon of Depth"@ && s.hp == 135
            && s.damage == 3 && s.speed == 110 && s.final_boss && s.attack_ms == 1400),
        kind != RoomKind::DepthArena && kind != RoomKind::DepthBoss ==> b is None,
{
    match kind {
        RoomKind::DepthArena => Some(DepthBossStats {
            name: "Depth Warden",
            hp: 55,
            damage: 2,
            speed: 135,
            final_boss: false,
            attack_ms: 1700,
        }),
        RoomKind::DepthBoss => Some(DepthBossStats {
            name: "Dragon of Depth",
            hp: 135,
            damage: 3,
            speed: 110,
            final_boss: true,
            attack_ms: 1400,
        }),
        _ => None,
    }
}

/// A depth boss's volley: the spread of its shots, their speed, and the
/// wait before the next volley.
pub struct DepthVolley {
    /// Shot directions relative to the player's direction, in milliradians.
    pub angles: Vec<i64>,
    /// Shot speed, in hundredths of a world unit per second.
    pub speed: u32,
    /// Wait before the next volley, in milliseconds.
    pub reload_ms: u64,
}

/// The final boss fires three shots fanned 0.35 radians apart, faster and
/// more often; any other depth boss fires one straight shot.
pub fn depth_boss_volley(final_boss: bool) -> (v: DepthVolley)
    ensures
        final_boss ==> v.angles@ == seq![-350i64, 0, 350] && v.speed == 500 && v.reload_ms == 1150,
        !final_boss ==> v.angles@ == seq![0i64] && v.speed == 430 && v.reload_ms == 1550,
{
    if final_boss {
        DepthVolley { angles: vec![-350, 0, 350], speed: 500, reload_ms: 1150 }
    } else {
        DepthVolley { angles: vec![0], speed: 430, reload_ms: 1550 }
    }
}

/// The phase a room starts in: fights in combat, boss and depth arena rooms;
/// everything else starts cleared.
pub open spec fn room_phase_spec(kind: RoomKind) -> Phase {
    match kind {
        RoomKind::Combat | RoomKind::Boss | RoomKind::DepthArena | RoomKind::DepthBoss => Phase::Fighting,
        _ => Phase::RoomCleared,
    }
}

/// The phase a room of kind `kind` starts in.
pub fn room_phase(kind: RoomKind) -> (p: Phase)
    ensures
        p == room_phase_spec(kind),
{
    match kind {
        RoomKind::Combat | RoomKind::Boss | RoomKind::DepthArena | RoomKind::DepthBoss => Phase::Fighting,
        _ => Phase::RoomCleared,
    }
}

/// Themed enemy groups that spawn together.
#[derive(Clone, Copy, PartialEq, Eq, Structural, Debug)]
pub enum EnemyGroup {
    /// Swarm of small, weak enemies.
    Swarm,
    /// Frontline fighters with ranged support.
    Balanced,
    /// Heavy hitters with backup.
    Assault,
    /// Ranged specialists with protection.
    RangedSquad,
    /// Support enemies that help others.
    SupportGroup,
    /// Powerful enemies, all elite.
    Elite,
    /// A necromancer with revivable minions.
    Undead,
    /// Flying enemies that ignore obstacles.
    Flying,
}

/// Percentage chance of an elite group on `floor`: five per floor, at most 25.
pub open spec fn elite_chance(floor: u32) -> int {
    if floor >= 5 {
        25
    } else {
        floor * 5
    }
}

/// The group chosen by a percentage roll `roll` on `floor`. The roll is tried
/// against cumulative chances: elite (floor 3 on), support (+15, floor 2 on),
/// ranged (+20, floor 2 on), undead (+15, floor 3 on), flying (+10, floor 2 on),
/// assault (+15), balanced (+20), and swarm otherwise.
pub open spec fn enemy_group_spec(floor: u32, roll: u32) -> EnemyGroup {
    let e = elite_chance(floor);
    if roll < e && floor >= 3 {
        EnemyGroup::Elite
    } else if roll < e + 15 && floor >= 2 {
        EnemyGroup::SupportGroup
    } else if roll < e + 35 && floor >= 2 {
        EnemyGroup::RangedSquad
    } else if roll < e + 50 && floor >= 3 {
        EnemyGroup::Undead
    } else if roll < e + 60 && floor >= 2 {
        EnemyGroup::Flying
    } else if roll < e + 75 {
        EnemyGroup::Assault
    } else if roll < e + 95 {
        EnemyGroup::Balanced
    } else {
        EnemyGroup::Swarm
    }
}

/// Picks an enemy group for `floor` from a roll in `0..100`.
pub fn pick_enemy_group(floor: u32, room: u32, roll: u32) -> (g: EnemyGroup)
    ensures
        g == enemy_group_spec(floor, roll),
        floor <= 1 ==> (g == EnemyGroup::Assault || g == EnemyGroup::Balanced || g == EnemyGroup::Swarm),
{
    let e: u32 = if floor >= 5 { 25 } else { floor * 5 };
    if roll < e && floor >= 3 {
        EnemyGroup::Elite
    } else if roll < e + 15 && floor >= 2 {
        EnemyGroup::SupportGroup
    } else if roll < e + 35 && floor >= 2 {
        EnemyGroup::RangedSquad
    } else if roll < e + 50 && floor >= 3 {
        EnemyGroup::Undead
    } else if roll < e + 60 && floor >= 2 {
        EnemyGroup::Flying
    } else if roll < e + 75 {
        EnemyGroup::Assault
    } else if roll < e + 95 {
        EnemyGroup::Balanced
    } else {
        EnemyGroup::Swarm
    }
}

/// The enemy kinds that appear on `floor`, with their weights in halves.
pub open spec fn floor_pool_spec(floor: u32) -> Seq<(EnemyKind, u32)> {
    if floor == 1 {
        seq![(EnemyKind::Hunter, 6u32), (EnemyKind::Bruiser, 4u32), (EnemyKind::Scratcher, 3u32), (EnemyKind::Kitten, 2u32)]
    } else if floor == 2 {
        seq![
            (EnemyKind::Hunter, 5u32),
            (EnemyKind::Seeker, 4u32),
            (EnemyKind::Charger, 4u32),
            (EnemyKind::Bomber, 3u32),
            (EnemyKind::Splitter, 3u32),
            (EnemyKind::ShieldBearer, 2u32),
        ]
    } else if floor == 3 {
        seq![
            (EnemyKind::Caster, 5u32),
            (EnemyKind::Summoner, 3u32),
            (EnemyKind::ShadowCat, 3u32),
            (EnemyKind::FlyingCat, 4u32),
            (EnemyKind::Bruiser, 4u32),
            (EnemyKind::Charger, 3u32),
        ]
    } else if floor == 4 {
        seq![
            (EnemyKind::Chonker, 4u32),
            (EnemyKind::NecromancerCat, 4u32),
            (EnemyKind::Goliath, 3u32),
            (EnemyKind::MimicChest, 3u32),
            (EnemyKind::Seeker, 4u32),
            (EnemyKind::Bomber, 3u32),
        ]
    } else {
        seq![
            (EnemyKind::NecromancerCat, 4u32),
            (EnemyKind::Goliath, 4u32),
            (EnemyKind::ShadowCat, 3u32),
            (EnemyKind::Chonker, 3u32),
            (EnemyKind::Summoner, 3u32),
            (EnemyKind::MimicChest, 2u32),
            (EnemyKind::FlyingCat, 3u32),
        ]
    }
}

/// The enemy pool of `floor`: kinds with weights in halves (a weight of 6
/// stands for three).
pub fn get_floor_enemy_pool(floor: u32) -> (pool: Vec<(EnemyKind, u32)>)
    ensures
        pool@ == floor_pool_spec(floor),
        pool@.len() >= 4,
{
    if floor == 1 {
        vec![(EnemyKind::Hunter, 6), (EnemyKind::Bruiser, 4), (EnemyKind::Scratcher, 3), (EnemyKind::Kitten, 2)]
    } else if floor == 2 {
        vec![
            (EnemyKind::Hunter, 5),
            (EnemyKind::Seeker, 4),
            (EnemyKind::Charger, 4),
            (EnemyKind::Bomber, 3),
            (EnemyKind::Splitter, 3),
            (EnemyKind::ShieldBearer, 2),
        ]
    } else if floor == 3 {
        vec![
            (EnemyKind::Caster, 5),
            (EnemyKind::Summoner, 3),
            (EnemyKind::ShadowCat, 3),
            (EnemyKind::FlyingCat, 4),
            (EnemyKind::Bruiser, 4),
            (EnemyKind::Charger, 3),
        ]
    } else if floor == 4 {
        vec![
            (EnemyKind::Chonker, 4),
            (EnemyKind::NecromancerCat, 4),
            (EnemyKind::Goliath, 3),
            (EnemyKind::MimicChest, 3),
            (EnemyKind::Seeker, 4),
            (EnemyKind::Bomber, 3),
        ]
    } else {
        vec![
            (EnemyKind::NecromancerCat, 4),
            (EnemyKind::Goliath, 4),
            (EnemyKind::ShadowCat, 3),
            (EnemyKind::Chonker, 3),
            (EnemyKind::Summoner, 3),
            (EnemyKind::MimicChest, 2),
            (EnemyKind::FlyingCat, 3),
        ]
    }
}

/// How many enemy groups a combat room holds.
#[derive(Clone, Copy, PartialEq, Eq, Structural, Debug)]
pub enum GroupCount {
    /// Exactly this many, with no draw.
    Fixed(u32),
    /// A draw from `lo..hi`.
    Range(u32, u32),
}

/// The number of groups in a combat room on `floor`: one on floor 1, one or
/// two on floor 2, two on floor 3 (still drawn), two or three afterwards.
pub fn group_count_for(floor: u32) -> (c: GroupCount)
    ensures
        c == if floor == 1 {
            GroupCount::Fixed(1)
        } else if floor == 2 {
            GroupCount::Range(1, 3)
        } else if floor == 3 {
            GroupCount::Range(2, 3)
        } else {
            GroupCount::Range(2, 4)
        },
{
    if floor == 1 {
        GroupCount::Fixed(1)
    } else if floor == 2 {
        GroupCount::Range(1, 3)
    } else if floor == 3 {
        GroupCount::Range(2, 3)
    } else {
        GroupCount::Range(2, 4)
    }
}

/// The kind of the lone elite that may join a combat room on `floor` (from
/// floor 2 on).
pub fn solo_elite_kind(floor: u32) -> (k: EnemyKind)
    ensures
        k == if floor == 2 {
            EnemyKind::Chonker
        } else if floor == 3 {
            EnemyKind::ShadowCat
        } else {
            EnemyKind::Goliath
        },
{
    if floor == 2 {
        EnemyKind::Chonker
    } else if floor == 3 {
        EnemyKind::ShadowCat
    } else {
        EnemyKind::Goliath
    }
}

/// Chance that an obstacle is destructible: two in five.
pub const DESTRUCTIBLE_NUM: u32 = 2;

/// Denominator of the chance that an obstacle is destructible.
pub const DESTRUCTIBLE_DEN: u32 = 5;

/// Number of obstacle placements tried in a combat room: two, one more per
/// two floors, at most four.
pub fn obstacle_count(floor: u32) -> (n: u32)
    ensures
        n == if 2 + floor / 2 < 4 { 2 + floor / 2 } else { 4 },
        2 <= n <= 4,
{
    let half = floor / 2;
    if half < 2 {
        2 + half
    } else {
        4
    }
}

impl Obstacle {
    /// An obstacle: a destructible one breaks after 2 damage, a solid one has 999.
    pub fn new(destructible: bool) -> (o: Obstacle)
        ensures
            o == (Obstacle { destructible, hp: if destructible { 2i32 } else { 999i32 } }),
    {
        Obstacle { destructible, hp: if destructible { 2 } else { 999 } }
    }

    /// Takes `damage`; returns whether the obstacle is destroyed.
    pub fn take_damage(&mut self, damage: i32) -> (destroyed: bool)
        requires
            i32::MIN <= old(self).hp - damage <= i32::MAX,
        ensures
            final(self).hp == old(self).hp - damage,
            final(self).destructible == old(self).destructible,
            destroyed == (final(self).hp <= 0),
    {
        self.hp = self.hp - damage;
        self.hp <= 0
    }
}

/// The pickups of a rest room on `floor`: two hearts of 2 hit points, one
/// more per two floors.
pub fn rest_room_pickups(floor: u32) -> (p: Vec<PickupKind>)
    ensures
        p@.len() == 2 + floor / 2,
        forall|i: int| 0 <= i < p@.len() ==> p@[i] == PickupKind::Heal(2),
{
    let n: u32 = 2 + floor / 2;
    let mut p: Vec<PickupKind> = Vec::new();
    let mut i: u32 = 0;
    while i < n
        invariant
            i <= n,
            n == 2 + floor / 2,
            p@.len() == i,
            forall|j: int| 0 <= j < p@.len() ==> p@[j] == PickupKind::Heal(2),
        decreases n - i,
    {
        p.push(PickupKind::Heal(2));
        i = i + 1;
    }
    p
}

/// Chance that a combat room also holds a lone elite, as `(num, den)`: three
/// in twenty from floor 2 on, none before.
pub fn solo_elite_odds(floor: u32) -> (o: Option<(u32, u32)>)
    ensures
        o == if floor >= 2 { Some((3u32, 20u32)) } else { None::<(u32, u32)> },
{
    if floor >= 2 {
        Some((3, 20))
    } else {
        None
    }
}

/// What a treasure room holds, by a percentage roll.
#[derive(Clone, Copy, PartialEq, Eq, Structural, Debug)]
pub enum TreasureTier {
    /// A sword other than the starter (40%).
    Sword,
    /// A found ability (32%).
    Ability,
    /// A small upgrade (28%).
    Minor,
}

/// The treasure tier of a roll in `0..100`.
pub fn treasure_tier(roll: u32) -> (t: TreasureTier)
    ensures
        t == if roll < 40 {
            TreasureTier::Sword
        } else if roll < 72 {
            TreasureTier::Ability
        } else {
            TreasureTier::Minor
        },
{
    if roll < 40 {
        TreasureTier::Sword
    } else if roll < 72 {
        TreasureTier::Ability
    } else {
        TreasureTier::Minor
    }
}

/// The draw bound that picks the treasure of a tier: sword indices `1..6`,
/// ability indices `0..7`, minor upgrades `0..3`.
pub fn treasure_pick_range(tier: TreasureTier) -> (r: (usize, usize))
    ensures
        r == match tier {
            TreasureTier::Sword => (1usize, 6usize),
            TreasureTier::Ability => (0usize, 7usize),
            TreasureTier::Minor => (0usize, 3usize),
        },
{
    match tier {
        TreasureTier::Sword => (1, 6),
        TreasureTier::Ability => (0, 7),
        TreasureTier::Minor => (0, 3),
    }
}

/// The treasure of tier `tier` picked by `pick`.
pub fn treasure_pickup(tier: TreasureTier, pick: usize) -> (p: PickupKind)
    requires
        match tier {
            TreasureTier::Sword => 1 <= pick < 6,
            TreasureTier::Ability => pick < 7,
            TreasureTier::Minor => pick < 3,
        },
    ensures
        p == match tier {
            TreasureTier::Sword => PickupKind::SwordDrop(pick),
            TreasureTier::Ability => PickupKind::AbilityDrop(found_ability(pick as int)),
            TreasureTier::Minor => if pick == 0 {
                PickupKind::DamageUp(1)
            } else if pick == 1 {
                PickupKind::SpeedUp(20)
            } else {
                PickupKind::MaxHpUp(2)
            },
        },
{
    match tier {
        TreasureTier::Sword => PickupKind::SwordDrop(pick),
        TreasureTier::Ability => PickupKind::AbilityDrop(found_ability_at(pick)),
        TreasureTier::Minor => if pick == 0 {
            PickupKind::DamageUp(1)
        } else if pick == 1 {
            PickupKind::SpeedUp(20)
        } else {
            PickupKind::MaxHpUp(2)
        },
    }
}

/// The gem dropped for `roll`: by `roll % 3`, a damage gem, a speed gem or a
/// heart.
pub open spec fn gem_reward_spec(roll: u32) -> PickupKind {
    if roll % 3 == 0 {
        PickupKind::DamageUp(1)
    } else if roll % 3 == 1 {
        PickupKind::SpeedUp(15)
    } else {
        PickupKind::Heal(3)
    }
}

/// The gem dropped for `roll`.
pub fn spawn_gem_reward(roll: u32) -> (p: PickupKind)
    ensures
        p == gem_reward_spec(roll),
{
    let r = roll % 3;
    if r == 0 {
        PickupKind::DamageUp(1)
    } else if r == 1 {
        PickupKind::SpeedUp(15)
    } else {
        PickupKind::Heal(3)
    }
}

/// The name of the boss of floor `floor`.
pub fn boss_room_name(floor: u32) -> (s: &'static str)
    ensures
        s@ == if floor == 1 {
            "Goblin King"@
        } else if floor == 2 {
            "Necromancer"@
        } else {
            "Dragon"@
        },
{
    if floor == 1 {
        "Goblin King"
    } else if floor == 2 {
        "Necromancer"
    } else {
        "Dragon"
    }
}

/// The display name of a boss type.
pub fn boss_name(boss_type: BossType) -> (s: &'static str)
    ensures
        s@ == match boss_type {
            BossType::GoblinKing => "Goblin King"@,
            BossType::Necromancer => "Necromancer"@,
            BossType::Dragon => "Dragon"@,
        },
{
    match boss_type {
        BossType::GoblinKing => "Goblin King",
        BossType::Necromancer => "Necromancer",
        BossType::Dragon => "Dragon",
    }
}

} // verus!
