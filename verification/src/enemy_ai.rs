//! What enemies do: their attacks and the state machine that paces them.
use crate::combat::{
    action_cooldown, action_cooldown_spec, boss_cooldown, boss_cooldown_spec, windup_spec, windup_time,
};
use crate::components::{dormant, BossType, Enemy, EnemyKind, EnemyState};
use crate::timer::Cooldown;
use vstd::prelude::*;

verus! {

/// What an attacking enemy knows about the player.
#[derive(Clone, Copy, PartialEq, Eq, Structural, Debug)]
pub struct AttackSenses {
    /// The player is within the enemy's melee reach.
    pub in_melee_reach: bool,
    /// The player is within an explosion's radius (120 pixels).
    pub in_blast_radius: bool,
    /// The player cannot be hurt right now.
    pub invuln: bool,
}

/// Projectiles fired together: one per angle (milliradians off the aim).
pub struct Volley {
    pub angles: Vec<i64>,
    /// Pixels per second.
    pub speed: u32,
    pub damage: i32,
    /// Distance from the enemy where the projectiles appear, in pixels.
    pub offset: u32,
}

/// An enemy called in by an attack: its kind, whether it is elite, and where
/// it appears relative to the caller, in pixels.
#[derive(Clone, Copy, PartialEq, Eq, Structural, Debug)]
pub struct Summon {
    pub kind: EnemyKind,
    pub elite: bool,
    pub dx: i32,
    pub dy: i32,
}

/// What a summoner calls in: two plain kittens, to its right and left and a
/// little above it.
pub open spec fn summoned_pair() -> Seq<Summon> {
    seq![
        Summon { kind: EnemyKind::Kitten, elite: false, dx: 40i32, dy: 30i32 },
        Summon { kind: EnemyKind::Kitten, elite: false, dx: -40i32, dy: 30i32 },
    ]
}

/// What an attack does besides changing the attacker.
pub struct AttackOutcome {
    /// Hit points the player loses.
    pub player_damage: i32,
    /// Screen shake added, in thousandths of full trauma.
    pub shake: u32,
    pub volley: Option<Volley>,
    /// Enemies summoned next to the attacker.
    pub summons: Vec<Summon>,
    /// The attacker blew up (and is gone).
    pub exploded: bool,
}

/// Kinds whose attack is a melee swipe that shakes the screen.
pub open spec fn is_shaking_melee(kind: EnemyKind) -> bool {
    kind is Hunter || kind is Bruiser || kind is Kitten || kind is Splitter || kind is NecromancerCat
        || kind is ShieldBearer || kind is FlyingCat || kind is MimicChest || kind is Goliath
}

/// Angles of a boss volley, by boss and hit-point band.
pub open spec fn boss_volley_angles(goblin: bool, band: u8) -> Seq<i64> {
    if goblin {
        if band == 1 {
            seq![0i64]
        } else if band == 2 {
            seq![-180i64, 180i64]
        } else {
            seq![-250i64, 0i64, 250i64]
        }
    } else {
        if band == 1 {
            seq![-200i64, 200i64]
        } else if band == 2 {
            seq![-300i64, 0i64, 300i64]
        } else {
            seq![-400i64, -200i64, 0i64, 200i64, 400i64]
        }
    }
}

/// Speed of a boss volley, by boss and hit-point band.
pub open spec fn boss_volley_speed(goblin: bool, band: u8) -> u32 {
    if goblin {
        if band == 1 { 190 } else if band == 2 { 205 } else { 220 }
    } else {
        if band == 1 { 250 } else if band == 2 { 275 } else { 300 }
    }
}

/// The pause a boss sets after a volley in bands 2 and 3, in milliseconds.
pub open spec fn boss_volley_pause(goblin: bool, band: u8) -> u64 {
    if goblin {
        if band == 2 { 950 } else { 800 }
    } else {
        if band == 2 { 700 } else { 500 }
    }
}

/// Angles of a caster's fan of `n` projectiles, 220 milliradians apart and
/// centred on the aim.
pub open spec fn caster_angles(n: int) -> Seq<i64> {
    Seq::new(n as nat, |i: int| ((2 * i - (n - 1)) * 110) as i64)
}

/// The band (1 to 3) of a boss's attack, from its share of hit points
/// `hp / max_hp` taken as it stands: above 0.66 is band 1, above 0.33 band 2,
/// else band 3. A negative maximum turns the share's sign around; with a
/// maximum of zero the share is unbounded, above everything for positive hit
/// points and below (or undefined) otherwise.
pub open spec fn attack_band(hp: int, max_hp: int) -> u8 {
    if max_hp > 0 {
        if hp * 100 > 66 * max_hp {
            1
        } else if hp * 100 > 33 * max_hp {
            2
        } else {
            3
        }
    } else if max_hp < 0 {
        if hp * 100 < 66 * max_hp {
            1
        } else if hp * 100 < 33 * max_hp {
            2
        } else {
            3
        }
    } else if hp > 0 {
        1
    } else {
        3
    }
}

/// The band of a boss's attack, computed.
pub fn attack_band_of(hp: i32, max_hp: i32) -> (b: u8)
    ensures
        b == attack_band(hp as int, max_hp as int),
{
    let h: i64 = hp as i64 * 100;
    let m: i64 = max_hp as i64;
    if m > 0 {
        if h > 66 * m {
            1
        } else if h > 33 * m {
            2
        } else {
            3
        }
    } else if m < 0 {
        if h < 66 * m {
            1
        } else if h < 33 * m {
            2
        } else {
            3
        }
    } else if hp > 0 {
        1
    } else {
        3
    }
}

/// The attacker after its attack.
pub open spec fn attacker_after(e: Enemy, boss_type: Option<BossType>) -> Enemy {
    let goblin = boss_type == Some(BossType::GoblinKing);
    let band = attack_band(e.hp as int, e.max_hp as int);
    match e.kind {
        EnemyKind::Boss => if band == 1 {
            e
        } else {
            Enemy { action_cd: Cooldown::fresh(boss_volley_pause(goblin, band) as nat), ..e }
        },
        EnemyKind::Summoner => if e.ammo > 0 {
            Enemy { ammo: (e.ammo - 1) as i32, ..e }
        } else {
            e
        },
        EnemyKind::Chonker => Enemy {
            state: EnemyState::Charge,
            state_timer: Cooldown::fresh(600),
            ..e
        },
        _ => e,
    }
}

/// Whether `out` is the outcome of an attack by `e` with senses `s`.
pub open spec fn attack_outcome_spec(out: AttackOutcome, e: Enemy, boss_type: Option<BossType>, s: AttackSenses) -> bool {
    let hits = s.in_melee_reach && !s.invuln;
    let goblin = boss_type == Some(BossType::GoblinKing);
    let band = attack_band(e.hp as int, e.max_hp as int);
    &&& out.player_damage == if (is_shaking_melee(e.kind) || e.kind == EnemyKind::Scratcher) && hits {
        e.damage as int
    } else if e.kind == EnemyKind::Bomber && s.in_blast_radius && !s.invuln {
        e.damage + 2
    } else {
        0
    }
    &&& out.shake == if is_shaking_melee(e.kind) && hits {
        350u32
    } else if e.kind == EnemyKind::Bomber && s.in_blast_radius && !s.invuln {
        600u32
    } else {
        0u32
    }
    &&& out.summons@ == if e.kind == EnemyKind::Summoner && e.ammo > 0 { summoned_pair() } else { Seq::empty() }
    &&& out.exploded == (e.kind == EnemyKind::Bomber)
    &&& match e.kind {
        EnemyKind::Seeker => out.volley matches Some(v) && v.angles@ == seq![0i64] && v.speed == 250
            && v.damage == e.damage && v.offset == 24,
        EnemyKind::Caster => out.volley matches Some(v)
            && v.angles@ == caster_angles(if e.ammo < 1 { 1 } else { e.ammo as int })
            && v.speed == 230 && v.damage == e.damage && v.offset == 22,
        EnemyKind::Boss => out.volley matches Some(v) && v.angles@ == boss_volley_angles(goblin, band)
            && v.speed == boss_volley_speed(goblin, band)
            && v.damage == if !goblin && band == 3 { e.damage + 1 } else { e.damage as int }
            && v.offset == 28,
        _ => out.volley is None,
    }
}

/// The numbers of an attack by `e` fit their machine types.
pub open spec fn attack_fits(e: Enemy) -> bool {
    &&& e.kind == EnemyKind::Bomber ==> e.damage <= i32::MAX - 2
    &&& e.kind == EnemyKind::Boss ==> e.damage < i32::MAX
}

/// A volley with the given angles.
fn volley(angles: Vec<i64>, speed: u32, damage: i32, offset: u32) -> (v: Volley)
    ensures
        v.angles@ == angles@,
        v.speed == speed,
        v.damage == damage,
        v.offset == offset,
{
    Volley { angles, speed, damage, offset }
}

fn spread1(a: i64) -> (v: Vec<i64>)
    ensures
        v@ == seq![a],
{
    vec![a]
}

fn spread2(a: i64, b: i64) -> (v: Vec<i64>)
    ensures
        v@ == seq![a, b],
{
    vec![a, b]
}

fn spread3(a: i64, b: i64, c: i64) -> (v: Vec<i64>)
    ensures
        v@ == seq![a, b, c],
{
    vec![a, b, c]
}

fn spread5(a: i64, b: i64, c: i64, d: i64, e: i64) -> (v: Vec<i64>)
    ensures
        v@ == seq![a, b, c, d, e],
{
    vec![a, b, c, d, e]
}

/// Angles of a caster's fan of `n` projectiles.
fn caster_fan(n: i32) -> (angles: Vec<i64>)
    requires
        n >= 1,
    ensures
        angles@ == caster_angles(n as int),
{
    let mut angles: Vec<i64> = Vec::new();
    let mut i: i32 = 0;
    while i < n
        invariant
            0 <= i <= n,
            angles@ == caster_angles(n as int).take(i as int),
        decreases n - i,
    {
        let a: i64 = (2 * (i as i64) - (n as i64 - 1)) * 110;
        angles.push(a);
        assert(caster_angles(n as int).take(i + 1) =~= caster_angles(n as int).take(i as int).push(a));
        i = i + 1;
    }
    assert(caster_angles(n as int).take(n as int) =~= caster_angles(n as int));
    angles
}

/// Carries out the attack of `enemy`: melee swipes hurt the player within
/// reach unless invulnerable, bombers explode, ranged enemies and bosses fire
/// volleys (bosses fire more, faster, as they weaken), summoners call two
/// kittens while they have summons left, and chonkers start a charge.
pub fn perform_attack(enemy: &mut Enemy, boss_type: Option<BossType>, senses: AttackSenses) -> (out: AttackOutcome)
    requires
        attack_fits(*old(enemy)),
    ensures
        *final(enemy) == attacker_after(*old(enemy), boss_type),
        attack_outcome_spec(out, *old(enemy), boss_type, senses),
{
    let hits = senses.in_melee_reach && !senses.invuln;
    let mut out = AttackOutcome { player_damage: 0, shake: 0, volley: None, summons: Vec::new(), exploded: false };
    match enemy.kind {
        EnemyKind::Hunter | EnemyKind::Bruiser | EnemyKind::Kitten | EnemyKind::Splitter
        | EnemyKind::NecromancerCat | EnemyKind::ShieldBearer | EnemyKind::FlyingCat
        | EnemyKind::MimicChest | EnemyKind::Goliath => {
            if hits {
                out.player_damage = enemy.damage;
                out.shake = 350;
            }
        },
        EnemyKind::Scratcher => {
            if hits {
                out.player_damage = enemy.damage;
            }
        },
        EnemyKind::Charger | EnemyKind::ShadowCat => {},
        EnemyKind::Bomber => {
            if !senses.invuln && senses.in_blast_radius {
                out.player_damage = enemy.damage + 2;
                out.shake = 600;
            }
            out.exploded = true;
        },
        EnemyKind::Seeker => {
            out.volley = Some(volley(spread1(0), 250, enemy.damage, 24));
        },
        EnemyKind::Boss => {
            let band = attack_band_of(enemy.hp, enemy.max_hp);
            let goblin = match boss_type {
                Some(BossType::GoblinKing) => true,
                _ => false,
            };
            if goblin {
                if band == 1 {
                    out.volley = Some(volley(spread1(0), 190, enemy.damage, 28));
                } else if band == 2 {
                    out.volley = Some(volley(spread2(-180, 180), 205, enemy.damage, 28));
                    enemy.action_cd = Cooldown::from_millis(950);
                } else {
                    out.volley = Some(volley(spread3(-250, 0, 250), 220, enemy.damage, 28));
                    enemy.action_cd = Cooldown::from_millis(800);
                }
            } else if band == 1 {
                out.volley = Some(volley(spread2(-200, 200), 250, enemy.damage, 28));
            } else if band == 2 {
                out.volley = Some(volley(spread3(-300, 0, 300), 275, enemy.damage, 28));
                enemy.action_cd = Cooldown::from_millis(700);
            } else {
                out.volley = Some(volley(spread5(-400, -200, 0, 200, 400), 300, enemy.damage + 1, 28));
                enemy.action_cd = Cooldown::from_millis(500);
            }
        },
        EnemyKind::Caster => {
            let n = if enemy.ammo < 1 { 1 } else { enemy.ammo };
            out.volley = Some(volley(caster_fan(n), 230, enemy.damage, 22));
        },
        EnemyKind::Summoner => {
            if enemy.ammo > 0 {
                enemy.ammo = enemy.ammo - 1;
                out.summons = vec![
                    Summon { kind: EnemyKind::Kitten, elite: false, dx: 40, dy: 30 },
                    Summon { kind: EnemyKind::Kitten, elite: false, dx: -40, dy: 30 },
                ];
            }
        },
        EnemyKind::Chonker => {
            enemy.state = EnemyState::Charge;
            enemy.state_timer = Cooldown::from_millis(600);
        },
    }
    out
}

/// Wind-up of every boss attack, in milliseconds.
pub const BOSS_WINDUP_MS: u64 = 550;

/// What an enemy knows about the player this frame.
#[derive(Clone, Copy, PartialEq, Eq, Structural, Debug)]
pub struct EnemySenses {
    /// The player is close enough to start an attack: within the kind's
    /// trigger range, or a boss's attack range.
    pub in_range: bool,
    pub attack: AttackSenses,
    /// A charging enemy reached the player this frame.
    pub charge_contact: bool,
    /// A charging enemy barely moved this frame.
    pub charge_stalled: bool,
}

/// What an enemy does this frame, besides changing its own state.
pub struct EnemyTurn {
    /// It walks (or charges) rather than stands.
    pub moving: bool,
    /// It takes aim at the player for the coming attack.
    pub aim: bool,
    /// A telegraph of this many milliseconds must be shown.
    pub telegraph_ms: Option<u64>,
    /// The attack it carried out.
    pub attack: Option<AttackOutcome>,
    /// Hit points the player loses to a charge.
    pub contact_damage: i32,
    /// Screen shake added by a charge, in thousandths of full trauma.
    pub contact_shake: u32,
    /// The player was hurt, so the player's invulnerability starts over.
    pub hurt_player: bool,
}

/// The enemy after one frame of behaviour, when it is not dormant.
pub open spec fn active_step_enemy(o: Enemy, boss_type: Option<BossType>, s: EnemySenses) -> Enemy {
    if o.kind == EnemyKind::Boss {
        match o.state {
            EnemyState::Windup => if o.state_timer.done() {
                Enemy {
                    state: EnemyState::Recover,
                    state_timer: Cooldown::fresh(180),
                    ..attacker_after(Enemy { has_telegraph: false, ..o }, boss_type)
                }
            } else {
                Enemy { has_telegraph: true, ..o }
            },
            EnemyState::Recover => if o.state_timer.done() {
                Enemy {
                    state: EnemyState::Chase,
                    action_cd: Cooldown::fresh(boss_cooldown_spec(boss_type, o.hp as int, o.max_hp as int) as nat),
                    ..o
                }
            } else {
                o
            },
            _ => if s.in_range && o.action_cd.done() {
                Enemy {
                    state: EnemyState::Windup,
                    state_timer: Cooldown::fresh(BOSS_WINDUP_MS as nat),
                    has_telegraph: false,
                    ..o
                }
            } else {
                o
            },
        }
    } else {
        match o.state {
            EnemyState::Chase => if s.in_range && o.action_cd.done() {
                Enemy {
                    state: EnemyState::Windup,
                    state_timer: Cooldown::fresh(windup_spec(o.kind) as nat),
                    has_telegraph: false,
                    ..o
                }
            } else {
                o
            },
            EnemyState::Windup => if o.state_timer.done() {
                let a = attacker_after(Enemy { has_telegraph: false, ..o }, boss_type);
                if o.kind == EnemyKind::Charger {
                    Enemy { state: EnemyState::Charge, state_timer: Cooldown::fresh(450), ..a }
                } else if o.kind == EnemyKind::Chonker {
                    a
                } else {
                    Enemy { state: EnemyState::Recover, state_timer: Cooldown::fresh(500), ..a }
                }
            } else {
                Enemy { has_telegraph: true, ..o }
            },
            EnemyState::Charge => if s.charge_contact || o.state_timer.done() || s.charge_stalled {
                Enemy { state: EnemyState::Recover, state_timer: Cooldown::fresh(700), ..o }
            } else {
                o
            },
            EnemyState::Recover => if o.state_timer.done() {
                Enemy {
                    state: EnemyState::Chase,
                    action_cd: Cooldown::fresh(action_cooldown_spec(o.kind) as nat),
                    ..o
                }
            } else {
                o
            },
        }
    }
}

/// Whether `t` is what enemy `o` does this frame, when it is not dormant.
pub open spec fn active_turn_spec(t: EnemyTurn, o: Enemy, boss_type: Option<BossType>, s: EnemySenses) -> bool {
    let boss = o.kind == EnemyKind::Boss;
    let attacks = o.state == EnemyState::Windup && o.state_timer.done();
    let rams = !boss && o.state == EnemyState::Charge && s.charge_contact && !s.attack.invuln;
    &&& t.moving == if boss {
        o.state != EnemyState::Windup && o.state != EnemyState::Recover
    } else {
        o.state == EnemyState::Chase || o.state == EnemyState::Charge
    }
    &&& t.aim == ((if boss {
        o.state != EnemyState::Windup && o.state != EnemyState::Recover
    } else {
        o.state == EnemyState::Chase
    }) && s.in_range && o.action_cd.done())
    &&& t.telegraph_ms == if o.state == EnemyState::Windup && !o.has_telegraph {
        Some(if boss { BOSS_WINDUP_MS } else { windup_spec(o.kind) })
    } else {
        None
    }
    &&& (attacks <==> t.attack is Some)
    &&& (t.attack matches Some(out) ==> attack_outcome_spec(out, Enemy { has_telegraph: false, ..o }, boss_type, s.attack))
    &&& t.contact_damage == if rams { o.damage } else { 0i32 }
    &&& t.contact_shake == if rams { 500u32 } else { 0u32 }
    &&& t.hurt_player == (rams || (!boss && attacks && (t.attack matches Some(out) && out.player_damage > 0)))
}

/// A turn in which the enemy does nothing.
pub open spec fn idle_turn(t: EnemyTurn) -> bool {
    &&& !t.moving
    &&& !t.aim
    &&& t.telegraph_ms is None
    &&& t.attack is None
    &&& t.contact_damage == 0
    &&& t.contact_shake == 0
    &&& !t.hurt_player
}

/// The enemy after one frame of behaviour: a charmed enemy, or a mimic in
/// disguise, stays as it is.
pub open spec fn ai_step_enemy(o: Enemy, boss_type: Option<BossType>, s: EnemySenses) -> Enemy {
    if dormant(o) {
        o
    } else {
        active_step_enemy(o, boss_type, s)
    }
}

/// Whether `t` is what enemy `o` does this frame: a charmed enemy, or a
/// mimic in disguise, idles.
pub open spec fn ai_turn_spec(t: EnemyTurn, o: Enemy, boss_type: Option<BossType>, s: EnemySenses) -> bool {
    if dormant(o) {
        idle_turn(t)
    } else {
        active_turn_spec(t, o, boss_type, s)
    }
}

/// One frame of an enemy's behaviour, after its timers have been advanced.
///
/// An ordinary enemy chases until the player is in range and its action is
/// ready, winds up (showing a telegraph), attacks, and recovers before chasing
/// again; chargers and chonkers charge after their wind-up until they reach
/// the player, stall or run out of time, hurting the player on contact unless
/// the player is invulnerable. A boss chases, winds up for 550 ms, fires and
/// recovers, with pauses that shorten as its hit points fall. A charmed enemy,
/// or a mimic still in disguise, does nothing.
#[verifier::rlimit(40)]
pub fn enemy_ai_step(enemy: &mut Enemy, boss_type: Option<BossType>, senses: EnemySenses) -> (turn: EnemyTurn)
    requires
        old(enemy).state == EnemyState::Windup ==> attack_fits(*old(enemy)),
    ensures
        *final(enemy) == ai_step_enemy(*old(enemy), boss_type, senses),
        ai_turn_spec(turn, *old(enemy), boss_type, senses),
{
    let ghost o = *enemy;
    let mut turn = EnemyTurn {
        moving: false,
        aim: false,
        telegraph_ms: None,
        attack: None,
        contact_damage: 0,
        contact_shake: 0,
        hurt_player: false,
    };
    if enemy.is_dormant() {
        return turn;
    }
    if enemy.kind == EnemyKind::Boss {
        match enemy.state {
            EnemyState::Windup => {
                if !enemy.has_telegraph {
                    turn.telegraph_ms = Some(BOSS_WINDUP_MS);
                    enemy.has_telegraph = true;
                }
                if enemy.state_timer.is_finished() {
                    enemy.has_telegraph = false;
                    let out = perform_attack(enemy, boss_type, senses.attack);
                    turn.attack = Some(out);
                    enemy.state = EnemyState::Recover;
                    enemy.state_timer = Cooldown::from_millis(180);
                }
            },
            EnemyState::Recover => {
                if enemy.state_timer.is_finished() {
                    enemy.state = EnemyState::Chase;
                    let cooldown = boss_cooldown(boss_type, enemy.hp, enemy.max_hp);
                    enemy.action_cd = Cooldown::from_millis(cooldown);
                }
            },
            _ => {
                turn.moving = true;
                if senses.in_range && enemy.action_cd.is_finished() {
                    turn.aim = true;
                    enemy.state = EnemyState::Windup;
                    enemy.state_timer = Cooldown::from_millis(BOSS_WINDUP_MS);
                    enemy.has_telegraph = false;
                }
            },
        }
        return turn;
    }
    match enemy.state {
        EnemyState::Chase => {
            turn.moving = true;
            if senses.in_range && enemy.action_cd.is_finished() {
                turn.aim = true;
                enemy.state = EnemyState::Windup;
                enemy.state_timer = Cooldown::from_millis(windup_time(enemy.kind));
                enemy.has_telegraph = false;
            }
        },
        EnemyState::Windup => {
            if !enemy.has_telegraph {
                turn.telegraph_ms = Some(windup_time(enemy.kind));
                enemy.has_telegraph = true;
            }
            if enemy.state_timer.is_finished() {
                enemy.has_telegraph = false;
                let out = perform_attack(enemy, boss_type, senses.attack);
                turn.hurt_player = out.player_damage > 0;
                turn.attack = Some(out);
                if enemy.kind == EnemyKind::Charger {
                    enemy.state = EnemyState::Charge;
                    enemy.state_timer = Cooldown::from_millis(450);
                } else if enemy.kind != EnemyKind::Chonker {
                    enemy.state = EnemyState::Recover;
                    enemy.state_timer = Cooldown::from_millis(500);
                }
            }
        },
        EnemyState::Charge => {
            turn.moving = true;
            if senses.charge_contact {
                if !senses.attack.invuln {
                    turn.contact_damage = enemy.damage;
                    turn.contact_shake = 500;
                    turn.hurt_player = true;
                }
                enemy.state = EnemyState::Recover;
                enemy.state_timer = Cooldown::from_millis(700);
            } else if enemy.state_timer.is_finished() || senses.charge_stalled {
                enemy.state = EnemyState::Recover;
                enemy.state_timer = Cooldown::from_millis(700);
            }
        },
        EnemyState::Recover => {
            if enemy.state_timer.is_finished() {
                enemy.state = EnemyState::Chase;
                enemy.action_cd = Cooldown::from_millis(action_cooldown(enemy.kind));
            }
        },
    }
    turn
}

/// Hit points the player loses to turn `t`: its attack's damage and a
/// charge's contact damage.
pub open spec fn turn_damage(t: EnemyTurn) -> int {
    (match t.attack {
        Some(out) => out.player_damage as int,
        None => 0,
    }) + t.contact_damage
}

/// `x` kept within the range of an `i64`.
pub open spec fn saturate_i64(x: int) -> int {
    if x < i64::MIN {
        i64::MIN as int
    } else if x > i64::MAX {
        i64::MAX as int
    } else {
        x
    }
}

/// What the enemies did to the player so far in one frame.
#[derive(Clone, Copy, PartialEq, Eq, Structural, Debug)]
pub struct FrameTally {
    /// Hit points lost so far (kept within the range of an `i64`).
    pub lost: i64,
    /// The player is invulnerable: from the start of the frame, or since an
    /// enemy hurt them in it.
    pub invuln: bool,
    /// Some enemy hurt the player in this frame.
    pub hurt: bool,
}

/// The tally after turn `t`: its damage is added, and a turn that hurt the
/// player makes them invulnerable for the rest of the frame.
pub open spec fn tally_after(tally: FrameTally, t: EnemyTurn) -> FrameTally {
    FrameTally {
        lost: saturate_i64(tally.lost + turn_damage(t)) as i64,
        invuln: tally.invuln || t.hurt_player,
        hurt: tally.hurt || t.hurt_player,
    }
}

/// The tally after the turns `turns`, one after the other.
pub open spec fn tally_after_all(tally: FrameTally, turns: Seq<EnemyTurn>) -> FrameTally
    decreases turns.len(),
{
    if turns.len() == 0 {
        tally
    } else {
        tally_after(tally_after_all(tally, turns.drop_last()), turns.last())
    }
}

/// What an enemy senses in a frame where the player's invulnerability is `invuln`.
pub open spec fn frame_senses(s: EnemySenses, invuln: bool) -> EnemySenses {
    EnemySenses { attack: AttackSenses { invuln, ..s.attack }, ..s }
}

/// One enemy's turn within a frame: it senses the player's invulnerability
/// as the tally has it, takes its step, and its damage and any hurt are
/// added to the tally.
pub fn enemy_turn_in_frame(
    enemy: &mut Enemy,
    boss_type: Option<BossType>,
    senses: EnemySenses,
    tally: &mut FrameTally,
) -> (turn: EnemyTurn)
    requires
        old(enemy).state == EnemyState::Windup ==> attack_fits(*old(enemy)),
    ensures
        *final(enemy) == ai_step_enemy(*old(enemy), boss_type, frame_senses(senses, old(tally).invuln)),
        ai_turn_spec(turn, *old(enemy), boss_type, frame_senses(senses, old(tally).invuln)),
        *final(tally) == tally_after(*old(tally), turn),
{
    let felt = EnemySenses { attack: AttackSenses { invuln: tally.invuln, ..senses.attack }, ..senses };
    let turn = enemy_ai_step(enemy, boss_type, felt);
    let attack_damage: i64 = match &turn.attack {
        Some(out) => out.player_damage as i64,
        None => 0,
    };
    let damage: i128 = attack_damage as i128 + turn.contact_damage as i128;
    let sum: i128 = tally.lost as i128 + damage;
    tally.lost = if sum < i64::MIN as i128 {
        i64::MIN
    } else if sum > i64::MAX as i128 {
        i64::MAX
    } else {
        sum as i64
    };
    if turn.hurt_player {
        tally.invuln = true;
        tally.hurt = true;
    }
    turn
}

} // verus!
