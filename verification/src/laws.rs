//! Properties that hold across the library's functions.
use crate::ability::{ready_slot, Ability, AbilitySlot};
use crate::combat::{hp_band, intensity_rank, intensity_spec};
use crate::enemy_ai::{
    ai_step_enemy, ai_turn_spec, attack_outcome_spec, attacker_after, frame_senses, AttackOutcome, AttackSenses, tally_after, tally_after_all, turn_damage, EnemySenses,
    EnemyTurn, FrameTally,
};
use crate::components::{charmed, dormant, CHARM_MS, GOLIATH_MAX_SCALE};
use crate::combat::grown_scale;
use crate::components::{BossType, Enemy, EnemyKind, EnemyState};
use crate::player::{ability_effect_spec, AbilityEffect, pickup_effect, shop_item_effect, enemy_frame_runs, frame_start, settled_after_frame, clamp_hp, after_ability, after_nap_heal, granted_abilities, heal_spec, nap_due};
use crate::ability::{ability_cooldown_ms, CAT_NAP_HEAL, CAT_NAP_MS, ZOOMIES_MS};
use crate::timer::Cooldown;
use crate::components::{PickupKind, ShopItemKind};
use crate::progression::{modifiers_on_entry, room_kind_spec, tick_durations};
use crate::room::{boss_rewards_spec, run_earnings, toggle_pause_spec};
use crate::groups::{group_squads_spec, squad_drawable, total_weight};
use crate::spawning::{floor_pool_spec, gem_reward_spec, EnemyGroup};
use crate::state::{
    abilities_distinct, combo_bonus_spec, effective_speed_spec, RunState, has_ability_spec, has_modifier_spec, modifiers_distinct, trauma_added, trauma_decayed, GameState,
    Modifier, RoomKind, FULL_TRAUMA,
};
use vstd::prelude::*;

verus! {

/// The last room of every floor, and only the last, is the boss room.
pub proof fn law_boss_room_is_last(room: u32, rooms_per_floor: u32, room_seed: u64, floor: u32)
    ensures
        (room_kind_spec(room, rooms_per_floor, room_seed, floor) == RoomKind::Boss) <==> (room == rooms_per_floor),
{
}

/// Rest and treasure rooms only ever appear as room 2, and room 2 (when it is
/// not the boss room) is always one of them; every other room is a fight.
pub proof fn law_room_two_is_rest_or_treasure(room: u32, rooms_per_floor: u32, room_seed: u64, floor: u32)
    ensures
        ({
            let k = room_kind_spec(room, rooms_per_floor, room_seed, floor);
            &&& (k == RoomKind::Rest || k == RoomKind::Treasure) <==> (room == 2 && room != rooms_per_floor)
            &&& (room != 2 && room != rooms_per_floor) ==> k == RoomKind::Combat
        }),
{
}

/// The position (floor, room) after leaving a room.
pub open spec fn next_position(floor: int, room: int, rooms_per_floor: int) -> (int, int) {
    if room + 1 > rooms_per_floor {
        (floor + 1, 1)
    } else {
        (floor, room + 1)
    }
}

/// The position after leaving `n` rooms in a row.
pub open spec fn position_after(floor: int, room: int, rooms_per_floor: int, n: nat) -> (int, int)
    decreases n,
{
    if n == 0 {
        (floor, room)
    } else {
        let p = next_position(floor, room, rooms_per_floor);
        position_after(p.0, p.1, rooms_per_floor, (n - 1) as nat)
    }
}

/// From room `room` of a floor, leaving `rooms_per_floor - room + 1` rooms
/// reaches room 1 of the next floor: every floor has exactly
/// `rooms_per_floor` rooms.
pub proof fn law_floor_has_rooms_per_floor_rooms(floor: int, room: int, rooms_per_floor: int)
    requires
        1 <= room <= rooms_per_floor,
    ensures
        position_after(floor, room, rooms_per_floor, (rooms_per_floor - room + 1) as nat) == (floor + 1, 1int),
    decreases rooms_per_floor - room,
{
    if room == rooms_per_floor {
        assert(position_after(floor + 1, 1, rooms_per_floor, 0) == (floor + 1, 1int));
    } else {
        law_floor_has_rooms_per_floor_rooms(floor, room + 1, rooms_per_floor);
    }
}

/// Entering rooms keeps the modifiers bounded: at most three, none twice, and
/// none with more than three rooms left.
pub proof fn law_modifiers_stay_bounded(
    mods: Seq<(Modifier, u32)>,
    kind: RoomKind,
    room_seed: u64,
    floor: u32,
    room: u32,
)
    requires
        mods.len() <= 3,
        modifiers_distinct(mods),
        forall|i: int| 0 <= i < mods.len() ==> mods[i].1 <= 3,
    ensures
        ({
            let after = modifiers_on_entry(tick_durations(mods), kind, room_seed, floor, room);
            &&& after.len() <= 3
            &&& modifiers_distinct(after)
            &&& forall|i: int| 0 <= i < after.len() ==> after[i].1 <= 3
        }),
{
    let t = tick_durations(mods);
    assert forall|i: int, j: int| 0 <= i < j < t.len() implies t[i].0 != t[j].0 by {
        assert(t[i].0 == mods[i].0 && t[j].0 == mods[j].0);
    }
    let after = modifiers_on_entry(t, kind, room_seed, floor, room);
    if after.len() > t.len() {
        assert forall|i: int, j: int| 0 <= i < j < after.len() implies after[i].0 != after[j].0 by {
            if j == t.len() {
                assert(after[i] == t[i]);
            }
        }
        assert forall|i: int| 0 <= i < after.len() implies after[i].1 <= 3 by {
            if i < t.len() {
                assert(after[i] == t[i]);
            }
        }
    }
}

/// A modifier's remaining duration drops by one room each time a room is
/// left, and never below zero.
pub proof fn law_modifier_durations_count_down(mods: Seq<(Modifier, u32)>, i: int)
    requires
        0 <= i < mods.len(),
    ensures
        tick_durations(mods).len() == mods.len(),
        tick_durations(mods)[i].0 == mods[i].0,
        tick_durations(mods)[i].1 == if mods[i].1 > 0 { mods[i].1 - 1 } else { 0 },
{
}

/// Granting an ability keeps the slots' shape: still one to three distinct
/// abilities, the starter slot untouched, and the granted ability slotted.
pub proof fn law_granted_abilities_keep_shape(s: Seq<AbilitySlot>, a: Ability)
    requires
        1 <= s.len() <= 3,
        abilities_distinct(s),
    ensures
        ({
            let t = granted_abilities(s, a);
            &&& 1 <= t.len() <= 3
            &&& abilities_distinct(t)
            &&& t[0] == s[0]
            &&& has_ability_spec(t, a)
        }),
{
    let t = granted_abilities(s, a);
    if !has_ability_spec(s, a) {
        assert forall|i: int, j: int| 0 <= i < j < t.len() implies t[i].ability != t[j].ability by {
            if j == t.len() - 1 && s.len() < 3 {
                assert(t[i] == s[i]);
            } else if j == 2 {
                assert(t[i] == s[i]);
            } else if i == 2 {
            } else {
                assert(t[i] == s[i] && t[j] == s[j]);
            }
        }
        if s.len() < 3 {
            assert(t[s.len() as int] == ready_slot(a));
        } else {
            assert(t[2] == ready_slot(a));
        }
    }
}

/// Healing never raises hit points above the maximum and, for a
/// non-negative amount, never lowers them.
pub proof fn law_heal_stays_in_range(hp: int, amount: int, max: int)
    requires
        0 <= hp <= max,
        amount >= 0,
    ensures
        hp <= heal_spec(hp, amount, max) <= max,
{
}

/// The combo bonus is between 0 and 3 and never falls as the combo grows.
pub proof fn law_combo_bonus_capped(a: u32, b: u32)
    requires
        a <= b,
    ensures
        0 <= combo_bonus_spec(a) <= combo_bonus_spec(b) <= 3,
{
}

/// More damage never makes a hit lighter.
pub proof fn law_hit_intensity_monotone(d1: int, d2: int, max_hp: int)
    requires
        d1 <= d2,
    ensures
        intensity_rank(intensity_spec(d1, max_hp)) <= intensity_rank(intensity_spec(d2, max_hp)),
{
}

/// A boss never returns to an earlier phase while it loses hit points.
pub proof fn law_boss_phase_never_reverts(hp_before: int, hp_after: int, max_hp: int)
    requires
        hp_after <= hp_before,
    ensures
        hp_band(hp_before, max_hp) <= hp_band(hp_after, max_hp),
        1 <= hp_band(hp_after, max_hp) <= 3,
{
}

/// Gem rewards repeat every three rolls.
pub proof fn law_gem_rewards_cycle(roll: u32)
    requires
        roll <= u32::MAX - 3,
    ensures
        gem_reward_spec(roll) == gem_reward_spec((roll + 3) as u32),
{
}

/// A beaten boss never drops the starter sword.
pub proof fn law_boss_sword_is_not_starter(floor: u32)
    ensures
        1 <= boss_rewards_spec(floor).sword_index <= 5,
{
}

/// A run that reached floor 1 or beyond earns at least ten currency per floor.
pub proof fn law_earnings_grow_with_floor(floor: u32, room: u32)
    ensures
        run_earnings(floor, room) >= 10 * floor,
{
}

/// An enemy only attacks at the end of its wind-up, and a wind-up only begins
/// from a chase (or a boss's approach) once its action is ready and the player
/// is in range.
pub proof fn law_attacks_follow_windup(t: EnemyTurn, o: Enemy, boss_type: Option<BossType>, s: EnemySenses)
    requires
        ai_turn_spec(t, o, boss_type, s),
    ensures
        t.attack is Some ==> o.state == EnemyState::Windup && o.state_timer.done(),
        ai_step_enemy(o, boss_type, s).state == EnemyState::Windup && o.state != EnemyState::Windup
            ==> s.in_range && o.action_cd.done(),
{
}

/// Camera shake stays between none and full trauma whatever is added, and
/// decay never raises it.
pub proof fn law_shake_stays_bounded(level: nat, amount: nat, delta_ns: nat)
    requires
        level <= FULL_TRAUMA,
    ensures
        level <= trauma_added(level, amount) <= FULL_TRAUMA,
        trauma_decayed(level, delta_ns) <= level,
{
}

/// Every squad of every group can be drawn: each group has at least one
/// squad, and no squad asks for an empty range or an impossible chance.
pub proof fn law_squads_are_drawable(group: EnemyGroup, floor: u32)
    ensures
        group_squads_spec(group, floor).len() >= 1,
        forall|i: int| 0 <= i < group_squads_spec(group, floor).len()
            ==> squad_drawable(#[trigger] group_squads_spec(group, floor)[i]),
{
}

/// Every floor's enemy pool carries weight, so a weighted pick from it
/// always has a roll to make.
pub proof fn law_floor_pool_has_weight(floor: u32)
    ensures
        total_weight(floor_pool_spec(floor)) > 0,
{
    reveal_with_fuel(crate::groups::prefix_weight, 8);
}

/// Pressing pause twice during play, or while paused, comes back to where it
/// started; on other screens the key does nothing.
pub proof fn law_pause_round_trip(state: GameState)
    ensures
        state == GameState::Playing || state == GameState::Paused ==> ({
            let once = toggle_pause_spec(state);
            &&& once is Some
            &&& once->0 != state
            &&& toggle_pause_spec(once->0) == Some(state)
        }),
        state == GameState::MainMenu || state == GameState::GameOver ==> toggle_pause_spec(state) is None,
{
}

/// An attack never leaves an enemy with a negative count of summons or
/// shots, and only a summoner's count changes, by at most one.
pub proof fn law_attack_counts_never_overdraw(e: Enemy, boss_type: Option<BossType>)
    requires
        e.ammo >= 0,
    ensures
        attacker_after(e, boss_type).ammo >= 0,
        e.ammo - 1 <= attacker_after(e, boss_type).ammo <= e.ammo,
        e.kind != EnemyKind::Summoner ==> attacker_after(e, boss_type).ammo == e.ammo,
{
}

/// Zoomies triples the movement speed for two seconds and no longer: once
/// used, the speed is three times the usual one until two seconds have
/// passed, and the usual one from then on.
pub proof fn law_zoomies_lasts_two_seconds(r: RunState, delta_ns: nat)
    requires
        r.abilities@.len() > 0,
    ensures
        ({
            let z = after_ability(r, Ability::Zoomies);
            let later = RunState { zoomies: z.zoomies.ticked(delta_ns), ..z };
            let usual = effective_speed_spec(RunState { zoomies: Cooldown::spent(ZOOMIES_MS as nat), ..r });
            &&& effective_speed_spec(z) == 3 * usual
            &&& effective_speed_spec(later) == if delta_ns >= 2_000_000_000 { usual } else { 3 * usual }
            &&& z.player_speed == r.player_speed
        }),
{
    Cooldown::lemma_fresh_ticked(ZOOMIES_MS as nat, delta_ns);
    Cooldown::lemma_fresh_spent(ZOOMIES_MS as nat);
}

/// A nap earns its hit points in order and never more than two: what a nap
/// timer has earned never falls as it ticks, and stays within two.
pub proof fn law_nap_earnings_grow_to_two(t: Cooldown, delta_ns: nat)
    requires
        t.elapsed() <= t.duration(),
    ensures
        nap_due(t) <= nap_due(t.ticked(delta_ns)),
        nap_due(t.ticked(delta_ns)) <= CAT_NAP_HEAL,
{
    t.law_tick_never_runs_backwards(delta_ns);
    let u = t.ticked(delta_ns);
    if !t.done() && t.duration() > 0 {
        let d = t.duration() as int;
        let e1 = t.elapsed() as int;
        let e2 = u.elapsed() as int;
        assert((2 * e1) / d <= (2 * e2) / d) by (nonlinear_arith)
            requires
                0 <= e1 <= e2,
                d > 0,
        ;
        assert((2 * e2) / d <= 2) by (nonlinear_arith)
            requires
                0 <= e2 <= d,
                d > 0,
        ;
    }
}

/// A Cat Nap heals two hit points over three seconds: after a nap starts
/// and `delta_ns` pass, nothing is healed before 1.5 s, one hit point from
/// then on, and both once the 3 s are over (never above the maximum).
pub proof fn law_cat_nap_heals_two_over_three_seconds(r: RunState, delta_ns: nat)
    ensures
        ({
            let n = after_ability(r, Ability::CatNap);
            let due: int = if delta_ns >= 3_000_000_000 {
                2
            } else if delta_ns >= 1_500_000_000 {
                1
            } else {
                0
            };
            let healed = after_nap_heal(RunState { nap: n.nap.ticked(delta_ns), ..n }, nap_due(n.nap.ticked(delta_ns)));
            &&& n.player_hp == r.player_hp
            &&& !n.nap.done()
            &&& healed.player_hp == if due > 0 {
                heal_spec(r.player_hp as int, due, r.player_max_hp as int)
            } else {
                r.player_hp as int
            }
            &&& healed.nap_healed == due
        }),
{
    Cooldown::lemma_fresh_ticked(CAT_NAP_MS as nat, delta_ns);
    Cooldown::lemma_fresh_spent(CAT_NAP_MS as nat);
    let n = after_ability(r, Ability::CatNap);
    let u = n.nap.ticked(delta_ns);
    if delta_ns < 3_000_000_000 {
        let e = delta_ns as int;
        assert(u.elapsed() == e);
        if e >= 1_500_000_000 {
            assert((2 * e) / 3_000_000_000 == 1) by (nonlinear_arith)
                requires
                    1_500_000_000 <= e < 3_000_000_000,
            ;
        } else {
            assert((2 * e) / 3_000_000_000 == 0) by (nonlinear_arith)
                requires
                    0 <= e < 1_500_000_000,
            ;
        }
    }
}

/// A turn hurts nobody while the player is invulnerable or the enemy is
/// dormant (charmed, or a mimic in disguise): it deals no damage and does
/// not hurt the player.
pub proof fn law_shielded_or_dormant_turn_is_harmless(o: Enemy, boss_type: Option<BossType>, s: EnemySenses, t: EnemyTurn)
    requires
        ai_turn_spec(t, o, boss_type, s),
        s.attack.invuln || dormant(o),
    ensures
        turn_damage(t) == 0,
        !t.hurt_player,
{
}

/// An enemy whose damage is not negative never heals the player with its
/// turn.
pub proof fn law_turn_damage_not_negative(o: Enemy, boss_type: Option<BossType>, s: EnemySenses, t: EnemyTurn)
    requires
        ai_turn_spec(t, o, boss_type, s),
        o.damage >= 0,
    ensures
        turn_damage(t) >= 0,
{
}

/// Once an enemy has hurt the player in a frame, no later enemy of that
/// frame adds anything to the loss.
pub proof fn law_hurt_player_is_spared_for_the_frame(
    tally: FrameTally,
    o: Enemy,
    boss_type: Option<BossType>,
    s: EnemySenses,
    t: EnemyTurn,
)
    requires
        tally.invuln,
        ai_turn_spec(t, o, boss_type, frame_senses(s, tally.invuln)),
    ensures
        tally_after(tally, t) == tally,
{
}

/// A frame of enemy turns never heals the player: when no turn deals
/// negative damage, the loss only grows, the settled hit points stay between
/// zero and what the player had, and the run is lost exactly when the loss
/// reaches the player's hit points. An invulnerable player stays so.
pub proof fn law_enemy_frame_never_heals(hp: i32, max_hp: i32, start: FrameTally, turns: Seq<EnemyTurn>)
    requires
        0 <= hp <= max_hp,
        start.lost >= 0,
        forall|i: int| 0 <= i < turns.len() ==> turn_damage(#[trigger] turns[i]) >= 0,
    ensures
        ({
            let t = tally_after_all(start, turns);
            let settled = clamp_hp(hp - t.lost, max_hp as int);
            &&& t.lost >= start.lost
            &&& 0 <= settled <= hp
            &&& (settled == 0 <==> t.lost >= hp)
            &&& (start.invuln ==> t.invuln)
            &&& ((start.hurt ==> start.invuln) ==> (t.hurt ==> t.invuln))
        }),
    decreases turns.len(),
{
    if turns.len() > 0 {
        let rest = turns.drop_last();
        assert forall|i: int| 0 <= i < rest.len() implies turn_damage(#[trigger] rest[i]) >= 0 by {
            assert(rest[i] == turns[i]);
        }
        law_enemy_frame_never_heals(hp, max_hp, start, rest);
        assert(turn_damage(turns[turns.len() - 1]) >= 0);
    }
}

/// A goliath only ever grows with its hits, and never beyond its largest
/// size: each hit adds to its size until the limit is reached.
pub proof fn law_goliath_grows_to_its_limit(scale: u32)
    requires
        scale <= GOLIATH_MAX_SCALE,
    ensures
        scale <= grown_scale(scale) <= GOLIATH_MAX_SCALE,
        scale < GOLIATH_MAX_SCALE ==> scale < grown_scale(scale),
{
}

/// A purr charms an enemy for three seconds: charmed (and so harmless)
/// until three seconds have passed, and no longer from then on.
pub proof fn law_purr_charm_lasts_three_seconds(e: Enemy, delta_ns: nat)
    ensures
        ({
            let c = Enemy { charm: Cooldown::fresh(CHARM_MS as nat), ..e };
            &&& charmed(c)
            &&& charmed(Enemy { charm: c.charm.ticked(delta_ns), ..c }) <==> delta_ns < 3_000_000_000
        }),
{
    Cooldown::lemma_fresh_ticked(CHARM_MS as nat, delta_ns);
    Cooldown::lemma_fresh_spent(CHARM_MS as nat);
}

/// One frame of the enemies never heals the player and ends the run exactly
/// at zero hit points: whatever turns the enemies take (each the turn of an
/// enemy whose damage is not negative), the settled hit points lie between
/// zero and what the player had, only the hit points and invulnerability
/// change, and the run is lost exactly when the enemies act and the hit
/// points reach zero, that is when the loss reaches the player's hit points.
pub proof fn law_enemy_frame_ends_run_only_at_zero(
    r: RunState,
    enemies: Seq<Enemy>,
    boss_types: Seq<Option<BossType>>,
    senses: Seq<EnemySenses>,
    turns: Seq<EnemyTurn>,
)
    requires
        r.hp_in_range(),
        enemies.len() == turns.len(),
        boss_types.len() == turns.len(),
        senses.len() == turns.len(),
        forall|i: int|
            0 <= i < turns.len() ==> ai_turn_spec(#[trigger] turns[i], enemies[i], boss_types[i], senses[i])
                && enemies[i].damage >= 0,
    ensures
        ({
            let tally = tally_after_all(frame_start(r), turns);
            let f = settled_after_frame(r, tally);
            &&& 0 <= f.player_hp <= r.player_hp
            &&& f.hp_in_range()
            &&& f == (RunState { player_hp: f.player_hp, invuln: f.invuln, ..r })
            &&& (enemy_frame_runs(r) && f.player_hp == 0) <==> (enemy_frame_runs(r) && tally.lost >= r.player_hp)
        }),
{
    assert forall|i: int| 0 <= i < turns.len() implies turn_damage(#[trigger] turns[i]) >= 0 by {
        law_turn_damage_not_negative(enemies[i], boss_types[i], senses[i], turns[i]);
    }
    law_enemy_frame_never_heals(r.player_hp, r.player_max_hp, frame_start(r), turns);
}

/// A boss that has recovered goes back to the chase with a pause that
/// depends on its hit points at that moment, shortening as it weakens: with
/// more than 66% of its hit points a Goblin King pauses 1550 ms, with more
/// than 33% 1300 ms, else 1100 ms; a Necromancer 1800, 1300 and 900 ms; any
/// other boss 1400, 1100 and 800 ms (a maximum below 1 counts as 1).
pub proof fn law_recovered_boss_pause_follows_hit_points(o: Enemy, boss_type: Option<BossType>, s: EnemySenses)
    requires
        o.kind == EnemyKind::Boss,
        o.state == EnemyState::Recover,
        o.state_timer.done(),
        !dormant(o),
    ensures
        ({
            let f = ai_step_enemy(o, boss_type, s);
            let m: int = if o.max_hp < 1 { 1 } else { o.max_hp as int };
            let high = o.hp * 100 > 66 * m;
            let mid = !high && o.hp * 100 > 33 * m;
            let ms: int = match boss_type {
                Some(BossType::GoblinKing) => if high { 1550 } else if mid { 1300 } else { 1100 },
                Some(BossType::Necromancer) => if high { 1800 } else if mid { 1300 } else { 900 },
                _ => if high { 1400 } else if mid { 1100 } else { 800 },
            };
            &&& f.state == EnemyState::Chase
            &&& f.action_cd == Cooldown::fresh(ms as nat)
            &&& f.hp == o.hp
        }),
{
}

/// A weaker boss never pauses longer: of two recovered bosses that differ
/// only in hit points, the one with fewer pauses no longer than the other.
pub proof fn law_weaker_boss_pauses_no_longer(o: Enemy, hp: i32, boss_type: Option<BossType>, s: EnemySenses)
    requires
        o.kind == EnemyKind::Boss,
        o.state == EnemyState::Recover,
        o.state_timer.done(),
        !dormant(o),
        hp <= o.hp,
    ensures
        ai_step_enemy(Enemy { hp, ..o }, boss_type, s).action_cd.duration()
            <= ai_step_enemy(o, boss_type, s).action_cd.duration(),
{
    let f1 = ai_step_enemy(Enemy { hp, ..o }, boss_type, s);
    let f2 = ai_step_enemy(o, boss_type, s);
    law_recovered_boss_pause_follows_hit_points(Enemy { hp, ..o }, boss_type, s);
    law_recovered_boss_pause_follows_hit_points(o, boss_type, s);
    let m: int = if o.max_hp < 1 { 1 } else { o.max_hp as int };
    assert(hp * 100 <= o.hp * 100);
    Cooldown::lemma_fresh_spent(1800);
    Cooldown::lemma_fresh_spent(1550);
    Cooldown::lemma_fresh_spent(1400);
    Cooldown::lemma_fresh_spent(1300);
    Cooldown::lemma_fresh_spent(1100);
    Cooldown::lemma_fresh_spent(900);
    Cooldown::lemma_fresh_spent(800);
}

/// The Goblin King fights with its own volleys: a single shot at speed 190
/// above 66% of its hit points, two shots 180 milliradians off the aim at
/// speed 205 above 33% (then a pause of 950 ms), and three shots (-250, 0,
/// 250) at speed 220 below (then a pause of 800 ms). Any other boss fires
/// two shots at speed 250 at full strength.
pub proof fn law_goblin_king_volleys(out: AttackOutcome, other: AttackOutcome, e: Enemy, s: AttackSenses)
    requires
        e.kind == EnemyKind::Boss,
        e.max_hp > 0,
        attack_outcome_spec(out, e, Some(BossType::GoblinKing), s),
        attack_outcome_spec(other, e, Some(BossType::Dragon), s),
    ensures
        e.hp * 100 > 66 * e.max_hp ==> (out.volley matches Some(v) && v.angles@ == seq![0i64] && v.speed == 190
            && v.damage == e.damage && attacker_after(e, Some(BossType::GoblinKing)) == e),
        (e.hp * 100 <= 66 * e.max_hp && e.hp * 100 > 33 * e.max_hp) ==> (out.volley matches Some(v)
            && v.angles@ == seq![-180i64, 180i64] && v.speed == 205 && v.damage == e.damage
            && attacker_after(e, Some(BossType::GoblinKing)) == (Enemy { action_cd: Cooldown::fresh(950), ..e })),
        e.hp * 100 <= 33 * e.max_hp ==> (out.volley matches Some(v) && v.angles@ == seq![-250i64, 0i64, 250i64]
            && v.speed == 220 && v.damage == e.damage
            && attacker_after(e, Some(BossType::GoblinKing)) == (Enemy { action_cd: Cooldown::fresh(800), ..e })),
        e.hp * 100 > 66 * e.max_hp ==> (other.volley matches Some(w) && w.angles@ == seq![-200i64, 200i64]
            && w.speed == 250),
{
}

/// Buying more maximum hit points raises the hit points by the same amount:
/// the gap to the maximum stays, and nothing else changes.
pub proof fn law_max_hp_upgrade_raises_hit_points_too(o: RunState, f: RunState, a: i32)
    requires
        shop_item_effect(o, f, ShopItemKind::MaxHpUp(a)),
        i32::MIN <= o.player_hp + a <= i32::MAX,
        i32::MIN <= o.player_max_hp + a <= i32::MAX,
    ensures
        f.player_hp == o.player_hp + a,
        f.player_max_hp == o.player_max_hp + a,
        f.player_max_hp - f.player_hp == o.player_max_hp - o.player_hp,
        f == (RunState { player_hp: f.player_hp, player_max_hp: f.player_max_hp, ..o }),
{
}

/// The invulnerability each ability starts: Dash 300 ms, War Cry 600 ms,
/// Second Wind 800 ms, Zoomies 2 s and Cat Nap 3 s, each a fresh timer that
/// is not finished; the other abilities leave it as it was.
pub proof fn law_abilities_start_their_invulnerability(o: RunState, a: Ability)
    ensures
        ({
            let f = after_ability(o, a);
            let ms: int = match a {
                Ability::Dash => 300,
                Ability::WarCry => 600,
                Ability::SecondWind => 800,
                Ability::Zoomies => 2000,
                Ability::CatNap => 3000,
                _ => 0,
            };
            &&& ms > 0 ==> f.invuln == Cooldown::fresh(ms as nat) && f.invuln.duration() == ms * 1_000_000
                && f.invuln.elapsed() == 0 && !f.invuln.done()
            &&& ms == 0 ==> f.invuln == o.invuln
        }),
{
    Cooldown::lemma_fresh_spent(300);
    Cooldown::lemma_fresh_spent(600);
    Cooldown::lemma_fresh_spent(800);
    Cooldown::lemma_fresh_spent(2000);
    Cooldown::lemma_fresh_spent(3000);
}

/// Only combat rooms grant modifiers: entering a rest, treasure, boss or
/// depth room leaves the modifiers exactly as they were.
pub proof fn law_only_combat_rooms_grant_modifiers(
    mods: Seq<(Modifier, u32)>,
    kind: RoomKind,
    room_seed: u64,
    floor: u32,
    room: u32,
)
    requires
        kind != RoomKind::Combat,
    ensures
        modifiers_on_entry(mods, kind, room_seed, floor, room) == mods,
{
}

/// A pickup of more maximum hit points does what buying the same upgrade
/// does: both raise the maximum and the hit points by the amount.
pub proof fn law_max_hp_pickup_matches_purchase(o: RunState, f: RunState, g: RunState, a: i32)
    requires
        pickup_effect(o, f, PickupKind::MaxHpUp(a)),
        shop_item_effect(o, g, ShopItemKind::MaxHpUp(a)),
        i32::MIN <= o.player_hp + a <= i32::MAX,
        i32::MIN <= o.player_max_hp + a <= i32::MAX,
    ensures
        f == g,
        f.player_hp == o.player_hp + a,
        f.player_max_hp == o.player_max_hp + a,
{
}

/// A healing pickup heals by its amount, but never beyond the maximum, and
/// changes nothing else.
pub proof fn law_heal_pickup_heals_up_to_the_maximum(o: RunState, f: RunState, a: i32)
    requires
        pickup_effect(o, f, PickupKind::Heal(a)),
        o.hp_in_range(),
        a >= 0,
        o.player_hp + a <= i32::MAX,
    ensures
        o.player_hp <= f.player_hp <= o.player_max_hp,
        o.player_hp + a <= o.player_max_hp ==> f.player_hp == o.player_hp + a,
        o.player_hp + a > o.player_max_hp ==> f.player_hp == o.player_max_hp,
        f == (RunState { player_hp: f.player_hp, ..o }),
{
}

/// Second Wind heals 6 at once, never beyond the maximum; no other ability
/// changes the hit points when it is used (a Cat Nap heals later, as it
/// goes on).
pub proof fn law_only_second_wind_heals_at_once(o: RunState, a: Ability)
    requires
        o.hp_in_range(),
        o.player_hp + 6 <= i32::MAX,
    ensures
        a == Ability::SecondWind && o.player_hp + 6 <= o.player_max_hp ==> after_ability(o, a).player_hp == o.player_hp + 6,
        a == Ability::SecondWind && o.player_hp + 6 > o.player_max_hp ==> after_ability(o, a).player_hp == o.player_max_hp,
        a != Ability::SecondWind ==> after_ability(o, a).player_hp == o.player_hp,
{
}

/// Entering a room grants at most one modifier, only in a combat room with
/// fewer than three active, a modifier not active yet, for three rooms;
/// otherwise the modifiers stay as they were.
pub proof fn law_modifier_grant_shape(
    mods: Seq<(Modifier, u32)>,
    kind: RoomKind,
    room_seed: u64,
    floor: u32,
    room: u32,
)
    ensures
        ({
            let after = modifiers_on_entry(mods, kind, room_seed, floor, room);
            ||| after == mods
            ||| {
                &&& kind == RoomKind::Combat
                &&& mods.len() < 3
                &&& after.len() == mods.len() + 1
                &&& after.take(mods.len() as int) == mods
                &&& after.last().1 == 3
                &&& !has_modifier_spec(mods, after.last().0)
            }
        }),
{
    let after = modifiers_on_entry(mods, kind, room_seed, floor, room);
    if after != mods {
        assert(after.take(mods.len() as int) =~= mods);
    }
}

/// How an ordinary awake enemy moves through its states each frame: it
/// chases until the player is in range and its action is ready, then winds
/// up (550 ms for a charger, 400 ms for a bomber, 800 ms for a necromancer
/// cat, none for a mimic, 300 ms for the rest); when the wind-up ends a
/// charger charges for 450 ms, a chonker for 600 ms, and any other recovers
/// for 500 ms; a charge ends in 700 ms of recovery on contact, when it stalls
/// or when its time is up; after recovering it chases again with its action
/// pause (1400 ms for a charger, 1100 ms for a seeker, 1300 ms for a caster,
/// 3000 ms for a summoner, 4000 ms for a necromancer cat, 500 ms for the rest).
pub proof fn law_enemy_state_machine(o: Enemy, boss_type: Option<BossType>, s: EnemySenses)
    requires
        o.kind != EnemyKind::Boss,
        !dormant(o),
    ensures
        ({
            let f = ai_step_enemy(o, boss_type, s);
            let windup: int = match o.kind {
                EnemyKind::Charger => 550,
                EnemyKind::Bomber => 400,
                EnemyKind::NecromancerCat => 800,
                EnemyKind::MimicChest => 0,
                _ => 300,
            };
            let pause: int = match o.kind {
                EnemyKind::Charger => 1400,
                EnemyKind::Seeker => 1100,
                EnemyKind::Caster => 1300,
                EnemyKind::Summoner => 3000,
                EnemyKind::NecromancerCat => 4000,
                _ => 500,
            };
            &&& (o.state == EnemyState::Chase && s.in_range && o.action_cd.done()) ==> (f.state == EnemyState::Windup
                && f.state_timer == Cooldown::fresh(windup as nat) && f.hp == o.hp)
            &&& (o.state == EnemyState::Chase && !(s.in_range && o.action_cd.done())) ==> f == o
            &&& (o.state == EnemyState::Windup && o.state_timer.done()) ==> (if o.kind == EnemyKind::Charger {
                f.state == EnemyState::Charge && f.state_timer == Cooldown::fresh(450)
            } else if o.kind == EnemyKind::Chonker {
                f.state == EnemyState::Charge && f.state_timer == Cooldown::fresh(600)
            } else {
                f.state == EnemyState::Recover && f.state_timer == Cooldown::fresh(500)
            })
            &&& (o.state == EnemyState::Windup && !o.state_timer.done()) ==> f.state == EnemyState::Windup
            &&& (o.state == EnemyState::Charge && (s.charge_contact || o.state_timer.done() || s.charge_stalled)) ==> (
                f.state == EnemyState::Recover && f.state_timer == Cooldown::fresh(700))
            &&& (o.state == EnemyState::Recover && o.state_timer.done()) ==> (f.state == EnemyState::Chase
                && f.action_cd == Cooldown::fresh(pause as nat))
            &&& (o.state == EnemyState::Recover && !o.state_timer.done()) ==> f == o
        }),
{
}

/// What an attack does to the player and the world: a melee swipe (by the
/// melee kinds and the scratcher) costs the player exactly the enemy's damage
/// when in reach and not invulnerable, and nothing otherwise; a bomber in
/// blast range costs its damage plus 2 and always explodes; a seeker fires
/// one shot of its damage at speed 250; a caster fans out one shot per
/// charge (at least one) at speed 230; a summoner with summons left calls
/// two plain kittens and uses one up; no other kind summons.
pub proof fn law_attack_effects(out: AttackOutcome, e: Enemy, boss_type: Option<BossType>, s: AttackSenses)
    requires
        attack_outcome_spec(out, e, boss_type, s),
    ensures
        (e.kind == EnemyKind::Hunter || e.kind == EnemyKind::Bruiser || e.kind == EnemyKind::Kitten
            || e.kind == EnemyKind::Scratcher) ==> out.player_damage == if s.in_melee_reach && !s.invuln {
            e.damage as int
        } else {
            0
        },
        e.kind == EnemyKind::Bomber ==> out.exploded && out.player_damage == if s.in_blast_radius && !s.invuln {
            e.damage + 2
        } else {
            0
        },
        e.kind != EnemyKind::Bomber ==> !out.exploded,
        e.kind == EnemyKind::Seeker ==> (out.volley matches Some(v) && v.angles@.len() == 1 && v.speed == 250
            && v.damage == e.damage),
        e.kind == EnemyKind::Caster ==> (out.volley matches Some(v) && v.angles@.len() == (if e.ammo < 1 {
            1
        } else {
            e.ammo as int
        }) && v.speed == 230 && v.damage == e.damage),
        (e.kind == EnemyKind::Summoner && e.ammo > 0) ==> (out.summons@.len() == 2 && attacker_after(e, boss_type).ammo
            == e.ammo - 1 && out.summons@[0].kind == EnemyKind::Kitten && out.summons@[1].kind == EnemyKind::Kitten
            && !out.summons@[0].elite && !out.summons@[1].elite),
        !(e.kind == EnemyKind::Summoner && e.ammo > 0) ==> out.summons@.len() == 0,
{
}

/// Using an ability restarts its cooldown (Dash 1.1 s, Whirlwind 3 s, War
/// Cry 5 s, Hairball 2.2 s, Second Wind 14 s, Zoomies 12 s, Purr 8 s, Cat
/// Nap 20 s), and what the world must show carries the swing's damage: two
/// more for Whirlwind, the same for Hairball.
pub proof fn law_ability_cooldowns_and_damage(a: Ability, damage: int)
    ensures
        ability_cooldown_ms(a) == (match a {
            Ability::Dash => 1100u64,
            Ability::Whirlwind => 3000u64,
            Ability::WarCry => 5000u64,
            Ability::Hairball => 2200u64,
            Ability::SecondWind => 14000u64,
            Ability::Zoomies => 12000u64,
            Ability::Purr => 8000u64,
            Ability::CatNap => 20000u64,
        }),
        i32::MIN <= damage <= i32::MAX - 2 && a == Ability::Whirlwind ==> ability_effect_spec(a, damage)
            == (AbilityEffect::Whirlwind { damage: (damage + 2) as i32 }),
        i32::MIN <= damage <= i32::MAX && a == Ability::Hairball ==> ability_effect_spec(a, damage)
            == (AbilityEffect::Hairball { damage: damage as i32 }),
        a == Ability::WarCry ==> ability_effect_spec(a, damage) == AbilityEffect::WarCry,
        a == Ability::Purr ==> ability_effect_spec(a, damage) == AbilityEffect::Purr,
{
}

} // verus!
