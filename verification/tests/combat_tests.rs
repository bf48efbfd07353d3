use catevy::combat::{
    action_cooldown, boss_attack_range, boss_cooldown, boss_phase, enemy_hurt_radius, enemy_melee_reach, projectile_fate,
    reset_hurt_invuln, shield_blocks, HitSet, telegraph_for, trigger_range, update_boss_phase, windup_time, HitIntensity, ProjectileFate,
    TelegraphShape, HURT_INVULN_MS,
};
use catevy::components::{
    first_heal_target, AllyVitals, BossPhases, BossType, CatAnimation, EnemyKind, EnemyState, EnemySynergy,
    HitFlash, ProjectileOwner, Reviver, SynergyKind,
};
use catevy::enemy_ai::{
    enemy_ai_step, enemy_turn_in_frame, perform_attack, AttackSenses, EnemySenses, FrameTally, Summon, BOSS_WINDUP_MS,
};
use catevy::spawning::{revive_corpse, spawn_boss, spawn_enemy_kind};
use catevy::timer::Cooldown;

fn senses(in_range: bool) -> EnemySenses {
    EnemySenses {
        in_range,
        attack: AttackSenses { in_melee_reach: true, in_blast_radius: true, invuln: false },
        charge_contact: false,
        charge_stalled: false,
    }
}

#[test]
fn hit_intensity_tiers() {
    assert_eq!(HitIntensity::from_damage(0, 10), HitIntensity::Light);
    assert_eq!(HitIntensity::from_damage(1, 11), HitIntensity::Light);
    assert_eq!(HitIntensity::from_damage(1, 10), HitIntensity::Medium);
    assert_eq!(HitIntensity::from_damage(2, 10), HitIntensity::Medium);
    assert_eq!(HitIntensity::from_damage(3, 10), HitIntensity::Heavy);
    assert_eq!(HitIntensity::from_damage(5, 10), HitIntensity::Heavy);
    assert_eq!(HitIntensity::from_damage(6, 10), HitIntensity::Critical);
    assert_eq!(HitIntensity::from_damage(100, 0), HitIntensity::Light);
    assert_eq!(HitIntensity::Critical.hitstop_duration(), 100);
    assert_eq!(HitIntensity::Heavy.shake_trauma(), 350);
    assert_eq!(HitIntensity::Medium.particle_count(), 8);
}

#[test]
fn law_hit_intensity_monotone_on_concrete_values() {
    let rank = |i: HitIntensity| match i {
        HitIntensity::Light => 0,
        HitIntensity::Medium => 1,
        HitIntensity::Heavy => 2,
        HitIntensity::Critical => 3,
    };
    for max_hp in [1, 7, 10, 55, 135] {
        let mut last = 0;
        for damage in 0..200 {
            let r = rank(HitIntensity::from_damage(damage, max_hp));
            assert!(r >= last);
            last = r;
        }
        assert_eq!(last, 3);
    }
}

#[test]
fn enemy_geometry_tables() {
    assert_eq!(enemy_hurt_radius(EnemyKind::Boss, false), 232);
    assert_eq!(enemy_hurt_radius(EnemyKind::Kitten, true), 110);
    assert_eq!(enemy_melee_reach(EnemyKind::Goliath), 42);
    assert_eq!(enemy_melee_reach(EnemyKind::Hunter), 40);
    assert_eq!(windup_time(EnemyKind::Charger), 550);
    assert_eq!(windup_time(EnemyKind::MimicChest), 0);
    assert_eq!(trigger_range(EnemyKind::Summoner), 500);
    assert_eq!(action_cooldown(EnemyKind::NecromancerCat), 4000);
    assert_eq!(telegraph_for(EnemyKind::Bomber).0, TelegraphShape::Circle { radius: 120 });
}

#[test]
fn boss_phases_by_hit_points() {
    assert_eq!(boss_phase(100, 100), 1);
    assert_eq!(boss_phase(67, 100), 1);
    assert_eq!(boss_phase(66, 100), 2);
    assert_eq!(boss_phase(34, 100), 2);
    assert_eq!(boss_phase(33, 100), 3);
    assert_eq!(boss_phase(-5, 100), 3);
    assert_eq!(boss_phase(1, 0), 1);
    assert_eq!(boss_cooldown(Some(BossType::GoblinKing), 80, 80), 1550);
    assert_eq!(boss_cooldown(Some(BossType::Necromancer), 10, 100), 900);
    assert_eq!(boss_cooldown(None, 50, 100), 1100);
}

#[test]
fn law_boss_phase_never_reverts_as_hp_falls() {
    let mut phases = BossPhases { boss_type: BossType::Dragon, current_phase: 1 };
    let mut changes = 0;
    let mut last = 1;
    let mut hp = 190;
    while hp >= -10 {
        if update_boss_phase(&mut phases, hp, 190) {
            changes += 1;
        }
        assert!(phases.current_phase >= last);
        last = phases.current_phase;
        hp -= 7;
    }
    assert_eq!(changes, 2);
    assert_eq!(phases.current_phase, 3);
    assert_eq!(phases.boss_type, BossType::Dragon);
}

#[test]
fn projectile_fates_in_order() {
    assert_eq!(projectile_fate(true, true, true, ProjectileOwner::Player, Some(0), true), ProjectileFate::Expired);
    assert_eq!(projectile_fate(false, true, true, ProjectileOwner::Enemy, None, true), ProjectileFate::LeftArena);
    assert_eq!(projectile_fate(false, false, true, ProjectileOwner::Player, Some(1), false), ProjectileFate::Blocked);
    assert_eq!(projectile_fate(false, false, false, ProjectileOwner::Player, Some(2), true), ProjectileFate::HitEnemy(2));
    assert_eq!(projectile_fate(false, false, false, ProjectileOwner::Player, None, true), ProjectileFate::Flies);
    assert_eq!(projectile_fate(false, false, false, ProjectileOwner::Enemy, Some(0), true), ProjectileFate::HitPlayer);
    assert_eq!(projectile_fate(false, false, false, ProjectileOwner::Enemy, None, false), ProjectileFate::Flies);
}

#[test]
fn hurt_invulnerability_lasts_nine_tenths() {
    let mut t = Cooldown::ready(1);
    reset_hurt_invuln(&mut t);
    assert_eq!(t.duration_ns(), HURT_INVULN_MS * 1_000_000);
    assert!(!t.is_finished());
}

#[test]
fn hit_flash_is_a_tenth_of_a_second() {
    let f = HitFlash::new();
    assert_eq!(f.0.duration_ns(), 100_000_000);
    assert!(!f.0.is_finished());
}

#[test]
fn enemy_damage_and_heal() {
    let mut e = spawn_enemy_kind(EnemyKind::Hunter, 1, false);
    assert_eq!(e.hp, 3);
    assert!(!e.take_damage(2));
    assert_eq!(e.hp, 1);
    e.receive_heal();
    assert_eq!(e.hp, 2);
    e.receive_heal();
    e.receive_heal();
    assert_eq!(e.hp, 3);
    assert!(e.take_damage(3));
}

#[test]
fn healer_picks_first_wounded_ally_in_range() {
    let allies = vec![
        AllyVitals { in_range: false, hp: 1, max_hp: 5 },
        AllyVitals { in_range: true, hp: 5, max_hp: 5 },
        AllyVitals { in_range: true, hp: 2, max_hp: 5 },
        AllyVitals { in_range: true, hp: 1, max_hp: 5 },
    ];
    assert_eq!(first_heal_target(&allies), Some(2));
    assert_eq!(first_heal_target(&allies[..2].to_vec()), None);
    assert_eq!(first_heal_target(&Vec::new()), None);
}

#[test]
fn synergy_pulses_when_its_timer_runs_out() {
    let mut s = EnemySynergy { kind: SynergyKind::Healer, timer: Cooldown::from_millis(1000) };
    assert!(!s.pulse(600_000_000));
    assert!(s.pulse(400_000_000));
    assert_eq!(s.timer.elapsed_ns(), 0);
    assert!(!s.pulse(999_999_999));
    assert_eq!(s.kind, SynergyKind::Healer);
}

#[test]
fn chaser_winds_up_then_attacks() {
    let mut e = spawn_enemy_kind(EnemyKind::Hunter, 1, false);
    // Not ready: the action cooldown still runs.
    let turn = enemy_ai_step(&mut e, None, senses(true));
    assert!(turn.moving);
    assert!(!turn.aim);
    assert_eq!(e.state, EnemyState::Chase);
    e.tick_timers(600_000_000);
    let turn = enemy_ai_step(&mut e, None, senses(true));
    assert!(turn.aim);
    assert_eq!(e.state, EnemyState::Windup);
    let turn = enemy_ai_step(&mut e, None, senses(true));
    assert_eq!(turn.telegraph_ms, Some(300));
    assert!(turn.attack.is_none());
    e.tick_timers(300_000_000);
    let turn = enemy_ai_step(&mut e, None, senses(true));
    let out = turn.attack.expect("the wind-up ended in an attack");
    assert_eq!(out.player_damage, 1);
    assert_eq!(out.shake, 350);
    assert!(turn.hurt_player);
    assert_eq!(e.state, EnemyState::Recover);
    e.tick_timers(500_000_000);
    enemy_ai_step(&mut e, None, senses(false));
    assert_eq!(e.state, EnemyState::Chase);
    assert_eq!(e.action_cd.duration_ns(), 500_000_000);
}

#[test]
fn law_attacks_follow_windup_on_concrete_run() {
    let mut e = spawn_enemy_kind(EnemyKind::Bruiser, 2, false);
    for _ in 0..200 {
        let before = e.state;
        let timer_done = e.state_timer.is_finished();
        let turn = enemy_ai_step(&mut e, None, senses(true));
        if turn.attack.is_some() {
            assert_eq!(before, EnemyState::Windup);
            assert!(timer_done);
        }
        e.tick_timers(50_000_000);
    }
}

#[test]
fn charger_rams_the_player() {
    let mut e = spawn_enemy_kind(EnemyKind::Charger, 1, false);
    e.tick_timers(600_000_000);
    enemy_ai_step(&mut e, None, senses(true));
    e.tick_timers(550_000_000);
    enemy_ai_step(&mut e, None, senses(true));
    enemy_ai_step(&mut e, None, senses(true));
    assert_eq!(e.state, EnemyState::Charge);
    let mut contact = senses(true);
    contact.charge_contact = true;
    let turn = enemy_ai_step(&mut e, None, contact);
    assert_eq!(turn.contact_damage, e.damage);
    assert_eq!(turn.contact_shake, 500);
    assert!(turn.hurt_player);
    assert_eq!(e.state, EnemyState::Recover);
}

#[test]
fn bomber_explodes_and_seeker_fires() {
    let mut bomber = spawn_enemy_kind(EnemyKind::Bomber, 1, false);
    let out = perform_attack(
        &mut bomber,
        None,
        AttackSenses { in_melee_reach: false, in_blast_radius: true, invuln: false },
    );
    assert!(out.exploded);
    assert_eq!(out.player_damage, bomber.damage + 2);
    assert_eq!(out.shake, 600);
    let mut seeker = spawn_enemy_kind(EnemyKind::Seeker, 1, false);
    let out = perform_attack(
        &mut seeker,
        None,
        AttackSenses { in_melee_reach: false, in_blast_radius: false, invuln: false },
    );
    let v = out.volley.expect("a seeker fires");
    assert_eq!(v.angles, vec![0]);
    assert_eq!(v.speed, 250);
    assert_eq!(out.player_damage, 0);
}

#[test]
fn weakened_boss_fires_wider_volleys() {
    let (mut boss, _) = spawn_boss(3);
    let calm = AttackSenses { in_melee_reach: false, in_blast_radius: false, invuln: true };
    let out = perform_attack(&mut boss, Some(BossType::Dragon), calm);
    assert_eq!(out.volley.expect("a boss fires").angles, vec![-200, 200]);
    boss.hp = boss.max_hp / 5;
    let out = perform_attack(&mut boss, Some(BossType::Dragon), calm);
    let v = out.volley.expect("a boss fires");
    assert_eq!(v.angles, vec![-400, -200, 0, 200, 400]);
    assert_eq!(v.damage, boss.damage + 1);
    assert_eq!(boss.action_cd.duration_ns(), 500_000_000);
}

#[test]
fn boss_wind_up_is_fixed() {
    let (mut boss, _) = spawn_boss(1);
    boss.tick_timers(700_000_000);
    let turn = enemy_ai_step(&mut boss, Some(BossType::GoblinKing), senses(true));
    assert!(turn.aim);
    assert_eq!(boss.state, EnemyState::Windup);
    let turn = enemy_ai_step(&mut boss, Some(BossType::GoblinKing), senses(true));
    assert_eq!(turn.telegraph_ms, Some(BOSS_WINDUP_MS));
}

#[test]
fn animation_clips_and_frames() {
    let mut a = CatAnimation::new((0, 3), (4, 7), Some((8, 10)), 10);
    assert_eq!(a.clip(), (0, 3));
    assert_eq!(a.advance(2, true), 3);
    assert_eq!(a.advance(3, true), 0);
    assert_eq!(a.advance(9, false), 0);
    a.moving = true;
    assert_eq!(a.advance(5, false), 5);
    assert!(a.start_attack());
    assert_eq!(a.clip(), (8, 10));
    assert_eq!(a.advance(10, true), 4);
    assert!(!a.attacking);
    let mut b = CatAnimation::new((0, 1), (0, 1), None, 8);
    assert!(!b.start_attack());
    assert!(!b.attacking);
}

#[test]
fn boss_attack_ranges() {
    assert_eq!(boss_attack_range(Some(BossType::GoblinKing)), 760);
    assert_eq!(boss_attack_range(Some(BossType::Dragon)), 450);
    assert_eq!(boss_attack_range(None), 450);
}

#[test]
fn law_attack_counts_never_overdraw_on_summoner() {
    let mut summoner = spawn_enemy_kind(EnemyKind::Summoner, 1, false);
    let calm = AttackSenses { in_melee_reach: false, in_blast_radius: false, invuln: false };
    for expected in [3, 2, 1, 0] {
        let out = perform_attack(&mut summoner, None, calm);
        assert_eq!(summoner.ammo, expected);
        assert_eq!(
            out.summons,
            vec![
                Summon { kind: EnemyKind::Kitten, elite: false, dx: 40, dy: 30 },
                Summon { kind: EnemyKind::Kitten, elite: false, dx: -40, dy: 30 },
            ]
        );
    }
    let out = perform_attack(&mut summoner, None, calm);
    assert_eq!(summoner.ammo, 0);
    assert!(out.summons.is_empty());
    let mut caster = spawn_enemy_kind(EnemyKind::Caster, 2, false);
    let out = perform_attack(&mut caster, None, calm);
    assert_eq!(caster.ammo, 3);
    assert_eq!(out.volley.expect("a caster fires").angles, vec![-220, 0, 220]);
}

#[test]
fn purr_charm_keeps_an_enemy_idle_for_three_seconds() {
    let mut e = spawn_enemy_kind(EnemyKind::Hunter, 1, false);
    assert!(!e.is_charmed());
    e.tick_timers(600_000_000);
    e.charm();
    assert!(e.is_charmed());
    let before = e.state;
    let turn = enemy_ai_step(&mut e, None, senses(true));
    assert!(!turn.moving && !turn.aim && turn.attack.is_none() && !turn.hurt_player);
    assert_eq!(turn.contact_damage, 0);
    assert_eq!(e.state, before);
    e.tick_timers(2_999_999_999);
    assert!(e.is_charmed());
    e.tick_timers(1);
    assert!(!e.is_charmed());
    let turn = enemy_ai_step(&mut e, None, senses(true));
    assert!(turn.aim);
    assert_eq!(e.state, EnemyState::Windup);
}

#[test]
fn charmed_hunter_in_reach_deals_no_damage() {
    let mut e = spawn_enemy_kind(EnemyKind::Hunter, 1, false);
    e.tick_timers(600_000_000);
    enemy_ai_step(&mut e, None, senses(true));
    e.tick_timers(300_000_000);
    e.charm();
    let mut tally = FrameTally { lost: 0, invuln: false, hurt: false };
    let turn = enemy_turn_in_frame(&mut e, None, senses(true), &mut tally);
    assert!(turn.attack.is_none());
    assert_eq!(tally, FrameTally { lost: 0, invuln: false, hurt: false });
    assert_eq!(e.state, EnemyState::Windup);
}

#[test]
fn law_frame_spares_the_player_after_the_first_hurt() {
    let ready = || {
        let mut e = spawn_enemy_kind(EnemyKind::Hunter, 1, false);
        e.tick_timers(600_000_000);
        enemy_ai_step(&mut e, None, senses(true));
        e.tick_timers(300_000_000);
        e
    };
    let mut first = ready();
    let mut second = ready();
    let mut tally = FrameTally { lost: 0, invuln: false, hurt: false };
    let t1 = enemy_turn_in_frame(&mut first, None, senses(true), &mut tally);
    assert!(t1.hurt_player);
    assert_eq!(tally, FrameTally { lost: 1, invuln: true, hurt: true });
    let t2 = enemy_turn_in_frame(&mut second, None, senses(true), &mut tally);
    assert_eq!(t2.attack.expect("it still swings").player_damage, 0);
    assert!(!t2.hurt_player);
    assert_eq!(tally, FrameTally { lost: 1, invuln: true, hurt: true });
}

#[test]
fn shield_bearer_blocks_frontal_hits_and_must_be_flanked() {
    let mut e = spawn_enemy_kind(EnemyKind::ShieldBearer, 2, false);
    let hp = e.hp;
    assert_eq!(e.take_hit_from(3, 0), (true, false));
    assert_eq!(e.take_hit_from(3, 600), (true, false));
    assert_eq!(e.hp, hp);
    assert_eq!(e.take_hit_from(3, 601), (false, false));
    assert_eq!(e.hp, hp - 3);
    assert_eq!(e.take_hit_from(100, 3000), (false, true));
    assert!(!shield_blocks(EnemyKind::Hunter, 0));
    let mut h = spawn_enemy_kind(EnemyKind::Hunter, 1, false);
    assert_eq!(h.take_hit_from(1, 0), (false, false));
}

#[test]
fn law_goliath_grows_when_hit_up_to_its_limit() {
    let mut g = spawn_enemy_kind(EnemyKind::Goliath, 5, false);
    assert_eq!(g.scale, 1000);
    let mut last = g.scale;
    for _ in 0..12 {
        g.take_damage(0);
        assert!(g.scale >= last);
        assert!(g.scale <= 2500);
        last = g.scale;
    }
    assert_eq!(g.scale, 2500);
    let mut h = spawn_enemy_kind(EnemyKind::Hunter, 1, false);
    h.take_damage(1);
    assert_eq!(h.scale, 1000);
    let mut g = spawn_enemy_kind(EnemyKind::Goliath, 5, false);
    g.take_damage(1);
    assert_eq!(g.scale, 1150);
}

#[test]
fn mimic_waits_in_disguise_until_the_player_comes_near() {
    let mut m = spawn_enemy_kind(EnemyKind::MimicChest, 3, false);
    assert!(m.disguised);
    assert!(m.is_dormant());
    m.tick_timers(600_000_000);
    let turn = enemy_ai_step(&mut m, None, senses(true));
    assert!(!turn.moving && !turn.aim && turn.attack.is_none());
    assert_eq!(m.state, EnemyState::Chase);
    m.notice_player(51);
    assert!(m.disguised);
    m.notice_player(50);
    assert!(!m.disguised);
    let turn = enemy_ai_step(&mut m, None, senses(true));
    assert!(turn.aim);
    assert_eq!(m.state, EnemyState::Windup);
    m.notice_player(400);
    assert!(!m.disguised);
    assert!(!spawn_enemy_kind(EnemyKind::Hunter, 1, false).disguised);
}

#[test]
fn necromancer_revives_two_corpses_at_most_four_seconds_apart() {
    let mut r = Reviver::new();
    assert_eq!(r.revives_left, 2);
    assert!(!r.try_revive(3_999_999_999, true));
    assert!(!r.try_revive(1, false));
    assert!(r.try_revive(0, true));
    assert_eq!(r.revives_left, 1);
    assert!(!r.try_revive(1_000_000_000, true));
    assert!(r.try_revive(3_000_000_000, true));
    assert_eq!(r.revives_left, 0);
    assert!(!r.try_revive(10_000_000_000, true));
    assert_eq!(r.revives_left, 0);
}

#[test]
fn revived_corpses_are_weaker() {
    let fresh = spawn_enemy_kind(EnemyKind::Bruiser, 3, false);
    let raised = revive_corpse(EnemyKind::Bruiser, 3);
    assert_eq!(raised.hp, fresh.hp / 2);
    assert_eq!(raised.max_hp, raised.hp);
    assert_eq!(raised.damage, fresh.damage);
    assert!(!raised.elite);
    let kitten = revive_corpse(EnemyKind::Kitten, 1);
    assert!(kitten.hp >= 1);
    assert!(!revive_corpse(EnemyKind::MimicChest, 2).disguised);
}

#[test]
fn law_a_slash_strikes_each_target_once() {
    let mut hits = HitSet::new();
    assert!(!hits.contains(7));
    assert!(hits.strike(7));
    assert!(hits.contains(7));
    assert!(!hits.strike(7));
    assert!(hits.strike(u64::MAX));
    assert!(!hits.strike(u64::MAX));
    assert!(hits.contains(7) && hits.contains(u64::MAX) && !hits.contains(8));
}

#[test]
fn boss_attack_share_uses_the_raw_maximum() {
    let calm = AttackSenses { in_melee_reach: false, in_blast_radius: false, invuln: true };
    let (mut boss, _) = spawn_boss(3);
    boss.max_hp = -10;
    boss.hp = -8;
    let out = perform_attack(&mut boss, Some(BossType::Dragon), calm);
    assert_eq!(out.volley.expect("a boss fires").angles, vec![-200, 200]);
    boss.hp = -5;
    let out = perform_attack(&mut boss, Some(BossType::Dragon), calm);
    assert_eq!(out.volley.expect("a boss fires").angles, vec![-300, 0, 300]);
    boss.hp = 4;
    let out = perform_attack(&mut boss, Some(BossType::Dragon), calm);
    assert_eq!(out.volley.expect("a boss fires").angles, vec![-400, -200, 0, 200, 400]);
    boss.max_hp = 0;
    boss.hp = 5;
    let out = perform_attack(&mut boss, Some(BossType::Dragon), calm);
    assert_eq!(out.volley.expect("a boss fires").angles, vec![-200, 200]);
    boss.hp = 0;
    let out = perform_attack(&mut boss, Some(BossType::Dragon), calm);
    assert_eq!(out.volley.expect("a boss fires").angles, vec![-400, -200, 0, 200, 400]);
}

#[test]
fn law_attack_hits_each_enemy_once_on_concrete_strikes() {
    let mut hits = HitSet::new();
    let mut e = spawn_enemy_kind(EnemyKind::Bruiser, 2, false);
    let hp = e.hp;
    assert_eq!(hits.strike_enemy(3, &mut e, 4, 0), Some((false, false)));
    assert_eq!(e.hp, hp - 4);
    assert_eq!(hits.strike_enemy(3, &mut e, 4, 0), None);
    assert_eq!(e.hp, hp - 4);
    let mut s = spawn_enemy_kind(EnemyKind::ShieldBearer, 2, false);
    let shield_hp = s.hp;
    assert_eq!(hits.strike_enemy(9, &mut s, 4, 100), Some((true, false)));
    assert_eq!(s.hp, shield_hp);
    assert_eq!(hits.strike_enemy(9, &mut s, 4, 2000), None);
    assert_eq!(s.hp, shield_hp);
}
