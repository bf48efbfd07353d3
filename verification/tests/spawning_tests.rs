use catevy::components::{EnemyKind, Obstacle, PickupKind};
use catevy::groups::{group_squads, weighted_pick, EliteRule, KindRule, Placement, RingTurn};
use catevy::spawning::{
    boss_name, boss_room_name, boss_type_for, depth_boss_for, depth_boss_volley, enemy_stats,
    get_floor_enemy_pool, group_count_for, obstacle_count, pick_enemy_group, rest_room_pickups, room_phase,
    solo_elite_kind, solo_elite_odds, spawn_boss, spawn_enemy_kind, spawn_fits_check, spawn_gem_reward, treasure_pick_range, treasure_pickup,
    treasure_tier, EnemyGroup, GroupCount, TreasureTier,
};
use catevy::ability::Ability;
use catevy::components::BossType;
use catevy::state::{Phase, RoomKind};

const ALL_GROUPS: [EnemyGroup; 8] = [
    EnemyGroup::Swarm,
    EnemyGroup::Balanced,
    EnemyGroup::Assault,
    EnemyGroup::RangedSquad,
    EnemyGroup::SupportGroup,
    EnemyGroup::Elite,
    EnemyGroup::Undead,
    EnemyGroup::Flying,
];

#[test]
fn enemy_stats_grow_with_floor() {
    let s = enemy_stats(EnemyKind::Bruiser, 3);
    assert_eq!(s.hp, 11);
    assert_eq!(s.damage, 3);
    assert_eq!(s.speed, 104);
    assert_eq!(s.size, 88);
    let k = enemy_stats(EnemyKind::Kitten, 9);
    assert_eq!(k.hp, 1);
    assert_eq!(k.damage, 1);
}

#[test]
fn elite_doubles_hp_and_adds_damage() {
    let plain = spawn_enemy_kind(EnemyKind::Chonker, 3, false);
    let elite = spawn_enemy_kind(EnemyKind::Chonker, 3, true);
    assert_eq!(plain.hp, 24);
    assert_eq!(elite.hp, 48);
    assert_eq!(elite.max_hp, 48);
    assert_eq!(elite.damage, plain.damage + 2);
    assert!(elite.elite);
    let summoner = spawn_enemy_kind(EnemyKind::Summoner, 1, false);
    assert_eq!(summoner.ammo, 4);
    assert!(spawn_enemy_kind(EnemyKind::Splitter, 1, false).splits);
    assert!(spawn_enemy_kind(EnemyKind::Bomber, 1, false).explodes);
}

#[test]
fn bosses_by_floor() {
    assert_eq!(boss_type_for(1), BossType::GoblinKing);
    assert_eq!(boss_type_for(2), BossType::Necromancer);
    assert_eq!(boss_type_for(7), BossType::Dragon);
    let (goblin, phases) = spawn_boss(1);
    assert_eq!(goblin.hp, 80);
    assert_eq!(goblin.damage, 2);
    assert_eq!(goblin.ammo, 2);
    assert_eq!(phases.current_phase, 1);
    assert_eq!(goblin.action_cd.duration_ns(), 700_000_000);
    let (necro, _) = spawn_boss(2);
    assert_eq!(necro.hp, 195);
    assert_eq!(necro.damage, 4);
    assert_eq!(boss_name(BossType::Necromancer), "Necromancer");
    assert_eq!(boss_room_name(1), "Goblin King");
    assert_eq!(boss_room_name(4), "Dragon");
}

#[test]
fn depth_bosses_and_volleys() {
    let warden = depth_boss_for(RoomKind::DepthArena).expect("an arena has a boss");
    assert_eq!(warden.name, "Depth Warden");
    assert_eq!(warden.hp, 55);
    assert!(!warden.final_boss);
    let dragon = depth_boss_for(RoomKind::DepthBoss).expect("the final room has a boss");
    assert!(dragon.final_boss);
    assert!(depth_boss_for(RoomKind::Combat).is_none());
    let v = depth_boss_volley(true);
    assert_eq!(v.angles, vec![-350, 0, 350]);
    assert_eq!(v.reload_ms, 1150);
    let v = depth_boss_volley(false);
    assert_eq!(v.angles, vec![0]);
    assert_eq!(v.speed, 430);
}

#[test]
fn room_phases() {
    assert_eq!(room_phase(RoomKind::Combat), Phase::Fighting);
    assert_eq!(room_phase(RoomKind::DepthArena), Phase::Fighting);
    assert_eq!(room_phase(RoomKind::Rest), Phase::RoomCleared);
    assert_eq!(room_phase(RoomKind::Shop), Phase::RoomCleared);
}

#[test]
fn enemy_groups_by_roll() {
    assert_eq!(pick_enemy_group(1, 1, 0), EnemyGroup::Assault);
    assert_eq!(pick_enemy_group(1, 1, 80), EnemyGroup::Balanced);
    assert_eq!(pick_enemy_group(1, 1, 99), EnemyGroup::Balanced);
    assert_eq!(pick_enemy_group(0, 1, 99), EnemyGroup::Swarm);
    assert_eq!(pick_enemy_group(3, 1, 14), EnemyGroup::Elite);
    assert_eq!(pick_enemy_group(3, 1, 15), EnemyGroup::SupportGroup);
    assert_eq!(pick_enemy_group(2, 1, 44), EnemyGroup::RangedSquad);
    assert_eq!(pick_enemy_group(3, 1, 60), EnemyGroup::Undead);
    assert_eq!(pick_enemy_group(2, 1, 65), EnemyGroup::Flying);
    assert_eq!(pick_enemy_group(9, 1, 24), EnemyGroup::Elite);
    assert_eq!(pick_enemy_group(9, 1, 99), EnemyGroup::Assault);
}

#[test]
fn floor_pools_and_weighted_pick() {
    let pool = get_floor_enemy_pool(1);
    assert_eq!(pool, vec![(EnemyKind::Hunter, 6), (EnemyKind::Bruiser, 4), (EnemyKind::Scratcher, 3), (EnemyKind::Kitten, 2)]);
    assert_eq!(weighted_pick(&pool, 0), EnemyKind::Hunter);
    assert_eq!(weighted_pick(&pool, 6), EnemyKind::Hunter);
    assert_eq!(weighted_pick(&pool, 7), EnemyKind::Bruiser);
    assert_eq!(weighted_pick(&pool, 10), EnemyKind::Bruiser);
    assert_eq!(weighted_pick(&pool, 11), EnemyKind::Scratcher);
    assert_eq!(weighted_pick(&pool, 13), EnemyKind::Scratcher);
    assert_eq!(weighted_pick(&pool, 14), EnemyKind::Kitten);
    assert_eq!(weighted_pick(&pool, 15), EnemyKind::Kitten);
    assert_eq!(weighted_pick(&pool, 16), EnemyKind::Hunter);
    let zero_first = vec![(EnemyKind::Boss, 0), (EnemyKind::Kitten, 1)];
    assert_eq!(weighted_pick(&zero_first, 0), EnemyKind::Boss);
    assert_eq!(weighted_pick(&zero_first, 1), EnemyKind::Kitten);
    let even = vec![(EnemyKind::Hunter, 2), (EnemyKind::Bruiser, 2)];
    assert_eq!(weighted_pick(&even, 2), EnemyKind::Hunter);
    assert_eq!(weighted_pick(&even, 3), EnemyKind::Bruiser);
}

#[test]
fn law_floor_pool_has_weight_on_every_floor() {
    for floor in 0..12u32 {
        let pool = get_floor_enemy_pool(floor);
        let total: u32 = pool.iter().map(|p| p.1).sum();
        assert!(total > 0);
        for roll in 1..=total {
            let kind = weighted_pick(&pool, roll as u64);
            assert!(pool.iter().any(|p| p.0 == kind && p.1 > 0));
        }
    }
}

#[test]
fn group_squads_follow_the_themes() {
    let swarm = group_squads(EnemyGroup::Swarm, 1);
    assert_eq!(swarm.len(), 1);
    assert_eq!(swarm[0].count, GroupCount::Range(5, 9));
    assert_eq!(swarm[0].kind, KindRule::FloorPool);
    let balanced = group_squads(EnemyGroup::Balanced, 2);
    assert_eq!(balanced[1].kind, KindRule::Fixed(EnemyKind::Seeker));
    assert_eq!(balanced[1].placement, Placement::Ring { min_radius: 150, max_radius: 200, turn: RingTurn::HalfTurn });
    let balanced = group_squads(EnemyGroup::Balanced, 3);
    assert_eq!(
        balanced[1].kind,
        KindRule::Coin { num: 1, den: 2, heads: EnemyKind::Caster, tails: EnemyKind::Seeker }
    );
    let elite = group_squads(EnemyGroup::Elite, 3);
    assert_eq!(elite[0].elite, EliteRule::Always);
    assert_eq!(
        elite[0].kind,
        KindRule::Coin { num: 1, den: 2, heads: EnemyKind::Chonker, tails: EnemyKind::ShadowCat }
    );
    let undead = group_squads(EnemyGroup::Undead, 4);
    assert_eq!(undead[0].placement, Placement::At { dx: 0, dy: 50 });
    assert_eq!(undead[0].elite, EliteRule::Chance { num: 3, den: 10 });
    let support = group_squads(EnemyGroup::SupportGroup, 4);
    assert_eq!(
        support[0].kind,
        KindRule::Coin { num: 2, den: 5, heads: EnemyKind::NecromancerCat, tails: EnemyKind::Summoner }
    );
}

#[test]
fn law_squads_are_drawable_for_every_group() {
    for floor in 0..8u32 {
        for group in ALL_GROUPS {
            let squads = group_squads(group, floor);
            assert!(!squads.is_empty());
            for s in squads {
                match s.count {
                    GroupCount::Fixed(n) => assert!(n >= 1),
                    GroupCount::Range(lo, hi) => assert!(1 <= lo && lo < hi),
                }
                if let KindRule::Coin { num, den, .. } = s.kind {
                    assert!(0 < num && num <= den);
                }
                if let EliteRule::Chance { num, den } = s.elite {
                    assert!(0 < num && num <= den);
                }
                if let Placement::Ring { min_radius, max_radius, .. } = s.placement {
                    assert!(min_radius < max_radius);
                }
            }
        }
    }
}

#[test]
fn combat_room_layout_numbers() {
    assert_eq!(group_count_for(1), GroupCount::Fixed(1));
    assert_eq!(group_count_for(2), GroupCount::Range(1, 3));
    assert_eq!(group_count_for(6), GroupCount::Range(2, 4));
    assert_eq!(solo_elite_kind(2), EnemyKind::Chonker);
    assert_eq!(solo_elite_kind(5), EnemyKind::Goliath);
    assert_eq!(obstacle_count(1), 2);
    assert_eq!(obstacle_count(4), 4);
    assert_eq!(obstacle_count(100), 4);
    assert_eq!(rest_room_pickups(5), vec![PickupKind::Heal(2); 4]);
    assert_eq!(rest_room_pickups(0).len(), 2);
    assert_eq!(solo_elite_odds(1), None);
    assert_eq!(solo_elite_odds(2), Some((3, 20)));
}

#[test]
fn obstacles_break() {
    let mut rock = Obstacle::new(false);
    assert_eq!(rock.hp, 999);
    let mut crate_ = Obstacle::new(true);
    assert_eq!(crate_.hp, 2);
    assert!(!crate_.take_damage(1));
    assert!(crate_.take_damage(1));
    assert!(!rock.take_damage(5));
}

#[test]
fn treasure_tables() {
    assert_eq!(treasure_tier(0), TreasureTier::Sword);
    assert_eq!(treasure_tier(39), TreasureTier::Sword);
    assert_eq!(treasure_tier(40), TreasureTier::Ability);
    assert_eq!(treasure_tier(71), TreasureTier::Ability);
    assert_eq!(treasure_tier(72), TreasureTier::Minor);
    assert_eq!(treasure_pick_range(TreasureTier::Sword), (1, 6));
    assert_eq!(treasure_pickup(TreasureTier::Sword, 3), PickupKind::SwordDrop(3));
    assert_eq!(treasure_pickup(TreasureTier::Ability, 4), PickupKind::AbilityDrop(Ability::Zoomies));
    assert_eq!(treasure_pickup(TreasureTier::Minor, 1), PickupKind::SpeedUp(20));
    assert_eq!(treasure_pickup(TreasureTier::Minor, 2), PickupKind::MaxHpUp(2));
}

#[test]
fn law_gem_rewards_cycle_on_concrete_rolls() {
    assert_eq!(spawn_gem_reward(0), PickupKind::DamageUp(1));
    assert_eq!(spawn_gem_reward(1), PickupKind::SpeedUp(15));
    assert_eq!(spawn_gem_reward(2), PickupKind::Heal(3));
    for roll in 0..300u32 {
        assert_eq!(spawn_gem_reward(roll), spawn_gem_reward(roll + 3));
    }
}

#[test]
fn spawn_fits_check_catches_overflowing_floors() {
    assert!(spawn_fits_check(EnemyKind::Boss, 10, true));
    assert!(spawn_fits_check(EnemyKind::Kitten, u32::MAX / 2, false));
    assert!(!spawn_fits_check(EnemyKind::Kitten, u32::MAX, false));
    // 60 + 20 * f overflows an i32 once f passes about 107 million.
    assert!(spawn_fits_check(EnemyKind::Boss, 100_000_000, false));
    assert!(!spawn_fits_check(EnemyKind::Boss, 110_000_000, false));
    // An elite doubles its hit points.
    assert!(!spawn_fits_check(EnemyKind::Boss, 100_000_000, true));
}
