use catevy::components::{EnemyKind, PickupKind, ShopItemKind};
use catevy::room::{
    boss_bar_is_low, death_effects, explosion_damage, first_affordable, pause_menu_input, process_room_clear,
    toggle_pause,
};
use catevy::spawning::{spawn_boss, spawn_enemy_kind};
use catevy::state::{CodexEntry, ComboState, GameState, PersistentState, Phase, RoomKind, RunState};

fn fresh_run() -> RunState {
    RunState::with_seed(&PersistentState::default(), 21)
}

#[test]
fn clearing_a_combat_room_opens_a_door() {
    let mut run = fresh_run();
    assert_eq!(process_room_clear(&mut run, 2, false), None);
    assert_eq!(run.phase, Phase::Fighting);
    let clear = process_room_clear(&mut run, 0, false).expect("the room is cleared");
    assert!(clear.spawn_door);
    assert!(clear.rewards.is_none());
    assert_eq!(run.phase, Phase::RoomCleared);
    assert!(run.door_is_open());
    assert!(!run.depth_exit_is_open());
    // Already cleared: nothing more happens.
    assert_eq!(process_room_clear(&mut run, 0, false), None);
}

#[test]
fn an_existing_door_is_not_spawned_twice() {
    let mut run = fresh_run();
    let clear = process_room_clear(&mut run, 0, true).expect("the room is cleared");
    assert!(!clear.spawn_door);
    assert!(clear.rewards.is_none());
}

#[test]
fn law_boss_sword_is_not_starter_on_concrete_floors() {
    for floor in 1..20u32 {
        let mut run = fresh_run();
        run.floor = floor;
        run.room = 3;
        run.current_room = RoomKind::Boss;
        let clear = process_room_clear(&mut run, 0, false).expect("the boss room is cleared");
        let rewards = clear.rewards.expect("a boss leaves rewards");
        assert!(1 <= rewards.sword_index && rewards.sword_index <= 5);
        assert_eq!(rewards.sword_index, 1 + (floor % 5) as usize);
    }
}

#[test]
fn boss_rewards_on_floor_one() {
    let mut run = fresh_run();
    run.room = 3;
    run.current_room = RoomKind::Boss;
    let rewards = process_room_clear(&mut run, 0, false).unwrap().rewards.unwrap();
    assert_eq!(rewards.sword_index, 2);
    assert_eq!(rewards.left_gem, PickupKind::DamageUp(1));
    assert_eq!(rewards.right_gem, PickupKind::Heal(3));
}

#[test]
fn depth_rooms_are_cleared_by_their_own_rule() {
    let mut run = fresh_run();
    run.current_room = RoomKind::DepthArena;
    assert_eq!(process_room_clear(&mut run, 0, false), None);
    assert!(!run.depth_room_progression(true));
    assert!(run.depth_room_progression(false));
    assert_eq!(run.phase, Phase::RoomCleared);
    assert!(run.depth_exit_is_open());
    assert!(!run.door_is_open());
    assert!(!run.depth_room_progression(false));
}

#[test]
fn entering_rooms_sets_kind_and_phase() {
    let mut run = fresh_run();
    run.room = 3;
    assert_eq!(run.enter_room(), RoomKind::Boss);
    assert_eq!(run.phase, Phase::Fighting);
    run.room = 2;
    let kind = run.enter_room();
    assert!(kind == RoomKind::Rest || kind == RoomKind::Treasure);
    assert_eq!(run.phase, Phase::RoomCleared);
    let kind = run.debug_jump_to_depth();
    assert_eq!(kind, RoomKind::Combat);
    assert_eq!(run.floor, 3);
    assert_eq!(run.room, 1);
    assert_eq!(run.phase, Phase::Fighting);
}

#[test]
fn dying_enemies_leave_their_marks() {
    let elite = spawn_enemy_kind(EnemyKind::Hunter, 1, true);
    let d = death_effects(&elite);
    assert!(d.gem);
    assert_eq!(d.kittens, 0);
    assert_eq!(d.explosion_damage, None);
    assert!(d.corpse);
    let (boss, _) = spawn_boss(1);
    assert!(!death_effects(&boss).corpse);
    let splitter = spawn_enemy_kind(EnemyKind::Splitter, 2, false);
    assert_eq!(death_effects(&splitter).kittens, 2);
    let bomber = spawn_enemy_kind(EnemyKind::Bomber, 2, false);
    assert_eq!(death_effects(&bomber).explosion_damage, Some(bomber.damage + 2));
    assert_eq!(explosion_damage(7, true, false), 7);
    assert_eq!(explosion_damage(7, true, true), 0);
    assert_eq!(explosion_damage(7, false, false), 0);
}

#[test]
fn law_earnings_grow_with_floor_on_concrete_runs() {
    let mut p = PersistentState::default();
    assert_eq!(p.record_run(3, 2), 32);
    assert_eq!(p.currency, 32);
    assert_eq!(p.total_runs, 1);
    assert_eq!(p.best_floor, 3);
    assert_eq!(p.record_run(1, 1), 11);
    assert_eq!(p.best_floor, 3);
    assert_eq!(p.currency, 43);
    for floor in 0..10u32 {
        let mut q = PersistentState::default();
        assert!(q.record_run(floor, 0) >= 10 * floor);
    }
}

#[test]
fn purchases_need_currency() {
    let mut p = PersistentState::default();
    p.currency = 10;
    let mut run = fresh_run();
    assert!(!p.try_purchase(&mut run, ShopItemKind::DamageUp(1), 11));
    assert_eq!(p.currency, 10);
    assert_eq!(run.damage_bonus, 0);
    assert!(p.try_purchase(&mut run, ShopItemKind::DamageUp(1), 10));
    assert_eq!(p.currency, 0);
    assert_eq!(run.damage_bonus, 1);
    assert_eq!(first_affordable(5, &vec![9, 6, 5, 1]), Some(2));
    assert_eq!(first_affordable(0, &vec![9, 6]), None);
}

#[test]
fn pause_and_menus() {
    assert_eq!(toggle_pause(GameState::Playing), Some(GameState::Paused));
    assert_eq!(toggle_pause(GameState::Paused), Some(GameState::Playing));
    assert_eq!(toggle_pause(GameState::MainMenu), None);
    assert_eq!(pause_menu_input(true, true), Some(GameState::MainMenu));
    assert_eq!(pause_menu_input(true, false), Some(GameState::Playing));
    assert_eq!(pause_menu_input(false, false), None);
}

#[test]
fn boss_bar_turns_low_at_thirty_percent() {
    assert!(!boss_bar_is_low(31, 100));
    assert!(boss_bar_is_low(30, 100));
    assert!(boss_bar_is_low(0, 0));
    assert!(!boss_bar_is_low(1, 0));
}

#[test]
fn fresh_save_and_codex_start_empty() {
    let p = PersistentState::default();
    assert_eq!(p.total_runs, 0);
    assert!(p.unlocked_swords.is_empty());
    let c = CodexEntry::default();
    assert_eq!(c.times_killed, 0);
    assert_eq!(ComboState::default().last_milestone, 0);
}

#[test]
fn law_pause_round_trip_on_every_screen() {
    for state in [GameState::Playing, GameState::Paused] {
        let once = toggle_pause(state).expect("play and pause toggle");
        assert_ne!(once, state);
        assert_eq!(toggle_pause(once), Some(state));
    }
    assert_eq!(toggle_pause(GameState::GameOver), None);
}
