use catevy::ability::{found_ability_at, Ability, AbilitySlot, ABILITY_KEY_LABELS, ABILITY_SLOTS};
use catevy::components::{PickupKind, ShopItemKind};
use catevy::enemy_ai::FrameTally;
use catevy::player::{add_speed, AbilityEffect};
use catevy::state::{Modifier, PersistentState, Phase, RoomKind, RunState};
use catevy::sword::{sword_at, Sword, SWORD_COUNT};

fn fresh_run() -> RunState {
    RunState::with_seed(&PersistentState::default(), 3)
}

#[test]
fn fresh_run_matches_new_game() {
    let mut persistent = PersistentState::default();
    persistent.starting_hp_bonus = 4;
    persistent.starting_damage_bonus = 1;
    persistent.starting_speed_bonus = 30;
    let run = RunState::with_seed(&persistent, 11);
    assert_eq!(run.floor, 1);
    assert_eq!(run.room, 1);
    assert_eq!(run.rooms_per_floor, 3);
    assert_eq!(run.phase, Phase::Fighting);
    assert_eq!(run.player_hp, 16);
    assert_eq!(run.player_max_hp, 16);
    assert_eq!(run.damage_bonus, 1);
    assert_eq!(run.player_speed, 300);
    assert_eq!(run.projectile_speed, 420);
    assert_eq!(run.sword.name, "Rusty Claw");
    assert!(run.swing_timer.is_finished());
    assert_eq!(run.abilities.len(), 1);
    assert_eq!(run.abilities[0].ability, Ability::Dash);
    assert!(run.abilities[0].cd.is_finished());
    assert_eq!(run.abilities[0].cd.duration_ns(), 1_100_000_000);
    assert!(!run.zoomies_active());
    assert!(run.can_move());
    assert_eq!(run.room_seed, 11);
    assert_eq!(run.combo_count, 0);
    assert!(run.active_modifiers.is_empty());
}

#[test]
fn default_run_is_fresh() {
    let run = RunState::default();
    assert_eq!(run.player_hp, 12);
    assert_eq!(run.player_speed, 270);
    assert_eq!(run.abilities[0].ability, Ability::Dash);
}

#[test]
fn swing_damage_adds_combo_and_glass_cannon() {
    let mut run = fresh_run();
    assert_eq!(run.swing_damage(), 2);
    run.damage_bonus = 1;
    run.combo_count = 12;
    assert_eq!(run.combo_damage_bonus(), 2);
    assert_eq!(run.swing_damage(), 5);
    run.active_modifiers = vec![(Modifier::GlassCannon, 2)];
    assert!(run.has_modifier(Modifier::GlassCannon));
    assert_eq!(run.swing_damage(), 10);
}

#[test]
fn law_combo_bonus_capped_on_concrete_values() {
    let mut run = fresh_run();
    for kills in [0u32, 4, 5, 9, 10, 14, 15, 16, 100, u32::MAX] {
        run.combo_count = kills;
        let expected = std::cmp::min(kills / 5, 3) as i32;
        assert_eq!(run.combo_damage_bonus(), expected);
        assert!(run.combo_damage_bonus() <= 3);
    }
}

#[test]
fn effective_speed_counts_speed_demon() {
    let mut run = fresh_run();
    assert_eq!(run.effective_speed(), 540);
    run.active_modifiers = vec![(Modifier::SpeedDemon, 1)];
    assert_eq!(run.effective_speed(), 810);
}

#[test]
fn law_heal_stays_in_range_on_concrete_run() {
    let mut run = fresh_run();
    run.player_hp = 5;
    run.apply_pickup(PickupKind::Heal(3));
    assert_eq!(run.player_hp, 8);
    run.apply_pickup(PickupKind::Heal(100));
    assert_eq!(run.player_hp, run.player_max_hp);
    run.apply_shop_item(ShopItemKind::Reroll);
    assert_eq!(run.player_hp, 12);
}

#[test]
fn pickups_change_the_run() {
    let mut run = fresh_run();
    run.apply_pickup(PickupKind::DamageUp(2));
    assert_eq!(run.damage_bonus, 2);
    run.apply_pickup(PickupKind::SpeedUp(20));
    assert_eq!(run.player_speed, 290);
    run.apply_pickup(PickupKind::SpeedUp(-1000));
    assert_eq!(run.player_speed, 0);
    run.apply_pickup(PickupKind::MaxHpUp(2));
    assert_eq!(run.player_max_hp, 14);
    assert_eq!(run.player_hp, 14);
    run.apply_pickup(PickupKind::SwordDrop(2));
    assert_eq!(run.sword.name, "Greatpurr");
    assert_eq!(run.swing_timer.duration_ns(), 600_000_000);
    assert!(run.swing_timer.is_finished());
}

#[test]
fn add_speed_saturates_both_ways() {
    assert_eq!(add_speed(270, 20), 290);
    assert_eq!(add_speed(10, -20), 0);
    assert_eq!(add_speed(u32::MAX - 1, 5), u32::MAX);
}

#[test]
fn law_granted_abilities_keep_shape_on_concrete_run() {
    let mut run = fresh_run();
    run.player_hp = 5;
    run.apply_pickup(PickupKind::AbilityDrop(Ability::Whirlwind));
    run.apply_pickup(PickupKind::AbilityDrop(Ability::Hairball));
    assert_eq!(run.abilities.len(), 3);
    run.apply_pickup(PickupKind::AbilityDrop(Ability::CatNap));
    assert_eq!(run.abilities.len(), 3);
    assert_eq!(run.abilities[0].ability, Ability::Dash);
    assert_eq!(run.abilities[1].ability, Ability::Whirlwind);
    assert_eq!(run.abilities[2].ability, Ability::CatNap);
    // A known ability heals three instead.
    run.apply_pickup(PickupKind::AbilityDrop(Ability::Dash));
    assert_eq!(run.player_hp, 8);
    assert_eq!(run.abilities.len(), 3);
}

#[test]
fn shop_items_apply() {
    let mut run = fresh_run();
    run.player_hp = 1;
    run.apply_shop_item(ShopItemKind::HealFull);
    assert_eq!(run.player_hp, 12);
    run.apply_shop_item(ShopItemKind::Sword(SWORD_COUNT));
    assert_eq!(run.sword.name, "Rusty Claw");
    run.apply_shop_item(ShopItemKind::Sword(4));
    assert_eq!(run.sword.lifesteal, 1);
    run.apply_shop_item(ShopItemKind::Ability(Ability::Purr));
    assert!(run.has_ability(Ability::Purr));
}

#[test]
fn trigger_dash_grants_invulnerability_and_cooldown() {
    let mut run = fresh_run();
    let effect = run.trigger_ability(0);
    assert_eq!(effect, Some(AbilityEffect::Dash));
    assert!(!run.invuln.is_finished());
    assert_eq!(run.invuln.duration_ns(), 300_000_000);
    assert!(!run.abilities[0].cd.is_finished());
    assert_eq!(run.abilities[0].cd.duration_ns(), 1_100_000_000);
    // Used again before the cooldown runs out: nothing happens.
    assert_eq!(run.trigger_ability(0), None);
    run.tick_ability_timers(1_100_000_000);
    assert!(run.abilities[0].cd.is_finished());
    assert_eq!(run.trigger_ability(0), Some(AbilityEffect::Dash));
}

#[test]
fn trigger_abilities_effects() {
    let mut run = fresh_run();
    run.abilities.push(AbilitySlot::new(Ability::Whirlwind));
    run.abilities.push(AbilitySlot::new(Ability::Zoomies));
    assert_eq!(run.trigger_ability(1), Some(AbilityEffect::Whirlwind { damage: 4 }));
    assert_eq!(run.trigger_ability(2), Some(AbilityEffect::Zoomies));
    assert_eq!(run.player_speed, 270);
    assert_eq!(run.effective_speed(), 1620);
    assert_eq!(run.invuln.duration_ns(), 2_000_000_000);
    let mut run = fresh_run();
    run.player_hp = 3;
    run.abilities.push(AbilitySlot::new(Ability::SecondWind));
    run.abilities.push(AbilitySlot::new(Ability::Hairball));
    assert_eq!(run.trigger_ability(1), Some(AbilityEffect::SecondWind));
    assert_eq!(run.player_hp, 9);
    assert_eq!(run.trigger_ability(2), Some(AbilityEffect::Hairball { damage: 2 }));
}

#[test]
fn swing_needs_fighting_and_ready_timer() {
    let mut run = fresh_run();
    assert_eq!(run.start_swing(), Some(2));
    assert_eq!(run.start_swing(), None);
    run.tick_swing(340_000_000);
    run.phase = Phase::RoomCleared;
    assert_eq!(run.start_swing(), None);
    run.phase = Phase::Fighting;
    assert_eq!(run.start_swing(), Some(2));
}

#[test]
fn take_hit_respects_invulnerability() {
    let mut run = fresh_run();
    assert!(run.take_hit(5));
    assert_eq!(run.player_hp, 7);
    assert!(!run.take_hit(5));
    assert_eq!(run.player_hp, 7);
    run.tick_ability_timers(900_000_000);
    assert!(run.take_hit(50));
    assert_eq!(run.player_hp, 0);
}

#[test]
fn invuln_alpha_blinks_while_invulnerable() {
    let mut run = fresh_run();
    assert_eq!(run.invuln_alpha(), 1000);
    assert!(run.take_hit(1));
    assert_eq!(run.invuln_alpha(), 400);
    run.tick_ability_timers(50_000_000);
    assert_eq!(run.invuln_alpha(), 900);
    run.tick_ability_timers(50_000_000);
    assert_eq!(run.invuln_alpha(), 400);
    run.tick_ability_timers(800_000_000);
    assert_eq!(run.invuln_alpha(), 1000);
}

#[test]
fn settle_player_hp_reports_losses() {
    let mut run = fresh_run();
    let s = run.settle_player_hp(9);
    assert_eq!(s.lost, 3);
    assert!(!s.defeated);
    let s = run.settle_player_hp(-4);
    assert_eq!(s.lost, 9);
    assert!(s.defeated);
    assert_eq!(run.player_hp, 0);
    let s = run.settle_player_hp(40);
    assert_eq!(s.lost, 0);
    assert_eq!(run.player_hp, 12);
}

#[test]
fn combo_grows_and_decays() {
    let mut run = fresh_run();
    run.record_kills(0);
    assert_eq!(run.combo_count, 0);
    run.record_kills(3);
    run.record_kills(4);
    assert_eq!(run.combo_count, 7);
    assert_eq!(run.best_combo, 7);
    run.combo_decay(1_999_999_999);
    assert_eq!(run.combo_count, 7);
    run.combo_decay(1);
    assert_eq!(run.combo_count, 0);
    assert_eq!(run.best_combo, 7);
}

#[test]
fn heal_on_kill_only_with_lifesteal() {
    let mut run = fresh_run();
    run.player_hp = 4;
    run.heal_on_kill(0);
    assert_eq!(run.player_hp, 4);
    run.heal_on_kill(1);
    assert_eq!(run.player_hp, 5);
}

#[test]
fn ability_tables() {
    assert_eq!(Ability::WarCry.name(), "War Cry");
    assert_eq!(Ability::CatNap.cooldown(), 20000);
    assert_eq!(Ability::Dash.color().r, 500);
    assert_eq!(ABILITY_SLOTS, 3);
    assert_eq!(ABILITY_KEY_LABELS, ["Space", "Q", "F"]);
    assert_eq!(found_ability_at(0), Ability::Whirlwind);
    assert_eq!(found_ability_at(6), Ability::CatNap);
    let slot = AbilitySlot::new(Ability::Hairball);
    assert!(slot.cd.is_finished());
    assert_eq!(slot.cd.duration_ns(), 2_200_000_000);
}

#[test]
fn sword_table() {
    let starter = Sword::starter();
    assert_eq!(starter.name, "Rusty Claw");
    assert_eq!(starter.cooldown, 340);
    for i in 0..SWORD_COUNT {
        assert_eq!(sword_at(i).icon, i);
    }
    assert!(sword_at(5).slash_wave);
    assert_eq!(sword_at(3).damage, 4);
}

#[test]
fn equip_makes_sword_ready() {
    let mut run = fresh_run();
    run.start_swing();
    run.equip(sword_at(1));
    assert_eq!(run.sword.name, "Tuna Slicer");
    assert!(run.swing_timer.is_finished());
    assert_eq!(run.swing_timer.duration_ns(), 160_000_000);
}

#[test]
fn checked_swing_damage_reports_overflow() {
    let mut run = fresh_run();
    assert_eq!(run.checked_swing_damage(), Some(2));
    run.damage_bonus = i32::MAX - 2;
    assert_eq!(run.checked_swing_damage(), Some(i32::MAX));
    run.damage_bonus = i32::MAX;
    assert_eq!(run.checked_swing_damage(), None);
    run.damage_bonus = 10;
    run.active_modifiers = vec![(Modifier::GlassCannon, 3)];
    assert_eq!(run.checked_swing_damage(), Some(24));
}

#[test]
fn law_zoomies_triples_speed_for_two_seconds() {
    let mut run = fresh_run();
    run.abilities.push(AbilitySlot::new(Ability::Zoomies));
    assert_eq!(run.effective_speed(), 540);
    assert_eq!(run.trigger_ability(1), Some(AbilityEffect::Zoomies));
    assert!(run.zoomies_active());
    assert_eq!(run.effective_speed(), 1620);
    run.tick_ability_timers(1_999_999_999);
    assert_eq!(run.effective_speed(), 1620);
    run.tick_ability_timers(1);
    assert!(!run.zoomies_active());
    assert_eq!(run.effective_speed(), 540);
    run.tick_ability_timers(1_000_000_000);
    assert_eq!(run.effective_speed(), 540);
    assert_eq!(run.player_speed, 270);
    run.active_modifiers = vec![(Modifier::SpeedDemon, 1)];
    run.tick_ability_timers(12_000_000_000);
    assert_eq!(run.trigger_ability(1), Some(AbilityEffect::Zoomies));
    assert_eq!(run.effective_speed(), 2430);
}

#[test]
fn law_cat_nap_heals_two_over_three_seconds_while_still() {
    let mut run = fresh_run();
    run.player_hp = 5;
    run.abilities.push(AbilitySlot::new(Ability::CatNap));
    assert_eq!(run.trigger_ability(1), Some(AbilityEffect::CatNap));
    assert_eq!(run.player_hp, 5);
    assert!(!run.can_move());
    assert_eq!(run.invuln.duration_ns(), 3_000_000_000);
    run.tick_ability_timers(1_499_999_999);
    assert_eq!(run.player_hp, 5);
    run.tick_ability_timers(1);
    assert_eq!(run.player_hp, 6);
    assert!(!run.can_move());
    // No dash while napping, and the dash is not used up.
    assert_eq!(run.trigger_ability(0), None);
    assert!(run.abilities[0].cd.is_finished());
    run.tick_ability_timers(1_499_999_999);
    assert_eq!(run.player_hp, 6);
    run.tick_ability_timers(1);
    assert_eq!(run.player_hp, 7);
    assert!(run.can_move());
    run.tick_ability_timers(5_000_000_000);
    assert_eq!(run.player_hp, 7);
    assert_eq!(run.trigger_ability(0), Some(AbilityEffect::Dash));
}

#[test]
fn cat_nap_heal_stops_at_the_maximum() {
    let mut run = fresh_run();
    run.player_hp = 11;
    run.abilities.push(AbilitySlot::new(Ability::CatNap));
    assert_eq!(run.trigger_ability(1), Some(AbilityEffect::CatNap));
    run.tick_ability_timers(3_000_000_000);
    assert_eq!(run.player_hp, 12);
    assert!(run.can_move());
}

#[test]
fn dash_at_the_largest_hit_points_is_fine() {
    let mut run = fresh_run();
    run.player_hp = i32::MAX;
    run.player_max_hp = i32::MAX;
    assert_eq!(run.trigger_ability(0), Some(AbilityEffect::Dash));
    assert_eq!(run.player_hp, i32::MAX);
    run.abilities.push(AbilitySlot::new(Ability::SecondWind));
    assert_eq!(run.trigger_ability(1), Some(AbilityEffect::SecondWind));
    assert_eq!(run.player_hp, i32::MAX);
}

#[test]
fn enemy_frame_settles_losses_and_defeat() {
    let mut run = fresh_run();
    let mut tally = run.begin_enemy_frame();
    assert_eq!(tally, FrameTally { lost: 0, invuln: false, hurt: false });
    tally.lost = 5;
    tally.hurt = true;
    let s = run.end_enemy_frame(tally);
    assert_eq!(s.lost, 5);
    assert!(!s.defeated);
    assert_eq!(run.player_hp, 7);
    assert!(!run.invuln.is_finished());
    assert_eq!(run.invuln.duration_ns(), 900_000_000);
    let tally = run.begin_enemy_frame();
    assert!(tally.invuln);
    let s = run.end_enemy_frame(FrameTally { lost: i64::MAX, invuln: true, hurt: false });
    assert_eq!(s.lost, 7);
    assert!(s.defeated);
    assert_eq!(run.player_hp, 0);
}

#[test]
fn law_enemy_frame_never_heals_on_concrete_values() {
    for hp in [0, 1, 6, 12] {
        for lost in [0i64, 1, 5, 12, 40] {
            let mut run = fresh_run();
            run.player_hp = hp;
            let s = run.end_enemy_frame(FrameTally { lost, invuln: false, hurt: lost > 0 });
            assert!(run.player_hp >= 0 && run.player_hp <= hp);
            assert_eq!(s.defeated, run.player_hp == 0);
            assert_eq!(s.defeated, lost >= hp as i64);
        }
    }
}

#[test]
fn enemies_act_only_in_fought_flat_rooms() {
    let mut run = fresh_run();
    assert!(run.enemies_act());
    run.phase = Phase::RoomCleared;
    assert!(!run.enemies_act());
    run.phase = Phase::Fighting;
    run.current_room = RoomKind::DepthArena;
    assert!(!run.enemies_act());
}
