//! Entering, clearing and leaving rooms; menus and the end of a run.
use crate::components::{Enemy, EnemyKind, PickupKind, ShopItemKind};
use crate::player::shop_item_effect;
use crate::progression::{room_kind_for, room_kind_spec};
use crate::spawning::{gem_reward_spec, room_phase, room_phase_spec, spawn_gem_reward};
use crate::state::{is_depth_spec, GameState, PersistentState, Phase, RoomKind, RunState};
use vstd::prelude::*;

verus! {

impl RunState {
    /// Enters the current room: decides its kind and the phase it starts in.
    pub fn enter_room(&mut self) -> (kind: RoomKind)
        ensures
            kind == room_kind_spec(old(self).room, old(self).rooms_per_floor, old(self).room_seed, old(self).floor),
            *final(self) == (RunState { current_room: kind, phase: room_phase_spec(kind), ..*old(self) }),
            old(self).wf() ==> final(self).wf(),
    {
        let kind = room_kind_for(self);
        self.current_room = kind;
        self.phase = room_phase(kind);
        kind
    }

    /// Jumps to room 1 of floor 3 and enters it.
    pub fn debug_jump_to_depth(&mut self) -> (kind: RoomKind)
        ensures
            kind == room_kind_spec(1, old(self).rooms_per_floor, old(self).room_seed, 3),
            *final(self) == (RunState {
                floor: 3,
                room: 1,
                current_room: kind,
                phase: room_phase_spec(kind),
                ..*old(self)
            }),
            old(self).wf() ==> final(self).wf(),
    {
        self.floor = 3;
        self.room = 1;
        self.phase = Phase::Fighting;
        self.enter_room()
    }

    /// Whether the door of a two-dimensional room can be used.
    pub fn door_is_open(&self) -> (b: bool)
        ensures
            b == (!is_depth_spec(self.current_room) && self.phase == Phase::RoomCleared),
    {
        !self.current_room.is_depth() && self.phase == Phase::RoomCleared
    }

    /// Whether the exit of a depth room can be used.
    pub fn depth_exit_is_open(&self) -> (b: bool)
        ensures
            b == (is_depth_spec(self.current_room) && self.phase == Phase::RoomCleared),
    {
        self.current_room.is_depth() && self.phase == Phase::RoomCleared
    }

    /// Clears a depth room being fought once no boss is left alive; returns
    /// whether it was cleared now.
    pub fn depth_room_progression(&mut self, boss_alive: bool) -> (cleared: bool)
        ensures
            cleared == (is_depth_spec(old(self).current_room) && old(self).phase == Phase::Fighting
                && !boss_alive),
            cleared ==> *final(self) == (RunState { phase: Phase::RoomCleared, ..*old(self) }),
            !cleared ==> *final(self) == *old(self),
    {
        if !self.current_room.is_depth() || self.phase != Phase::Fighting || boss_alive {
            return false;
        }
        self.phase = Phase::RoomCleared;
        true
    }
}

/// Rewards left behind by a beaten boss: a sword and two gems.
#[derive(Clone, Copy, PartialEq, Eq, Structural, Debug)]
pub struct BossRewards {
    /// Index of the sword reward: never the starter.
    pub sword_index: usize,
    pub left_gem: PickupKind,
    pub right_gem: PickupKind,
}

/// What clearing a room brings.
#[derive(Clone, Copy, PartialEq, Eq, Structural, Debug)]
pub struct RoomClear {
    /// A door must appear (there was none yet).
    pub spawn_door: bool,
    pub rewards: Option<BossRewards>,
}

/// The rewards of the boss of floor `floor`.
pub open spec fn boss_rewards_spec(floor: u32) -> BossRewards {
    BossRewards {
        sword_index: (1 + floor % 5) as usize,
        left_gem: gem_reward_spec((floor * 3) as u32),
        right_gem: gem_reward_spec((floor * 3 + 2) as u32),
    }
}

/// Clears a two-dimensional room being fought once no enemy is left. A door
/// appears unless one exists; beating a boss also leaves a sword and two gems.
pub fn process_room_clear(run: &mut RunState, enemies_left: usize, door_exists: bool) -> (clear: Option<RoomClear>)
    requires
        old(run).current_room == RoomKind::Boss ==> old(run).floor * 3 + 2 <= u32::MAX,
    ensures
        ({
            let o = *old(run);
            if is_depth_spec(o.current_room) || o.phase != Phase::Fighting || enemies_left > 0 {
                clear is None && *final(run) == o
            } else {
                &&& *final(run) == (RunState { phase: Phase::RoomCleared, ..o })
                &&& clear == Some(RoomClear {
                    spawn_door: !door_exists,
                    rewards: if !door_exists && o.current_room == RoomKind::Boss {
                        Some(boss_rewards_spec(o.floor))
                    } else {
                        None
                    },
                })
            }
        }),
{
    if run.current_room.is_depth() || run.phase != Phase::Fighting || enemies_left > 0 {
        return None;
    }
    run.phase = Phase::RoomCleared;
    if door_exists {
        return Some(RoomClear { spawn_door: false, rewards: None });
    }
    let rewards = if run.current_room == RoomKind::Boss {
        Some(BossRewards {
            sword_index: 1 + (run.floor % 5) as usize,
            left_gem: spawn_gem_reward(run.floor * 3),
            right_gem: spawn_gem_reward(run.floor * 3 + 2),
        })
    } else {
        None
    };
    Some(RoomClear { spawn_door: true, rewards })
}

/// What a dying enemy leaves behind.
#[derive(Clone, Copy, PartialEq, Eq, Structural, Debug)]
pub struct DeathEffects {
    /// An elite drops a gem.
    pub gem: bool,
    /// A splitter splits into kittens.
    pub kittens: u32,
    /// A bomber explodes with this damage.
    pub explosion_damage: Option<i32>,
    /// A corpse stays behind, which a necromancer cat may revive; bosses
    /// leave none.
    pub corpse: bool,
}

/// What `enemy` leaves behind when it dies.
pub fn death_effects(enemy: &Enemy) -> (d: DeathEffects)
    requires
        enemy.explodes ==> enemy.damage <= i32::MAX - 2,
    ensures
        d == (DeathEffects {
            gem: enemy.elite,
            kittens: if enemy.splits { 2u32 } else { 0u32 },
            explosion_damage: if enemy.explodes { Some((enemy.damage + 2) as i32) } else { None },
            corpse: enemy.kind != EnemyKind::Boss,
        }),
{
    DeathEffects {
        gem: enemy.elite,
        kittens: if enemy.splits { 2 } else { 0 },
        explosion_damage: if enemy.explodes { Some(enemy.damage + 2) } else { None },
        corpse: enemy.kind != EnemyKind::Boss,
    }
}

/// Damage an explosion deals the player: all of it within the radius unless
/// the player is invulnerable, none otherwise.
pub fn explosion_damage(damage: i32, in_radius: bool, invuln: bool) -> (d: i32)
    ensures
        d == if in_radius && !invuln { damage } else { 0i32 },
{
    if in_radius && !invuln { damage } else { 0 }
}

/// Currency earned by a run that ended in room `room` of floor `floor`.
pub open spec fn run_earnings(floor: u32, room: u32) -> int {
    floor * 10 + room
}

impl PersistentState {
    /// Records the end of a run: earns ten currency per floor plus one per
    /// room, counts the run and keeps the best floor. Returns the earnings.
    pub fn record_run(&mut self, floor: u32, room: u32) -> (earned: u32)
        requires
            floor * 10 + room <= u32::MAX,
            old(self).currency + floor * 10 + room <= u32::MAX,
            old(self).total_runs < u32::MAX,
        ensures
            earned == run_earnings(floor, room),
            final(self).currency == old(self).currency + earned,
            final(self).total_runs == old(self).total_runs + 1,
            final(self).best_floor == if old(self).best_floor < floor { floor } else { old(self).best_floor },
            final(self).best_floor >= old(self).best_floor,
            final(self).starting_hp_bonus == old(self).starting_hp_bonus,
            final(self).starting_damage_bonus == old(self).starting_damage_bonus,
            final(self).starting_speed_bonus == old(self).starting_speed_bonus,
            final(self).unlocked_swords@ == old(self).unlocked_swords@,
            final(self).unlocked_abilities@ == old(self).unlocked_abilities@,
            final(self).unlocked_cosmetics@ == old(self).unlocked_cosmetics@,
            final(self).achievements@ == old(self).achievements@,
            final(self).codex@ == old(self).codex@,
            final(self).total_enemies_killed == old(self).total_enemies_killed,
            final(self).bosses_defeated == old(self).bosses_defeated,
            final(self).secrets_found == old(self).secrets_found,
            final(self).highest_difficulty_unlocked == old(self).highest_difficulty_unlocked,
            final(self).selected_difficulty == old(self).selected_difficulty,
    {
        let earned = floor * 10 + room;
        self.currency = self.currency + earned;
        self.total_runs = self.total_runs + 1;
        if self.best_floor < floor {
            self.best_floor = floor;
        }
        earned
    }

    /// Buys an item costing `cost` if the currency covers it: the currency
    /// drops by the cost and the item takes effect on the run. Returns whether
    /// it was bought.
    pub fn try_purchase(&mut self, run: &mut RunState, kind: ShopItemKind, cost: u32) -> (bought: bool)
        requires
            match kind {
                ShopItemKind::DamageUp(a) => i32::MIN <= old(run).damage_bonus + a <= i32::MAX,
                ShopItemKind::MaxHpUp(a) => i32::MIN <= old(run).player_hp + a <= i32::MAX
                    && i32::MIN <= old(run).player_max_hp + a <= i32::MAX,
                ShopItemKind::Ability(_) => old(run).player_hp <= i32::MAX - 3,
                ShopItemKind::Reroll => old(run).player_hp <= i32::MAX - 2,
                _ => true,
            },
        ensures
            bought == (old(self).currency >= cost),
            *final(self) == (PersistentState { currency: final(self).currency, ..*old(self) }),
            bought ==> final(self).currency == old(self).currency - cost,
            bought ==> shop_item_effect(*old(run), *final(run), kind),
            !bought ==> final(self).currency == old(self).currency && *final(run) == *old(run),
            old(run).wf() ==> final(run).wf(),
    {
        if self.currency < cost {
            return false;
        }
        self.currency = self.currency - cost;
        run.apply_shop_item(kind);
        true
    }
}

/// The first item, in order, whose cost the currency covers.
pub fn first_affordable(currency: u32, costs: &Vec<u32>) -> (i: Option<usize>)
    ensures
        i matches Some(k) ==> k < costs@.len() && costs@[k as int] <= currency
            && forall|j: int| 0 <= j < k ==> costs@[j] > currency,
        i is None ==> forall|j: int| 0 <= j < costs@.len() ==> costs@[j] > currency,
{
    let mut k: usize = 0;
    while k < costs.len()
        invariant
            k <= costs@.len(),
            forall|j: int| 0 <= j < k ==> costs@[j] > currency,
        decreases costs@.len() - k,
    {
        if costs[k] <= currency {
            return Some(k);
        }
        k = k + 1;
    }
    None
}

/// The state the pause key leads to: playing and paused swap; other states
/// stay.
pub open spec fn toggle_pause_spec(state: GameState) -> Option<GameState> {
    match state {
        GameState::Playing => Some(GameState::Paused),
        GameState::Paused => Some(GameState::Playing),
        _ => None,
    }
}

/// The state the pause key leads to: playing and paused swap; other states
/// stay.
pub fn toggle_pause(state: GameState) -> (next: Option<GameState>)
    ensures
        next == toggle_pause_spec(state),
{
    match state {
        GameState::Playing => Some(GameState::Paused),
        GameState::Paused => Some(GameState::Playing),
        _ => None,
    }
}

/// The state chosen on the pause menu: quitting to the main menu wins over
/// resuming.
pub fn pause_menu_input(resume: bool, quit: bool) -> (next: Option<GameState>)
    ensures
        next == if quit {
            Some(GameState::MainMenu)
        } else if resume {
            Some(GameState::Playing)
        } else {
            None::<GameState>
        },
{
    if quit {
        Some(GameState::MainMenu)
    } else if resume {
        Some(GameState::Playing)
    } else {
        None
    }
}

/// Whether a boss health bar shows its low colour: at most 30% of the
/// maximum (a non-positive maximum counts as 1).
pub fn boss_bar_is_low(hp: i32, max_hp: i32) -> (low: bool)
    ensures
        low == (hp * 100 <= 30 * (if max_hp < 1 { 1 } else { max_hp as int })),
{
    let m: i64 = if max_hp < 1 { 1 } else { max_hp as i64 };
    (hp as i64) * 100 <= 30 * m
}

} // verus!
