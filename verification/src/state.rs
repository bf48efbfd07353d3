//! Game-wide state: the screen, the current run and what is kept between runs.
use crate::ability::{ready_slot, Ability, AbilitySlot, CAT_NAP_HEAL, CAT_NAP_MS, ZOOMIES_MS};
use crate::components::EnemyKind;
use crate::sword::{sword_spec, Sword};
use crate::rng::random_seed;
use crate::timer::Cooldown;
use vstd::prelude::*;

verus! {

/// Main game state for menu, pause and game-over screens.
#[derive(Clone, Copy, PartialEq, Eq, Structural, Debug, Hash)]
pub enum GameState {
    MainMenu,
    Playing,
    Paused,
    GameOver,
}

/// Which gameplay dimension is active; only meaningful while playing.
#[derive(Clone, Copy, PartialEq, Eq, Structural, Debug, Hash)]
pub enum GameMode {
    TwoD,
    Depth,
}

/// Room-level phase during gameplay.
#[derive(Clone, Copy, PartialEq, Eq, Structural, Debug)]
pub enum Phase {
    Fighting,
    RoomCleared,
}

/// The kinds of room a floor is made of.
#[derive(Clone, Copy, PartialEq, Eq, Structural, Debug)]
pub enum RoomKind {
    Combat,
    Rest,
    Treasure,
    Boss,
    DepthTransition,
    DepthArena,
    DepthBoss,
    Shop,
}

/// Whether a room kind belongs to the three-dimensional depth mode.
pub open spec fn is_depth_spec(k: RoomKind) -> bool {
    k is DepthTransition || k is DepthArena || k is DepthBoss
}

impl RoomKind {
    /// Whether this room belongs to the three-dimensional depth mode.
    pub fn is_depth(self) -> (b: bool)
        ensures
            b == is_depth_spec(self),
    {
        match self {
            RoomKind::DepthTransition | RoomKind::DepthArena | RoomKind::DepthBoss => true,
            _ => false,
        }
    }
}

/// Risk/reward modifiers that affect gameplay.
#[derive(Clone, Copy, PartialEq, Eq, Structural, Debug)]
pub enum Modifier {
    GlassCannon,
    SpeedDemon,
    Vampire,
    TreasureHunter,
}

/// Codex entry for an enemy type.
#[derive(Clone, Copy, PartialEq, Eq, Structural, Debug)]
pub struct CodexEntry {
    pub discovered: bool,
    pub times_killed: u32,
    pub lore_seen: bool,
}

impl CodexEntry {
    /// An entry for an enemy not yet met.
    pub fn default() -> (e: CodexEntry)
        ensures
            e == (CodexEntry { discovered: false, times_killed: 0, lore_seen: false }),
    {
        CodexEntry { discovered: false, times_killed: 0, lore_seen: false }
    }
}

/// Cosmetic identifier for unlocks.
#[derive(Clone, Copy, PartialEq, Eq, Structural, Debug, Hash)]
pub enum CosmeticId {
    CatOrangeTabby,
    CatBlack,
    CatWhite,
    CatSiamese,
    CatCalico,
    SwordFlame,
    SwordIce,
    SwordVoid,
    SwordRainbow,
}

/// Achievement identifier.
#[derive(Clone, Copy, PartialEq, Eq, Structural, Debug, Hash)]
pub enum AchievementId {
    FirstBoss,
    Floor5,
    Floor10,
    Combo20,
    FlawlessRoom,
    Currency1000,
    Kills500,
}

/// Largest camera-shake trauma, in thousandths: full trauma.
pub const FULL_TRAUMA: u32 = 1000;

/// Decaying camera-shake intensity, in thousandths of full trauma.
pub struct ScreenShake {
    trauma: u32,
}

/// Trauma lost over `delta_ns` nanoseconds: 1.8 per second, in thousandths
/// (rounded down).
pub open spec fn trauma_decay(delta_ns: nat) -> nat {
    delta_ns * 9 / 5_000_000
}

/// Trauma `level` after `amount` more, saturating at full trauma.
pub open spec fn trauma_added(level: nat, amount: nat) -> nat {
    if level + amount >= FULL_TRAUMA {
        FULL_TRAUMA as nat
    } else {
        level + amount
    }
}

/// Trauma `level` after `delta_ns` nanoseconds of decay, stopping at zero.
pub open spec fn trauma_decayed(level: nat, delta_ns: nat) -> nat {
    if trauma_decay(delta_ns) >= level {
        0
    } else {
        (level - trauma_decay(delta_ns)) as nat
    }
}

impl ScreenShake {
    #[verifier::type_invariant]
    spec fn inv(self) -> bool {
        self.trauma <= FULL_TRAUMA
    }

    /// The current trauma, in thousandths.
    pub closed spec fn level(self) -> nat {
        self.trauma as nat
    }

    /// No shake.
    pub fn new() -> (s: ScreenShake)
        ensures
            s.level() == 0,
    {
        ScreenShake { trauma: 0 }
    }

    /// The current trauma, in thousandths; never above full trauma.
    pub fn trauma(&self) -> (t: u32)
        ensures
            t == self.level(),
            t <= FULL_TRAUMA,
    {
        proof {
            use_type_invariant(self);
        }
        self.trauma
    }

    /// Adds `amount` thousandths of trauma, saturating at full trauma.
    pub fn add(&mut self, amount: u32)
        ensures
            final(self).level() == trauma_added(old(self).level(), amount as nat),
    {
        proof {
            use_type_invariant(&*self);
        }
        if amount >= FULL_TRAUMA - self.trauma {
            self.trauma = FULL_TRAUMA;
        } else {
            self.trauma = self.trauma + amount;
        }
    }

    /// Lets `delta_ns` nanoseconds of decay pass; trauma stops at zero.
    pub fn decay(&mut self, delta_ns: u64)
        ensures
            final(self).level() == trauma_decayed(old(self).level(), delta_ns as nat),
    {
        proof {
            use_type_invariant(&*self);
        }
        let lost: u128 = (delta_ns as u128) * 9 / 5_000_000;
        if lost >= self.trauma as u128 {
            self.trauma = 0;
        } else {
            self.trauma = self.trauma - (lost as u32);
        }
    }

    /// How hard the camera shakes: the square of the trauma, in millionths.
    pub fn amount(&self) -> (a: u32)
        ensures
            a == self.level() * self.level(),
            a <= FULL_TRAUMA * FULL_TRAUMA,
    {
        proof {
            use_type_invariant(self);
        }
        assert(self.trauma * self.trauma <= FULL_TRAUMA * FULL_TRAUMA) by (nonlinear_arith)
            requires
                self.trauma <= FULL_TRAUMA,
        ;
        self.trauma * self.trauma
    }
}

impl Default for ScreenShake {
    fn default() -> (s: ScreenShake)
        ensures
            s.level() == 0,
    {
        ScreenShake::new()
    }
}

/// The last combo milestone reached, for visual feedback.
#[derive(Clone, Copy, PartialEq, Eq, Structural, Debug, Default)]
pub struct ComboState {
    pub last_milestone: u32,
}

/// State kept between runs. Sets and maps are held as vectors without
/// repeated keys.
pub struct PersistentState {
    pub total_runs: u32,
    pub best_floor: u32,
    pub currency: u32,
    pub starting_hp_bonus: i32,
    pub starting_damage_bonus: i32,
    /// Extra movement speed at the start of a run, in pixels per second.
    pub starting_speed_bonus: u32,
    pub unlocked_swords: Vec<usize>,
    pub unlocked_abilities: Vec<Ability>,
    pub unlocked_cosmetics: Vec<CosmeticId>,
    pub achievements: Vec<AchievementId>,
    pub codex: Vec<(EnemyKind, CodexEntry)>,
    pub total_enemies_killed: u64,
    pub bosses_defeated: u32,
    pub secrets_found: u32,
    pub highest_difficulty_unlocked: u8,
    pub selected_difficulty: u8,
}

impl PersistentState {
    /// Whether every number and list is at its starting value.
    pub open spec fn is_fresh(self) -> bool {
        &&& self.total_runs == 0
        &&& self.best_floor == 0
        &&& self.currency == 0
        &&& self.starting_hp_bonus == 0
        &&& self.starting_damage_bonus == 0
        &&& self.starting_speed_bonus == 0
        &&& self.unlocked_swords@.len() == 0
        &&& self.unlocked_abilities@.len() == 0
        &&& self.unlocked_cosmetics@.len() == 0
        &&& self.achievements@.len() == 0
        &&& self.codex@.len() == 0
        &&& self.total_enemies_killed == 0
        &&& self.bosses_defeated == 0
        &&& self.secrets_found == 0
        &&& self.highest_difficulty_unlocked == 0
        &&& self.selected_difficulty == 0
    }

    /// A save with nothing earned yet.
    pub fn default() -> (p: PersistentState)
        ensures
            p.is_fresh(),
    {
        PersistentState {
            total_runs: 0,
            best_floor: 0,
            currency: 0,
            starting_hp_bonus: 0,
            starting_damage_bonus: 0,
            starting_speed_bonus: 0,
            unlocked_swords: Vec::new(),
            unlocked_abilities: Vec::new(),
            unlocked_cosmetics: Vec::new(),
            achievements: Vec::new(),
            codex: Vec::new(),
            total_enemies_killed: 0,
            bosses_defeated: 0,
            secrets_found: 0,
            highest_difficulty_unlocked: 0,
            selected_difficulty: 0,
        }
    }
}

/// No ability occurs in two slots.
pub open spec fn abilities_distinct(s: Seq<AbilitySlot>) -> bool {
    forall|i: int, j: int| 0 <= i < j < s.len() ==> s[i].ability != s[j].ability
}

/// Whether some slot holds `a`.
pub open spec fn has_ability_spec(s: Seq<AbilitySlot>, a: Ability) -> bool {
    exists|i: int| 0 <= i < s.len() && s[i].ability == a
}

/// No modifier occurs twice.
pub open spec fn modifiers_distinct(s: Seq<(Modifier, u32)>) -> bool {
    forall|i: int, j: int| 0 <= i < j < s.len() ==> s[i].0 != s[j].0
}

/// Whether `m` is among the active modifiers.
pub open spec fn has_modifier_spec(s: Seq<(Modifier, u32)>, m: Modifier) -> bool {
    exists|i: int| 0 <= i < s.len() && s[i].0 == m
}

/// Combo bonus: one extra damage per five kills in the combo, at most three.
pub open spec fn combo_bonus_spec(combo_count: u32) -> int {
    if combo_count / 5 < 3 {
        (combo_count / 5) as int
    } else {
        3
    }
}

/// Movement speed of run `r`, in half pixels per second: twice the base
/// speed, or three times under Speed Demon, and three times that again
/// while Zoomies runs.
pub open spec fn effective_speed_spec(r: RunState) -> int {
    let base = if has_modifier_spec(r.active_modifiers@, Modifier::SpeedDemon) {
        3 * r.player_speed
    } else {
        2 * r.player_speed
    };
    if r.zoomies.done() {
        base
    } else {
        3 * base
    }
}

/// The state of the current run.
pub struct RunState {
    pub floor: u32,
    pub room: u32,
    pub rooms_per_floor: u32,
    pub phase: Phase,
    pub player_hp: i32,
    pub player_max_hp: i32,
    pub damage_bonus: i32,
    /// Movement speed, in pixels per second.
    pub player_speed: u32,
    /// Speed of the player's projectiles, in pixels per second.
    pub projectile_speed: u32,
    pub swing_timer: Cooldown,
    pub sword: Sword,
    pub invuln: Cooldown,
    /// Runs while Zoomies triples the speed.
    pub zoomies: Cooldown,
    /// Runs while the cat naps: it cannot move and heals bit by bit.
    pub nap: Cooldown,
    /// Hit points the current nap has healed so far.
    pub nap_healed: u32,
    pub abilities: Vec<AbilitySlot>,
    pub room_seed: u64,
    pub current_room: RoomKind,
    pub combo_count: u32,
    pub combo_timer: Cooldown,
    pub best_combo: u32,
    /// Active modifiers with the number of rooms each has left.
    pub active_modifiers: Vec<(Modifier, u32)>,
}

impl RunState {
    /// The shape every run keeps: a room within the floor, at most three
    /// distinct abilities (the starter among them in slot 0), at most three
    /// distinct modifiers, and a best combo no smaller than the current one.
    pub open spec fn wf(self) -> bool {
        &&& 1 <= self.floor
        &&& 1 <= self.room <= self.rooms_per_floor
        &&& 1 <= self.abilities@.len() <= 3
        &&& abilities_distinct(self.abilities@)
        &&& self.active_modifiers@.len() <= 3
        &&& modifiers_distinct(self.active_modifiers@)
        &&& self.combo_count <= self.best_combo
        &&& self.nap_healed <= CAT_NAP_HEAL
    }

    /// Hit points lie between zero and the maximum.
    pub open spec fn hp_in_range(self) -> bool {
        0 <= self.player_hp <= self.player_max_hp
    }

    /// The damage of one swing, before it is checked to fit in an `i32`.
    pub open spec fn swing_damage_spec(self) -> int {
        let base = self.sword.damage + self.damage_bonus + combo_bonus_spec(self.combo_count);
        if has_modifier_spec(self.active_modifiers@, Modifier::GlassCannon) {
            base * 2
        } else {
            base
        }
    }

    /// Bonus damage from the current combo.
    pub fn combo_damage_bonus(&self) -> (b: i32)
        ensures
            b == combo_bonus_spec(self.combo_count),
            0 <= b <= 3,
    {
        let tier = self.combo_count / 5;
        if tier < 3 {
            tier as i32
        } else {
            3
        }
    }

    /// Whether modifier `m` is active.
    pub fn has_modifier(&self, m: Modifier) -> (b: bool)
        ensures
            b == has_modifier_spec(self.active_modifiers@, m),
    {
        let mut i: usize = 0;
        while i < self.active_modifiers.len()
            invariant
                i <= self.active_modifiers@.len(),
                forall|j: int| 0 <= j < i ==> self.active_modifiers@[j].0 != m,
            decreases self.active_modifiers@.len() - i,
        {
            if self.active_modifiers[i].0 == m {
                return true;
            }
            i = i + 1;
        }
        false
    }

    /// The damage of one swing: sword, upgrades and combo bonus, doubled by
    /// Glass Cannon.
    pub fn swing_damage(&self) -> (d: i32)
        requires
            i32::MIN <= self.swing_damage_spec() <= i32::MAX,
        ensures
            d == self.swing_damage_spec(),
    {
        let base: i64 = self.sword.damage as i64 + self.damage_bonus as i64
            + self.combo_damage_bonus() as i64;
        if self.has_modifier(Modifier::GlassCannon) {
            (base * 2) as i32
        } else {
            base as i32
        }
    }

    /// The damage of one swing, or `None` when it does not fit in an `i32`.
    pub fn checked_swing_damage(&self) -> (d: Option<i32>)
        ensures
            d == if i32::MIN <= self.swing_damage_spec() <= i32::MAX {
                Some(self.swing_damage_spec() as i32)
            } else {
                None::<i32>
            },
    {
        let base: i64 = self.sword.damage as i64 + self.damage_bonus as i64
            + self.combo_damage_bonus() as i64;
        let total: i64 = if self.has_modifier(Modifier::GlassCannon) { base * 2 } else { base };
        if total < i32::MIN as i64 || total > i32::MAX as i64 {
            None
        } else {
            Some(total as i32)
        }
    }

    /// Movement speed with modifiers applied, in half pixels per second:
    /// Speed Demon makes it one and a half times the base speed, and it is
    /// three times that while Zoomies runs.
    pub fn effective_speed(&self) -> (halves: u64)
        ensures
            halves == effective_speed_spec(*self),
    {
        let base: u64 = if self.has_modifier(Modifier::SpeedDemon) {
            3 * (self.player_speed as u64)
        } else {
            2 * (self.player_speed as u64)
        };
        if self.zoomies.is_finished() {
            base
        } else {
            3 * base
        }
    }

    /// Whether Zoomies is running.
    pub fn zoomies_active(&self) -> (b: bool)
        ensures
            b == !self.zoomies.done(),
    {
        !self.zoomies.is_finished()
    }

    /// Whether the player may move: not while napping.
    pub fn can_move(&self) -> (b: bool)
        ensures
            b == self.nap.done(),
    {
        self.nap.is_finished()
    }

    /// Takes up `sword`, ready to swing at once.
    pub fn equip(&mut self, sword: Sword)
        requires
            sword.cooldown <= u64::MAX / 1_000_000,
        ensures
            *final(self) == (RunState {
                sword,
                swing_timer: Cooldown::spent(sword.cooldown as nat),
                ..*old(self)
            }),
            final(self).swing_timer.duration() == sword.cooldown * 1_000_000,
            final(self).swing_timer.done(),
    {
        self.sword = sword;
        self.swing_timer = Cooldown::ready(sword.cooldown);
    }

    /// What a run looks like when it starts: floor 1, room 1 of 3, the starter
    /// sword and Dash, and the bonuses bought between runs.
    pub open spec fn is_fresh_run(self, persistent: PersistentState) -> bool {
        &&& self.wf()
        &&& self.floor == 1
        &&& self.room == 1
        &&& self.rooms_per_floor == 3
        &&& self.phase == Phase::Fighting
        &&& self.player_hp == 12 + persistent.starting_hp_bonus
        &&& self.player_max_hp == 12 + persistent.starting_hp_bonus
        &&& self.damage_bonus == persistent.starting_damage_bonus
        &&& self.player_speed == if 270 + persistent.starting_speed_bonus <= u32::MAX {
                270 + persistent.starting_speed_bonus
            } else {
                u32::MAX as int
            }
        &&& self.projectile_speed == 420
        &&& self.sword == sword_spec(0)
        &&& self.swing_timer.duration() == 340 * 1_000_000
        &&& self.swing_timer.done()
        &&& self.invuln.duration() == 300 * 1_000_000
        &&& self.invuln.done()
        &&& self.zoomies == Cooldown::spent(ZOOMIES_MS as nat)
        &&& self.nap == Cooldown::spent(CAT_NAP_MS as nat)
        &&& self.nap_healed == CAT_NAP_HEAL
        &&& self.abilities@ == seq![ready_slot(Ability::Dash)]
        &&& self.current_room == RoomKind::Combat
        &&& self.combo_count == 0
        &&& self.combo_timer.duration() == 2000 * 1_000_000
        &&& self.combo_timer.elapsed() == 0
        &&& !self.combo_timer.done()
        &&& self.best_combo == 0
        &&& self.active_modifiers@.len() == 0
    }

    /// A fresh run whose room seed is drawn at random; everything else is as
    /// `with_seed` makes it.
    pub fn new(persistent: &PersistentState) -> (r: RunState)
        requires
            persistent.starting_hp_bonus <= i32::MAX - 12,
        ensures
            r.is_fresh_run(*persistent),
    {
        let seed = random_seed();
        RunState::with_seed(persistent, seed)
    }

    /// A fresh run with the given seed: floor 1, room 1 of 3, the starter
    /// sword and Dash, and the bonuses bought between runs.
    pub fn with_seed(persistent: &PersistentState, seed: u64) -> (r: RunState)
        requires
            persistent.starting_hp_bonus <= i32::MAX - 12,
        ensures
            r.is_fresh_run(*persistent),
            r.room_seed == seed,
    {
        let base_hp = 12 + persistent.starting_hp_bonus;
        let base_speed = persistent.starting_speed_bonus.saturating_add(270);
        let sword = Sword::starter();
        let mut abilities: Vec<AbilitySlot> = Vec::new();
        abilities.push(AbilitySlot::new(Ability::Dash));
        RunState {
            floor: 1,
            room: 1,
            rooms_per_floor: 3,
            phase: Phase::Fighting,
            player_hp: base_hp,
            player_max_hp: base_hp,
            damage_bonus: persistent.starting_damage_bonus,
            player_speed: base_speed,
            projectile_speed: 420,
            swing_timer: Cooldown::ready(sword.cooldown),
            sword,
            invuln: Cooldown::ready(300),
            zoomies: Cooldown::ready(ZOOMIES_MS),
            nap: Cooldown::ready(CAT_NAP_MS),
            nap_healed: CAT_NAP_HEAL,
            abilities,
            room_seed: seed,
            current_room: RoomKind::Combat,
            combo_count: 0,
            combo_timer: Cooldown::from_millis(2000),
            best_combo: 0,
            active_modifiers: Vec::new(),
        }
    }
}

impl Default for RunState {
    /// A fresh run for a save with nothing earned yet.
    fn default() -> (r: RunState)
        ensures
            forall|p: PersistentState| p.is_fresh() ==> r.is_fresh_run(p),
    {
        RunState::new(&PersistentState::default())
    }
}

} // verus!
