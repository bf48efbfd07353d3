//! What happens to the player: swings, skills, pickups, purchases and hits.
use crate::ability::{ability_cooldown_ms, ready_slot, Ability, AbilitySlot, CAT_NAP_HEAL, CAT_NAP_MS, ZOOMIES_MS};
use crate::combat::{reset_hurt_invuln, HURT_INVULN_MS};
use crate::components::{PickupKind, ShopItemKind};
use crate::enemy_ai::FrameTally;
use crate::state::{abilities_distinct, has_ability_spec, is_depth_spec, Phase, RunState};
use crate::sword::{sword_at, sword_spec, SWORD_COUNT};
use crate::timer::Cooldown;
use vstd::prelude::*;

verus! {

/// `hp + amount`, but never above `max`.
pub open spec fn heal_spec(hp: int, amount: int, max: int) -> int {
    if hp + amount < max {
        hp + amount
    } else {
        max
    }
}

/// `speed + delta`, kept within `0..=u32::MAX`.
pub open spec fn add_speed_spec(speed: u32, delta: i32) -> u32 {
    if speed + delta < 0 {
        0
    } else if speed + delta > u32::MAX {
        u32::MAX
    } else {
        (speed + delta) as u32
    }
}

/// The abilities after `a` is granted: a known ability changes nothing, a new
/// one fills a free slot, and with all three slots full it replaces the third.
pub open spec fn granted_abilities(s: Seq<AbilitySlot>, a: Ability) -> Seq<AbilitySlot> {
    if has_ability_spec(s, a) {
        s
    } else if s.len() < 3 {
        s.push(ready_slot(a))
    } else {
        s.update(2, ready_slot(a))
    }
}

/// The effect of a triggered ability that the world must show.
#[derive(Clone, Copy, PartialEq, Eq, Structural, Debug)]
pub enum AbilityEffect {
    /// Leap 150 pixels along the movement direction.
    Dash,
    /// A full-circle slash of 150 pixels with this damage.
    Whirlwind { damage: i32 },
    /// Push enemies within 230 pixels away by 170 pixels.
    WarCry,
    /// Five projectiles, 180 milliradians apart, with this damage.
    Hairball { damage: i32 },
    /// A healing burst.
    SecondWind,
    /// Three times the speed for 2 s, leaving an afterimage trail.
    Zoomies,
    /// Charm the enemies within 150 pixels for 3 s and push them away by
    /// 100 pixels.
    Purr,
    /// A nap of 3 s that heals 2 hit points bit by bit and keeps the cat
    /// still.
    CatNap,
}

/// Invulnerability granted by an ability, in milliseconds (none for the
/// attacking and pushing skills).
pub open spec fn ability_invuln_ms(a: Ability) -> Option<u64> {
    match a {
        Ability::Dash => Some(300u64),
        Ability::WarCry => Some(600u64),
        Ability::SecondWind => Some(800u64),
        Ability::Zoomies => Some(2000u64),
        Ability::CatNap => Some(3000u64),
        _ => None,
    }
}

/// Hit points a nap timer `t` has earned: two over the whole nap, the first
/// halfway through and the second at its end.
pub open spec fn nap_due(t: Cooldown) -> nat {
    if t.done() || t.duration() == 0 {
        CAT_NAP_HEAL as nat
    } else {
        ((CAT_NAP_HEAL * t.elapsed()) as nat / t.duration()) as nat
    }
}

/// Hit points a nap timer `t` has earned, computed.
pub fn nap_due_of(t: &Cooldown) -> (d: u32)
    ensures
        d == nap_due(*t),
        d <= CAT_NAP_HEAL,
{
    if t.is_finished() || t.duration_ns() == 0 {
        CAT_NAP_HEAL
    } else {
        let e = t.elapsed_ns();
        let d = t.duration_ns();
        let _ = t.remaining_ns();
        assert(e <= d);
        let q: u128 = (CAT_NAP_HEAL as u128) * (e as u128) / (d as u128);
        assert(q <= 2) by (nonlinear_arith)
            requires
                q == (2 * e) as int / d as int,
                e <= d,
                d > 0,
        ;
        q as u32
    }
}

/// The run `o` after its nap has earned `due` hit points in all: what is
/// owed beyond what it already healed is healed now.
pub open spec fn after_nap_heal(o: RunState, due: nat) -> RunState {
    if due > o.nap_healed {
        RunState {
            player_hp: heal_spec(o.player_hp as int, due - o.nap_healed, o.player_max_hp as int) as i32,
            nap_healed: due as u32,
            ..o
        }
    } else {
        o
    }
}

impl RunState {
    /// Advances the invulnerability, Zoomies and nap timers and every
    /// ability's cooldown by `delta_ns`; a nap heals what it has earned by then.
    pub fn tick_ability_timers(&mut self, delta_ns: u64)
        ensures
            final(self).abilities@.len() == old(self).abilities@.len(),
            forall|i: int|
                0 <= i < old(self).abilities@.len() ==> #[trigger] final(self).abilities@[i] == (AbilitySlot {
                    ability: old(self).abilities@[i].ability,
                    cd: old(self).abilities@[i].cd.ticked(delta_ns as nat),
                }),
            *final(self) == (RunState {
                invuln: old(self).invuln.ticked(delta_ns as nat),
                zoomies: old(self).zoomies.ticked(delta_ns as nat),
                nap: old(self).nap.ticked(delta_ns as nat),
                abilities: final(self).abilities,
                ..after_nap_heal(*old(self), nap_due(old(self).nap.ticked(delta_ns as nat)))
            }),
            old(self).wf() ==> final(self).wf(),
    {
        self.invuln.tick(delta_ns);
        self.zoomies.tick(delta_ns);
        self.nap.tick(delta_ns);
        let due = nap_due_of(&self.nap);
        if due > self.nap_healed {
            let healed: i64 = self.player_hp as i64 + (due - self.nap_healed) as i64;
            self.player_hp = if healed < self.player_max_hp as i64 { healed as i32 } else { self.player_max_hp };
            self.nap_healed = due;
        }
        let mut slots: Vec<AbilitySlot> = Vec::new();
        std::mem::swap(&mut slots, &mut self.abilities);
        let ghost start = slots@;
        let n = slots.len();
        let mut i: usize = 0;
        while i < n
            invariant
                n == start.len(),
                slots@.len() == n,
                i <= n,
                forall|j: int| i <= j < n ==> slots@[j] == start[j],
                forall|j: int|
                    0 <= j < i ==> #[trigger] slots@[j] == (AbilitySlot {
                        ability: start[j].ability,
                        cd: start[j].cd.ticked(delta_ns as nat),
                    }),
            decreases n - i,
        {
            let mut slot = slots.remove(i);
            slot.cd.tick(delta_ns);
            slots.insert(i, slot);
            i = i + 1;
        }
        self.abilities = slots;
        proof {
            let t = self.abilities@;
            if abilities_distinct(start) {
                assert forall|a: int, b: int| 0 <= a < b < t.len() implies t[a].ability != t[b].ability by {
                    assert(t[a].ability == start[a].ability && t[b].ability == start[b].ability);
                }
            }
        }
    }

    /// Whether some slot holds `a`.
    pub fn has_ability(&self, a: Ability) -> (b: bool)
        ensures
            b == has_ability_spec(self.abilities@, a),
    {
        let mut i: usize = 0;
        while i < self.abilities.len()
            invariant
                i <= self.abilities@.len(),
                forall|j: int| 0 <= j < i ==> self.abilities@[j].ability != a,
            decreases self.abilities@.len() - i,
        {
            if self.abilities[i].ability == a {
                return true;
            }
            i = i + 1;
        }
        false
    }

    /// Grants ability `a`: if it is already slotted the player heals 3
    /// instead; otherwise it takes a free slot, or replaces the third slot
    /// when all three are full.
    pub fn grant_ability(&mut self, a: Ability)
        requires
            old(self).player_hp <= i32::MAX - 3,
        ensures
            final(self).abilities@ == granted_abilities(old(self).abilities@, a),
            final(self).player_hp == if has_ability_spec(old(self).abilities@, a) {
                heal_spec(old(self).player_hp as int, 3, old(self).player_max_hp as int)
            } else {
                old(self).player_hp as int
            },
            *final(self) == (RunState {
                player_hp: final(self).player_hp,
                abilities: final(self).abilities,
                ..*old(self)
            }),
            old(self).wf() ==> final(self).wf(),
            old(self).abilities@.len() >= 1 ==> final(self).abilities@[0] == old(self).abilities@[0],
    {
        if self.has_ability(a) {
            let healed = self.player_hp + 3;
            self.player_hp = if healed < self.player_max_hp { healed } else { self.player_max_hp };
        } else if self.abilities.len() < 3 {
            self.abilities.push(AbilitySlot::new(a));
        } else {
            self.abilities.set(2, AbilitySlot::new(a));
        }
        proof {
            let s = old(self).abilities@;
            let t = self.abilities@;
            if abilities_distinct(s) && !has_ability_spec(s, a) {
                assert forall|i: int, j: int| 0 <= i < j < t.len() implies t[i].ability != t[j].ability by {
                    if j == t.len() - 1 && s.len() < 3 {
                        assert(t[i] == s[i]);
                    } else if j == 2 {
                        assert(t[i] == s[i]);
                    } else if i == 2 {
                    } else {
                        assert(t[i] == s[i] && t[j] == s[j]);
                    }
                }
            }
        }
    }

    /// Applies a collected pickup.
    pub fn apply_pickup(&mut self, kind: PickupKind)
        requires
            match kind {
                PickupKind::Heal(a) => i32::MIN <= old(self).player_hp + a <= i32::MAX,
                PickupKind::DamageUp(a) => i32::MIN <= old(self).damage_bonus + a <= i32::MAX,
                PickupKind::SpeedUp(_) => true,
                PickupKind::MaxHpUp(a) => i32::MIN <= old(self).player_hp + a <= i32::MAX
                    && i32::MIN <= old(self).player_max_hp + a <= i32::MAX,
                PickupKind::SwordDrop(i) => i < SWORD_COUNT,
                PickupKind::AbilityDrop(_) => old(self).player_hp <= i32::MAX - 3,
            },
        ensures
            pickup_effect(*old(self), *final(self), kind),
            old(self).wf() ==> final(self).wf(),
    {
        match kind {
            PickupKind::Heal(amount) => {
                let healed = self.player_hp + amount;
                self.player_hp = if healed < self.player_max_hp { healed } else { self.player_max_hp };
            },
            PickupKind::DamageUp(amount) => {
                self.damage_bonus = self.damage_bonus + amount;
            },
            PickupKind::SpeedUp(amount) => {
                self.player_speed = add_speed(self.player_speed, amount);
            },
            PickupKind::MaxHpUp(amount) => {
                self.player_max_hp = self.player_max_hp + amount;
                self.player_hp = self.player_hp + amount;
            },
            PickupKind::SwordDrop(index) => {
                self.equip(sword_at(index));
            },
            PickupKind::AbilityDrop(ability) => {
                self.grant_ability(ability);
            },
        }
    }

    /// Applies a bought shop item. A sword index past the last sword buys nothing.
    pub fn apply_shop_item(&mut self, kind: ShopItemKind)
        requires
            match kind {
                ShopItemKind::DamageUp(a) => i32::MIN <= old(self).damage_bonus + a <= i32::MAX,
                ShopItemKind::MaxHpUp(a) => i32::MIN <= old(self).player_hp + a <= i32::MAX
                    && i32::MIN <= old(self).player_max_hp + a <= i32::MAX,
                ShopItemKind::Ability(_) => old(self).player_hp <= i32::MAX - 3,
                ShopItemKind::Reroll => old(self).player_hp <= i32::MAX - 2,
                _ => true,
            },
        ensures
            shop_item_effect(*old(self), *final(self), kind),
            old(self).wf() ==> final(self).wf(),
    {
        match kind {
            ShopItemKind::HealFull => {
                self.player_hp = self.player_max_hp;
            },
            ShopItemKind::DamageUp(amount) => {
                self.damage_bonus = self.damage_bonus + amount;
            },
            ShopItemKind::SpeedUp(amount) => {
                self.player_speed = add_speed(self.player_speed, amount);
            },
            ShopItemKind::MaxHpUp(amount) => {
                self.player_max_hp = self.player_max_hp + amount;
                self.player_hp = self.player_hp + amount;
            },
            ShopItemKind::Sword(index) => {
                if index < SWORD_COUNT {
                    self.equip(sword_at(index));
                }
            },
            ShopItemKind::Ability(ability) => {
                self.grant_ability(ability);
            },
            ShopItemKind::Reroll => {
                let healed = self.player_hp + 2;
                self.player_hp = if healed < self.player_max_hp { healed } else { self.player_max_hp };
            },
        }
    }
}

/// Whether `f` is the run `o` after pickup `kind` is collected: healing (up
/// to the maximum), a damage or speed upgrade, more maximum hit points (and
/// as many hit points), a sword, or an ability (as a granted ability).
pub open spec fn pickup_effect(o: RunState, f: RunState, kind: PickupKind) -> bool {
    &&& (kind matches PickupKind::Heal(a) ==> (f == (RunState {
                player_hp: heal_spec(o.player_hp as int, a as int, o.player_max_hp as int) as i32,
                ..o
            })))
    &&& (kind matches PickupKind::DamageUp(a) ==> (f == (RunState {
                damage_bonus: (o.damage_bonus + a) as i32,
                ..o
            })))
    &&& (kind matches PickupKind::SpeedUp(a) ==> (f == (RunState {
                player_speed: add_speed_spec(o.player_speed, a),
                ..o
            })))
    &&& (kind matches PickupKind::MaxHpUp(a) ==> (f == (RunState {
                player_hp: (o.player_hp + a) as i32,
                player_max_hp: (o.player_max_hp + a) as i32,
                ..o
            })))
    &&& (kind matches PickupKind::SwordDrop(i) ==> (f == (RunState {
                sword: sword_spec(i as int),
                swing_timer: Cooldown::spent(sword_spec(i as int).cooldown as nat),
                ..o
            })))
    &&& (kind matches PickupKind::AbilityDrop(ab) ==> ({
                &&& f.abilities@ == granted_abilities(o.abilities@, ab)
                &&& f == (RunState {
                    player_hp: if has_ability_spec(o.abilities@, ab) {
                        heal_spec(o.player_hp as int, 3, o.player_max_hp as int) as i32
                    } else {
                        o.player_hp
                    },
                    abilities: f.abilities,
                    ..o
                })
            }))
}

/// Whether `f` is the run `o` after shop item `kind` takes effect: full
/// healing, a damage, speed or hit-point upgrade, a sword (an index past the
/// last sword buys nothing), an ability (as a granted ability), or a reroll
/// that heals two.
pub open spec fn shop_item_effect(o: RunState, f: RunState, kind: ShopItemKind) -> bool {
    match kind {
        ShopItemKind::HealFull => f == (RunState { player_hp: o.player_max_hp, ..o }),
        ShopItemKind::DamageUp(a) => f == (RunState { damage_bonus: (o.damage_bonus + a) as i32, ..o }),
        ShopItemKind::SpeedUp(a) => f == (RunState { player_speed: add_speed_spec(o.player_speed, a), ..o }),
        ShopItemKind::MaxHpUp(a) => f == (RunState {
            player_hp: (o.player_hp + a) as i32,
            player_max_hp: (o.player_max_hp + a) as i32,
            ..o
        }),
        ShopItemKind::Sword(i) => if i < SWORD_COUNT {
            f == (RunState {
                sword: sword_spec(i as int),
                swing_timer: Cooldown::spent(sword_spec(i as int).cooldown as nat),
                ..o
            })
        } else {
            f == o
        },
        ShopItemKind::Ability(ab) => {
            &&& f.abilities@ == granted_abilities(o.abilities@, ab)
            &&& f == (RunState {
                player_hp: if has_ability_spec(o.abilities@, ab) {
                    heal_spec(o.player_hp as int, 3, o.player_max_hp as int) as i32
                } else {
                    o.player_hp
                },
                abilities: f.abilities,
                ..o
            })
        },
        ShopItemKind::Reroll => f == (RunState {
            player_hp: heal_spec(o.player_hp as int, 2, o.player_max_hp as int) as i32,
            ..o
        }),
    }
}

/// `speed + delta`, kept within `0..=u32::MAX`.
pub fn add_speed(speed: u32, delta: i32) -> (s: u32)
    ensures
        s == add_speed_spec(speed, delta),
{
    let sum = speed as i64 + delta as i64;
    if sum < 0 {
        0
    } else if sum > u32::MAX as i64 {
        u32::MAX
    } else {
        sum as u32
    }
}

/// The effect shown when ability `a` is used, with `damage` the current swing damage.
pub open spec fn ability_effect_spec(a: Ability, damage: int) -> AbilityEffect {
    match a {
        Ability::Dash => AbilityEffect::Dash,
        Ability::Whirlwind => AbilityEffect::Whirlwind { damage: (damage + 2) as i32 },
        Ability::WarCry => AbilityEffect::WarCry,
        Ability::Hairball => AbilityEffect::Hairball { damage: damage as i32 },
        Ability::SecondWind => AbilityEffect::SecondWind,
        Ability::Zoomies => AbilityEffect::Zoomies,
        Ability::Purr => AbilityEffect::Purr,
        Ability::CatNap => AbilityEffect::CatNap,
    }
}

/// Whether the ability in `slot` can be used now: its cooldown has run out,
/// and it is not a Dash while the cat naps.
pub open spec fn ability_ready(o: RunState, slot: int) -> bool {
    &&& o.abilities@[slot].cd.done()
    &&& (o.abilities@[slot].ability != Ability::Dash || o.nap.done())
}

/// The state after ability `a` is used: Second Wind heals 6 at once, Zoomies
/// starts its 2 s of triple speed, a Cat Nap starts its 3 s nap with nothing
/// healed yet, and several abilities start invulnerability.
pub open spec fn after_ability(o: RunState, a: Ability) -> RunState {
    RunState {
        player_hp: if a == Ability::SecondWind {
            heal_spec(o.player_hp as int, 6, o.player_max_hp as int) as i32
        } else {
            o.player_hp
        },
        invuln: match ability_invuln_ms(a) {
            Some(ms) => Cooldown::fresh(ms as nat),
            None => o.invuln,
        },
        zoomies: if a == Ability::Zoomies { Cooldown::fresh(ZOOMIES_MS as nat) } else { o.zoomies },
        nap: if a == Ability::CatNap { Cooldown::fresh(CAT_NAP_MS as nat) } else { o.nap },
        nap_healed: if a == Ability::CatNap { 0 } else { o.nap_healed },
        ..o
    }
}

/// How much the player loses and whether the run is lost, for a settled
/// hit-point value.
#[derive(Clone, Copy, PartialEq, Eq, Structural, Debug)]
pub struct HpSettlement {
    /// Hit points lost compared with before.
    pub lost: i32,
    /// Hit points reached zero.
    pub defeated: bool,
}

/// `hp` clamped into `0..=max`.
pub open spec fn clamp_hp(hp: int, max: int) -> int {
    if hp < 0 {
        0
    } else if hp > max {
        max
    } else {
        hp
    }
}

/// Whether the enemies act in run `r` this frame: in a two-dimensional room
/// that is being fought.
pub open spec fn enemy_frame_runs(r: RunState) -> bool {
    !is_depth_spec(r.current_room) && r.phase == Phase::Fighting
}

/// The tally an enemies' frame of run `r` starts from.
pub open spec fn frame_start(r: RunState) -> FrameTally {
    FrameTally { lost: 0, invuln: !r.invuln.done(), hurt: false }
}

/// Run `o` after the enemies' frame with tally `tally` is settled: the loss
/// comes off the hit points (kept within `0..=max`), and invulnerability
/// starts over if the player was hurt.
pub open spec fn settled_after_frame(o: RunState, tally: FrameTally) -> RunState {
    RunState {
        player_hp: clamp_hp(o.player_hp - tally.lost, o.player_max_hp as int) as i32,
        invuln: if tally.hurt { Cooldown::fresh(HURT_INVULN_MS as nat) } else { o.invuln },
        ..o
    }
}

impl RunState {
    /// Uses the ability in `slot` if its cooldown has run out (a Dash also
    /// waits for a nap to end): applies its effect on the player (healing,
    /// invulnerability, Zoomies, a nap), restarts its cooldown, and returns
    /// what the world must show. Otherwise does nothing.
    pub fn trigger_ability(&mut self, slot: usize) -> (effect: Option<AbilityEffect>)
        requires
            slot < old(self).abilities@.len(),
            old(self).abilities@[slot as int].ability == Ability::Whirlwind
                ==> i32::MIN <= old(self).swing_damage_spec() <= i32::MAX - 2,
            old(self).abilities@[slot as int].ability == Ability::Hairball
                ==> i32::MIN <= old(self).swing_damage_spec() <= i32::MAX,
        ensures
            ({
                let o = *old(self);
                let s = o.abilities@[slot as int];
                if ability_ready(o, slot as int) {
                    &&& effect == Some(ability_effect_spec(s.ability, o.swing_damage_spec()))
                    &&& final(self).abilities@ == o.abilities@.update(
                        slot as int,
                        AbilitySlot { ability: s.ability, cd: Cooldown::fresh(ability_cooldown_ms(s.ability) as nat) },
                    )
                    &&& *final(self) == (RunState {
                        abilities: final(self).abilities,
                        ..after_ability(o, s.ability)
                    })
                } else {
                    effect is None && *final(self) == o
                }
            }),
            old(self).wf() ==> final(self).wf(),
    {
        let ability = self.abilities[slot].ability;
        if !self.abilities[slot].cd.is_finished() || (ability == Ability::Dash && !self.nap.is_finished()) {
            return None;
        }
        let effect = match ability {
            Ability::Dash => {
                self.invuln = Cooldown::from_millis(300);
                AbilityEffect::Dash
            },
            Ability::Whirlwind => AbilityEffect::Whirlwind { damage: self.swing_damage() + 2 },
            Ability::WarCry => {
                self.invuln = Cooldown::from_millis(600);
                AbilityEffect::WarCry
            },
            Ability::Hairball => AbilityEffect::Hairball { damage: self.swing_damage() },
            Ability::SecondWind => {
                let healed: i64 = self.player_hp as i64 + 6;
                self.player_hp = if healed < self.player_max_hp as i64 { healed as i32 } else { self.player_max_hp };
                self.invuln = Cooldown::from_millis(800);
                AbilityEffect::SecondWind
            },
            Ability::Zoomies => {
                self.zoomies = Cooldown::from_millis(ZOOMIES_MS);
                self.invuln = Cooldown::from_millis(2000);
                AbilityEffect::Zoomies
            },
            Ability::Purr => AbilityEffect::Purr,
            Ability::CatNap => {
                self.nap = Cooldown::from_millis(CAT_NAP_MS);
                self.nap_healed = 0;
                self.invuln = Cooldown::from_millis(3000);
                AbilityEffect::CatNap
            },
        };
        self.abilities.set(slot, AbilitySlot { ability, cd: Cooldown::from_millis(ability.cooldown()) });
        proof {
            let o = old(self).abilities@;
            let t = self.abilities@;
            if abilities_distinct(o) {
                assert forall|i: int, j: int| 0 <= i < j < t.len() implies t[i].ability != t[j].ability by {
                    assert(t[i].ability == o[i].ability && t[j].ability == o[j].ability);
                }
            }
        }
        Some(effect)
    }

    /// The player's opacity, in thousandths: full once invulnerability is
    /// over; while it lasts the sprite blinks 22 times a second between
    /// 0.4 and 0.9.
    pub fn invuln_alpha(&self) -> (alpha: u32)
        ensures
            self.invuln.done() ==> alpha == 1000,
            !self.invuln.done() ==> alpha == if (self.invuln.elapsed() * 22 / 1_000_000_000) % 2 == 0 {
                400u32
            } else {
                900u32
            },
    {
        if self.invuln.is_finished() {
            1000
        } else {
            let blinks: u128 = (self.invuln.elapsed_ns() as u128) * 22 / 1_000_000_000;
            if blinks % 2 == 0 {
                400
            } else {
                900
            }
        }
    }

    /// Advances the swing cooldown by `delta_ns`.
    pub fn tick_swing(&mut self, delta_ns: u64)
        ensures
            *final(self) == (RunState { swing_timer: old(self).swing_timer.ticked(delta_ns as nat), ..*old(self) }),
    {
        self.swing_timer.tick(delta_ns);
    }

    /// Starts a swing if the room is being fought and the swing cooldown has
    /// run out: restarts the cooldown and returns the swing's damage.
    pub fn start_swing(&mut self) -> (damage: Option<i32>)
        requires
            i32::MIN <= old(self).swing_damage_spec() <= i32::MAX,
        ensures
            if old(self).phase == Phase::Fighting && old(self).swing_timer.done() {
                &&& damage == Some(old(self).swing_damage_spec() as i32)
                &&& *final(self) == (RunState { swing_timer: old(self).swing_timer.restarted(), ..*old(self) })
            } else {
                damage is None && *final(self) == *old(self)
            },
    {
        if self.phase != Phase::Fighting || !self.swing_timer.is_finished() {
            return None;
        }
        let damage = self.swing_damage();
        self.swing_timer.reset();
        Some(damage)
    }

    /// A hit of `damage` on the player: unless invulnerable, hit points drop
    /// (staying within `0..=max`) and invulnerability starts. Returns whether
    /// the hit landed.
    pub fn take_hit(&mut self, damage: i32) -> (landed: bool)
        requires
            i32::MIN <= old(self).player_hp - damage <= i32::MAX,
            old(self).player_max_hp >= 0,
        ensures
            landed == old(self).invuln.done(),
            landed ==> *final(self) == (RunState {
                player_hp: clamp_hp(old(self).player_hp - damage, old(self).player_max_hp as int) as i32,
                invuln: Cooldown::fresh(HURT_INVULN_MS as nat),
                ..*old(self)
            }),
            !landed ==> *final(self) == *old(self),
            landed ==> final(self).hp_in_range(),
    {
        if !self.invuln.is_finished() {
            return false;
        }
        let hp = self.player_hp - damage;
        self.player_hp = if hp < 0 {
            0
        } else if hp > self.player_max_hp {
            self.player_max_hp
        } else {
            hp
        };
        reset_hurt_invuln(&mut self.invuln);
        true
    }

    /// Sets the player's hit points to `hp`, clamped into `0..=max`, and
    /// reports how many were lost and whether the run is lost.
    pub fn settle_player_hp(&mut self, hp: i32) -> (s: HpSettlement)
        requires
            old(self).player_max_hp >= 0,
        ensures
            *final(self) == (RunState {
                player_hp: clamp_hp(hp as int, old(self).player_max_hp as int) as i32,
                ..*old(self)
            }),
            s.lost == if final(self).player_hp < old(self).player_hp {
                old(self).player_hp - final(self).player_hp
            } else {
                0
            },
            s.defeated == (final(self).player_hp == 0),
            final(self).hp_in_range(),
    {
        let clamped = if hp < 0 {
            0
        } else if hp > self.player_max_hp {
            self.player_max_hp
        } else {
            hp
        };
        let lost = if clamped < self.player_hp { self.player_hp - clamped } else { 0 };
        self.player_hp = clamped;
        HpSettlement { lost, defeated: clamped == 0 }
    }

    /// Whether the enemies act this frame: in a two-dimensional room that is
    /// being fought.
    pub fn enemies_act(&self) -> (b: bool)
        ensures
            b == enemy_frame_runs(*self),
    {
        !self.current_room.is_depth() && self.phase == Phase::Fighting
    }

    /// A tally for the enemies' turns of this frame: nothing lost yet, and
    /// invulnerable as the player is now.
    pub fn begin_enemy_frame(&self) -> (tally: FrameTally)
        ensures
            tally == frame_start(*self),
    {
        FrameTally { lost: 0, invuln: !self.invuln.is_finished(), hurt: false }
    }

    /// Settles the enemies' frame: the hit points lost come off (staying
    /// within `0..=max`), invulnerability starts over if the player was
    /// hurt, and the loss and whether the run is lost are reported.
    pub fn end_enemy_frame(&mut self, tally: FrameTally) -> (s: HpSettlement)
        requires
            old(self).player_max_hp >= 0,
        ensures
            *final(self) == settled_after_frame(*old(self), tally),
            s.lost == if final(self).player_hp < old(self).player_hp {
                old(self).player_hp - final(self).player_hp
            } else {
                0
            },
            s.defeated == (final(self).player_hp == 0),
            final(self).hp_in_range(),
    {
        let left: i128 = self.player_hp as i128 - tally.lost as i128;
        let clamped: i32 = if left < 0 {
            0
        } else if left > self.player_max_hp as i128 {
            self.player_max_hp
        } else {
            left as i32
        };
        let lost = if clamped < self.player_hp { self.player_hp - clamped } else { 0 };
        self.player_hp = clamped;
        if tally.hurt {
            reset_hurt_invuln(&mut self.invuln);
        }
        HpSettlement { lost, defeated: clamped == 0 }
    }

    /// Heals `lifesteal` after a kill, if the sword steals life.
    pub fn heal_on_kill(&mut self, lifesteal: i32)
        requires
            old(self).player_hp + lifesteal <= i32::MAX,
        ensures
            *final(self) == (RunState {
                player_hp: if lifesteal > 0 {
                    heal_spec(old(self).player_hp as int, lifesteal as int, old(self).player_max_hp as int) as i32
                } else {
                    old(self).player_hp
                },
                ..*old(self)
            }),
    {
        if lifesteal > 0 {
            let healed = self.player_hp + lifesteal;
            self.player_hp = if healed < self.player_max_hp { healed } else { self.player_max_hp };
        }
    }

    /// Counts `kills` new kills in the combo: the combo grows, its timer
    /// starts over, and the best combo keeps up.
    pub fn record_kills(&mut self, kills: u32)
        requires
            old(self).combo_count + kills <= u32::MAX,
        ensures
            kills == 0 ==> *final(self) == *old(self),
            kills > 0 ==> *final(self) == (RunState {
                combo_count: (old(self).combo_count + kills) as u32,
                combo_timer: old(self).combo_timer.restarted(),
                best_combo: if old(self).best_combo < old(self).combo_count + kills {
                    (old(self).combo_count + kills) as u32
                } else {
                    old(self).best_combo
                },
                ..*old(self)
            }),
            old(self).wf() ==> final(self).wf(),
    {
        if kills == 0 {
            return;
        }
        self.combo_count = self.combo_count + kills;
        self.combo_timer.reset();
        if self.best_combo < self.combo_count {
            self.best_combo = self.combo_count;
        }
    }

    /// Lets the combo run down: while there is a combo, its timer advances by
    /// `delta_ns`, and the combo ends when the timer runs out.
    pub fn combo_decay(&mut self, delta_ns: u64)
        ensures
            old(self).combo_count == 0 ==> *final(self) == *old(self),
            old(self).combo_count > 0 ==> *final(self) == (RunState {
                combo_timer: old(self).combo_timer.ticked(delta_ns as nat),
                combo_count: if old(self).combo_timer.ticked(delta_ns as nat).done() {
                    0
                } else {
                    old(self).combo_count
                },
                ..*old(self)
            }),
            old(self).wf() ==> final(self).wf(),
    {
        if self.combo_count == 0 {
            return;
        }
        self.combo_timer.tick(delta_ns);
        if self.combo_timer.is_finished() {
            self.combo_count = 0;
        }
    }
}

} // verus!
