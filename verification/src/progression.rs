//! Moving from room to room and from floor to floor.
use crate::rng::{first_ratio_draw, index_after_ratio_draw, seeded_ratio, seeded_ratio_then_index};
use crate::state::{has_modifier_spec, modifiers_distinct, Modifier, RoomKind, RunState};
use vstd::prelude::*;

verus! {

/// The room kind for room `room` of `rooms_per_floor`, given the chance draw
/// that decides between a rest and a treasure room: the last room is the boss,
/// room 2 is a rest room when the draw comes out true and a treasure room
/// otherwise, and every other room is a fight.
pub open spec fn room_kind_from_roll_spec(room: u32, rooms_per_floor: u32, rest_roll: bool) -> RoomKind {
    if room == rooms_per_floor {
        RoomKind::Boss
    } else if room == 2 {
        if rest_roll {
            RoomKind::Rest
        } else {
            RoomKind::Treasure
        }
    } else {
        RoomKind::Combat
    }
}

/// The room kind of a state with these numbers: room 2 draws a rest room with
/// a chance of 11 in 20 from the generator seeded with `room_seed ^ floor`.
pub open spec fn room_kind_spec(room: u32, rooms_per_floor: u32, room_seed: u64, floor: u32) -> RoomKind {
    room_kind_from_roll_spec(room, rooms_per_floor, first_ratio_draw(room_seed ^ (floor as u64), 11, 20))
}

/// The room kind decided from the draw `rest_roll`.
pub fn room_kind_from_roll(room: u32, rooms_per_floor: u32, rest_roll: bool) -> (k: RoomKind)
    ensures
        k == room_kind_from_roll_spec(room, rooms_per_floor, rest_roll),
{
    if room == rooms_per_floor {
        RoomKind::Boss
    } else if room == 2 {
        if rest_roll {
            RoomKind::Rest
        } else {
            RoomKind::Treasure
        }
    } else {
        RoomKind::Combat
    }
}

/// The kind of the state's current room.
pub fn room_kind_for(state: &RunState) -> (k: RoomKind)
    ensures
        k == room_kind_spec(state.room, state.rooms_per_floor, state.room_seed, state.floor),
        k == RoomKind::Boss <==> state.room == state.rooms_per_floor,
{
    let rest_roll = if state.room == 2 && state.room != state.rooms_per_floor {
        seeded_ratio(state.room_seed ^ (state.floor as u64), 11, 20)
    } else {
        false
    };
    let k = room_kind_from_roll(state.room, state.rooms_per_floor, rest_roll);
    assert(k == room_kind_spec(state.room, state.rooms_per_floor, state.room_seed, state.floor));
    k
}

/// Every modifier's remaining duration, one room shorter (never below zero).
pub open spec fn tick_durations(s: Seq<(Modifier, u32)>) -> Seq<(Modifier, u32)> {
    Seq::new(
        s.len(),
        |i: int|
            (s[i].0, if s[i].1 > 0 {
                (s[i].1 - 1) as u32
            } else {
                0u32
            }),
    )
}

/// The modifier chosen by draw `index`.
pub open spec fn modifier_pick(index: int) -> Modifier {
    if index == 0 {
        Modifier::GlassCannon
    } else if index == 1 {
        Modifier::SpeedDemon
    } else if index == 2 {
        Modifier::Vampire
    } else {
        Modifier::TreasureHunter
    }
}

/// The seed of the modifier draws on entering room `room` of floor `floor`.
pub open spec fn modifier_seed(room_seed: u64, floor: u32, room: u32) -> u64 {
    room_seed ^ (floor as u64) ^ (room as u64)
}

/// The modifiers after entering a room of kind `kind`: a combat room grants,
/// with a chance of 1 in 5, one of the four modifiers for three rooms, unless
/// three are active already or the drawn one is active.
pub open spec fn modifiers_on_entry(
    mods: Seq<(Modifier, u32)>,
    kind: RoomKind,
    room_seed: u64,
    floor: u32,
    room: u32,
) -> Seq<(Modifier, u32)> {
    let seed = modifier_seed(room_seed, floor, room);
    let pick = modifier_pick(index_after_ratio_draw(seed, 1, 5, 4) as int);
    if kind == RoomKind::Combat && first_ratio_draw(seed, 1, 5) && mods.len() < 3
        && !has_modifier_spec(mods, pick) {
        mods.push((pick, 3u32))
    } else {
        mods
    }
}

/// The modifier chosen by draw `index`, for `index < 4`.
fn modifier_at(index: usize) -> (m: Modifier)
    requires
        index < 4,
    ensures
        m == modifier_pick(index as int),
{
    if index == 0 {
        Modifier::GlassCannon
    } else if index == 1 {
        Modifier::SpeedDemon
    } else if index == 2 {
        Modifier::Vampire
    } else {
        Modifier::TreasureHunter
    }
}

/// Shortens every active modifier by one room.
fn tick_modifier_durations(mods: &mut Vec<(Modifier, u32)>)
    ensures
        final(mods)@ == tick_durations(old(mods)@),
{
    let ghost start = mods@;
    let n = mods.len();
    let mut i: usize = 0;
    while i < n
        invariant
            n == start.len(),
            mods@.len() == n,
            i <= n,
            forall|j: int| 0 <= j < i ==> mods@[j] == tick_durations(start)[j],
            forall|j: int| i <= j < n ==> mods@[j] == start[j],
        decreases n - i,
    {
        let (m, left) = mods[i];
        if left > 0 {
            mods.set(i, (m, left - 1));
        }
        i = i + 1;
    }
    assert(mods@ =~= tick_durations(start));
}

/// Leaves the current room for the next one: modifiers tick down, the room
/// number advances (wrapping to room 1 of the next floor after the last room,
/// with a new seed), the new room's kind is decided, and a combat room may
/// grant a modifier.
pub fn advance_room(state: &mut RunState)
    requires
        old(state).room < u32::MAX,
        old(state).room + 1 > old(state).rooms_per_floor ==> old(state).floor < u32::MAX,
    ensures
        ({
            let o = *old(state);
            let f = *final(state);
            let wrapped = o.room + 1 > o.rooms_per_floor;
            &&& f.room == if wrapped { 1 } else { o.room + 1 }
            &&& f.floor == if wrapped { o.floor + 1 } else { o.floor as int }
            &&& f.room_seed == if wrapped { o.room_seed.wrapping_add(1) } else { o.room_seed }
            &&& f.current_room == room_kind_spec(f.room, f.rooms_per_floor, f.room_seed, f.floor)
            &&& f.active_modifiers@ == modifiers_on_entry(
                tick_durations(o.active_modifiers@),
                f.current_room,
                f.room_seed,
                f.floor,
                f.room,
            )
            &&& f.rooms_per_floor == o.rooms_per_floor
            &&& f.phase == o.phase
            &&& f.player_hp == o.player_hp
            &&& f.player_max_hp == o.player_max_hp
            &&& f.damage_bonus == o.damage_bonus
            &&& f.player_speed == o.player_speed
            &&& f.projectile_speed == o.projectile_speed
            &&& f.swing_timer == o.swing_timer
            &&& f.sword == o.sword
            &&& f.invuln == o.invuln
            &&& f.abilities@ == o.abilities@
            &&& f.combo_count == o.combo_count
            &&& f.combo_timer == o.combo_timer
            &&& f.best_combo == o.best_combo
        }),
        old(state).wf() ==> final(state).wf(),
{
    tick_modifier_durations(&mut state.active_modifiers);
    let ghost ticked = state.active_modifiers@;
    assert(ticked.len() == old(state).active_modifiers@.len());
    assert(modifiers_distinct(old(state).active_modifiers@) ==> modifiers_distinct(ticked)) by {
        if modifiers_distinct(old(state).active_modifiers@) {
            assert forall|i: int, j: int| 0 <= i < j < ticked.len() implies ticked[i].0 != ticked[j].0 by {
                assert(ticked[i].0 == old(state).active_modifiers@[i].0);
                assert(ticked[j].0 == old(state).active_modifiers@[j].0);
            }
        }
    }

    state.room = state.room + 1;
    if state.room > state.rooms_per_floor {
        state.room = 1;
        state.floor = state.floor + 1;
        state.room_seed = state.room_seed.wrapping_add(1);
    }
    state.current_room = room_kind_for(state);

    if state.current_room == RoomKind::Combat {
        let seed = state.room_seed ^ (state.floor as u64) ^ (state.room as u64);
        let (hit, index) = seeded_ratio_then_index(seed, 1, 5, 4);
        if hit && state.active_modifiers.len() < 3 {
            let pick = modifier_at(index);
            if !state.has_modifier(pick) {
                state.active_modifiers.push((pick, 3));
            }
        }
    }
    proof {
        let f = *state;
        let seed = modifier_seed(f.room_seed, f.floor, f.room);
        let pick = modifier_pick(index_after_ratio_draw(seed, 1, 5, 4) as int);
        if f.active_modifiers@ != ticked {
            assert(f.active_modifiers@ == ticked.push((pick, 3u32)));
            assert(!has_modifier_spec(ticked, pick));
            if modifiers_distinct(ticked) {
                assert forall|i: int, j: int|
                    0 <= i < j < f.active_modifiers@.len() implies
                    f.active_modifiers@[i].0 != f.active_modifiers@[j].0 by {
                    if j == ticked.len() {
                        assert(f.active_modifiers@[i] == ticked[i]);
                    }
                }
            }
        }
    }
}

/// Drops the modifiers that have no rooms left.
pub fn tick_modifiers(state: &mut RunState)
    ensures
        final(state).active_modifiers@ == old(state).active_modifiers@.filter(
            |p: (Modifier, u32)| p.1 > 0,
        ),
        *final(state) == (RunState { active_modifiers: final(state).active_modifiers, ..*old(state) }),
        old(state).wf() ==> final(state).wf(),
{
    let ghost start = state.active_modifiers@;
    let ghost pred = |p: (Modifier, u32)| p.1 > 0;
    let mut kept: Vec<(Modifier, u32)> = Vec::new();
    let n = state.active_modifiers.len();
    let mut i: usize = 0;
    while i < n
        invariant
            n == start.len(),
            state.active_modifiers@ == start,
            i <= n,
            pred == (|p: (Modifier, u32)| p.1 > 0),
            kept@ == start.take(i as int).filter(pred),
            kept@.len() <= i,
            forall|k: int| 0 <= k < kept@.len() ==> exists|j: int| 0 <= j < i && #[trigger] kept@[k] == start[j],
            modifiers_distinct(start) ==> modifiers_distinct(kept@),
        decreases n - i,
    {
        let p = state.active_modifiers[i];
        let ghost before = kept@;
        if p.1 > 0 {
            kept.push(p);
            proof {
                assert forall|k: int| 0 <= k < kept@.len() implies exists|j: int|
                    0 <= j < i + 1 && #[trigger] kept@[k] == start[j] by {
                    if k == before.len() {
                        assert(kept@[k] == start[i as int]);
                    } else {
                        assert(kept@[k] == before[k]);
                    }
                }
                if modifiers_distinct(start) {
                    assert forall|a: int, b: int| 0 <= a < b < kept@.len() implies kept@[a].0 != kept@[b].0 by {
                        if b == before.len() {
                            let j = choose|j: int| 0 <= j < i && #[trigger] before[a] == start[j];
                            assert(kept@[a] == start[j]);
                        } else {
                            assert(kept@[a] == before[a] && kept@[b] == before[b]);
                        }
                    }
                }
            }
        }
        proof {
            reveal_with_fuel(Seq::<_>::filter, 1);
            assert(start.take(i + 1).drop_last() =~= start.take(i as int));
            assert(start.take(i + 1).last() == p);
            assert(pred(p) == (p.1 > 0));
        }
        i = i + 1;
    }
    assert(start.take(n as int) =~= start);
    state.active_modifiers = kept;
}

} // verus!
