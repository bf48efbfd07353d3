//! How a themed enemy group is made up, and the weighted pick from a floor's pool.
use crate::components::EnemyKind;
use crate::spawning::{EnemyGroup, GroupCount};
use vstd::prelude::*;

verus! {

/// Sum of the weights of the first `n` entries of a pool.
pub open spec fn prefix_weight(pool: Seq<(EnemyKind, u32)>, n: int) -> int
    decreases n,
{
    if n <= 0 || n > pool.len() {
        0
    } else {
        prefix_weight(pool, n - 1) + pool[n - 1].1
    }
}

/// Sum of all the weights of a pool.
pub open spec fn total_weight(pool: Seq<(EnemyKind, u32)>) -> int {
    prefix_weight(pool, pool.len() as int)
}

/// A pool's prefix sums never fall as more entries are counted.
pub proof fn lemma_prefix_weight_monotone(pool: Seq<(EnemyKind, u32)>, a: int, b: int)
    requires
        0 <= a <= b <= pool.len(),
    ensures
        prefix_weight(pool, a) <= prefix_weight(pool, b),
    decreases b - a,
{
    if a < b {
        lemma_prefix_weight_monotone(pool, a, b - 1);
    }
}

/// Picks from a weighted pool with `roll`, the draw scaled to the weight
/// line and rounded up: the first entry whose running total reaches the
/// roll. A roll of zero takes the first entry; a roll within the total
/// takes the entry whose share of the weight line holds it, so entries of
/// weight zero are never picked there; a roll beyond the total falls back
/// to the first entry.
pub fn weighted_pick(pool: &Vec<(EnemyKind, u32)>, roll: u64) -> (k: EnemyKind)
    requires
        pool.len() > 0,
    ensures
        roll <= total_weight(pool@) ==> exists|i: int|
            0 <= i < pool.len() && (i == 0 || prefix_weight(pool@, i) < roll)
                && roll <= #[trigger] prefix_weight(pool@, i + 1) && k == pool@[i].0,
        roll > total_weight(pool@) ==> k == pool@[0].0,
{
    let mut i: usize = 0;
    let mut cum: u128 = 0;
    while i < pool.len()
        invariant
            i <= pool.len(),
            cum == prefix_weight(pool@, i as int),
            cum <= i * 0xFFFF_FFFFu128,
            i > 0 ==> cum < roll,
        decreases pool.len() - i,
    {
        let w = pool[i].1;
        cum = cum + w as u128;
        assert(cum == prefix_weight(pool@, i + 1));
        if (roll as u128) <= cum {
            proof {
                lemma_prefix_weight_monotone(pool@, i + 1, pool.len() as int);
            }
            return pool[i].0;
        }
        i = i + 1;
    }
    pool[0].0
}

/// How the kind of each member of a squad is chosen.
#[derive(Clone, Copy, PartialEq, Eq, Structural, Debug)]
pub enum KindRule {
    /// Always this kind, with no draw.
    Fixed(EnemyKind),
    /// A draw that comes up `heads` with chance `num / den`, else `tails`.
    Coin { num: u32, den: u32, heads: EnemyKind, tails: EnemyKind },
    /// A weighted pick from the floor's pool.
    FloorPool,
}

/// Whether the members of a squad are elite.
#[derive(Clone, Copy, PartialEq, Eq, Structural, Debug)]
pub enum EliteRule {
    Never,
    Always,
    /// A draw that makes a member elite with chance `num / den`.
    Chance { num: u32, den: u32 },
}

/// Where a ring of members starts turning.
#[derive(Clone, Copy, PartialEq, Eq, Structural, Debug)]
pub enum RingTurn {
    /// The first member sits at angle zero.
    Straight,
    /// The ring is turned by half a circle.
    HalfTurn,
    /// The ring is turned by 0.3 radians.
    Tilted,
}

/// Where the members of a squad stand around the group's centre.
#[derive(Clone, Copy, PartialEq, Eq, Structural, Debug)]
pub enum Placement {
    /// Evenly around a circle, each at a distance drawn from
    /// `min_radius..max_radius` pixels.
    Ring { min_radius: u32, max_radius: u32, turn: RingTurn },
    /// At a fixed offset, in pixels.
    At { dx: i32, dy: i32 },
}

/// One part of a group: how many, of which kind, whether elite, and where.
/// For each member the draws come in this order: its distance (on a ring),
/// its kind, whether it is elite.
#[derive(Clone, Copy, PartialEq, Eq, Structural, Debug)]
pub struct Squad {
    pub count: GroupCount,
    pub kind: KindRule,
    pub elite: EliteRule,
    pub placement: Placement,
}

/// A ring squad with no elites.
pub open spec fn plain_ring(count: GroupCount, kind: KindRule, min_radius: u32, max_radius: u32, turn: RingTurn) -> Squad {
    Squad { count, kind, elite: EliteRule::Never, placement: Placement::Ring { min_radius, max_radius, turn } }
}

/// A coin that is only drawn from floor `from` on; below it the kind is `tails`.
pub open spec fn coin_from_floor(floor: u32, from: u32, num: u32, den: u32, heads: EnemyKind, tails: EnemyKind) -> KindRule {
    if floor >= from {
        KindRule::Coin { num, den, heads, tails }
    } else {
        KindRule::Fixed(tails)
    }
}

/// The squads that make up `group` on `floor`, in the order they appear.
pub open spec fn group_squads_spec(group: EnemyGroup, floor: u32) -> Seq<Squad> {
    match group {
        EnemyGroup::Swarm => seq![plain_ring(GroupCount::Range(5, 9), KindRule::FloorPool, 40, 80, RingTurn::Straight)],
        EnemyGroup::Balanced => seq![
            plain_ring(
                GroupCount::Range(2, 4),
                KindRule::Coin { num: 3, den: 5, heads: EnemyKind::Hunter, tails: EnemyKind::Bruiser },
                60,
                100,
                RingTurn::Straight,
            ),
            plain_ring(
                GroupCount::Range(1, 3),
                coin_from_floor(floor, 3, 1, 2, EnemyKind::Caster, EnemyKind::Seeker),
                150,
                200,
                RingTurn::HalfTurn,
            ),
        ],
        EnemyGroup::Assault => seq![
            Squad {
                count: GroupCount::Range(1, 3),
                kind: coin_from_floor(floor, 4, 2, 5, EnemyKind::Goliath, EnemyKind::Chonker),
                elite: EliteRule::Chance { num: 1, den: 5 },
                placement: Placement::Ring { min_radius: 80, max_radius: 120, turn: RingTurn::Straight },
            },
            plain_ring(GroupCount::Range(2, 4), KindRule::FloorPool, 130, 180, RingTurn::Tilted),
        ],
        EnemyGroup::RangedSquad => seq![
            plain_ring(
                GroupCount::Range(3, 5),
                coin_from_floor(floor, 3, 1, 2, EnemyKind::Caster, EnemyKind::Seeker),
                180,
                240,
                RingTurn::Straight,
            ),
            Squad {
                count: GroupCount::Fixed(1),
                kind: KindRule::Fixed(EnemyKind::Bruiser),
                elite: EliteRule::Never,
                placement: Placement::At { dx: 0, dy: 0 },
            },
        ],
        EnemyGroup::SupportGroup => seq![
            Squad {
                count: GroupCount::Fixed(1),
                kind: coin_from_floor(floor, 4, 2, 5, EnemyKind::NecromancerCat, EnemyKind::Summoner),
                elite: EliteRule::Chance { num: 1, den: 4 },
                placement: Placement::At { dx: 0, dy: 0 },
            },
            plain_ring(GroupCount::Range(3, 5), KindRule::Fixed(EnemyKind::Hunter), 80, 120, RingTurn::Straight),
        ],
        EnemyGroup::Elite => seq![
            Squad {
                count: GroupCount::Range(2, 4),
                kind: elite_pair(floor),
                elite: EliteRule::Always,
                placement: Placement::Ring { min_radius: 100, max_radius: 150, turn: RingTurn::Straight },
            },
        ],
        EnemyGroup::Undead => seq![
            Squad {
                count: GroupCount::Fixed(1),
                kind: KindRule::Fixed(EnemyKind::NecromancerCat),
                elite: EliteRule::Chance { num: 3, den: 10 },
                placement: Placement::At { dx: 0, dy: 50 },
            },
            plain_ring(GroupCount::Range(2, 4), KindRule::Fixed(EnemyKind::Kitten), 60, 100, RingTurn::Straight),
        ],
        EnemyGroup::Flying => seq![
            plain_ring(GroupCount::Range(3, 6), KindRule::Fixed(EnemyKind::FlyingCat), 100, 200, RingTurn::Straight),
            Squad {
                count: GroupCount::Fixed(1),
                kind: KindRule::FloorPool,
                elite: EliteRule::Never,
                placement: Placement::At { dx: 0, dy: 0 },
            },
        ],
    }
}

/// The even coin of an elite group: bruisers or chargers on the first two
/// floors, chonkers or shadow cats on the third, goliaths or necromancers
/// otherwise.
pub open spec fn elite_pair(floor: u32) -> KindRule {
    if 1 <= floor <= 2 {
        KindRule::Coin { num: 1, den: 2, heads: EnemyKind::Bruiser, tails: EnemyKind::Charger }
    } else if floor == 3 {
        KindRule::Coin { num: 1, den: 2, heads: EnemyKind::Chonker, tails: EnemyKind::ShadowCat }
    } else {
        KindRule::Coin { num: 1, den: 2, heads: EnemyKind::Goliath, tails: EnemyKind::NecromancerCat }
    }
}

fn coin_from(floor: u32, from: u32, num: u32, den: u32, heads: EnemyKind, tails: EnemyKind) -> (r: KindRule)
    ensures
        r == coin_from_floor(floor, from, num, den, heads, tails),
{
    if floor >= from {
        KindRule::Coin { num, den, heads, tails }
    } else {
        KindRule::Fixed(tails)
    }
}

fn ring(count: GroupCount, kind: KindRule, min_radius: u32, max_radius: u32, turn: RingTurn) -> (s: Squad)
    ensures
        s == plain_ring(count, kind, min_radius, max_radius, turn),
{
    Squad { count, kind, elite: EliteRule::Never, placement: Placement::Ring { min_radius, max_radius, turn } }
}

/// Every draw a squad asks for can be made: a count range is not empty, a
/// chance lies between none and certain, and a ring's distances form a range.
pub open spec fn squad_drawable(s: Squad) -> bool {
    &&& match s.count {
        GroupCount::Fixed(n) => n >= 1,
        GroupCount::Range(lo, hi) => 1 <= lo < hi,
    }
    &&& match s.kind {
        KindRule::Coin { num, den, .. } => 0 < num <= den,
        _ => true,
    }
    &&& match s.elite {
        EliteRule::Chance { num, den } => 0 < num <= den,
        _ => true,
    }
    &&& match s.placement {
        Placement::Ring { min_radius, max_radius, .. } => min_radius < max_radius,
        _ => true,
    }
}

/// The squads that make up `group` on `floor`, in the order they appear.
pub fn group_squads(group: EnemyGroup, floor: u32) -> (s: Vec<Squad>)
    ensures
        s@ == group_squads_spec(group, floor),
{
    match group {
        EnemyGroup::Swarm => vec![ring(GroupCount::Range(5, 9), KindRule::FloorPool, 40, 80, RingTurn::Straight)],
        EnemyGroup::Balanced => vec![
            ring(
                GroupCount::Range(2, 4),
                KindRule::Coin { num: 3, den: 5, heads: EnemyKind::Hunter, tails: EnemyKind::Bruiser },
                60,
                100,
                RingTurn::Straight,
            ),
            ring(
                GroupCount::Range(1, 3),
                coin_from(floor, 3, 1, 2, EnemyKind::Caster, EnemyKind::Seeker),
                150,
                200,
                RingTurn::HalfTurn,
            ),
        ],
        EnemyGroup::Assault => vec![
            Squad {
                count: GroupCount::Range(1, 3),
                kind: coin_from(floor, 4, 2, 5, EnemyKind::Goliath, EnemyKind::Chonker),
                elite: EliteRule::Chance { num: 1, den: 5 },
                placement: Placement::Ring { min_radius: 80, max_radius: 120, turn: RingTurn::Straight },
            },
            ring(GroupCount::Range(2, 4), KindRule::FloorPool, 130, 180, RingTurn::Tilted),
        ],
        EnemyGroup::RangedSquad => vec![
            ring(
                GroupCount::Range(3, 5),
                coin_from(floor, 3, 1, 2, EnemyKind::Caster, EnemyKind::Seeker),
                180,
                240,
                RingTurn::Straight,
            ),
            Squad {
                count: GroupCount::Fixed(1),
                kind: KindRule::Fixed(EnemyKind::Bruiser),
                elite: EliteRule::Never,
                placement: Placement::At { dx: 0, dy: 0 },
            },
        ],
        EnemyGroup::SupportGroup => vec![
            Squad {
                count: GroupCount::Fixed(1),
                kind: coin_from(floor, 4, 2, 5, EnemyKind::NecromancerCat, EnemyKind::Summoner),
                elite: EliteRule::Chance { num: 1, den: 4 },
                placement: Placement::At { dx: 0, dy: 0 },
            },
            ring(GroupCount::Range(3, 5), KindRule::Fixed(EnemyKind::Hunter), 80, 120, RingTurn::Straight),
        ],
        EnemyGroup::Elite => {
            let kind = if 1 <= floor && floor <= 2 {
                KindRule::Coin { num: 1, den: 2, heads: EnemyKind::Bruiser, tails: EnemyKind::Charger }
            } else if floor == 3 {
                KindRule::Coin { num: 1, den: 2, heads: EnemyKind::Chonker, tails: EnemyKind::ShadowCat }
            } else {
                KindRule::Coin { num: 1, den: 2, heads: EnemyKind::Goliath, tails: EnemyKind::NecromancerCat }
            };
            vec![
                Squad {
                    count: GroupCount::Range(2, 4),
                    kind,
                    elite: EliteRule::Always,
                    placement: Placement::Ring { min_radius: 100, max_radius: 150, turn: RingTurn::Straight },
                },
            ]
        },
        EnemyGroup::Undead => vec![
            Squad {
                count: GroupCount::Fixed(1),
                kind: KindRule::Fixed(EnemyKind::NecromancerCat),
                elite: EliteRule::Chance { num: 3, den: 10 },
                placement: Placement::At { dx: 0, dy: 50 },
            },
            ring(GroupCount::Range(2, 4), KindRule::Fixed(EnemyKind::Kitten), 60, 100, RingTurn::Straight),
        ],
        EnemyGroup::Flying => vec![
            ring(GroupCount::Range(3, 6), KindRule::Fixed(EnemyKind::FlyingCat), 100, 200, RingTurn::Straight),
            Squad {
                count: GroupCount::Fixed(1),
                kind: KindRule::FloorPool,
                elite: EliteRule::Never,
                placement: Placement::At { dx: 0, dy: 0 },
            },
        ],
    }
}

} // verus!
