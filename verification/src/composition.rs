//! What holds of every plan of a scenario: how many bodies it has and of
//! which categories, that each of them can be made, and that a satellite
//! never comes before the body it orbits.

use vstd::prelude::*;
use crate::objects::ObjectType;
use crate::scenario::{
    all_sound, all_valid, asteroid_slot, black_hole_slot, center_slot, central_category_of,
    comet_slot, companion_slots, core_slots, dark_matter_slot, galaxy_center_slot,
    hosts_come_first, is_center, planet_slot, repeated, ring_slot, small_slots, system_slots,
    systems_slots, universe_slots, Companion, Placement, Slot, SystemDraw, ASTEROIDS, COMETS,
    DARK_MATTER_CLUMPS, RING_STARS, SOLAR_SYSTEMS,
};

verus! {

/// How many bodies the systems of `draws` have in all.
pub open spec fn bodies_in_systems(draws: Seq<SystemDraw>) -> int
    decreases draws.len(),
{
    if draws.len() == 0 {
        0
    } else {
        bodies_in_systems(draws.drop_last()) + draws.last().size()
    }
}

/// How many slots of `slots` plan a body of category `c`.
pub open spec fn count_of(slots: Seq<Slot>, c: ObjectType) -> int
    decreases slots.len(),
{
    if slots.len() == 0 {
        0
    } else {
        count_of(slots.drop_last(), c) + (if slots.last().category == c {
            1int
        } else {
            0int
        })
    }
}

/// How many bodies of category `c` the galactic core has.
pub open spec fn core_count_of(c: ObjectType) -> int {
    match c {
        ObjectType::GalaxyCenter => 1,
        ObjectType::BlackHole => 1,
        ObjectType::Star => RING_STARS as int,
        _ => 0,
    }
}

/// How many bodies of category `c` one solar system has.
pub open spec fn system_count_of(d: SystemDraw, c: ObjectType) -> int {
    (if central_category_of(d.white_dwarf) == c {
        1int
    } else {
        0int
    }) + (if c == ObjectType::Planet {
        d.planets as int
    } else {
        0int
    }) + (if d.companion == Companion::NeutronStar && c == ObjectType::NeutronStar {
        1int
    } else {
        0int
    }) + (if d.companion == Companion::Pulsar && c == ObjectType::Pulsar {
        1int
    } else {
        0int
    })
}

/// How many bodies of category `c` the systems of `draws` have in all.
pub open spec fn systems_count_of(draws: Seq<SystemDraw>, c: ObjectType) -> int
    decreases draws.len(),
{
    if draws.len() == 0 {
        0
    } else {
        systems_count_of(draws.drop_last(), c) + system_count_of(draws.last(), c)
    }
}

/// How many of the small bodies have category `c`.
pub open spec fn small_count_of(c: ObjectType) -> int {
    match c {
        ObjectType::Asteroid => ASTEROIDS as int,
        ObjectType::Comet => COMETS as int,
        ObjectType::DarkMatter => DARK_MATTER_CLUMPS as int,
        _ => 0,
    }
}

/// Counting over two runs of slots adds up.
pub proof fn lemma_count_concat(a: Seq<Slot>, b: Seq<Slot>, c: ObjectType)
    ensures
        count_of(a + b, c) == count_of(a, c) + count_of(b, c),
    decreases b.len(),
{
    if b.len() == 0 {
        assert(a + b =~= a);
    } else {
        assert((a + b).drop_last() =~= a + b.drop_last());
        lemma_count_concat(a, b.drop_last(), c);
    }
}

/// A run of slots of one category counts in full for that category and not
/// at all for any other.
pub proof fn lemma_count_uniform(slots: Seq<Slot>, category: ObjectType, c: ObjectType)
    requires
        forall|i: int| 0 <= i < slots.len() ==> (#[trigger] slots[i]).category == category,
    ensures
        count_of(slots, c) == (if category == c {
            slots.len() as int
        } else {
            0int
        }),
    decreases slots.len(),
{
    if slots.len() > 0 {
        lemma_count_uniform(slots.drop_last(), category, c);
    }
}

/// The galactic core holds one galaxy centre, one black hole and the ring
/// of stars, and nothing else.
pub proof fn lemma_count_core(c: ObjectType)
    ensures
        core_slots().len() == 2 + RING_STARS,
        count_of(core_slots(), c) == core_count_of(c),
{
    let center = seq![galaxy_center_slot()];
    let hole = seq![black_hole_slot()];
    let ring = Seq::new(RING_STARS as nat, |k: int| ring_slot(k));
    assert(core_slots() =~= center + hole + ring);
    lemma_count_concat(center + hole, ring, c);
    lemma_count_concat(center, hole, c);
    lemma_count_uniform(center, ObjectType::GalaxyCenter, c);
    lemma_count_uniform(hole, ObjectType::BlackHole, c);
    lemma_count_uniform(ring, ObjectType::Star, c);
}

/// A solar system holds its central body, its planets and its companion,
/// and nothing else.
pub proof fn lemma_count_system(host: int, d: SystemDraw, c: ObjectType)
    ensures
        system_slots(host, d).len() == d.size(),
        count_of(system_slots(host, d), c) == system_count_of(d, c),
{
    let center = seq![center_slot(d)];
    let planets = Seq::new(d.planets as nat, |k: int| planet_slot(host, k));
    let companion = companion_slots(host, d.companion);
    lemma_count_concat(center + planets, companion, c);
    lemma_count_concat(center, planets, c);
    lemma_count_uniform(center, central_category_of(d.white_dwarf), c);
    lemma_count_uniform(planets, ObjectType::Planet, c);
    match d.companion {
        Companion::Absent => {
            lemma_count_uniform(companion, ObjectType::Planet, c);
        },
        Companion::NeutronStar => {
            lemma_count_uniform(companion, ObjectType::NeutronStar, c);
        },
        Companion::Pulsar => {
            lemma_count_uniform(companion, ObjectType::Pulsar, c);
        },
    }
}

/// The small bodies are the asteroids, the comets and the clumps of dark
/// matter, and nothing else.
pub proof fn lemma_count_small(c: ObjectType)
    ensures
        small_slots().len() == ASTEROIDS + COMETS + DARK_MATTER_CLUMPS,
        count_of(small_slots(), c) == small_count_of(c),
{
    let asteroids = repeated(ASTEROIDS as nat, asteroid_slot());
    let comets = repeated(COMETS as nat, comet_slot());
    let clumps = repeated(DARK_MATTER_CLUMPS as nat, dark_matter_slot());
    lemma_count_concat(asteroids + comets, clumps, c);
    lemma_count_concat(asteroids, comets, c);
    lemma_count_uniform(asteroids, ObjectType::Asteroid, c);
    lemma_count_uniform(comets, ObjectType::Comet, c);
    lemma_count_uniform(clumps, ObjectType::DarkMatter, c);
}

/// Composition of a scenario. Whatever the draws, the plan holds the
/// galactic core, then each solar system, then the small bodies: its length
/// is the sum of their sizes, and for every category its count is the sum of
/// their counts.
pub proof fn lemma_composition(draws: Seq<SystemDraw>, c: ObjectType)
    ensures
        universe_slots(draws).len() == 2 + RING_STARS + bodies_in_systems(draws) + ASTEROIDS
            + COMETS + DARK_MATTER_CLUMPS,
        count_of(universe_slots(draws), c) == core_count_of(c) + systems_count_of(draws, c)
            + small_count_of(c),
{
    let systems = systems_slots(core_slots().len() as int, draws);
    lemma_count_core(c);
    lemma_count_systems(core_slots().len() as int, draws, c);
    lemma_count_small(c);
    lemma_count_concat(core_slots(), systems, c);
    lemma_count_concat(core_slots() + systems, small_slots(), c);
}

/// A run of solar systems holds each system of `draws`, wherever it starts.
pub proof fn lemma_count_systems(start: int, draws: Seq<SystemDraw>, c: ObjectType)
    ensures
        systems_slots(start, draws).len() == bodies_in_systems(draws),
        count_of(systems_slots(start, draws), c) == systems_count_of(draws, c),
    decreases draws.len(),
{
    if draws.len() > 0 {
        let before = systems_slots(start, draws.drop_last());
        lemma_count_systems(start, draws.drop_last(), c);
        lemma_count_system(start + before.len(), draws.last(), c);
        lemma_count_concat(before, system_slots(start + before.len(), draws.last()), c);
    }
}

/// What the solar systems contribute when each has two or three planets:
/// one central body each, a star or a white dwarf; two to three planets
/// each; at most one companion each, a neutron star or a pulsar; three to
/// five bodies each in all; and no body of any other category.
pub proof fn lemma_systems_in_range(draws: Seq<SystemDraw>)
    requires
        all_valid(draws),
    ensures
        systems_count_of(draws, ObjectType::Star) + systems_count_of(
            draws,
            ObjectType::WhiteDwarf,
        ) == draws.len(),
        2 * draws.len() <= systems_count_of(draws, ObjectType::Planet) <= 3 * draws.len(),
        0 <= systems_count_of(draws, ObjectType::NeutronStar),
        0 <= systems_count_of(draws, ObjectType::Pulsar),
        systems_count_of(draws, ObjectType::NeutronStar) + systems_count_of(
            draws,
            ObjectType::Pulsar,
        ) <= draws.len(),
        3 * draws.len() <= bodies_in_systems(draws) <= 5 * draws.len(),
        bodies_in_systems(draws) == draws.len() + systems_count_of(draws, ObjectType::Planet)
            + systems_count_of(draws, ObjectType::NeutronStar) + systems_count_of(
            draws,
            ObjectType::Pulsar,
        ),
        systems_count_of(draws, ObjectType::GalaxyCenter) == 0,
        systems_count_of(draws, ObjectType::BlackHole) == 0,
        systems_count_of(draws, ObjectType::DarkMatter) == 0,
        systems_count_of(draws, ObjectType::DarkEnergy) == 0,
        systems_count_of(draws, ObjectType::Comet) == 0,
        systems_count_of(draws, ObjectType::Asteroid) == 0,
    decreases draws.len(),
{
    if draws.len() > 0 {
        assert(draws.last().valid());
        lemma_systems_in_range(draws.drop_last());
    }
}

/// Size of a scenario: with its four solar systems, each of two or three
/// planets, a scenario has between 87 and 95 bodies.
pub proof fn lemma_scenario_size(draws: Seq<SystemDraw>)
    requires
        draws.len() == SOLAR_SYSTEMS,
        all_valid(draws),
    ensures
        87 <= universe_slots(draws).len() <= 95,
{
    lemma_composition(draws, ObjectType::Star);
    lemma_systems_in_range(draws);
}

/// Every satellite of a plan orbits a central body of a solar system, which
/// is planned before it.
pub proof fn lemma_hosts_come_first(draws: Seq<SystemDraw>)
    requires
        universe_slots(draws).len() <= usize::MAX,
    ensures
        hosts_come_first(universe_slots(draws)),
{
    let start = core_slots().len() as int;
    let systems = systems_slots(start, draws);
    let plan = universe_slots(draws);
    lemma_hosts_in_systems(start, draws);
    assert forall|i: int| 0 <= i < plan.len() implies match (#[trigger] plan[i]).placement {
        Placement::Satellite { host, radius } => host < i && is_center(plan[host as int]),
        _ => true,
    } by {
        if start <= i < start + systems.len() {
            assert(plan[i] == systems[i - start]);
            match systems[i - start].placement {
                Placement::Satellite { host, radius } => {
                    assert(plan[host as int] == systems[host - start]);
                },
                _ => {},
            }
        }
    }
}

/// Within a run of solar systems that starts at index `start`, every
/// satellite orbits a central body of the run that is planned before it.
pub proof fn lemma_hosts_in_systems(start: int, draws: Seq<SystemDraw>)
    requires
        0 <= start,
        start + systems_slots(start, draws).len() <= usize::MAX,
    ensures
        forall|i: int|
            0 <= i < systems_slots(start, draws).len() ==> match (#[trigger] systems_slots(
                start,
                draws,
            )[i]).placement {
                Placement::Satellite { host, radius } => start <= host < start + i && is_center(
                    systems_slots(start, draws)[host - start],
                ),
                _ => true,
            },
    decreases draws.len(),
{
    if draws.len() > 0 {
        let before = systems_slots(start, draws.drop_last());
        let system = system_slots(start + before.len(), draws.last());
        let all = systems_slots(start, draws);
        lemma_hosts_in_systems(start, draws.drop_last());
        assert forall|i: int| 0 <= i < all.len() implies match (#[trigger] all[i]).placement {
            Placement::Satellite { host, radius } => start <= host < start + i && is_center(
                all[host - start],
            ),
            _ => true,
        } by {
            if i < before.len() {
                assert(all[i] == before[i]);
                match before[i].placement {
                    Placement::Satellite { host, radius } => {
                        assert(all[host - start] == before[host - start]);
                    },
                    _ => {},
                }
            } else {
                assert(all[i] == system[i - before.len()]);
                assert(all[before.len() as int] == system[0]);
                assert(is_center(system[0]));
            }
        }
    }
}

/// Every body of a scenario can be made: whatever the draws, each slot of
/// the plan is sound. In particular no body has a mass of zero.
pub proof fn lemma_slots_sound(draws: Seq<SystemDraw>)
    ensures
        all_sound(universe_slots(draws)),
{
    let start = core_slots().len() as int;
    lemma_systems_sound(start, draws);
    let core = core_slots();
    let systems = systems_slots(start, draws);
    let small = small_slots();
    let plan = universe_slots(draws);
    assert forall|i: int| 0 <= i < plan.len() implies (#[trigger] plan[i]).sound() by {
        if i < core.len() {
            assert(plan[i] == core[i]);
        } else if i < core.len() + systems.len() {
            assert(plan[i] == systems[i - core.len()]);
        } else {
            assert(plan[i] == small[i - core.len() - systems.len()]);
        }
    }
}

/// Each slot of a run of solar systems is sound.
pub proof fn lemma_systems_sound(start: int, draws: Seq<SystemDraw>)
    ensures
        all_sound(systems_slots(start, draws)),
    decreases draws.len(),
{
    if draws.len() > 0 {
        let before = systems_slots(start, draws.drop_last());
        let system = system_slots(start + before.len(), draws.last());
        let all = systems_slots(start, draws);
        lemma_systems_sound(start, draws.drop_last());
        assert forall|i: int| 0 <= i < all.len() implies (#[trigger] all[i]).sound() by {
            if i < before.len() {
                assert(all[i] == before[i]);
            } else {
                assert(all[i] == system[i - before.len()]);
            }
        }
    }
}

} // verus!
