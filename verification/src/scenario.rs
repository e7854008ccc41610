//! The layout of the opening scenario.
//!
//! A scenario is planned before any body is made. The plan lists, in the
//! order of creation, what each body is, where it is placed, how it moves,
//! and what its radius and mass are or are drawn from: the galactic core at
//! the origin, a ring of stars around it, a few solar systems, and the
//! scattered small bodies. The caller makes the bodies slot by slot, drawing
//! what the plan leaves to chance.

use vstd::prelude::*;
use rand::rngs::StdRng;
use crate::objects::ObjectType;
use crate::quantity::{Quantity, Span};
use crate::composition::{lemma_hosts_come_first, lemma_scenario_size, lemma_slots_sound};
use crate::random::{random_between, random_chance};

verus! {

/// Stars on the ring around the galactic core.
pub const RING_STARS: usize = 30;

/// Solar systems of a scenario.
pub const SOLAR_SYSTEMS: usize = 4;

/// Asteroids of a scenario.
pub const ASTEROIDS: usize = 20;

/// Comets of a scenario.
pub const COMETS: usize = 8;

/// Clumps of dark matter of a scenario.
pub const DARK_MATTER_CLUMPS: usize = 15;

/// Mass of the galaxy centre, the mass that the ring of stars orbits.
pub const GALAXY_CENTER_MASS: u64 = 50_000_000;

/// Mass of the central black hole: ten times that of the galaxy centre.
pub const BLACK_HOLE_MASS: u64 = 500_000_000;

/// Where a body starts, in world units.
#[derive(Debug, Clone, Copy, PartialEq, Eq, Structural)]
pub enum Placement {
    /// At the origin.
    Origin,
    /// On a circle of the given radius about the origin, at a random angle.
    Ring { radius: u32 },
    /// Anywhere in the square that reaches `extent` from the origin along
    /// each axis.
    Scattered { extent: u32 },
    /// On a circle of the given radius about the body planned at index
    /// `host`, at a random angle.
    Satellite { host: usize, radius: u32 },
}

/// How a body moves at the start.
#[derive(Debug, Clone, Copy, PartialEq, Eq, Structural)]
pub enum Motion {
    /// Not at all.
    AtRest,
    /// Along its circle, at `percent` hundredths of the speed that keeps a
    /// body on that circle about the mass at its centre.
    Orbit { percent: u32 },
    /// In a random direction, at a speed drawn from the span.
    Drift { speed: Span },
}

/// One planned body.
#[derive(Debug, Clone, Copy, PartialEq, Eq, Structural)]
pub struct Slot {
    pub category: ObjectType,
    pub placement: Placement,
    pub motion: Motion,
    pub radius: Quantity,
    pub mass: Quantity,
}

/// The compact companion of a solar system, if it has one.
#[derive(Debug, Clone, Copy, PartialEq, Eq, Structural)]
pub enum Companion {
    Absent,
    NeutronStar,
    Pulsar,
}

/// What chance settles about the makeup of one solar system.
#[derive(Debug, Clone, Copy, PartialEq, Eq, Structural)]
pub struct SystemDraw {
    /// Whether the central body is a white dwarf instead of a star.
    pub white_dwarf: bool,
    /// How many planets orbit the central body.
    pub planets: usize,
    /// The compact companion.
    pub companion: Companion,
}

impl Motion {
    /// An orbit has a speed above zero, and a drift draws its speed from a
    /// span that can be drawn from.
    pub open spec fn well_formed(self) -> bool {
        match self {
            Motion::AtRest => true,
            Motion::Orbit { percent } => 0 < percent <= 100,
            Motion::Drift { speed } => speed.well_formed(),
        }
    }
}

impl Slot {
    /// Whether a body can be made from the slot: every span in it can be
    /// drawn from, its radius and its mass are above zero, and only a body on
    /// a circle is on an orbit.
    pub open spec fn sound(self) -> bool {
        &&& self.motion.well_formed()
        &&& self.radius.well_formed()
        &&& self.radius.positive()
        &&& self.mass.well_formed()
        &&& self.mass.positive()
        &&& (self.motion is Orbit ==> self.placement is Ring || self.placement is Satellite)
    }
}

impl SystemDraw {
    /// A system has two or three planets.
    pub open spec fn valid(self) -> bool {
        2 <= self.planets <= 3
    }

    /// How many bodies the system has: the central body, its planets and
    /// the companion.
    pub open spec fn size(self) -> int {
        1 + self.planets + (if self.companion == Companion::Absent {
            0int
        } else {
            1int
        })
    }
}

/// Whether every draw of `draws` is valid.
pub open spec fn all_valid(draws: Seq<SystemDraw>) -> bool {
    forall|s: int| 0 <= s < draws.len() ==> (#[trigger] draws[s]).valid()
}

/// The span from `low / per` to `high / per`.
pub open spec fn within(low: u64, high: u64, per: u64) -> Quantity {
    Quantity::Within(Span { low, high, per })
}

/// The galaxy centre: at the origin, at rest.
pub open spec fn galaxy_center_slot() -> Slot {
    Slot {
        category: ObjectType::GalaxyCenter,
        placement: Placement::Origin,
        motion: Motion::AtRest,
        radius: Quantity::Exactly(15),
        mass: Quantity::Exactly(GALAXY_CENTER_MASS),
    }
}

/// The central black hole: at the origin, at rest.
pub open spec fn black_hole_slot() -> Slot {
    Slot {
        category: ObjectType::BlackHole,
        placement: Placement::Origin,
        motion: Motion::AtRest,
        radius: Quantity::Exactly(3),
        mass: Quantity::Exactly(BLACK_HOLE_MASS),
    }
}

/// The `k`-th star of the ring: the radii widen by 25 from 100 on, and the
/// stars move at seven tenths of the orbital speed.
pub open spec fn ring_slot(k: int) -> Slot {
    Slot {
        category: ObjectType::Star,
        placement: Placement::Ring { radius: (100 + 25 * k) as u32 },
        motion: Motion::Orbit { percent: 70 },
        radius: within(10, 25, 10),
        mass: within(50_000, 200_000, 1),
    }
}

/// The galactic core: the galaxy centre and the central black hole, then
/// the ring of stars.
pub open spec fn core_slots() -> Seq<Slot> {
    seq![galaxy_center_slot(), black_hole_slot()] + Seq::new(
        RING_STARS as nat,
        |k: int| ring_slot(k),
    )
}

/// The category of a system's central body.
pub open spec fn central_category_of(white_dwarf: bool) -> ObjectType {
    if white_dwarf {
        ObjectType::WhiteDwarf
    } else {
        ObjectType::Star
    }
}

/// The central body of a system, at rest within 300 of the origin. A white
/// dwarf is smaller than a star of the same mass.
pub open spec fn center_slot(d: SystemDraw) -> Slot {
    Slot {
        category: central_category_of(d.white_dwarf),
        placement: Placement::Scattered { extent: 300 },
        motion: Motion::AtRest,
        radius: if d.white_dwarf {
            within(10, 15, 10)
        } else {
            within(2, 4, 1)
        },
        mass: within(1_000_000, 5_000_000, 1),
    }
}

/// The `k`-th planet about the body at `host`, at the full orbital speed:
/// the orbits widen by 15 from 25 on.
pub open spec fn planet_slot(host: int, k: int) -> Slot {
    Slot {
        category: ObjectType::Planet,
        placement: Placement::Satellite { host: host as usize, radius: (25 + 15 * k) as u32 },
        motion: Motion::Orbit { percent: 100 },
        radius: within(5, 12, 10),
        mass: within(1_000, 5_000, 1),
    }
}

/// A companion of the given category about the body at `host`: on an orbit
/// of radius 50, at eight tenths of the orbital speed.
pub open spec fn companion_slot(host: int, category: ObjectType) -> Slot {
    Slot {
        category,
        placement: Placement::Satellite { host: host as usize, radius: 50 },
        motion: Motion::Orbit { percent: 80 },
        radius: within(3, 6, 10),
        mass: within(50_000, 100_000, 1),
    }
}

/// The companion about the body at `host`, if there is one.
pub open spec fn companion_slots(host: int, c: Companion) -> Seq<Slot> {
    match c {
        Companion::Absent => Seq::empty(),
        Companion::NeutronStar => seq![companion_slot(host, ObjectType::NeutronStar)],
        Companion::Pulsar => seq![companion_slot(host, ObjectType::Pulsar)],
    }
}

/// One solar system whose central body is planned at index `host`.
pub open spec fn system_slots(host: int, d: SystemDraw) -> Seq<Slot> {
    seq![center_slot(d)] + Seq::new(d.planets as nat, |k: int| planet_slot(host, k))
        + companion_slots(host, d.companion)
}

/// The solar systems of `draws`, one after the other, the first of them
/// planned from index `start` on.
pub open spec fn systems_slots(start: int, draws: Seq<SystemDraw>) -> Seq<Slot>
    decreases draws.len(),
{
    if draws.len() == 0 {
        Seq::empty()
    } else {
        let before = systems_slots(start, draws.drop_last());
        before + system_slots(start + before.len(), draws.last())
    }
}

/// An asteroid: within 400 of the origin, drifting slowly.
pub open spec fn asteroid_slot() -> Slot {
    Slot {
        category: ObjectType::Asteroid,
        placement: Placement::Scattered { extent: 400 },
        motion: Motion::Drift { speed: Span { low: 5, high: 20, per: 100 } },
        radius: within(1, 3, 10),
        mass: within(5, 50, 10),
    }
}

/// A comet: within 500 of the origin, drifting a little faster.
pub open spec fn comet_slot() -> Slot {
    Slot {
        category: ObjectType::Comet,
        placement: Placement::Scattered { extent: 500 },
        motion: Motion::Drift { speed: Span { low: 10, high: 30, per: 100 } },
        radius: within(2, 5, 10),
        mass: within(1, 3, 1),
    }
}

/// A clump of dark matter: within 600 of the origin, at rest.
pub open spec fn dark_matter_slot() -> Slot {
    Slot {
        category: ObjectType::DarkMatter,
        placement: Placement::Scattered { extent: 600 },
        motion: Motion::AtRest,
        radius: within(1, 2, 1),
        mass: within(10_000, 50_000, 1),
    }
}

/// A run of `count` bodies planned alike.
pub open spec fn repeated(count: nat, slot: Slot) -> Seq<Slot> {
    Seq::new(count, |k: int| slot)
}

/// The small bodies: the asteroids, then the comets, then the dark matter.
pub open spec fn small_slots() -> Seq<Slot> {
    repeated(ASTEROIDS as nat, asteroid_slot()) + repeated(COMETS as nat, comet_slot())
        + repeated(DARK_MATTER_CLUMPS as nat, dark_matter_slot())
}

/// The whole plan of a scenario whose solar systems are `draws`.
pub open spec fn universe_slots(draws: Seq<SystemDraw>) -> Seq<Slot> {
    core_slots() + systems_slots(core_slots().len() as int, draws) + small_slots()
}

/// Whether every slot of `slots` is sound.
pub open spec fn all_sound(slots: Seq<Slot>) -> bool {
    forall|i: int| 0 <= i < slots.len() ==> (#[trigger] slots[i]).sound()
}

/// Whether `slot` plans the central body of a solar system.
pub open spec fn is_center(slot: Slot) -> bool {
    (slot.category == ObjectType::Star || slot.category == ObjectType::WhiteDwarf)
        && slot.placement == (Placement::Scattered { extent: 300 }) && slot.motion
        == Motion::AtRest
}

/// Whether every satellite of `plan` orbits a central body planned before
/// it.
pub open spec fn hosts_come_first(plan: Seq<Slot>) -> bool {
    forall|i: int|
        0 <= i < plan.len() ==> match (#[trigger] plan[i]).placement {
            Placement::Satellite { host, radius } => host < i && is_center(plan[host as int]),
            _ => true,
        }
}

/// Makes the quantity that is drawn from `low / per` to `high / per`.
fn span(low: u64, high: u64, per: u64) -> (q: Quantity)
    ensures
        q == within(low, high, per),
{
    Quantity::Within(Span { low, high, per })
}

/// Plans the galactic core at the end of `plan`.
pub fn create_central_galaxy(plan: &mut Vec<Slot>)
    ensures
        final(plan)@ == old(plan)@ + core_slots(),
{
    let ghost before = plan@;
    plan.push(
        Slot {
            category: ObjectType::GalaxyCenter,
            placement: Placement::Origin,
            motion: Motion::AtRest,
            radius: Quantity::Exactly(15),
            mass: Quantity::Exactly(GALAXY_CENTER_MASS),
        },
    );
    plan.push(
        Slot {
            category: ObjectType::BlackHole,
            placement: Placement::Origin,
            motion: Motion::AtRest,
            radius: Quantity::Exactly(3),
            mass: Quantity::Exactly(BLACK_HOLE_MASS),
        },
    );
    let mut k: usize = 0;
    while k < RING_STARS
        invariant
            k <= RING_STARS,
            plan@ =~= before + core_slots().take(2 + k as int),
        decreases RING_STARS - k,
    {
        let radius: u32 = 100 + 25 * (k as u32);
        plan.push(
            Slot {
                category: ObjectType::Star,
                placement: Placement::Ring { radius },
                motion: Motion::Orbit { percent: 70 },
                radius: span(10, 25, 10),
                mass: span(50_000, 200_000, 1),
            },
        );
        k += 1;
    }
    assert(core_slots().take(2 + RING_STARS as int) =~= core_slots());
}

/// The category of a system's central body: a white dwarf or a star.
pub fn central_category(white_dwarf: bool) -> (r: ObjectType)
    ensures
        r == central_category_of(white_dwarf),
{
    if white_dwarf {
        ObjectType::WhiteDwarf
    } else {
        ObjectType::Star
    }
}

/// Plans one solar system at the end of `plan`: the central body, its
/// planets on widening orbits, and the companion if there is one.
pub fn create_solar_system(plan: &mut Vec<Slot>, draw: SystemDraw)
    requires
        draw.valid(),
    ensures
        final(plan)@ == old(plan)@ + system_slots(old(plan)@.len() as int, draw),
{
    let ghost before = plan@;
    let ghost system = system_slots(before.len() as int, draw);
    let host: usize = plan.len();
    plan.push(
        Slot {
            category: central_category(draw.white_dwarf),
            placement: Placement::Scattered { extent: 300 },
            motion: Motion::AtRest,
            radius: if draw.white_dwarf {
                span(10, 15, 10)
            } else {
                span(2, 4, 1)
            },
            mass: span(1_000_000, 5_000_000, 1),
        },
    );
    let mut k: usize = 0;
    while k < draw.planets
        invariant
            k <= draw.planets <= 3,
            host == before.len(),
            system == system_slots(before.len() as int, draw),
            plan@ =~= before + system.take(1 + k as int),
        decreases draw.planets - k,
    {
        let radius: u32 = 25 + 15 * (k as u32);
        plan.push(
            Slot {
                category: ObjectType::Planet,
                placement: Placement::Satellite { host, radius },
                motion: Motion::Orbit { percent: 100 },
                radius: span(5, 12, 10),
                mass: span(1_000, 5_000, 1),
            },
        );
        k += 1;
    }
    let exotic = match draw.companion {
        Companion::Absent => None,
        Companion::NeutronStar => Some(ObjectType::NeutronStar),
        Companion::Pulsar => Some(ObjectType::Pulsar),
    };
    match exotic {
        Some(category) => {
            plan.push(
                Slot {
                    category,
                    placement: Placement::Satellite { host, radius: 50 },
                    motion: Motion::Orbit { percent: 80 },
                    radius: span(3, 6, 10),
                    mass: span(50_000, 100_000, 1),
                },
            );
        },
        None => {},
    }
    assert(plan@ =~= before + system);
}

/// Plans the solar systems of `draws` at the end of `plan`, one after the
/// other.
pub fn create_stable_solar_systems(plan: &mut Vec<Slot>, draws: &Vec<SystemDraw>)
    requires
        all_valid(draws@),
    ensures
        final(plan)@ == old(plan)@ + systems_slots(old(plan)@.len() as int, draws@),
{
    let ghost before = plan@;
    let ghost start = before.len() as int;
    let mut s: usize = 0;
    while s < draws.len()
        invariant
            s <= draws.len(),
            all_valid(draws@),
            start == before.len(),
            plan@ =~= before + systems_slots(start, draws@.take(s as int)),
        decreases draws.len() - s,
    {
        assert(draws@.take(s + 1).drop_last() =~= draws@.take(s as int));
        assert(draws@[s as int].valid());
        create_solar_system(plan, draws[s]);
        s += 1;
    }
    assert(draws@.take(s as int) =~= draws@);
}

/// Plans `count` bodies alike at the end of `plan`.
fn create_repeated(plan: &mut Vec<Slot>, count: usize, slot: Slot)
    ensures
        final(plan)@ == old(plan)@ + repeated(count as nat, slot),
{
    let ghost before = plan@;
    let mut k: usize = 0;
    while k < count
        invariant
            k <= count,
            plan@ =~= before + repeated(count as nat, slot).take(k as int),
        decreases count - k,
    {
        plan.push(slot);
        k += 1;
    }
    assert(repeated(count as nat, slot).take(count as int) =~= repeated(count as nat, slot));
}

/// Plans the small bodies at the end of `plan`: asteroids, then comets,
/// then dark matter.
pub fn create_small_objects(plan: &mut Vec<Slot>)
    ensures
        final(plan)@ == old(plan)@ + small_slots(),
{
    let ghost before = plan@;
    create_repeated(
        plan,
        ASTEROIDS,
        Slot {
            category: ObjectType::Asteroid,
            placement: Placement::Scattered { extent: 400 },
            motion: Motion::Drift { speed: Span { low: 5, high: 20, per: 100 } },
            radius: span(1, 3, 10),
            mass: span(5, 50, 10),
        },
    );
    create_repeated(
        plan,
        COMETS,
        Slot {
            category: ObjectType::Comet,
            placement: Placement::Scattered { extent: 500 },
            motion: Motion::Drift { speed: Span { low: 10, high: 30, per: 100 } },
            radius: span(2, 5, 10),
            mass: span(1, 3, 1),
        },
    );
    create_repeated(
        plan,
        DARK_MATTER_CLUMPS,
        Slot {
            category: ObjectType::DarkMatter,
            placement: Placement::Scattered { extent: 600 },
            motion: Motion::AtRest,
            radius: span(1, 2, 1),
            mass: span(10_000, 50_000, 1),
        },
    );
    assert(plan@ =~= before + small_slots());
}

/// Plans a whole scenario whose solar systems are `draws`.
pub fn create_stable_universe(draws: &Vec<SystemDraw>) -> (plan: Vec<Slot>)
    requires
        all_valid(draws@),
    ensures
        plan@ == universe_slots(draws@),
        all_sound(plan@),
        hosts_come_first(plan@),
{
    let mut plan: Vec<Slot> = Vec::new();
    create_central_galaxy(&mut plan);
    assert(plan@ =~= core_slots());
    create_stable_solar_systems(&mut plan, draws);
    create_small_objects(&mut plan);
    proof {
        assert(universe_slots(draws@).len() == plan.len());
        lemma_slots_sound(draws@);
        lemma_hosts_come_first(draws@);
    }
    plan
}

/// The companion that two draws settle: none unless `present`, and then a
/// neutron star or a pulsar.
pub fn companion_for(present: bool, neutron_star: bool) -> (c: Companion)
    ensures
        c == (if !present {
            Companion::Absent
        } else if neutron_star {
            Companion::NeutronStar
        } else {
            Companion::Pulsar
        }),
{
    if !present {
        Companion::Absent
    } else if neutron_star {
        Companion::NeutronStar
    } else {
        Companion::Pulsar
    }
}

/// Draws what chance settles about the makeup of one solar system: a white
/// dwarf at the centre one time in ten, two or three planets, a companion
/// one time in five, which is as often a neutron star as a pulsar.
pub fn draw_system(rng: &mut StdRng) -> (d: SystemDraw)
    ensures
        d.valid(),
{
    let white_dwarf = random_chance(rng, 1, 10);
    let planets: usize = random_between(rng, 2, 4);
    let present = random_chance(rng, 1, 5);
    let neutron_star = if present {
        random_chance(rng, 1, 2)
    } else {
        false
    };
    SystemDraw { white_dwarf, planets, companion: companion_for(present, neutron_star) }
}

/// Draws the makeup of the solar systems of a scenario.
pub fn draw_systems(rng: &mut StdRng) -> (draws: Vec<SystemDraw>)
    ensures
        draws@.len() == SOLAR_SYSTEMS,
        all_valid(draws@),
{
    let mut draws: Vec<SystemDraw> = Vec::new();
    let mut s: usize = 0;
    while s < SOLAR_SYSTEMS
        invariant
            s <= SOLAR_SYSTEMS,
            draws@.len() == s,
            all_valid(draws@),
        decreases SOLAR_SYSTEMS - s,
    {
        let d = draw_system(rng);
        draws.push(d);
        s += 1;
    }
    draws
}

/// Plans a scenario with solar systems drawn from `rng`.
pub fn generate(rng: &mut StdRng) -> (plan: Vec<Slot>)
    ensures
        exists|draws: Seq<SystemDraw>|
            draws.len() == SOLAR_SYSTEMS && all_valid(draws) && plan@ == #[trigger] universe_slots(
                draws,
            ),
        87 <= plan@.len() <= 95,
        all_sound(plan@),
        hosts_come_first(plan@),
{
    let draws = draw_systems(rng);
    proof {
        lemma_scenario_size(draws@);
    }
    create_stable_universe(&draws)
}

} // verus!
