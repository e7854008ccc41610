use bigbang::objects::ObjectType;
use bigbang::quantity::{Quantity, Span};
use bigbang::scenario::{
    central_category, companion_for, create_central_galaxy, create_small_objects,
    create_solar_system, create_stable_solar_systems, create_stable_universe, draw_system,
    draw_systems, generate, Companion, Motion, Placement, Slot, SystemDraw, ASTEROIDS,
    BLACK_HOLE_MASS, COMETS, DARK_MATTER_CLUMPS, GALAXY_CENTER_MASS, RING_STARS, SOLAR_SYSTEMS,
};
use rand::rngs::StdRng;
use rand::SeedableRng;

fn count(plan: &[Slot], category: ObjectType) -> usize {
    plan.iter().filter(|s| s.category == category).count()
}

fn draw(white_dwarf: bool, planets: usize, companion: Companion) -> SystemDraw {
    SystemDraw { white_dwarf, planets, companion }
}

fn within(low: u64, high: u64, per: u64) -> Quantity {
    Quantity::Within(Span { low, high, per })
}

fn planet(host: usize, radius: u32) -> Slot {
    Slot {
        category: ObjectType::Planet,
        placement: Placement::Satellite { host, radius },
        motion: Motion::Orbit { percent: 100 },
        radius: within(5, 12, 10),
        mass: within(1_000, 5_000, 1),
    }
}

fn companion(host: usize, category: ObjectType) -> Slot {
    Slot {
        category,
        placement: Placement::Satellite { host, radius: 50 },
        motion: Motion::Orbit { percent: 80 },
        radius: within(3, 6, 10),
        mass: within(50_000, 100_000, 1),
    }
}

fn central_star() -> Slot {
    Slot {
        category: ObjectType::Star,
        placement: Placement::Scattered { extent: 300 },
        motion: Motion::AtRest,
        radius: within(2, 4, 1),
        mass: within(1_000_000, 5_000_000, 1),
    }
}

fn central_white_dwarf() -> Slot {
    Slot {
        category: ObjectType::WhiteDwarf,
        placement: Placement::Scattered { extent: 300 },
        motion: Motion::AtRest,
        radius: within(10, 15, 10),
        mass: within(1_000_000, 5_000_000, 1),
    }
}

fn asteroid() -> Slot {
    Slot {
        category: ObjectType::Asteroid,
        placement: Placement::Scattered { extent: 400 },
        motion: Motion::Drift { speed: Span { low: 5, high: 20, per: 100 } },
        radius: within(1, 3, 10),
        mass: within(5, 50, 10),
    }
}

fn comet() -> Slot {
    Slot {
        category: ObjectType::Comet,
        placement: Placement::Scattered { extent: 500 },
        motion: Motion::Drift { speed: Span { low: 10, high: 30, per: 100 } },
        radius: within(2, 5, 10),
        mass: within(1, 3, 1),
    }
}

fn dark_matter() -> Slot {
    Slot {
        category: ObjectType::DarkMatter,
        placement: Placement::Scattered { extent: 600 },
        motion: Motion::AtRest,
        radius: within(1, 2, 1),
        mass: within(10_000, 50_000, 1),
    }
}

fn is_sound(slot: &Slot) -> bool {
    let quantity_ok = |q: Quantity| match q {
        Quantity::Exactly(value) => value > 0,
        Quantity::Within(span) => span.per > 0 && 0 < span.low && span.low < span.high,
    };
    let motion_ok = match slot.motion {
        Motion::AtRest => true,
        Motion::Orbit { percent } => {
            let on_a_circle = matches!(
                slot.placement,
                Placement::Ring { .. } | Placement::Satellite { .. }
            );
            0 < percent && percent <= 100 && on_a_circle
        }
        Motion::Drift { speed } => speed.per > 0 && speed.low < speed.high,
    };
    quantity_ok(slot.radius) && quantity_ok(slot.mass) && motion_ok
}

fn check_hosts(plan: &[Slot]) {
    for (i, slot) in plan.iter().enumerate() {
        if let Placement::Satellite { host, .. } = slot.placement {
            assert!(host < i);
            let center = plan[host];
            assert!(
                center.category == ObjectType::Star || center.category == ObjectType::WhiteDwarf
            );
            assert_eq!(center.placement, Placement::Scattered { extent: 300 });
            assert_eq!(center.motion, Motion::AtRest);
        }
    }
}

#[test]
fn scenario_constants() {
    assert_eq!(RING_STARS, 30);
    assert_eq!(SOLAR_SYSTEMS, 4);
    assert_eq!(ASTEROIDS, 20);
    assert_eq!(COMETS, 8);
    assert_eq!(DARK_MATTER_CLUMPS, 15);
    assert_eq!(GALAXY_CENTER_MASS, 50_000_000);
    assert_eq!(BLACK_HOLE_MASS, 10 * GALAXY_CENTER_MASS);
}

#[test]
fn core_is_center_black_hole_and_ring() {
    let mut plan = Vec::new();
    create_central_galaxy(&mut plan);
    assert_eq!(plan.len(), 32);
    let center = Slot {
        category: ObjectType::GalaxyCenter,
        placement: Placement::Origin,
        motion: Motion::AtRest,
        radius: Quantity::Exactly(15),
        mass: Quantity::Exactly(50_000_000),
    };
    let hole = Slot {
        category: ObjectType::BlackHole,
        placement: Placement::Origin,
        motion: Motion::AtRest,
        radius: Quantity::Exactly(3),
        mass: Quantity::Exactly(500_000_000),
    };
    assert_eq!(plan[0], center);
    assert_eq!(plan[1], hole);
    for k in 0..30u32 {
        let expected = Slot {
            category: ObjectType::Star,
            placement: Placement::Ring { radius: 100 + 25 * k },
            motion: Motion::Orbit { percent: 70 },
            radius: within(10, 25, 10),
            mass: within(50_000, 200_000, 1),
        };
        assert_eq!(plan[2 + k as usize], expected);
    }
    assert_eq!(plan[2].placement, Placement::Ring { radius: 100 });
    assert_eq!(plan[31].placement, Placement::Ring { radius: 825 });
}

#[test]
fn core_is_added_behind_what_is_planned() {
    let mut plan = vec![comet()];
    create_central_galaxy(&mut plan);
    assert_eq!(plan.len(), 33);
    assert_eq!(plan[0], comet());
    assert_eq!(plan[1].category, ObjectType::GalaxyCenter);
}

#[test]
fn central_body_is_star_or_white_dwarf() {
    assert_eq!(central_category(false), ObjectType::Star);
    assert_eq!(central_category(true), ObjectType::WhiteDwarf);
}

#[test]
fn companion_from_two_draws() {
    assert_eq!(companion_for(false, false), Companion::Absent);
    assert_eq!(companion_for(false, true), Companion::Absent);
    assert_eq!(companion_for(true, true), Companion::NeutronStar);
    assert_eq!(companion_for(true, false), Companion::Pulsar);
}

#[test]
fn system_with_three_planets_and_a_pulsar() {
    let mut plan = vec![asteroid(); 7];
    create_solar_system(&mut plan, draw(false, 3, Companion::Pulsar));
    let expected = vec![
        central_star(),
        planet(7, 25),
        planet(7, 40),
        planet(7, 55),
        companion(7, ObjectType::Pulsar),
    ];
    assert_eq!(plan[7..].to_vec(), expected);
    assert_eq!(plan[..7].to_vec(), vec![asteroid(); 7]);
}

#[test]
fn system_with_two_planets_about_a_white_dwarf() {
    let mut plan = Vec::new();
    create_solar_system(&mut plan, draw(true, 2, Companion::Absent));
    assert_eq!(plan, vec![central_white_dwarf(), planet(0, 25), planet(0, 40)]);
}

#[test]
fn system_with_a_neutron_star() {
    let mut plan = Vec::new();
    create_solar_system(&mut plan, draw(false, 2, Companion::NeutronStar));
    assert_eq!(plan.len(), 4);
    assert_eq!(plan[3], companion(0, ObjectType::NeutronStar));
}

#[test]
fn systems_follow_one_after_the_other() {
    let mut plan = Vec::new();
    create_central_galaxy(&mut plan);
    let draws = vec![draw(false, 2, Companion::Absent), draw(true, 3, Companion::NeutronStar)];
    create_stable_solar_systems(&mut plan, &draws);
    assert_eq!(plan.len(), 32 + 3 + 5);
    let expected = vec![
        central_star(),
        planet(32, 25),
        planet(32, 40),
        central_white_dwarf(),
        planet(35, 25),
        planet(35, 40),
        planet(35, 55),
        companion(35, ObjectType::NeutronStar),
    ];
    assert_eq!(plan[32..].to_vec(), expected);
}

#[test]
fn systems_without_a_core_start_at_zero() {
    let mut plan = Vec::new();
    create_stable_solar_systems(&mut plan, &vec![draw(false, 2, Companion::Absent); 2]);
    let expected = vec![
        central_star(),
        planet(0, 25),
        planet(0, 40),
        central_star(),
        planet(3, 25),
        planet(3, 40),
    ];
    assert_eq!(plan, expected);
    create_stable_solar_systems(&mut plan, &Vec::new());
    assert_eq!(plan.len(), 6);
}

#[test]
fn small_bodies_in_three_runs() {
    let mut plan = Vec::new();
    create_small_objects(&mut plan);
    assert_eq!(plan.len(), 43);
    assert_eq!(plan[..20].to_vec(), vec![asteroid(); 20]);
    assert_eq!(plan[20..28].to_vec(), vec![comet(); 8]);
    assert_eq!(plan[28..].to_vec(), vec![dark_matter(); 15]);
}

#[test]
fn smallest_scenario_has_87_bodies() {
    let draws = vec![draw(false, 2, Companion::Absent); 4];
    let plan = create_stable_universe(&draws);
    assert_eq!(plan.len(), 87);
    assert_eq!(count(&plan, ObjectType::Star), 34);
    assert_eq!(count(&plan, ObjectType::Planet), 8);
}

#[test]
fn largest_scenario_has_95_bodies() {
    let draws = vec![draw(true, 3, Companion::Pulsar); 4];
    let plan = create_stable_universe(&draws);
    assert_eq!(plan.len(), 95);
    assert_eq!(count(&plan, ObjectType::Star), 30);
    assert_eq!(count(&plan, ObjectType::WhiteDwarf), 4);
    assert_eq!(count(&plan, ObjectType::Planet), 12);
    assert_eq!(count(&plan, ObjectType::Pulsar), 4);
}

#[test]
fn mixed_scenario_composition() {
    let draws = vec![
        draw(false, 2, Companion::Absent),
        draw(true, 3, Companion::NeutronStar),
        draw(false, 3, Companion::Absent),
        draw(false, 2, Companion::Pulsar),
    ];
    let plan = create_stable_universe(&draws);
    assert_eq!(plan.len(), 2 + 30 + (3 + 5 + 4 + 4) + 20 + 8 + 15);
    assert_eq!(count(&plan, ObjectType::GalaxyCenter), 1);
    assert_eq!(count(&plan, ObjectType::BlackHole), 1);
    assert_eq!(count(&plan, ObjectType::Star), 33);
    assert_eq!(count(&plan, ObjectType::WhiteDwarf), 1);
    assert_eq!(count(&plan, ObjectType::Planet), 10);
    assert_eq!(count(&plan, ObjectType::NeutronStar), 1);
    assert_eq!(count(&plan, ObjectType::Pulsar), 1);
    assert_eq!(count(&plan, ObjectType::Asteroid), 20);
    assert_eq!(count(&plan, ObjectType::Comet), 8);
    assert_eq!(count(&plan, ObjectType::DarkMatter), 15);
    assert_eq!(count(&plan, ObjectType::DarkEnergy), 0);
    assert_eq!(plan[32 + 3], central_white_dwarf());
    assert_eq!(plan[plan.len() - 43], asteroid());
    assert_eq!(plan[plan.len() - 1], dark_matter());
}

#[test]
fn a_scenario_without_systems_is_core_and_small_bodies() {
    let plan = create_stable_universe(&Vec::new());
    assert_eq!(plan.len(), 75);
    assert_eq!(plan[32], asteroid());
}

#[test]
fn satellites_orbit_a_center_planned_before_them() {
    let draws = vec![
        draw(false, 3, Companion::Pulsar),
        draw(true, 2, Companion::Absent),
        draw(false, 3, Companion::NeutronStar),
        draw(true, 2, Companion::Pulsar),
    ];
    check_hosts(&create_stable_universe(&draws));
}

#[test]
fn every_planned_body_can_be_made() {
    let draws = vec![
        draw(false, 3, Companion::Pulsar),
        draw(true, 2, Companion::Absent),
        draw(false, 3, Companion::NeutronStar),
        draw(true, 2, Companion::Pulsar),
    ];
    for slot in create_stable_universe(&draws) {
        assert!(is_sound(&slot));
    }
}

#[test]
fn planned_spans_keep_their_decimal_values() {
    // the single-precision bounds that the bodies are drawn between
    let bound = |value: u64, per: u64| value as f32 / per as f32;
    match asteroid().motion {
        Motion::Drift { speed } => {
            assert_eq!(bound(speed.low, speed.per), 0.05_f32);
            assert_eq!(bound(speed.high, speed.per), 0.2_f32);
        }
        _ => panic!("an asteroid drifts"),
    }
    match planet(0, 25).radius {
        Quantity::Within(span) => {
            assert_eq!(bound(span.low, span.per), 0.5_f32);
            assert_eq!(bound(span.high, span.per), 1.2_f32);
        }
        Quantity::Exactly(_) => panic!("a planet's radius is drawn"),
    }
    assert_eq!(bound(70, 100), 0.7_f32);
    assert_eq!(bound(80, 100), 0.8_f32);
    assert_eq!(GALAXY_CENTER_MASS as f32, 5e7_f32);
    assert_eq!(BLACK_HOLE_MASS as f32, 5e7_f32 * 10.0);
}

#[test]
fn drawn_systems_are_valid_and_vary() {
    let mut twos = 0;
    let mut threes = 0;
    let mut dwarfs = 0;
    let mut stars = 0;
    let mut absent = 0;
    let mut neutron = 0;
    let mut pulsars = 0;
    for seed in 0..200u64 {
        let mut rng = StdRng::seed_from_u64(seed);
        let d = draw_system(&mut rng);
        assert!(d.planets == 2 || d.planets == 3);
        if d.planets == 2 {
            twos += 1;
        } else {
            threes += 1;
        }
        if d.white_dwarf {
            dwarfs += 1;
        } else {
            stars += 1;
        }
        match d.companion {
            Companion::Absent => absent += 1,
            Companion::NeutronStar => neutron += 1,
            Companion::Pulsar => pulsars += 1,
        }
    }
    assert!(twos > 0 && threes > 0);
    assert!(dwarfs > 0 && stars > dwarfs);
    assert!(neutron > 0 && pulsars > 0 && absent > neutron + pulsars);
}

#[test]
fn four_systems_are_drawn() {
    let mut rng = StdRng::seed_from_u64(11);
    let draws = draw_systems(&mut rng);
    assert_eq!(draws.len(), 4);
    for d in draws {
        assert!(d.planets == 2 || d.planets == 3);
    }
}

#[test]
fn generated_scenarios_keep_the_composition() {
    for seed in 0..100u64 {
        let mut rng = StdRng::seed_from_u64(seed);
        let plan = generate(&mut rng);
        assert!(plan.len() >= 87 && plan.len() <= 95);
        assert_eq!(plan[0].category, ObjectType::GalaxyCenter);
        assert_eq!(plan[1].category, ObjectType::BlackHole);
        assert_eq!(count(&plan, ObjectType::GalaxyCenter), 1);
        assert_eq!(count(&plan, ObjectType::BlackHole), 1);
        let centers = count(&plan, ObjectType::Star) + count(&plan, ObjectType::WhiteDwarf);
        assert_eq!(centers, 34);
        let planets = count(&plan, ObjectType::Planet);
        assert!(planets >= 8 && planets <= 12);
        let companions = count(&plan, ObjectType::NeutronStar) + count(&plan, ObjectType::Pulsar);
        assert!(companions <= 4);
        assert_eq!(count(&plan, ObjectType::Asteroid), 20);
        assert_eq!(count(&plan, ObjectType::Comet), 8);
        assert_eq!(count(&plan, ObjectType::DarkMatter), 15);
        assert_eq!(count(&plan, ObjectType::DarkEnergy), 0);
        assert_eq!(plan.len(), 2 + 34 + planets + companions + 43);
        check_hosts(&plan);
        for slot in &plan {
            assert!(is_sound(slot));
        }
    }
}

#[test]
fn generation_repeats_for_a_repeated_seed() {
    let mut first = StdRng::seed_from_u64(77);
    let mut second = StdRng::seed_from_u64(77);
    assert_eq!(generate(&mut first), generate(&mut second));
}
