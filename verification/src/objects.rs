//! Body categories and what a category settles about a body when it is made.

use vstd::prelude::*;
use rand::rngs::StdRng;
use crate::quantity::{Quantity, Span};
use crate::random::random_between;

verus! {

/// The closed set of body categories.
#[derive(Debug, Clone, Copy, PartialEq, Eq, Structural)]
pub enum ObjectType {
    Star,
    Planet,
    GalaxyCenter,
    DarkMatter,
    DarkEnergy,
    BlackHole,
    NeutronStar,
    Pulsar,
    WhiteDwarf,
    Comet,
    Asteroid,
}

/// A display colour as red, green and blue.
pub type Rgb = (u8, u8, u8);

/// Number of entries in the planet palette.
pub const PLANET_COLORS: usize = 4;

/// The planet palette: blue, brown, green, beige.
pub open spec fn planet_palette() -> Seq<Rgb> {
    seq![(80u8, 120u8, 200u8), (160u8, 100u8, 60u8), (100u8, 160u8, 80u8), (180u8, 160u8, 120u8)]
}

/// The colour that a category fixes by itself. Stars are coloured by their
/// temperature and planets from the palette, so neither has one.
pub open spec fn fixed_color_of(t: ObjectType) -> Option<Rgb> {
    match t {
        ObjectType::Star => None,
        ObjectType::Planet => None,
        ObjectType::GalaxyCenter => Some((240u8, 240u8, 160u8)),
        ObjectType::DarkMatter => Some((60u8, 60u8, 140u8)),
        ObjectType::DarkEnergy => Some((120u8, 40u8, 180u8)),
        ObjectType::BlackHole => Some((10u8, 10u8, 10u8)),
        ObjectType::NeutronStar => Some((220u8, 220u8, 255u8)),
        ObjectType::Pulsar => Some((200u8, 240u8, 255u8)),
        ObjectType::WhiteDwarf => Some((240u8, 240u8, 255u8)),
        ObjectType::Comet => Some((180u8, 200u8, 240u8)),
        ObjectType::Asteroid => Some((120u8, 120u8, 120u8)),
    }
}

/// The mass that yields one unit of luminosity, or 0 for a category that
/// does not shine.
pub open spec fn luminosity_divisor_of(t: ObjectType) -> u32 {
    match t {
        ObjectType::Star => 50_000,
        ObjectType::GalaxyCenter => 5_000,
        ObjectType::NeutronStar => 100_000,
        ObjectType::Pulsar => 80_000,
        ObjectType::WhiteDwarf => 100_000,
        _ => 0,
    }
}

/// The temperature of a body in kelvin. That of a star or a planet is
/// drawn; every other category fixes it.
pub open spec fn temperature_of(t: ObjectType) -> Quantity {
    match t {
        ObjectType::Star => Quantity::Within(Span { low: 3_500, high: 8_000, per: 1 }),
        ObjectType::Planet => Quantity::Within(Span { low: 150, high: 250, per: 1 }),
        ObjectType::GalaxyCenter => Quantity::Exactly(6_000),
        ObjectType::NeutronStar => Quantity::Exactly(1_000_000),
        ObjectType::Pulsar => Quantity::Exactly(800_000),
        ObjectType::WhiteDwarf => Quantity::Exactly(10_000),
        ObjectType::Comet => Quantity::Exactly(180),
        _ => Quantity::Exactly(0),
    }
}

/// The rotation period of a body in seconds: a few milliseconds for a
/// neutron star, up to a tenth of a second for a pulsar, zero otherwise.
pub open spec fn rotation_period_of(t: ObjectType) -> Quantity {
    match t {
        ObjectType::NeutronStar => Quantity::Within(Span { low: 1, high: 10, per: 1_000 }),
        ObjectType::Pulsar => Quantity::Within(Span { low: 1, high: 100, per: 1_000 }),
        _ => Quantity::Exactly(0),
    }
}

/// The magnetic field of a body: drawn for a neutron star and, stronger
/// still, for a pulsar; zero otherwise.
pub open spec fn magnetic_field_of(t: ObjectType) -> Quantity {
    match t {
        ObjectType::NeutronStar => Quantity::Within(
            Span { low: 100_000_000, high: 1_000_000_000_000, per: 1 },
        ),
        ObjectType::Pulsar => Quantity::Within(
            Span { low: 10_000_000_000, high: 10_000_000_000_000, per: 1 },
        ),
        _ => Quantity::Exactly(0),
    }
}

impl ObjectType {
    /// Whether bodies of this category have an event horizon.
    pub fn is_black_hole(self) -> (r: bool)
        ensures
            r == (self == ObjectType::BlackHole),
    {
        match self {
            ObjectType::BlackHole => true,
            _ => false,
        }
    }

    /// Whether bodies of this category carry a rotation period and a
    /// magnetic field: neutron stars and pulsars do, nothing else does.
    pub fn is_magnetized(self) -> (r: bool)
        ensures
            r == (self == ObjectType::NeutronStar || self == ObjectType::Pulsar),
    {
        match self {
            ObjectType::NeutronStar => true,
            ObjectType::Pulsar => true,
            _ => false,
        }
    }

    /// Whether the opening velocity kick may apply to this category. The
    /// galaxy centre is never kicked, whatever its mass.
    pub fn may_be_kicked(self) -> (r: bool)
        ensures
            r == (self != ObjectType::GalaxyCenter),
    {
        match self {
            ObjectType::GalaxyCenter => false,
            _ => true,
        }
    }

    /// The colour fixed by the category, if it fixes one.
    pub fn fixed_color(self) -> (r: Option<Rgb>)
        ensures
            r == fixed_color_of(self),
    {
        match self {
            ObjectType::Star => None,
            ObjectType::Planet => None,
            ObjectType::GalaxyCenter => Some((240, 240, 160)),
            ObjectType::DarkMatter => Some((60, 60, 140)),
            ObjectType::DarkEnergy => Some((120, 40, 180)),
            ObjectType::BlackHole => Some((10, 10, 10)),
            ObjectType::NeutronStar => Some((220, 220, 255)),
            ObjectType::Pulsar => Some((200, 240, 255)),
            ObjectType::WhiteDwarf => Some((240, 240, 255)),
            ObjectType::Comet => Some((180, 200, 240)),
            ObjectType::Asteroid => Some((120, 120, 120)),
        }
    }

    /// The mass per unit of luminosity, 0 where the category is dark.
    pub fn luminosity_divisor(self) -> (r: u32)
        ensures
            r == luminosity_divisor_of(self),
    {
        match self {
            ObjectType::Star => 50_000,
            ObjectType::GalaxyCenter => 5_000,
            ObjectType::NeutronStar => 100_000,
            ObjectType::Pulsar => 80_000,
            ObjectType::WhiteDwarf => 100_000,
            _ => 0,
        }
    }

    /// The temperature of a body of this category, in kelvin.
    pub fn temperature(self) -> (r: Quantity)
        ensures
            r == temperature_of(self),
            r.well_formed(),
    {
        match self {
            ObjectType::Star => Quantity::Within(Span { low: 3_500, high: 8_000, per: 1 }),
            ObjectType::Planet => Quantity::Within(Span { low: 150, high: 250, per: 1 }),
            ObjectType::GalaxyCenter => Quantity::Exactly(6_000),
            ObjectType::NeutronStar => Quantity::Exactly(1_000_000),
            ObjectType::Pulsar => Quantity::Exactly(800_000),
            ObjectType::WhiteDwarf => Quantity::Exactly(10_000),
            ObjectType::Comet => Quantity::Exactly(180),
            _ => Quantity::Exactly(0),
        }
    }

    /// The rotation period of a body of this category, in seconds. It is
    /// zero unless the category is magnetized, and then it is above zero.
    pub fn rotation_period(self) -> (r: Quantity)
        ensures
            r == rotation_period_of(self),
            r.well_formed(),
            r.is_zero() <==> !(self == ObjectType::NeutronStar || self == ObjectType::Pulsar),
            !r.is_zero() ==> r.positive(),
    {
        match self {
            ObjectType::NeutronStar => Quantity::Within(Span { low: 1, high: 10, per: 1_000 }),
            ObjectType::Pulsar => Quantity::Within(Span { low: 1, high: 100, per: 1_000 }),
            _ => Quantity::Exactly(0),
        }
    }

    /// The magnetic field of a body of this category. It is zero unless the
    /// category is magnetized, and then it is above zero.
    pub fn magnetic_field(self) -> (r: Quantity)
        ensures
            r == magnetic_field_of(self),
            r.well_formed(),
            r.is_zero() <==> !(self == ObjectType::NeutronStar || self == ObjectType::Pulsar),
            !r.is_zero() ==> r.positive(),
    {
        match self {
            ObjectType::NeutronStar => Quantity::Within(
                Span { low: 100_000_000, high: 1_000_000_000_000, per: 1 },
            ),
            ObjectType::Pulsar => Quantity::Within(
                Span { low: 10_000_000_000, high: 10_000_000_000_000, per: 1 },
            ),
            _ => Quantity::Exactly(0),
        }
    }
}

/// The palette entry for `choice`.
pub fn planet_color(choice: usize) -> (r: Rgb)
    requires
        choice < PLANET_COLORS,
    ensures
        r == planet_palette()[choice as int],
{
    if choice == 0 {
        (80, 120, 200)
    } else if choice == 1 {
        (160, 100, 60)
    } else if choice == 2 {
        (100, 160, 80)
    } else {
        (180, 160, 120)
    }
}

/// Draws a planet colour: one palette entry, each equally likely.
pub fn random_planet_color(rng: &mut StdRng) -> (r: Rgb)
    ensures
        planet_palette().contains(r),
{
    let choice: usize = random_between(rng, 0, PLANET_COLORS);
    planet_color(choice)
}

} // verus!
