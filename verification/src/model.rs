//! The orbit data model: a celestial body, an altitude (single value or
//! band), and a named orbit; plus the default Earth orbit set.
use crate::physics::{lemma_period_cond_axis_antitone, period_cond, AXIS_MAX, MASS_MAX, PERIOD_MAX};
use vstd::prelude::*;

verus! {

/// Mass of Earth: 5.9722e24 kg.
pub const EARTH_MASS: u128 = 5_972_200_000_000_000_000_000_000;

/// Mean radius of Earth: 6.3781e6 m.
pub const EARTH_RADIUS: u64 = 6_378_100;

/// Largest user-supplied altitude, in km, for which every Earth period
/// fits below `PERIOD_MAX` seconds.
pub const MAX_USER_ALTITUDE_KM: u64 = 50_000_000;

/// A celestial body: mass in kg, radius in m, both strictly positive.
#[derive(Clone, Copy, PartialEq, Eq, Structural)]
pub struct Body {
    pub mass: u128,
    pub radius: u64,
}

impl Body {
    /// Strictly positive, and small enough for exact arithmetic.
    pub open spec fn wf(self) -> bool {
        1 <= self.mass <= MASS_MAX && 1 <= self.radius
    }
}

/// An altitude above the body's surface, in km: one value, or a band.
/// A band is displayed in the order (min, max) as given, never sorted.
#[derive(Clone, Copy, Debug, PartialEq, Eq, Structural)]
pub enum Altitude {
    Single { value: u64 },
    Range { min: u64, max: u64 },
}

/// A named orbit: an altitude paired with the body it circles.
#[derive(Clone, Copy)]
pub struct Orbit {
    pub name: &'static str,
    pub altitude: Altitude,
    pub body: Body,
}

/// Semi-major axis in m: the body's radius plus the altitude (km -> m).
pub open spec fn axis_of(body: Body, alt_km: nat) -> nat {
    (body.radius + 1000 * alt_km) as nat
}

/// The axis fits the machine bounds and its period stays below
/// `PERIOD_MAX` seconds.
pub open spec fn axis_ok(body: Body, alt_km: nat) -> bool {
    &&& 1 <= axis_of(body, alt_km) <= AXIS_MAX
    &&& period_cond(PERIOD_MAX as nat, body.mass as nat, axis_of(body, alt_km))
}

impl Orbit {
    /// The body is well-formed and every altitude bound yields a
    /// representable axis and period.
    pub open spec fn wf(self) -> bool {
        &&& self.body.wf()
        &&& match self.altitude {
            Altitude::Single { value } => axis_ok(self.body, value as nat),
            Altitude::Range { min, max } => axis_ok(self.body, min as nat) && axis_ok(
                self.body,
                max as nat,
            ),
        }
    }
}

/// Computes the semi-major axis of an orbit at the given altitude.
pub fn semi_major_axis(body: &Body, alt_km: u64) -> (a: u64)
    requires
        body.wf(),
        axis_of(*body, alt_km as nat) <= AXIS_MAX,
    ensures
        a as nat == axis_of(*body, alt_km as nat),
        1 <= a <= AXIS_MAX,
{
    body.radius + alt_km * 1000
}

/// The Earth, as a specification value.
pub open spec fn earth_body() -> Body {
    Body { mass: EARTH_MASS, radius: EARTH_RADIUS }
}

/// Constructs the Earth.
pub fn earth() -> (b: Body)
    ensures
        b == earth_body(),
        b.wf(),
{
    Body { mass: EARTH_MASS, radius: EARTH_RADIUS }
}

/// The orbit is named `name`, sits at `alt` above the Earth, and is
/// well-formed.
pub open spec fn is_earth_orbit(o: Orbit, name: Seq<char>, alt: Altitude) -> bool {
    &&& o.name@ == name
    &&& o.altitude == alt
    &&& o.body == earth_body()
    &&& o.wf()
}

/// Any altitude up to `MAX_USER_ALTITUDE_KM` gives a representable Earth
/// orbit.
proof fn lemma_earth_axis_ok(alt_km: nat)
    requires
        alt_km <= MAX_USER_ALTITUDE_KM,
    ensures
        axis_ok(earth_body(), alt_km),
{
    assert(period_cond(PERIOD_MAX as nat, EARTH_MASS as nat, 50_006_378_100nat))
        by (nonlinear_arith);
    lemma_period_cond_axis_antitone(
        PERIOD_MAX as nat,
        EARTH_MASS as nat,
        axis_of(earth_body(), alt_km),
        50_006_378_100nat,
    );
}

/// Builds the orbits the report covers: the four fixed Earth bands
/// (VLEO, LEO, MEO, GEO), or — when an altitude override is supplied —
/// exactly one orbit named "User Defined" at that altitude, which
/// replaces the default set entirely.
pub fn build_orbits(altitude_km: Option<u64>) -> (orbits: Vec<Orbit>)
    requires
        altitude_km matches Some(v) ==> v <= MAX_USER_ALTITUDE_KM,
    ensures
        match altitude_km {
            Some(v) => orbits@.len() == 1 && is_earth_orbit(
                orbits@[0],
                "User Defined"@,
                Altitude::Single { value: v },
            ),
            None => orbits@.len() == 4 && is_earth_orbit(
                orbits@[0],
                "VLEO"@,
                Altitude::Range { min: 100, max: 450 },
            ) && is_earth_orbit(orbits@[1], "LEO"@, Altitude::Range { min: 450, max: 2000 })
                && is_earth_orbit(orbits@[2], "MEO"@, Altitude::Range { min: 2000, max: 36000 })
                && is_earth_orbit(orbits@[3], "GEO"@, Altitude::Single { value: 35786 }),
        },
{
    let body = earth();
    let mut orbits: Vec<Orbit> = Vec::new();
    match altitude_km {
        Some(value) => {
            proof {
                lemma_earth_axis_ok(value as nat);
            }
            orbits.push(Orbit { name: "User Defined", altitude: Altitude::Single { value }, body });
        },
        None => {
            proof {
                lemma_earth_axis_ok(100);
                lemma_earth_axis_ok(450);
                lemma_earth_axis_ok(2000);
                lemma_earth_axis_ok(36000);
                lemma_earth_axis_ok(35786);
            }
            orbits.push(
                Orbit { name: "VLEO", altitude: Altitude::Range { min: 100, max: 450 }, body },
            );
            orbits.push(
                Orbit { name: "LEO", altitude: Altitude::Range { min: 450, max: 2000 }, body },
            );
            orbits.push(
                Orbit { name: "MEO", altitude: Altitude::Range { min: 2000, max: 36000 }, body },
            );
            orbits.push(Orbit { name: "GEO", altitude: Altitude::Single { value: 35786 }, body });
        },
    }
    orbits
}

} // verus!
