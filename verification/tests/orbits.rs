use orbits::model::{build_orbits, earth, semi_major_axis, Altitude};
use orbits::physics::{circular_orbital_velocity_hundredths, orbital_period_seconds};
use orbits::report::{earth_report, SEPARATOR};
use orbits::text::{hundredths_to_dec2, u64_to_dec};

const EARTH_MASS: u128 = 5_972_200_000_000_000_000_000_000;

#[test]
fn geo_period_is_about_one_sidereal_day() {
    let body = earth();
    let a = semi_major_axis(&body, 35786);
    assert_eq!(a, 42_164_100);
    // ceil(2 * 3.14159 * sqrt(a^3 / (G * M))) for the GEO orbit: one
    // sidereal day, about 86164 seconds.
    assert_eq!(orbital_period_seconds(EARTH_MASS, a), Some(86164));
}

#[test]
fn vleo_band_period_grows_and_velocity_falls() {
    let body = earth();
    let a_min = semi_major_axis(&body, 100);
    let a_max = semi_major_axis(&body, 450);
    let p_min = orbital_period_seconds(EARTH_MASS, a_min).unwrap();
    let p_max = orbital_period_seconds(EARTH_MASS, a_max).unwrap();
    assert_eq!(p_min, 5189);
    assert_eq!(p_max, 5616);
    assert!(p_min < p_max);
    let v_min = circular_orbital_velocity_hundredths(EARTH_MASS, a_min);
    let v_max = circular_orbital_velocity_hundredths(EARTH_MASS, a_max);
    assert_eq!(v_min, 2_823_896);
    assert_eq!(v_max, 2_750_569);
    assert!(v_min > v_max);
}

#[test]
fn user_defined_altitude_replaces_default_set() {
    let orbits = build_orbits(Some(500));
    assert_eq!(orbits.len(), 1);
    assert_eq!(orbits[0].name, "User Defined");
    assert_eq!(orbits[0].altitude, Altitude::Single { value: 500 });
    assert_eq!(orbits[0].body.mass, EARTH_MASS);
    assert_eq!(orbits[0].body.radius, 6_378_100);
}

#[test]
fn default_set_has_the_four_earth_bands() {
    let orbits = build_orbits(None);
    assert_eq!(orbits.len(), 4);
    assert_eq!(orbits[0].name, "VLEO");
    assert_eq!(orbits[0].altitude, Altitude::Range { min: 100, max: 450 });
    assert_eq!(orbits[1].name, "LEO");
    assert_eq!(orbits[1].altitude, Altitude::Range { min: 450, max: 2000 });
    assert_eq!(orbits[2].name, "MEO");
    assert_eq!(orbits[2].altitude, Altitude::Range { min: 2000, max: 36000 });
    assert_eq!(orbits[3].name, "GEO");
    assert_eq!(orbits[3].altitude, Altitude::Single { value: 35786 });
    for o in &orbits {
        assert_eq!(o.body.mass, EARTH_MASS);
        assert_eq!(o.body.radius, 6_378_100);
    }
}

#[test]
fn geo_period_string_derives_minutes_and_days_from_seconds() {
    let orbits = build_orbits(None);
    let geo = orbits[3];
    // 86164 / 60 = 1436.0666... -> 1436.07; 86164 / 86400 = 0.99727... -> 1.00
    assert_eq!(
        geo.get_period_string(),
        "86164 seconds\n1436.07 minutes\n1.00 days"
    );
}

#[test]
fn vleo_period_string_shows_min_max_per_unit() {
    let orbits = build_orbits(None);
    let vleo = orbits[0];
    assert_eq!(
        vleo.get_period_string(),
        "5189-5616 seconds\n86.48-93.60 minutes \n0.06-0.07 days"
    );
}

#[test]
fn geo_velocity_string_in_kmh() {
    let orbits = build_orbits(None);
    let geo = orbits[3];
    assert_eq!(geo.get_velocity_string(), "11068.81 km/hr");
}

#[test]
fn vleo_velocity_string_shows_min_max_in_kmh() {
    let orbits = build_orbits(None);
    let vleo = orbits[0];
    assert_eq!(vleo.get_velocity_string(), "28238.96-27505.69 km/hr");
}

#[test]
fn altitude_strings() {
    let orbits = build_orbits(None);
    assert_eq!(orbits[0].get_altitude_string(), "100-450 km");
    assert_eq!(orbits[3].get_altitude_string(), "35786 km");
}

#[test]
fn decimal_rendering() {
    assert_eq!(u64_to_dec(0), "0");
    assert_eq!(u64_to_dec(7), "7");
    assert_eq!(u64_to_dec(10), "10");
    assert_eq!(u64_to_dec(86164), "86164");
    assert_eq!(hundredths_to_dec2(0), "0.00");
    assert_eq!(hundredths_to_dec2(5), "0.05");
    assert_eq!(hundredths_to_dec2(100), "1.00");
    assert_eq!(hundredths_to_dec2(143607), "1436.07");
}

#[test]
fn default_report_layout() {
    let orbits = build_orbits(None);
    let lines = earth_report(&orbits);
    assert_eq!(lines.len(), 29);
    assert_eq!(lines[0], "");
    assert_eq!(lines[1], "Constants");
    assert_eq!(lines[2], SEPARATOR);
    assert_eq!(lines[3], "Pi: 3.14159");
    assert_eq!(lines[4], "Gravitational Constant: +6.6743e-11 N*m^2*kg^-2");
    assert_eq!(lines[5], "Earth Mass: +5.9722e24 kg");
    assert_eq!(lines[6], "Earth Radius: +6.3781e6 m");
    assert_eq!(lines[7], SEPARATOR);
    assert_eq!(lines[10], "Orbital Periods");
    assert_eq!(
        lines[13],
        "VLEO (100-450 km) \n5189-5616 seconds\n86.48-93.60 minutes \n0.06-0.07 days\n"
    );
    assert_eq!(
        lines[16],
        "GEO (35786 km) \n86164 seconds\n1436.07 minutes\n1.00 days\n"
    );
    assert_eq!(lines[17], SEPARATOR);
    assert_eq!(lines[20], "Orbital Velocities");
    assert_eq!(lines[21], SEPARATOR);
    assert_eq!(lines[22], "");
    assert_eq!(
        lines[23],
        "VLEO (100-450 km) \n28238.96-27505.69 km/hr\n"
    );
    assert_eq!(lines[26], "GEO (35786 km) \n11068.81 km/hr\n");
    assert_eq!(lines[27], SEPARATOR);
    assert_eq!(lines[28], "");
}

#[test]
fn user_defined_report_has_one_entry_per_block() {
    let orbits = build_orbits(Some(500));
    let lines = earth_report(&orbits);
    assert_eq!(lines.len(), 23);
    assert_eq!(
        lines[13],
        "User Defined (500 km) \n5677 seconds\n94.62 minutes\n0.07 days\n"
    );
    assert_eq!(lines[14], SEPARATOR);
    assert_eq!(lines[17], "Orbital Velocities");
    assert_eq!(lines[20], "User Defined (500 km) \n27405.53 km/hr\n");
    assert_eq!(lines[21], SEPARATOR);
    assert_eq!(lines[22], "");
}

#[test]
fn period_not_representable_for_tiny_mass() {
    // A 1 kg "body" with a large orbit: the period exceeds the supported
    // 2^32 - 1 seconds, so no period is reported.
    assert_eq!(orbital_period_seconds(1, 1_000_000_000_000), None);
}
