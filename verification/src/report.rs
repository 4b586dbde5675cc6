//! Orbit report: the period, velocity and altitude strings of an orbit,
//! and the full textual report, line by line.
use crate::model::{axis_of, axis_ok, earth_body, semi_major_axis, Altitude, Body, Orbit};
use crate::physics::{circular_orbital_velocity_hundredths, orbital_period_seconds, spec_period,
    spec_velocity, PERIOD_MAX};
use crate::text::{days_hundredths, dec2_str, dec_str, hundredths_to_dec2, mins_hundredths,
    u64_to_dec};
use vstd::pervasive::unreached;
use vstd::prelude::*;
use vstd::string::StringExecFns;

verus! {

/// The separator line that brackets every block of the report.
pub const SEPARATOR: &'static str = "------------------------------------------------------";

/// The ceiling-rounded period of `body` at `alt_km`, in seconds.
fn checked_period(body: &Body, alt_km: u64) -> (p: u64)
    requires
        body.wf(),
        axis_ok(*body, alt_km as nat),
    ensures
        p as nat == spec_period(body.mass as nat, axis_of(*body, alt_km as nat)),
        p <= PERIOD_MAX,
{
    let a = semi_major_axis(body, alt_km);
    match orbital_period_seconds(body.mass, a) {
        Some(p) => p,
        None => unreached(),
    }
}

/// The velocity of `body` at `alt_km`, in hundredths of km/h.
fn velocity_at(body: &Body, alt_km: u64) -> (v: u64)
    requires
        body.wf(),
        axis_ok(*body, alt_km as nat),
    ensures
        v as nat == spec_velocity(body.mass as nat, axis_of(*body, alt_km as nat)),
{
    let a = semi_major_axis(body, alt_km);
    circular_orbital_velocity_hundredths(body.mass, a)
}

/// The period block for a single altitude: seconds, then minutes, then
/// days, all derived from the one ceiling-rounded seconds value `p`.
pub open spec fn period_single_seq(p: nat) -> Seq<char> {
    dec_str(p) + " seconds\n"@ + dec2_str(mins_hundredths(p)) + " minutes\n"@ + dec2_str(
        days_hundredths(p),
    ) + " days"@
}

/// The period block for an altitude band, each unit shown as min-max in
/// the order given.
pub open spec fn period_range_seq(pmin: nat, pmax: nat) -> Seq<char> {
    dec_str(pmin) + "-"@ + dec_str(pmax) + " seconds\n"@ + dec2_str(mins_hundredths(pmin)) + "-"@
        + dec2_str(mins_hundredths(pmax)) + " minutes \n"@ + dec2_str(days_hundredths(pmin)) + "-"@
        + dec2_str(days_hundredths(pmax)) + " days"@
}

/// What `get_period_string` returns.
pub open spec fn period_string_spec(o: Orbit) -> Seq<char> {
    match o.altitude {
        Altitude::Single { value } => period_single_seq(
            spec_period(o.body.mass as nat, axis_of(o.body, value as nat)),
        ),
        Altitude::Range { min, max } => period_range_seq(
            spec_period(o.body.mass as nat, axis_of(o.body, min as nat)),
            spec_period(o.body.mass as nat, axis_of(o.body, max as nat)),
        ),
    }
}

/// What `get_velocity_string` returns.
pub open spec fn velocity_string_spec(o: Orbit) -> Seq<char> {
    match o.altitude {
        Altitude::Single { value } => dec2_str(
            spec_velocity(o.body.mass as nat, axis_of(o.body, value as nat)),
        ) + " km/hr"@,
        Altitude::Range { min, max } => dec2_str(
            spec_velocity(o.body.mass as nat, axis_of(o.body, min as nat)),
        ) + "-"@ + dec2_str(spec_velocity(o.body.mass as nat, axis_of(o.body, max as nat)))
            + " km/hr"@,
    }
}

/// What `get_altitude_string` returns: the altitude descriptor in km.
pub open spec fn altitude_string_spec(o: Orbit) -> Seq<char> {
    match o.altitude {
        Altitude::Single { value } => dec_str(value as nat) + " km"@,
        Altitude::Range { min, max } => dec_str(min as nat) + "-"@ + dec_str(max as nat) + " km"@,
    }
}

impl Orbit {
    /// The orbital period, rendered in seconds, minutes and days; for a
    /// band, each unit as a min-max range.
    pub fn get_period_string(&self) -> (s: String)
        requires
            self.wf(),
        ensures
            s@ == period_string_spec(*self),
    {
        match self.altitude {
            Altitude::Single { value } => {
                let p = checked_period(&self.body, value);
                let mh: u64 = (p * 100 + 30) / 60;
                let dh: u64 = (p * 100 + 43200) / 86400;
                let mut s = u64_to_dec(p);
                s.append(" seconds\n");
                let m2 = hundredths_to_dec2(mh);
                s.append(m2.as_str());
                s.append(" minutes\n");
                let d2 = hundredths_to_dec2(dh);
                s.append(d2.as_str());
                s.append(" days");
                proof {
                    assert(s@ =~= period_string_spec(*self));
                }
                s
            },
            Altitude::Range { min, max } => {
                let pmin = checked_period(&self.body, min);
                let pmax = checked_period(&self.body, max);
                let mh_min: u64 = (pmin * 100 + 30) / 60;
                let mh_max: u64 = (pmax * 100 + 30) / 60;
                let dh_min: u64 = (pmin * 100 + 43200) / 86400;
                let dh_max: u64 = (pmax * 100 + 43200) / 86400;
                let mut s = u64_to_dec(pmin);
                s.append("-");
                let t = u64_to_dec(pmax);
                s.append(t.as_str());
                s.append(" seconds\n");
                let t = hundredths_to_dec2(mh_min);
                s.append(t.as_str());
                s.append("-");
                let t = hundredths_to_dec2(mh_max);
                s.append(t.as_str());
                s.append(" minutes \n");
                let t = hundredths_to_dec2(dh_min);
                s.append(t.as_str());
                s.append("-");
                let t = hundredths_to_dec2(dh_max);
                s.append(t.as_str());
                s.append(" days");
                proof {
                    assert(s@ =~= period_string_spec(*self));
                }
                s
            },
        }
    }

    /// The circular orbital velocity in km/h, two decimal places; for a
    /// band, as a min-max range.
    pub fn get_velocity_string(&self) -> (s: String)
        requires
            self.wf(),
        ensures
            s@ == velocity_string_spec(*self),
    {
        match self.altitude {
            Altitude::Single { value } => {
                let v = velocity_at(&self.body, value);
                let mut s = hundredths_to_dec2(v);
                s.append(" km/hr");
                proof {
                    assert(s@ =~= velocity_string_spec(*self));
                }
                s
            },
            Altitude::Range { min, max } => {
                let vmin = velocity_at(&self.body, min);
                let vmax = velocity_at(&self.body, max);
                let mut s = hundredths_to_dec2(vmin);
                s.append("-");
                let t = hundredths_to_dec2(vmax);
                s.append(t.as_str());
                s.append(" km/hr");
                proof {
                    assert(s@ =~= velocity_string_spec(*self));
                }
                s
            },
        }
    }

    /// The altitude descriptor: "<value> km" or "<min>-<max> km".
    pub fn get_altitude_string(&self) -> (s: String)
        ensures
            s@ == altitude_string_spec(*self),
    {
        match self.altitude {
            Altitude::Single { value } => {
                let mut s = u64_to_dec(value);
                s.append(" km");
                proof {
                    assert(s@ =~= altitude_string_spec(*self));
                }
                s
            },
            Altitude::Range { min, max } => {
                let mut s = u64_to_dec(min);
                s.append("-");
                let t = u64_to_dec(max);
                s.append(t.as_str());
                s.append(" km");
                proof {
                    assert(s@ =~= altitude_string_spec(*self));
                }
                s
            },
        }
    }
}

/// The constants block and the heading of the periods block.
pub open spec fn header_lines() -> Seq<Seq<char>> {
    seq![
        ""@,
        "Constants"@,
        SEPARATOR@,
        "Pi: 3.14159"@,
        "Gravitational Constant: +6.6743e-11 N*m^2*kg^-2"@,
        "Earth Mass: +5.9722e24 kg"@,
        "Earth Radius: +6.3781e6 m"@,
        SEPARATOR@,
        ""@,
        ""@,
        "Orbital Periods"@,
        SEPARATOR@,
        ""@,
    ]
}

/// The heading of the velocities block.
pub open spec fn velocity_header_lines() -> Seq<Seq<char>> {
    seq![SEPARATOR@, ""@, ""@, "Orbital Velocities"@, SEPARATOR@, ""@]
}

/// The closing lines of the report.
pub open spec fn footer_lines() -> Seq<Seq<char>> {
    seq![SEPARATOR@, ""@]
}

/// One entry of the periods block: name, altitude descriptor, period.
pub open spec fn period_entry_seq(o: Orbit) -> Seq<char> {
    o.name@ + " ("@ + altitude_string_spec(o) + ") \n"@ + period_string_spec(o) + "\n"@
}

/// One entry of the velocities block.
pub open spec fn velocity_entry_seq(o: Orbit) -> Seq<char> {
    o.name@ + " ("@ + altitude_string_spec(o) + ") \n"@ + velocity_string_spec(o) + "\n"@
}

/// Builds one report entry from its parts.
fn build_entry(o: &Orbit, tail: String) -> (e: String)
    ensures
        e@ == o.name@ + " ("@ + altitude_string_spec(*o) + ") \n"@ + tail@ + "\n"@,
{
    let mut e = String::from_str(o.name);
    e.append(" (");
    let alt_s = o.get_altitude_string();
    e.append(alt_s.as_str());
    e.append(") \n");
    e.append(tail.as_str());
    e.append("\n");
    proof {
        assert(e@ =~= o.name@ + " ("@ + altitude_string_spec(*o) + ") \n"@ + tail@ + "\n"@);
    }
    e
}

/// Assembles the whole Earth report as a sequence of strings, one per
/// print statement: the constants block, then one period entry per
/// orbit, then one velocity entry per orbit, each section bracketed by
/// separator lines.
pub fn earth_report(orbits: &Vec<Orbit>) -> (lines: Vec<String>)
    requires
        forall|i: int|
            0 <= i < orbits@.len() ==> (#[trigger] orbits@[i]).wf() && orbits@[i].body
                == earth_body(),
    ensures
        lines@.len() == 21 + 2 * orbits@.len(),
        forall|k: int| 0 <= k < 13 ==> (#[trigger] lines@[k])@ == header_lines()[k],
        forall|j: int|
            0 <= j < orbits@.len() ==> (#[trigger] lines@[13 + j])@ == period_entry_seq(
                orbits@[j],
            ),
        forall|k: int|
            0 <= k < 6 ==> (#[trigger] lines@[13 + orbits@.len() + k])@ == velocity_header_lines()[k],
        forall|j: int|
            0 <= j < orbits@.len() ==> (#[trigger] lines@[19 + orbits@.len() + j])@
                == velocity_entry_seq(orbits@[j]),
        forall|k: int|
            0 <= k < 2 ==> (#[trigger] lines@[19 + 2 * orbits@.len() + k])@ == footer_lines()[k],
{
    let n = orbits.len();
    let mut lines: Vec<String> = Vec::new();
    lines.push(String::from_str(""));
    lines.push(String::from_str("Constants"));
    lines.push(String::from_str(SEPARATOR));
    lines.push(String::from_str("Pi: 3.14159"));
    lines.push(String::from_str("Gravitational Constant: +6.6743e-11 N*m^2*kg^-2"));
    lines.push(String::from_str("Earth Mass: +5.9722e24 kg"));
    lines.push(String::from_str("Earth Radius: +6.3781e6 m"));
    lines.push(String::from_str(SEPARATOR));
    lines.push(String::from_str(""));
    lines.push(String::from_str(""));
    lines.push(String::from_str("Orbital Periods"));
    lines.push(String::from_str(SEPARATOR));
    lines.push(String::from_str(""));
    let mut i: usize = 0;
    while i < n
        invariant
            i <= n,
            n == orbits@.len(),
            forall|t: int|
                0 <= t < orbits@.len() ==> (#[trigger] orbits@[t]).wf() && orbits@[t].body
                    == earth_body(),
            lines@.len() == 13 + i,
            forall|k: int| 0 <= k < 13 ==> (#[trigger] lines@[k])@ == header_lines()[k],
            forall|j: int|
                0 <= j < i ==> (#[trigger] lines@[13 + j])@ == period_entry_seq(orbits@[j]),
        decreases n - i,
    {
        let o = orbits[i];
        let ps = o.get_period_string();
        let e = build_entry(&o, ps);
        proof {
            assert(e@ =~= period_entry_seq(orbits@[i as int]));
        }
        lines.push(e);
        i += 1;
    }
    lines.push(String::from_str(SEPARATOR));
    lines.push(String::from_str(""));
    lines.push(String::from_str(""));
    lines.push(String::from_str("Orbital Velocities"));
    lines.push(String::from_str(SEPARATOR));
    lines.push(String::from_str(""));
    let mut i: usize = 0;
    while i < n
        invariant
            i <= n,
            n == orbits@.len(),
            forall|t: int|
                0 <= t < orbits@.len() ==> (#[trigger] orbits@[t]).wf() && orbits@[t].body
                    == earth_body(),
            lines@.len() == 19 + n + i,
            forall|k: int| 0 <= k < 13 ==> (#[trigger] lines@[k])@ == header_lines()[k],
            forall|j: int|
                0 <= j < n ==> (#[trigger] lines@[13 + j])@ == period_entry_seq(orbits@[j]),
            forall|k: int|
                0 <= k < 6 ==> (#[trigger] lines@[13 + n + k])@ == velocity_header_lines()[k],
            forall|j: int|
                0 <= j < i ==> (#[trigger] lines@[19 + n + j])@ == velocity_entry_seq(orbits@[j]),
        decreases n - i,
    {
        let o = orbits[i];
        let vs = o.get_velocity_string();
        let e = build_entry(&o, vs);
        proof {
            assert(e@ =~= velocity_entry_seq(orbits@[i as int]));
        }
        lines.push(e);
        i += 1;
    }
    lines.push(String::from_str(SEPARATOR));
    lines.push(String::from_str(""));
    lines
}

} // verus!
