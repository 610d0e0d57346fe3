use vstd::prelude::*;
use crate::decimal::{decimal_micros, is_sign, parse_decimal};
use crate::text::chars_of;

verus! {

/// A fraction as capture tags hold it.
#[derive(Clone, Copy, Debug, PartialEq, Eq, Structural)]
pub struct Rational {
    pub num: u32,
    pub denom: u32,
}

/// A point on the globe, each angle in millionths of a degree; north and east
/// are positive.
#[derive(Clone, Copy, Debug, PartialEq, Eq, Structural)]
pub struct Coordinates {
    pub latitude: i64,
    pub longitude: i64,
}

/// An angle in degrees, minutes and seconds, with the hemisphere as a sign.
#[derive(Clone, Copy, Debug, PartialEq, Eq, Structural)]
pub struct DecDegrees {
    pub d: Rational,
    pub m: Rational,
    pub s: Rational,
    pub is_positive: bool,
}

/// A point with the name of the place that lies there.
#[derive(Clone, Debug, PartialEq, Eq)]
pub struct Location {
    pub latitude: i64,
    pub longitude: i64,
    pub place: String,
}

impl DecDegrees {
    pub fn new(d: Rational, m: Rational, s: Rational, is_positive: bool) -> (r: DecDegrees)
        ensures
            r == (DecDegrees { d, m, s, is_positive }),
    {
        DecDegrees { d, m, s, is_positive }
    }

    /// Numerator of `degrees + minutes / 60 + seconds / 3600` over the common
    /// denominator `common_denominator`.
    pub open spec fn numerator(self) -> int {
        3600 * self.d.num * self.m.denom * self.s.denom + 60 * self.m.num * self.d.denom
            * self.s.denom + self.s.num * self.d.denom * self.m.denom
    }

    pub open spec fn common_denominator(self) -> int {
        3600 * self.d.denom * self.m.denom * self.s.denom
    }

    /// The angle in millionths of a degree: `degrees + minutes / 60 + seconds /
    /// 3600`, fractions of a millionth dropped, negated on the negative
    /// hemisphere. `None` where a denominator is zero or the angle is beyond the
    /// range of `i64`.
    pub open spec fn spec_to_scalar(self) -> Option<i64> {
        if self.common_denominator() == 0 {
            None
        } else {
            let magnitude = self.numerator() * 1_000_000 / self.common_denominator();
            if magnitude > i64::MAX {
                None
            } else if self.is_positive {
                Some(magnitude as i64)
            } else {
                Some((-magnitude) as i64)
            }
        }
    }

    /// Decimal degrees of the angle: see `spec_to_scalar`.
    pub fn to_scalar(&self) -> (r: Option<i64>)
        ensures
            r == self.spec_to_scalar(),
    {
        if self.d.denom == 0 || self.m.denom == 0 || self.s.denom == 0 {
            assert(self.common_denominator() == 0) by (nonlinear_arith)
                requires
                    self.d.denom == 0 || self.m.denom == 0 || self.s.denom == 0,
                    self.common_denominator() == 3600 * self.d.denom * self.m.denom
                        * self.s.denom,
            ;
            return None;
        }
        let dn = self.d.num as u128;
        let dd = self.d.denom as u128;
        let mn = self.m.num as u128;
        let md = self.m.denom as u128;
        let sn = self.s.num as u128;
        let sd = self.s.denom as u128;
        proof {
            lemma_product_of_three(dn as int, md as int, sd as int);
            lemma_product_of_three(mn as int, dd as int, sd as int);
            lemma_product_of_three(sn as int, dd as int, md as int);
            lemma_product_of_three(dd as int, md as int, sd as int);
        }
        assert(dd * md * sd > 0) by (nonlinear_arith)
            requires
                dd > 0,
                md > 0,
                sd > 0,
        ;
        let t1: u128 = dn * md * sd;
        let t2: u128 = mn * dd * sd;
        let t3: u128 = sn * dd * md;
        let t4: u128 = dd * md * sd;
        let n: u128 = 3600 * t1 + 60 * t2 + t3;
        let d: u128 = 3600 * t4;
        assert(n == self.numerator() && d == self.common_denominator()) by (nonlinear_arith)
            requires
                n == 3600 * (dn * md * sd) + 60 * (mn * dd * sd) + sn * dd * md,
                d == 3600 * (dd * md * sd),
                dn == self.d.num,
                dd == self.d.denom,
                mn == self.m.num,
                md == self.m.denom,
                sn == self.s.num,
                sd == self.s.denom,
                self.numerator() == 3600 * self.d.num * self.m.denom * self.s.denom + 60
                    * self.m.num * self.d.denom * self.s.denom + self.s.num * self.d.denom
                    * self.m.denom,
                self.common_denominator() == 3600 * self.d.denom * self.m.denom * self.s.denom,
        ;
        let q: u128 = n / d;
        let r: u128 = n % d;
        assert((n * 1_000_000) / (d as int) == q * 1_000_000 + (r * 1_000_000) / (d as int))
            by (nonlinear_arith)
            requires
                d > 0,
                q == n / d,
                r == n % d,
        ;
        if q > 9_223_372_036_854 {
            assert(q * 1_000_000 > i64::MAX);
            return None;
        }
        let magnitude: u128 = q * 1_000_000 + (r * 1_000_000) / d;
        if magnitude > i64::MAX as u128 {
            None
        } else if self.is_positive {
            Some(magnitude as i64)
        } else {
            Some(-(magnitude as i64))
        }
    }
}

/// A product of three numbers of 32 bits has 96 bits at most.
proof fn lemma_product_of_three(x: int, y: int, z: int)
    by (nonlinear_arith)
    requires
        0 <= x < 0x1_0000_0000,
        0 <= y < 0x1_0000_0000,
        0 <= z < 0x1_0000_0000,
    ensures
        0 <= x * y < 0x1_0000_0000_0000_0000,
        0 <= x * y * z < 0x1_0000_0000_0000_0000_0000_0000,
{
}

impl DecDegrees {
    /// The whole degrees, whole minutes and seconds of an angle given in
    /// millionths of a degree; the seconds are a number of millionths.
    pub open spec fn spec_from_scalar(value: i64) -> DecDegrees {
        let magnitude: int = if value >= 0 {
            value as int
        } else {
            -(value as int)
        };
        let fraction = magnitude % 1_000_000;
        let minutes = 60 * fraction / 1_000_000;
        DecDegrees {
            d: Rational { num: (magnitude / 1_000_000) as u32, denom: 1 },
            m: Rational { num: minutes as u32, denom: 1 },
            s: Rational { num: (3600 * fraction - 60_000_000 * minutes) as u32, denom: 1_000_000 },
            is_positive: value >= 0,
        }
    }

    /// Splits an angle in millionths of a degree into degrees, minutes and
    /// seconds. The angle must have fewer than 2^32 whole degrees.
    pub fn from_scalar(value: i64) -> (r: DecDegrees)
        requires
            -4_294_967_296_000_000 < value < 4_294_967_296_000_000,
        ensures
            r == Self::spec_from_scalar(value),
    {
        let magnitude: u64 = if value >= 0 {
            value as u64
        } else {
            (-value) as u64
        };
        let fraction: u64 = magnitude % 1_000_000;
        let minutes: u64 = 60 * fraction / 1_000_000;
        DecDegrees {
            d: Rational { num: (magnitude / 1_000_000) as u32, denom: 1 },
            m: Rational { num: minutes as u32, denom: 1 },
            s: Rational { num: (3600 * fraction - 60_000_000 * minutes) as u32, denom: 1_000_000 },
            is_positive: value >= 0,
        }
    }
}

/// An angle that was split into degrees, minutes and seconds is put together
/// to the same angle.
pub proof fn lemma_scalar_round_trip(value: i64)
    requires
        -4_294_967_296_000_000 < value < 4_294_967_296_000_000,
    ensures
        DecDegrees::spec_from_scalar(value).spec_to_scalar() == Some(value),
{
    let parts = DecDegrees::spec_from_scalar(value);
    let magnitude: int = if value >= 0 {
        value as int
    } else {
        -(value as int)
    };
    let fraction = magnitude % 1_000_000;
    let whole = magnitude / 1_000_000;
    let minutes = 60 * fraction / 1_000_000;
    assert(0 <= minutes < 60);
    assert(0 <= 3600 * fraction - 60_000_000 * minutes < 60_000_000);
    assert(parts.d.num == whole);
    assert(parts.m.num == minutes);
    assert(parts.s.num == 3600 * fraction - 60_000_000 * minutes);
    assert(parts.common_denominator() == 3_600_000_000) by (nonlinear_arith)
        requires
            parts.d.denom == 1,
            parts.m.denom == 1,
            parts.s.denom == 1_000_000,
            parts.common_denominator() == 3600 * parts.d.denom * parts.m.denom * parts.s.denom,
    ;
    assert(parts.numerator() == 3_600_000_000 * whole + 3600 * fraction) by (nonlinear_arith)
        requires
            parts.d.denom == 1,
            parts.m.denom == 1,
            parts.s.denom == 1_000_000,
            parts.d.num == whole,
            parts.m.num == minutes,
            parts.s.num == 3600 * fraction - 60_000_000 * minutes,
            parts.numerator() == 3600 * parts.d.num * parts.m.denom * parts.s.denom + 60
                * parts.m.num * parts.d.denom * parts.s.denom + parts.s.num * parts.d.denom
                * parts.m.denom,
    ;
    assert((3_600_000_000 * whole + 3600 * fraction) * 1_000_000 == 3_600_000_000 * (whole
        * 1_000_000 + fraction));
    assert((3_600_000_000 * (whole * 1_000_000 + fraction)) / 3_600_000_000 == whole * 1_000_000
        + fraction);
}

impl Coordinates {
    /// The point whose latitude and longitude are the two angles; `None` where
    /// either angle has no value.
    pub open spec fn spec_from_dec_degrees(lat: DecDegrees, lon: DecDegrees) -> Option<
        Coordinates,
    > {
        match (lat.spec_to_scalar(), lon.spec_to_scalar()) {
            (Some(latitude), Some(longitude)) => Some(Coordinates { latitude, longitude }),
            _ => None,
        }
    }

    pub fn from_dec_degrees(lat: &DecDegrees, lon: &DecDegrees) -> (r: Option<Coordinates>)
        ensures
            r == Self::spec_from_dec_degrees(*lat, *lon),
    {
        match (lat.to_scalar(), lon.to_scalar()) {
            (Some(latitude), Some(longitude)) => Some(Coordinates { latitude, longitude }),
            _ => None,
        }
    }
}

impl Location {
    pub fn new(latitude: i64, longitude: i64, place: String) -> (r: Location)
        ensures
            r.latitude == latitude,
            r.longitude == longitude,
            r.place == place,
    {
        Location { latitude, longitude, place }
    }

    /// The place at the point that two angles name; `None` where either angle
    /// has no value.
    pub fn from_dec_degrees(lat: &DecDegrees, lon: &DecDegrees, place: String) -> (r: Option<
        Location,
    >)
        ensures
            r is Some <==> Coordinates::spec_from_dec_degrees(*lat, *lon) is Some,
            r is Some ==> r->Some_0.place == place && Coordinates::spec_from_dec_degrees(
                *lat,
                *lon,
            ) == Some(
                Coordinates { latitude: r->Some_0.latitude, longitude: r->Some_0.longitude },
            ),
    {
        match Coordinates::from_dec_degrees(lat, lon) {
            Some(c) => Some(Location::new(c.latitude, c.longitude, place)),
            None => None,
        }
    }
}

/// Whether a character ends a number of a coordinate text.
pub open spec fn is_mark(c: char) -> bool {
    is_sign(c) || c == '/'
}

/// The first position at or after `from` that holds a sign or a slash; the
/// length of `s` where there is none.
pub open spec fn next_mark(s: Seq<char>, from: int) -> int
    decreases s.len() - from,
{
    if from < 0 || from >= s.len() {
        s.len() as int
    } else if is_mark(s[from]) {
        from
    } else {
        next_mark(s, from + 1)
    }
}

/// The point that a coordinate text names. The text is a signed decimal
/// latitude directly followed by a signed decimal longitude, both in degrees,
/// as in `+58.3938+015.5612/`. Whatever follows the longitude, from the next
/// sign or slash on, is not read.
pub open spec fn spec_gps_video(s: Seq<char>) -> Option<Coordinates> {
    if s.len() == 0 || !is_sign(s[0]) {
        None
    } else {
        let k = next_mark(s, 1);
        if k >= s.len() || !is_sign(s[k]) {
            None
        } else {
            let e = next_mark(s, k + 1);
            match (decimal_micros(s.subrange(0, k)), decimal_micros(s.subrange(k, e))) {
                (Some(latitude), Some(longitude)) => Some(Coordinates { latitude, longitude }),
                _ => None,
            }
        }
    }
}

/// The next mark lies at or after where the search starts, within the text.
proof fn lemma_next_mark(s: Seq<char>, from: int)
    requires
        0 <= from <= s.len(),
    ensures
        from <= next_mark(s, from) <= s.len(),
    decreases s.len() - from,
{
    if from < s.len() && !is_mark(s[from]) {
        lemma_next_mark(s, from + 1);
    }
}

fn find_mark(v: &Vec<char>, from: usize) -> (r: usize)
    requires
        from <= v.len(),
    ensures
        r == next_mark(v@, from as int),
        from <= r <= v.len(),
{
    let mut i: usize = from;
    while i < v.len() && !(v[i] == '+' || v[i] == '-' || v[i] == '/')
        invariant
            from <= i <= v.len(),
            next_mark(v@, from as int) == next_mark(v@, i as int),
        decreases v.len() - i,
    {
        i += 1;
    }
    i
}

/// Reads the point that a coordinate text of a video container names: see
/// `spec_gps_video`.
pub fn gps_video(coord: &str) -> (r: Option<Coordinates>)
    ensures
        r == spec_gps_video(coord@),
{
    let v = chars_of(coord);
    if v.len() == 0 || !(v[0] == '+' || v[0] == '-') {
        return None;
    }
    let k = find_mark(&v, 1);
    if k >= v.len() || !(v[k] == '+' || v[k] == '-') {
        return None;
    }
    let e = find_mark(&v, k + 1);
    match (parse_decimal(&v, 0, k), parse_decimal(&v, k, e)) {
        (Some(latitude), Some(longitude)) => Some(Coordinates { latitude, longitude }),
        _ => None,
    }
}

} // verus!
