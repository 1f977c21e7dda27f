//! Coordinates: how a file writes them, positions made of two of them, and
//! the check that a position lies on the globe.
//!
//! A coordinate is a whole number of billionths of a degree, north and east
//! positive.
use super::error::Error;
use super::SectorResult;
use crate::number::{
    all_digits, decimal, digits_value, lemma_decimal_bound, lemma_padded_bound, natural, padded,
    parse_decimal, parse_digits, parse_fraction, pow10,
};
use crate::text::{chars, fields, split};
use vstd::prelude::*;

verus! {

/// One degree.
pub const DEGREE: i64 = 1_000_000_000;

/// The largest latitude.
pub const LATITUDE_MAX: i64 = 90_000_000_000;

/// The largest longitude.
pub const LONGITUDE_MAX: i64 = 180_000_000_000;

/// A full turn.
pub const FULL_TURN: i64 = 360_000_000_000;

/// The largest magnitude that a coordinate can be written with.
pub const COORDINATE_MAX: i64 = 4_367_743_129_721_110_833;

pub open spec fn is_hemisphere(c: char) -> bool {
    c == 'N' || c == 'S' || c == 'E' || c == 'W' || c == 'n' || c == 's' || c == 'e' || c == 'w'
}

/// North and east count up, south and west count down.
pub open spec fn is_negative_hemisphere(c: char) -> bool {
    c == 'S' || c == 'W' || c == 's' || c == 'w'
}

/// The magnitude of a coordinate written as degrees, minutes, seconds and a
/// decimal fraction of a second, with a point between them. Of the fraction
/// the first three places count. Thousandths of a second are turned into
/// billionths of a degree, rounded towards zero.
pub open spec fn sexagesimal(s: Seq<char>) -> Option<nat> {
    let g = fields(s, '.');
    if g.len() == 4 && natural(g[0], u32::MAX as nat) is Some && natural(g[1], u32::MAX as nat)
        is Some && natural(g[2], u32::MAX as nat) is Some && g[3].len() > 0 && all_digits(g[3]) {
        let thousandths = digits_value(g[0]) * 3_600_000 + digits_value(g[1]) * 60_000
            + digits_value(g[2]) * 1_000 + digits_value(padded(g[3], 3));
        Some(thousandths * 2_500 / 9)
    } else {
        None
    }
}

/// The coordinate that a token writes: after the letter of a hemisphere,
/// degrees, minutes and seconds as in [`sexagesimal`]; without such a
/// letter, a decimal number of degrees.
pub open spec fn coordinate(s: Seq<char>) -> Option<int> {
    if s.len() > 0 && is_hemisphere(s[0]) {
        match sexagesimal(s.skip(1)) {
            Some(v) => Some(
                if is_negative_hemisphere(s[0]) {
                    -(v as int)
                } else {
                    v as int
                },
            ),
            None => None,
        }
    } else {
        decimal(s)
    }
}

/// No coordinate is written with a magnitude beyond [`COORDINATE_MAX`].
pub proof fn lemma_coordinate_bound(s: Seq<char>)
    requires
        coordinate(s) is Some,
    ensures
        -COORDINATE_MAX <= coordinate(s)->0 <= COORDINATE_MAX,
{
    if s.len() > 0 && is_hemisphere(s[0]) {
        let g = fields(s.skip(1), '.');
        lemma_padded_bound(g[3], 3);
        reveal_with_fuel(pow10, 5);
    } else {
        lemma_decimal_bound(s);
    }
}

fn parse_sexagesimal(s: &[char]) -> (r: Option<i64>)
    ensures
        r is Some <==> sexagesimal(s@) is Some,
        r is Some ==> r->0 == sexagesimal(s@)->0 && 0 <= r->0 <= COORDINATE_MAX,
{
    let g = split(s, '.');
    if g.len() != 4 {
        return None;
    }
    let degrees = match parse_digits(g[0], u32::MAX) {
        Some(v) => v,
        None => {
            return None;
        },
    };
    let minutes = match parse_digits(g[1], u32::MAX) {
        Some(v) => v,
        None => {
            return None;
        },
    };
    let seconds = match parse_digits(g[2], u32::MAX) {
        Some(v) => v,
        None => {
            return None;
        },
    };
    if g[3].len() == 0 {
        return None;
    }
    let fraction = match parse_fraction(g[3], 3) {
        Some(v) => v,
        None => {
            return None;
        },
    };
    proof {
        reveal_with_fuel(pow10, 5);
    }
    let thousandths: u128 = (degrees as u128) * 3_600_000 + (minutes as u128) * 60_000 + (
    seconds as u128) * 1_000 + fraction as u128;
    Some((thousandths * 2_500 / 9) as i64)
}

/// Reads a coordinate from a token.
pub fn parse_coordinate(s: &[char]) -> (r: Option<i64>)
    ensures
        r is Some <==> coordinate(s@) is Some,
        r is Some ==> r->0 == coordinate(s@)->0 && -COORDINATE_MAX <= r->0 <= COORDINATE_MAX,
{
    if s.len() > 0 && (s[0] == 'N' || s[0] == 'S' || s[0] == 'E' || s[0] == 'W' || s[0] == 'n'
        || s[0] == 's' || s[0] == 'e' || s[0] == 'w') {
        let negative = s[0] == 'S' || s[0] == 'W' || s[0] == 's' || s[0] == 'w';
        match parse_sexagesimal(vstd::slice::slice_subrange(s, 1, s.len())) {
            Some(v) => Some(
                if negative {
                    -v
                } else {
                    v
                },
            ),
            None => None,
        }
    } else {
        parse_decimal(s)
    }
}

/// Reads a coordinate from a token.
pub fn coord_from_es(value: &str) -> (r: Option<i64>)
    ensures
        r is Some <==> coordinate(value@) is Some,
        r is Some ==> r->0 == coordinate(value@)->0,
{
    let c = chars(value);
    parse_coordinate(c.as_slice())
}

/// `v`, held to the range of `i64`: beyond it, the nearest end of the range.
pub open spec fn clamped(v: int) -> int {
    if v > i64::MAX {
        i64::MAX as int
    } else if v < i64::MIN {
        i64::MIN as int
    } else {
        v
    }
}

/// Adds without leaving the range of `i64`: a sum beyond it is the nearest
/// end of the range.
pub fn add_clamped(a: i64, b: i64) -> (r: i64)
    ensures
        r == clamped(a + b),
{
    let sum: i128 = a as i128 + b as i128;
    if sum > i64::MAX as i128 {
        i64::MAX
    } else if sum < i64::MIN as i128 {
        i64::MIN
    } else {
        sum as i64
    }
}

/// Subtracts without leaving the range of `i64`.
pub fn sub_clamped(a: i64, b: i64) -> (r: i64)
    ensures
        r == clamped(a - b),
{
    let difference: i128 = a as i128 - b as i128;
    if difference > i64::MAX as i128 {
        i64::MAX
    } else if difference < i64::MIN as i128 {
        i64::MIN
    } else {
        difference as i64
    }
}

/// A latitude and a longitude as they were read: either may lie off the
/// globe.
#[derive(Debug, Clone, Copy, PartialEq, Eq, Structural)]
pub struct Position {
    pub lat: i64,
    pub lon: i64,
}

impl Position {
    pub fn new(lat: i64, lon: i64) -> (r: Position)
        ensures
            r == (Position { lat, lon }),
    {
        Position { lat, lon }
    }

    /// The position that two tokens write, or the reason why they write
    /// none.
    pub open spec fn written(lat: Seq<char>, lon: Seq<char>) -> Option<Position> {
        if coordinate(lat) is Some && coordinate(lon) is Some {
            Some(Position { lat: coordinate(lat)->0 as i64, lon: coordinate(lon)->0 as i64 })
        } else {
            None
        }
    }

    /// Reads a position from the tokens of its latitude and longitude.
    pub fn from_tokens(lat: &[char], lon: &[char]) -> (r: SectorResult<Position>)
        ensures
            match Self::written(lat@, lon@) {
                Some(p) => r == Ok::<Position, Error>(p),
                None => r == Err::<Position, Error>(Error::InvalidCoordinate),
            },
    {
        let lat = match parse_coordinate(lat) {
            Some(v) => v,
            None => {
                return Err(Error::InvalidCoordinate);
            },
        };
        let lon = match parse_coordinate(lon) {
            Some(v) => v,
            None => {
                return Err(Error::InvalidCoordinate);
            },
        };
        Ok(Position { lat, lon })
    }

    /// Reads a position from the tokens of its latitude and longitude.
    pub fn try_new_from_es(lat: &str, lon: &str) -> (r: SectorResult<Position>)
        ensures
            match Self::written(lat@, lon@) {
                Some(p) => r == Ok::<Position, Error>(p),
                None => r == Err::<Position, Error>(Error::InvalidCoordinate),
            },
    {
        let lat = chars(lat);
        let lon = chars(lon);
        Self::from_tokens(lat.as_slice(), lon.as_slice())
    }

    /// The position moved east by `dx` and north by `dy`.
    pub open spec fn shifted(self, dx: i64, dy: i64) -> Position {
        Position { lat: clamped(self.lat + dy) as i64, lon: clamped(self.lon + dx) as i64 }
    }

    /// Moves the position east by `dx` and north by `dy`.
    pub fn apply_offset(self, dx: i64, dy: i64) -> (r: Position)
        ensures
            r == self.shifted(dx, dy),
    {
        Position { lat: add_clamped(self.lat, dy), lon: add_clamped(self.lon, dx) }
    }

    /// Whether the position lies on the globe.
    pub open spec fn on_globe(self) -> bool {
        -LATITUDE_MAX <= self.lat <= LATITUDE_MAX && -LONGITUDE_MAX <= self.lon <= LONGITUDE_MAX
    }

    /// Checks that the position lies on the globe.
    pub fn validate(self) -> (r: SectorResult<ValidPosition>)
        ensures
            self.on_globe() ==> r is Ok && r->Ok_0@ == self,
            !self.on_globe() ==> r == Err::<ValidPosition, Error>(Error::InvalidPosition),
    {
        if -LATITUDE_MAX <= self.lat && self.lat <= LATITUDE_MAX && -LONGITUDE_MAX <= self.lon
            && self.lon <= LONGITUDE_MAX {
            Ok(ValidPosition { lat: self.lat, lon: self.lon })
        } else {
            Err(Error::InvalidPosition)
        }
    }
}

/// A position that lies on the globe. Only [`Position::validate`] makes one.
#[derive(Debug, Clone, Copy, PartialEq, Eq)]
pub struct ValidPosition {
    lat: i64,
    lon: i64,
}

impl View for ValidPosition {
    type V = Position;

    closed spec fn view(&self) -> Position {
        Position { lat: self.lat, lon: self.lon }
    }
}

impl DeepView for ValidPosition {
    type V = Position;

    open spec fn deep_view(&self) -> Position {
        self@
    }
}

impl ValidPosition {
    #[verifier::type_invariant]
    spec fn on_globe(self) -> bool {
        -LATITUDE_MAX <= self.lat <= LATITUDE_MAX && -LONGITUDE_MAX <= self.lon <= LONGITUDE_MAX
    }

    pub fn lat(&self) -> (r: i64)
        ensures
            r == self@.lat,
            -LATITUDE_MAX <= r <= LATITUDE_MAX,
    {
        proof {
            use_type_invariant(self);
        }
        self.lat
    }

    pub fn lon(&self) -> (r: i64)
        ensures
            r == self@.lon,
            -LONGITUDE_MAX <= r <= LONGITUDE_MAX,
    {
        proof {
            use_type_invariant(self);
        }
        self.lon
    }

    /// The same place as a position that is yet to be checked.
    pub fn unvalidated(&self) -> (r: Position)
        ensures
            r == self@,
            r.on_globe(),
    {
        proof {
            use_type_invariant(self);
        }
        Position { lat: self.lat, lon: self.lon }
    }
}

/// A direction in billionths of a degree, from north through east, at least
/// 0 and less than a full turn.
#[derive(Debug, Clone, Copy, PartialEq, Eq)]
pub struct Heading {
    value: i64,
}

impl View for Heading {
    type V = int;

    closed spec fn view(&self) -> int {
        self.value as int
    }
}

impl Heading {
    #[verifier::type_invariant]
    spec fn within_turn(self) -> bool {
        0 <= self.value < FULL_TURN
    }

    /// The direction `value`, with whole turns taken out of it or added to
    /// it.
    pub fn new(value: i64) -> (r: Heading)
        ensures
            r@ == value as int % (FULL_TURN as int),
    {
        if value >= 0 {
            Heading { value: value % FULL_TURN }
        } else {
            Heading { value: FULL_TURN - 1 - ((-(value + 1)) % FULL_TURN) }
        }
    }

    pub fn value(&self) -> (r: i64)
        ensures
            r == self@,
            0 <= r < FULL_TURN,
    {
        proof {
            use_type_invariant(self);
        }
        self.value
    }
}

} // verus!
