//! Runways: how they are identified, and the lines that describe them.
use super::{handled, PartialSector, PartialSectorModel};
use crate::loaders::euroscope::error::Error;
use crate::loaders::euroscope::position::{Heading, Position, FULL_TURN};
use crate::loaders::euroscope::waypoint::{
    airport_names, AirportModel, RunwayEnd, RunwayEndModel, RunwayModifier, RunwayStrip,
    RunwayStripModel,
};
use crate::loaders::euroscope::SectorResult;
use crate::number::{decimal, digit_of, is_digit, parse_decimal, parse_unsigned, unsigned};
use crate::text::{chars, find, index_of, names_of, split_whitespace, string, words};
use vstd::prelude::*;

verus! {

/// The letters that may follow a runway's number.
pub open spec fn is_modifier_letter(c: char) -> bool {
    c == 'L' || c == 'R' || c == 'C' || c == 'G'
}

/// What the last character of a runway's identifier says of the runway.
pub open spec fn runway_modifier(s: Seq<char>) -> RunwayModifier {
    if s.len() == 0 {
        RunwayModifier::Unmarked
    } else if s.last() == 'L' {
        RunwayModifier::Left
    } else if s.last() == 'C' {
        RunwayModifier::Centre
    } else if s.last() == 'R' {
        RunwayModifier::Right
    } else if s.last() == 'G' {
        RunwayModifier::Grass
    } else {
        RunwayModifier::Unmarked
    }
}

/// A runway's identifier without the modifier letters at its end.
pub open spec fn runway_number_text(s: Seq<char>) -> Seq<char>
    decreases s.len(),
{
    if s.len() > 0 && is_modifier_letter(s.last()) {
        runway_number_text(s.drop_last())
    } else {
        s
    }
}

/// The number and the modifier that a runway's identifier writes. The number
/// is written with digits, is at most 36, and 0 stands for 36.
pub open spec fn runway_identifier(s: Seq<char>) -> Option<(u8, RunwayModifier)> {
    match unsigned(runway_number_text(s), 36) {
        Some(n) => Some(
            (
                if n == 0 {
                    36u8
                } else {
                    n as u8
                },
                runway_modifier(s),
            ),
        ),
        None => None,
    }
}

/// Reads a runway's identifier.
pub fn read_runway_identifier(value: &[char]) -> (r: SectorResult<(u8, RunwayModifier)>)
    ensures
        match runway_identifier(value@) {
            Some(id) => r == Ok::<(u8, RunwayModifier), Error>(id),
            None => r == Err::<(u8, RunwayModifier), Error>(Error::InvalidRunway),
        },
        r is Ok ==> 1 <= r->Ok_0.0 <= 36,
{
    let n = value.len();
    let modifier = if n == 0 {
        RunwayModifier::Unmarked
    } else if value[n - 1] == 'L' {
        RunwayModifier::Left
    } else if value[n - 1] == 'C' {
        RunwayModifier::Centre
    } else if value[n - 1] == 'R' {
        RunwayModifier::Right
    } else if value[n - 1] == 'G' {
        RunwayModifier::Grass
    } else {
        RunwayModifier::Unmarked
    };
    let mut end: usize = n;
    assert(value@.take(end as int) =~= value@);
    while end > 0 && (value[end - 1] == 'L' || value[end - 1] == 'R' || value[end - 1] == 'C'
        || value[end - 1] == 'G')
        invariant
            end <= value.len(),
            runway_number_text(value@.take(end as int)) == runway_number_text(value@),
        decreases end,
    {
        assert(value@.take(end as int).drop_last() =~= value@.take(end - 1));
        end -= 1;
    }
    let digits = vstd::slice::slice_subrange(value, 0, end);
    match parse_unsigned(digits, 36) {
        Some(number) => Ok(
            (
                if number == 0 {
                    36
                } else {
                    number as u8
                },
                modifier,
            ),
        ),
        None => Err(Error::InvalidRunway),
    }
}

/// Reads a runway's identifier: its number, then optionally one of the
/// letters `L`, `C`, `R` and `G`.
pub fn parse_runway_identifier(value: &str) -> (r: SectorResult<(u8, RunwayModifier)>)
    ensures
        match runway_identifier(value@) {
            Some(id) => r == Ok::<(u8, RunwayModifier), Error>(id),
            None => r == Err::<(u8, RunwayModifier), Error>(Error::InvalidRunway),
        },
        r is Ok ==> 1 <= r->Ok_0.0 <= 36,
{
    let c = chars(value);
    read_runway_identifier(c.as_slice())
}

/// The identifier made of two digits and, optionally, one modifier letter.
pub open spec fn two_digit_identifier(tens: char, ones: char, letter: Option<char>) -> Seq<char> {
    match letter {
        Some(l) => seq![tens, ones, l],
        None => seq![tens, ones],
    }
}

/// Two digits that write a number up to 36, with or without a modifier
/// letter behind them, are read as that number, 36 where they write 0, and
/// as the modifier that the letter stands for. Two digits that write more
/// than 36 are no runway.
pub proof fn law_runway_identifier(tens: char, ones: char, letter: Option<char>)
    requires
        is_digit(tens),
        is_digit(ones),
        letter is Some ==> is_modifier_letter(letter->0),
    ensures
        ({
            let s = two_digit_identifier(tens, ones, letter);
            let n = digit_of(tens) * 10 + digit_of(ones);
            let modifier = match letter {
                Some(l) => if l == 'L' {
                    RunwayModifier::Left
                } else if l == 'C' {
                    RunwayModifier::Centre
                } else if l == 'R' {
                    RunwayModifier::Right
                } else {
                    RunwayModifier::Grass
                },
                None => RunwayModifier::Unmarked,
            };
            &&& n > 36 ==> runway_identifier(s) is None
            &&& n == 0 ==> runway_identifier(s) == Some((36u8, modifier))
            &&& 1 <= n <= 36 ==> runway_identifier(s) == Some((n as u8, modifier))
        }),
{
    let s = two_digit_identifier(tens, ones, letter);
    let d = seq![tens, ones];
    assert(runway_number_text(d) == d);
    if letter is Some {
        assert(s.drop_last() =~= d);
    }
    reveal_with_fuel(crate::number::digits_value, 3);
}

/// A runway between two thresholds, the end with the lower number first.
pub open spec fn runway_strip(
    a: (u8, RunwayModifier),
    b: (u8, RunwayModifier),
    heading_a: int,
    heading_b: int,
    position_a: Position,
    position_b: Position,
) -> RunwayStripModel {
    let end_a = RunwayEndModel {
        number: a.0,
        td_threshold_pos: position_a,
        se_threshold_pos: position_b,
        modifier: a.1,
        magnetic_hdg: heading_a % (FULL_TURN as int),
    };
    let end_b = RunwayEndModel {
        number: b.0,
        td_threshold_pos: position_b,
        se_threshold_pos: position_a,
        modifier: b.1,
        magnetic_hdg: heading_b % (FULL_TURN as int),
    };
    if a.0 > b.0 {
        RunwayStripModel { end_a: end_b, end_b: end_a }
    } else {
        RunwayStripModel { end_a, end_b }
    }
}

impl PartialSector {
    /// What a line of the runways says, and the index of the airport that it
    /// says it of: the identifiers of the two ends, their headings, their
    /// thresholds and the name of an airport that is already there. A line
    /// that lacks one of these, or in which one of them does not write what
    /// is due, a threshold off the globe among them, is no runway.
    pub open spec fn runway_written(m: PartialSectorModel, line: Seq<char>) -> Result<
        (int, RunwayStripModel),
        Error,
    > {
        let t = words(line);
        if t.len() < 9 || runway_identifier(t[0]) is None || runway_identifier(t[1]) is None
            || decimal(t[2]) is None || decimal(t[3]) is None {
            Err(Error::InvalidRunway)
        } else {
            match (
                m.position_creator.placed(t[4], t[5]),
                m.position_creator.placed(t[6], t[7]),
                index_of(airport_names(m.airports), t[8]),
            ) {
                (Ok(position_a), Ok(position_b), Some(i)) => Ok(
                    (
                        i,
                        runway_strip(
                            runway_identifier(t[0])->0,
                            runway_identifier(t[1])->0,
                            decimal(t[2])->0,
                            decimal(t[3])->0,
                            position_a,
                            position_b,
                        ),
                    ),
                ),
                _ => Err(Error::InvalidRunway),
            }
        }
    }

    /// Whatever is wrong with a line of the runways, the line is refused as
    /// no runway.
    pub proof fn law_runway_line_fails_as_runway(m: PartialSectorModel, line: Seq<char>)
        requires
            Self::runway_line(m, line) is Err,
        ensures
            Self::runway_line(m, line) == Err::<PartialSectorModel, Error>(Error::InvalidRunway),
    {
    }

    /// The sector after a line of the runways.
    pub open spec fn runway_line(m: PartialSectorModel, line: Seq<char>) -> Result<
        PartialSectorModel,
        Error,
    > {
        match Self::runway_written(m, line) {
            Ok((i, strip)) => Ok(
                PartialSectorModel {
                    airports: m.airports.update(
                        i,
                        AirportModel { runways: m.airports[i].runways.push(strip), ..m.airports[i] },
                    ),
                    ..m
                },
            ),
            Err(e) => Err(e),
        }
    }

    pub fn parse_runway_line(&mut self, value: &str) -> (r: SectorResult<()>)
        ensures
            handled(
                old(self).deep_view(),
                final(self).deep_view(),
                r,
                Self::runway_line(old(self).deep_view(), value@),
            ),
    {
        let line = chars(value);
        let t = split_whitespace(line.as_slice());
        if t.len() < 8 {
            return Err(Error::InvalidRunway);
        }
        let a = match read_runway_identifier(t[0]) {
            Ok(id) => id,
            Err(e) => {
                return Err(e);
            },
        };
        let b = match read_runway_identifier(t[1]) {
            Ok(id) => id,
            Err(e) => {
                return Err(e);
            },
        };
        let heading_a = match parse_decimal(t[2]) {
            Some(v) => Heading::new(v),
            None => {
                return Err(Error::InvalidRunway);
            },
        };
        let heading_b = match parse_decimal(t[3]) {
            Some(v) => Heading::new(v),
            None => {
                return Err(Error::InvalidRunway);
            },
        };
        let position_a = match self.position_creator.place(t[4], t[5]) {
            Ok(p) => p,
            Err(_) => {
                return Err(Error::InvalidRunway);
            },
        };
        let position_b = match self.position_creator.place(t[6], t[7]) {
            Ok(p) => p,
            Err(_) => {
                return Err(Error::InvalidRunway);
            },
        };
        if t.len() < 9 {
            return Err(Error::InvalidRunway);
        }
        let name = string(t[8]);
        proof {
            assert(names_of(self.airports@) =~= airport_names(self.airports.deep_view()));
        }
        let i = match find(&self.airports, &name) {
            Some(i) => i,
            None => {
                return Err(Error::InvalidRunway);
            },
        };
        let end_a = RunwayEnd {
            number: a.0,
            td_threshold_pos: position_a,
            se_threshold_pos: position_b,
            modifier: a.1,
            magnetic_hdg: heading_a,
        };
        let end_b = RunwayEnd {
            number: b.0,
            td_threshold_pos: position_b,
            se_threshold_pos: position_a,
            modifier: b.1,
            magnetic_hdg: heading_b,
        };
        let strip = if a.0 > b.0 {
            RunwayStrip { end_a: end_b, end_b: end_a }
        } else {
            RunwayStrip { end_a, end_b }
        };
        self.airports[i].runways.push(strip);
        proof {
            let before = old(self).airports.deep_view();
            assert(self.airports@[i as int].runways.deep_view() =~= before[i as int].runways.push(
                strip.deep_view(),
            ));
            assert(self.airports.deep_view() =~= before.update(
                i as int,
                AirportModel {
                    runways: before[i as int].runways.push(strip.deep_view()),
                    ..before[i as int]
                },
            ));
        }
        Ok(())
    }
}

} // verus!
