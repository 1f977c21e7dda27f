//! The lines that hold in every section: the offset and the names of
//! colours.
use super::{handled, PartialSector, PartialSectorModel, PositionCreator};
use crate::loaders::euroscope::colour::Colour;
use crate::loaders::euroscope::error::Error;
use crate::loaders::euroscope::position::{
    clamped, coordinate, lemma_coordinate_bound, sub_clamped, COORDINATE_MAX,
};
use crate::loaders::euroscope::SectorResult;
use crate::number::{decimal, parse_decimal};
use crate::text::{chars, lowercase, split_whitespace, string, to_lowercase, words};
use vstd::prelude::*;

verus! {

/// What a line that names a colour says: after its first token, the name
/// as it is written, and the colour that the third token writes.
pub open spec fn colour_written(line: Seq<char>) -> Result<(Seq<char>, Colour), Error> {
    let t = words(line);
    if t.len() < 3 {
        Err(Error::InvalidColourDefinition)
    } else {
        match Colour::written(t[2]) {
            Some(c) => Ok((t[1], c)),
            None => Err(Error::InvalidColourDefinition),
        }
    }
}

impl PartialSector {
    /// The offset that a line sets: with two numbers, the offset north and
    /// the offset east; with two positions, the way from the first to the
    /// second.
    pub open spec fn offset_written(creator: PositionCreator, line: Seq<char>) -> Result<
        PositionCreator,
        Error,
    > {
        let t = words(line);
        if t.len() == 3 {
            if decimal(t[1]) is Some && decimal(t[2]) is Some {
                Ok(
                    PositionCreator {
                        x_offset: decimal(t[2])->0 as i64,
                        y_offset: decimal(t[1])->0 as i64,
                    },
                )
            } else {
                Err(Error::InvalidOffset)
            }
        } else if t.len() == 5 {
            match (creator.located(t[1], t[2]), creator.located(t[3], t[4])) {
                (Some(from), Some(to)) => Ok(
                    PositionCreator {
                        x_offset: clamped(to.lon - from.lon) as i64,
                        y_offset: clamped(to.lat - from.lat) as i64,
                    },
                ),
                _ => Err(Error::InvalidCoordinate),
            }
        } else {
            Err(Error::InvalidOffset)
        }
    }

    /// The sector after a line that sets the offset.
    pub open spec fn offset_line(m: PartialSectorModel, line: Seq<char>) -> Result<
        PartialSectorModel,
        Error,
    > {
        match Self::offset_written(m.position_creator, line) {
            Ok(creator) => Ok(PartialSectorModel { position_creator: creator, ..m }),
            Err(e) => Err(e),
        }
    }

    pub fn parse_offset(&mut self, value: &str) -> (r: SectorResult<()>)
        ensures
            handled(
                old(self).deep_view(),
                final(self).deep_view(),
                r,
                Self::offset_line(old(self).deep_view(), value@),
            ),
    {
        let line = chars(value);
        match read_offset(&self.position_creator, line.as_slice()) {
            Ok(creator) => {
                self.position_creator = creator;
                Ok(())
            },
            Err(e) => Err(e),
        }
    }

    /// The sector after a line that names a colour: the name, taken in lower
    /// case, stands for the colour that the third token writes.
    pub open spec fn colour_line(m: PartialSectorModel, line: Seq<char>) -> Result<
        PartialSectorModel,
        Error,
    > {
        match colour_written(line) {
            Ok(d) => Ok(PartialSectorModel { colours: m.colours.insert(lowercase(d.0), d.1), ..m }),
            Err(e) => Err(e),
        }
    }

    pub fn parse_colour_line(&mut self, value: &str) -> (r: SectorResult<()>)
        ensures
            handled(
                old(self).deep_view(),
                final(self).deep_view(),
                r,
                Self::colour_line(old(self).deep_view(), value@),
            ),
    {
        let line = chars(value);
        match read_colour_definition(line.as_slice()) {
            Ok(d) => {
                self.colours.insert(to_lowercase(d.0.as_str()), d.1);
                Ok(())
            },
            Err(e) => Err(e),
        }
    }
}

/// Reads the offset that a line sets.
pub fn read_offset(creator: &PositionCreator, line: &[char]) -> (r: SectorResult<PositionCreator>)
    ensures
        r == PartialSector::offset_written(*creator, line@),
{
    let t = split_whitespace(line);
    if t.len() == 3 {
        let y_offset = match parse_decimal(t[1]) {
            Some(v) => v,
            None => {
                return Err(Error::InvalidOffset);
            },
        };
        let x_offset = match parse_decimal(t[2]) {
            Some(v) => v,
            None => {
                return Err(Error::InvalidOffset);
            },
        };
        Ok(PositionCreator { x_offset, y_offset })
    } else if t.len() == 5 {
        let from = match creator.locate(t[1], t[2]) {
            Ok(p) => p,
            Err(e) => {
                return Err(e);
            },
        };
        let to = match creator.locate(t[3], t[4]) {
            Ok(p) => p,
            Err(e) => {
                return Err(e);
            },
        };
        Ok(
            PositionCreator {
                x_offset: sub_clamped(to.lon, from.lon),
                y_offset: sub_clamped(to.lat, from.lat),
            },
        )
    } else {
        Err(Error::InvalidOffset)
    }
}

/// Reads a line that names a colour.
pub fn read_colour_definition(line: &[char]) -> (r: SectorResult<(String, Colour)>)
    ensures
        match colour_written(line@) {
            Ok(d) => r is Ok && r->Ok_0.0@ == d.0 && r->Ok_0.1 == d.1,
            Err(e) => r is Err && r->Err_0 == e,
        },
{
    let t = split_whitespace(line);
    if t.len() < 3 {
        return Err(Error::InvalidColourDefinition);
    }
    match Colour::from_chars(t[2]) {
        Ok(c) => Ok((string(t[1]), c)),
        Err(e) => Err(e),
    }
}

/// An offset that is set by two points is the way from the first to the
/// second as the file writes them, whatever offset is in force, as long as
/// that offset is no larger than a coordinate can be written: to set the
/// offset by the points `a` and `b` is to set it by the numbers `b - a`.
pub proof fn law_offset_by_two_points(creator: PositionCreator, line: Seq<char>)
    requires
        -COORDINATE_MAX <= creator.x_offset <= COORDINATE_MAX,
        -COORDINATE_MAX <= creator.y_offset <= COORDINATE_MAX,
        words(line).len() == 5,
        coordinate(words(line)[1]) is Some,
        coordinate(words(line)[2]) is Some,
        coordinate(words(line)[3]) is Some,
        coordinate(words(line)[4]) is Some,
    ensures
        ({
            let t = words(line);
            PartialSector::offset_written(creator, line) == Ok::<PositionCreator, Error>(
                PositionCreator {
                    x_offset: (coordinate(t[4])->0 - coordinate(t[2])->0) as i64,
                    y_offset: (coordinate(t[3])->0 - coordinate(t[1])->0) as i64,
                },
            )
        }),
{
    let t = words(line);
    lemma_coordinate_bound(t[1]);
    lemma_coordinate_bound(t[2]);
    lemma_coordinate_bound(t[3]);
    lemma_coordinate_bound(t[4]);
}

} // verus!
