//! The lines of boundaries, airways, procedures and geography: line by line
//! they fill named groups of lines.
use super::{handled, ArtccOrAirwayLineType, PartialSector, PartialSectorModel, SidStarType};
use crate::loaders::euroscope::colour::{Colour, ColourTable};
use crate::loaders::euroscope::error::Error;
use crate::loaders::euroscope::line::{
    append_segment, appended, line_model, ColouredLine, ColouredLineModel, Segments,
};
use crate::loaders::euroscope::SectorResult;
use crate::text::{chars, join, joined, split_whitespace, string, views, words};
use vstd::prelude::*;

verus! {

/// One of the lists of groups of lines that a sector holds.
#[derive(Debug, Clone, Copy, PartialEq, Eq, Structural)]
pub enum Track {
    Boundary(ArtccOrAirwayLineType),
    Procedure(SidStarType),
    Geo,
}

/// How the tokens of a line of geometry fall apart: an optional name, the
/// four tokens of the two ends, and an optional colour.
pub struct SegmentShape {
    pub name: Option<Seq<char>>,
    pub ends: Seq<Seq<char>>,
    pub colour: Option<Colour>,
}

/// The shape of tokens from which a colour at the end, if there was one, has
/// been taken: the last four are the ends, and what stands before them, if
/// anything, is the name, with one space between its words.
pub open spec fn shape_of(rest: Seq<Seq<char>>, colour: Option<Colour>) -> Option<SegmentShape> {
    if rest.len() < 4 {
        None
    } else {
        let first = rest.len() - 4;
        Some(
            SegmentShape {
                name: if first > 0 {
                    Some(joined(rest.take(first), ' '))
                } else {
                    None
                },
                ends: rest.skip(first),
                colour,
            },
        )
    }
}

/// What is left of the tokens `t` when a last token that is a colour is
/// taken from them, and that colour.
pub open spec fn colour_taken(colours: Map<Seq<char>, Colour>, t: Seq<Seq<char>>) -> (
    Seq<Seq<char>>,
    Option<Colour>,
) {
    if t.len() == 0 {
        (t, None)
    } else {
        match ColourTable::resolved(colours, t.last()) {
            Some(c) => (t.drop_last(), Some(c)),
            None => (t, None),
        }
    }
}

/// The shape of a line of a boundary, an airway or the geography: a last
/// token that is a colour is the line's colour.
pub open spec fn boundary_shape(colours: Map<Seq<char>, Colour>, t: Seq<Seq<char>>) -> Option<
    SegmentShape,
> {
    let (rest, colour) = colour_taken(colours, t);
    shape_of(rest, colour)
}

/// The shape of a line of a departure or arrival: four tokens are the two
/// ends, whatever the last of them could also mean; of more than four, a
/// last token that is a colour is the line's colour.
pub open spec fn procedure_shape(colours: Map<Seq<char>, Colour>, t: Seq<Seq<char>>) -> Option<
    SegmentShape,
> {
    if t.len() <= 4 {
        shape_of(t, None)
    } else {
        let (rest, colour) = colour_taken(colours, t);
        shape_of(rest, colour)
    }
}

impl Track {
    /// The error that a bad line of this list gives.
    pub open spec fn error(self) -> Error {
        match self {
            Track::Boundary(_) => Error::InvalidArtccEntry,
            Track::Procedure(_) => Error::InvalidSidStarEntry,
            Track::Geo => Error::InvalidGeoEntry,
        }
    }

    /// The shape of a line of this list.
    pub open spec fn shape(self, colours: Map<Seq<char>, Colour>, t: Seq<Seq<char>>) -> Option<
        SegmentShape,
    > {
        match self {
            Track::Procedure(_) => procedure_shape(colours, t),
            _ => boundary_shape(colours, t),
        }
    }

    /// The groups of this list in the sector `m`.
    pub open spec fn groups(self, m: PartialSectorModel) -> Seq<Segments> {
        match self {
            Track::Boundary(ArtccOrAirwayLineType::Artcc) => m.artcc_entries,
            Track::Boundary(ArtccOrAirwayLineType::ArtccHigh) => m.artcc_high_entries,
            Track::Boundary(ArtccOrAirwayLineType::ArtccLow) => m.artcc_low_entries,
            Track::Boundary(ArtccOrAirwayLineType::LowAirway) => m.low_airways,
            Track::Boundary(ArtccOrAirwayLineType::HighAirway) => m.high_airways,
            Track::Procedure(SidStarType::Sid) => m.sid_entries,
            Track::Procedure(SidStarType::Star) => m.star_entries,
            Track::Geo => m.geo_entries,
        }
    }

    /// The sector `m` with `g` as the groups of this list.
    pub open spec fn replaced(self, m: PartialSectorModel, g: Seq<Segments>) -> PartialSectorModel {
        match self {
            Track::Boundary(ArtccOrAirwayLineType::Artcc) => PartialSectorModel {
                artcc_entries: g,
                ..m
            },
            Track::Boundary(ArtccOrAirwayLineType::ArtccHigh) => PartialSectorModel {
                artcc_high_entries: g,
                ..m
            },
            Track::Boundary(ArtccOrAirwayLineType::ArtccLow) => PartialSectorModel {
                artcc_low_entries: g,
                ..m
            },
            Track::Boundary(ArtccOrAirwayLineType::LowAirway) => PartialSectorModel {
                low_airways: g,
                ..m
            },
            Track::Boundary(ArtccOrAirwayLineType::HighAirway) => PartialSectorModel {
                high_airways: g,
                ..m
            },
            Track::Procedure(SidStarType::Sid) => PartialSectorModel { sid_entries: g, ..m },
            Track::Procedure(SidStarType::Star) => PartialSectorModel { star_entries: g, ..m },
            Track::Geo => PartialSectorModel { geo_entries: g, ..m },
        }
    }
}

impl PartialSector {
    /// The line between the two ends that four tokens write, if both ends can
    /// be found and lie on the globe.
    pub open spec fn segment(
        m: PartialSectorModel,
        ends: Seq<Seq<char>>,
        colour: Option<Colour>,
    ) -> Option<ColouredLineModel> {
        match (Self::endpoint(m, ends[0], ends[1]), Self::endpoint(m, ends[2], ends[3])) {
            (Some(start), Some(end)) => if start.on_globe() && end.on_globe() {
                Some(ColouredLineModel { start, end, colour })
            } else {
                None
            },
            _ => None,
        }
    }

    fn read_segment(
        &self,
        a: &[char],
        b: &[char],
        c: &[char],
        d: &[char],
        colour: Option<Colour>,
    ) -> (r: Option<ColouredLine>)
        ensures
            line_model(r) == Self::segment(self.deep_view(), seq![a@, b@, c@, d@], colour),
    {
        let start = match self.read_corner(a, b) {
            Some(p) => p,
            None => {
                return None;
            },
        };
        let end = match self.read_corner(c, d) {
            Some(p) => p,
            None => {
                return None;
            },
        };
        Some(ColouredLine::new(start, end, colour))
    }

    /// The sector after a line of one of its lists of groups of lines.
    pub open spec fn segment_line(m: PartialSectorModel, line: Seq<char>, track: Track) -> Result<
        PartialSectorModel,
        Error,
    > {
        match track.shape(m.colours, words(line)) {
            None => Err(track.error()),
            Some(shape) => match appended(
                track.groups(m),
                shape.name,
                Self::segment(m, shape.ends, shape.colour),
                track.error(),
            ) {
                Ok(g) => Ok(track.replaced(m, g)),
                Err(e) => Err(e),
            },
        }
    }

    /// Reads a line of one of the lists of groups of lines.
    pub fn parse_segment_line(&mut self, value: &str, track: Track) -> (r: SectorResult<()>)
        ensures
            handled(
                old(self).deep_view(),
                final(self).deep_view(),
                r,
                Self::segment_line(old(self).deep_view(), value@, track),
            ),
    {
        let line = chars(value);
        let t = split_whitespace(line.as_slice());
        let error = match track {
            Track::Boundary(_) => Error::InvalidArtccEntry,
            Track::Procedure(_) => Error::InvalidSidStarEntry,
            Track::Geo => Error::InvalidGeoEntry,
        };
        let plain = match track {
            Track::Procedure(_) => t.len() <= 4,
            _ => t.len() == 0,
        };
        let colour = if plain {
            None
        } else {
            self.try_fetch_or_decode_colour(t[t.len() - 1])
        };
        let count: usize = if colour.is_some() {
            t.len() - 1
        } else {
            t.len()
        };
        let ghost rest = views(t@).take(count as int);
        if count < 4 {
            return Err(error);
        }
        let first: usize = count - 4;
        let name = if first > 0 {
            let joined_name = join(&t, 0, first, ' ');
            assert(views(t@).subrange(0, first as int) =~= rest.take(first as int));
            Some(string(joined_name.as_slice()))
        } else {
            None
        };
        let segment = self.read_segment(t[first], t[first + 1], t[first + 2], t[first + 3], colour);
        match track {
            Track::Boundary(ArtccOrAirwayLineType::Artcc) => append_segment(
                &mut self.artcc_entries,
                name,
                segment,
                error,
            ),
            Track::Boundary(ArtccOrAirwayLineType::ArtccHigh) => append_segment(
                &mut self.artcc_high_entries,
                name,
                segment,
                error,
            ),
            Track::Boundary(ArtccOrAirwayLineType::ArtccLow) => append_segment(
                &mut self.artcc_low_entries,
                name,
                segment,
                error,
            ),
            Track::Boundary(ArtccOrAirwayLineType::LowAirway) => append_segment(
                &mut self.low_airways,
                name,
                segment,
                error,
            ),
            Track::Boundary(ArtccOrAirwayLineType::HighAirway) => append_segment(
                &mut self.high_airways,
                name,
                segment,
                error,
            ),
            Track::Procedure(SidStarType::Sid) => append_segment(
                &mut self.sid_entries,
                name,
                segment,
                error,
            ),
            Track::Procedure(SidStarType::Star) => append_segment(
                &mut self.star_entries,
                name,
                segment,
                error,
            ),
            Track::Geo => append_segment(&mut self.geo_entries, name, segment, error),
        }
    }

    /// The sector after a line of a boundary or an airway.
    pub open spec fn artcc_or_airway_line(
        m: PartialSectorModel,
        line: Seq<char>,
        line_type: ArtccOrAirwayLineType,
    ) -> Result<PartialSectorModel, Error> {
        Self::segment_line(m, line, Track::Boundary(line_type))
    }

    pub fn parse_artcc_or_airway_line(&mut self, value: &str, line_type: ArtccOrAirwayLineType) -> (r:
        SectorResult<()>)
        ensures
            handled(
                old(self).deep_view(),
                final(self).deep_view(),
                r,
                Self::artcc_or_airway_line(old(self).deep_view(), value@, line_type),
            ),
    {
        self.parse_segment_line(value, Track::Boundary(line_type))
    }

    /// The sector after a line of a departure or an arrival.
    pub open spec fn sid_star_line(
        m: PartialSectorModel,
        line: Seq<char>,
        sid_star_type: SidStarType,
    ) -> Result<PartialSectorModel, Error> {
        Self::segment_line(m, line, Track::Procedure(sid_star_type))
    }

    pub fn parse_sid_star_line(&mut self, value: &str, sid_star_type: SidStarType) -> (r:
        SectorResult<()>)
        ensures
            handled(
                old(self).deep_view(),
                final(self).deep_view(),
                r,
                Self::sid_star_line(old(self).deep_view(), value@, sid_star_type),
            ),
    {
        self.parse_segment_line(value, Track::Procedure(sid_star_type))
    }

    /// The sector after a line of the geography.
    pub open spec fn geo_line(m: PartialSectorModel, line: Seq<char>) -> Result<
        PartialSectorModel,
        Error,
    > {
        Self::segment_line(m, line, Track::Geo)
    }

    pub fn parse_geo_line(&mut self, value: &str) -> (r: SectorResult<()>)
        ensures
            handled(
                old(self).deep_view(),
                final(self).deep_view(),
                r,
                Self::geo_line(old(self).deep_view(), value@),
            ),
    {
        self.parse_segment_line(value, Track::Geo)
    }
}

} // verus!
