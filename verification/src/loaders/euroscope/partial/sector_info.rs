//! The nine values at the head of a sector file, which come one to a line and
//! are told apart by their place alone.
use super::PositionCreator;
use crate::loaders::euroscope::error::Error;
use crate::loaders::euroscope::line::text_model;
use crate::loaders::euroscope::position::{add_clamped, clamped, coordinate, parse_coordinate};
use crate::loaders::euroscope::SectorResult;
use crate::number::{decimal, parse_decimal};
use crate::text::{chars, string};
use vstd::prelude::*;

verus! {

/// How many values the head of a sector file holds.
pub const SECTOR_INFO_LINES: usize = 9;

/// The values read so far, and how many lines have been taken.
#[derive(Debug)]
pub struct PartialSectorInfo {
    pub name: Option<String>,
    pub default_callsign: Option<String>,
    pub default_airport: Option<String>,
    pub default_centre_pt_lat: Option<i64>,
    pub default_centre_pt_lon: Option<i64>,
    pub n_mi_per_deg_lat: Option<i64>,
    pub n_mi_per_deg_lon: Option<i64>,
    pub magnetic_variation: Option<i64>,
    pub sector_scale: Option<i64>,
    /// The number of lines taken, which stops counting at one more than the
    /// head holds.
    pub current_line: usize,
}

pub struct PartialSectorInfoModel {
    pub name: Option<Seq<char>>,
    pub default_callsign: Option<Seq<char>>,
    pub default_airport: Option<Seq<char>>,
    pub default_centre_pt_lat: Option<i64>,
    pub default_centre_pt_lon: Option<i64>,
    pub n_mi_per_deg_lat: Option<i64>,
    pub n_mi_per_deg_lon: Option<i64>,
    pub magnetic_variation: Option<i64>,
    pub sector_scale: Option<i64>,
    pub current_line: usize,
}

impl DeepView for PartialSectorInfo {
    type V = PartialSectorInfoModel;

    open spec fn deep_view(&self) -> PartialSectorInfoModel {
        PartialSectorInfoModel {
            name: text_model(self.name),
            default_callsign: text_model(self.default_callsign),
            default_airport: text_model(self.default_airport),
            default_centre_pt_lat: self.default_centre_pt_lat,
            default_centre_pt_lon: self.default_centre_pt_lon,
            n_mi_per_deg_lat: self.n_mi_per_deg_lat,
            n_mi_per_deg_lon: self.n_mi_per_deg_lon,
            magnetic_variation: self.magnetic_variation,
            sector_scale: self.sector_scale,
            current_line: self.current_line,
        }
    }
}

/// A coordinate of the centre: what the line writes, moved by `offset`.
pub open spec fn centre_coordinate(value: Seq<char>, offset: i64) -> Option<i64> {
    match coordinate(value) {
        Some(v) => Some(clamped(v + offset) as i64),
        None => None,
    }
}

/// A number of the head: what the line writes as a decimal number, in
/// billionths.
pub open spec fn scalar(value: Seq<char>) -> Option<i64> {
    match decimal(value) {
        Some(v) => Some(v as i64),
        None => None,
    }
}

impl Default for PartialSectorInfo {
    fn default() -> (r: PartialSectorInfo)
        ensures
            r.deep_view() == PartialSectorInfo::empty(),
    {
        PartialSectorInfo::new()
    }
}

impl PartialSectorInfo {
    /// No value yet, and no line taken.
    pub open spec fn empty() -> PartialSectorInfoModel {
        PartialSectorInfoModel {
            name: None,
            default_callsign: None,
            default_airport: None,
            default_centre_pt_lat: None,
            default_centre_pt_lon: None,
            n_mi_per_deg_lat: None,
            n_mi_per_deg_lon: None,
            magnetic_variation: None,
            sector_scale: None,
            current_line: 0,
        }
    }

    pub fn new() -> (r: PartialSectorInfo)
        ensures
            r.deep_view() == Self::empty(),
    {
        PartialSectorInfo {
            name: None,
            default_callsign: None,
            default_airport: None,
            default_centre_pt_lat: None,
            default_centre_pt_lon: None,
            n_mi_per_deg_lat: None,
            n_mi_per_deg_lon: None,
            magnetic_variation: None,
            sector_scale: None,
            current_line: 0,
        }
    }

    /// The place of the next line: one more than the lines taken, but never
    /// more than one beyond the head.
    pub open spec fn next_line(m: PartialSectorInfoModel) -> usize {
        if m.current_line <= SECTOR_INFO_LINES {
            (m.current_line + 1) as usize
        } else {
            m.current_line
        }
    }

    /// The values after one more line, and whether the line was good.
    ///
    /// The line is counted in either case. The first three lines are taken as
    /// they are: the name, the default callsign and the default airport. The
    /// fourth and fifth are the latitude and longitude of the centre, moved
    /// by the offset. The sixth to ninth are decimal numbers: nautical miles
    /// to a degree of latitude and of longitude, the magnetic variation and
    /// the scale. A line from the fourth to the ninth that does not write
    /// what is due is an error and changes no value. Any further line is an
    /// error.
    pub open spec fn line_taken(
        m: PartialSectorInfoModel,
        value: Seq<char>,
        creator: PositionCreator,
    ) -> (PartialSectorInfoModel, Result<(), Error>) {
        let n = Self::next_line(m);
        let counted = PartialSectorInfoModel { current_line: n, ..m };
        if n == 1 {
            (PartialSectorInfoModel { name: Some(value), ..counted }, Ok(()))
        } else if n == 2 {
            (PartialSectorInfoModel { default_callsign: Some(value), ..counted }, Ok(()))
        } else if n == 3 {
            (PartialSectorInfoModel { default_airport: Some(value), ..counted }, Ok(()))
        } else if n == 4 && coordinate(value) is Some {
            (
                PartialSectorInfoModel {
                    default_centre_pt_lat: centre_coordinate(value, creator.y_offset),
                    ..counted
                },
                Ok(()),
            )
        } else if n == 5 && coordinate(value) is Some {
            (
                PartialSectorInfoModel {
                    default_centre_pt_lon: centre_coordinate(value, creator.x_offset),
                    ..counted
                },
                Ok(()),
            )
        } else if 6 <= n <= 9 && scalar(value) is Some {
            (
                if n == 6 {
                    PartialSectorInfoModel { n_mi_per_deg_lat: scalar(value), ..counted }
                } else if n == 7 {
                    PartialSectorInfoModel { n_mi_per_deg_lon: scalar(value), ..counted }
                } else if n == 8 {
                    PartialSectorInfoModel { magnetic_variation: scalar(value), ..counted }
                } else {
                    PartialSectorInfoModel { sector_scale: scalar(value), ..counted }
                },
                Ok(()),
            )
        } else {
            (counted, Err(Error::SectorInfoError))
        }
    }

    /// Takes the next line of the head.
    pub fn parse_line(&mut self, value: &str, position_creator: &PositionCreator) -> (r:
        SectorResult<()>)
        ensures
            final(self).deep_view() == Self::line_taken(
                old(self).deep_view(),
                value@,
                *position_creator,
            ).0,
            r == Self::line_taken(old(self).deep_view(), value@, *position_creator).1,
    {
        if self.current_line <= SECTOR_INFO_LINES {
            self.current_line += 1;
        }
        let n: usize = self.current_line;
        let text = chars(value);
        if n == 1 {
            self.name = Some(string(text.as_slice()));
        } else if n == 2 {
            self.default_callsign = Some(string(text.as_slice()));
        } else if n == 3 {
            self.default_airport = Some(string(text.as_slice()));
        } else if n == 4 {
            match parse_coordinate(text.as_slice()) {
                Some(v) => {
                    self.default_centre_pt_lat = Some(add_clamped(v, position_creator.y_offset));
                },
                None => {
                    return Err(Error::SectorInfoError);
                },
            }
        } else if n == 5 {
            match parse_coordinate(text.as_slice()) {
                Some(v) => {
                    self.default_centre_pt_lon = Some(add_clamped(v, position_creator.x_offset));
                },
                None => {
                    return Err(Error::SectorInfoError);
                },
            }
        } else if 6 <= n && n <= 9 {
            let v = match parse_decimal(text.as_slice()) {
                Some(v) => v,
                None => {
                    return Err(Error::SectorInfoError);
                },
            };
            if n == 6 {
                self.n_mi_per_deg_lat = Some(v);
            } else if n == 7 {
                self.n_mi_per_deg_lon = Some(v);
            } else if n == 8 {
                self.magnetic_variation = Some(v);
            } else {
                self.sector_scale = Some(v);
            }
        } else {
            return Err(Error::SectorInfoError);
        }
        Ok(())
    }

    /// A line in the place of a coordinate or of a number that writes none is
    /// refused: it is counted, and every value stays as it was.
    pub proof fn law_no_number_is_refused(
        m: PartialSectorInfoModel,
        value: Seq<char>,
        creator: PositionCreator,
    )
        requires
            3 <= m.current_line <= 8,
            m.current_line <= 4 ==> coordinate(value) is None,
            m.current_line >= 5 ==> decimal(value) is None,
        ensures
            Self::line_taken(m, value, creator).1 == Err::<(), Error>(Error::SectorInfoError),
            Self::line_taken(m, value, creator).0 == (PartialSectorInfoModel {
                current_line: (m.current_line + 1) as usize,
                ..m
            }),
    {
    }

    /// Once nine lines have been taken, every further line is refused and
    /// changes none of the nine values.
    pub proof fn law_no_tenth_line(
        m: PartialSectorInfoModel,
        value: Seq<char>,
        creator: PositionCreator,
    )
        requires
            m.current_line >= SECTOR_INFO_LINES,
        ensures
            Self::line_taken(m, value, creator).1 == Err::<(), Error>(Error::SectorInfoError),
            Self::line_taken(m, value, creator).0 == (PartialSectorInfoModel {
                current_line: Self::next_line(m),
                ..m
            }),
    {
    }
}

} // verus!
