//! A sector while it is being read: one method for each kind of line, each
//! of which adds what the line says or leaves the sector as it was.
use super::colour::{Colour, ColourTable};
use super::error::Error;
use super::line::{ColouredLine, LineGroup, Segments};
use super::position::{Position, ValidPosition};
use super::sector::{LabelGroup, LabelGroupModel};
use super::waypoint::{
    airport_names, beacon_names, fix_names, Airport, AirportModel, BeaconModel, Fix, FixModel, Ndb,
    Vor,
};
use super::SectorResult;
use crate::text::{chars, find, index_of, names_of, string};
use region::{PartialRegionGroup, PartialRegionGroupModel};
use sector_info::{PartialSectorInfo, PartialSectorInfoModel};
use vstd::prelude::*;

pub mod directive;
pub mod label;
pub mod places;
pub mod region;
pub mod runway;
pub mod sector_info;
pub mod segment;

pub use directive::{colour_written, read_colour_definition, read_offset};
pub use runway::{parse_runway_identifier, read_runway_identifier, runway_identifier};
pub use segment::Track;

verus! {

/// Makes positions out of tokens, moved by the offset that is in force.
#[derive(Debug, Clone, Copy, PartialEq, Eq, Structural)]
pub struct PositionCreator {
    pub x_offset: i64,
    pub y_offset: i64,
}

/// Whether `r` is the outcome `expected`, a position being compared by what
/// it stands for.
pub open spec fn same_position(r: SectorResult<ValidPosition>, expected: Result<Position, Error>) -> bool {
    match expected {
        Ok(p) => r is Ok && r->Ok_0@ == p,
        Err(e) => r == Err::<ValidPosition, Error>(e),
    }
}

impl PositionCreator {
    pub fn new() -> (r: PositionCreator)
        ensures
            r == (PositionCreator { x_offset: 0, y_offset: 0 }),
    {
        PositionCreator { x_offset: 0, y_offset: 0 }
    }

    /// The position that two tokens write, moved by the offset.
    pub open spec fn located(self, lat: Seq<char>, lon: Seq<char>) -> Option<Position> {
        match Position::written(lat, lon) {
            Some(p) => Some(p.shifted(self.x_offset, self.y_offset)),
            None => None,
        }
    }

    /// The position that two tokens write, moved by the offset, if it then
    /// lies on the globe.
    pub open spec fn placed(self, lat: Seq<char>, lon: Seq<char>) -> Result<Position, Error> {
        match self.located(lat, lon) {
            Some(p) => if p.on_globe() {
                Ok(p)
            } else {
                Err(Error::InvalidPosition)
            },
            None => Err(Error::InvalidCoordinate),
        }
    }

    /// Reads a position and moves it by the offset.
    pub fn locate(&self, lat: &[char], lon: &[char]) -> (r: SectorResult<Position>)
        ensures
            match self.located(lat@, lon@) {
                Some(p) => r == Ok::<Position, Error>(p),
                None => r == Err::<Position, Error>(Error::InvalidCoordinate),
            },
    {
        match Position::from_tokens(lat, lon) {
            Ok(p) => Ok(p.apply_offset(self.x_offset, self.y_offset)),
            Err(e) => Err(e),
        }
    }

    /// Reads a position, moves it by the offset and checks that it lies on
    /// the globe.
    pub fn place(&self, lat: &[char], lon: &[char]) -> (r: SectorResult<ValidPosition>)
        ensures
            same_position(r, self.placed(lat@, lon@)),
    {
        match self.locate(lat, lon) {
            Ok(p) => p.validate(),
            Err(e) => Err(e),
        }
    }

    /// Reads a position and moves it by the offset.
    pub fn try_new_from_es(&self, lat: &str, lon: &str) -> (r: SectorResult<Position>)
        ensures
            match self.located(lat@, lon@) {
                Some(p) => r == Ok::<Position, Error>(p),
                None => r == Err::<Position, Error>(Error::InvalidCoordinate),
            },
    {
        let lat = chars(lat);
        let lon = chars(lon);
        self.locate(lat.as_slice(), lon.as_slice())
    }

    pub fn set_offset(&mut self, x_offset: i64, y_offset: i64)
        ensures
            *final(self) == (PositionCreator { x_offset, y_offset }),
    {
        self.x_offset = x_offset;
        self.y_offset = y_offset;
    }

    pub fn offset(&self) -> (r: (i64, i64))
        ensures
            r == (self.x_offset, self.y_offset),
    {
        (self.x_offset, self.y_offset)
    }
}

/// A sector that is being read.
#[derive(Debug)]
pub struct PartialSector {
    pub colours: ColourTable,
    pub sector_info: PartialSectorInfo,
    pub airports: Vec<Airport>,
    pub vors: Vec<Vor>,
    pub ndbs: Vec<Ndb>,
    pub fixes: Vec<Fix>,
    pub artcc_entries: Vec<LineGroup<ColouredLine>>,
    pub artcc_low_entries: Vec<LineGroup<ColouredLine>>,
    pub artcc_high_entries: Vec<LineGroup<ColouredLine>>,
    pub low_airways: Vec<LineGroup<ColouredLine>>,
    pub high_airways: Vec<LineGroup<ColouredLine>>,
    pub sid_entries: Vec<LineGroup<ColouredLine>>,
    pub star_entries: Vec<LineGroup<ColouredLine>>,
    pub geo_entries: Vec<LineGroup<ColouredLine>>,
    pub region_groups: Vec<PartialRegionGroup>,
    pub labels: Vec<LabelGroup>,
    pub position_creator: PositionCreator,
    pub current_region_name: String,
}

pub struct PartialSectorModel {
    pub colours: Map<Seq<char>, Colour>,
    pub sector_info: PartialSectorInfoModel,
    pub airports: Seq<AirportModel>,
    pub vors: Seq<BeaconModel>,
    pub ndbs: Seq<BeaconModel>,
    pub fixes: Seq<FixModel>,
    pub artcc_entries: Seq<Segments>,
    pub artcc_low_entries: Seq<Segments>,
    pub artcc_high_entries: Seq<Segments>,
    pub low_airways: Seq<Segments>,
    pub high_airways: Seq<Segments>,
    pub sid_entries: Seq<Segments>,
    pub star_entries: Seq<Segments>,
    pub geo_entries: Seq<Segments>,
    pub region_groups: Seq<PartialRegionGroupModel>,
    pub labels: Seq<LabelGroupModel>,
    pub position_creator: PositionCreator,
    pub current_region_name: Seq<char>,
}

impl DeepView for PartialSector {
    type V = PartialSectorModel;

    open spec fn deep_view(&self) -> PartialSectorModel {
        PartialSectorModel {
            colours: self.colours@,
            sector_info: self.sector_info.deep_view(),
            airports: self.airports.deep_view(),
            vors: self.vors.deep_view(),
            ndbs: self.ndbs.deep_view(),
            fixes: self.fixes.deep_view(),
            artcc_entries: self.artcc_entries.deep_view(),
            artcc_low_entries: self.artcc_low_entries.deep_view(),
            artcc_high_entries: self.artcc_high_entries.deep_view(),
            low_airways: self.low_airways.deep_view(),
            high_airways: self.high_airways.deep_view(),
            sid_entries: self.sid_entries.deep_view(),
            star_entries: self.star_entries.deep_view(),
            geo_entries: self.geo_entries.deep_view(),
            region_groups: self.region_groups.deep_view(),
            labels: self.labels.deep_view(),
            position_creator: self.position_creator,
            current_region_name: self.current_region_name@,
        }
    }
}

/// Whether a line was handled as `expected` says: on success the sector is
/// `expected`'s, on failure the error is `expected`'s and the sector is as it
/// was.
pub open spec fn handled(
    before: PartialSectorModel,
    after: PartialSectorModel,
    r: SectorResult<()>,
    expected: Result<PartialSectorModel, Error>,
) -> bool {
    match expected {
        Ok(m) => r is Ok && after == m,
        Err(e) => r == Err::<(), Error>(e) && after == before,
    }
}

/// Which kind of beacon a line describes.
#[derive(Debug, Clone, Copy, PartialEq, Eq, Structural)]
pub enum BeaconType {
    Vor,
    Ndb,
}

/// Which boundaries or airways a line belongs to.
#[derive(Debug, Clone, Copy, PartialEq, Eq, Structural)]
pub enum ArtccOrAirwayLineType {
    Artcc,
    ArtccHigh,
    ArtccLow,
    LowAirway,
    HighAirway,
}

/// Which procedures a line belongs to.
#[derive(Debug, Clone, Copy, PartialEq, Eq, Structural)]
pub enum SidStarType {
    Sid,
    Star,
}

impl PartialSector {
    /// An empty sector: no offset, regions named `noname` until a line says
    /// otherwise, and one group for labels, `SCT2`.
    pub open spec fn empty() -> PartialSectorModel {
        PartialSectorModel {
            colours: Map::empty(),
            sector_info: PartialSectorInfo::empty(),
            airports: Seq::empty(),
            vors: Seq::empty(),
            ndbs: Seq::empty(),
            fixes: Seq::empty(),
            artcc_entries: Seq::empty(),
            artcc_low_entries: Seq::empty(),
            artcc_high_entries: Seq::empty(),
            low_airways: Seq::empty(),
            high_airways: Seq::empty(),
            sid_entries: Seq::empty(),
            star_entries: Seq::empty(),
            geo_entries: Seq::empty(),
            region_groups: Seq::empty(),
            labels: seq![LabelGroupModel { name: "SCT2"@, labels: Seq::empty() }],
            position_creator: PositionCreator { x_offset: 0, y_offset: 0 },
            current_region_name: "noname"@,
        }
    }

    pub fn new() -> (r: PartialSector)
        ensures
            r.deep_view() == Self::empty(),
    {
        let mut labels: Vec<LabelGroup> = Vec::new();
        labels.push(LabelGroup { name: String::from_str("SCT2"), labels: Vec::new() });
        let r = PartialSector {
            colours: ColourTable::new(),
            sector_info: PartialSectorInfo::new(),
            airports: Vec::new(),
            vors: Vec::new(),
            ndbs: Vec::new(),
            fixes: Vec::new(),
            artcc_entries: Vec::new(),
            artcc_low_entries: Vec::new(),
            artcc_high_entries: Vec::new(),
            low_airways: Vec::new(),
            high_airways: Vec::new(),
            sid_entries: Vec::new(),
            star_entries: Vec::new(),
            geo_entries: Vec::new(),
            region_groups: Vec::new(),
            labels,
            position_creator: PositionCreator::new(),
            current_region_name: String::from_str("noname"),
        };
        proof {
            assert(r.labels@[0].labels.deep_view() =~= Seq::empty());
            assert(r.labels.deep_view() =~= seq![
                LabelGroupModel { name: "SCT2"@, labels: Seq::empty() },
            ]);
            let m = r.deep_view();
            let e = Self::empty();
            assert(m.airports =~= e.airports);
            assert(m.vors =~= e.vors);
            assert(m.ndbs =~= e.ndbs);
            assert(m.fixes =~= e.fixes);
            assert(m.artcc_entries =~= e.artcc_entries);
            assert(m.region_groups =~= e.region_groups);
        }
        r
    }

    /// The position of the first fix, else beacon of either kind, else
    /// airport that goes by `name`: the fixes are asked first, then the VORs,
    /// the NDBs and the airports.
    pub open spec fn named_position(m: PartialSectorModel, name: Seq<char>) -> Option<Position> {
        match index_of(fix_names(m.fixes), name) {
            Some(i) => Some(m.fixes[i].position),
            None => match index_of(beacon_names(m.vors), name) {
                Some(i) => Some(m.vors[i].position),
                None => match index_of(beacon_names(m.ndbs), name) {
                    Some(i) => Some(m.ndbs[i].position),
                    None => match index_of(airport_names(m.airports), name) {
                        Some(i) => Some(m.airports[i].position),
                        None => None,
                    },
                },
            },
        }
    }

    /// The position that two tokens stand for: the coordinates that they
    /// write, moved by the offset; else the place that the first token
    /// names, as it is.
    pub open spec fn endpoint(m: PartialSectorModel, a: Seq<char>, b: Seq<char>) -> Option<
        Position,
    > {
        match m.position_creator.located(a, b) {
            Some(p) => Some(p),
            None => Self::named_position(m, a),
        }
    }

    /// Finds the place that goes by `name`.
    pub fn position_of(&self, name: &String) -> (r: Option<ValidPosition>)
        ensures
            match Self::named_position(self.deep_view(), name@) {
                Some(p) => r is Some && r->0@ == p,
                None => r is None,
            },
    {
        proof {
            assert(names_of(self.fixes@) =~= fix_names(self.fixes.deep_view()));
            assert(names_of(self.vors@) =~= beacon_names(self.vors.deep_view()));
            assert(names_of(self.ndbs@) =~= beacon_names(self.ndbs.deep_view()));
            assert(names_of(self.airports@) =~= airport_names(self.airports.deep_view()));
        }
        if let Some(i) = find(&self.fixes, name) {
            return Some(self.fixes[i].position);
        }
        if let Some(i) = find(&self.vors, name) {
            return Some(self.vors[i].position);
        }
        if let Some(i) = find(&self.ndbs, name) {
            return Some(self.ndbs[i].position);
        }
        if let Some(i) = find(&self.airports, name) {
            return Some(self.airports[i].position);
        }
        None
    }

    /// Reads two tokens as coordinates, or the first of them as the name of a
    /// place.
    pub fn try_fetch_or_decode_lat_lon(&self, lat: &[char], lon: &[char]) -> (r: Option<Position>)
        ensures
            r == Self::endpoint(self.deep_view(), lat@, lon@),
    {
        if let Ok(p) = self.position_creator.locate(lat, lon) {
            return Some(p);
        }
        let name = string(lat);
        match self.position_of(&name) {
            Some(p) => Some(p.unvalidated()),
            None => None,
        }
    }

    /// Decodes a token as a colour or looks it up among the named colours.
    pub fn try_fetch_or_decode_colour(&self, value: &[char]) -> (r: Option<Colour>)
        ensures
            r == ColourTable::resolved(self.deep_view().colours, value@),
    {
        self.colours.resolve(value)
    }

    /// The sector after a line of its head: see
    /// [`PartialSectorInfo::line_taken`].
    pub open spec fn sector_info_line(m: PartialSectorModel, line: Seq<char>) -> (
        PartialSectorModel,
        Result<(), Error>,
    ) {
        let taken = PartialSectorInfo::line_taken(m.sector_info, line, m.position_creator);
        (PartialSectorModel { sector_info: taken.0, ..m }, taken.1)
    }

    pub fn parse_sector_info_line(&mut self, value: &str) -> (r: SectorResult<()>)
        ensures
            final(self).deep_view() == Self::sector_info_line(old(self).deep_view(), value@).0,
            r == Self::sector_info_line(old(self).deep_view(), value@).1,
    {
        self.sector_info.parse_line(value, &self.position_creator)
    }

    /// The place that two tokens stand for, if it can be found and lies on
    /// the globe.
    pub open spec fn corner(m: PartialSectorModel, a: Seq<char>, b: Seq<char>) -> Option<Position> {
        match Self::endpoint(m, a, b) {
            Some(p) => if p.on_globe() {
                Some(p)
            } else {
                None
            },
            None => None,
        }
    }

    fn read_corner(&self, a: &[char], b: &[char]) -> (r: Option<ValidPosition>)
        ensures
            match Self::corner(self.deep_view(), a@, b@) {
                Some(p) => r is Some && r->0@ == p,
                None => r is None,
            },
    {
        match self.try_fetch_or_decode_lat_lon(a, b) {
            Some(p) => match p.validate() {
                Ok(v) => Some(v),
                Err(_) => None,
            },
            None => None,
        }
    }
}

} // verus!
