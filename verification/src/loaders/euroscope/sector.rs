//! What a sector file holds once it has been read.
use super::colour::{Colour, ColourTable};
use super::error::Error;
use super::line::{ColouredLine, LineGroup, Segments};
use super::partial::region::{PartialRegionGroup, PartialRegionGroupModel, PartialRegionModel};
use super::partial::sector_info::{PartialSectorInfo, PartialSectorInfoModel};
use super::partial::{PartialSector, PartialSectorModel};
use super::position::{Position, ValidPosition};
use super::waypoint::{Airport, AirportModel, BeaconModel, Fix, FixModel, Ndb, Vor};
use super::SectorResult;
use crate::loaders::ese::{errors_model, LineError};
use vstd::prelude::*;

verus! {

/// A piece of text at a position.
#[derive(Debug)]
pub struct Label {
    pub name: String,
    pub position: ValidPosition,
    pub colour: Colour,
}

pub struct LabelModel {
    pub name: Seq<char>,
    pub position: Position,
    pub colour: Colour,
}

impl DeepView for Label {
    type V = LabelModel;

    open spec fn deep_view(&self) -> LabelModel {
        LabelModel { name: self.name@, position: self.position@, colour: self.colour }
    }
}

#[derive(Debug)]
pub struct LabelGroup {
    pub name: String,
    pub labels: Vec<Label>,
}

pub struct LabelGroupModel {
    pub name: Seq<char>,
    pub labels: Seq<LabelModel>,
}

impl DeepView for LabelGroup {
    type V = LabelGroupModel;

    open spec fn deep_view(&self) -> LabelGroupModel {
        LabelGroupModel { name: self.name@, labels: self.labels.deep_view() }
    }
}

/// A filled area: its colour and its corners in order.
#[derive(Debug)]
pub struct Region {
    pub colour: Colour,
    pub vertices: Vec<ValidPosition>,
}

pub struct RegionModel {
    pub colour: Colour,
    pub vertices: Seq<Position>,
}

impl DeepView for Region {
    type V = RegionModel;

    open spec fn deep_view(&self) -> RegionModel {
        RegionModel { colour: self.colour, vertices: self.vertices.deep_view() }
    }
}

#[derive(Debug)]
pub struct RegionGroup {
    pub name: String,
    pub regions: Vec<Region>,
}

pub struct RegionGroupModel {
    pub name: Seq<char>,
    pub regions: Seq<RegionModel>,
}

impl DeepView for RegionGroup {
    type V = RegionGroupModel;

    open spec fn deep_view(&self) -> RegionGroupModel {
        RegionGroupModel { name: self.name@, regions: self.regions.deep_view() }
    }
}

/// The nine values that describe a sector as a whole. Numbers that the file
/// writes as decimals are held in billionths.
#[derive(Debug)]
pub struct SectorInfo {
    pub name: String,
    pub default_callsign: String,
    pub default_airport: String,
    pub default_centre_pt_lat: i64,
    pub default_centre_pt_lon: i64,
    pub n_mi_per_deg_lat: i64,
    pub n_mi_per_deg_lon: i64,
    pub magnetic_variation: i64,
    pub sector_scale: i64,
}

pub struct SectorInfoModel {
    pub name: Seq<char>,
    pub default_callsign: Seq<char>,
    pub default_airport: Seq<char>,
    pub default_centre_pt_lat: i64,
    pub default_centre_pt_lon: i64,
    pub n_mi_per_deg_lat: i64,
    pub n_mi_per_deg_lon: i64,
    pub magnetic_variation: i64,
    pub sector_scale: i64,
}

impl DeepView for SectorInfo {
    type V = SectorInfoModel;

    open spec fn deep_view(&self) -> SectorInfoModel {
        SectorInfoModel {
            name: self.name@,
            default_callsign: self.default_callsign@,
            default_airport: self.default_airport@,
            default_centre_pt_lat: self.default_centre_pt_lat,
            default_centre_pt_lon: self.default_centre_pt_lon,
            n_mi_per_deg_lat: self.n_mi_per_deg_lat,
            n_mi_per_deg_lon: self.n_mi_per_deg_lon,
            magnetic_variation: self.magnetic_variation,
            sector_scale: self.sector_scale,
        }
    }
}

impl SectorInfo {
    /// The nine values, if all of them have been read.
    pub open spec fn finished(m: PartialSectorInfoModel) -> Option<SectorInfoModel> {
        if m.name is Some && m.default_callsign is Some && m.default_airport is Some
            && m.default_centre_pt_lat is Some && m.default_centre_pt_lon is Some
            && m.n_mi_per_deg_lat is Some && m.n_mi_per_deg_lon is Some && m.magnetic_variation
            is Some && m.sector_scale is Some {
            Some(
                SectorInfoModel {
                    name: m.name->0,
                    default_callsign: m.default_callsign->0,
                    default_airport: m.default_airport->0,
                    default_centre_pt_lat: m.default_centre_pt_lat->0,
                    default_centre_pt_lon: m.default_centre_pt_lon->0,
                    n_mi_per_deg_lat: m.n_mi_per_deg_lat->0,
                    n_mi_per_deg_lon: m.n_mi_per_deg_lon->0,
                    magnetic_variation: m.magnetic_variation->0,
                    sector_scale: m.sector_scale->0,
                },
            )
        } else {
            None
        }
    }

    /// Closes the head of a sector file, which must be complete.
    pub fn try_from(value: PartialSectorInfo) -> (r: SectorResult<SectorInfo>)
        ensures
            match Self::finished(value.deep_view()) {
                Some(m) => r is Ok && r->Ok_0.deep_view() == m,
                None => r is Err && r->Err_0 == Error::MissingMetadata,
            },
    {
        match (
            value.name,
            value.default_callsign,
            value.default_airport,
            value.default_centre_pt_lat,
            value.default_centre_pt_lon,
            value.n_mi_per_deg_lat,
            value.n_mi_per_deg_lon,
            value.magnetic_variation,
            value.sector_scale,
        ) {
            (
                Some(name),
                Some(default_callsign),
                Some(default_airport),
                Some(default_centre_pt_lat),
                Some(default_centre_pt_lon),
                Some(n_mi_per_deg_lat),
                Some(n_mi_per_deg_lon),
                Some(magnetic_variation),
                Some(sector_scale),
            ) => Ok(
                SectorInfo {
                    name,
                    default_callsign,
                    default_airport,
                    default_centre_pt_lat,
                    default_centre_pt_lon,
                    n_mi_per_deg_lat,
                    n_mi_per_deg_lon,
                    magnetic_variation,
                    sector_scale,
                },
            ),
            _ => Err(Error::MissingMetadata),
        }
    }
}

/// A region as it is kept: one that was read without a colour is black.
pub open spec fn region_finished(region: PartialRegionModel) -> RegionModel {
    RegionModel {
        colour: match region.colour {
            Some(c) => c,
            None => Colour { r: 0, g: 0, b: 0 },
        },
        vertices: region.vertices,
    }
}

/// A group of regions as it is kept.
pub open spec fn region_group_finished(group: PartialRegionGroupModel) -> RegionGroupModel {
    RegionGroupModel {
        name: group.name,
        regions: Seq::new(group.regions.len(), |i: int| region_finished(group.regions[i])),
    }
}

/// The groups of regions as they are kept.
pub open spec fn regions_finished(groups: Seq<PartialRegionGroupModel>) -> Seq<RegionGroupModel> {
    Seq::new(groups.len(), |i: int| region_group_finished(groups[i]))
}

fn copy_positions(positions: &Vec<ValidPosition>) -> (r: Vec<ValidPosition>)
    ensures
        r@ == positions@,
{
    let mut out: Vec<ValidPosition> = Vec::new();
    let mut i: usize = 0;
    while i < positions.len()
        invariant
            i <= positions.len(),
            out@ == positions@.take(i as int),
        decreases positions.len() - i,
    {
        out.push(positions[i]);
        i += 1;
    }
    out
}

fn finish_region_group(group: &PartialRegionGroup) -> (r: RegionGroup)
    ensures
        r.deep_view() == region_group_finished(group.deep_view()),
{
    let mut regions: Vec<Region> = Vec::new();
    let mut i: usize = 0;
    while i < group.regions.len()
        invariant
            i <= group.regions.len(),
            regions.len() == i,
            forall|k: int|
                0 <= k < i ==> (#[trigger] regions@[k]).deep_view() == region_finished(
                    group.regions@[k].deep_view(),
                ),
        decreases group.regions.len() - i,
    {
        let colour = match group.regions[i].colour {
            Some(c) => c,
            None => Colour { r: 0, g: 0, b: 0 },
        };
        let vertices = copy_positions(&group.regions[i].vertices);
        let region = Region { colour, vertices };
        regions.push(region);
        i += 1;
    }
    let r = RegionGroup { name: group.name.clone(), regions };
    assert(r.deep_view().regions =~= region_group_finished(group.deep_view()).regions);
    r
}

fn finish_regions(groups: &Vec<PartialRegionGroup>) -> (r: Vec<RegionGroup>)
    ensures
        r.deep_view() == regions_finished(groups.deep_view()),
{
    let mut out: Vec<RegionGroup> = Vec::new();
    let mut i: usize = 0;
    while i < groups.len()
        invariant
            i <= groups.len(),
            out.len() == i,
            forall|k: int|
                0 <= k < i ==> (#[trigger] out@[k]).deep_view() == region_group_finished(
                    groups@[k].deep_view(),
                ),
        decreases groups.len() - i,
    {
        out.push(finish_region_group(&groups[i]));
        i += 1;
    }
    out
}

/// A sector file that has been read to its end.
#[derive(Debug)]
pub struct Sector {
    pub sector_info: SectorInfo,
    pub colours: ColourTable,
    pub airports: Vec<Airport>,
    pub vors: Vec<Vor>,
    pub ndbs: Vec<Ndb>,
    pub fixes: Vec<Fix>,
    pub artcc_entries: Vec<LineGroup<ColouredLine>>,
    pub artcc_low_entries: Vec<LineGroup<ColouredLine>>,
    pub artcc_high_entries: Vec<LineGroup<ColouredLine>>,
    pub low_airways: Vec<LineGroup<ColouredLine>>,
    pub high_airways: Vec<LineGroup<ColouredLine>>,
    pub sid_entries: Vec<LineGroup<ColouredLine>>,
    pub star_entries: Vec<LineGroup<ColouredLine>>,
    pub geo_entries: Vec<LineGroup<ColouredLine>>,
    pub regions: Vec<RegionGroup>,
    pub labels: Vec<LabelGroup>,
    pub non_critical_errors: Vec<LineError>,
}

pub struct SectorModel {
    pub sector_info: SectorInfoModel,
    pub colours: Map<Seq<char>, Colour>,
    pub airports: Seq<AirportModel>,
    pub vors: Seq<BeaconModel>,
    pub ndbs: Seq<BeaconModel>,
    pub fixes: Seq<FixModel>,
    pub artcc_entries: Seq<Segments>,
    pub artcc_low_entries: Seq<Segments>,
    pub artcc_high_entries: Seq<Segments>,
    pub low_airways: Seq<Segments>,
    pub high_airways: Seq<Segments>,
    pub sid_entries: Seq<Segments>,
    pub star_entries: Seq<Segments>,
    pub geo_entries: Seq<Segments>,
    pub regions: Seq<RegionGroupModel>,
    pub labels: Seq<LabelGroupModel>,
    pub non_critical_errors: Seq<(usize, Seq<char>, Error)>,
}

impl DeepView for Sector {
    type V = SectorModel;

    open spec fn deep_view(&self) -> SectorModel {
        SectorModel {
            sector_info: self.sector_info.deep_view(),
            colours: self.colours@,
            airports: self.airports.deep_view(),
            vors: self.vors.deep_view(),
            ndbs: self.ndbs.deep_view(),
            fixes: self.fixes.deep_view(),
            artcc_entries: self.artcc_entries.deep_view(),
            artcc_low_entries: self.artcc_low_entries.deep_view(),
            artcc_high_entries: self.artcc_high_entries.deep_view(),
            low_airways: self.low_airways.deep_view(),
            high_airways: self.high_airways.deep_view(),
            sid_entries: self.sid_entries.deep_view(),
            star_entries: self.star_entries.deep_view(),
            geo_entries: self.geo_entries.deep_view(),
            regions: self.regions.deep_view(),
            labels: self.labels.deep_view(),
            non_critical_errors: errors_model(self.non_critical_errors@),
        }
    }
}

impl Sector {
    /// What has been read, with no line marked as unusable yet, if the head
    /// of the file is complete.
    pub open spec fn finished(m: PartialSectorModel) -> Option<SectorModel> {
        match SectorInfo::finished(m.sector_info) {
            Some(info) => Some(
                SectorModel {
                    sector_info: info,
                    colours: m.colours,
                    airports: m.airports,
                    vors: m.vors,
                    ndbs: m.ndbs,
                    fixes: m.fixes,
                    artcc_entries: m.artcc_entries,
                    artcc_low_entries: m.artcc_low_entries,
                    artcc_high_entries: m.artcc_high_entries,
                    low_airways: m.low_airways,
                    high_airways: m.high_airways,
                    sid_entries: m.sid_entries,
                    star_entries: m.star_entries,
                    geo_entries: m.geo_entries,
                    regions: regions_finished(m.region_groups),
                    labels: m.labels,
                    non_critical_errors: Seq::empty(),
                },
            ),
            None => None,
        }
    }

    /// Closes a sector. Its head must be complete: a sector that lacks one
    /// of the nine values is no sector.
    pub fn try_from(value: PartialSector) -> (r: SectorResult<Sector>)
        ensures
            match Self::finished(value.deep_view()) {
                Some(m) => r is Ok && r->Ok_0.deep_view() == m,
                None => r is Err && r->Err_0 == Error::MissingMetadata,
            },
    {
        let regions = finish_regions(&value.region_groups);
        let sector_info = match SectorInfo::try_from(value.sector_info) {
            Ok(info) => info,
            Err(e) => {
                return Err(e);
            },
        };
        let sector = Sector {
            sector_info,
            colours: value.colours,
            airports: value.airports,
            vors: value.vors,
            ndbs: value.ndbs,
            fixes: value.fixes,
            artcc_entries: value.artcc_entries,
            artcc_low_entries: value.artcc_low_entries,
            artcc_high_entries: value.artcc_high_entries,
            low_airways: value.low_airways,
            high_airways: value.high_airways,
            sid_entries: value.sid_entries,
            star_entries: value.star_entries,
            geo_entries: value.geo_entries,
            regions,
            labels: value.labels,
            non_critical_errors: Vec::new(),
        };
        assert(sector.deep_view().non_critical_errors =~= Seq::empty());
        Ok(sector)
    }
}

} // verus!
