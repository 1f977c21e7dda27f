//! Regions while they are being read.
use super::{handled, PartialSector, PartialSectorModel};
use crate::loaders::euroscope::colour::{Colour, ColourTable};
use crate::loaders::euroscope::error::Error;
use crate::loaders::euroscope::position::{Position, ValidPosition};
use crate::loaders::euroscope::SectorResult;
use crate::text::{
    chars, find, index_of, is_literal, join, joined, names_of, split_whitespace, string, words,
    Named,
};
use vstd::prelude::*;

verus! {

/// A region that may still gain corners.
#[derive(Debug)]
pub struct PartialRegion {
    pub colour: Option<Colour>,
    pub vertices: Vec<ValidPosition>,
}

pub struct PartialRegionModel {
    pub colour: Option<Colour>,
    pub vertices: Seq<Position>,
}

impl DeepView for PartialRegion {
    type V = PartialRegionModel;

    open spec fn deep_view(&self) -> PartialRegionModel {
        PartialRegionModel { colour: self.colour, vertices: self.vertices.deep_view() }
    }
}

#[derive(Debug)]
pub struct PartialRegionGroup {
    pub name: String,
    pub regions: Vec<PartialRegion>,
}

pub struct PartialRegionGroupModel {
    pub name: Seq<char>,
    pub regions: Seq<PartialRegionModel>,
}

impl DeepView for PartialRegionGroup {
    type V = PartialRegionGroupModel;

    open spec fn deep_view(&self) -> PartialRegionGroupModel {
        PartialRegionGroupModel { name: self.name@, regions: self.regions.deep_view() }
    }
}

impl Named for PartialRegionGroup {
    open spec fn name_view(&self) -> Seq<char> {
        self.name@
    }

    fn name(&self) -> (r: &String) {
        &self.name
    }
}

/// The names of groups of regions, in order.
pub open spec fn region_group_names(s: Seq<PartialRegionGroupModel>) -> Seq<Seq<char>> {
    Seq::new(s.len(), |i: int| s[i].name)
}

/// The groups of regions with one more corner on the last region of the
/// group at index `i`.
pub open spec fn with_vertex(groups: Seq<PartialRegionGroupModel>, i: int, p: Position) -> Seq<
    PartialRegionGroupModel,
> {
    let group = groups[i];
    let region = group.regions.last();
    groups.update(
        i,
        PartialRegionGroupModel {
            name: group.name,
            regions: group.regions.update(
                group.regions.len() - 1,
                PartialRegionModel { colour: region.colour, vertices: region.vertices.push(p) },
            ),
        },
    )
}

/// Where the group of regions that goes by `name` stands, or will stand once
/// it is made.
pub open spec fn region_group_index(groups: Seq<PartialRegionGroupModel>, name: Seq<char>) -> int {
    match index_of(region_group_names(groups), name) {
        Some(i) => i,
        None => groups.len() as int,
    }
}

/// The groups of regions with a new region, still without corners, in the
/// first group that goes by `name`; the group is made, at the end, where
/// there is none.
pub open spec fn with_region(
    groups: Seq<PartialRegionGroupModel>,
    name: Seq<char>,
    colour: Colour,
) -> Seq<PartialRegionGroupModel> {
    let region = PartialRegionModel { colour: Some(colour), vertices: Seq::empty() };
    match index_of(region_group_names(groups), name) {
        Some(i) => groups.update(
            i,
            PartialRegionGroupModel { name: groups[i].name, regions: groups[i].regions.push(region) },
        ),
        None => groups.push(PartialRegionGroupModel { name, regions: seq![region] }),
    }
}

impl PartialSector {
    /// The sector after a line of the regions.
    ///
    /// `REGIONNAME` and a name set the name under which regions are filed
    /// from then on. A line of three tokens, a colour and the two tokens of a
    /// corner, starts a region under that name; the region is kept even where
    /// the corner cannot be used. Any other line ends in the two tokens of a
    /// corner, which goes to the last region under that name.
    pub open spec fn region_line(m: PartialSectorModel, line: Seq<char>) -> Result<
        PartialSectorModel,
        Error,
    > {
        let t = words(line);
        if t.len() < 2 {
            Err(Error::InvalidRegion)
        } else if t[0] == "REGIONNAME"@ {
            Ok(PartialSectorModel { current_region_name: joined(t.skip(1), ' '), ..m })
        } else {
            let corner = Self::corner(m, t[t.len() - 2], t[t.len() - 1]);
            let name = m.current_region_name;
            if t.len() == 3 {
                match ColourTable::resolved(m.colours, t[0]) {
                    None => Err(Error::InvalidRegion),
                    Some(colour) => {
                        let groups = with_region(m.region_groups, name, colour);
                        Ok(
                            PartialSectorModel {
                                region_groups: match corner {
                                    Some(p) => with_vertex(
                                        groups,
                                        region_group_index(m.region_groups, name),
                                        p,
                                    ),
                                    None => groups,
                                },
                                ..m
                            },
                        )
                    },
                }
            } else {
                match (corner, index_of(region_group_names(m.region_groups), name)) {
                    (Some(p), Some(i)) => if m.region_groups[i].regions.len() == 0 {
                        Err(Error::InvalidRegion)
                    } else {
                        Ok(PartialSectorModel { region_groups: with_vertex(m.region_groups, i, p), ..m })
                    },
                    _ => Err(Error::InvalidRegion),
                }
            }
        }
    }

    pub fn parse_region_line(&mut self, value: &str) -> (r: SectorResult<()>)
        ensures
            handled(
                old(self).deep_view(),
                final(self).deep_view(),
                r,
                Self::region_line(old(self).deep_view(), value@),
            ),
    {
        let line = chars(value);
        let t = split_whitespace(line.as_slice());
        if t.len() < 2 {
            return Err(Error::InvalidRegion);
        }
        let n: usize = t.len();
        proof {
            assert(names_of(self.region_groups@) =~= region_group_names(
                self.region_groups.deep_view(),
            ));
        }
        if is_literal(t[0], "REGIONNAME") {
            let name = join(&t, 1, n, ' ');
            self.current_region_name = string(name.as_slice());
            return Ok(());
        }
        let corner = self.read_corner(t[n - 2], t[n - 1]);
        if n == 3 {
            let colour = match self.try_fetch_or_decode_colour(t[0]) {
                Some(c) => c,
                None => {
                    return Err(Error::InvalidRegion);
                },
            };
            let region = PartialRegion { colour: Some(colour), vertices: Vec::new() };
            let ghost region_model = PartialRegionModel {
                colour: Some(colour),
                vertices: Seq::<Position>::empty(),
            };
            assert(region.vertices.deep_view() =~= Seq::<Position>::empty());
            let ghost before = self.region_groups.deep_view();
            let i: usize = match find(&self.region_groups, &self.current_region_name) {
                Some(i) => {
                    self.region_groups[i].regions.push(region);
                    proof {
                        assert(self.region_groups@[i as int].regions.deep_view()
                            =~= before[i as int].regions.push(region_model));
                        assert(self.region_groups.deep_view() =~= before.update(
                            i as int,
                            PartialRegionGroupModel {
                                name: before[i as int].name,
                                regions: before[i as int].regions.push(region_model),
                            },
                        ));
                    }
                    i
                },
                None => {
                    let i: usize = self.region_groups.len();
                    let mut regions: Vec<PartialRegion> = Vec::new();
                    regions.push(region);
                    assert(regions.deep_view() =~= seq![region_model]);
                    let group = PartialRegionGroup {
                        name: self.current_region_name.clone(),
                        regions,
                    };
                    self.region_groups.push(group);
                    proof {
                        assert(self.region_groups.deep_view() =~= before.push(
                            PartialRegionGroupModel {
                                name: self.current_region_name@,
                                regions: seq![region_model],
                            },
                        ));
                    }
                    i
                },
            };
            if let Some(p) = corner {
                self.add_vertex(i, p);
            }
            return Ok(());
        }
        let p = match corner {
            Some(p) => p,
            None => {
                return Err(Error::InvalidRegion);
            },
        };
        let i = match find(&self.region_groups, &self.current_region_name) {
            Some(i) => i,
            None => {
                return Err(Error::InvalidRegion);
            },
        };
        if self.region_groups[i].regions.len() == 0 {
            return Err(Error::InvalidRegion);
        }
        self.add_vertex(i, p);
        Ok(())
    }

    fn add_vertex(&mut self, i: usize, p: ValidPosition)
        requires
            i < old(self).region_groups.len(),
            old(self).region_groups[i as int].regions.len() > 0,
        ensures
            final(self).deep_view() == (PartialSectorModel {
                region_groups: with_vertex(old(self).deep_view().region_groups, i as int, p@),
                ..old(self).deep_view()
            }),
    {
        let k: usize = self.region_groups[i].regions.len() - 1;
        self.region_groups[i].regions[k].vertices.push(p);
        proof {
            let before = old(self).region_groups.deep_view();
            let group = before[i as int];
            let region = group.regions.last();
            assert(self.region_groups@[i as int].regions@[k as int].vertices.deep_view()
                =~= region.vertices.push(p@));
            assert(self.region_groups@[i as int].regions.deep_view() =~= group.regions.update(
                k as int,
                PartialRegionModel { colour: region.colour, vertices: region.vertices.push(p@) },
            ));
            assert(self.region_groups.deep_view() =~= with_vertex(before, i as int, p@));
        }
    }
}

} // verus!
