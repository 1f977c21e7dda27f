//! The lines of airports, beacons and fixes.
use super::{handled, BeaconType, PartialSector, PartialSectorModel, PositionCreator};
use crate::loaders::euroscope::error::Error;
use crate::loaders::euroscope::waypoint::{
    Airport, AirportModel, BeaconModel, Fix, FixModel, Ndb, Vor,
};
use crate::loaders::euroscope::{AirspaceClass, SectorResult};
use crate::text::{chars, split_whitespace, string, words};
use vstd::prelude::*;

verus! {

impl PartialSector {
    /// What a line of the fixes says: a name, then a latitude and a
    /// longitude.
    pub open spec fn fix_written(creator: PositionCreator, line: Seq<char>) -> Result<
        FixModel,
        Error,
    > {
        let t = words(line);
        if t.len() < 3 {
            Err(Error::InvalidFix)
        } else {
            match creator.placed(t[1], t[2]) {
                Ok(p) => Ok(FixModel { identifier: t[0], position: p }),
                Err(e) => Err(e),
            }
        }
    }

    /// The sector after a line of the fixes.
    pub open spec fn fixes_line(m: PartialSectorModel, line: Seq<char>) -> Result<
        PartialSectorModel,
        Error,
    > {
        match Self::fix_written(m.position_creator, line) {
            Ok(fix) => Ok(PartialSectorModel { fixes: m.fixes.push(fix), ..m }),
            Err(e) => Err(e),
        }
    }

    pub fn parse_fixes_line(&mut self, value: &str) -> (r: SectorResult<()>)
        ensures
            handled(
                old(self).deep_view(),
                final(self).deep_view(),
                r,
                Self::fixes_line(old(self).deep_view(), value@),
            ),
    {
        let line = chars(value);
        let t = split_whitespace(line.as_slice());
        if t.len() < 3 {
            return Err(Error::InvalidFix);
        }
        let position = match self.position_creator.place(t[1], t[2]) {
            Ok(p) => p,
            Err(e) => {
                return Err(e);
            },
        };
        let fix = Fix { identifier: string(t[0]), position };
        self.fixes.push(fix);
        proof {
            assert(self.fixes.deep_view() =~= old(self).fixes.deep_view().push(fix.deep_view()));
        }
        Ok(())
    }

    /// What a line of the airports says: a name, the frequency of the tower,
    /// a latitude, a longitude and the class of the airspace.
    pub open spec fn airport_written(creator: PositionCreator, line: Seq<char>) -> Result<
        AirportModel,
        Error,
    > {
        let t = words(line);
        if t.len() < 4 {
            Err(Error::InvalidWaypoint)
        } else {
            match creator.placed(t[2], t[3]) {
                Err(e) => Err(e),
                Ok(p) => if t.len() < 5 {
                    Err(Error::InvalidWaypoint)
                } else {
                    match AirspaceClass::named(t[4]) {
                        None => Err(Error::InvalidAirspaceClass),
                        Some(class) => Ok(
                            AirportModel {
                                identifier: t[0],
                                position: p,
                                tower_frequency: t[1],
                                airspace_class: class,
                                runways: Seq::empty(),
                            },
                        ),
                    }
                },
            }
        }
    }

    /// The sector after a line of the airports.
    pub open spec fn airport_line(m: PartialSectorModel, line: Seq<char>) -> Result<
        PartialSectorModel,
        Error,
    > {
        match Self::airport_written(m.position_creator, line) {
            Ok(airport) => Ok(PartialSectorModel { airports: m.airports.push(airport), ..m }),
            Err(e) => Err(e),
        }
    }

    pub fn parse_airport_line(&mut self, value: &str) -> (r: SectorResult<()>)
        ensures
            handled(
                old(self).deep_view(),
                final(self).deep_view(),
                r,
                Self::airport_line(old(self).deep_view(), value@),
            ),
    {
        let line = chars(value);
        let t = split_whitespace(line.as_slice());
        if t.len() < 4 {
            return Err(Error::InvalidWaypoint);
        }
        let position = match self.position_creator.place(t[2], t[3]) {
            Ok(p) => p,
            Err(e) => {
                return Err(e);
            },
        };
        if t.len() < 5 {
            return Err(Error::InvalidWaypoint);
        }
        let airspace_class = match AirspaceClass::from_chars(t[4]) {
            Ok(c) => c,
            Err(e) => {
                return Err(e);
            },
        };
        let airport = Airport {
            identifier: string(t[0]),
            position,
            tower_frequency: string(t[1]),
            airspace_class,
            runways: Vec::new(),
        };
        self.airports.push(airport);
        proof {
            assert(airport.runways.deep_view() =~= Seq::empty());
            assert(self.airports.deep_view() =~= old(self).airports.deep_view().push(
                airport.deep_view(),
            ));
        }
        Ok(())
    }

    /// What a line of the beacons says: a name, a frequency, a latitude and a
    /// longitude.
    pub open spec fn beacon_written(creator: PositionCreator, line: Seq<char>) -> Result<
        BeaconModel,
        Error,
    > {
        let t = words(line);
        if t.len() < 4 {
            Err(Error::InvalidVorOrNdb)
        } else {
            match creator.placed(t[2], t[3]) {
                Ok(p) => Ok(BeaconModel { identifier: t[0], position: p, frequency: t[1] }),
                Err(e) => Err(e),
            }
        }
    }

    /// The sector after a line of the beacons of one kind.
    pub open spec fn beacon_line(
        m: PartialSectorModel,
        line: Seq<char>,
        beacon_type: BeaconType,
    ) -> Result<PartialSectorModel, Error> {
        match Self::beacon_written(m.position_creator, line) {
            Ok(beacon) => Ok(
                match beacon_type {
                    BeaconType::Vor => PartialSectorModel { vors: m.vors.push(beacon), ..m },
                    BeaconType::Ndb => PartialSectorModel { ndbs: m.ndbs.push(beacon), ..m },
                },
            ),
            Err(e) => Err(e),
        }
    }

    pub fn parse_vor_or_ndb_line(&mut self, value: &str, beacon_type: BeaconType) -> (r:
        SectorResult<()>)
        ensures
            handled(
                old(self).deep_view(),
                final(self).deep_view(),
                r,
                Self::beacon_line(old(self).deep_view(), value@, beacon_type),
            ),
    {
        let line = chars(value);
        let t = split_whitespace(line.as_slice());
        if t.len() < 4 {
            return Err(Error::InvalidVorOrNdb);
        }
        let position = match self.position_creator.place(t[2], t[3]) {
            Ok(p) => p,
            Err(e) => {
                return Err(e);
            },
        };
        let identifier = string(t[0]);
        let frequency = string(t[1]);
        match beacon_type {
            BeaconType::Ndb => {
                let ndb = Ndb { identifier, position, frequency };
                self.ndbs.push(ndb);
                proof {
                    assert(self.ndbs.deep_view() =~= old(self).ndbs.deep_view().push(
                        ndb.deep_view(),
                    ));
                }
            },
            BeaconType::Vor => {
                let vor = Vor { identifier, position, frequency };
                self.vors.push(vor);
                proof {
                    assert(self.vors.deep_view() =~= old(self).vors.deep_view().push(
                        vor.deep_view(),
                    ));
                }
            },
        }
        Ok(())
    }
}

} // verus!
