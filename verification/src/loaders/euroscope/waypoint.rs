//! Places with a name: airports with their runways, beacons and fixes.
use super::position::{Heading, Position, ValidPosition};
use super::AirspaceClass;
use crate::text::Named;
use vstd::prelude::*;

verus! {

/// What the letter behind a runway's number says of it.
#[derive(Debug, Clone, Copy, PartialEq, Eq, PartialOrd, Ord, Hash, Structural)]
pub enum RunwayModifier {
    Left,
    Centre,
    Right,
    Grass,
    /// No letter follows the number.
    Unmarked,
}

impl RunwayModifier {
    /// The letter that stands for the modifier behind a runway's number.
    pub open spec fn letter(self) -> Seq<char> {
        match self {
            RunwayModifier::Left => seq!['L'],
            RunwayModifier::Centre => seq!['C'],
            RunwayModifier::Right => seq!['R'],
            RunwayModifier::Grass => seq!['G'],
            RunwayModifier::Unmarked => Seq::empty(),
        }
    }

    /// The modifier as it is written behind a runway's number.
    pub fn to_string(&self) -> (r: String)
        ensures
            r@ == self.letter(),
    {
        let mut out = String::new();
        match self {
            RunwayModifier::Left => out.push('L'),
            RunwayModifier::Centre => out.push('C'),
            RunwayModifier::Right => out.push('R'),
            RunwayModifier::Grass => out.push('G'),
            RunwayModifier::Unmarked => {},
        }
        out
    }
}

/// One end of a runway.
#[derive(Debug, Clone, Copy)]
pub struct RunwayEnd {
    pub number: u8,
    pub td_threshold_pos: ValidPosition,
    pub se_threshold_pos: ValidPosition,
    pub modifier: RunwayModifier,
    pub magnetic_hdg: Heading,
}

pub struct RunwayEndModel {
    pub number: u8,
    pub td_threshold_pos: Position,
    pub se_threshold_pos: Position,
    pub modifier: RunwayModifier,
    pub magnetic_hdg: int,
}

impl DeepView for RunwayEnd {
    type V = RunwayEndModel;

    open spec fn deep_view(&self) -> RunwayEndModel {
        RunwayEndModel {
            number: self.number,
            td_threshold_pos: self.td_threshold_pos@,
            se_threshold_pos: self.se_threshold_pos@,
            modifier: self.modifier,
            magnetic_hdg: self.magnetic_hdg@,
        }
    }
}

/// A runway: its two ends, the one with the lower number first.
#[derive(Debug, Clone, Copy)]
pub struct RunwayStrip {
    pub end_a: RunwayEnd,
    pub end_b: RunwayEnd,
}

pub struct RunwayStripModel {
    pub end_a: RunwayEndModel,
    pub end_b: RunwayEndModel,
}

impl DeepView for RunwayStrip {
    type V = RunwayStripModel;

    open spec fn deep_view(&self) -> RunwayStripModel {
        RunwayStripModel { end_a: self.end_a.deep_view(), end_b: self.end_b.deep_view() }
    }
}

#[derive(Debug)]
pub struct Airport {
    pub identifier: String,
    pub position: ValidPosition,
    pub tower_frequency: String,
    pub airspace_class: AirspaceClass,
    pub runways: Vec<RunwayStrip>,
}

pub struct AirportModel {
    pub identifier: Seq<char>,
    pub position: Position,
    pub tower_frequency: Seq<char>,
    pub airspace_class: AirspaceClass,
    pub runways: Seq<RunwayStripModel>,
}

impl DeepView for Airport {
    type V = AirportModel;

    open spec fn deep_view(&self) -> AirportModel {
        AirportModel {
            identifier: self.identifier@,
            position: self.position@,
            tower_frequency: self.tower_frequency@,
            airspace_class: self.airspace_class,
            runways: self.runways.deep_view(),
        }
    }
}

impl Named for Airport {
    open spec fn name_view(&self) -> Seq<char> {
        self.identifier@
    }

    fn name(&self) -> (r: &String) {
        &self.identifier
    }
}

#[derive(Debug)]
pub struct Fix {
    pub identifier: String,
    pub position: ValidPosition,
}

pub struct FixModel {
    pub identifier: Seq<char>,
    pub position: Position,
}

impl DeepView for Fix {
    type V = FixModel;

    open spec fn deep_view(&self) -> FixModel {
        FixModel { identifier: self.identifier@, position: self.position@ }
    }
}

impl Named for Fix {
    open spec fn name_view(&self) -> Seq<char> {
        self.identifier@
    }

    fn name(&self) -> (r: &String) {
        &self.identifier
    }
}

/// What is known of a beacon, of either kind.
pub struct BeaconModel {
    pub identifier: Seq<char>,
    pub position: Position,
    pub frequency: Seq<char>,
}

#[derive(Debug)]
pub struct Vor {
    pub identifier: String,
    pub position: ValidPosition,
    pub frequency: String,
}

impl DeepView for Vor {
    type V = BeaconModel;

    open spec fn deep_view(&self) -> BeaconModel {
        BeaconModel {
            identifier: self.identifier@,
            position: self.position@,
            frequency: self.frequency@,
        }
    }
}

impl Named for Vor {
    open spec fn name_view(&self) -> Seq<char> {
        self.identifier@
    }

    fn name(&self) -> (r: &String) {
        &self.identifier
    }
}

#[derive(Debug)]
pub struct Ndb {
    pub identifier: String,
    pub position: ValidPosition,
    pub frequency: String,
}

impl DeepView for Ndb {
    type V = BeaconModel;

    open spec fn deep_view(&self) -> BeaconModel {
        BeaconModel {
            identifier: self.identifier@,
            position: self.position@,
            frequency: self.frequency@,
        }
    }
}

impl Named for Ndb {
    open spec fn name_view(&self) -> Seq<char> {
        self.identifier@
    }

    fn name(&self) -> (r: &String) {
        &self.identifier
    }
}

/// The identifiers of fixes, in order.
pub open spec fn fix_names(s: Seq<FixModel>) -> Seq<Seq<char>> {
    Seq::new(s.len(), |i: int| s[i].identifier)
}

/// The identifiers of beacons, in order.
pub open spec fn beacon_names(s: Seq<BeaconModel>) -> Seq<Seq<char>> {
    Seq::new(s.len(), |i: int| s[i].identifier)
}

/// The identifiers of airports, in order.
pub open spec fn airport_names(s: Seq<AirportModel>) -> Seq<Seq<char>> {
    Seq::new(s.len(), |i: int| s[i].identifier)
}

} // verus!
