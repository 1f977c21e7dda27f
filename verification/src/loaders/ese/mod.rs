//! The supplementary file of a sector: free text, procedures by runway and
//! controller positions.
use crate::loaders::euroscope::colour::{Colour, ColourTable};
use crate::loaders::euroscope::error::Error;
use crate::loaders::euroscope::partial::{read_runway_identifier, runway_identifier};
use crate::loaders::euroscope::position::{Position, ValidPosition};
use crate::loaders::euroscope::waypoint::RunwayModifier;
use crate::loaders::euroscope::SectorResult;
use crate::text::{chars, Named};
use partial::{PartialEse, PartialEseModel};
use vstd::prelude::*;

pub mod partial;
pub mod reader;

verus! {

/// A line that could not be used: its number, counted from 1, what was left
/// of it after its comment was taken away, and what is wrong with it.
pub type LineError = (usize, String, Error);

/// What a list of unusable lines stands for.
pub open spec fn errors_model(errors: Seq<LineError>) -> Seq<(usize, Seq<char>, Error)> {
    Seq::new(errors.len(), |i: int| (errors[i].0, errors[i].1@, errors[i].2))
}

/// What a supplementary file holds once it has been read.
#[derive(Debug)]
pub struct Ese {
    pub colours: ColourTable,
    pub free_text: Vec<FreeTextGroup>,
    pub sids_stars: Vec<Airport>,
    pub non_critical_errors: Vec<LineError>,
    pub atc_positions: Vec<AtcPosition>,
}

pub struct EseModel {
    pub colours: Map<Seq<char>, Colour>,
    pub free_text: Seq<FreeTextGroupModel>,
    pub sids_stars: Seq<AirportModel>,
    pub non_critical_errors: Seq<(usize, Seq<char>, Error)>,
    pub atc_positions: Seq<AtcPositionModel>,
}

impl DeepView for Ese {
    type V = EseModel;

    open spec fn deep_view(&self) -> EseModel {
        EseModel {
            colours: self.colours@,
            free_text: self.free_text.deep_view(),
            sids_stars: self.sids_stars.deep_view(),
            non_critical_errors: errors_model(self.non_critical_errors@),
            atc_positions: self.atc_positions.deep_view(),
        }
    }
}

impl Ese {
    /// What has been read, with no line marked as unusable yet.
    pub open spec fn finished(m: PartialEseModel) -> EseModel {
        EseModel {
            colours: m.colours,
            free_text: m.free_text,
            sids_stars: m.sids_stars,
            non_critical_errors: Seq::empty(),
            atc_positions: m.atc_positions,
        }
    }

    /// Closes what has been read. This cannot fail.
    pub fn try_from(value: PartialEse) -> (r: SectorResult<Ese>)
        ensures
            r is Ok,
            r->Ok_0.deep_view() == Self::finished(value.deep_view()),
    {
        let ese = Ese {
            colours: value.colours,
            free_text: value.free_text,
            sids_stars: value.sids_stars,
            atc_positions: value.atc_positions,
            non_critical_errors: Vec::new(),
        };
        assert(ese.deep_view().non_critical_errors =~= Seq::empty());
        Ok(ese)
    }
}

/// A piece of text at a position.
#[derive(Debug)]
pub struct FreeText {
    pub position: ValidPosition,
    pub text: String,
}

pub struct FreeTextModel {
    pub position: Position,
    pub text: Seq<char>,
}

impl DeepView for FreeText {
    type V = FreeTextModel;

    open spec fn deep_view(&self) -> FreeTextModel {
        FreeTextModel { position: self.position@, text: self.text@ }
    }
}

#[derive(Debug)]
pub struct FreeTextGroup {
    pub name: String,
    pub entries: Vec<FreeText>,
}

pub struct FreeTextGroupModel {
    pub name: Seq<char>,
    pub entries: Seq<FreeTextModel>,
}

impl DeepView for FreeTextGroup {
    type V = FreeTextGroupModel;

    open spec fn deep_view(&self) -> FreeTextGroupModel {
        FreeTextGroupModel { name: self.name@, entries: self.entries.deep_view() }
    }
}

impl Named for FreeTextGroup {
    open spec fn name_view(&self) -> Seq<char> {
        self.name@
    }

    fn name(&self) -> (r: &String) {
        &self.name
    }
}

/// The names of groups of free text, in order.
pub open spec fn free_text_names(s: Seq<FreeTextGroupModel>) -> Seq<Seq<char>> {
    Seq::new(s.len(), |i: int| s[i].name)
}

#[derive(Debug, Clone, Copy, PartialEq, Eq, Structural)]
pub enum ProcedureType {
    SID,
    STAR,
}

/// A departure or an arrival: its name and the points of its route.
#[derive(Debug)]
pub struct Procedure {
    pub proc_type: ProcedureType,
    pub identifier: String,
    pub route: Vec<String>,
}

pub struct ProcedureModel {
    pub proc_type: ProcedureType,
    pub identifier: Seq<char>,
    pub route: Seq<Seq<char>>,
}

impl DeepView for Procedure {
    type V = ProcedureModel;

    open spec fn deep_view(&self) -> ProcedureModel {
        ProcedureModel {
            proc_type: self.proc_type,
            identifier: self.identifier@,
            route: self.route.deep_view(),
        }
    }
}

/// A runway by its number, from 1 to 36, and its modifier.
#[derive(Debug, PartialEq, Eq, PartialOrd, Ord, Hash, Clone, Copy)]
pub struct RunwayIdentifier {
    number: u8,
    modifier: RunwayModifier,
}

impl View for RunwayIdentifier {
    type V = (u8, RunwayModifier);

    closed spec fn view(&self) -> (u8, RunwayModifier) {
        (self.number, self.modifier)
    }
}

impl DeepView for RunwayIdentifier {
    type V = (u8, RunwayModifier);

    open spec fn deep_view(&self) -> (u8, RunwayModifier) {
        self@
    }
}

/// The tens and the ones of a number below 100, as two digits.
pub open spec fn two_digits(n: u8) -> Seq<char> {
    seq![((n / 10) as u8 + 0x30) as char, ((n % 10) as u8 + 0x30) as char]
}

impl RunwayIdentifier {
    #[verifier::type_invariant]
    spec fn numbered(self) -> bool {
        1 <= self.number <= 36
    }

    /// Reads a runway's identifier: its number, then optionally one of the
    /// letters `L`, `C`, `R` and `G`.
    pub fn from_chars(s: &[char]) -> (r: SectorResult<RunwayIdentifier>)
        ensures
            match runway_identifier(s@) {
                Some(id) => r is Ok && r->Ok_0@ == id,
                None => r is Err && r->Err_0 == Error::InvalidRunway,
            },
    {
        match read_runway_identifier(s) {
            Ok((number, modifier)) => Ok(RunwayIdentifier { number, modifier }),
            Err(e) => Err(e),
        }
    }

    /// Reads a runway's identifier: its number, then optionally one of the
    /// letters `L`, `C`, `R` and `G`.
    pub fn from_str(s: &str) -> (r: SectorResult<RunwayIdentifier>)
        ensures
            match runway_identifier(s@) {
                Some(id) => r is Ok && r->Ok_0@ == id,
                None => r is Err && r->Err_0 == Error::InvalidRunway,
            },
    {
        let c = chars(s);
        Self::from_chars(c.as_slice())
    }

    pub fn number(&self) -> (r: u8)
        ensures
            r == self@.0,
            1 <= r <= 36,
    {
        proof {
            use_type_invariant(self);
        }
        self.number
    }

    pub fn modifier(&self) -> (r: RunwayModifier)
        ensures
            r == self@.1,
    {
        self.modifier
    }

    pub fn number_and_modifier(&self) -> (r: (u8, RunwayModifier))
        ensures
            r == self@,
            1 <= r.0 <= 36,
    {
        proof {
            use_type_invariant(self);
        }
        (self.number, self.modifier)
    }

    /// Whether two identifiers name the same runway.
    pub fn same(&self, other: &RunwayIdentifier) -> (r: bool)
        ensures
            r == (self@ == other@),
    {
        self.number == other.number && self.modifier == other.modifier
    }

    /// The identifier as it is written: the number with two digits, then the
    /// letter of the modifier.
    pub fn to_string(&self) -> (r: String)
        ensures
            r@ == two_digits(self@.0) + self@.1.letter(),
    {
        proof {
            use_type_invariant(self);
        }
        let mut out = String::new();
        out.push(((self.number / 10) + 0x30) as char);
        out.push(((self.number % 10) + 0x30) as char);
        let letter = self.modifier.to_string();
        out.append(letter.as_str());
        out
    }
}

/// The procedures of one runway.
#[derive(Debug)]
pub struct RunwayProcedures {
    pub runway: RunwayIdentifier,
    pub procedures: Vec<Procedure>,
}

pub struct RunwayProceduresModel {
    pub runway: (u8, RunwayModifier),
    pub procedures: Seq<ProcedureModel>,
}

impl DeepView for RunwayProcedures {
    type V = RunwayProceduresModel;

    open spec fn deep_view(&self) -> RunwayProceduresModel {
        RunwayProceduresModel { runway: self.runway@, procedures: self.procedures.deep_view() }
    }
}

/// An airport with its procedures, runway by runway. The reader files the
/// procedures of a runway under one entry.
#[derive(Debug)]
pub struct Airport {
    pub identifier: String,
    pub runways: Vec<RunwayProcedures>,
}

pub struct AirportModel {
    pub identifier: Seq<char>,
    pub runways: Seq<RunwayProceduresModel>,
}

impl DeepView for Airport {
    type V = AirportModel;

    open spec fn deep_view(&self) -> AirportModel {
        AirportModel { identifier: self.identifier@, runways: self.runways.deep_view() }
    }
}

impl Named for Airport {
    open spec fn name_view(&self) -> Seq<char> {
        self.identifier@
    }

    fn name(&self) -> (r: &String) {
        &self.identifier
    }
}

/// The identifiers of airports, in order.
pub open spec fn airport_names(s: Seq<AirportModel>) -> Seq<Seq<char>> {
    Seq::new(s.len(), |i: int| s[i].identifier)
}

/// A controller's position.
#[derive(Debug)]
pub struct AtcPosition {
    pub name: String,
    pub rt_callsign: String,
    pub radio_freq: String,
    pub short_identifier: String,
    pub full_identifier: String,
    pub start_squawk: Option<u16>,
    pub end_squawk: Option<u16>,
    pub vis_centres: [Option<ValidPosition>; 4],
}

pub struct AtcPositionModel {
    pub name: Seq<char>,
    pub rt_callsign: Seq<char>,
    pub radio_freq: Seq<char>,
    pub short_identifier: Seq<char>,
    pub full_identifier: Seq<char>,
    pub start_squawk: Option<u16>,
    pub end_squawk: Option<u16>,
    pub vis_centres: Seq<Option<Position>>,
}

/// What up to four optional positions stand for.
pub open spec fn centres_model(centres: Seq<Option<ValidPosition>>) -> Seq<Option<Position>> {
    Seq::new(
        centres.len(),
        |i: int|
            match centres[i] {
                Some(p) => Some(p@),
                None => None,
            },
    )
}

impl DeepView for AtcPosition {
    type V = AtcPositionModel;

    open spec fn deep_view(&self) -> AtcPositionModel {
        AtcPositionModel {
            name: self.name@,
            rt_callsign: self.rt_callsign@,
            radio_freq: self.radio_freq@,
            short_identifier: self.short_identifier@,
            full_identifier: self.full_identifier@,
            start_squawk: self.start_squawk,
            end_squawk: self.end_squawk,
            vis_centres: centres_model(self.vis_centres@),
        }
    }
}

} // verus!
