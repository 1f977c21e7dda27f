//! A supplementary file while it is being read.
use super::{
    airport_names, centres_model, free_text_names, Airport, AirportModel, AtcPosition,
    AtcPositionModel, FreeText, FreeTextGroup, FreeTextGroupModel, FreeTextModel, Procedure,
    ProcedureModel, ProcedureType, RunwayIdentifier, RunwayProcedures, RunwayProceduresModel,
};
use crate::loaders::euroscope::colour::{Colour, ColourTable};
use crate::loaders::euroscope::error::Error;
use crate::loaders::euroscope::partial::{
    colour_written, read_colour_definition, read_offset, runway_identifier, PartialSector,
    PositionCreator,
};
use crate::loaders::euroscope::position::{Position, ValidPosition};
use crate::loaders::euroscope::waypoint::RunwayModifier;
use crate::loaders::euroscope::SectorResult;
use crate::number::{parse_u16, unsigned};
use crate::text::{
    chars, fields, find, index_of, is_literal, lowercase, names_of, split, string, to_lowercase,
    views,
};
use vstd::prelude::*;

verus! {

#[derive(Debug)]
pub struct PartialEse {
    pub colours: ColourTable,
    pub position_creator: PositionCreator,
    pub free_text: Vec<FreeTextGroup>,
    pub sids_stars: Vec<Airport>,
    pub atc_positions: Vec<AtcPosition>,
}

pub struct PartialEseModel {
    pub colours: Map<Seq<char>, Colour>,
    pub position_creator: PositionCreator,
    pub free_text: Seq<FreeTextGroupModel>,
    pub sids_stars: Seq<AirportModel>,
    pub atc_positions: Seq<AtcPositionModel>,
}

impl DeepView for PartialEse {
    type V = PartialEseModel;

    open spec fn deep_view(&self) -> PartialEseModel {
        PartialEseModel {
            colours: self.colours@,
            position_creator: self.position_creator,
            free_text: self.free_text.deep_view(),
            sids_stars: self.sids_stars.deep_view(),
            atc_positions: self.atc_positions.deep_view(),
        }
    }
}

/// Whether a line was handled as `expected` says: on success the file is
/// `expected`'s, on failure the error is `expected`'s and the file is as it
/// was.
pub open spec fn handled(
    before: PartialEseModel,
    after: PartialEseModel,
    r: SectorResult<()>,
    expected: Result<PartialEseModel, Error>,
) -> bool {
    match expected {
        Ok(m) => r is Ok && after == m,
        Err(e) => r == Err::<(), Error>(e) && after == before,
    }
}

/// The name of the group for free text that names none.
pub open spec fn default_group() -> Seq<char> {
    "Default"@
}

/// The groups of free text with one more entry in the first group that goes
/// by `name`; the group is made, at the end, where there is none.
pub open spec fn with_free_text(
    groups: Seq<FreeTextGroupModel>,
    name: Seq<char>,
    entry: FreeTextModel,
) -> Seq<FreeTextGroupModel> {
    match index_of(free_text_names(groups), name) {
        Some(i) => groups.update(
            i,
            FreeTextGroupModel { name: groups[i].name, entries: groups[i].entries.push(entry) },
        ),
        None => groups.push(FreeTextGroupModel { name, entries: seq![entry] }),
    }
}

/// The runways of `runways`, in order.
pub open spec fn runway_keys(runways: Seq<RunwayProceduresModel>) -> Seq<(u8, RunwayModifier)> {
    Seq::new(runways.len(), |i: int| runways[i].runway)
}

/// Where `runway` stands first among `keys`.
pub open spec fn runway_index(keys: Seq<(u8, RunwayModifier)>, runway: (u8, RunwayModifier)) -> Option<
    int,
>
    decreases keys.len(),
{
    if keys.len() == 0 {
        None
    } else {
        match runway_index(keys.drop_last(), runway) {
            Some(i) => Some(i),
            None => if keys.last() == runway {
                Some(keys.len() - 1)
            } else {
                None
            },
        }
    }
}

pub proof fn lemma_runway_index(keys: Seq<(u8, RunwayModifier)>, runway: (u8, RunwayModifier))
    ensures
        match runway_index(keys, runway) {
            Some(i) => 0 <= i < keys.len() && keys[i] == runway && forall|k: int|
                0 <= k < i ==> #[trigger] keys[k] != runway,
            None => forall|k: int| 0 <= k < keys.len() ==> #[trigger] keys[k] != runway,
        },
    decreases keys.len(),
{
    if keys.len() > 0 {
        lemma_runway_index(keys.drop_last(), runway);
        match runway_index(keys.drop_last(), runway) {
            Some(i) => {
                assert forall|k: int| 0 <= k < i implies #[trigger] keys[k] != runway by {
                    assert(keys[k] == keys.drop_last()[k]);
                }
            },
            None => {
                assert forall|k: int| 0 <= k < keys.len() - 1 implies #[trigger] keys[k]
                    != runway by {
                    assert(keys[k] == keys.drop_last()[k]);
                }
            },
        }
    }
}

/// The runways with one more procedure for `runway`, which gets an entry of
/// its own, at the end, where it has none.
pub open spec fn with_procedure(
    runways: Seq<RunwayProceduresModel>,
    runway: (u8, RunwayModifier),
    procedure: ProcedureModel,
) -> Seq<RunwayProceduresModel> {
    match runway_index(runway_keys(runways), runway) {
        Some(i) => runways.update(
            i,
            RunwayProceduresModel { runway, procedures: runways[i].procedures.push(procedure) },
        ),
        None => runways.push(RunwayProceduresModel { runway, procedures: seq![procedure] }),
    }
}

/// The airports with one more procedure for `runway` of the first airport
/// that goes by `icao`; the airport is made, at the end, where there is
/// none.
pub open spec fn with_airport_procedure(
    airports: Seq<AirportModel>,
    icao: Seq<char>,
    runway: (u8, RunwayModifier),
    procedure: ProcedureModel,
) -> Seq<AirportModel> {
    match index_of(airport_names(airports), icao) {
        Some(i) => airports.update(
            i,
            AirportModel {
                identifier: airports[i].identifier,
                runways: with_procedure(airports[i].runways, runway, procedure),
            },
        ),
        None => airports.push(
            AirportModel {
                identifier: icao,
                runways: seq![RunwayProceduresModel { runway, procedures: seq![procedure] }],
            },
        ),
    }
}

/// The long identifier of a position: the parts that are not empty, in the
/// order left, middle, right, with `_` between them. The middle part is
/// never empty.
pub open spec fn long_identifier(left: Seq<char>, middle: Seq<char>, right: Seq<char>) -> Seq<
    char,
> {
    let head = if left.len() > 0 {
        left + seq!['_'] + middle
    } else {
        middle
    };
    if right.len() > 0 {
        head + seq!['_'] + right
    } else {
        head
    }
}

/// A squawk code: the field at index `i`, if there is one and it writes a
/// number of 16 bits.
pub open spec fn squawk(f: Seq<Seq<char>>, i: int) -> Option<u16> {
    if i < f.len() {
        match unsigned(f[i], u16::MAX as nat) {
            Some(v) => Some(v as u16),
            None => None,
        }
    } else {
        None
    }
}

/// The centres of visibility that the fields from index `from` on write, two
/// fields to a centre and `left` centres at most: reading stops at the first
/// pair that is not complete or writes no position on the globe.
pub open spec fn centres_written(
    creator: PositionCreator,
    f: Seq<Seq<char>>,
    from: int,
    left: nat,
) -> Seq<Position>
    decreases left,
{
    if left == 0 || from + 1 >= f.len() {
        Seq::empty()
    } else {
        match creator.placed(f[from], f[from + 1]) {
            Ok(p) => seq![p] + centres_written(creator, f, from + 2, (left - 1) as nat),
            Err(_) => Seq::empty(),
        }
    }
}

/// Four places for centres of visibility, filled from the first with
/// `centres`.
pub open spec fn four_centres(centres: Seq<Position>) -> Seq<Option<Position>> {
    Seq::new(
        4,
        |i: int|
            if i < centres.len() {
                Some(centres[i])
            } else {
                None
            },
    )
}

impl PartialEse {
    /// Nothing read, and no offset.
    pub open spec fn empty() -> PartialEseModel {
        PartialEseModel {
            colours: Map::empty(),
            position_creator: PositionCreator { x_offset: 0, y_offset: 0 },
            free_text: Seq::empty(),
            sids_stars: Seq::empty(),
            atc_positions: Seq::empty(),
        }
    }

    pub fn new() -> (r: PartialEse)
        ensures
            r.deep_view() == Self::empty(),
    {
        let r = PartialEse {
            colours: ColourTable::new(),
            position_creator: PositionCreator::new(),
            free_text: Vec::new(),
            sids_stars: Vec::new(),
            atc_positions: Vec::new(),
        };
        proof {
            assert(r.deep_view().free_text =~= Seq::empty());
            assert(r.deep_view().sids_stars =~= Seq::empty());
            assert(r.deep_view().atc_positions =~= Seq::empty());
        }
        r
    }

    /// The file after a line that sets the offset: see
    /// [`PartialSector::offset_written`].
    pub open spec fn offset_line(m: PartialEseModel, line: Seq<char>) -> Result<
        PartialEseModel,
        Error,
    > {
        match PartialSector::offset_written(m.position_creator, line) {
            Ok(creator) => Ok(PartialEseModel { position_creator: creator, ..m }),
            Err(e) => Err(e),
        }
    }

    pub fn parse_offset(&mut self, value: &str) -> (r: SectorResult<()>)
        ensures
            handled(
                old(self).deep_view(),
                final(self).deep_view(),
                r,
                Self::offset_line(old(self).deep_view(), value@),
            ),
    {
        let line = chars(value);
        match read_offset(&self.position_creator, line.as_slice()) {
            Ok(creator) => {
                self.position_creator = creator;
                Ok(())
            },
            Err(e) => Err(e),
        }
    }

    /// The file after a line that names a colour: the name, taken in lower
    /// case, stands for the colour that the third token writes.
    pub open spec fn colour_line(m: PartialEseModel, line: Seq<char>) -> Result<
        PartialEseModel,
        Error,
    > {
        match colour_written(line) {
            Ok(d) => Ok(PartialEseModel { colours: m.colours.insert(lowercase(d.0), d.1), ..m }),
            Err(e) => Err(e),
        }
    }

    pub fn parse_colour_line(&mut self, value: &str) -> (r: SectorResult<()>)
        ensures
            handled(
                old(self).deep_view(),
                final(self).deep_view(),
                r,
                Self::colour_line(old(self).deep_view(), value@),
            ),
    {
        let line = chars(value);
        match read_colour_definition(line.as_slice()) {
            Ok(d) => {
                self.colours.insert(to_lowercase(d.0.as_str()), d.1);
                Ok(())
            },
            Err(e) => Err(e),
        }
    }

    /// What a line of free text says, and the group that it says it for: a
    /// latitude, a longitude, the name of the group and the text, with a
    /// colon between them. A group without a name is the group `Default`.
    pub open spec fn free_text_written(creator: PositionCreator, line: Seq<char>) -> Result<
        (Seq<char>, FreeTextModel),
        Error,
    > {
        let f = fields(line, ':');
        if f.len() < 2 {
            Err(Error::InvalidFreetext)
        } else {
            match creator.placed(f[0], f[1]) {
                Err(e) => Err(e),
                Ok(p) => if f.len() < 4 {
                    Err(Error::InvalidFreetext)
                } else {
                    Ok(
                        (
                            if f[2].len() == 0 {
                                default_group()
                            } else {
                                f[2]
                            },
                            FreeTextModel { position: p, text: f[3] },
                        ),
                    )
                },
            }
        }
    }

    /// The file after a line of free text.
    pub open spec fn freetext_line(m: PartialEseModel, line: Seq<char>) -> Result<
        PartialEseModel,
        Error,
    > {
        match Self::free_text_written(m.position_creator, line) {
            Ok((group, entry)) => Ok(
                PartialEseModel { free_text: with_free_text(m.free_text, group, entry), ..m },
            ),
            Err(e) => Err(e),
        }
    }

    pub fn parse_freetext_line(&mut self, value: &str) -> (r: SectorResult<()>)
        ensures
            handled(
                old(self).deep_view(),
                final(self).deep_view(),
                r,
                Self::freetext_line(old(self).deep_view(), value@),
            ),
    {
        let line = chars(value);
        let f = split(line.as_slice(), ':');
        if f.len() < 2 {
            return Err(Error::InvalidFreetext);
        }
        let position = match self.position_creator.place(f[0], f[1]) {
            Ok(p) => p,
            Err(e) => {
                return Err(e);
            },
        };
        if f.len() < 4 {
            return Err(Error::InvalidFreetext);
        }
        proof {
            assert(names_of(self.free_text@) =~= free_text_names(self.free_text.deep_view()));
        }
        let group = if f[2].len() == 0 {
            String::from_str("Default")
        } else {
            string(f[2])
        };
        let entry = FreeText { position, text: string(f[3]) };
        let ghost before = self.free_text.deep_view();
        match find(&self.free_text, &group) {
            Some(i) => {
                self.free_text[i].entries.push(entry);
                proof {
                    assert(self.free_text@[i as int].entries.deep_view()
                        =~= before[i as int].entries.push(entry.deep_view()));
                    assert(self.free_text.deep_view() =~= with_free_text(
                        before,
                        group@,
                        entry.deep_view(),
                    ));
                }
            },
            None => {
                let mut entries: Vec<FreeText> = Vec::new();
                entries.push(entry);
                assert(entries.deep_view() =~= seq![entry.deep_view()]);
                self.free_text.push(FreeTextGroup { name: group, entries });
                assert(self.free_text.deep_view() =~= with_free_text(
                    before,
                    group@,
                    entry.deep_view(),
                ));
            },
        }
        Ok(())
    }

    /// What a line of a procedure says: `SID` or `STAR`, the airport, whose
    /// identifier has at least two characters, the runway, the name of the
    /// procedure and the points of its route, at least one, with a colon
    /// between them.
    pub open spec fn procedure_written(line: Seq<char>) -> Result<
        (Seq<char>, (u8, RunwayModifier), ProcedureModel),
        Error,
    > {
        let f = fields(line, ':');
        if f[0] != "SID"@ && f[0] != "STAR"@ {
            Err(Error::InvalidSidStarEntry)
        } else if f.len() < 2 || f[1].len() < 2 {
            Err(Error::InvalidSidStarEntry)
        } else if f.len() < 3 || runway_identifier(f[2]) is None {
            Err(Error::InvalidRunway)
        } else if f.len() < 5 {
            Err(Error::InvalidSidStarEntry)
        } else {
            Ok(
                (
                    f[1],
                    runway_identifier(f[2])->0,
                    ProcedureModel {
                        proc_type: if f[0] == "SID"@ {
                            ProcedureType::SID
                        } else {
                            ProcedureType::STAR
                        },
                        identifier: f[3],
                        route: f.skip(4),
                    },
                ),
            )
        }
    }

    /// The file after a line of a procedure.
    pub open spec fn sids_stars_line(m: PartialEseModel, line: Seq<char>) -> Result<
        PartialEseModel,
        Error,
    > {
        match Self::procedure_written(line) {
            Ok((icao, runway, procedure)) => Ok(
                PartialEseModel {
                    sids_stars: with_airport_procedure(m.sids_stars, icao, runway, procedure),
                    ..m
                },
            ),
            Err(e) => Err(e),
        }
    }

    pub fn parse_sids_stars_line(&mut self, value: &str) -> (r: SectorResult<()>)
        ensures
            handled(
                old(self).deep_view(),
                final(self).deep_view(),
                r,
                Self::sids_stars_line(old(self).deep_view(), value@),
            ),
    {
        let line = chars(value);
        let f = split(line.as_slice(), ':');
        let proc_type = if is_literal(f[0], "SID") {
            ProcedureType::SID
        } else if is_literal(f[0], "STAR") {
            ProcedureType::STAR
        } else {
            return Err(Error::InvalidSidStarEntry);
        };
        if f.len() < 2 {
            return Err(Error::InvalidSidStarEntry);
        }
        if f[1].len() < 2 {
            return Err(Error::InvalidSidStarEntry);
        }
        if f.len() < 3 {
            return Err(Error::InvalidRunway);
        }
        let runway = match RunwayIdentifier::from_chars(f[2]) {
            Ok(id) => id,
            Err(e) => {
                return Err(e);
            },
        };
        if f.len() < 5 {
            return Err(Error::InvalidSidStarEntry);
        }
        let mut route: Vec<String> = Vec::new();
        let mut k: usize = 4;
        while k < f.len()
            invariant
                4 <= k <= f.len(),
                route.deep_view() == views(f@).subrange(4, k as int),
            decreases f.len() - k,
        {
            let ghost before = route.deep_view();
            let point = string(f[k]);
            route.push(point);
            k += 1;
            assert(route.deep_view() =~= before.push(point@));
        }
        let procedure = Procedure { identifier: string(f[3]), proc_type, route };
        let icao = string(f[1]);
        let ghost before = self.sids_stars.deep_view();
        proof {
            assert(names_of(self.sids_stars@) =~= airport_names(before));
        }
        match find(&self.sids_stars, &icao) {
            Some(i) => {
                add_procedure(&mut self.sids_stars[i].runways, runway, procedure);
                proof {
                    assert(self.sids_stars.deep_view() =~= with_airport_procedure(
                        before,
                        icao@,
                        runway@,
                        procedure.deep_view(),
                    ));
                }
            },
            None => {
                let mut procedures: Vec<Procedure> = Vec::new();
                procedures.push(procedure);
                assert(procedures.deep_view() =~= seq![procedure.deep_view()]);
                let mut runways: Vec<RunwayProcedures> = Vec::new();
                runways.push(RunwayProcedures { runway, procedures });
                assert(runways.deep_view() =~= seq![
                    RunwayProceduresModel {
                        runway: runway@,
                        procedures: seq![procedure.deep_view()],
                    },
                ]);
                self.sids_stars.push(Airport { identifier: icao, runways });
                assert(self.sids_stars.deep_view() =~= with_airport_procedure(
                    before,
                    icao@,
                    runway@,
                    procedure.deep_view(),
                ));
            },
        }
        Ok(())
    }

    /// What a line of a controller's position says. Its fields, with a colon
    /// between them, are the name, the callsign, the frequency, which holds
    /// a point, the short identifier, then the middle, left and right part
    /// of the long identifier, of which the middle may not be empty; after
    /// two fields that do not count come the first and the last squawk code
    /// and up to four centres of visibility.
    pub open spec fn atc_position_written(creator: PositionCreator, line: Seq<char>) -> Result<
        AtcPositionModel,
        Error,
    > {
        let f = fields(line, ':');
        if f.len() < 7 || f[0].len() == 0 || f[1].len() == 0 || f[2].len() == 0 || !f[2].contains(
            '.',
        ) || f[3].len() == 0 || f[4].len() == 0 {
            Err(Error::InvalidAtcPosition)
        } else {
            Ok(
                AtcPositionModel {
                    name: f[0],
                    rt_callsign: f[1],
                    radio_freq: f[2],
                    short_identifier: f[3],
                    full_identifier: long_identifier(f[5], f[4], f[6]),
                    start_squawk: squawk(f, 9),
                    end_squawk: squawk(f, 10),
                    vis_centres: four_centres(centres_written(creator, f, 11, 4)),
                },
            )
        }
    }

    /// The file after a line of a controller's position.
    pub open spec fn atc_position_line(m: PartialEseModel, line: Seq<char>) -> Result<
        PartialEseModel,
        Error,
    > {
        match Self::atc_position_written(m.position_creator, line) {
            Ok(position) => Ok(
                PartialEseModel { atc_positions: m.atc_positions.push(position), ..m },
            ),
            Err(e) => Err(e),
        }
    }

    pub fn parse_atc_position_line(&mut self, value: &str) -> (r: SectorResult<()>)
        ensures
            handled(
                old(self).deep_view(),
                final(self).deep_view(),
                r,
                Self::atc_position_line(old(self).deep_view(), value@),
            ),
    {
        let line = chars(value);
        let f = split(line.as_slice(), ':');
        if f.len() < 7 {
            return Err(Error::InvalidAtcPosition);
        }
        if f[0].len() == 0 || f[1].len() == 0 || f[2].len() == 0 || !has_char(f[2], '.')
            || f[3].len() == 0 || f[4].len() == 0 {
            return Err(Error::InvalidAtcPosition);
        }
        let mut full_identifier = String::new();
        if f[5].len() > 0 {
            full_identifier.append(string(f[5]).as_str());
            full_identifier.push('_');
        }
        full_identifier.append(string(f[4]).as_str());
        if f[6].len() > 0 {
            full_identifier.push('_');
            full_identifier.append(string(f[6]).as_str());
        }
        assert(full_identifier@ =~= long_identifier(f@[5]@, f@[4]@, f@[6]@));
        let start_squawk = read_squawk(&f, 9);
        let end_squawk = read_squawk(&f, 10);
        let mut vis_centres: [Option<ValidPosition>; 4] = [None, None, None, None];
        let mut i: usize = 0;
        let ghost creator = self.position_creator;
        let ghost all = centres_written(creator, views(f@), 11, 4);
        while i < 4
            invariant
                i <= 4,
                creator == self.position_creator,
                f@.len() >= 7,
                all == centres_written(creator, views(f@), 11, 4),
                forall|k: int| i <= k < 4 ==> vis_centres@[k] is None,
                forall|k: int| 0 <= k < i ==> (#[trigger] vis_centres@[k]) is Some,
                exists|done: Seq<Position>|
                    #![auto]
                    done.len() == i && all == done + centres_written(
                        creator,
                        views(f@),
                        11 + 2 * i,
                        (4 - i) as nat,
                    ) && forall|k: int| 0 <= k < i ==> vis_centres@[k]->0@ == done[k],
            ensures
                centres_model(vis_centres@) == four_centres(all),
            decreases 4 - i,
        {
            let ghost done = choose|done: Seq<Position>|
                #![auto]
                done.len() == i && all == done + centres_written(
                    creator,
                    views(f@),
                    11 + 2 * i,
                    (4 - i) as nat,
                ) && forall|k: int| 0 <= k < i ==> vis_centres@[k]->0@ == done[k];
            let from: usize = 11 + 2 * i;
            let placed = if from + 1 < f.len() {
                match self.position_creator.place(f[from], f[from + 1]) {
                    Ok(p) => Some(p),
                    Err(_) => None,
                }
            } else {
                None
            };
            match placed {
                Some(p) => {
                    vis_centres[i] = Some(p);
                    proof {
                        let next = done.push(p@);
                        assert(all =~= next + centres_written(
                            creator,
                            views(f@),
                            11 + 2 * (i + 1),
                            (4 - (i + 1)) as nat,
                        ));
                    }
                    i += 1;
                },
                None => {
                    break ;
                },
            }
        }
        let position = AtcPosition {
            name: string(f[0]),
            rt_callsign: string(f[1]),
            radio_freq: string(f[2]),
            short_identifier: string(f[3]),
            full_identifier,
            start_squawk,
            end_squawk,
            vis_centres,
        };
        self.atc_positions.push(position);
        proof {
            assert(self.atc_positions.deep_view() =~= old(self).atc_positions.deep_view().push(
                position.deep_view(),
            ));
        }
        Ok(())
    }
}

fn has_char(s: &[char], c: char) -> (r: bool)
    ensures
        r == s@.contains(c),
{
    let mut i: usize = 0;
    while i < s.len()
        invariant
            i <= s.len(),
            forall|k: int| 0 <= k < i ==> s@[k] != c,
        decreases s.len() - i,
    {
        if s[i] == c {
            return true;
        }
        i += 1;
    }
    false
}

fn read_squawk(f: &Vec<&[char]>, i: usize) -> (r: Option<u16>)
    ensures
        r == squawk(views(f@), i as int),
{
    if i < f.len() {
        parse_u16(f[i])
    } else {
        None
    }
}

fn find_runway(runways: &Vec<RunwayProcedures>, runway: &RunwayIdentifier) -> (r: Option<usize>)
    ensures
        match r {
            Some(i) => runway_index(runway_keys(runways.deep_view()), runway@) == Some(i as int)
                && i < runways.len(),
            None => runway_index(runway_keys(runways.deep_view()), runway@) is None,
        },
{
    let ghost keys = runway_keys(runways.deep_view());
    let mut i: usize = 0;
    while i < runways.len()
        invariant
            i <= runways.len(),
            keys == runway_keys(runways.deep_view()),
            forall|k: int| 0 <= k < i ==> #[trigger] keys[k] != runway@,
        decreases runways.len() - i,
    {
        if runways[i].runway.same(runway) {
            proof {
                assert(keys[i as int] == runway@);
                lemma_runway_index(keys, runway@);
            }
            return Some(i);
        }
        i += 1;
    }
    proof {
        lemma_runway_index(keys, runway@);
    }
    None
}

fn add_procedure(runways: &mut Vec<RunwayProcedures>, runway: RunwayIdentifier, procedure: Procedure)
    ensures
        final(runways).deep_view() == with_procedure(
            old(runways).deep_view(),
            runway@,
            procedure.deep_view(),
        ),
{
    let ghost before = runways.deep_view();
    match find_runway(runways, &runway) {
        Some(i) => {
            proof {
                lemma_runway_index(runway_keys(before), runway@);
            }
            runways[i].procedures.push(procedure);
            proof {
                assert(runways@[i as int].procedures.deep_view() =~= before[i as int].procedures.push(
                    procedure.deep_view(),
                ));
            }
        },
        None => {
            let mut procedures: Vec<Procedure> = Vec::new();
            procedures.push(procedure);
            assert(procedures.deep_view() =~= seq![procedure.deep_view()]);
            runways.push(RunwayProcedures { runway, procedures });
        },
    }
}

/// Free text whose line names no group is filed under `Default`, and free
/// text whose line names a group is filed under that name.
pub proof fn law_free_text_group(creator: PositionCreator, line: Seq<char>)
    requires
        PartialEse::free_text_written(creator, line) is Ok,
    ensures
        ({
            let group = PartialEse::free_text_written(creator, line)->Ok_0.0;
            let named = fields(line, ':')[2];
            &&& named.len() == 0 ==> group == default_group()
            &&& named.len() > 0 ==> group == named
        }),
{
}

/// Whether no runway occurs twice among `keys`.
pub open spec fn distinct_runways(keys: Seq<(u8, RunwayModifier)>) -> bool {
    forall|i: int, j: int| 0 <= i < j < keys.len() ==> #[trigger] keys[i] != #[trigger] keys[j]
}

/// An airport whose runways each have one entry keeps them so when a
/// procedure is filed: the procedures of a runway stay together.
pub proof fn law_runways_stay_distinct(
    runways: Seq<RunwayProceduresModel>,
    runway: (u8, RunwayModifier),
    procedure: ProcedureModel,
)
    requires
        distinct_runways(runway_keys(runways)),
    ensures
        distinct_runways(runway_keys(with_procedure(runways, runway, procedure))),
{
    let keys = runway_keys(runways);
    let after = runway_keys(with_procedure(runways, runway, procedure));
    lemma_runway_index(keys, runway);
    match runway_index(keys, runway) {
        Some(i) => {
            assert(after =~= keys);
        },
        None => {
            assert(after =~= keys.push(runway));
        },
    }
}

} // verus!
