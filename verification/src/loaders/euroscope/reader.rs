//! The reader of a sector file: it takes the lines in order, keeps track of
//! the section that they stand in, hands each to the method that reads its
//! kind, and notes the lines that could not be used without stopping for any
//! of them.
use super::error::Error;
use super::partial::{
    ArtccOrAirwayLineType, BeaconType, PartialSector, PartialSectorModel, SidStarType,
};
use super::sector::{Sector, SectorModel};
use super::SectorResult;
use crate::loaders::ese::{errors_model, LineError};
use crate::text::{
    before, chars, field_len, is_literal, starts_with, string, to_uppercase, trim_end,
    trimmed_end, uppercase,
};
use vstd::prelude::*;

verus! {

/// What of a line counts: the line up to its first `;`, without the white
/// space at its end.
pub open spec fn content_of(line: Seq<char>) -> Seq<char> {
    trimmed_end(line.take(field_len(line, ';') as int))
}

/// Takes the comment and the white space from the end of a line.
pub fn content<'a>(line: &'a [char]) -> (r: &'a [char])
    ensures
        r@ == content_of(line@),
{
    trim_end(before(line, ';'))
}

/// What a line is, by how it begins.
#[derive(Debug, Clone, Copy, PartialEq, Eq, Structural)]
pub enum LineKind {
    /// Nothing counts of the line.
    Blank,
    /// The line opens a section.
    Header,
    /// The line sets the offset.
    Offset,
    /// The line names a colour.
    Colour,
    /// The line belongs to the section that it stands in.
    Record,
}

/// The kind of a line whose content is `content`.
pub open spec fn kind_of(content: Seq<char>) -> LineKind {
    if content.len() == 0 {
        LineKind::Blank
    } else if content[0] == '[' {
        LineKind::Header
    } else if "OFFSET"@.is_prefix_of(content) {
        LineKind::Offset
    } else if "#define"@.is_prefix_of(content) {
        LineKind::Colour
    } else {
        LineKind::Record
    }
}

/// Tells the kinds of lines apart.
pub fn classify(content: &[char]) -> (r: LineKind)
    ensures
        r == kind_of(content@),
{
    if content.len() == 0 {
        LineKind::Blank
    } else if content[0] == '[' {
        LineKind::Header
    } else if starts_with(content, "OFFSET") {
        LineKind::Offset
    } else if starts_with(content, "#define") {
        LineKind::Colour
    } else {
        LineKind::Record
    }
}

/// The sections of a sector file.
#[derive(Debug, Clone, Copy, PartialEq, Eq, Structural)]
pub enum FileSection {
    Info,
    Vor,
    Ndb,
    Airport,
    Runway,
    Fixes,
    Artcc,
    ArtccHigh,
    ArtccLow,
    Sid,
    Star,
    LowAirway,
    HighAirway,
    Geo,
    Regions,
    Labels,
}

impl FileSection {
    /// The section that a header in capital letters opens.
    pub open spec fn named(header: Seq<char>) -> Option<FileSection> {
        if header == "[INFO]"@ {
            Some(FileSection::Info)
        } else if header == "[VOR]"@ {
            Some(FileSection::Vor)
        } else if header == "[NDB]"@ {
            Some(FileSection::Ndb)
        } else if header == "[AIRPORT]"@ {
            Some(FileSection::Airport)
        } else if header == "[RUNWAY]"@ {
            Some(FileSection::Runway)
        } else if header == "[FIXES]"@ {
            Some(FileSection::Fixes)
        } else if header == "[ARTCC]"@ {
            Some(FileSection::Artcc)
        } else if header == "[ARTCC HIGH]"@ {
            Some(FileSection::ArtccHigh)
        } else if header == "[ARTCC LOW]"@ {
            Some(FileSection::ArtccLow)
        } else if header == "[SID]"@ {
            Some(FileSection::Sid)
        } else if header == "[STAR]"@ {
            Some(FileSection::Star)
        } else if header == "[LOW AIRWAY]"@ {
            Some(FileSection::LowAirway)
        } else if header == "[HIGH AIRWAY]"@ {
            Some(FileSection::HighAirway)
        } else if header == "[GEO]"@ {
            Some(FileSection::Geo)
        } else if header == "[REGIONS]"@ {
            Some(FileSection::Regions)
        } else if header == "[LABELS]"@ {
            Some(FileSection::Labels)
        } else {
            None
        }
    }

    /// Reads a header that is already in capital letters.
    pub fn from_upper(header: &str) -> (r: SectorResult<FileSection>)
        ensures
            match Self::named(header@) {
                Some(section) => r == Ok::<FileSection, Error>(section),
                None => r == Err::<FileSection, Error>(Error::InvalidFileSection),
            },
    {
        let h = chars(header);
        let h = h.as_slice();
        if is_literal(h, "[INFO]") {
            Ok(FileSection::Info)
        } else if is_literal(h, "[VOR]") {
            Ok(FileSection::Vor)
        } else if is_literal(h, "[NDB]") {
            Ok(FileSection::Ndb)
        } else if is_literal(h, "[AIRPORT]") {
            Ok(FileSection::Airport)
        } else if is_literal(h, "[RUNWAY]") {
            Ok(FileSection::Runway)
        } else if is_literal(h, "[FIXES]") {
            Ok(FileSection::Fixes)
        } else if is_literal(h, "[ARTCC]") {
            Ok(FileSection::Artcc)
        } else if is_literal(h, "[ARTCC HIGH]") {
            Ok(FileSection::ArtccHigh)
        } else if is_literal(h, "[ARTCC LOW]") {
            Ok(FileSection::ArtccLow)
        } else if is_literal(h, "[SID]") {
            Ok(FileSection::Sid)
        } else if is_literal(h, "[STAR]") {
            Ok(FileSection::Star)
        } else if is_literal(h, "[LOW AIRWAY]") {
            Ok(FileSection::LowAirway)
        } else if is_literal(h, "[HIGH AIRWAY]") {
            Ok(FileSection::HighAirway)
        } else if is_literal(h, "[GEO]") {
            Ok(FileSection::Geo)
        } else if is_literal(h, "[REGIONS]") {
            Ok(FileSection::Regions)
        } else if is_literal(h, "[LABELS]") {
            Ok(FileSection::Labels)
        } else {
            Err(Error::InvalidFileSection)
        }
    }

    /// Reads a header, in whatever case it is written.
    pub fn from_str(header: &str) -> (r: SectorResult<FileSection>)
        ensures
            match Self::named(uppercase(header@)) {
                Some(section) => r == Ok::<FileSection, Error>(section),
                None => r == Err::<FileSection, Error>(Error::InvalidFileSection),
            },
    {
        let upper = to_uppercase(header);
        Self::from_upper(upper.as_str())
    }
}

/// A method that handles a line as `expected` says has the outcome that
/// [`settled`] gives.
proof fn lemma_settled(
    before: PartialSectorModel,
    after: PartialSectorModel,
    r: SectorResult<()>,
    expected: Result<PartialSectorModel, Error>,
)
    requires
        super::partial::handled(before, after, r, expected),
    ensures
        (after, r) == settled(before, expected),
{
    if expected is Ok {
        assert(r->Ok_0 == ());
    }
}

/// The outcome of a method that leaves the sector as it was when it fails.
pub open spec fn settled(m: PartialSectorModel, r: Result<PartialSectorModel, Error>) -> (
    PartialSectorModel,
    Result<(), Error>,
) {
    match r {
        Ok(after) => (after, Ok(())),
        Err(e) => (m, Err(e)),
    }
}

/// The sector after a line that belongs to `section`, and whether the line
/// was good. Before the first header no line belongs to any section, and
/// such a line is passed over.
pub open spec fn filed(m: PartialSectorModel, section: Option<FileSection>, line: Seq<char>) -> (
    PartialSectorModel,
    Result<(), Error>,
) {
    match section {
        None => (m, Ok(())),
        Some(FileSection::Info) => PartialSector::sector_info_line(m, line),
        Some(FileSection::Vor) => settled(m, PartialSector::beacon_line(m, line, BeaconType::Vor)),
        Some(FileSection::Ndb) => settled(m, PartialSector::beacon_line(m, line, BeaconType::Ndb)),
        Some(FileSection::Airport) => settled(m, PartialSector::airport_line(m, line)),
        Some(FileSection::Runway) => settled(m, PartialSector::runway_line(m, line)),
        Some(FileSection::Fixes) => settled(m, PartialSector::fixes_line(m, line)),
        Some(FileSection::Artcc) => settled(
            m,
            PartialSector::artcc_or_airway_line(m, line, ArtccOrAirwayLineType::Artcc),
        ),
        Some(FileSection::ArtccHigh) => settled(
            m,
            PartialSector::artcc_or_airway_line(m, line, ArtccOrAirwayLineType::ArtccHigh),
        ),
        Some(FileSection::ArtccLow) => settled(
            m,
            PartialSector::artcc_or_airway_line(m, line, ArtccOrAirwayLineType::ArtccLow),
        ),
        Some(FileSection::Sid) => settled(
            m,
            PartialSector::sid_star_line(m, line, SidStarType::Sid),
        ),
        Some(FileSection::Star) => settled(
            m,
            PartialSector::sid_star_line(m, line, SidStarType::Star),
        ),
        Some(FileSection::LowAirway) => settled(
            m,
            PartialSector::artcc_or_airway_line(m, line, ArtccOrAirwayLineType::LowAirway),
        ),
        Some(FileSection::HighAirway) => settled(
            m,
            PartialSector::artcc_or_airway_line(m, line, ArtccOrAirwayLineType::HighAirway),
        ),
        Some(FileSection::Geo) => settled(m, PartialSector::geo_line(m, line)),
        Some(FileSection::Regions) => settled(m, PartialSector::region_line(m, line)),
        Some(FileSection::Labels) => settled(m, PartialSector::label_line(m, line)),
    }
}

/// Where a reader stands: the section that is open, what has been read, and
/// the lines that could not be used.
#[derive(Debug)]
pub struct SctState {
    pub current_section: Option<FileSection>,
    pub partial_sector: PartialSector,
    pub errors: Vec<LineError>,
}

pub struct SctStateModel {
    pub current_section: Option<FileSection>,
    pub partial_sector: PartialSectorModel,
    pub errors: Seq<(usize, Seq<char>, Error)>,
}

impl DeepView for SctState {
    type V = SctStateModel;

    open spec fn deep_view(&self) -> SctStateModel {
        SctStateModel {
            current_section: self.current_section,
            partial_sector: self.partial_sector.deep_view(),
            errors: errors_model(self.errors@),
        }
    }
}

impl SctState {
    /// Before the first line: no section is open and nothing has been read.
    pub open spec fn initial() -> SctStateModel {
        SctStateModel {
            current_section: None,
            partial_sector: PartialSector::empty(),
            errors: Seq::empty(),
        }
    }

    /// The state with the outcome of a line: the sector is the outcome's, and
    /// a line that was not good is noted with its number, its content and
    /// what is wrong with it.
    pub open spec fn noted(
        s: SctStateModel,
        number: usize,
        content: Seq<char>,
        outcome: (PartialSectorModel, Result<(), Error>),
    ) -> SctStateModel {
        SctStateModel {
            partial_sector: outcome.0,
            errors: match outcome.1 {
                Ok(_) => s.errors,
                Err(e) => s.errors.push((number, content, e)),
            },
            ..s
        }
    }

    /// The state after the line with the number `number`.
    ///
    /// A blank line changes nothing. A header opens its section; one that
    /// names no section is noted and leaves the open section open. A line
    /// that sets the offset or names a colour is read as such in whatever
    /// section it stands. Any other line is read as its section asks.
    pub open spec fn step(s: SctStateModel, number: usize, line: Seq<char>) -> SctStateModel {
        let content = content_of(line);
        match kind_of(content) {
            LineKind::Blank => s,
            LineKind::Header => match FileSection::named(uppercase(content)) {
                Some(section) => SctStateModel { current_section: Some(section), ..s },
                None => SctStateModel {
                    errors: s.errors.push((number, content, Error::InvalidFileSection)),
                    ..s
                },
            },
            LineKind::Offset => Self::noted(
                s,
                number,
                content,
                settled(s.partial_sector, PartialSector::offset_line(s.partial_sector, content)),
            ),
            LineKind::Colour => Self::noted(
                s,
                number,
                content,
                settled(s.partial_sector, PartialSector::colour_line(s.partial_sector, content)),
            ),
            LineKind::Record => Self::noted(
                s,
                number,
                content,
                filed(s.partial_sector, s.current_section, content),
            ),
        }
    }

    /// The state that `start` becomes over `lines`, numbered from 1.
    pub open spec fn run(start: SctStateModel, lines: Seq<Seq<char>>) -> SctStateModel
        decreases lines.len(),
    {
        if lines.len() == 0 {
            start
        } else {
            Self::step(Self::run(start, lines.drop_last()), lines.len() as usize, lines.last())
        }
    }

    /// The state after all of `lines`, numbered from 1, when nothing was
    /// read before them.
    pub open spec fn after(lines: Seq<Seq<char>>) -> SctStateModel {
        Self::run(Self::initial(), lines)
    }

    pub fn new() -> (r: SctState)
        ensures
            r.deep_view() == Self::initial(),
    {
        let r = SctState {
            current_section: None,
            partial_sector: PartialSector::new(),
            errors: Vec::new(),
        };
        assert(r.deep_view().errors =~= Seq::empty());
        r
    }

    fn file(&mut self, line: &str) -> (r: SectorResult<()>)
        ensures
            final(self).current_section == old(self).current_section,
            final(self).errors == old(self).errors,
            (final(self).partial_sector.deep_view(), r) == filed(
                old(self).partial_sector.deep_view(),
                old(self).current_section,
                line@,
            ),
    {
        let ghost before = self.partial_sector.deep_view();
        match self.current_section {
            None => Ok(()),
            Some(FileSection::Info) => self.partial_sector.parse_sector_info_line(line),
            Some(FileSection::Vor) => {
                let r = self.partial_sector.parse_vor_or_ndb_line(line, BeaconType::Vor);
                proof {
                    lemma_settled(
                        before,
                        self.partial_sector.deep_view(),
                        r,
                        PartialSector::beacon_line(before, line@, BeaconType::Vor),
                    );
                }
                r
            },
            Some(FileSection::Ndb) => {
                let r = self.partial_sector.parse_vor_or_ndb_line(line, BeaconType::Ndb);
                proof {
                    lemma_settled(
                        before,
                        self.partial_sector.deep_view(),
                        r,
                        PartialSector::beacon_line(before, line@, BeaconType::Ndb),
                    );
                }
                r
            },
            Some(FileSection::Airport) => {
                let r = self.partial_sector.parse_airport_line(line);
                proof {
                    lemma_settled(
                        before,
                        self.partial_sector.deep_view(),
                        r,
                        PartialSector::airport_line(before, line@),
                    );
                }
                r
            },
            Some(FileSection::Runway) => {
                let r = self.partial_sector.parse_runway_line(line);
                proof {
                    lemma_settled(
                        before,
                        self.partial_sector.deep_view(),
                        r,
                        PartialSector::runway_line(before, line@),
                    );
                }
                r
            },
            Some(FileSection::Fixes) => {
                let r = self.partial_sector.parse_fixes_line(line);
                proof {
                    lemma_settled(
                        before,
                        self.partial_sector.deep_view(),
                        r,
                        PartialSector::fixes_line(before, line@),
                    );
                }
                r
            },
            Some(FileSection::Artcc) => {
                let r = self.partial_sector.parse_artcc_or_airway_line(line, ArtccOrAirwayLineType::Artcc);
                proof {
                    lemma_settled(
                        before,
                        self.partial_sector.deep_view(),
                        r,
                        PartialSector::artcc_or_airway_line(before, line@, ArtccOrAirwayLineType::Artcc),
                    );
                }
                r
            },
            Some(FileSection::ArtccHigh) => {
                let r = self.partial_sector.parse_artcc_or_airway_line(line, ArtccOrAirwayLineType::ArtccHigh);
                proof {
                    lemma_settled(
                        before,
                        self.partial_sector.deep_view(),
                        r,
                        PartialSector::artcc_or_airway_line(before, line@, ArtccOrAirwayLineType::ArtccHigh),
                    );
                }
                r
            },
            Some(FileSection::ArtccLow) => {
                let r = self.partial_sector.parse_artcc_or_airway_line(line, ArtccOrAirwayLineType::ArtccLow);
                proof {
                    lemma_settled(
                        before,
                        self.partial_sector.deep_view(),
                        r,
                        PartialSector::artcc_or_airway_line(before, line@, ArtccOrAirwayLineType::ArtccLow),
                    );
                }
                r
            },
            Some(FileSection::Sid) => {
                let r = self.partial_sector.parse_sid_star_line(line, SidStarType::Sid);
                proof {
                    lemma_settled(
                        before,
                        self.partial_sector.deep_view(),
                        r,
                        PartialSector::sid_star_line(before, line@, SidStarType::Sid),
                    );
                }
                r
            },
            Some(FileSection::Star) => {
                let r = self.partial_sector.parse_sid_star_line(line, SidStarType::Star);
                proof {
                    lemma_settled(
                        before,
                        self.partial_sector.deep_view(),
                        r,
                        PartialSector::sid_star_line(before, line@, SidStarType::Star),
                    );
                }
                r
            },
            Some(FileSection::LowAirway) => {
                let r = self.partial_sector.parse_artcc_or_airway_line(line, ArtccOrAirwayLineType::LowAirway);
                proof {
                    lemma_settled(
                        before,
                        self.partial_sector.deep_view(),
                        r,
                        PartialSector::artcc_or_airway_line(before, line@, ArtccOrAirwayLineType::LowAirway),
                    );
                }
                r
            },
            Some(FileSection::HighAirway) => {
                let r = self.partial_sector.parse_artcc_or_airway_line(line, ArtccOrAirwayLineType::HighAirway);
                proof {
                    lemma_settled(
                        before,
                        self.partial_sector.deep_view(),
                        r,
                        PartialSector::artcc_or_airway_line(before, line@, ArtccOrAirwayLineType::HighAirway),
                    );
                }
                r
            },
            Some(FileSection::Geo) => {
                let r = self.partial_sector.parse_geo_line(line);
                proof {
                    lemma_settled(
                        before,
                        self.partial_sector.deep_view(),
                        r,
                        PartialSector::geo_line(before, line@),
                    );
                }
                r
            },
            Some(FileSection::Regions) => {
                let r = self.partial_sector.parse_region_line(line);
                proof {
                    lemma_settled(
                        before,
                        self.partial_sector.deep_view(),
                        r,
                        PartialSector::region_line(before, line@),
                    );
                }
                r
            },
            Some(FileSection::Labels) => {
                let r = self.partial_sector.parse_label_line(line);
                proof {
                    lemma_settled(
                        before,
                        self.partial_sector.deep_view(),
                        r,
                        PartialSector::label_line(before, line@),
                    );
                }
                r
            },
        }
    }

    /// Takes one line of the file.
    pub fn read_line(&mut self, number: usize, line: &str)
        ensures
            final(self).deep_view() == Self::step(old(self).deep_view(), number, line@),
    {
        let all = chars(line);
        let text = content(all.as_slice());
        let kind = classify(text);
        let text = string(text);
        let ghost before = self.deep_view();
        let outcome = match kind {
            LineKind::Blank => {
                return ;
            },
            LineKind::Header => {
                match FileSection::from_str(text.as_str()) {
                    Ok(section) => {
                        self.current_section = Some(section);
                        return ;
                    },
                    Err(e) => Err(e),
                }
            },
            LineKind::Offset => self.partial_sector.parse_offset(text.as_str()),
            LineKind::Colour => self.partial_sector.parse_colour_line(text.as_str()),
            LineKind::Record => self.file(text.as_str()),
        };
        if let Err(e) = outcome {
            self.errors.push((number, text, e));
            assert(errors_model(self.errors@) =~= before.errors.push((number, text@, e)));
        }
    }
}

/// A reader of a sector file over its lines.
#[derive(Debug)]
pub struct SctReader {
    pub source: Vec<String>,
    pub state: SctState,
}

impl SctReader {
    pub fn new(source: Vec<String>) -> (r: SctReader)
        ensures
            r.source == source,
            r.state.deep_view() == SctState::initial(),
    {
        SctReader { source, state: SctState::new() }
    }

    /// What is made of the state in which all lines have been read: the
    /// sector, if its head is complete, with the lines that could not be
    /// used listed in their order.
    pub open spec fn closed(end: SctStateModel) -> Option<SectorModel> {
        match Sector::finished(end.partial_sector) {
            Some(m) => Some(SectorModel { non_critical_errors: end.errors, ..m }),
            None => None,
        }
    }

    /// What a file of these lines holds, if its head is complete.
    pub open spec fn read(lines: Seq<Seq<char>>) -> Option<SectorModel> {
        Self::closed(SctState::after(lines))
    }

    /// Reads the file from its first line to its last. No line stops the
    /// reading; only a head that is not complete at the end leaves no
    /// sector. For a reader that [`SctReader::new`] made the outcome is
    /// [`SctReader::read`] of the lines.
    pub fn try_read(self) -> (r: SectorResult<Sector>)
        ensures
            match Self::closed(SctState::run(self.state.deep_view(), self.source.deep_view())) {
                Some(m) => r is Ok && r->Ok_0.deep_view() == m,
                None => r is Err && r->Err_0 == Error::MissingMetadata,
            },
    {
        let source = self.source;
        let mut state = self.state;
        let ghost lines = source.deep_view();
        let ghost start = state.deep_view();
        let mut i: usize = 0;
        while i < source.len()
            invariant
                i <= source.len(),
                lines == source.deep_view(),
                state.deep_view() == SctState::run(start, lines.take(i as int)),
            decreases source.len() - i,
        {
            state.read_line(i + 1, source[i].as_str());
            proof {
                let head = lines.take(i + 1);
                assert(head.drop_last() =~= lines.take(i as int));
            }
            i += 1;
        }
        assert(lines.take(source.len() as int) =~= lines);
        let mut sector = match Sector::try_from(state.partial_sector) {
            Ok(s) => s,
            Err(e) => {
                return Err(e);
            },
        };
        sector.non_critical_errors = state.errors;
        Ok(sector)
    }
}

/// The numbers of the lines that are noted lie between 1 and the number of
/// lines, and grow from one note to the next: no line is noted twice, and
/// the notes stand in the order of the lines.
pub proof fn law_errors_follow_lines(lines: Seq<Seq<char>>)
    requires
        lines.len() <= usize::MAX,
    ensures
        ({
            let errors = SctState::after(lines).errors;
            &&& errors.len() <= lines.len()
            &&& forall|i: int| 0 <= i < errors.len() ==> 1 <= (#[trigger] errors[i]).0 <= lines.len()
            &&& forall|i: int, j: int|
                0 <= i < j < errors.len() ==> (#[trigger] errors[i]).0 < (#[trigger] errors[j]).0
        }),
    decreases lines.len(),
{
    if lines.len() > 0 {
        law_errors_follow_lines(lines.drop_last());
    }
}

} // verus!
