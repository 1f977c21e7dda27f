//! The reader of a supplementary file: it takes the lines in order, keeps
//! track of the section that they stand in, and notes the lines that could
//! not be used without stopping for any of them.
use super::partial::{handled, PartialEse, PartialEseModel};
use super::{errors_model, Ese, EseModel, LineError};
use crate::loaders::euroscope::error::Error;
use crate::loaders::euroscope::reader::{classify, content, content_of, kind_of, LineKind};
use crate::loaders::euroscope::SectorResult;
use crate::text::{chars, is_literal, string, to_uppercase, uppercase};
use vstd::prelude::*;

verus! {

/// The sections of a supplementary file.
#[derive(Debug, Clone, Copy, PartialEq, Eq, Structural)]
pub enum FileSection {
    FreeText,
    SidsStars,
    Positions,
    Airspace,
    Radar,
    Ground,
}

impl FileSection {
    /// The section that a header in capital letters opens.
    pub open spec fn named(header: Seq<char>) -> Option<FileSection> {
        if header == "[FREETEXT]"@ {
            Some(FileSection::FreeText)
        } else if header == "[SIDSSTARS]"@ {
            Some(FileSection::SidsStars)
        } else if header == "[POSITIONS]"@ {
            Some(FileSection::Positions)
        } else if header == "[AIRSPACE]"@ {
            Some(FileSection::Airspace)
        } else if header == "[RADAR]"@ {
            Some(FileSection::Radar)
        } else if header == "[GROUND]"@ {
            Some(FileSection::Ground)
        } else {
            None
        }
    }

    /// Reads a header that is already in capital letters.
    pub fn from_upper(header: &str) -> (r: SectorResult<FileSection>)
        ensures
            match Self::named(header@) {
                Some(section) => r == Ok::<FileSection, Error>(section),
                None => r == Err::<FileSection, Error>(Error::InvalidFileSection),
            },
    {
        let h = chars(header);
        let h = h.as_slice();
        if is_literal(h, "[FREETEXT]") {
            Ok(FileSection::FreeText)
        } else if is_literal(h, "[SIDSSTARS]") {
            Ok(FileSection::SidsStars)
        } else if is_literal(h, "[POSITIONS]") {
            Ok(FileSection::Positions)
        } else if is_literal(h, "[AIRSPACE]") {
            Ok(FileSection::Airspace)
        } else if is_literal(h, "[RADAR]") {
            Ok(FileSection::Radar)
        } else if is_literal(h, "[GROUND]") {
            Ok(FileSection::Ground)
        } else {
            Err(Error::InvalidFileSection)
        }
    }

    /// Reads a header, in whatever case it is written.
    pub fn from_str(header: &str) -> (r: SectorResult<FileSection>)
        ensures
            match Self::named(uppercase(header@)) {
                Some(section) => r == Ok::<FileSection, Error>(section),
                None => r == Err::<FileSection, Error>(Error::InvalidFileSection),
            },
    {
        let upper = to_uppercase(header);
        Self::from_upper(upper.as_str())
    }
}

/// The outcome of a method that leaves the file as it was when it fails.
pub open spec fn settled(m: PartialEseModel, r: Result<PartialEseModel, Error>) -> (
    PartialEseModel,
    Result<(), Error>,
) {
    match r {
        Ok(after) => (after, Ok(())),
        Err(e) => (m, Err(e)),
    }
}

proof fn lemma_settled(
    before: PartialEseModel,
    after: PartialEseModel,
    r: SectorResult<()>,
    expected: Result<PartialEseModel, Error>,
)
    requires
        handled(before, after, r, expected),
    ensures
        (after, r) == settled(before, expected),
{
    if expected is Ok {
        assert(r->Ok_0 == ());
    }
}

/// The file after a line that belongs to `section`, and whether the line was
/// good. Free text, procedures and positions are read; the lines of the
/// other sections are passed over.
pub open spec fn filed(m: PartialEseModel, section: FileSection, line: Seq<char>) -> (
    PartialEseModel,
    Result<(), Error>,
) {
    match section {
        FileSection::FreeText => settled(m, PartialEse::freetext_line(m, line)),
        FileSection::SidsStars => settled(m, PartialEse::sids_stars_line(m, line)),
        FileSection::Positions => settled(m, PartialEse::atc_position_line(m, line)),
        _ => (m, Ok(())),
    }
}

/// Where a reader stands: the section that is open, what has been read, and
/// the lines that could not be used.
#[derive(Debug)]
pub struct EseState {
    pub current_section: FileSection,
    pub partial_ese: PartialEse,
    pub errors: Vec<LineError>,
}

pub struct EseStateModel {
    pub current_section: FileSection,
    pub partial_ese: PartialEseModel,
    pub errors: Seq<(usize, Seq<char>, Error)>,
}

impl DeepView for EseState {
    type V = EseStateModel;

    open spec fn deep_view(&self) -> EseStateModel {
        EseStateModel {
            current_section: self.current_section,
            partial_ese: self.partial_ese.deep_view(),
            errors: errors_model(self.errors@),
        }
    }
}

impl EseState {
    /// Before the first line: lines are free text until a header says
    /// otherwise, and nothing has been read.
    pub open spec fn initial() -> EseStateModel {
        EseStateModel {
            current_section: FileSection::FreeText,
            partial_ese: PartialEse::empty(),
            errors: Seq::empty(),
        }
    }

    /// The state with the outcome of a line: the file is the outcome's, and
    /// a line that was not good is noted with its number, its content and
    /// what is wrong with it.
    pub open spec fn noted(
        s: EseStateModel,
        number: usize,
        content: Seq<char>,
        outcome: (PartialEseModel, Result<(), Error>),
    ) -> EseStateModel {
        EseStateModel {
            partial_ese: outcome.0,
            errors: match outcome.1 {
                Ok(_) => s.errors,
                Err(e) => s.errors.push((number, content, e)),
            },
            ..s
        }
    }

    /// The state after the line with the number `number`.
    ///
    /// A blank line changes nothing. A header opens its section; one that
    /// names no section is noted and leaves the open section open. A line
    /// that sets the offset or names a colour is read as such in whatever
    /// section it stands. Any other line is read as its section asks.
    pub open spec fn step(s: EseStateModel, number: usize, line: Seq<char>) -> EseStateModel {
        let content = content_of(line);
        match kind_of(content) {
            LineKind::Blank => s,
            LineKind::Header => match FileSection::named(uppercase(content)) {
                Some(section) => EseStateModel { current_section: section, ..s },
                None => EseStateModel {
                    errors: s.errors.push((number, content, Error::InvalidFileSection)),
                    ..s
                },
            },
            LineKind::Offset => Self::noted(
                s,
                number,
                content,
                settled(s.partial_ese, PartialEse::offset_line(s.partial_ese, content)),
            ),
            LineKind::Colour => Self::noted(
                s,
                number,
                content,
                settled(s.partial_ese, PartialEse::colour_line(s.partial_ese, content)),
            ),
            LineKind::Record => Self::noted(
                s,
                number,
                content,
                filed(s.partial_ese, s.current_section, content),
            ),
        }
    }

    /// The state that `start` becomes over `lines`, numbered from 1.
    pub open spec fn run(start: EseStateModel, lines: Seq<Seq<char>>) -> EseStateModel
        decreases lines.len(),
    {
        if lines.len() == 0 {
            start
        } else {
            Self::step(Self::run(start, lines.drop_last()), lines.len() as usize, lines.last())
        }
    }

    /// The state after all of `lines`, numbered from 1, when nothing was
    /// read before them.
    pub open spec fn after(lines: Seq<Seq<char>>) -> EseStateModel {
        Self::run(Self::initial(), lines)
    }

    pub fn new() -> (r: EseState)
        ensures
            r.deep_view() == Self::initial(),
    {
        let r = EseState {
            current_section: FileSection::FreeText,
            partial_ese: PartialEse::new(),
            errors: Vec::new(),
        };
        assert(r.deep_view().errors =~= Seq::empty());
        r
    }

    fn file(&mut self, line: &str) -> (r: SectorResult<()>)
        ensures
            final(self).current_section == old(self).current_section,
            final(self).errors == old(self).errors,
            (final(self).partial_ese.deep_view(), r) == filed(
                old(self).partial_ese.deep_view(),
                old(self).current_section,
                line@,
            ),
    {
        let ghost before = self.partial_ese.deep_view();
        match self.current_section {
            FileSection::FreeText => {
                let r = self.partial_ese.parse_freetext_line(line);
                proof {
                    lemma_settled(
                        before,
                        self.partial_ese.deep_view(),
                        r,
                        PartialEse::freetext_line(before, line@),
                    );
                }
                r
            },
            FileSection::SidsStars => {
                let r = self.partial_ese.parse_sids_stars_line(line);
                proof {
                    lemma_settled(
                        before,
                        self.partial_ese.deep_view(),
                        r,
                        PartialEse::sids_stars_line(before, line@),
                    );
                }
                r
            },
            FileSection::Positions => {
                let r = self.partial_ese.parse_atc_position_line(line);
                proof {
                    lemma_settled(
                        before,
                        self.partial_ese.deep_view(),
                        r,
                        PartialEse::atc_position_line(before, line@),
                    );
                }
                r
            },
            _ => Ok(()),
        }
    }

    /// Takes one line of the file.
    pub fn read_line(&mut self, number: usize, line: &str)
        ensures
            final(self).deep_view() == Self::step(old(self).deep_view(), number, line@),
    {
        let all = chars(line);
        let text = content(all.as_slice());
        let kind = classify(text);
        let text = string(text);
        let ghost before = self.deep_view();
        let outcome = match kind {
            LineKind::Blank => {
                return ;
            },
            LineKind::Header => {
                match FileSection::from_str(text.as_str()) {
                    Ok(section) => {
                        self.current_section = section;
                        return ;
                    },
                    Err(e) => Err(e),
                }
            },
            LineKind::Offset => self.partial_ese.parse_offset(text.as_str()),
            LineKind::Colour => self.partial_ese.parse_colour_line(text.as_str()),
            LineKind::Record => self.file(text.as_str()),
        };
        if let Err(e) = outcome {
            self.errors.push((number, text, e));
            assert(errors_model(self.errors@) =~= before.errors.push((number, text@, e)));
        }
    }
}

/// A reader of a supplementary file over its lines.
#[derive(Debug)]
pub struct EseReader {
    pub source: Vec<String>,
    pub state: EseState,
}

impl EseReader {
    pub fn new(source: Vec<String>) -> (r: EseReader)
        ensures
            r.source == source,
            r.state.deep_view() == EseState::initial(),
    {
        EseReader { source, state: EseState::new() }
    }

    /// What is made of the state in which all lines have been read: the
    /// file, with the lines that could not be used listed in their order.
    pub open spec fn closed(end: EseStateModel) -> EseModel {
        EseModel { non_critical_errors: end.errors, ..Ese::finished(end.partial_ese) }
    }

    /// What a file of these lines holds.
    pub open spec fn read(lines: Seq<Seq<char>>) -> EseModel {
        Self::closed(EseState::after(lines))
    }

    /// Reads the file from its first line to its last. No line stops the
    /// reading, and the reading never fails. For a reader that
    /// [`EseReader::new`] made the outcome is [`EseReader::read`] of the
    /// lines.
    pub fn try_read(self) -> (r: SectorResult<Ese>)
        ensures
            r is Ok,
            r->Ok_0.deep_view() == Self::closed(
                EseState::run(self.state.deep_view(), self.source.deep_view()),
            ),
    {
        let source = self.source;
        let mut state = self.state;
        let ghost lines = source.deep_view();
        let ghost start = state.deep_view();
        let mut i: usize = 0;
        while i < source.len()
            invariant
                i <= source.len(),
                lines == source.deep_view(),
                state.deep_view() == EseState::run(start, lines.take(i as int)),
            decreases source.len() - i,
        {
            state.read_line(i + 1, source[i].as_str());
            proof {
                let head = lines.take(i + 1);
                assert(head.drop_last() =~= lines.take(i as int));
            }
            i += 1;
        }
        assert(lines.take(source.len() as int) =~= lines);
        let mut ese = match Ese::try_from(state.partial_ese) {
            Ok(e) => e,
            Err(e) => {
                return Err(e);
            },
        };
        ese.non_critical_errors = state.errors;
        Ok(ese)
    }
}

/// The numbers of the lines that are noted lie between 1 and the number of
/// lines, and grow from one note to the next: no line is noted twice, and
/// the notes stand in the order of the lines.
pub proof fn law_errors_follow_lines(lines: Seq<Seq<char>>)
    requires
        lines.len() <= usize::MAX,
    ensures
        ({
            let errors = EseState::after(lines).errors;
            &&& errors.len() <= lines.len()
            &&& forall|i: int| 0 <= i < errors.len() ==> 1 <= (#[trigger] errors[i]).0 <= lines.len()
            &&& forall|i: int, j: int|
                0 <= i < j < errors.len() ==> (#[trigger] errors[i]).0 < (#[trigger] errors[j]).0
        }),
    decreases lines.len(),
{
    if lines.len() > 0 {
        law_errors_follow_lines(lines.drop_last());
    }
}

} // verus!
