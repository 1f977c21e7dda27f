//! Lines between two positions, and named groups of them.
use super::colour::Colour;
use super::position::{Position, ValidPosition};
use super::error::Error;
use super::SectorResult;
use crate::text::{
    distinct, find, index_of, lemma_index_of, lemma_new_name_keeps_distinct, names_of, Named,
};
use vstd::prelude::*;

verus! {

/// A straight line between two positions.
#[derive(Debug, Clone, Copy)]
pub struct Line {
    pub start: ValidPosition,
    pub end: ValidPosition,
}

/// A line that may have a colour of its own.
#[derive(Debug, Clone, Copy)]
pub struct ColouredLine {
    pub line: Line,
    pub colour: Option<Colour>,
}

pub struct ColouredLineModel {
    pub start: Position,
    pub end: Position,
    pub colour: Option<Colour>,
}

impl DeepView for ColouredLine {
    type V = ColouredLineModel;

    open spec fn deep_view(&self) -> ColouredLineModel {
        ColouredLineModel { start: self.line.start@, end: self.line.end@, colour: self.colour }
    }
}

impl ColouredLine {
    pub fn new(start: ValidPosition, end: ValidPosition, colour: Option<Colour>) -> (r:
        ColouredLine)
        ensures
            r.deep_view() == (ColouredLineModel { start: start@, end: end@, colour }),
    {
        ColouredLine { line: Line { start, end }, colour }
    }
}

/// Lines that belong together under one name, in the order in which they
/// came.
#[derive(Debug)]
pub struct LineGroup<T> {
    pub name: String,
    pub lines: Vec<T>,
}

pub struct LineGroupModel<M> {
    pub name: Seq<char>,
    pub lines: Seq<M>,
}

impl<T: DeepView> DeepView for LineGroup<T> {
    type V = LineGroupModel<T::V>;

    open spec fn deep_view(&self) -> LineGroupModel<T::V> {
        LineGroupModel { name: self.name@, lines: self.lines.deep_view() }
    }
}

impl<T> Named for LineGroup<T> {
    open spec fn name_view(&self) -> Seq<char> {
        self.name@
    }

    fn name(&self) -> (r: &String) {
        &self.name
    }
}

impl<T: DeepView> LineGroup<T> {
    pub fn new(name: String, lines: Vec<T>) -> (r: LineGroup<T>)
        ensures
            r.deep_view() == (LineGroupModel { name: name@, lines: lines.deep_view() }),
            r.name == name,
            r.lines == lines,
    {
        LineGroup { name, lines }
    }
}

/// The names of groups, in order.
pub open spec fn group_names<M>(s: Seq<LineGroupModel<M>>) -> Seq<Seq<char>> {
    Seq::new(s.len(), |i: int| s[i].name)
}

/// The lines that belong together under one name.
pub type Segments = LineGroupModel<ColouredLineModel>;

/// The groups with `line`, if there is one, added to the group at index
/// `i`.
pub open spec fn with_line(groups: Seq<Segments>, i: int, line: Option<ColouredLineModel>) -> Seq<
    Segments,
> {
    match line {
        Some(l) => groups.update(
            i,
            LineGroupModel { name: groups[i].name, lines: groups[i].lines.push(l) },
        ),
        None => groups,
    }
}

/// What becomes of groups of lines when a line of a file is taken in.
///
/// A line with a name goes to the first group of that name, which is made,
/// at the end, where there is none; the group stays even where the line
/// brought no geometry that could be used. A line without a name goes to the
/// last group; there must be one, and the geometry must be good.
pub open spec fn appended(
    groups: Seq<Segments>,
    name: Option<Seq<char>>,
    line: Option<ColouredLineModel>,
    error: Error,
) -> Result<Seq<Segments>, Error> {
    match name {
        Some(n) => match index_of(group_names(groups), n) {
            Some(i) => Ok(with_line(groups, i, line)),
            None => Ok(
                with_line(
                    groups.push(LineGroupModel { name: n, lines: Seq::empty() }),
                    groups.len() as int,
                    line,
                ),
            ),
        },
        None => if groups.len() == 0 || line is None {
            Err(error)
        } else {
            Ok(with_line(groups, groups.len() - 1, line))
        },
    }
}

/// What an optional line stands for.
pub open spec fn line_model(line: Option<ColouredLine>) -> Option<ColouredLineModel> {
    match line {
        Some(l) => Some(l.deep_view()),
        None => None,
    }
}

/// What an optional text holds.
pub open spec fn text_model(text: Option<String>) -> Option<Seq<char>> {
    match text {
        Some(t) => Some(t@),
        None => None,
    }
}

fn push_line(groups: &mut Vec<LineGroup<ColouredLine>>, i: usize, line: Option<ColouredLine>)
    requires
        i < old(groups).len(),
    ensures
        final(groups).deep_view() == with_line(old(groups).deep_view(), i as int, line_model(line)),
{
    if let Some(l) = line {
        groups[i].lines.push(l);
        proof {
            let before = old(groups).deep_view();
            assert(groups@[i as int].lines.deep_view() =~= before[i as int].lines.push(
                l.deep_view(),
            ));
        }
    }
}

/// Takes one line of a file into groups of lines: see [`appended`].
pub fn append_segment(
    groups: &mut Vec<LineGroup<ColouredLine>>,
    name: Option<String>,
    line: Option<ColouredLine>,
    error: Error,
) -> (r: SectorResult<()>)
    ensures
        match appended(old(groups).deep_view(), text_model(name), line_model(line), error) {
            Ok(g) => r is Ok && final(groups).deep_view() == g,
            Err(e) => r == Err::<(), Error>(e) && final(groups).deep_view() == old(
                groups,
            ).deep_view(),
        },
{
    proof {
        assert(names_of(groups@) =~= group_names(groups.deep_view()));
    }
    match name {
        Some(n) => {
            match find(groups, &n) {
                Some(i) => {
                    push_line(groups, i, line);
                },
                None => {
                    let last: usize = groups.len();
                    let group = LineGroup { name: n, lines: Vec::new() };
                    groups.push(group);
                    proof {
                        assert(group.lines.deep_view() =~= Seq::empty());
                    }
                    push_line(groups, last, line);
                },
            }
            Ok(())
        },
        None => {
            if groups.len() == 0 || line.is_none() {
                return Err(error);
            }
            let last: usize = groups.len() - 1;
            push_line(groups, last, line);
            Ok(())
        },
    }
}

/// A line with a name that no group has yet opens a group at the end, and a
/// line without a name that follows it goes to that group: the two lines
/// make one group of two lines, and the groups that were there are as they
/// were.
pub proof fn law_continuation_follows_name(
    groups: Seq<Segments>,
    name: Seq<char>,
    first: ColouredLineModel,
    second: ColouredLineModel,
    error: Error,
)
    requires
        index_of(group_names(groups), name) is None,
    ensures
        ({
            let opened = appended(groups, Some(name), Some(first), error);
            let continued = appended(opened->Ok_0, None, Some(second), error);
            &&& opened is Ok
            &&& continued == Ok::<Seq<Segments>, Error>(
                groups.push(LineGroupModel { name, lines: seq![first, second] }),
            )
        }),
{
    let opened = appended(groups, Some(name), Some(first), error)->Ok_0;
    let continued = appended(opened, None, Some(second), error)->Ok_0;
    assert(continued[groups.len() as int].lines =~= seq![first, second]);
    assert(continued =~= groups.push(LineGroupModel { name, lines: seq![first, second] }));
}

/// Groups of which no two have one name stay such whatever line is taken
/// in.
pub proof fn law_group_names_stay_distinct(
    groups: Seq<Segments>,
    name: Option<Seq<char>>,
    line: Option<ColouredLineModel>,
    error: Error,
)
    requires
        distinct(group_names(groups)),
        appended(groups, name, line, error) is Ok,
    ensures
        distinct(group_names(appended(groups, name, line, error)->Ok_0)),
{
    let after = appended(groups, name, line, error)->Ok_0;
    let names = group_names(groups);
    match name {
        Some(n) => {
            lemma_index_of(names, n);
            match index_of(names, n) {
                Some(i) => {
                    assert(group_names(after) =~= names);
                },
                None => {
                    lemma_new_name_keeps_distinct(names, n);
                    assert(group_names(after) =~= names.push(n));
                },
            }
        },
        None => {
            assert(group_names(after) =~= names);
        },
    }
}

} // verus!
