//! The lines of labels.
use super::{handled, PartialSector, PartialSectorModel};
use crate::loaders::euroscope::colour::ColourTable;
use crate::loaders::euroscope::error::Error;
use crate::loaders::euroscope::sector::{Label, LabelGroup, LabelGroupModel, LabelModel};
use crate::loaders::euroscope::SectorResult;
use crate::text::{
    chars, join, joined, split_whitespace, string, trim_matches, without_surrounding, words,
};
use vstd::prelude::*;

verus! {

/// The groups of labels with one more label in the last of them; where
/// there is no group, one is made by the name `SCT2`.
pub open spec fn with_label(groups: Seq<LabelGroupModel>, label: LabelModel) -> Seq<
    LabelGroupModel,
> {
    if groups.len() == 0 {
        seq![LabelGroupModel { name: "SCT2"@, labels: seq![label] }]
    } else {
        groups.update(
            groups.len() - 1,
            LabelGroupModel { name: groups.last().name, labels: groups.last().labels.push(label) },
        )
    }
}

impl PartialSector {
    /// What a line of the labels says: the words of the label, with quotation
    /// marks taken from their ends, then a latitude, a longitude and a
    /// colour.
    pub open spec fn label_written(m: PartialSectorModel, line: Seq<char>) -> Result<
        LabelModel,
        Error,
    > {
        let t = words(line);
        if t.len() < 4 {
            Err(Error::InvalidLabel)
        } else {
            match ColourTable::resolved(m.colours, t.last()) {
                None => Err(Error::InvalidLabel),
                Some(colour) => match m.position_creator.placed(t[t.len() - 3], t[t.len() - 2]) {
                    Err(e) => Err(e),
                    Ok(p) => Ok(
                        LabelModel {
                            name: without_surrounding(joined(t.take(t.len() - 3), ' '), '"'),
                            position: p,
                            colour,
                        },
                    ),
                },
            }
        }
    }

    /// The sector after a line of the labels.
    pub open spec fn label_line(m: PartialSectorModel, line: Seq<char>) -> Result<
        PartialSectorModel,
        Error,
    > {
        match Self::label_written(m, line) {
            Ok(label) => Ok(PartialSectorModel { labels: with_label(m.labels, label), ..m }),
            Err(e) => Err(e),
        }
    }

    pub fn parse_label_line(&mut self, value: &str) -> (r: SectorResult<()>)
        ensures
            handled(
                old(self).deep_view(),
                final(self).deep_view(),
                r,
                Self::label_line(old(self).deep_view(), value@),
            ),
    {
        let line = chars(value);
        let t = split_whitespace(line.as_slice());
        if t.len() < 4 {
            return Err(Error::InvalidLabel);
        }
        let n: usize = t.len();
        let colour = match self.try_fetch_or_decode_colour(t[n - 1]) {
            Some(c) => c,
            None => {
                return Err(Error::InvalidLabel);
            },
        };
        let position = match self.position_creator.place(t[n - 3], t[n - 2]) {
            Ok(p) => p,
            Err(e) => {
                return Err(e);
            },
        };
        let words_of_name = join(&t, 0, n - 3, ' ');
        let name = trim_matches(words_of_name.as_slice(), '"');
        let label = Label { name: string(name), position, colour };
        let ghost before = self.labels.deep_view();
        if self.labels.len() == 0 {
            let mut labels: Vec<Label> = Vec::new();
            labels.push(label);
            assert(labels.deep_view() =~= seq![label.deep_view()]);
            self.labels.push(LabelGroup { name: String::from_str("SCT2"), labels });
            assert(self.labels.deep_view() =~= with_label(before, label.deep_view()));
        } else {
            let last: usize = self.labels.len() - 1;
            self.labels[last].labels.push(label);
            proof {
                assert(self.labels@[last as int].labels.deep_view() =~= before.last().labels.push(
                    label.deep_view(),
                ));
                assert(self.labels.deep_view() =~= with_label(before, label.deep_view()));
            }
        }
        Ok(())
    }
}

} // verus!
