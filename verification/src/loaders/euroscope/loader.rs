//! What a profile names: the files that belong to it, as its lines list
//! them.
use crate::text::{
    chars, fields, lowercase, same_text, split, string, to_lowercase, views,
};
use vstd::prelude::*;

verus! {

/// The files of one profile.
#[derive(Debug)]
pub struct EuroScopeLoaderPrf {
    pub prf_file: String,
    pub symbology_file: String,
    pub sector_file: String,
    pub asr_files: Vec<(String, String)>,
}

/// The profiles that are to be read.
#[derive(Debug)]
pub struct EuroScopeLoader {
    pub prfs: Vec<EuroScopeLoaderPrf>,
}

/// What a line of a profile names.
#[derive(Debug, PartialEq, Eq)]
pub enum PrfEntry {
    /// The symbology file, by its path as the profile writes it.
    Symbology(String),
    /// The sector file, by its path as the profile writes it.
    Sector(String),
    /// The settings of a display, by their name and their path as the
    /// profile writes it.
    Asr(String, String),
    /// Nothing that counts here.
    Nothing,
}

pub enum PrfEntryModel {
    Symbology(Seq<char>),
    Sector(Seq<char>),
    Asr(Seq<char>, Seq<char>),
    Nothing,
}

impl DeepView for PrfEntry {
    type V = PrfEntryModel;

    open spec fn deep_view(&self) -> PrfEntryModel {
        match self {
            PrfEntry::Symbology(path) => PrfEntryModel::Symbology(path@),
            PrfEntry::Sector(path) => PrfEntryModel::Sector(path@),
            PrfEntry::Asr(name, path) => PrfEntryModel::Asr(name@, path@),
            PrfEntry::Nothing => PrfEntryModel::Nothing,
        }
    }
}

/// What a line names whose first two fields are, in lower case, `first` and
/// `second`, and whose second and third fields are `name` and `path` as they
/// are written: after `settings`, the symbology file or the sector file;
/// after `asrfastkeys`, the settings of a display.
pub open spec fn entry_named(
    first: Seq<char>,
    second: Seq<char>,
    name: Seq<char>,
    path: Seq<char>,
) -> PrfEntryModel {
    if first == "settings"@ {
        if second == "settingsfilesymbology"@ {
            PrfEntryModel::Symbology(path)
        } else if second == "sector"@ {
            PrfEntryModel::Sector(path)
        } else {
            PrfEntryModel::Nothing
        }
    } else if first == "asrfastkeys"@ {
        PrfEntryModel::Asr(name, path)
    } else {
        PrfEntryModel::Nothing
    }
}

/// What a line of a profile names. Its fields stand between tabs; the first
/// two are read in whatever case they are written. A line of fewer than
/// three fields names nothing.
pub open spec fn entry_written(line: Seq<char>) -> PrfEntryModel {
    let f = fields(line, '\t');
    if f.len() < 3 {
        PrfEntryModel::Nothing
    } else {
        entry_named(lowercase(f[0]), lowercase(f[1]), f[1], f[2])
    }
}

/// Tells what a line names from its first two fields in lower case and its
/// second and third fields as they are written.
pub fn prf_entry(first: &str, second: &str, name: &str, path: &str) -> (r: PrfEntry)
    ensures
        r.deep_view() == entry_named(first@, second@, name@, path@),
{
    if same_text(first, "settings") {
        if same_text(second, "settingsfilesymbology") {
            PrfEntry::Symbology(String::from_str(path))
        } else if same_text(second, "sector") {
            PrfEntry::Sector(String::from_str(path))
        } else {
            PrfEntry::Nothing
        }
    } else if same_text(first, "asrfastkeys") {
        PrfEntry::Asr(String::from_str(name), String::from_str(path))
    } else {
        PrfEntry::Nothing
    }
}

/// Reads what a line of a profile names.
pub fn read_prf_line(line: &str) -> (r: PrfEntry)
    ensures
        r.deep_view() == entry_written(line@),
{
    let all = chars(line);
    let f = split(all.as_slice(), '\t');
    if f.len() < 3 {
        return PrfEntry::Nothing;
    }
    let name = string(f[1]);
    let path = string(f[2]);
    let first = to_lowercase(string(f[0]).as_str());
    let second = to_lowercase(name.as_str());
    prf_entry(first.as_str(), second.as_str(), name.as_str(), path.as_str())
}

/// The steps of a path that a profile writes: what stands between its
/// backslashes. A path that begins with a backslash, whose first step is
/// therefore empty, is meant from the folder of the profile.
pub fn es_path_steps(es_path: &str) -> (r: Vec<String>)
    ensures
        r.deep_view() == fields(es_path@, '\\'),
        r.len() >= 1,
{
    let all = chars(es_path);
    let f = split(all.as_slice(), '\\');
    let mut out: Vec<String> = Vec::new();
    let mut i: usize = 0;
    while i < f.len()
        invariant
            i <= f.len(),
            out.deep_view() == views(f@).take(i as int),
        decreases f.len() - i,
    {
        let ghost before = out.deep_view();
        let step = string(f[i]);
        out.push(step);
        assert(out.deep_view() =~= before.push(step@));
        i += 1;
    }
    out
}

} // verus!
