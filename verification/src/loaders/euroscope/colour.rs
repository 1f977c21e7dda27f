//! Colours, and the table of the colours that a file has named.
use super::error::Error;
use super::SectorResult;
use crate::number::{parse_u32, unsigned};
use crate::text::{chars, lowercase, string, to_lowercase};
use vstd::prelude::*;

verus! {

/// A colour as red, green and blue.
#[derive(Debug, Clone, Copy, PartialEq, Eq, Structural)]
pub struct Colour {
    pub r: u8,
    pub g: u8,
    pub b: u8,
}

impl Default for Colour {
    fn default() -> (r: Colour)
        ensures
            r == (Colour { r: 0, g: 0, b: 0 }),
    {
        Colour { r: 0, g: 0, b: 0 }
    }
}

impl Colour {
    /// The colour packed in `value`: red in bits 16 to 23, green in bits 8 to
    /// 15, blue in the lowest eight. Higher bits do not count.
    pub open spec fn unpacked(value: u32) -> Colour {
        Colour {
            r: ((value / 0x1_0000) % 0x100) as u8,
            g: ((value / 0x100) % 0x100) as u8,
            b: (value % 0x100) as u8,
        }
    }

    /// The colour that the token `s` writes as a packed number, if it is
    /// one.
    pub open spec fn written(s: Seq<char>) -> Option<Colour> {
        match unsigned(s, u32::MAX as nat) {
            Some(v) => Some(Self::unpacked(v as u32)),
            None => None,
        }
    }

    pub fn from_u32(value: u32) -> (r: Colour)
        ensures
            r == Self::unpacked(value),
    {
        Colour {
            r: ((value / 0x1_0000) % 0x100) as u8,
            g: ((value / 0x100) % 0x100) as u8,
            b: (value % 0x100) as u8,
        }
    }

    /// The colour as web pages write it: `#`, then red, green and blue with
    /// two hexadecimal digits each, in capital letters.
    pub open spec fn hex(self) -> Seq<char> {
        seq![
            '#',
            hex_digit(self.r / 16),
            hex_digit(self.r % 16),
            hex_digit(self.g / 16),
            hex_digit(self.g % 16),
            hex_digit(self.b / 16),
            hex_digit(self.b % 16),
        ]
    }

    /// Writes the colour as web pages do.
    pub fn to_hex(&self) -> (r: String)
        ensures
            r@ == self.hex(),
    {
        let mut out = String::new();
        out.push('#');
        out.push(hex_digit_of(self.r / 16));
        out.push(hex_digit_of(self.r % 16));
        out.push(hex_digit_of(self.g / 16));
        out.push(hex_digit_of(self.g % 16));
        out.push(hex_digit_of(self.b / 16));
        out.push(hex_digit_of(self.b % 16));
        out
    }

    /// Reads a colour written as a packed number.
    pub fn from_chars(s: &[char]) -> (r: SectorResult<Colour>)
        ensures
            match Self::written(s@) {
                Some(c) => r == Ok::<Colour, Error>(c),
                None => r == Err::<Colour, Error>(Error::InvalidColourDefinition),
            },
    {
        match parse_u32(s) {
            Some(v) => Ok(Self::from_u32(v)),
            None => Err(Error::InvalidColourDefinition),
        }
    }

    /// Reads a colour written as a packed number.
    pub fn from_str(s: &str) -> (r: SectorResult<Colour>)
        ensures
            match Self::written(s@) {
                Some(c) => r == Ok::<Colour, Error>(c),
                None => r == Err::<Colour, Error>(Error::InvalidColourDefinition),
            },
    {
        let c = chars(s);
        Self::from_chars(c.as_slice())
    }
}

/// The hexadecimal digit for a number below 16, in capital letters.
pub open spec fn hex_digit(n: u8) -> char
    recommends
        n < 16,
{
    if n < 10 {
        (n + 0x30) as char
    } else {
        (n + 0x37) as char
    }
}

fn hex_digit_of(n: u8) -> (r: char)
    requires
        n < 16,
    ensures
        r == hex_digit(n),
{
    if n < 10 {
        (n + 0x30) as char
    } else {
        (n + 0x37) as char
    }
}

/// One named colour.
#[derive(Debug, Clone)]
pub struct ColourEntry {
    pub name: String,
    pub colour: Colour,
}

/// The colours that a file has named so far. No name occurs twice; the names
/// are kept as they were given, which for the readers is in lower case.
#[derive(Debug)]
pub struct ColourTable {
    entries: Vec<ColourEntry>,
}

/// The table that `entries` stand for: each name with the colour that was
/// given to it last.
pub open spec fn table_of(entries: Seq<ColourEntry>) -> Map<Seq<char>, Colour>
    decreases entries.len(),
{
    if entries.len() == 0 {
        Map::empty()
    } else {
        table_of(entries.drop_last()).insert(entries.last().name@, entries.last().colour)
    }
}

pub open spec fn distinct_names(entries: Seq<ColourEntry>) -> bool {
    forall|i: int, j: int|
        0 <= i < j < entries.len() ==> (#[trigger] entries[i]).name@ != (#[trigger] entries[j]).name@
}

proof fn lemma_table_absent(entries: Seq<ColourEntry>, name: Seq<char>)
    requires
        forall|i: int| 0 <= i < entries.len() ==> (#[trigger] entries[i]).name@ != name,
    ensures
        !table_of(entries).contains_key(name),
    decreases entries.len(),
{
    if entries.len() > 0 {
        lemma_table_absent(entries.drop_last(), name);
    }
}

proof fn lemma_table_present(entries: Seq<ColourEntry>, i: int)
    requires
        0 <= i < entries.len(),
        distinct_names(entries),
    ensures
        table_of(entries).contains_key(entries[i].name@),
        table_of(entries)[entries[i].name@] == entries[i].colour,
    decreases entries.len(),
{
    if i < entries.len() - 1 {
        lemma_table_present(entries.drop_last(), i);
    }
}

proof fn lemma_table_size(entries: Seq<ColourEntry>)
    requires
        distinct_names(entries),
    ensures
        table_of(entries).dom().finite(),
        table_of(entries).len() == entries.len(),
    decreases entries.len(),
{
    if entries.len() > 0 {
        let before = entries.drop_last();
        lemma_table_size(before);
        lemma_table_absent(before, entries.last().name@);
    }
}

proof fn lemma_table_update(entries: Seq<ColourEntry>, i: int, e: ColourEntry)
    requires
        0 <= i < entries.len(),
        distinct_names(entries),
        e.name@ == entries[i].name@,
    ensures
        table_of(entries.update(i, e)) =~= table_of(entries).insert(e.name@, e.colour),
        distinct_names(entries.update(i, e)),
    decreases entries.len(),
{
    let after = entries.update(i, e);
    if i < entries.len() - 1 {
        assert(after.drop_last() =~= entries.drop_last().update(i, e));
        lemma_table_update(entries.drop_last(), i, e);
    } else {
        assert(after.drop_last() =~= entries.drop_last());
    }
}

impl View for ColourTable {
    type V = Map<Seq<char>, Colour>;

    closed spec fn view(&self) -> Map<Seq<char>, Colour> {
        table_of(self.entries@)
    }
}

impl ColourTable {
    #[verifier::type_invariant]
    spec fn distinct(self) -> bool {
        distinct_names(self.entries@)
    }

    pub fn new() -> (r: ColourTable)
        ensures
            r@ == Map::<Seq<char>, Colour>::empty(),
    {
        ColourTable { entries: Vec::new() }
    }

    /// The number of names in the table.
    pub fn len(&self) -> (r: usize)
        ensures
            self@.dom().finite(),
            r == self@.len(),
    {
        proof {
            use_type_invariant(self);
            lemma_table_size(self.entries@);
        }
        self.entries.len()
    }

    /// The entries of the table: each name once, with its colour.
    pub fn entries(&self) -> (r: &Vec<ColourEntry>)
        ensures
            table_of(r@) == self@,
            distinct_names(r@),
    {
        proof {
            use_type_invariant(self);
        }
        &self.entries
    }

    fn position(&self, name: &String) -> (r: Option<usize>)
        ensures
            match r {
                Some(i) => i < self.entries@.len() && self.entries@[i as int].name@ == name@,
                None => forall|i: int|
                    0 <= i < self.entries@.len() ==> (#[trigger] self.entries@[i]).name@ != name@,
            },
    {
        let mut i: usize = 0;
        while i < self.entries.len()
            invariant
                i <= self.entries@.len(),
                forall|k: int| 0 <= k < i ==> (#[trigger] self.entries@[k]).name@ != name@,
            decreases self.entries@.len() - i,
        {
            if self.entries[i].name == *name {
                return Some(i);
            }
            i += 1;
        }
        None
    }

    /// The colour that goes by exactly this name.
    pub fn get(&self, name: &String) -> (r: Option<Colour>)
        ensures
            r == (if self@.contains_key(name@) {
                Some(self@[name@])
            } else {
                None
            }),
    {
        proof {
            use_type_invariant(self);
        }
        match self.position(name) {
            Some(i) => {
                proof {
                    lemma_table_present(self.entries@, i as int);
                }
                Some(self.entries[i].colour)
            },
            None => {
                proof {
                    lemma_table_absent(self.entries@, name@);
                }
                None
            },
        }
    }

    /// Gives `name` the colour `colour`, whether or not it had one.
    pub fn insert(&mut self, name: String, colour: Colour)
        ensures
            final(self)@ == old(self)@.insert(name@, colour),
    {
        proof {
            use_type_invariant(&*self);
        }
        let found = self.position(&name);
        let mut entries: Vec<ColourEntry> = Vec::new();
        std::mem::swap(&mut entries, &mut self.entries);
        let ghost before = entries@;
        let entry = ColourEntry { name, colour };
        match found {
            Some(i) => {
                proof {
                    lemma_table_update(before, i as int, entry);
                }
                entries.set(i, entry);
            },
            None => {
                entries.push(entry);
                assert(entries@.drop_last() =~= before);
            },
        }
        self.entries = entries;
    }

    /// The colour that a token stands for: the colour that it writes as a
    /// number, else the colour that the table holds under the token in lower
    /// case.
    pub open spec fn resolved(table: Map<Seq<char>, Colour>, token: Seq<char>) -> Option<
        Colour,
    > {
        match Colour::written(token) {
            Some(c) => Some(c),
            None => if table.contains_key(lowercase(token)) {
                Some(table[lowercase(token)])
            } else {
                None
            },
        }
    }

    /// Decodes `token` as a number or looks it up by name.
    pub fn resolve(&self, token: &[char]) -> (r: Option<Colour>)
        ensures
            r == Self::resolved(self@, token@),
    {
        match Colour::from_chars(token) {
            Ok(c) => Some(c),
            Err(_) => {
                let t = string(token);
                let name = to_lowercase(t.as_str());
                self.get(&name)
            },
        }
    }

    /// A token that writes a number is decoded as that number, whatever the
    /// table holds under the same characters.
    pub proof fn law_number_before_name(table: Map<Seq<char>, Colour>, token: Seq<char>)
        requires
            Colour::written(token) is Some,
        ensures
            Self::resolved(table, token) == Colour::written(token),
    {
    }

    /// A name resolves to the colour that it was last given, as long as it
    /// does not write a number.
    pub proof fn law_defined_then_resolved(
        table: Map<Seq<char>, Colour>,
        name: Seq<char>,
        colour: Colour,
    )
        requires
            Colour::written(name) is None,
        ensures
            Self::resolved(table.insert(lowercase(name), colour), name) == Some(colour),
    {
    }
}

} // verus!
