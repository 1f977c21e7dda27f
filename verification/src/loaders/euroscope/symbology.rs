//! The kinds of things that a display can show, and the settings that a
//! symbology file gives for them.
use super::colour::Colour;
use super::error::ValueError;
use crate::number::{decimal, parse_decimal, parse_u32, parse_u8, unsigned};
use crate::text::{
    before, chars, fields, find, index_of, is_literal, lemma_first_field, lowercase, names_of,
    same_text, split, string, to_lowercase, views, Named,
};
use vstd::prelude::*;

verus! {

#[derive(Debug, Clone, Copy, PartialEq, Eq, Structural)]
pub enum SymbologyItemType {
    Airports,
    LowAirways,
    HighAirways,
    Fixes,
    Sids,
    Stars,
    ArtccHighBoundary,
    ArtccBoundary,
    ArtccLowBoundary,
    Geo,
    Vors,
    Ndbs,
    Runways,
    Datablock,
    Controller,
    Metar,
    Other,
    Transitions,
    Chat,
    Sector,
    GroundNetwork,
    Region,
    Label,
}

impl Default for SymbologyItemType {
    fn default() -> (r: SymbologyItemType)
        ensures
            r == SymbologyItemType::Other,
    {
        SymbologyItemType::Other
    }
}

impl SymbologyItemType {
    /// The key under which a package files things of this kind.
    pub open spec fn key(self) -> Seq<char> {
        match self {
            SymbologyItemType::Airports => "airports"@,
            SymbologyItemType::LowAirways => "low_airways"@,
            SymbologyItemType::HighAirways => "high_airways"@,
            SymbologyItemType::Fixes => "fixes"@,
            SymbologyItemType::Sids => "sids"@,
            SymbologyItemType::Stars => "stars"@,
            SymbologyItemType::ArtccHighBoundary => "artcc_high"@,
            SymbologyItemType::ArtccBoundary => "artcc"@,
            SymbologyItemType::ArtccLowBoundary => "artcc_low"@,
            SymbologyItemType::Geo => "geo"@,
            SymbologyItemType::Vors => "vors"@,
            SymbologyItemType::Ndbs => "ndbs"@,
            SymbologyItemType::Runways => "runways"@,
            SymbologyItemType::Datablock => "datablock"@,
            SymbologyItemType::Controller => "controller"@,
            SymbologyItemType::Metar => "metar"@,
            SymbologyItemType::Other => "other"@,
            SymbologyItemType::Transitions => "transitions"@,
            SymbologyItemType::Chat => "chat"@,
            SymbologyItemType::Sector => "sector"@,
            SymbologyItemType::GroundNetwork => "ground_network"@,
            SymbologyItemType::Region => "regions"@,
            SymbologyItemType::Label => "free_text"@,
        }
    }

    pub fn to_key_string(&self) -> (r: String)
        ensures
            r@ == self.key(),
    {
        let key = match self {
            SymbologyItemType::Airports => "airports",
            SymbologyItemType::LowAirways => "low_airways",
            SymbologyItemType::HighAirways => "high_airways",
            SymbologyItemType::Fixes => "fixes",
            SymbologyItemType::Sids => "sids",
            SymbologyItemType::Stars => "stars",
            SymbologyItemType::ArtccHighBoundary => "artcc_high",
            SymbologyItemType::ArtccBoundary => "artcc",
            SymbologyItemType::ArtccLowBoundary => "artcc_low",
            SymbologyItemType::Geo => "geo",
            SymbologyItemType::Vors => "vors",
            SymbologyItemType::Ndbs => "ndbs",
            SymbologyItemType::Runways => "runways",
            SymbologyItemType::Datablock => "datablock",
            SymbologyItemType::Controller => "controller",
            SymbologyItemType::Metar => "metar",
            SymbologyItemType::Other => "other",
            SymbologyItemType::Transitions => "transitions",
            SymbologyItemType::Chat => "chat",
            SymbologyItemType::Sector => "sector",
            SymbologyItemType::GroundNetwork => "ground_network",
            SymbologyItemType::Region => "regions",
            SymbologyItemType::Label => "free_text",
        };
        String::from_str(key)
    }

    /// The kind that a name in lower case stands for in the files of a
    /// profile.
    pub open spec fn named(name: Seq<char>) -> Option<SymbologyItemType> {
        if name == "airports"@ {
            Some(SymbologyItemType::Airports)
        } else if name == "low airways"@ {
            Some(SymbologyItemType::LowAirways)
        } else if name == "high airways"@ {
            Some(SymbologyItemType::HighAirways)
        } else if name == "fixes"@ {
            Some(SymbologyItemType::Fixes)
        } else if name == "sids"@ {
            Some(SymbologyItemType::Sids)
        } else if name == "stars"@ {
            Some(SymbologyItemType::Stars)
        } else if name == "artcc high boundary"@ {
            Some(SymbologyItemType::ArtccHighBoundary)
        } else if name == "artcc low boundary"@ {
            Some(SymbologyItemType::ArtccLowBoundary)
        } else if name == "artcc boundary"@ {
            Some(SymbologyItemType::ArtccBoundary)
        } else if name == "geo"@ {
            Some(SymbologyItemType::Geo)
        } else if name == "vors"@ {
            Some(SymbologyItemType::Vors)
        } else if name == "ndbs"@ {
            Some(SymbologyItemType::Ndbs)
        } else if name == "runways"@ {
            Some(SymbologyItemType::Runways)
        } else if name == "datablock"@ {
            Some(SymbologyItemType::Datablock)
        } else if name == "controller"@ {
            Some(SymbologyItemType::Controller)
        } else if name == "metar"@ {
            Some(SymbologyItemType::Metar)
        } else if name == "transitions"@ {
            Some(SymbologyItemType::Transitions)
        } else if name == "chat"@ {
            Some(SymbologyItemType::Chat)
        } else if name == "ground network"@ {
            Some(SymbologyItemType::GroundNetwork)
        } else if name == "sector"@ {
            Some(SymbologyItemType::Sector)
        } else if name == "other"@ {
            Some(SymbologyItemType::Other)
        } else if name == "regions"@ {
            Some(SymbologyItemType::Region)
        } else if name == "free text"@ {
            Some(SymbologyItemType::Label)
        } else {
            None
        }
    }

    /// Reads the kind from its name in lower case.
    pub fn from_lower(name: &str) -> (r: Option<SymbologyItemType>)
        ensures
            r == Self::named(name@),
    {
        let n = chars(name);
        let n = n.as_slice();
        if is_literal(n, "airports") {
            Some(SymbologyItemType::Airports)
        } else if is_literal(n, "low airways") {
            Some(SymbologyItemType::LowAirways)
        } else if is_literal(n, "high airways") {
            Some(SymbologyItemType::HighAirways)
        } else if is_literal(n, "fixes") {
            Some(SymbologyItemType::Fixes)
        } else if is_literal(n, "sids") {
            Some(SymbologyItemType::Sids)
        } else if is_literal(n, "stars") {
            Some(SymbologyItemType::Stars)
        } else if is_literal(n, "artcc high boundary") {
            Some(SymbologyItemType::ArtccHighBoundary)
        } else if is_literal(n, "artcc low boundary") {
            Some(SymbologyItemType::ArtccLowBoundary)
        } else if is_literal(n, "artcc boundary") {
            Some(SymbologyItemType::ArtccBoundary)
        } else if is_literal(n, "geo") {
            Some(SymbologyItemType::Geo)
        } else if is_literal(n, "vors") {
            Some(SymbologyItemType::Vors)
        } else if is_literal(n, "ndbs") {
            Some(SymbologyItemType::Ndbs)
        } else if is_literal(n, "runways") {
            Some(SymbologyItemType::Runways)
        } else if is_literal(n, "datablock") {
            Some(SymbologyItemType::Datablock)
        } else if is_literal(n, "controller") {
            Some(SymbologyItemType::Controller)
        } else if is_literal(n, "metar") {
            Some(SymbologyItemType::Metar)
        } else if is_literal(n, "transitions") {
            Some(SymbologyItemType::Transitions)
        } else if is_literal(n, "chat") {
            Some(SymbologyItemType::Chat)
        } else if is_literal(n, "ground network") {
            Some(SymbologyItemType::GroundNetwork)
        } else if is_literal(n, "sector") {
            Some(SymbologyItemType::Sector)
        } else if is_literal(n, "other") {
            Some(SymbologyItemType::Other)
        } else if is_literal(n, "regions") {
            Some(SymbologyItemType::Region)
        } else if is_literal(n, "free text") {
            Some(SymbologyItemType::Label)
        } else {
            None
        }
    }

    /// Reads the kind from its name, in whatever case it is written.
    pub fn try_from(value: &str) -> (r: Result<SymbologyItemType, ()>)
        ensures
            match Self::named(lowercase(value@)) {
                Some(kind) => r == Ok::<SymbologyItemType, ()>(kind),
                None => r is Err,
            },
    {
        let lower = to_lowercase(value);
        match Self::from_lower(lower.as_str()) {
            Some(kind) => Ok(kind),
            None => Err(()),
        }
    }

    /// Whether things of this kind are drawn as a symbol with a name beside
    /// it.
    pub open spec fn is_symbol_kind(self) -> bool {
        self == SymbologyItemType::Airports || self == SymbologyItemType::Fixes || self
            == SymbologyItemType::Vors || self == SymbologyItemType::Ndbs
    }

    pub fn is_symbol(&self) -> (r: bool)
        ensures
            r == self.is_symbol_kind(),
    {
        match self {
            SymbologyItemType::Airports
            | SymbologyItemType::Fixes
            | SymbologyItemType::Vors
            | SymbologyItemType::Ndbs => true,
            _ => false,
        }
    }

    /// Whether things of this kind are drawn as a map.
    pub open spec fn is_map_kind(self) -> bool {
        self == SymbologyItemType::ArtccBoundary || self == SymbologyItemType::ArtccHighBoundary
            || self == SymbologyItemType::ArtccLowBoundary || self == SymbologyItemType::Geo
            || self == SymbologyItemType::LowAirways || self == SymbologyItemType::HighAirways
            || self == SymbologyItemType::Region || self == SymbologyItemType::Sids || self
            == SymbologyItemType::Stars
    }

    pub fn is_map(&self) -> (r: bool)
        ensures
            r == self.is_map_kind(),
    {
        match self {
            SymbologyItemType::ArtccBoundary
            | SymbologyItemType::ArtccHighBoundary
            | SymbologyItemType::ArtccLowBoundary
            | SymbologyItemType::Geo
            | SymbologyItemType::LowAirways
            | SymbologyItemType::HighAirways
            | SymbologyItemType::Region
            | SymbologyItemType::Sids
            | SymbologyItemType::Stars => true,
            _ => false,
        }
    }
}

/// How one aspect of a kind of thing is drawn. The size is held in
/// billionths.
#[derive(Debug)]
pub struct SymbologyAttribute {
    pub attribute: String,
    pub color: Colour,
    pub size: i64,
    pub line_weight: u8,
    pub line_style: u8,
    pub text_align: u8,
}

pub struct SymbologyAttributeModel {
    pub attribute: Seq<char>,
    pub color: Colour,
    pub size: i64,
    pub line_weight: u8,
    pub line_style: u8,
    pub text_align: u8,
}

impl DeepView for SymbologyAttribute {
    type V = SymbologyAttributeModel;

    open spec fn deep_view(&self) -> SymbologyAttributeModel {
        SymbologyAttributeModel {
            attribute: self.attribute@,
            color: self.color,
            size: self.size,
            line_weight: self.line_weight,
            line_style: self.line_style,
            text_align: self.text_align,
        }
    }
}

/// How the aspects of one kind of thing are drawn. `name` is the kind as the
/// file writes it.
#[derive(Debug)]
pub struct SymbologyItem {
    pub name: String,
    pub item_type: SymbologyItemType,
    pub defs: Vec<SymbologyAttribute>,
}

pub struct SymbologyItemModel {
    pub name: Seq<char>,
    pub item_type: SymbologyItemType,
    pub defs: Seq<SymbologyAttributeModel>,
}

impl DeepView for SymbologyItem {
    type V = SymbologyItemModel;

    open spec fn deep_view(&self) -> SymbologyItemModel {
        SymbologyItemModel {
            name: self.name@,
            item_type: self.item_type,
            defs: self.defs.deep_view(),
        }
    }
}

impl Named for SymbologyItem {
    open spec fn name_view(&self) -> Seq<char> {
        self.name@
    }

    fn name(&self) -> (r: &String) {
        &self.name
    }
}

/// The names of items, in order.
pub open spec fn item_names(s: Seq<SymbologyItemModel>) -> Seq<Seq<char>> {
    Seq::new(s.len(), |i: int| s[i].name)
}

/// What a symbology file says.
#[derive(Debug)]
pub struct SymbologyInfo {
    pub file_name: String,
    pub symbols: Vec<SymbologyItem>,
    /// The drawings of symbols, each by its number and its drawing
    /// commands. The lines of a symbology file that this library reads fill
    /// none in.
    pub symbol_icons: Vec<(u8, Vec<String>)>,
    pub clipping_area: u8,
}

pub struct SymbologyInfoModel {
    pub file_name: Seq<char>,
    pub symbols: Seq<SymbologyItemModel>,
    pub symbol_icons: Seq<(u8, Seq<Seq<char>>)>,
    pub clipping_area: u8,
}

impl DeepView for SymbologyInfo {
    type V = SymbologyInfoModel;

    open spec fn deep_view(&self) -> SymbologyInfoModel {
        SymbologyInfoModel {
            file_name: self.file_name@,
            symbols: self.symbols.deep_view(),
            symbol_icons: self.symbol_icons.deep_view(),
            clipping_area: self.clipping_area,
        }
    }
}

/// The clipping area of a file that sets none.
pub const DEFAULT_CLIPPING_AREA: u8 = 5;

/// The number of 8 bits that the field at index `i` writes.
pub open spec fn byte_field(f: Seq<Seq<char>>, i: int) -> Result<u8, ValueError> {
    if i >= f.len() {
        Err(ValueError::MissingValue)
    } else {
        match unsigned(f[i], u8::MAX as nat) {
            Some(v) => Ok(v as u8),
            None => Err(ValueError::InvalidNumber),
        }
    }
}

/// The setting that the fields of a line write after the name of its kind:
/// the aspect, the colour as a packed number, the size, the weight and the
/// style of lines, and how text is aligned.
pub open spec fn attribute_written(f: Seq<Seq<char>>) -> Result<
    SymbologyAttributeModel,
    ValueError,
> {
    if f.len() < 3 {
        Err(ValueError::MissingValue)
    } else if unsigned(f[2], u32::MAX as nat) is None {
        Err(ValueError::InvalidNumber)
    } else if f.len() < 4 {
        Err(ValueError::MissingValue)
    } else if decimal(f[3]) is None {
        Err(ValueError::InvalidNumber)
    } else {
        match (byte_field(f, 4), byte_field(f, 5), byte_field(f, 6)) {
            (Err(e), _, _) => Err(e),
            (Ok(_), Err(e), _) => Err(e),
            (Ok(_), Ok(_), Err(e)) => Err(e),
            (Ok(line_weight), Ok(line_style), Ok(text_align)) => Ok(
                SymbologyAttributeModel {
                    attribute: f[1],
                    color: Colour::unpacked(unsigned(f[2], u32::MAX as nat)->0 as u32),
                    size: decimal(f[3])->0 as i64,
                    line_weight,
                    line_style,
                    text_align,
                },
            ),
        }
    }
}

/// The items with one more setting for the first item that goes by `name`;
/// the item is made, at the end, where there is none.
pub open spec fn with_attribute(
    items: Seq<SymbologyItemModel>,
    name: Seq<char>,
    item_type: SymbologyItemType,
    attribute: SymbologyAttributeModel,
) -> Seq<SymbologyItemModel> {
    match index_of(item_names(items), name) {
        Some(i) => items.update(
            i,
            SymbologyItemModel { defs: items[i].defs.push(attribute), ..items[i] },
        ),
        None => items.push(SymbologyItemModel { name, item_type, defs: seq![attribute] }),
    }
}

fn read_byte(f: &Vec<&[char]>, i: usize) -> (r: Result<u8, ValueError>)
    ensures
        r == byte_field(views(f@), i as int),
{
    if i >= f.len() {
        return Err(ValueError::MissingValue);
    }
    match parse_u8(f[i]) {
        Some(v) => Ok(v),
        None => Err(ValueError::InvalidNumber),
    }
}

fn read_attribute(f: &Vec<&[char]>) -> (r: Result<SymbologyAttribute, ValueError>)
    ensures
        match attribute_written(views(f@)) {
            Ok(a) => r is Ok && r->Ok_0.deep_view() == a,
            Err(e) => r is Err && r->Err_0 == e,
        },
{
    if f.len() < 3 {
        return Err(ValueError::MissingValue);
    }
    let color = match parse_u32(f[2]) {
        Some(v) => Colour::from_u32(v),
        None => {
            return Err(ValueError::InvalidNumber);
        },
    };
    if f.len() < 4 {
        return Err(ValueError::MissingValue);
    }
    let size = match parse_decimal(f[3]) {
        Some(v) => v,
        None => {
            return Err(ValueError::InvalidNumber);
        },
    };
    let line_weight = match read_byte(f, 4) {
        Ok(v) => v,
        Err(e) => {
            return Err(e);
        },
    };
    let line_style = match read_byte(f, 5) {
        Ok(v) => v,
        Err(e) => {
            return Err(e);
        },
    };
    let text_align = match read_byte(f, 6) {
        Ok(v) => v,
        Err(e) => {
            return Err(e);
        },
    };
    Ok(
        SymbologyAttribute {
            attribute: string(f[1]),
            color,
            size,
            line_weight,
            line_style,
            text_align,
        },
    )
}

impl SymbologyInfo {
    /// A file that has said nothing yet.
    pub open spec fn empty(file_name: Seq<char>) -> SymbologyInfoModel {
        SymbologyInfoModel {
            file_name,
            symbols: Seq::empty(),
            symbol_icons: Seq::empty(),
            clipping_area: DEFAULT_CLIPPING_AREA,
        }
    }

    pub fn new(file_name: String) -> (r: SymbologyInfo)
        ensures
            r.deep_view() == Self::empty(file_name@),
    {
        let r = SymbologyInfo {
            file_name,
            symbols: Vec::new(),
            symbol_icons: Vec::new(),
            clipping_area: DEFAULT_CLIPPING_AREA,
        };
        assert(r.deep_view().symbols =~= Seq::empty());
        assert(r.deep_view().symbol_icons =~= Seq::empty());
        r
    }

    /// What the file says after one more line whose fields are `f` and whose
    /// first field is, in lower case, `key`. The key `m_cliparea` sets the
    /// clipping area. A key that names a kind of thing adds a setting for
    /// that kind; settings are gathered by the first field as it is written.
    /// Any other line says nothing.
    pub open spec fn fields_taken(
        m: SymbologyInfoModel,
        key: Seq<char>,
        f: Seq<Seq<char>>,
    ) -> Result<SymbologyInfoModel, ValueError> {
        if key == "m_cliparea"@ {
            match byte_field(f, 1) {
                Ok(v) => Ok(SymbologyInfoModel { clipping_area: v, ..m }),
                Err(e) => Err(e),
            }
        } else {
            match SymbologyItemType::named(key) {
                None => Ok(m),
                Some(item_type) => match attribute_written(f) {
                    Ok(a) => Ok(
                        SymbologyInfoModel {
                            symbols: with_attribute(m.symbols, f[0], item_type, a),
                            ..m
                        },
                    ),
                    Err(e) => Err(e),
                },
            }
        }
    }

    /// What the file says after one more line. The fields of a line stand
    /// between colons, and the first is read in whatever case it is written:
    /// see [`SymbologyInfo::fields_taken`].
    pub open spec fn line_taken(m: SymbologyInfoModel, line: Seq<char>) -> Result<
        SymbologyInfoModel,
        ValueError,
    > {
        let f = fields(line, ':');
        Self::fields_taken(m, lowercase(f[0]), f)
    }

    /// Takes one line of the file, whose first field is `key` in lower
    /// case. A line that is refused changes nothing.
    pub fn parse_keyed_line(&mut self, key: &str, line: &str) -> (r: Result<(), ValueError>)
        ensures
            match Self::fields_taken(old(self).deep_view(), key@, fields(line@, ':')) {
                Ok(m) => r is Ok && final(self).deep_view() == m,
                Err(e) => r == Err::<(), ValueError>(e) && final(self).deep_view() == old(
                    self,
                ).deep_view(),
            },
    {
        let all = chars(line);
        let f = split(all.as_slice(), ':');
        if same_text(key, "m_cliparea") {
            return match read_byte(&f, 1) {
                Ok(v) => {
                    self.clipping_area = v;
                    Ok(())
                },
                Err(e) => Err(e),
            };
        }
        let item_type = match SymbologyItemType::from_lower(key) {
            Some(t) => t,
            None => {
                return Ok(());
            },
        };
        let attribute = match read_attribute(&f) {
            Ok(a) => a,
            Err(e) => {
                return Err(e);
            },
        };
        let first = string(f[0]);
        let ghost before = self.symbols.deep_view();
        proof {
            assert(names_of(self.symbols@) =~= item_names(before));
        }
        match find(&self.symbols, &first) {
            Some(i) => {
                self.symbols[i].defs.push(attribute);
                proof {
                    assert(self.symbols@[i as int].defs.deep_view() =~= before[i as int].defs.push(
                        attribute.deep_view(),
                    ));
                    assert(self.symbols.deep_view() =~= with_attribute(
                        before,
                        first@,
                        item_type,
                        attribute.deep_view(),
                    ));
                }
            },
            None => {
                let mut defs: Vec<SymbologyAttribute> = Vec::new();
                defs.push(attribute);
                assert(defs.deep_view() =~= seq![attribute.deep_view()]);
                self.symbols.push(SymbologyItem { name: first, item_type, defs });
                assert(self.symbols.deep_view() =~= with_attribute(
                    before,
                    first@,
                    item_type,
                    attribute.deep_view(),
                ));
            },
        }
        Ok(())
    }

    /// Takes one line of the file. A line that is refused changes nothing.
    pub fn parse_line(&mut self, line: &str) -> (r: Result<(), ValueError>)
        ensures
            match Self::line_taken(old(self).deep_view(), line@) {
                Ok(m) => r is Ok && final(self).deep_view() == m,
                Err(e) => r == Err::<(), ValueError>(e) && final(self).deep_view() == old(
                    self,
                ).deep_view(),
            },
    {
        let all = chars(line);
        let first = before(all.as_slice(), ':');
        proof {
            lemma_first_field(all@, ':');
        }
        let key = to_lowercase(string(first).as_str());
        self.parse_keyed_line(key.as_str(), line)
    }

    /// What a file says after all of `lines`, or what is wrong with the
    /// first line that is refused.
    pub open spec fn read(file_name: Seq<char>, lines: Seq<Seq<char>>) -> Result<
        SymbologyInfoModel,
        ValueError,
    >
        decreases lines.len(),
    {
        if lines.len() == 0 {
            Ok(Self::empty(file_name))
        } else {
            match Self::read(file_name, lines.drop_last()) {
                Ok(m) => Self::line_taken(m, lines.last()),
                Err(e) => Err(e),
            }
        }
    }

    /// Reads a symbology file from its lines. The first line that is refused
    /// ends the reading.
    pub fn try_from_lines(file_name: String, lines: &Vec<String>) -> (r: Result<
        SymbologyInfo,
        ValueError,
    >)
        ensures
            match Self::read(file_name@, lines.deep_view()) {
                Ok(m) => r is Ok && r->Ok_0.deep_view() == m,
                Err(e) => r is Err && r->Err_0 == e,
            },
    {
        let mut info = Self::new(file_name);
        let ghost all = lines.deep_view();
        let mut i: usize = 0;
        while i < lines.len()
            invariant
                i <= lines.len(),
                all == lines.deep_view(),
                Self::read(file_name@, all.take(i as int)) == Ok::<
                    SymbologyInfoModel,
                    ValueError,
                >(info.deep_view()),
            decreases lines.len() - i,
        {
            proof {
                let head = all.take(i + 1);
                assert(head.drop_last() =~= all.take(i as int));
            }
            if let Err(e) = info.parse_line(lines[i].as_str()) {
                proof {
                    lemma_read_stays_refused(file_name@, all, i + 1);
                }
                return Err(e);
            }
            i += 1;
        }
        assert(all.take(lines.len() as int) =~= all);
        Ok(info)
    }
}

/// Once a line has been refused, no later line makes the file good again.
pub proof fn lemma_read_stays_refused(file_name: Seq<char>, lines: Seq<Seq<char>>, n: int)
    requires
        0 <= n <= lines.len(),
        SymbologyInfo::read(file_name, lines.take(n)) is Err,
    ensures
        SymbologyInfo::read(file_name, lines) == SymbologyInfo::read(file_name, lines.take(n)),
    decreases lines.len(),
{
    if n < lines.len() {
        assert(lines.drop_last().take(n) =~= lines.take(n));
        lemma_read_stays_refused(file_name, lines.drop_last(), n);
    } else {
        assert(lines.take(n) =~= lines);
    }
}

} // verus!
