//! The settings of one display, as a file of a profile gives them.
use super::error::ValueError;
use super::position::Position;
use super::symbology::SymbologyItemType;
use crate::number::{decimal, parse_decimal, parse_i32, parse_u32, parse_u8, signed, unsigned};
use crate::text::{
    before, chars, fields, is_literal, lemma_first_field, lowercase, split, string, to_lowercase,
    views,
};
use vstd::prelude::*;

verus! {

/// Something that a display shows: its kind, its name and the aspect of it
/// that is shown.
#[derive(Debug)]
pub struct DisplayItem {
    pub item_type: SymbologyItemType,
    pub name: String,
    pub attribute: String,
}

pub struct DisplayItemModel {
    pub item_type: SymbologyItemType,
    pub name: Seq<char>,
    pub attribute: Seq<char>,
}

impl DeepView for DisplayItem {
    type V = DisplayItemModel;

    open spec fn deep_view(&self) -> DisplayItemModel {
        DisplayItemModel { item_type: self.item_type, name: self.name@, attribute: self.attribute@ }
    }
}

/// The settings of one display. The rotation is held in billionths of a
/// degree, and the two corners of the window as positions.
#[derive(Debug)]
pub struct EsAsr {
    pub name: String,
    pub display_type_name: String,
    pub display_type_need_radar_content: bool,
    pub display_type_geo_reference: bool,
    pub sector_file_id: Option<String>,
    pub sector_title: String,
    pub display_items: Vec<DisplayItem>,
    pub show_c: bool,
    pub shows_b: bool,
    pub below: i32,
    pub above: i32,
    pub leader: i32,
    pub show_leader: bool,
    pub turn_leader: bool,
    pub history_dots: u32,
    pub simulation_mode: u32,
    pub disable_panning: bool,
    pub disable_zooming: bool,
    pub display_rotation: i64,
    pub window_area: (Position, Position),
}

pub struct EsAsrModel {
    pub name: Seq<char>,
    pub display_type_name: Seq<char>,
    pub display_type_need_radar_content: bool,
    pub display_type_geo_reference: bool,
    pub sector_file_id: Option<Seq<char>>,
    pub sector_title: Seq<char>,
    pub display_items: Seq<DisplayItemModel>,
    pub show_c: bool,
    pub shows_b: bool,
    pub below: i32,
    pub above: i32,
    pub leader: i32,
    pub show_leader: bool,
    pub turn_leader: bool,
    pub history_dots: u32,
    pub simulation_mode: u32,
    pub disable_panning: bool,
    pub disable_zooming: bool,
    pub display_rotation: i64,
    pub window_area: (Position, Position),
}

impl DeepView for EsAsr {
    type V = EsAsrModel;

    open spec fn deep_view(&self) -> EsAsrModel {
        EsAsrModel {
            name: self.name@,
            display_type_name: self.display_type_name@,
            display_type_need_radar_content: self.display_type_need_radar_content,
            display_type_geo_reference: self.display_type_geo_reference,
            sector_file_id: match self.sector_file_id {
                Some(s) => Some(s@),
                None => None,
            },
            sector_title: self.sector_title@,
            display_items: self.display_items.deep_view(),
            show_c: self.show_c,
            shows_b: self.shows_b,
            below: self.below,
            above: self.above,
            leader: self.leader,
            show_leader: self.show_leader,
            turn_leader: self.turn_leader,
            history_dots: self.history_dots,
            simulation_mode: self.simulation_mode,
            disable_panning: self.disable_panning,
            disable_zooming: self.disable_zooming,
            display_rotation: self.display_rotation,
            window_area: self.window_area,
        }
    }
}

impl EsAsr {
    fn apply_flag(&mut self, key: AsrKey, v: bool)
        ensures
            final(self).deep_view() == AsrFile::flag_applied(old(self).deep_view(), key, v),
    {
        match key {
            AsrKey::DisplayTypeNeedRadarContent => {
                self.display_type_need_radar_content = v;
            },
            AsrKey::DisplayTypeGeoReferenced => {
                self.display_type_geo_reference = v;
            },
            AsrKey::ShowC => {
                self.show_c = v;
            },
            AsrKey::ShowSb => {
                self.shows_b = v;
            },
            AsrKey::ShowLeader => {
                self.show_leader = v;
            },
            AsrKey::TurnLeader => {
                self.turn_leader = v;
            },
            AsrKey::DisablePanning => {
                self.disable_panning = v;
            },
            AsrKey::DisableZooming => {
                self.disable_zooming = v;
            },
            _ => {},
        }
    }

    fn apply_signed(&mut self, key: AsrKey, v: i32)
        ensures
            final(self).deep_view() == AsrFile::signed_applied(old(self).deep_view(), key, v),
    {
        match key {
            AsrKey::Below => {
                self.below = v;
            },
            AsrKey::Above => {
                self.above = v;
            },
            AsrKey::Leader => {
                self.leader = v;
            },
            _ => {},
        }
    }

    fn apply_unsigned(&mut self, key: AsrKey, v: u32)
        ensures
            final(self).deep_view() == AsrFile::unsigned_applied(old(self).deep_view(), key, v),
    {
        match key {
            AsrKey::HistoryDots => {
                self.history_dots = v;
            },
            AsrKey::SimulationMode => {
                self.simulation_mode = v;
            },
            _ => {},
        }
    }
}

/// The settings of a display together with the sector file that they name.
#[derive(Debug)]
pub struct AsrFile {
    pub asr: EsAsr,
    pub sector_file: String,
}

pub struct AsrFileModel {
    pub asr: EsAsrModel,
    pub sector_file: Seq<char>,
}

impl DeepView for AsrFile {
    type V = AsrFileModel;

    open spec fn deep_view(&self) -> AsrFileModel {
        AsrFileModel { asr: self.asr.deep_view(), sector_file: self.sector_file@ }
    }
}

/// The text of the field at index `i`.
pub open spec fn text_field(f: Seq<Seq<char>>, i: int) -> Result<Seq<char>, ValueError> {
    if i >= f.len() {
        Err(ValueError::MissingValue)
    } else {
        Ok(f[i])
    }
}

/// The switch that the second field sets: a number of 8 bits, on unless it
/// is 0.
pub open spec fn flag_field(f: Seq<Seq<char>>) -> Result<bool, ValueError> {
    if f.len() < 2 {
        Err(ValueError::MissingValue)
    } else {
        match unsigned(f[1], u8::MAX as nat) {
            Some(v) => Ok(v != 0),
            None => Err(ValueError::InvalidNumber),
        }
    }
}

/// The signed number of 32 bits that the second field writes.
pub open spec fn signed_field(f: Seq<Seq<char>>) -> Result<i32, ValueError> {
    if f.len() < 2 {
        Err(ValueError::MissingValue)
    } else {
        match signed(f[1], i32::MIN as int, i32::MAX as int) {
            Some(v) => Ok(v as i32),
            None => Err(ValueError::InvalidNumber),
        }
    }
}

/// The unsigned number of 32 bits that the second field writes.
pub open spec fn unsigned_field(f: Seq<Seq<char>>) -> Result<u32, ValueError> {
    if f.len() < 2 {
        Err(ValueError::MissingValue)
    } else {
        match unsigned(f[1], u32::MAX as nat) {
            Some(v) => Ok(v as u32),
            None => Err(ValueError::InvalidNumber),
        }
    }
}

/// The decimal number that the field at index `i` writes, in billionths.
pub open spec fn decimal_field(f: Seq<Seq<char>>, i: int) -> Result<i64, ValueError> {
    if i >= f.len() {
        Err(ValueError::MissingValue)
    } else {
        match decimal(f[i]) {
            Some(v) => Ok(v as i64),
            None => Err(ValueError::InvalidNumber),
        }
    }
}

/// The window that the fields write: the latitude and longitude of one
/// corner, then those of the other.
pub open spec fn window_field(f: Seq<Seq<char>>) -> Result<(Position, Position), ValueError> {
    match (decimal_field(f, 1), decimal_field(f, 2), decimal_field(f, 3), decimal_field(f, 4)) {
        (Err(e), _, _, _) => Err(e),
        (Ok(_), Err(e), _, _) => Err(e),
        (Ok(_), Ok(_), Err(e), _) => Err(e),
        (Ok(_), Ok(_), Ok(_), Err(e)) => Err(e),
        (Ok(a), Ok(b), Ok(c), Ok(d)) => Ok(
            (Position { lat: a, lon: b }, Position { lat: c, lon: d }),
        ),
    }
}

/// The thing to show that a line writes whose first field names the kind
/// `item_type`: its name and the aspect of it.
pub open spec fn item_written(item_type: SymbologyItemType, f: Seq<Seq<char>>) -> Result<
    DisplayItemModel,
    ValueError,
> {
    if f.len() < 3 {
        Err(ValueError::MissingValue)
    } else {
        Ok(DisplayItemModel { item_type, name: f[1], attribute: f[2] })
    }
}

fn read_text(f: &Vec<&[char]>, i: usize) -> (r: Result<String, ValueError>)
    ensures
        match text_field(views(f@), i as int) {
            Ok(t) => r is Ok && r->Ok_0@ == t,
            Err(e) => r is Err && r->Err_0 == e,
        },
{
    if i >= f.len() {
        return Err(ValueError::MissingValue);
    }
    Ok(string(f[i]))
}

fn read_flag(f: &Vec<&[char]>) -> (r: Result<bool, ValueError>)
    ensures
        r == flag_field(views(f@)),
{
    if f.len() < 2 {
        return Err(ValueError::MissingValue);
    }
    match parse_u8(f[1]) {
        Some(v) => Ok(v != 0),
        None => Err(ValueError::InvalidNumber),
    }
}

fn read_signed(f: &Vec<&[char]>) -> (r: Result<i32, ValueError>)
    ensures
        r == signed_field(views(f@)),
{
    if f.len() < 2 {
        return Err(ValueError::MissingValue);
    }
    assert(views(f@)[1] == f@[1]@);
    match parse_i32(f[1]) {
        Some(v) => Ok(v),
        None => Err(ValueError::InvalidNumber),
    }
}

fn read_unsigned(f: &Vec<&[char]>) -> (r: Result<u32, ValueError>)
    ensures
        r == unsigned_field(views(f@)),
{
    if f.len() < 2 {
        return Err(ValueError::MissingValue);
    }
    assert(views(f@)[1] == f@[1]@);
    match parse_u32(f[1]) {
        Some(v) => Ok(v),
        None => Err(ValueError::InvalidNumber),
    }
}

fn read_decimal(f: &Vec<&[char]>, i: usize) -> (r: Result<i64, ValueError>)
    ensures
        r == decimal_field(views(f@), i as int),
{
    if i >= f.len() {
        return Err(ValueError::MissingValue);
    }
    match parse_decimal(f[i]) {
        Some(v) => Ok(v),
        None => Err(ValueError::InvalidNumber),
    }
}

fn read_window(f: &Vec<&[char]>) -> (r: Result<(Position, Position), ValueError>)
    ensures
        r == window_field(views(f@)),
{
    let a = match read_decimal(f, 1) {
        Ok(v) => v,
        Err(e) => {
            return Err(e);
        },
    };
    let b = match read_decimal(f, 2) {
        Ok(v) => v,
        Err(e) => {
            return Err(e);
        },
    };
    let c = match read_decimal(f, 3) {
        Ok(v) => v,
        Err(e) => {
            return Err(e);
        },
    };
    let d = match read_decimal(f, 4) {
        Ok(v) => v,
        Err(e) => {
            return Err(e);
        },
    };
    Ok((Position { lat: a, lon: b }, Position { lat: c, lon: d }))
}

/// What a line of the file sets, by its first field in lower case.
#[derive(Debug, Clone, Copy, PartialEq, Eq, Structural)]
pub enum AsrKey {
    DisplayTypeName,
    DisplayTypeNeedRadarContent,
    DisplayTypeGeoReferenced,
    SectorFile,
    SectorTitle,
    ShowC,
    ShowSb,
    Below,
    Above,
    Leader,
    ShowLeader,
    TurnLeader,
    HistoryDots,
    SimulationMode,
    DisablePanning,
    DisableZooming,
    DisplayRotation,
    WindowArea,
    /// The line names a kind of thing to show.
    Item(SymbologyItemType),
    /// The line sets nothing.
    Nothing,
}

impl AsrKey {
    /// What a line sets whose first field, in lower case, is `key`.
    pub open spec fn named(key: Seq<char>) -> AsrKey {
        if key == "displaytypename"@ {
            AsrKey::DisplayTypeName
        } else if key == "displaytypeneedradarcontent"@ {
            AsrKey::DisplayTypeNeedRadarContent
        } else if key == "displaytypegeoreferenced"@ {
            AsrKey::DisplayTypeGeoReferenced
        } else if key == "sectorfile"@ {
            AsrKey::SectorFile
        } else if key == "sectortitle"@ {
            AsrKey::SectorTitle
        } else if key == "showc"@ {
            AsrKey::ShowC
        } else if key == "showsb"@ {
            AsrKey::ShowSb
        } else if key == "below"@ {
            AsrKey::Below
        } else if key == "above"@ {
            AsrKey::Above
        } else if key == "leader"@ {
            AsrKey::Leader
        } else if key == "showleader"@ {
            AsrKey::ShowLeader
        } else if key == "turnleader"@ {
            AsrKey::TurnLeader
        } else if key == "history_dots"@ {
            AsrKey::HistoryDots
        } else if key == "simulation_mode"@ {
            AsrKey::SimulationMode
        } else if key == "disablepanning"@ {
            AsrKey::DisablePanning
        } else if key == "disablezooming"@ {
            AsrKey::DisableZooming
        } else if key == "displayrotation"@ {
            AsrKey::DisplayRotation
        } else if key == "windowarea"@ {
            AsrKey::WindowArea
        } else {
            match SymbologyItemType::named(key) {
                Some(kind) => AsrKey::Item(kind),
                None => AsrKey::Nothing,
            }
        }
    }

    /// Tells the lines apart by their first field in lower case.
    pub fn from_lower(key: &str) -> (r: AsrKey)
        ensures
            r == Self::named(key@),
    {
        let k = chars(key);
        let k = k.as_slice();
        if is_literal(k, "displaytypename") {
            AsrKey::DisplayTypeName
        } else if is_literal(k, "displaytypeneedradarcontent") {
            AsrKey::DisplayTypeNeedRadarContent
        } else if is_literal(k, "displaytypegeoreferenced") {
            AsrKey::DisplayTypeGeoReferenced
        } else if is_literal(k, "sectorfile") {
            AsrKey::SectorFile
        } else if is_literal(k, "sectortitle") {
            AsrKey::SectorTitle
        } else if is_literal(k, "showc") {
            AsrKey::ShowC
        } else if is_literal(k, "showsb") {
            AsrKey::ShowSb
        } else if is_literal(k, "below") {
            AsrKey::Below
        } else if is_literal(k, "above") {
            AsrKey::Above
        } else if is_literal(k, "leader") {
            AsrKey::Leader
        } else if is_literal(k, "showleader") {
            AsrKey::ShowLeader
        } else if is_literal(k, "turnleader") {
            AsrKey::TurnLeader
        } else if is_literal(k, "history_dots") {
            AsrKey::HistoryDots
        } else if is_literal(k, "simulation_mode") {
            AsrKey::SimulationMode
        } else if is_literal(k, "disablepanning") {
            AsrKey::DisablePanning
        } else if is_literal(k, "disablezooming") {
            AsrKey::DisableZooming
        } else if is_literal(k, "displayrotation") {
            AsrKey::DisplayRotation
        } else if is_literal(k, "windowarea") {
            AsrKey::WindowArea
        } else {
            match SymbologyItemType::from_lower(key) {
                Some(kind) => AsrKey::Item(kind),
                None => AsrKey::Nothing,
            }
        }
    }
}

/// One thing that a line sets.
#[derive(Debug)]
pub enum Setting {
    Text(AsrKey, String),
    Flag(AsrKey, bool),
    Signed(AsrKey, i32),
    Unsigned(AsrKey, u32),
    Rotation(i64),
    Window((Position, Position)),
    Item(DisplayItem),
    Nothing,
}

pub enum SettingModel {
    Text(AsrKey, Seq<char>),
    Flag(AsrKey, bool),
    Signed(AsrKey, i32),
    Unsigned(AsrKey, u32),
    Rotation(i64),
    Window((Position, Position)),
    Item(DisplayItemModel),
    Nothing,
}

impl DeepView for Setting {
    type V = SettingModel;

    open spec fn deep_view(&self) -> SettingModel {
        match self {
            Setting::Text(key, v) => SettingModel::Text(*key, v@),
            Setting::Flag(key, v) => SettingModel::Flag(*key, *v),
            Setting::Signed(key, v) => SettingModel::Signed(*key, *v),
            Setting::Unsigned(key, v) => SettingModel::Unsigned(*key, *v),
            Setting::Rotation(v) => SettingModel::Rotation(*v),
            Setting::Window(v) => SettingModel::Window(*v),
            Setting::Item(item) => SettingModel::Item(item.deep_view()),
            Setting::Nothing => SettingModel::Nothing,
        }
    }
}

/// What a line sets whose fields are `f` and whose first field says `key`.
/// The second field is the value. A switch is a number of 8 bits and is on
/// unless the number is 0. A window has four values, the latitude and
/// longitude of two corners. A line that names a kind of thing adds a thing
/// to show, by its name and the aspect of it.
pub open spec fn setting_for(key: AsrKey, f: Seq<Seq<char>>) -> Result<SettingModel, ValueError> {
    match key {
        AsrKey::DisplayTypeName | AsrKey::SectorFile | AsrKey::SectorTitle => match text_field(
            f,
            1,
        ) {
            Ok(v) => Ok(SettingModel::Text(key, v)),
            Err(e) => Err(e),
        },
        AsrKey::DisplayTypeNeedRadarContent
        | AsrKey::DisplayTypeGeoReferenced
        | AsrKey::ShowC
        | AsrKey::ShowSb
        | AsrKey::ShowLeader
        | AsrKey::TurnLeader
        | AsrKey::DisablePanning
        | AsrKey::DisableZooming => match flag_field(f) {
            Ok(v) => Ok(SettingModel::Flag(key, v)),
            Err(e) => Err(e),
        },
        AsrKey::Below | AsrKey::Above | AsrKey::Leader => match signed_field(f) {
            Ok(v) => Ok(SettingModel::Signed(key, v)),
            Err(e) => Err(e),
        },
        AsrKey::HistoryDots | AsrKey::SimulationMode => match unsigned_field(f) {
            Ok(v) => Ok(SettingModel::Unsigned(key, v)),
            Err(e) => Err(e),
        },
        AsrKey::DisplayRotation => match decimal_field(f, 1) {
            Ok(v) => Ok(SettingModel::Rotation(v)),
            Err(e) => Err(e),
        },
        AsrKey::WindowArea => match window_field(f) {
            Ok(v) => Ok(SettingModel::Window(v)),
            Err(e) => Err(e),
        },
        AsrKey::Item(kind) => match item_written(kind, f) {
            Ok(item) => Ok(SettingModel::Item(item)),
            Err(e) => Err(e),
        },
        AsrKey::Nothing => Ok(SettingModel::Nothing),
    }
}

/// What a line sets. The fields of a line stand between colons; the first,
/// in whatever case, says what the line sets: see [`AsrKey::named`] and
/// [`setting_for`].
pub open spec fn setting_written(line: Seq<char>) -> Result<SettingModel, ValueError> {
    let f = fields(line, ':');
    setting_for(AsrKey::named(lowercase(f[0])), f)
}

/// Reads what a line sets of which the first field is known to say `key`.
pub fn read_setting_for(key: AsrKey, line: &str) -> (r: Result<Setting, ValueError>)
    ensures
        match setting_for(key, fields(line@, ':')) {
            Ok(setting) => r is Ok && r->Ok_0.deep_view() == setting,
            Err(e) => r is Err && r->Err_0 == e,
        },
{
    let all = chars(line);
    let f = split(all.as_slice(), ':');
    match key {
        AsrKey::DisplayTypeName | AsrKey::SectorFile | AsrKey::SectorTitle => match read_text(
            &f,
            1,
        ) {
            Ok(v) => Ok(Setting::Text(key, v)),
            Err(e) => Err(e),
        },
        AsrKey::DisplayTypeNeedRadarContent
        | AsrKey::DisplayTypeGeoReferenced
        | AsrKey::ShowC
        | AsrKey::ShowSb
        | AsrKey::ShowLeader
        | AsrKey::TurnLeader
        | AsrKey::DisablePanning
        | AsrKey::DisableZooming => match read_flag(&f) {
            Ok(v) => Ok(Setting::Flag(key, v)),
            Err(e) => Err(e),
        },
        AsrKey::Below | AsrKey::Above | AsrKey::Leader => match read_signed(&f) {
            Ok(v) => Ok(Setting::Signed(key, v)),
            Err(e) => Err(e),
        },
        AsrKey::HistoryDots | AsrKey::SimulationMode => match read_unsigned(&f) {
            Ok(v) => Ok(Setting::Unsigned(key, v)),
            Err(e) => Err(e),
        },
        AsrKey::DisplayRotation => match read_decimal(&f, 1) {
            Ok(v) => Ok(Setting::Rotation(v)),
            Err(e) => Err(e),
        },
        AsrKey::WindowArea => match read_window(&f) {
            Ok(v) => Ok(Setting::Window(v)),
            Err(e) => Err(e),
        },
        AsrKey::Item(kind) => {
            if f.len() < 3 {
                return Err(ValueError::MissingValue);
            }
            Ok(
                Setting::Item(
                    DisplayItem { item_type: kind, name: string(f[1]), attribute: string(f[2]) },
                ),
            )
        },
        AsrKey::Nothing => Ok(Setting::Nothing),
    }
}

/// Reads what a line sets.
pub fn read_setting(line: &str) -> (r: Result<Setting, ValueError>)
    ensures
        match setting_written(line@) {
            Ok(setting) => r is Ok && r->Ok_0.deep_view() == setting,
            Err(e) => r is Err && r->Err_0 == e,
        },
{
    let all = chars(line);
    let first = before(all.as_slice(), ':');
    proof {
        lemma_first_field(all@, ':');
    }
    let lower = to_lowercase(string(first).as_str());
    read_setting_for(AsrKey::from_lower(lower.as_str()), line)
}

impl AsrFile {
    /// A file that has said nothing yet: every text empty, every switch off,
    /// every number 0.
    pub open spec fn empty() -> AsrFileModel {
        AsrFileModel {
            asr: EsAsrModel {
                name: Seq::empty(),
                display_type_name: Seq::empty(),
                display_type_need_radar_content: false,
                display_type_geo_reference: false,
                sector_file_id: None,
                sector_title: Seq::empty(),
                display_items: Seq::empty(),
                show_c: false,
                shows_b: false,
                below: 0,
                above: 0,
                leader: 0,
                show_leader: false,
                turn_leader: false,
                history_dots: 0,
                simulation_mode: 0,
                disable_panning: false,
                disable_zooming: false,
                display_rotation: 0,
                window_area: (Position { lat: 0, lon: 0 }, Position { lat: 0, lon: 0 }),
            },
            sector_file: Seq::empty(),
        }
    }

    pub fn new() -> (r: AsrFile)
        ensures
            r.deep_view() == Self::empty(),
    {
        let r = AsrFile {
            asr: EsAsr {
                name: String::new(),
                display_type_name: String::new(),
                display_type_need_radar_content: false,
                display_type_geo_reference: false,
                sector_file_id: None,
                sector_title: String::new(),
                display_items: Vec::new(),
                show_c: false,
                shows_b: false,
                below: 0,
                above: 0,
                leader: 0,
                show_leader: false,
                turn_leader: false,
                history_dots: 0,
                simulation_mode: 0,
                disable_panning: false,
                disable_zooming: false,
                display_rotation: 0,
                window_area: (Position { lat: 0, lon: 0 }, Position { lat: 0, lon: 0 }),
            },
            sector_file: String::new(),
        };
        assert(r.deep_view().asr.display_items =~= Seq::empty());
        r
    }

    /// What the file says once the text `v` is set for `key`.
    pub open spec fn text_applied(m: AsrFileModel, key: AsrKey, v: Seq<char>) -> AsrFileModel {
        match key {
            AsrKey::DisplayTypeName => AsrFileModel {
                asr: EsAsrModel { display_type_name: v, ..m.asr },
                ..m
            },
            AsrKey::SectorFile => AsrFileModel { sector_file: v, ..m },
            AsrKey::SectorTitle => AsrFileModel {
                asr: EsAsrModel { sector_title: v, ..m.asr },
                ..m
            },
            _ => m,
        }
    }

    /// What the settings are once the switch `key` is set to `v`.
    pub open spec fn flag_applied(a: EsAsrModel, key: AsrKey, v: bool) -> EsAsrModel {
        match key {
            AsrKey::DisplayTypeNeedRadarContent => EsAsrModel {
                display_type_need_radar_content: v,
                ..a
            },
            AsrKey::DisplayTypeGeoReferenced => EsAsrModel { display_type_geo_reference: v, ..a },
            AsrKey::ShowC => EsAsrModel { show_c: v, ..a },
            AsrKey::ShowSb => EsAsrModel { shows_b: v, ..a },
            AsrKey::ShowLeader => EsAsrModel { show_leader: v, ..a },
            AsrKey::TurnLeader => EsAsrModel { turn_leader: v, ..a },
            AsrKey::DisablePanning => EsAsrModel { disable_panning: v, ..a },
            AsrKey::DisableZooming => EsAsrModel { disable_zooming: v, ..a },
            _ => a,
        }
    }

    /// What the settings are once the number `key` is set to `v`.
    pub open spec fn signed_applied(a: EsAsrModel, key: AsrKey, v: i32) -> EsAsrModel {
        match key {
            AsrKey::Below => EsAsrModel { below: v, ..a },
            AsrKey::Above => EsAsrModel { above: v, ..a },
            AsrKey::Leader => EsAsrModel { leader: v, ..a },
            _ => a,
        }
    }

    /// What the settings are once the number `key` is set to `v`.
    pub open spec fn unsigned_applied(a: EsAsrModel, key: AsrKey, v: u32) -> EsAsrModel {
        match key {
            AsrKey::HistoryDots => EsAsrModel { history_dots: v, ..a },
            AsrKey::SimulationMode => EsAsrModel { simulation_mode: v, ..a },
            _ => a,
        }
    }

    /// What the file says once `setting` holds.
    pub open spec fn applied(m: AsrFileModel, setting: SettingModel) -> AsrFileModel {
        match setting {
            SettingModel::Text(key, v) => Self::text_applied(m, key, v),
            SettingModel::Flag(key, v) => AsrFileModel {
                asr: Self::flag_applied(m.asr, key, v),
                ..m
            },
            SettingModel::Signed(key, v) => AsrFileModel {
                asr: Self::signed_applied(m.asr, key, v),
                ..m
            },
            SettingModel::Unsigned(key, v) => AsrFileModel {
                asr: Self::unsigned_applied(m.asr, key, v),
                ..m
            },
            SettingModel::Rotation(v) => AsrFileModel {
                asr: EsAsrModel { display_rotation: v, ..m.asr },
                ..m
            },
            SettingModel::Window(v) => AsrFileModel {
                asr: EsAsrModel { window_area: v, ..m.asr },
                ..m
            },
            SettingModel::Item(item) => AsrFileModel {
                asr: EsAsrModel { display_items: m.asr.display_items.push(item), ..m.asr },
                ..m
            },
            SettingModel::Nothing => m,
        }
    }

    fn apply_text(&mut self, key: AsrKey, v: String)
        ensures
            final(self).deep_view() == Self::text_applied(old(self).deep_view(), key, v@),
    {
        match key {
            AsrKey::DisplayTypeName => {
                self.asr.display_type_name = v;
            },
            AsrKey::SectorFile => {
                self.sector_file = v;
            },
            AsrKey::SectorTitle => {
                self.asr.sector_title = v;
            },
            _ => {},
        }
    }

    /// Makes `setting` hold.
    pub fn apply(&mut self, setting: Setting)
        ensures
            final(self).deep_view() == Self::applied(old(self).deep_view(), setting.deep_view()),
    {
        match setting {
            Setting::Text(key, v) => {
                self.apply_text(key, v);
            },
            Setting::Flag(key, v) => {
                self.asr.apply_flag(key, v);
            },
            Setting::Signed(key, v) => {
                self.asr.apply_signed(key, v);
            },
            Setting::Unsigned(key, v) => {
                self.asr.apply_unsigned(key, v);
            },
            Setting::Rotation(v) => {
                self.asr.display_rotation = v;
            },
            Setting::Window(v) => {
                self.asr.window_area = v;
            },
            Setting::Item(item) => {
                self.asr.display_items.push(item);
                assert(self.asr.display_items.deep_view() =~= old(
                    self,
                ).asr.display_items.deep_view().push(item.deep_view()));
            },
            Setting::Nothing => {},
        }
    }

    /// What the file says after one more line: see [`setting_written`].
    pub open spec fn line_taken(m: AsrFileModel, line: Seq<char>) -> Result<
        AsrFileModel,
        ValueError,
    > {
        match setting_written(line) {
            Ok(setting) => Ok(Self::applied(m, setting)),
            Err(e) => Err(e),
        }
    }

    /// Takes one line of the file. A line that is refused changes nothing.
    pub fn parse_line(&mut self, line: &str) -> (r: Result<(), ValueError>)
        ensures
            match Self::line_taken(old(self).deep_view(), line@) {
                Ok(m) => r is Ok && final(self).deep_view() == m,
                Err(e) => r == Err::<(), ValueError>(e) && final(self).deep_view() == old(
                    self,
                ).deep_view(),
            },
    {
        match read_setting(line) {
            Ok(setting) => {
                self.apply(setting);
                Ok(())
            },
            Err(e) => Err(e),
        }
    }

    /// What a file says after all of `lines`, or what is wrong with the
    /// first line that is refused.
    pub open spec fn read(lines: Seq<Seq<char>>) -> Result<AsrFileModel, ValueError>
        decreases lines.len(),
    {
        if lines.len() == 0 {
            Ok(Self::empty())
        } else {
            match Self::read(lines.drop_last()) {
                Ok(m) => Self::line_taken(m, lines.last()),
                Err(e) => Err(e),
            }
        }
    }

    /// Reads the settings of a display from the lines of its file. The first
    /// line that is refused ends the reading.
    pub fn try_from_lines(lines: &Vec<String>) -> (r: Result<AsrFile, ValueError>)
        ensures
            match Self::read(lines.deep_view()) {
                Ok(m) => r is Ok && r->Ok_0.deep_view() == m,
                Err(e) => r is Err && r->Err_0 == e,
            },
    {
        let mut file = Self::new();
        let ghost all = lines.deep_view();
        let mut i: usize = 0;
        while i < lines.len()
            invariant
                i <= lines.len(),
                all == lines.deep_view(),
                Self::read(all.take(i as int)) == Ok::<AsrFileModel, ValueError>(file.deep_view()),
            decreases lines.len() - i,
        {
            proof {
                let head = all.take(i + 1);
                assert(head.drop_last() =~= all.take(i as int));
            }
            if let Err(e) = file.parse_line(lines[i].as_str()) {
                proof {
                    lemma_read_stays_refused(all, i + 1);
                }
                return Err(e);
            }
            i += 1;
        }
        assert(all.take(lines.len() as int) =~= all);
        Ok(file)
    }
}

/// Once a line has been refused, no later line makes the file good again.
pub proof fn lemma_read_stays_refused(lines: Seq<Seq<char>>, n: int)
    requires
        0 <= n <= lines.len(),
        AsrFile::read(lines.take(n)) is Err,
    ensures
        AsrFile::read(lines) == AsrFile::read(lines.take(n)),
    decreases lines.len(),
{
    if n < lines.len() {
        assert(lines.drop_last().take(n) =~= lines.take(n));
        lemma_read_stays_refused(lines.drop_last(), n);
    } else {
        assert(lines.take(n) =~= lines);
    }
}

} // verus!
