//! How a display is set up: what it shows and how it draws it.
use super::symbol::{SymbolIcon, SymbolIconModel};
use crate::keyed::{insert, put};
use crate::loaders::euroscope::asr::{DisplayItem, DisplayItemModel};
use crate::loaders::euroscope::colour::Colour;
use crate::loaders::euroscope::error::ValueError;
use crate::loaders::euroscope::symbology::{
    SymbologyAttribute, SymbologyAttributeModel, SymbologyInfo, SymbologyInfoModel, SymbologyItem,
    SymbologyItemModel, SymbologyItemType,
};
use crate::text::{chars, field_len, is_literal, same_text, string};
use vstd::prelude::*;

verus! {

/// Where text stands relative to its anchor.
#[derive(Debug, Clone, Copy, PartialEq, Eq, Structural)]
pub enum TextAlign {
    TopLeft,
    CenterLeft,
    BottomLeft,
    TopCenter,
    CenterCenter,
    BottomCenter,
    TopRight,
    CenterRight,
    BottomRight,
}

impl Default for TextAlign {
    fn default() -> (r: TextAlign)
        ensures
            r == TextAlign::TopLeft,
    {
        TextAlign::TopLeft
    }
}

impl TextAlign {
    /// The alignment that a symbology file means by `value`. The numbers 1
    /// and 7 both stand for the centre of the right side; what is no
    /// alignment is the top left.
    pub open spec fn of(value: u8) -> TextAlign {
        if value == 1 {
            TextAlign::CenterRight
        } else if value == 2 {
            TextAlign::BottomLeft
        } else if value == 3 {
            TextAlign::TopCenter
        } else if value == 4 {
            TextAlign::CenterCenter
        } else if value == 5 {
            TextAlign::BottomCenter
        } else if value == 6 {
            TextAlign::TopRight
        } else if value == 7 {
            TextAlign::CenterRight
        } else if value == 8 {
            TextAlign::BottomRight
        } else {
            TextAlign::TopLeft
        }
    }
}

impl From<u8> for TextAlign {
    fn from(value: u8) -> (r: TextAlign) {
        match value {
            1 => TextAlign::CenterRight,
            2 => TextAlign::BottomLeft,
            3 => TextAlign::TopCenter,
            4 => TextAlign::CenterCenter,
            5 => TextAlign::BottomCenter,
            6 => TextAlign::TopRight,
            7 => TextAlign::CenterRight,
            8 => TextAlign::BottomRight,
            _ => TextAlign::TopLeft,
        }
    }
}

impl vstd::std_specs::convert::FromSpecImpl<u8> for TextAlign {
    open spec fn obeys_from_spec() -> bool {
        true
    }

    open spec fn from_spec(value: u8) -> TextAlign {
        TextAlign::of(value)
    }
}

/// The name of the style of line that a symbology file means by `style`.
pub open spec fn line_style_name(style: u8) -> Seq<char> {
    if style == 1 {
        "dash"@
    } else if style == 2 {
        "dot"@
    } else if style == 3 {
        "dash-dot"@
    } else if style == 4 {
        "dash-dot-dot"@
    } else {
        "solid"@
    }
}

/// Names the style of line that a symbology file means by a number.
pub fn es_line_type_to_string(input: u8) -> (r: String)
    ensures
        r@ == line_style_name(input),
{
    if input == 1 {
        String::from_str("dash")
    } else if input == 2 {
        String::from_str("dot")
    } else if input == 3 {
        String::from_str("dash-dot")
    } else if input == 4 {
        String::from_str("dash-dot-dot")
    } else {
        String::from_str("solid")
    }
}

/// What a display shows behind everything else.
#[derive(Debug, Clone, PartialEq, Eq)]
pub enum AtcDisplayBackground {
    Blank,
    Satellite,
    Color(String),
}

impl Default for AtcDisplayBackground {
    fn default() -> (r: AtcDisplayBackground)
        ensures
            r == AtcDisplayBackground::Blank,
    {
        AtcDisplayBackground::Blank
    }
}

pub enum AtcDisplayBackgroundModel {
    Blank,
    Satellite,
    Color(Seq<char>),
}

impl DeepView for AtcDisplayBackground {
    type V = AtcDisplayBackgroundModel;

    open spec fn deep_view(&self) -> AtcDisplayBackgroundModel {
        match self {
            AtcDisplayBackground::Blank => AtcDisplayBackgroundModel::Blank,
            AtcDisplayBackground::Satellite => AtcDisplayBackgroundModel::Satellite,
            AtcDisplayBackground::Color(c) => AtcDisplayBackgroundModel::Color(c@),
        }
    }
}

/// How things of one kind are drawn unless they say otherwise. The size is
/// held in billionths.
#[derive(Debug)]
pub struct DisplayDefaultConfig {
    pub color: Colour,
    pub size: i64,
    pub line_weight: u8,
    pub line_style: String,
    pub text_align: TextAlign,
}

pub struct DisplayDefaultConfigModel {
    pub color: Colour,
    pub size: i64,
    pub line_weight: u8,
    pub line_style: Seq<char>,
    pub text_align: TextAlign,
}

impl DeepView for DisplayDefaultConfig {
    type V = DisplayDefaultConfigModel;

    open spec fn deep_view(&self) -> DisplayDefaultConfigModel {
        DisplayDefaultConfigModel {
            color: self.color,
            size: self.size,
            line_weight: self.line_weight,
            line_style: self.line_style@,
            text_align: self.text_align,
        }
    }
}

/// The way of drawing of a kind of which nothing is said: black, without
/// size or weight, of no named style, text at the top left.
pub open spec fn plain_config() -> DisplayDefaultConfigModel {
    DisplayDefaultConfigModel {
        color: Colour { r: 0, g: 0, b: 0 },
        size: 0,
        line_weight: 0,
        line_style: Seq::empty(),
        text_align: TextAlign::TopLeft,
    }
}

/// The way of drawing that a setting of a symbology file asks for.
pub open spec fn config_of(a: SymbologyAttributeModel) -> DisplayDefaultConfigModel {
    DisplayDefaultConfigModel {
        color: a.color,
        size: a.size,
        line_weight: a.line_weight,
        line_style: line_style_name(a.line_style),
        text_align: TextAlign::of(a.text_align),
    }
}

impl Default for DisplayDefaultConfig {
    fn default() -> (r: DisplayDefaultConfig)
        ensures
            r.deep_view() == plain_config(),
    {
        DisplayDefaultConfig {
            color: Colour { r: 0, g: 0, b: 0 },
            size: 0,
            line_weight: 0,
            line_style: String::new(),
            text_align: TextAlign::TopLeft,
        }
    }
}

impl DisplayDefaultConfig {
    /// The way of drawing that a setting of a symbology file asks for.
    pub fn from_attribute(a: &SymbologyAttribute) -> (r: DisplayDefaultConfig)
        ensures
            r.deep_view() == config_of(a.deep_view()),
    {
        DisplayDefaultConfig {
            color: a.color,
            size: a.size,
            line_weight: a.line_weight,
            line_style: es_line_type_to_string(a.line_style),
            text_align: TextAlign::from(a.text_align),
        }
    }
}

/// How the symbols of a kind and the names beside them are drawn: of the
/// settings for the aspect `name` the last decides the names, of all others
/// the last decides the symbols.
pub open spec fn symbol_configs(defs: Seq<SymbologyAttributeModel>) -> (
    DisplayDefaultConfigModel,
    DisplayDefaultConfigModel,
)
    decreases defs.len(),
{
    if defs.len() == 0 {
        (plain_config(), plain_config())
    } else {
        let before = symbol_configs(defs.drop_last());
        if defs.last().attribute == "name"@ {
            (before.0, config_of(defs.last()))
        } else {
            (config_of(defs.last()), before.1)
        }
    }
}

/// How the maps of a kind are drawn: as the last setting for the aspect
/// `line` asks.
pub open spec fn map_config(defs: Seq<SymbologyAttributeModel>) -> DisplayDefaultConfigModel
    decreases defs.len(),
{
    if defs.len() == 0 {
        plain_config()
    } else if defs.last().attribute == "line"@ {
        config_of(defs.last())
    } else {
        map_config(defs.drop_last())
    }
}

/// The background after the settings of the sector: the colour of the last
/// setting for the aspect `active sector background`, else what it was.
pub open spec fn background_of(
    defs: Seq<SymbologyAttributeModel>,
    current: AtcDisplayBackgroundModel,
) -> AtcDisplayBackgroundModel
    decreases defs.len(),
{
    if defs.len() == 0 {
        current
    } else if defs.last().attribute == "active sector background"@ {
        AtcDisplayBackgroundModel::Color(defs.last().color.hex())
    } else {
        background_of(defs.drop_last(), current)
    }
}

/// The styles of line that a display of this kind knows, each as the
/// lengths of its strokes and gaps.
pub open spec fn es_line_types() -> Seq<(Seq<char>, Seq<u8>)> {
    seq![
        ("solid"@, seq![1u8]),
        ("dash"@, seq![18u8, 6u8]),
        ("dot"@, seq![3u8, 3u8]),
        ("dash-dot"@, seq![9u8, 6u8, 3u8, 6u8]),
        ("dash-dot-dot"@, seq![9u8, 3u8, 3u8, 3u8, 3u8, 3u8]),
    ]
}

/// Lists the styles of line that a display of this kind knows.
pub fn get_es_line_types() -> (r: Vec<(String, Vec<u8>)>)
    ensures
        r.deep_view() == es_line_types(),
{
    let mut out: Vec<(String, Vec<u8>)> = Vec::new();
    let solid: Vec<u8> = vec![1];
    let dash: Vec<u8> = vec![18, 6];
    let dot: Vec<u8> = vec![3, 3];
    let dash_dot: Vec<u8> = vec![9, 6, 3, 6];
    let dash_dot_dot: Vec<u8> = vec![9, 3, 3, 3, 3, 3];
    proof {
        assert(solid.deep_view() =~= seq![1u8]);
        assert(dash.deep_view() =~= seq![18u8, 6u8]);
        assert(dot.deep_view() =~= seq![3u8, 3u8]);
        assert(dash_dot.deep_view() =~= seq![9u8, 6u8, 3u8, 6u8]);
        assert(dash_dot_dot.deep_view() =~= seq![9u8, 3u8, 3u8, 3u8, 3u8, 3u8]);
    }
    out.push((String::from_str("solid"), solid));
    out.push((String::from_str("dash"), dash));
    out.push((String::from_str("dot"), dot));
    out.push((String::from_str("dash-dot"), dash_dot));
    out.push((String::from_str("dash-dot-dot"), dash_dot_dot));
    out
}

/// How a display of one kind draws what it shows. In each list a name occurs
/// once.
#[derive(Debug)]
pub struct AtcDisplayType {
    pub id: String,
    pub map_defaults: Vec<(String, DisplayDefaultConfig)>,
    pub symbol_defaults: Vec<(String, (DisplayDefaultConfig, DisplayDefaultConfig))>,
    pub symbol_icons: Vec<(String, SymbolIcon)>,
    pub line_types: Vec<(String, Vec<u8>)>,
    pub background: AtcDisplayBackground,
}

pub struct AtcDisplayTypeModel {
    pub id: Seq<char>,
    pub map_defaults: Seq<(Seq<char>, DisplayDefaultConfigModel)>,
    pub symbol_defaults: Seq<(Seq<char>, (DisplayDefaultConfigModel, DisplayDefaultConfigModel))>,
    pub symbol_icons: Seq<(Seq<char>, SymbolIconModel)>,
    pub line_types: Seq<(Seq<char>, Seq<u8>)>,
    pub background: AtcDisplayBackgroundModel,
}

impl DeepView for AtcDisplayType {
    type V = AtcDisplayTypeModel;

    open spec fn deep_view(&self) -> AtcDisplayTypeModel {
        AtcDisplayTypeModel {
            id: self.id@,
            map_defaults: self.map_defaults.deep_view(),
            symbol_defaults: self.symbol_defaults.deep_view(),
            symbol_icons: self.symbol_icons.deep_view(),
            line_types: self.line_types.deep_view(),
            background: self.background.deep_view(),
        }
    }
}

/// The display with the settings of one kind of thing taken in, under the
/// key of the kind: for a kind that is drawn as symbols, how symbols and
/// names are drawn; for a kind that is drawn as maps, how maps are drawn;
/// for the sector, the background. The settings of other kinds do not
/// count.
pub open spec fn defaults_with(t: AtcDisplayTypeModel, item: SymbologyItemModel) -> AtcDisplayTypeModel {
    if item.item_type.is_symbol_kind() {
        AtcDisplayTypeModel {
            symbol_defaults: put(t.symbol_defaults, item.item_type.key(), symbol_configs(item.defs)),
            ..t
        }
    } else if item.item_type.is_map_kind() {
        AtcDisplayTypeModel {
            map_defaults: put(t.map_defaults, item.item_type.key(), map_config(item.defs)),
            ..t
        }
    } else if item.item_type == SymbologyItemType::Sector {
        AtcDisplayTypeModel { background: background_of(item.defs, t.background), ..t }
    } else {
        t
    }
}

/// The display with the settings of all of `items` taken in, in their
/// order.
pub open spec fn defaults_all(t: AtcDisplayTypeModel, items: Seq<SymbologyItemModel>) -> AtcDisplayTypeModel
    decreases items.len(),
{
    if items.len() == 0 {
        t
    } else {
        defaults_with(defaults_all(t, items.drop_last()), items.last())
    }
}

/// The symbols that `entries` draw, each under the name of what it stands
/// for, or what is wrong with the first drawing that is refused.
pub open spec fn icons_all(entries: Seq<(u8, Seq<Seq<char>>)>) -> Result<
    Seq<(Seq<char>, SymbolIconModel)>,
    ValueError,
>
    decreases entries.len(),
{
    if entries.len() == 0 {
        Ok(Seq::empty())
    } else {
        match icons_all(entries.drop_last()) {
            Err(e) => Err(e),
            Ok(icons) => match SymbolIcon::made(entries.last().0, entries.last().1) {
                Err(e) => Err(e),
                Ok(icon) => Ok(put(icons, icon.symbol_type, icon)),
            },
        }
    }
}

proof fn lemma_icons_stay_refused(entries: Seq<(u8, Seq<Seq<char>>)>, n: int)
    requires
        0 <= n <= entries.len(),
        icons_all(entries.take(n)) is Err,
    ensures
        icons_all(entries) == icons_all(entries.take(n)),
    decreases entries.len(),
{
    if n < entries.len() {
        assert(entries.drop_last().take(n) =~= entries.take(n));
        lemma_icons_stay_refused(entries.drop_last(), n);
    } else {
        assert(entries.take(n) =~= entries);
    }
}

fn symbol_configs_of(defs: &Vec<SymbologyAttribute>) -> (r: (
    DisplayDefaultConfig,
    DisplayDefaultConfig,
))
    ensures
        r.deep_view() == symbol_configs(defs.deep_view()),
{
    let mut symbol = DisplayDefaultConfig::default();
    let mut name = DisplayDefaultConfig::default();
    let ghost all = defs.deep_view();
    let mut i: usize = 0;
    while i < defs.len()
        invariant
            i <= defs.len(),
            all == defs.deep_view(),
            (symbol.deep_view(), name.deep_view()) == symbol_configs(all.take(i as int)),
        decreases defs.len() - i,
    {
        proof {
            let head = all.take(i + 1);
            assert(head.drop_last() =~= all.take(i as int));
        }
        if same_text(defs[i].attribute.as_str(), "name") {
            name = DisplayDefaultConfig::from_attribute(&defs[i]);
        } else {
            symbol = DisplayDefaultConfig::from_attribute(&defs[i]);
        }
        i += 1;
    }
    assert(all.take(defs.len() as int) =~= all);
    (symbol, name)
}

fn map_config_of(defs: &Vec<SymbologyAttribute>) -> (r: DisplayDefaultConfig)
    ensures
        r.deep_view() == map_config(defs.deep_view()),
{
    let mut config = DisplayDefaultConfig::default();
    let ghost all = defs.deep_view();
    let mut i: usize = 0;
    while i < defs.len()
        invariant
            i <= defs.len(),
            all == defs.deep_view(),
            config.deep_view() == map_config(all.take(i as int)),
        decreases defs.len() - i,
    {
        proof {
            let head = all.take(i + 1);
            assert(head.drop_last() =~= all.take(i as int));
        }
        if same_text(defs[i].attribute.as_str(), "line") {
            config = DisplayDefaultConfig::from_attribute(&defs[i]);
        }
        i += 1;
    }
    assert(all.take(defs.len() as int) =~= all);
    config
}

fn background_from(defs: &Vec<SymbologyAttribute>, current: AtcDisplayBackground) -> (r:
    AtcDisplayBackground)
    ensures
        r.deep_view() == background_of(defs.deep_view(), current.deep_view()),
{
    let mut background = current;
    let ghost start = current.deep_view();
    let ghost all = defs.deep_view();
    let mut i: usize = 0;
    while i < defs.len()
        invariant
            i <= defs.len(),
            all == defs.deep_view(),
            background.deep_view() == background_of(all.take(i as int), start),
        decreases defs.len() - i,
    {
        proof {
            let head = all.take(i + 1);
            assert(head.drop_last() =~= all.take(i as int));
        }
        if same_text(defs[i].attribute.as_str(), "active sector background") {
            background = AtcDisplayBackground::Color(defs[i].color.to_hex());
        }
        i += 1;
    }
    assert(all.take(defs.len() as int) =~= all);
    background
}

impl AtcDisplayType {
    /// A display that draws nothing in a way of its own yet, but knows its
    /// styles of line.
    pub open spec fn plain(id: Seq<char>) -> AtcDisplayTypeModel {
        AtcDisplayTypeModel {
            id,
            map_defaults: Seq::empty(),
            symbol_defaults: Seq::empty(),
            symbol_icons: Seq::empty(),
            line_types: es_line_types(),
            background: AtcDisplayBackgroundModel::Blank,
        }
    }

    /// The display that a symbology file describes, or what is wrong with
    /// the first drawing of a symbol that is refused.
    pub open spec fn described(id: Seq<char>, symbology: SymbologyInfoModel) -> Result<
        AtcDisplayTypeModel,
        ValueError,
    > {
        match icons_all(symbology.symbol_icons) {
            Err(e) => Err(e),
            Ok(icons) => Ok(
                AtcDisplayTypeModel {
                    symbol_icons: icons,
                    ..defaults_all(Self::plain(id), symbology.symbols)
                },
            ),
        }
    }

    fn take_defaults(&mut self, item: &SymbologyItem)
        ensures
            final(self).deep_view() == defaults_with(old(self).deep_view(), item.deep_view()),
    {
        if item.item_type.is_symbol() {
            let configs = symbol_configs_of(&item.defs);
            insert(&mut self.symbol_defaults, item.item_type.to_key_string(), configs);
        } else if item.item_type.is_map() {
            let config = map_config_of(&item.defs);
            insert(&mut self.map_defaults, item.item_type.to_key_string(), config);
        } else if item.item_type == SymbologyItemType::Sector {
            let mut current = AtcDisplayBackground::Blank;
            std::mem::swap(&mut current, &mut self.background);
            self.background = background_from(&item.defs, current);
        }
    }

    /// Sets a display up as a symbology file describes it.
    pub fn try_from_es_symbology(id: String, symbology: SymbologyInfo) -> (r: Result<
        AtcDisplayType,
        ValueError,
    >)
        ensures
            match Self::described(id@, symbology.deep_view()) {
                Ok(m) => r is Ok && r->Ok_0.deep_view() == m,
                Err(e) => r is Err && r->Err_0 == e,
            },
    {
        let mut display = AtcDisplayType {
            id,
            map_defaults: Vec::new(),
            symbol_defaults: Vec::new(),
            symbol_icons: Vec::new(),
            line_types: get_es_line_types(),
            background: AtcDisplayBackground::Blank,
        };
        let ghost items = symbology.symbols.deep_view();
        let ghost entries = symbology.symbol_icons.deep_view();
        proof {
            assert(display.map_defaults.deep_view() =~= Seq::empty());
            assert(display.symbol_defaults.deep_view() =~= Seq::empty());
            assert(display.symbol_icons.deep_view() =~= Seq::empty());
        }
        let mut i: usize = 0;
        while i < symbology.symbols.len()
            invariant
                i <= symbology.symbols.len(),
                items == symbology.symbols.deep_view(),
                display.deep_view() == defaults_all(Self::plain(id@), items.take(i as int)),
                display.deep_view().symbol_icons == Seq::<(Seq<char>, SymbolIconModel)>::empty(),
            decreases symbology.symbols.len() - i,
        {
            proof {
                let head = items.take(i + 1);
                assert(head.drop_last() =~= items.take(i as int));
            }
            display.take_defaults(&symbology.symbols[i]);
            i += 1;
        }
        assert(items.take(symbology.symbols.len() as int) =~= items);
        let ghost with_defaults = display.deep_view();
        let mut k: usize = 0;
        while k < symbology.symbol_icons.len()
            invariant
                k <= symbology.symbol_icons.len(),
                entries == symbology.symbol_icons.deep_view(),
                icons_all(entries.take(k as int)) == Ok::<
                    Seq<(Seq<char>, SymbolIconModel)>,
                    ValueError,
                >(display.symbol_icons.deep_view()),
                display.deep_view() == (AtcDisplayTypeModel {
                    symbol_icons: display.symbol_icons.deep_view(),
                    ..with_defaults
                }),
            decreases symbology.symbol_icons.len() - k,
        {
            proof {
                let head = entries.take(k + 1);
                assert(head.drop_last() =~= entries.take(k as int));
            }
            let entry = &symbology.symbol_icons[k];
            match SymbolIcon::from_lines(entry.0, &entry.1) {
                Ok(icon) => {
                    let name = icon.symbol_type.clone();
                    insert(&mut display.symbol_icons, name, icon);
                },
                Err(e) => {
                    proof {
                        lemma_icons_stay_refused(entries, k + 1);
                    }
                    return Err(e);
                },
            }
            k += 1;
        }
        assert(entries.take(symbology.symbol_icons.len() as int) =~= entries);
        Ok(display)
    }
}

/// One thing that a display shows.
#[derive(Debug, Clone, PartialEq, Eq)]
pub enum AtcDisplayItem {
    /// A map by its name, shown or hidden.
    MapItem { id: String, visible: bool },
    Symbol { id: String, show_symbol: bool, show_label: bool },
    NavdataItem { symbol_type: String, ident: String, show_symbol: bool, show_label: bool },
}

pub enum AtcDisplayItemModel {
    MapItem { id: Seq<char>, visible: bool },
    Symbol { id: Seq<char>, show_symbol: bool, show_label: bool },
    NavdataItem { symbol_type: Seq<char>, ident: Seq<char>, show_symbol: bool, show_label: bool },
}

impl DeepView for AtcDisplayItem {
    type V = AtcDisplayItemModel;

    open spec fn deep_view(&self) -> AtcDisplayItemModel {
        match self {
            AtcDisplayItem::MapItem { id, visible } => AtcDisplayItemModel::MapItem {
                id: id@,
                visible: *visible,
            },
            AtcDisplayItem::Symbol { id, show_symbol, show_label } => AtcDisplayItemModel::Symbol {
                id: id@,
                show_symbol: *show_symbol,
                show_label: *show_label,
            },
            AtcDisplayItem::NavdataItem {
                symbol_type,
                ident,
                show_symbol,
                show_label,
            } => AtcDisplayItemModel::NavdataItem {
                symbol_type: symbol_type@,
                ident: ident@,
                show_symbol: *show_symbol,
                show_label: *show_label,
            },
        }
    }
}

/// The name under which a package files a thing of a sector: the sector, the
/// key of the kind and the name of the thing, with `_` between them.
pub open spec fn item_id(sector: Seq<char>, kind: SymbologyItemType, name: Seq<char>) -> Seq<char> {
    sector + seq!['_'] + kind.key() + seq!['_'] + name
}

/// Makes the name under which a package files a thing of a sector.
pub fn make_item_id(sector: &str, kind: SymbologyItemType, name: &str) -> (r: String)
    ensures
        r@ == item_id(sector@, kind, name@),
{
    let mut id = String::from_str(sector);
    id.push('_');
    id.append(kind.to_key_string().as_str());
    id.push('_');
    id.append(name);
    id
}

/// Where the symbol with the name `id` stands first among `items`.
pub open spec fn symbol_index(items: Seq<AtcDisplayItemModel>, id: Seq<char>) -> Option<int>
    decreases items.len(),
{
    if items.len() == 0 {
        None
    } else {
        match symbol_index(items.drop_last(), id) {
            Some(i) => Some(i),
            None => if items.last() is Symbol && items.last()->Symbol_id == id {
                Some(items.len() - 1)
            } else {
                None
            },
        }
    }
}

pub proof fn lemma_symbol_index(items: Seq<AtcDisplayItemModel>, id: Seq<char>)
    ensures
        match symbol_index(items, id) {
            Some(i) => 0 <= i < items.len() && items[i] is Symbol && items[i]->Symbol_id == id
                && forall|k: int|
                0 <= k < i ==> !((#[trigger] items[k]) is Symbol && items[k]->Symbol_id == id),
            None => forall|k: int|
                0 <= k < items.len() ==> !((#[trigger] items[k]) is Symbol && items[k]->Symbol_id
                    == id),
        },
    decreases items.len(),
{
    if items.len() > 0 {
        lemma_symbol_index(items.drop_last(), id);
        match symbol_index(items.drop_last(), id) {
            Some(i) => {
                assert forall|k: int| 0 <= k < i implies !((#[trigger] items[k]) is Symbol
                    && items[k]->Symbol_id == id) by {
                    assert(items[k] == items.drop_last()[k]);
                }
            },
            None => {
                assert forall|k: int| 0 <= k < items.len() - 1 implies !((
                #[trigger] items[k]) is Symbol && items[k]->Symbol_id == id) by {
                    assert(items[k] == items.drop_last()[k]);
                }
            },
        }
    }
}

/// What a display shows, and the names of the groups of free text that it
/// already shows.
pub struct Shown {
    pub items: Seq<AtcDisplayItemModel>,
    pub free_text: Seq<Seq<char>>,
}

/// The symbol at index `i` with one more of its aspects shown: the symbol
/// itself for the aspect `symbol`, its label for the aspect `name`.
pub open spec fn with_aspect(
    items: Seq<AtcDisplayItemModel>,
    i: int,
    aspect: Seq<char>,
) -> Seq<AtcDisplayItemModel> {
    let id = items[i]->Symbol_id;
    let show_symbol = items[i]->Symbol_show_symbol;
    let show_label = items[i]->Symbol_show_label;
    if aspect == "symbol"@ {
        items.update(i, AtcDisplayItemModel::Symbol { id, show_symbol: true, show_label })
    } else if aspect == "name"@ {
        items.update(i, AtcDisplayItemModel::Symbol { id, show_symbol, show_label: true })
    } else {
        items
    }
}

/// What a display shows after one more thing of the sector `sector` is
/// asked for.
///
/// An airport, fix or beacon is a symbol, which is listed once, however many
/// of its aspects are asked for. A boundary, airway, procedure, region or
/// piece of geography is a map. Of a label only the aspect `freetext`
/// counts: the part of its name before the first backslash names a group of
/// free text, whose map is listed once. Nothing else is shown.
pub open spec fn shown_with(shown: Shown, sector: Seq<char>, item: DisplayItemModel) -> Shown {
    if item.item_type.is_symbol_kind() {
        let id = item_id(sector, item.item_type, item.name);
        match symbol_index(shown.items, id) {
            Some(i) => Shown { items: with_aspect(shown.items, i, item.attribute), ..shown },
            None => Shown {
                items: with_aspect(
                    shown.items.push(
                        AtcDisplayItemModel::Symbol { id, show_symbol: false, show_label: false },
                    ),
                    shown.items.len() as int,
                    item.attribute,
                ),
                ..shown
            },
        }
    } else if item.item_type.is_map_kind() {
        Shown {
            items: shown.items.push(
                AtcDisplayItemModel::MapItem {
                    id: item_id(sector, item.item_type, item.name),
                    visible: true,
                },
            ),
            ..shown
        }
    } else if item.item_type == SymbologyItemType::Label && item.attribute == "freetext"@ {
        let group = item.name.take(field_len(item.name, '\\') as int);
        if shown.free_text.contains(group) {
            shown
        } else {
            Shown {
                items: shown.items.push(
                    AtcDisplayItemModel::MapItem {
                        id: item_id(sector, item.item_type, group),
                        visible: true,
                    },
                ),
                free_text: shown.free_text.push(group),
            }
        }
    } else {
        shown
    }
}

/// What a display shows after all of `items` of the sector `sector` are
/// asked for in their order.
pub open spec fn shown_all(sector: Seq<char>, items: Seq<DisplayItemModel>) -> Shown
    decreases items.len(),
{
    if items.len() == 0 {
        Shown { items: Seq::empty(), free_text: Seq::empty() }
    } else {
        shown_with(shown_all(sector, items.drop_last()), sector, items.last())
    }
}

fn find_symbol(items: &Vec<AtcDisplayItem>, id: &String) -> (r: Option<usize>)
    ensures
        match r {
            Some(i) => symbol_index(items.deep_view(), id@) == Some(i as int) && i < items.len(),
            None => symbol_index(items.deep_view(), id@) is None,
        },
{
    let ghost model = items.deep_view();
    let mut i: usize = 0;
    while i < items.len()
        invariant
            i <= items.len(),
            model == items.deep_view(),
            forall|k: int|
                0 <= k < i ==> !((#[trigger] model[k]) is Symbol && model[k]->Symbol_id == id@),
        decreases items.len() - i,
    {
        let found = match &items[i] {
            AtcDisplayItem::Symbol { id: other, show_symbol: _, show_label: _ } => *other == *id,
            _ => false,
        };
        if found {
            proof {
                assert(model[i as int] is Symbol && model[i as int]->Symbol_id == id@);
                lemma_symbol_index(model, id@);
            }
            return Some(i);
        }
        i += 1;
    }
    proof {
        lemma_symbol_index(model, id@);
    }
    None
}

fn has_text(texts: &Vec<String>, text: &String) -> (r: bool)
    ensures
        r == texts.deep_view().contains(text@),
{
    let mut i: usize = 0;
    while i < texts.len()
        invariant
            i <= texts.len(),
            forall|k: int| 0 <= k < i ==> texts.deep_view()[k] != text@,
        decreases texts.len() - i,
    {
        if texts[i] == *text {
            assert(texts.deep_view()[i as int] == text@);
            return true;
        }
        i += 1;
    }
    false
}

fn show_aspect(items: &mut Vec<AtcDisplayItem>, i: usize, aspect: &String)
    requires
        i < old(items).len(),
        old(items)[i as int] is Symbol,
    ensures
        final(items).deep_view() == with_aspect(old(items).deep_view(), i as int, aspect@),
{
    let a = chars(aspect.as_str());
    let symbol = is_literal(a.as_slice(), "symbol");
    let name = is_literal(a.as_slice(), "name");
    if !symbol && !name {
        return ;
    }
    let (id, show_symbol, show_label) = match &items[i] {
        AtcDisplayItem::Symbol { id, show_symbol, show_label } => (
            id.clone(),
            *show_symbol,
            *show_label,
        ),
        _ => (String::new(), false, false),
    };
    let item = if symbol {
        AtcDisplayItem::Symbol { id, show_symbol: true, show_label }
    } else {
        AtcDisplayItem::Symbol { id, show_symbol, show_label: true }
    };
    items.set(i, item);
}

/// Lists what a display shows of the sector `sector_id` when `items` are
/// asked for in their order.
pub fn display_items_from_asr(sector_id: &str, items: &Vec<DisplayItem>) -> (r: Vec<
    AtcDisplayItem,
>)
    ensures
        r.deep_view() == shown_all(sector_id@, items.deep_view()).items,
{
    let mut out: Vec<AtcDisplayItem> = Vec::new();
    let mut free_text: Vec<String> = Vec::new();
    let ghost all = items.deep_view();
    let mut n: usize = 0;
    assert(out.deep_view() =~= Seq::empty());
    assert(free_text.deep_view() =~= Seq::empty());
    while n < items.len()
        invariant
            n <= items.len(),
            all == items.deep_view(),
            shown_all(sector_id@, all.take(n as int)) == (Shown {
                items: out.deep_view(),
                free_text: free_text.deep_view(),
            }),
        decreases items.len() - n,
    {
        let item = &items[n];
        let ghost before = out.deep_view();
        let ghost texts = free_text.deep_view();
        proof {
            let head = all.take(n + 1);
            assert(head.drop_last() =~= all.take(n as int));
        }
        if item.item_type.is_symbol() {
            let id = make_item_id(sector_id, item.item_type, item.name.as_str());
            let i = match find_symbol(&out, &id) {
                Some(i) => {
                    proof {
                        lemma_symbol_index(before, id@);
                    }
                    i
                },
                None => {
                    let i: usize = out.len();
                    let symbol = AtcDisplayItem::Symbol {
                        id,
                        show_symbol: false,
                        show_label: false,
                    };
                    out.push(symbol);
                    assert(out.deep_view() =~= before.push(symbol.deep_view()));
                    i
                },
            };
            show_aspect(&mut out, i, &item.attribute);
        } else if item.item_type.is_map() {
            let map = AtcDisplayItem::MapItem {
                id: make_item_id(sector_id, item.item_type, item.name.as_str()),
                visible: true,
            };
            out.push(map);
            assert(out.deep_view() =~= before.push(map.deep_view()));
        } else if item.item_type == SymbologyItemType::Label {
            let aspect = chars(item.attribute.as_str());
            if is_literal(aspect.as_slice(), "freetext") {
                let name = chars(item.name.as_str());
                let group = string(crate::text::before(name.as_slice(), '\\'));
                if !has_text(&free_text, &group) {
                    let map = AtcDisplayItem::MapItem {
                        id: make_item_id(sector_id, item.item_type, group.as_str()),
                        visible: true,
                    };
                    out.push(map);
                    assert(out.deep_view() =~= before.push(map.deep_view()));
                    free_text.push(group);
                    assert(free_text.deep_view() =~= texts.push(group@));
                }
            }
        }
        n += 1;
    }
    assert(all.take(items.len() as int) =~= all);
    out
}

} // verus!
