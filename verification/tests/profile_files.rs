use sct_reader::loaders::euroscope::asr::{
    read_setting, read_setting_for, AsrFile, AsrKey, DisplayItem, Setting,
};
use sct_reader::loaders::euroscope::colour::Colour;
use sct_reader::loaders::euroscope::error::ValueError;
use sct_reader::loaders::euroscope::position::Position;
use sct_reader::loaders::euroscope::symbology::{SymbologyInfo, SymbologyItemType};
use sct_reader::package::display::{
    display_items_from_asr, es_line_type_to_string, make_item_id, AtcDisplayBackground,
    AtcDisplayItem, TextAlign,
};
use sct_reader::package::position::{AtcPosition, PositionDisplayConfig};
use sct_reader::package::symbol::{icon_name_of, SymbolDrawItem, SymbolIcon};

const DEG: i64 = 1_000_000_000;

fn lines(text: &[&str]) -> Vec<String> {
    text.iter().map(|l| l.to_string()).collect()
}

const KINDS: [(SymbologyItemType, &str, &str); 23] = [
    (SymbologyItemType::Airports, "airports", "Airports"),
    (SymbologyItemType::LowAirways, "low_airways", "Low airways"),
    (SymbologyItemType::HighAirways, "high_airways", "High airways"),
    (SymbologyItemType::Fixes, "fixes", "Fixes"),
    (SymbologyItemType::Sids, "sids", "Sids"),
    (SymbologyItemType::Stars, "stars", "Stars"),
    (SymbologyItemType::ArtccHighBoundary, "artcc_high", "ARTCC high boundary"),
    (SymbologyItemType::ArtccBoundary, "artcc", "ARTCC boundary"),
    (SymbologyItemType::ArtccLowBoundary, "artcc_low", "ARTCC low boundary"),
    (SymbologyItemType::Geo, "geo", "Geo"),
    (SymbologyItemType::Vors, "vors", "VORs"),
    (SymbologyItemType::Ndbs, "ndbs", "NDBs"),
    (SymbologyItemType::Runways, "runways", "Runways"),
    (SymbologyItemType::Datablock, "datablock", "Datablock"),
    (SymbologyItemType::Controller, "controller", "Controller"),
    (SymbologyItemType::Metar, "metar", "Metar"),
    (SymbologyItemType::Other, "other", "Other"),
    (SymbologyItemType::Transitions, "transitions", "Transitions"),
    (SymbologyItemType::Chat, "chat", "Chat"),
    (SymbologyItemType::Sector, "sector", "Sector"),
    (SymbologyItemType::GroundNetwork, "ground_network", "Ground Network"),
    (SymbologyItemType::Region, "regions", "Regions"),
    (SymbologyItemType::Label, "free_text", "Free Text"),
];

#[test]
fn kinds_have_keys_and_names() {
    for (kind, key, name) in KINDS {
        assert_eq!(kind.to_key_string(), key);
        assert_eq!(SymbologyItemType::try_from(name), Ok(kind));
        assert_eq!(SymbologyItemType::from_lower(&name.to_lowercase()), Some(kind));
    }
    assert_eq!(SymbologyItemType::from_lower("Airports"), None);
    assert_eq!(SymbologyItemType::try_from("airport"), Err(()));
    assert_eq!(SymbologyItemType::try_from(""), Err(()));
    assert_eq!(SymbologyItemType::default(), SymbologyItemType::Other);
}

#[test]
fn kinds_are_symbols_or_maps_or_neither() {
    let symbols = ["airports", "fixes", "vors", "ndbs"];
    let maps = [
        "artcc", "artcc_high", "artcc_low", "geo", "low_airways", "high_airways", "regions", "sids",
        "stars",
    ];
    for (kind, key, _) in KINDS {
        assert_eq!(kind.is_symbol(), symbols.contains(&key), "{key}");
        assert_eq!(kind.is_map(), maps.contains(&key), "{key}");
    }
}

#[test]
fn symbology_file_is_gathered_by_kind() {
    let info = SymbologyInfo::try_from_lines(
        "Symbols.txt".to_string(),
        &lines(&[
            "SYMBOLOGY",
            "SYMBOLSIZE",
            "Airports:symbol:16711680:3.5:1:2:7",
            "Airports:name:255:3:0:0:1",
            "m_ClipArea:2",
            "Low airways:line:65280:0.25:2:4:0",
            "airports:symbol:1:1:1:1:1",
            "SYMBOL:0",
            "SYMBOLITEM:MOVETO -3 -3",
            "END",
        ]),
    )
    .unwrap();
    assert_eq!(info.file_name, "Symbols.txt");
    assert_eq!(info.clipping_area, 2);
    assert_eq!(info.symbols.len(), 3);
    let airports = &info.symbols[0];
    assert_eq!(airports.name, "Airports");
    assert_eq!(airports.item_type, SymbologyItemType::Airports);
    assert_eq!(airports.defs.len(), 2);
    assert_eq!(airports.defs[0].attribute, "symbol");
    assert_eq!(airports.defs[0].color, Colour { r: 255, g: 0, b: 0 });
    assert_eq!(airports.defs[0].size, 3_500_000_000);
    assert_eq!(airports.defs[0].line_weight, 1);
    assert_eq!(airports.defs[0].line_style, 2);
    assert_eq!(airports.defs[0].text_align, 7);
    assert_eq!(airports.defs[1].attribute, "name");
    assert_eq!(info.symbols[1].name, "Low airways");
    assert_eq!(info.symbols[1].item_type, SymbologyItemType::LowAirways);
    assert_eq!(info.symbols[1].defs[0].size, 250_000_000);
    assert_eq!(info.symbols[2].name, "airports");
    assert_eq!(info.symbols[2].item_type, SymbologyItemType::Airports);
}

#[test]
fn symbology_file_without_lines() {
    let info = SymbologyInfo::try_from_lines("s".to_string(), &Vec::new()).unwrap();
    assert_eq!(info.clipping_area, 5);
    assert!(info.symbols.is_empty());
}

#[test]
fn symbology_file_is_refused_at_its_first_bad_line() {
    let read = |text: &[&str]| SymbologyInfo::try_from_lines("s".to_string(), &lines(text)).err();
    assert_eq!(read(&["m_cliparea"]), Some(ValueError::MissingValue));
    assert_eq!(read(&["M_CLIPAREA:256"]), Some(ValueError::InvalidNumber));
    assert_eq!(read(&["Geo"]), Some(ValueError::MissingValue));
    assert_eq!(read(&["Geo:line"]), Some(ValueError::MissingValue));
    assert_eq!(read(&["Geo:line:red"]), Some(ValueError::InvalidNumber));
    assert_eq!(read(&["Geo:line:1"]), Some(ValueError::MissingValue));
    assert_eq!(read(&["Geo:line:1:big"]), Some(ValueError::InvalidNumber));
    assert_eq!(read(&["Geo:line:1:1"]), Some(ValueError::MissingValue));
    assert_eq!(read(&["Geo:line:1:1:300:1:1"]), Some(ValueError::InvalidNumber));
    assert_eq!(read(&["Geo:line:1:1:1:1"]), Some(ValueError::MissingValue));
    assert_eq!(read(&["Geo:line:1:1:1:1:-1"]), Some(ValueError::InvalidNumber));
    assert_eq!(read(&["Geo:line:1:1:1:1:1", "Geo", "m_cliparea:x"]), Some(ValueError::MissingValue));
    assert_eq!(read(&["whatever:x:y"]), None);
    let mut info = SymbologyInfo::new("s".to_string());
    info.parse_line("Geo:line:1:1:1:1:1").unwrap();
    assert_eq!(info.parse_line("Geo:line:1:1:1:1"), Err(ValueError::MissingValue));
    assert_eq!(info.symbols[0].defs.len(), 1);
}

#[test]
fn asr_file_sets_every_value() {
    let file = AsrFile::try_from_lines(&lines(&[
        "DisplayTypeName:Standard ES radar screen",
        "DisplayTypeNeedRadarContent:1",
        "DisplayTypeGeoReferenced:0",
        "SECTORFILE:UK\\Data\\Sector\\UK.sct",
        "SECTORTITLE:UK sector",
        "SHOWC:1",
        "SHOWSB:2",
        "BELOW:-500",
        "ABOVE:66000",
        "LEADER:3",
        "SHOWLEADER:1",
        "TURNLEADER:0",
        "HISTORY_DOTS:5",
        "SIMULATION_MODE:1",
        "DISABLEPANNING:1",
        "DISABLEZOOMING:0",
        "DisplayRotation:-1.5",
        "WINDOWAREA:54.5:-6.5:55.0:-5.75",
        "Airports:EGAA:symbol",
        "Free Text:Stands\\12:freetext",
        "PLUGIN:whatever",
        "",
    ]))
    .unwrap();
    assert_eq!(file.sector_file, "UK\\Data\\Sector\\UK.sct");
    let asr = &file.asr;
    assert_eq!(asr.name, "");
    assert_eq!(asr.sector_file_id, None);
    assert_eq!(asr.display_type_name, "Standard ES radar screen");
    assert!(asr.display_type_need_radar_content);
    assert!(!asr.display_type_geo_reference);
    assert_eq!(asr.sector_title, "UK sector");
    assert!(asr.show_c);
    assert!(asr.shows_b);
    assert_eq!(asr.below, -500);
    assert_eq!(asr.above, 66000);
    assert_eq!(asr.leader, 3);
    assert!(asr.show_leader);
    assert!(!asr.turn_leader);
    assert_eq!(asr.history_dots, 5);
    assert_eq!(asr.simulation_mode, 1);
    assert!(asr.disable_panning);
    assert!(!asr.disable_zooming);
    assert_eq!(asr.display_rotation, -1_500_000_000);
    assert_eq!(
        asr.window_area,
        (
            Position { lat: 54_500_000_000, lon: -6_500_000_000 },
            Position { lat: 55 * DEG, lon: -5_750_000_000 }
        )
    );
    assert_eq!(asr.display_items.len(), 2);
    assert_eq!(asr.display_items[0].item_type, SymbologyItemType::Airports);
    assert_eq!(asr.display_items[0].name, "EGAA");
    assert_eq!(asr.display_items[0].attribute, "symbol");
    assert_eq!(asr.display_items[1].item_type, SymbologyItemType::Label);
    assert_eq!(asr.display_items[1].name, "Stands\\12");
}

#[test]
fn asr_file_is_refused_at_its_first_bad_line() {
    let read = |text: &[&str]| AsrFile::try_from_lines(&lines(text)).err();
    assert_eq!(read(&[]), None);
    assert_eq!(read(&["DisplayTypeName"]), Some(ValueError::MissingValue));
    assert_eq!(read(&["SECTORFILE"]), Some(ValueError::MissingValue));
    assert_eq!(read(&["SHOWC"]), Some(ValueError::MissingValue));
    assert_eq!(read(&["SHOWC:yes"]), Some(ValueError::InvalidNumber));
    assert_eq!(read(&["SHOWC:256"]), Some(ValueError::InvalidNumber));
    assert_eq!(read(&["BELOW"]), Some(ValueError::MissingValue));
    assert_eq!(read(&["BELOW:2147483648"]), Some(ValueError::InvalidNumber));
    assert_eq!(read(&["HISTORY_DOTS:-1"]), Some(ValueError::InvalidNumber));
    assert_eq!(read(&["DisplayRotation:north"]), Some(ValueError::InvalidNumber));
    assert_eq!(read(&["WINDOWAREA:1:2:3"]), Some(ValueError::MissingValue));
    assert_eq!(read(&["WINDOWAREA:1:2:3:x"]), Some(ValueError::InvalidNumber));
    assert_eq!(read(&["Airports:EGAA"]), Some(ValueError::MissingValue));
    assert_eq!(read(&["SHOWC:1", "SHOWC:x", "SHOWC"]), Some(ValueError::InvalidNumber));
    assert_eq!(AsrKey::from_lower("below"), AsrKey::Below);
    assert_eq!(AsrKey::from_lower("BELOW"), AsrKey::Nothing);
    assert_eq!(AsrKey::from_lower("geo"), AsrKey::Item(SymbologyItemType::Geo));
}

#[test]
fn symbol_is_drawn_from_its_commands() {
    let icon = SymbolIcon::try_from_es_symbol_icon(
        2,
        lines(&[
            "MOVETO -3 -3",
            "LINETO 3 -3",
            "LINETO 0 4",
            "SETPIXEL 0 0",
            "POLYGON -1 -1 1 -1 0 2 9",
            "ARC 1 2 6 0 360",
            "FILLARC 0 0 2 -90 90",
            "NOTHING 1 2",
            "",
            "LINETO 5 5",
        ]),
    )
    .unwrap();
    assert_eq!(icon.symbol_type, "vors");
    assert_eq!(
        icon.draw_items,
        vec![
            SymbolDrawItem::Line { start: (-3, 3), end: (3, 3) },
            SymbolDrawItem::Line { start: (3, 3), end: (0, -4) },
            SymbolDrawItem::SetPixel((0, 0)),
            SymbolDrawItem::Polygon(vec![(-1, 1), (1, 1), (0, -2)]),
            SymbolDrawItem::Arc {
                center: (1, -2),
                radius: 6,
                inner_radius: 0,
                start_angle: 0,
                end_angle: 360,
                fill: false
            },
            SymbolDrawItem::Arc {
                center: (0, 0),
                radius: 2,
                inner_radius: 0,
                start_angle: -90,
                end_angle: 90,
                fill: true
            },
            SymbolDrawItem::Line { start: (0, -2), end: (5, -5) },
        ]
    );
}

#[test]
fn symbol_without_commands_is_empty() {
    let icon = SymbolIcon::try_from_es_symbol_icon(200, Vec::new()).unwrap();
    assert_eq!(icon.symbol_type, "unknown");
    assert!(icon.draw_items.is_empty());
    let icon = SymbolIcon::try_from_es_symbol_icon(0, lines(&["POLYGON", "POLYGON 1"])).unwrap();
    assert_eq!(
        icon.draw_items,
        vec![SymbolDrawItem::Polygon(vec![]), SymbolDrawItem::Polygon(vec![])]
    );
}

#[test]
fn symbol_names_by_number() {
    let names = [
        "airports", "ndbs", "vors", "fixes", "aircraft_stby", "aircraft_prim",
        "aircraft_corr_sec_a+c", "aircraft_corr_sec_s", "aircraft_corr_prim_a+c",
        "aircraft_corr_prim_s", "aircraft_corr_a+c_ident", "aircraft_corr_s_ident",
        "aircraft_flt_plan", "aircraft_coast", "history_dot", "aircraft_ground",
        "aircraft_uncorr_sec_a+c", "aircraft_uncorr_sec_s", "aircraft_uncorr_prim_a+c",
        "aircraft_uncorr_prim_s", "aircraft_uncorr_a+c_ident", "aircraft_uncorr_s_ident",
        "ground_vehicle", "ground_rotorcraft",
    ];
    for (index, name) in names.iter().enumerate() {
        assert_eq!(icon_name_of(index as u8), *name);
    }
    assert_eq!(icon_name_of(24), "unknown");
    assert_eq!(icon_name_of(255), "unknown");
}

#[test]
fn symbol_commands_that_are_refused() {
    let draw = |text: &[&str]| SymbolIcon::try_from_es_symbol_icon(0, lines(text)).err();
    assert_eq!(draw(&["MOVETO"]), Some(ValueError::MissingValue));
    assert_eq!(draw(&["MOVETO 1"]), Some(ValueError::MissingValue));
    assert_eq!(draw(&["MOVETO  1 2"]), Some(ValueError::InvalidNumber));
    assert_eq!(draw(&["LINETO 1 x"]), Some(ValueError::InvalidNumber));
    assert_eq!(draw(&["LINETO 128 1"]), Some(ValueError::InvalidNumber));
    assert_eq!(draw(&["LINETO -128 127"]), None);
    assert_eq!(draw(&["LINETO 1 -128"]), Some(ValueError::InvalidNumber));
    assert_eq!(draw(&["SETPIXEL 1"]), Some(ValueError::MissingValue));
    assert_eq!(draw(&["POLYGON 1 2 3 x"]), Some(ValueError::InvalidNumber));
    assert_eq!(draw(&["POLYGON 1 2 3 x 5"]), Some(ValueError::InvalidNumber));
    assert_eq!(draw(&["ARC 1 2 3 4"]), Some(ValueError::MissingValue));
    assert_eq!(draw(&["ARC 1 2 3 40000 5"]), Some(ValueError::InvalidNumber));
    assert_eq!(draw(&["FILLARC 1 2 300 4 5"]), Some(ValueError::InvalidNumber));
    assert_eq!(draw(&["MOVETO 1 1", "LINETO x", "MOVETO"]), Some(ValueError::InvalidNumber));
    assert_eq!(draw(&["moveto"]), None);
}

#[test]
fn text_alignment_by_number() {
    let all = [
        TextAlign::TopLeft,
        TextAlign::CenterRight,
        TextAlign::BottomLeft,
        TextAlign::TopCenter,
        TextAlign::CenterCenter,
        TextAlign::BottomCenter,
        TextAlign::TopRight,
        TextAlign::CenterRight,
        TextAlign::BottomRight,
        TextAlign::TopLeft,
    ];
    for (value, align) in all.iter().enumerate() {
        assert_eq!(TextAlign::from(value as u8), *align);
    }
    assert_eq!(TextAlign::from(255), TextAlign::TopLeft);
    assert_eq!(TextAlign::default(), TextAlign::TopLeft);
    assert_eq!(AtcDisplayBackground::default(), AtcDisplayBackground::Blank);
}

#[test]
fn line_styles_by_number() {
    let names = ["solid", "dash", "dot", "dash-dot", "dash-dot-dot", "solid"];
    for (value, name) in names.iter().enumerate() {
        assert_eq!(es_line_type_to_string(value as u8), *name);
    }
    assert_eq!(es_line_type_to_string(200), "solid");
}

#[test]
fn colours_as_web_pages_write_them() {
    assert_eq!(Colour { r: 255, g: 0, b: 0 }.to_hex(), "#FF0000");
    assert_eq!(Colour { r: 0, g: 92, b: 115 }.to_hex(), "#005C73");
    assert_eq!(Colour { r: 1, g: 35, b: 69 }.to_hex(), "#012345");
    assert_eq!(Colour { r: 103, g: 137, b: 171 }.to_hex(), "#6789AB");
    assert_eq!(Colour { r: 205, g: 239, b: 9 }.to_hex(), "#CDEF09");
    for n in 0u32..=255 {
        let c = Colour { r: n as u8, g: (255 - n) as u8, b: (n * 7 % 256) as u8 };
        assert_eq!(c.to_hex(), format!("#{:02X}{:02X}{:02X}", c.r, c.g, c.b));
    }
}

fn item(kind: SymbologyItemType, name: &str, attribute: &str) -> DisplayItem {
    DisplayItem { item_type: kind, name: name.to_string(), attribute: attribute.to_string() }
}

#[test]
fn display_lists_each_symbol_once() {
    let shown = display_items_from_asr(
        "UK.sct",
        &vec![
            item(SymbologyItemType::Airports, "EGAA", "symbol"),
            item(SymbologyItemType::Fixes, "MAGEE", "name"),
            item(SymbologyItemType::Airports, "EGAA", "name"),
            item(SymbologyItemType::Vors, "BEL", "other"),
            item(SymbologyItemType::Ndbs, "OY", "symbol"),
            item(SymbologyItemType::Ndbs, "OY", "symbol"),
        ],
    );
    let symbol = |id: &str, show_symbol: bool, show_label: bool| AtcDisplayItem::Symbol {
        id: id.to_string(),
        show_symbol,
        show_label,
    };
    assert_eq!(
        shown,
        vec![
            symbol("UK.sct_airports_EGAA", true, true),
            symbol("UK.sct_fixes_MAGEE", false, true),
            symbol("UK.sct_vors_BEL", false, false),
            symbol("UK.sct_ndbs_OY", true, false),
        ]
    );
}

#[test]
fn display_lists_maps_and_groups_of_free_text() {
    let shown = display_items_from_asr(
        "S",
        &vec![
            item(SymbologyItemType::Geo, "Coast", "line"),
            item(SymbologyItemType::Geo, "Coast", "line"),
            item(SymbologyItemType::Label, "Stands\\12", "freetext"),
            item(SymbologyItemType::Label, "Stands\\14", "freetext"),
            item(SymbologyItemType::Label, "Gates", "freetext"),
            item(SymbologyItemType::Label, "Gates\\A\\B", "freetext"),
            item(SymbologyItemType::Label, "Other", "name"),
            item(SymbologyItemType::Runways, "EGAA 07", "centerline"),
            item(SymbologyItemType::Region, "Apron", "polygon"),
            item(SymbologyItemType::Sids, "EGAA 25 MAGEE1A", "line"),
        ],
    );
    let map = |id: &str| AtcDisplayItem::MapItem { id: id.to_string(), visible: true };
    assert_eq!(
        shown,
        vec![
            map("S_geo_Coast"),
            map("S_geo_Coast"),
            map("S_free_text_Stands"),
            map("S_free_text_Gates"),
            map("S_regions_Apron"),
            map("S_sids_EGAA 25 MAGEE1A"),
        ]
    );
    assert!(display_items_from_asr("S", &Vec::new()).is_empty());
    assert_eq!(make_item_id("a", SymbologyItemType::ArtccHighBoundary, "b c"), "a_artcc_high_b c");
}

#[test]
fn package_position_starts_empty() {
    let p = AtcPosition::default();
    assert_eq!(p.name, "");
    assert_eq!(p.radio_name, None);
    assert_eq!(p.callsign, None);
    assert_eq!(p.frequency, None);
    assert!(p.tranceivers.is_empty());
    assert!(p.display_configs.is_empty());
    assert_eq!(PositionDisplayConfig::default().display_type, "");
}

#[test]
fn value_errors_have_words() {
    assert_eq!(ValueError::MissingValue.to_string(), "Missing value");
    assert_eq!(ValueError::InvalidNumber.to_string(), "Invalid number");
}

#[test]
fn asr_setting_is_read_for_a_known_key() {
    assert!(matches!(
        read_setting_for(AsrKey::Below, "whatever:-12"),
        Ok(Setting::Signed(AsrKey::Below, -12))
    ));
    assert!(matches!(
        read_setting_for(AsrKey::ShowC, "SHOWC:0"),
        Ok(Setting::Flag(AsrKey::ShowC, false))
    ));
    assert!(matches!(
        read_setting_for(AsrKey::HistoryDots, "x:7"),
        Ok(Setting::Unsigned(AsrKey::HistoryDots, 7))
    ));
    assert!(matches!(read_setting_for(AsrKey::DisplayRotation, "x:2.5"), Ok(Setting::Rotation(2_500_000_000))));
    assert!(matches!(read_setting_for(AsrKey::Nothing, "x"), Ok(Setting::Nothing)));
    assert!(matches!(read_setting_for(AsrKey::Above, "x"), Err(ValueError::MissingValue)));
    assert!(matches!(read_setting("Above:1:2"), Ok(Setting::Signed(AsrKey::Above, 1))));
    assert!(matches!(read_setting("sectortitle:UK:rest"), Ok(Setting::Text(AsrKey::SectorTitle, _))));
    assert!(matches!(read_setting("GEO:Coast:line"), Ok(Setting::Item(_))));
    let mut file = AsrFile::new();
    file.apply(Setting::Text(AsrKey::Below, "ignored".to_string()));
    file.apply(Setting::Flag(AsrKey::SectorFile, true));
    file.apply(Setting::Signed(AsrKey::Leader, -3));
    assert_eq!(file.asr.leader, -3);
    assert_eq!(file.asr.below, 0);
    assert_eq!(file.sector_file, "");
}

#[test]
fn symbology_line_is_taken_by_its_key_in_lower_case() {
    let mut info = SymbologyInfo::new("s".to_string());
    info.parse_keyed_line("geo", "GEO:line:255:1:2:3:4").unwrap();
    info.parse_keyed_line("m_cliparea", "anything:9").unwrap();
    info.parse_keyed_line("GEO", "GEO:line:255:1:2:3:4").unwrap();
    info.parse_keyed_line("M_CLIPAREA", "m_cliparea:1").unwrap();
    assert_eq!(info.clipping_area, 9);
    assert_eq!(info.symbols.len(), 1);
    assert_eq!(info.symbols[0].name, "GEO");
    assert_eq!(info.symbols[0].defs.len(), 1);
    assert_eq!(info.parse_keyed_line("geo", "GEO:line"), Err(ValueError::MissingValue));
}
