use sct_reader::loaders::euroscope::colour::{Colour, ColourTable};
use sct_reader::loaders::euroscope::error::Error;
use sct_reader::loaders::euroscope::partial::sector_info::PartialSectorInfo;
use sct_reader::loaders::euroscope::partial::{
    parse_runway_identifier, ArtccOrAirwayLineType, BeaconType, PartialSector, PositionCreator,
    SidStarType,
};
use sct_reader::loaders::euroscope::position::{coord_from_es, Heading, Position};
use sct_reader::loaders::euroscope::waypoint::RunwayModifier;
use sct_reader::loaders::euroscope::AirspaceClass;

const DEG: i64 = 1_000_000_000;

#[test]
fn runway_identifiers_from_00_to_36_with_every_modifier() {
    let modifiers = [
        ("", RunwayModifier::Unmarked),
        ("L", RunwayModifier::Left),
        ("C", RunwayModifier::Centre),
        ("R", RunwayModifier::Right),
        ("G", RunwayModifier::Grass),
    ];
    for n in 0u8..=36 {
        for (letter, modifier) in modifiers.iter() {
            let text = format!("{:02}{}", n, letter);
            let expected = if n == 0 { 36 } else { n };
            assert_eq!(parse_runway_identifier(&text), Ok((expected, *modifier)));
        }
    }
}

#[test]
fn runway_identifier_zero_is_thirty_six() {
    assert_eq!(parse_runway_identifier("0"), Ok((36, RunwayModifier::Unmarked)));
    assert_eq!(parse_runway_identifier("00"), Ok((36, RunwayModifier::Unmarked)));
    assert_eq!(parse_runway_identifier("9R"), Ok((9, RunwayModifier::Right)));
    assert_eq!(parse_runway_identifier("+7"), Ok((7, RunwayModifier::Unmarked)));
}

#[test]
fn runway_identifier_above_36_is_refused() {
    for n in 37u32..=300 {
        for letter in ["", "L", "C", "R", "G"] {
            let text = format!("{}{}", n, letter);
            assert_eq!(parse_runway_identifier(&text), Err(Error::InvalidRunway));
        }
    }
}

#[test]
fn runway_identifier_malformed_is_refused() {
    for text in ["", "L", "R", "2X", "X2", "-1", "1 2", "27LX", "١٢"] {
        assert_eq!(parse_runway_identifier(text), Err(Error::InvalidRunway));
    }
}

#[test]
fn runway_identifier_takes_every_trailing_modifier_letter_away() {
    assert_eq!(parse_runway_identifier("09LR"), Ok((9, RunwayModifier::Right)));
    assert_eq!(parse_runway_identifier("18GC"), Ok((18, RunwayModifier::Centre)));
}

#[test]
fn coordinates_in_degrees_minutes_seconds() {
    assert_eq!(coord_from_es("N043.34.13.000"), Some(43_570_277_777));
    assert_eq!(coord_from_es("W000.26.48.000"), Some(-446_666_666));
    assert_eq!(coord_from_es("S010.30.00.000"), Some(-10_500_000_000));
    assert_eq!(coord_from_es("E020.30.00.000"), Some(20_500_000_000));
    assert_eq!(coord_from_es("n001.00.00.000"), Some(DEG));
    assert_eq!(coord_from_es("N000.00.00.001"), Some(277));
    assert_eq!(coord_from_es("N000.00.00.5"), Some(138_888));
    assert_eq!(coord_from_es("N000.00.01.0009"), Some(277_777));
}

#[test]
fn coordinates_as_decimal_degrees() {
    assert_eq!(coord_from_es("10"), Some(10 * DEG));
    assert_eq!(coord_from_es("20"), Some(20 * DEG));
    assert_eq!(coord_from_es("0.5"), Some(500_000_000));
    assert_eq!(coord_from_es("-12.25"), Some(-12_250_000_000));
    assert_eq!(coord_from_es("+.5"), Some(500_000_000));
    assert_eq!(coord_from_es("5."), Some(5 * DEG));
    assert_eq!(coord_from_es("0.0000000019"), Some(1));
    assert_eq!(coord_from_es("4294967295.999999999"), Some(4_294_967_295_999_999_999));
}

#[test]
fn coordinates_that_are_malformed() {
    for text in [
        "", "-", "+", ".", "N", "N043", "N043.34", "N043.34.13", "N043.34.13.", "N043.34.13.000.1",
        "N04a.34.13.000", "X043.34.13.000", "1e3", "1.2.3", "0x10", "4294967296", "N.1.1.1",
        "N4294967296.0.0.0", " 10", "10 ",
    ] {
        assert_eq!(coord_from_es(text), None, "{text:?}");
    }
}

#[test]
fn position_from_two_tokens() {
    assert_eq!(
        Position::try_new_from_es("N010.00.00.000", "E020.00.00.000"),
        Ok(Position { lat: 10 * DEG, lon: 20 * DEG })
    );
    assert_eq!(Position::try_new_from_es("N010", "E020.00.00.000"), Err(Error::InvalidCoordinate));
    assert_eq!(Position::try_new_from_es("N010.00.00.000", "east"), Err(Error::InvalidCoordinate));
}

#[test]
fn validation_keeps_positions_on_the_globe() {
    let ok = Position::new(90 * DEG, -180 * DEG).validate().unwrap();
    assert_eq!((ok.lat(), ok.lon()), (90 * DEG, -180 * DEG));
    assert_eq!(ok.unvalidated(), Position { lat: 90 * DEG, lon: -180 * DEG });
    assert_eq!(Position::new(90 * DEG + 1, 0).validate(), Err(Error::InvalidPosition));
    assert_eq!(Position::new(-90 * DEG - 1, 0).validate(), Err(Error::InvalidPosition));
    assert_eq!(Position::new(0, 180 * DEG + 1).validate(), Err(Error::InvalidPosition));
    assert_eq!(Position::new(0, -180 * DEG - 1).validate(), Err(Error::InvalidPosition));
}

#[test]
fn offsets_are_added_and_held_to_the_range() {
    let p = Position::new(10, 20).apply_offset(3, 4);
    assert_eq!(p, Position { lat: 14, lon: 23 });
    let far = Position::new(i64::MAX, i64::MIN).apply_offset(-1, 1);
    assert_eq!(far, Position { lat: i64::MAX, lon: i64::MIN });
}

#[test]
fn headings_wrap_into_one_turn() {
    assert_eq!(Heading::new(0).value(), 0);
    assert_eq!(Heading::new(360 * DEG).value(), 0);
    assert_eq!(Heading::new(370 * DEG).value(), 10 * DEG);
    assert_eq!(Heading::new(-10 * DEG).value(), 350 * DEG);
    assert_eq!(Heading::new(-1).value(), 360 * DEG - 1);
    assert_eq!(Heading::new(-720 * DEG).value(), 0);
    assert_eq!(Heading::new(i64::MIN).value(), 360 * DEG - (i64::MAX % (360 * DEG)) - 1);
}

#[test]
fn offset_by_two_points_equals_offset_by_numbers() {
    let mut by_points = PartialSector::new();
    by_points
        .parse_offset("OFFSET N010.00.00.000 E020.00.00.000 N010.30.00.000 E020.30.00.000")
        .unwrap();
    let mut by_numbers = PartialSector::new();
    by_numbers.parse_offset("OFFSET 0.5 0.5").unwrap();
    assert_eq!(by_points.position_creator.offset(), (500_000_000, 500_000_000));
    assert_eq!(by_points.position_creator, by_numbers.position_creator);

    let mut decimal_points = PartialSector::new();
    decimal_points.parse_offset("OFFSET 10.0 20.0 10.5 20.5").unwrap();
    assert_eq!(decimal_points.position_creator, by_numbers.position_creator);
}

#[test]
fn offset_numbers_are_north_then_east() {
    let mut sector = PartialSector::new();
    sector.parse_offset("OFFSET 1.5 -2").unwrap();
    assert_eq!(sector.position_creator, PositionCreator { x_offset: -2 * DEG, y_offset: 1_500_000_000 });
    sector.parse_fixes_line("ABC N010.00.00.000 E020.00.00.000").unwrap();
    assert_eq!(sector.fixes[0].position.lat(), 11_500_000_000);
    assert_eq!(sector.fixes[0].position.lon(), 18 * DEG);
}

#[test]
fn offset_by_two_points_does_not_depend_on_the_offset_in_force() {
    let mut sector = PartialSector::new();
    sector.parse_offset("OFFSET 3 4").unwrap();
    sector.parse_offset("OFFSET 10 20 11 22").unwrap();
    assert_eq!(sector.position_creator.offset(), (2 * DEG, DEG));
}

#[test]
fn offset_with_bad_arguments() {
    let mut sector = PartialSector::new();
    sector.parse_offset("OFFSET 1 2").unwrap();
    for line in ["OFFSET", "OFFSET 1", "OFFSET 1 2 3", "OFFSET 1 2 3 4 5", "OFFSET a 2", "OFFSET 1 b"] {
        assert_eq!(sector.parse_offset(line), Err(Error::InvalidOffset), "{line}");
    }
    assert_eq!(sector.parse_offset("OFFSET N1 2 3 4"), Err(Error::InvalidCoordinate));
    assert_eq!(sector.parse_offset("OFFSET 1 2 3 x"), Err(Error::InvalidCoordinate));
    assert_eq!(sector.position_creator.offset(), (2 * DEG, DEG));
}

#[test]
fn colour_is_unpacked_from_red_green_blue() {
    assert_eq!(Colour::from_u32(16711680), Colour { r: 255, g: 0, b: 0 });
    assert_eq!(Colour::from_u32(0x00FF00), Colour { r: 0, g: 255, b: 0 });
    assert_eq!(Colour::from_u32(0x0000FF), Colour { r: 0, g: 0, b: 255 });
    assert_eq!(Colour::from_u32(0x12345678), Colour { r: 0x34, g: 0x56, b: 0x78 });
    assert_eq!(Colour::from_str("16711680"), Ok(Colour { r: 255, g: 0, b: 0 }));
    assert_eq!(Colour::from_str("+255"), Ok(Colour { r: 0, g: 0, b: 255 }));
    assert_eq!(Colour::from_str("4294967295"), Ok(Colour { r: 255, g: 255, b: 255 }));
    assert_eq!(Colour::default(), Colour { r: 0, g: 0, b: 0 });
    for text in ["", "red", "-1", "4294967296", "12.5", "0xFF"] {
        assert_eq!(Colour::from_str(text), Err(Error::InvalidColourDefinition));
    }
}

#[test]
fn colour_by_name_after_its_definition() {
    let mut sector = PartialSector::new();
    let line = "N010.00.00.000 E020.00.00.000 N011.00.00.000 E021.00.00.000";
    let token: Vec<char> = "FOO".chars().collect();
    assert_eq!(sector.try_fetch_or_decode_colour(&token), None);
    sector.parse_geo_line(&format!("Coast {line} FOO")).unwrap();
    assert_eq!(sector.geo_entries.len(), 1);
    assert_eq!(sector.geo_entries[0].name, "Coast N010.00.00.000");
    assert!(sector.geo_entries[0].lines.is_empty());
    sector.parse_colour_line("#define FOO 16711680").unwrap();
    assert_eq!(sector.try_fetch_or_decode_colour(&token), Some(Colour { r: 255, g: 0, b: 0 }));
    sector.parse_geo_line(&format!("Coast {line} FOO")).unwrap();
    assert_eq!(sector.geo_entries.len(), 2);
    assert_eq!(sector.geo_entries[1].name, "Coast");
    assert_eq!(sector.geo_entries[1].lines[0].colour, Some(Colour { r: 255, g: 0, b: 0 }));
    sector.parse_geo_line(&format!("{line} foo")).unwrap();
    assert_eq!(sector.geo_entries[1].lines[1].colour, Some(Colour { r: 255, g: 0, b: 0 }));
}

#[test]
fn colour_names_are_kept_in_lower_case() {
    let mut sector = PartialSector::new();
    sector.parse_colour_line("#define COLOR_AoRcenter1 255").unwrap();
    assert_eq!(sector.colours.len(), 1);
    assert_eq!(sector.colours.entries()[0].name, "color_aorcenter1");
    assert_eq!(
        sector.colours.get(&"color_aorcenter1".to_string()),
        Some(Colour { r: 0, g: 0, b: 255 })
    );
    assert_eq!(sector.colours.get(&"COLOR_AoRcenter1".to_string()), None);
    let token: Vec<char> = "Color_AORCENTER1".chars().collect();
    assert_eq!(sector.colours.resolve(&token), Some(Colour { r: 0, g: 0, b: 255 }));
}

#[test]
fn colour_number_goes_before_a_name_of_the_same_characters() {
    let mut table = ColourTable::new();
    table.insert("255".to_string(), Colour { r: 1, g: 2, b: 3 });
    let token: Vec<char> = "255".chars().collect();
    assert_eq!(table.resolve(&token), Some(Colour { r: 0, g: 0, b: 255 }));
    assert_eq!(table.get(&"255".to_string()), Some(Colour { r: 1, g: 2, b: 3 }));
}

#[test]
fn colour_defined_twice_keeps_the_last() {
    let mut sector = PartialSector::new();
    sector.parse_colour_line("#define sea 1").unwrap();
    sector.parse_colour_line("#define land 2").unwrap();
    sector.parse_colour_line("#define SEA 3").unwrap();
    assert_eq!(sector.colours.len(), 2);
    assert_eq!(sector.colours.get(&"sea".to_string()), Some(Colour { r: 0, g: 0, b: 3 }));
    assert_eq!(sector.colours.get(&"land".to_string()), Some(Colour { r: 0, g: 0, b: 2 }));
}

#[test]
fn colour_definition_that_is_malformed() {
    let mut sector = PartialSector::new();
    for line in ["#define", "#define FOO", "#define FOO bar", "#define FOO -1"] {
        assert_eq!(sector.parse_colour_line(line), Err(Error::InvalidColourDefinition));
    }
    assert_eq!(sector.colours.len(), 0);
}

#[test]
fn continuation_lines_go_to_the_group_before_them() {
    let mut sector = PartialSector::new();
    sector
        .parse_artcc_or_airway_line(
            "AoR Milano ACC N043.34.13.000 E008.19.18.199 N043.42.07.000 E007.50.15.000",
            ArtccOrAirwayLineType::Artcc,
        )
        .unwrap();
    sector
        .parse_artcc_or_airway_line(
            "N043.42.07.000 E007.50.15.000 N044.00.00.000 E008.00.00.000",
            ArtccOrAirwayLineType::Artcc,
        )
        .unwrap();
    assert_eq!(sector.artcc_entries.len(), 1);
    let group = &sector.artcc_entries[0];
    assert_eq!(group.name, "AoR Milano ACC");
    assert_eq!(group.lines.len(), 2);
    assert_eq!(group.lines[0].line.start.lat(), 43_570_277_777);
    assert_eq!(group.lines[0].line.start.lon(), 8_321_721_944);
    assert_eq!(group.lines[1].line.end.lat(), 44 * DEG);
    assert_eq!(group.lines[1].line.end.lon(), 8 * DEG);
    assert_eq!(group.lines[0].colour, None);
    assert!(sector.artcc_high_entries.is_empty());
    assert!(sector.artcc_low_entries.is_empty());
}

#[test]
fn each_kind_of_boundary_has_its_own_groups() {
    let line = "A N010.00.00.000 E020.00.00.000 N011.00.00.000 E021.00.00.000";
    let mut sector = PartialSector::new();
    sector.parse_artcc_or_airway_line(line, ArtccOrAirwayLineType::ArtccHigh).unwrap();
    sector.parse_artcc_or_airway_line(line, ArtccOrAirwayLineType::ArtccLow).unwrap();
    sector.parse_artcc_or_airway_line(line, ArtccOrAirwayLineType::LowAirway).unwrap();
    sector.parse_artcc_or_airway_line(line, ArtccOrAirwayLineType::LowAirway).unwrap();
    sector.parse_artcc_or_airway_line(line, ArtccOrAirwayLineType::HighAirway).unwrap();
    assert_eq!(sector.artcc_entries.len(), 0);
    assert_eq!(sector.artcc_high_entries.len(), 1);
    assert_eq!(sector.artcc_low_entries.len(), 1);
    assert_eq!(sector.low_airways.len(), 1);
    assert_eq!(sector.low_airways[0].lines.len(), 2);
    assert_eq!(sector.high_airways.len(), 1);
}

#[test]
fn named_line_finds_its_group_again() {
    let mut sector = PartialSector::new();
    let a = "A N010.00.00.000 E020.00.00.000 N011.00.00.000 E021.00.00.000";
    let b = "B N010.00.00.000 E020.00.00.000 N011.00.00.000 E021.00.00.000";
    sector.parse_geo_line(a).unwrap();
    sector.parse_geo_line(b).unwrap();
    sector.parse_geo_line(a).unwrap();
    sector.parse_geo_line("N010.00.00.000 E020.00.00.000 N011.00.00.000 E021.00.00.000").unwrap();
    assert_eq!(sector.geo_entries.len(), 2);
    assert_eq!(sector.geo_entries[0].lines.len(), 2);
    assert_eq!(sector.geo_entries[1].lines.len(), 2);
    sector.parse_geo_line("a N010.00.00.000 E020.00.00.000 N011.00.00.000 E021.00.00.000").unwrap();
    assert_eq!(sector.geo_entries.len(), 3);
}

#[test]
fn named_line_with_bad_geometry_keeps_its_group() {
    let mut sector = PartialSector::new();
    sector
        .parse_artcc_or_airway_line(
            "Border N099.00.00.000 E020.00.00.000 N011.00.00.000 E021.00.00.000",
            ArtccOrAirwayLineType::Artcc,
        )
        .unwrap();
    assert_eq!(sector.artcc_entries.len(), 1);
    assert_eq!(sector.artcc_entries[0].name, "Border");
    assert!(sector.artcc_entries[0].lines.is_empty());
    sector
        .parse_artcc_or_airway_line("Other NOWHERE NOWHERE ELSE ELSE", ArtccOrAirwayLineType::Artcc)
        .unwrap();
    assert_eq!(sector.artcc_entries.len(), 2);
    assert!(sector.artcc_entries[1].lines.is_empty());
}

#[test]
fn unnamed_line_with_bad_geometry_is_an_error_and_changes_nothing() {
    let mut sector = PartialSector::new();
    let good = "N010.00.00.000 E020.00.00.000 N011.00.00.000 E021.00.00.000";
    sector.parse_geo_line(&format!("G {good}")).unwrap();
    assert_eq!(
        sector.parse_geo_line("N099.00.00.000 E020.00.00.000 N011.00.00.000 E021.00.00.000"),
        Err(Error::InvalidGeoEntry)
    );
    assert_eq!(sector.parse_geo_line("A B C D"), Err(Error::InvalidGeoEntry));
    assert_eq!(sector.geo_entries.len(), 1);
    assert_eq!(sector.geo_entries[0].lines.len(), 1);
}

#[test]
fn unnamed_line_without_a_group_is_an_error() {
    let good = "N010.00.00.000 E020.00.00.000 N011.00.00.000 E021.00.00.000";
    let mut sector = PartialSector::new();
    assert_eq!(
        sector.parse_artcc_or_airway_line(good, ArtccOrAirwayLineType::Artcc),
        Err(Error::InvalidArtccEntry)
    );
    assert_eq!(sector.parse_geo_line(good), Err(Error::InvalidGeoEntry));
    assert_eq!(sector.parse_sid_star_line(good, SidStarType::Sid), Err(Error::InvalidSidStarEntry));
    assert!(sector.artcc_entries.is_empty());
    assert!(sector.geo_entries.is_empty());
    assert!(sector.sid_entries.is_empty());
}

#[test]
fn lines_with_fewer_than_four_tokens_are_errors() {
    let mut sector = PartialSector::new();
    for line in ["", "A", "A B", "A B C", "N010.00.00.000 E020.00.00.000 N011.00.00.000 255"] {
        assert_eq!(
            sector.parse_artcc_or_airway_line(line, ArtccOrAirwayLineType::HighAirway),
            Err(Error::InvalidArtccEntry)
        );
        assert_eq!(sector.parse_geo_line(line), Err(Error::InvalidGeoEntry));
    }
    for line in ["", "A", "A B", "A B C"] {
        assert_eq!(
            sector.parse_sid_star_line(line, SidStarType::Star),
            Err(Error::InvalidSidStarEntry)
        );
    }
}

#[test]
fn ends_of_lines_may_be_named_places() {
    let mut sector = PartialSector::new();
    sector.parse_fixes_line("ABCDE N010.00.00.000 E020.00.00.000").unwrap();
    sector.parse_vor_or_ndb_line("LON 113.600 N051.00.00.000 W000.30.00.000", BeaconType::Vor).unwrap();
    sector.parse_vor_or_ndb_line("CHT 277.000 N052.00.00.000 W001.00.00.000", BeaconType::Ndb).unwrap();
    sector.parse_airport_line("EGLL 118.500 N051.28.39.000 W000.27.41.000 D").unwrap();
    sector.parse_offset("OFFSET 1 1").unwrap();
    sector
        .parse_artcc_or_airway_line("UL9 ABCDE ABCDE LON LON", ArtccOrAirwayLineType::HighAirway)
        .unwrap();
    sector
        .parse_artcc_or_airway_line("CHT CHT EGLL EGLL", ArtccOrAirwayLineType::HighAirway)
        .unwrap();
    let lines = &sector.high_airways[0].lines;
    assert_eq!(lines.len(), 2);
    assert_eq!((lines[0].line.start.lat(), lines[0].line.start.lon()), (10 * DEG, 20 * DEG));
    assert_eq!((lines[0].line.end.lat(), lines[0].line.end.lon()), (51 * DEG, -500_000_000));
    assert_eq!((lines[1].line.start.lat(), lines[1].line.start.lon()), (52 * DEG, -DEG));
    assert_eq!(lines[1].line.end.lat(), sector.airports[0].position.lat());
}

#[test]
fn named_places_are_asked_in_the_order_fix_vor_ndb_airport() {
    let mut sector = PartialSector::new();
    sector.parse_airport_line("SAME 118.500 N004.00.00.000 E004.00.00.000 A").unwrap();
    let token: Vec<char> = "SAME".chars().collect();
    let at = |s: &PartialSector| s.try_fetch_or_decode_lat_lon(&token, &token).map(|p| p.lat);
    assert_eq!(at(&sector), Some(4 * DEG));
    sector.parse_vor_or_ndb_line("SAME 277.000 N003.00.00.000 E003.00.00.000", BeaconType::Ndb).unwrap();
    assert_eq!(at(&sector), Some(3 * DEG));
    sector.parse_vor_or_ndb_line("SAME 113.600 N002.00.00.000 E002.00.00.000", BeaconType::Vor).unwrap();
    assert_eq!(at(&sector), Some(2 * DEG));
    sector.parse_fixes_line("SAME N001.00.00.000 E001.00.00.000").unwrap();
    assert_eq!(at(&sector), Some(DEG));
    sector.parse_fixes_line("SAME N009.00.00.000 E009.00.00.000").unwrap();
    assert_eq!(at(&sector), Some(DEG));
    let lower: Vec<char> = "same".chars().collect();
    assert_eq!(sector.try_fetch_or_decode_lat_lon(&lower, &lower), None);
    assert_eq!(sector.position_of(&"SAME".to_string()).map(|p| p.lat()), Some(DEG));
    assert!(sector.position_of(&"NONE".to_string()).is_none());
}

#[test]
fn sid_line_of_four_tokens_never_has_a_colour() {
    let mut sector = PartialSector::new();
    sector
        .parse_sid_star_line(
            "EGLL 27L CPT N010.00.00.000 E020.00.00.000 N011.00.00.000 E021.00.00.000",
            SidStarType::Sid,
        )
        .unwrap();
    sector.parse_colour_line("#define E021.00.00.000 255").unwrap();
    sector
        .parse_sid_star_line(
            "N011.00.00.000 E021.00.00.000 N012.00.00.000 E021.00.00.000",
            SidStarType::Sid,
        )
        .unwrap();
    assert_eq!(sector.sid_entries.len(), 1);
    assert_eq!(sector.sid_entries[0].name, "EGLL 27L CPT");
    assert_eq!(sector.sid_entries[0].lines.len(), 2);
    assert_eq!(sector.sid_entries[0].lines[1].colour, None);
    assert_eq!(sector.sid_entries[0].lines[1].line.end.lon(), 21 * DEG);
    assert!(sector.star_entries.is_empty());
}

#[test]
fn star_line_of_five_tokens_with_a_colour_is_a_continuation() {
    let mut sector = PartialSector::new();
    sector
        .parse_sid_star_line(
            "EGLL BIG1A N010.00.00.000 E020.00.00.000 N011.00.00.000 E021.00.00.000 255",
            SidStarType::Star,
        )
        .unwrap();
    sector
        .parse_sid_star_line(
            "N011.00.00.000 E021.00.00.000 N012.00.00.000 E022.00.00.000 65280",
            SidStarType::Star,
        )
        .unwrap();
    assert_eq!(sector.star_entries.len(), 1);
    assert_eq!(sector.star_entries[0].name, "EGLL BIG1A");
    assert_eq!(sector.star_entries[0].lines[0].colour, Some(Colour { r: 0, g: 0, b: 255 }));
    assert_eq!(sector.star_entries[0].lines[1].colour, Some(Colour { r: 0, g: 255, b: 0 }));
}

#[test]
fn airport_line() {
    let mut sector = PartialSector::new();
    sector.parse_airport_line("EGLL 118.500 N051.28.39.000 W000.27.41.000 D").unwrap();
    let airport = &sector.airports[0];
    assert_eq!(airport.identifier, "EGLL");
    assert_eq!(airport.tower_frequency, "118.500");
    assert_eq!(airport.airspace_class, AirspaceClass::D);
    assert_eq!(airport.position.lat(), 51_477_500_000);
    assert_eq!(airport.position.lon(), -461_388_888);
    assert!(airport.runways.is_empty());
}

#[test]
fn airport_line_errors() {
    let mut sector = PartialSector::new();
    for line in ["", "EGLL", "EGLL 118.500", "EGLL 118.500 N051.28.39.000"] {
        assert_eq!(sector.parse_airport_line(line), Err(Error::InvalidWaypoint));
    }
    assert_eq!(
        sector.parse_airport_line("EGLL 118.500 N051.28.39.000 W000.27.41.000"),
        Err(Error::InvalidWaypoint)
    );
    assert_eq!(
        sector.parse_airport_line("EGLL 118.500 N051.28.39 W000.27.41.000 D"),
        Err(Error::InvalidCoordinate)
    );
    assert_eq!(
        sector.parse_airport_line("EGLL 118.500 N091.00.00.000 W000.27.41.000 D"),
        Err(Error::InvalidPosition)
    );
    for class in ["H", "d", "DD", "1"] {
        assert_eq!(
            sector.parse_airport_line(&format!("EGLL 118.500 N051.28.39.000 W000.27.41.000 {class}")),
            Err(Error::InvalidAirspaceClass)
        );
    }
    assert!(sector.airports.is_empty());
}

#[test]
fn airspace_classes() {
    let classes = [
        ("A", AirspaceClass::A),
        ("B", AirspaceClass::B),
        ("C", AirspaceClass::C),
        ("D", AirspaceClass::D),
        ("E", AirspaceClass::E),
        ("F", AirspaceClass::F),
        ("G", AirspaceClass::G),
    ];
    for (text, class) in classes {
        assert_eq!(AirspaceClass::from_str(text), Ok(class));
    }
    assert!(AirspaceClass::A < AirspaceClass::G);
    assert_eq!(AirspaceClass::from_str(""), Err(Error::InvalidAirspaceClass));
    assert_eq!(AirspaceClass::from_str("a"), Err(Error::InvalidAirspaceClass));
}

#[test]
fn beacon_lines() {
    let mut sector = PartialSector::new();
    sector.parse_vor_or_ndb_line("LON 113.600 N051.29.14.000 W000.28.00.000", BeaconType::Vor).unwrap();
    sector.parse_vor_or_ndb_line("CHT 277.000 N051.37.23.000 W000.31.07.000", BeaconType::Ndb).unwrap();
    assert_eq!(sector.vors.len(), 1);
    assert_eq!(sector.ndbs.len(), 1);
    assert_eq!(sector.vors[0].identifier, "LON");
    assert_eq!(sector.vors[0].frequency, "113.600");
    assert_eq!(sector.ndbs[0].identifier, "CHT");
    assert_eq!(sector.ndbs[0].frequency, "277.000");
    assert_eq!(
        sector.parse_vor_or_ndb_line("LON 113.600 N051.29.14.000", BeaconType::Vor),
        Err(Error::InvalidVorOrNdb)
    );
    assert_eq!(
        sector.parse_vor_or_ndb_line("LON 113.600 N051.29.14.000 W181.00.00.000", BeaconType::Ndb),
        Err(Error::InvalidPosition)
    );
    assert_eq!(
        sector.parse_vor_or_ndb_line("LON 113.600 N051.29.14.000 west", BeaconType::Ndb),
        Err(Error::InvalidCoordinate)
    );
}

#[test]
fn fix_lines() {
    let mut sector = PartialSector::new();
    sector.parse_fixes_line("ABCDE N010.00.00.000 E020.00.00.000 ignored").unwrap();
    assert_eq!(sector.fixes.len(), 1);
    assert_eq!(sector.fixes[0].identifier, "ABCDE");
    assert_eq!(sector.parse_fixes_line("ABCDE N010.00.00.000"), Err(Error::InvalidFix));
    assert_eq!(sector.parse_fixes_line(""), Err(Error::InvalidFix));
    assert_eq!(sector.parse_fixes_line("ABCDE north east"), Err(Error::InvalidCoordinate));
    assert_eq!(
        sector.parse_fixes_line("ABCDE N090.00.00.001 E020.00.00.000"),
        Err(Error::InvalidPosition)
    );
    assert_eq!(sector.fixes.len(), 1);
}

#[test]
fn runway_line_puts_the_lower_number_first() {
    let mut sector = PartialSector::new();
    sector.parse_airport_line("EGLL 118.500 N051.28.39.000 W000.27.41.000 D").unwrap();
    sector
        .parse_runway_line(
            "27L 09R 270 90.5 N051.27.53.000 W000.26.00.000 N051.27.54.000 W000.29.00.000 EGLL",
        )
        .unwrap();
    let strip = &sector.airports[0].runways[0];
    assert_eq!(strip.end_a.number, 9);
    assert_eq!(strip.end_a.modifier, RunwayModifier::Right);
    assert_eq!(strip.end_a.magnetic_hdg.value(), 90_500_000_000);
    assert_eq!(strip.end_a.td_threshold_pos.lon(), -483_333_333);
    assert_eq!(strip.end_a.se_threshold_pos.lon(), -433_333_333);
    assert_eq!(strip.end_b.number, 27);
    assert_eq!(strip.end_b.modifier, RunwayModifier::Left);
    assert_eq!(strip.end_b.magnetic_hdg.value(), 270 * DEG);
    assert_eq!(strip.end_b.td_threshold_pos.lon(), -433_333_333);
    assert_eq!(strip.end_b.se_threshold_pos.lon(), -483_333_333);

    sector
        .parse_runway_line(
            "09L 27R 360 -90 N051.27.53.000 W000.26.00.000 N051.27.54.000 W000.29.00.000 EGLL",
        )
        .unwrap();
    let strip = &sector.airports[0].runways[1];
    assert_eq!(strip.end_a.number, 9);
    assert_eq!(strip.end_a.magnetic_hdg.value(), 0);
    assert_eq!(strip.end_b.magnetic_hdg.value(), 270 * DEG);
}

#[test]
fn runway_line_errors() {
    let mut sector = PartialSector::new();
    sector.parse_airport_line("EGLL 118.500 N051.28.39.000 W000.27.41.000 D").unwrap();
    let positions = "N051.27.53.000 W000.26.00.000 N051.27.54.000 W000.29.00.000";
    for line in [
        String::new(),
        "09R".to_string(),
        format!("09R 27L 90 270 {positions}"),
        format!("09R 27L 90 270 {positions} EGKK"),
        format!("09R 27L 90 270 {positions} egll"),
        format!("37 27L 90 270 {positions} EGLL"),
        format!("09R 27X 90 270 {positions} EGLL"),
        format!("09R 27L east 270 {positions} EGLL"),
        format!("09R 27L 90 west {positions} EGLL"),
        "09R 27L 90 270 N051.27.53.000 W000.26.00.000 N051.27.54.000".to_string(),
    ] {
        assert_eq!(sector.parse_runway_line(&line), Err(Error::InvalidRunway), "{line}");
    }
    assert_eq!(
        sector.parse_runway_line("09R 27L 90 270 N051 W000.26.00.000 N051.27.54.000 W000.29.00.000 EGLL"),
        Err(Error::InvalidRunway)
    );
    assert_eq!(
        sector.parse_runway_line("09R 27L 90 270 N051.27.53.000 W000.26.00.000 N051.27.54.000 west EGLL"),
        Err(Error::InvalidRunway)
    );
    assert_eq!(
        sector.parse_runway_line("09R 27L 90 270 N051 W000.26.00.000 N051.27.54.000 W000.29.00.000 EGKK"),
        Err(Error::InvalidRunway)
    );
    assert_eq!(
        sector.parse_runway_line(
            "09R 27L 90 270 N051.27.53.000 W000.26.00.000 N091.27.54.000 W000.29.00.000 EGLL"
        ),
        Err(Error::InvalidRunway)
    );
    sector.parse_offset("OFFSET 80 0").unwrap();
    assert_eq!(
        sector.parse_runway_line(
            "09R 27L 90 270 N051.27.53.000 W000.26.00.000 N051.27.54.000 W000.29.00.000 EGLL"
        ),
        Err(Error::InvalidRunway)
    );
    assert!(sector.airports[0].runways.is_empty());
}

#[test]
fn regions_are_filed_under_the_current_name() {
    let mut sector = PartialSector::new();
    sector.parse_colour_line("#define grass 65280").unwrap();
    sector.parse_region_line("grass N010.00.00.000 E020.00.00.000").unwrap();
    sector.parse_region_line("N011.00.00.000 E020.00.00.000").unwrap();
    assert_eq!(sector.region_groups.len(), 1);
    assert_eq!(sector.region_groups[0].name, "noname");
    sector.parse_region_line("REGIONNAME Belfast City").unwrap();
    assert_eq!(sector.current_region_name, "Belfast City");
    sector.parse_region_line("255 N010.00.00.000 E020.00.00.000").unwrap();
    sector.parse_region_line("   N011.00.00.000 E021.00.00.000").unwrap();
    sector.parse_region_line("extra tokens before N012.00.00.000 E022.00.00.000").unwrap();
    sector.parse_region_line("grass N020.00.00.000 E020.00.00.000").unwrap();
    sector.parse_region_line("REGIONNAME noname").unwrap();
    sector.parse_region_line("N012.00.00.000 E020.00.00.000").unwrap();
    assert_eq!(sector.region_groups.len(), 2);
    let first = &sector.region_groups[0];
    assert_eq!(first.regions.len(), 1);
    assert_eq!(first.regions[0].colour, Some(Colour { r: 0, g: 255, b: 0 }));
    assert_eq!(first.regions[0].vertices.len(), 3);
    assert_eq!(first.regions[0].vertices[2].lat(), 12 * DEG);
    let second = &sector.region_groups[1];
    assert_eq!(second.name, "Belfast City");
    assert_eq!(second.regions.len(), 2);
    assert_eq!(second.regions[0].colour, Some(Colour { r: 0, g: 0, b: 255 }));
    assert_eq!(second.regions[0].vertices.len(), 3);
    assert_eq!(second.regions[1].vertices.len(), 1);
    assert_eq!(second.regions[1].vertices[0].lat(), 20 * DEG);
}

#[test]
fn region_that_starts_with_a_bad_corner_is_kept_empty() {
    let mut sector = PartialSector::new();
    sector.parse_region_line("255 N099.00.00.000 E020.00.00.000").unwrap();
    assert_eq!(sector.region_groups[0].regions.len(), 1);
    assert!(sector.region_groups[0].regions[0].vertices.is_empty());
}

#[test]
fn region_line_errors() {
    let mut sector = PartialSector::new();
    assert_eq!(sector.parse_region_line(""), Err(Error::InvalidRegion));
    assert_eq!(sector.parse_region_line("REGIONNAME"), Err(Error::InvalidRegion));
    assert_eq!(sector.parse_region_line("N010.00.00.000"), Err(Error::InvalidRegion));
    assert_eq!(
        sector.parse_region_line("N010.00.00.000 E020.00.00.000"),
        Err(Error::InvalidRegion)
    );
    assert_eq!(
        sector.parse_region_line("nocolour N010.00.00.000 E020.00.00.000"),
        Err(Error::InvalidRegion)
    );
    assert!(sector.region_groups.is_empty());
    sector.parse_region_line("255 N010.00.00.000 E020.00.00.000").unwrap();
    assert_eq!(sector.parse_region_line("N099.00.00.000 E020.00.00.000"), Err(Error::InvalidRegion));
    assert_eq!(sector.parse_region_line("somewhere else"), Err(Error::InvalidRegion));
    sector.parse_region_line("REGIONNAME Other").unwrap();
    assert_eq!(
        sector.parse_region_line("N011.00.00.000 E020.00.00.000"),
        Err(Error::InvalidRegion)
    );
    assert_eq!(sector.region_groups.len(), 1);
    assert_eq!(sector.region_groups[0].regions[0].vertices.len(), 1);
}

#[test]
fn labels_lose_the_quotes_around_them() {
    let mut sector = PartialSector::new();
    sector.parse_label_line("\"Stand 12 West\" N051.28.00.000 W000.27.00.000 255").unwrap();
    sector.parse_label_line("\"\"A\"B\"\" N051.28.00.000 W000.27.00.000 65280").unwrap();
    assert_eq!(sector.labels.len(), 1);
    assert_eq!(sector.labels[0].name, "SCT2");
    let labels = &sector.labels[0].labels;
    assert_eq!(labels[0].name, "Stand 12 West");
    assert_eq!(labels[0].colour, Colour { r: 0, g: 0, b: 255 });
    assert_eq!(labels[0].position.lat(), 51_466_666_666);
    assert_eq!(labels[1].name, "A\"B");
}

#[test]
fn labels_without_a_group_get_one() {
    let mut sector = PartialSector::new();
    sector.labels.clear();
    sector.parse_label_line("A N051.28.00.000 W000.27.00.000 255").unwrap();
    assert_eq!(sector.labels.len(), 1);
    assert_eq!(sector.labels[0].name, "SCT2");
    assert_eq!(sector.labels[0].labels.len(), 1);
}

#[test]
fn label_line_errors() {
    let mut sector = PartialSector::new();
    assert_eq!(sector.parse_label_line(""), Err(Error::InvalidLabel));
    assert_eq!(
        sector.parse_label_line("N051.28.00.000 W000.27.00.000 255"),
        Err(Error::InvalidLabel)
    );
    assert_eq!(
        sector.parse_label_line("A N051.28.00.000 W000.27.00.000 nocolour"),
        Err(Error::InvalidLabel)
    );
    assert_eq!(
        sector.parse_label_line("A north W000.27.00.000 255"),
        Err(Error::InvalidCoordinate)
    );
    assert_eq!(
        sector.parse_label_line("A N051.28.00.000 W181.00.00.000 255"),
        Err(Error::InvalidPosition)
    );
    assert!(sector.labels[0].labels.is_empty());
}

#[test]
fn sector_info_takes_nine_lines_and_refuses_the_tenth() {
    let mut sector = PartialSector::new();
    sector.parse_offset("OFFSET 1 2").unwrap();
    let lines = [
        "Belfast Sector",
        "EGAA_APP",
        "EGAA",
        "N054.39.27.000",
        "W006.12.57.000",
        "60",
        "34.5",
        "-2.25",
        "1",
    ];
    for line in lines {
        assert_eq!(sector.parse_sector_info_line(line), Ok(()));
    }
    assert_eq!(sector.parse_sector_info_line("one too many"), Err(Error::SectorInfoError));
    assert_eq!(sector.parse_sector_info_line("2"), Err(Error::SectorInfoError));
    let info = &sector.sector_info;
    assert_eq!(info.name.as_deref(), Some("Belfast Sector"));
    assert_eq!(info.default_callsign.as_deref(), Some("EGAA_APP"));
    assert_eq!(info.default_airport.as_deref(), Some("EGAA"));
    assert_eq!(info.default_centre_pt_lat, Some(54_657_500_000 + DEG));
    assert_eq!(info.default_centre_pt_lon, Some(-6_215_833_333 + 2 * DEG));
    assert_eq!(info.n_mi_per_deg_lat, Some(60 * DEG));
    assert_eq!(info.n_mi_per_deg_lon, Some(34_500_000_000));
    assert_eq!(info.magnetic_variation, Some(-2_250_000_000));
    assert_eq!(info.sector_scale, Some(DEG));
    assert_eq!(info.current_line, 10);
}

#[test]
fn sector_info_line_that_is_no_number_uses_up_its_place() {
    let mut info = PartialSectorInfo::new();
    let creator = PositionCreator::new();
    for line in ["name", "callsign", "airport"] {
        assert_eq!(info.parse_line(line, &creator), Ok(()));
    }
    assert_eq!(info.parse_line("not a latitude", &creator), Err(Error::SectorInfoError));
    assert_eq!(info.current_line, 4);
    assert_eq!(info.default_centre_pt_lat, None);
    assert_eq!(info.parse_line("E001.00.00.000", &creator), Ok(()));
    assert_eq!(info.default_centre_pt_lat, None);
    assert_eq!(info.default_centre_pt_lon, Some(DEG));
    assert_eq!(info.parse_line("sixty", &creator), Err(Error::SectorInfoError));
    assert_eq!(info.n_mi_per_deg_lat, None);
    assert_eq!(info.parse_line("38", &creator), Ok(()));
    assert_eq!(info.n_mi_per_deg_lat, None);
    assert_eq!(info.n_mi_per_deg_lon, Some(38 * DEG));
    assert_eq!(info.current_line, 7);
}

#[test]
fn sector_info_centre_that_is_no_coordinate_is_refused() {
    let mut info = PartialSectorInfo::default();
    let creator = PositionCreator::new();
    for line in ["Demo", "DEMO_CTR", "EGLL"] {
        assert_eq!(info.parse_line(line, &creator), Ok(()));
    }
    assert_eq!(info.parse_line("not-a-coordinate", &creator), Err(Error::SectorInfoError));
    assert_eq!(info.default_centre_pt_lat, None);
    assert_eq!(info.name.as_deref(), Some("Demo"));
    assert_eq!(info.default_callsign.as_deref(), Some("DEMO_CTR"));
    assert_eq!(info.default_airport.as_deref(), Some("EGLL"));
    assert_eq!(info.parse_line("", &creator), Err(Error::SectorInfoError));
    assert_eq!(info.default_centre_pt_lon, None);
    assert_eq!(info.current_line, 5);
    assert_eq!(info.parse_line("60", &creator), Ok(()));
    assert_eq!(info.n_mi_per_deg_lat, Some(60 * DEG));
}

#[test]
fn every_error_has_words() {
    let all = [
        (Error::MissingMetadata, "Missing metadata"),
        (Error::IoError, "Unable to read the source"),
        (Error::InvalidColourDefinition, "Invalid colour definition"),
        (Error::InvalidFileSection, "Invalid file section"),
        (Error::InvalidCoordinate, "Invalid coordinate"),
        (Error::SectorInfoError, "Sector information error"),
        (Error::InvalidAirspaceClass, "Invalid airspace class"),
        (Error::InvalidWaypoint, "Invalid waypoint"),
        (Error::InvalidPosition, "Invalid position"),
        (Error::InvalidRunway, "Invalid runway"),
        (Error::InvalidHeading, "Invalid heading"),
        (Error::InvalidVorOrNdb, "Invalid VOR or NDB"),
        (Error::InvalidFix, "Invalid fix"),
        (Error::InvalidArtccEntry, "Invalid ARTCC entry"),
        (Error::InvalidSidStarEntry, "Invalid SID / STAR entry"),
        (Error::InvalidGeoEntry, "Invalid geo Entry"),
        (Error::InvalidRegion, "Invalid region"),
        (Error::InvalidLabel, "Invalid label"),
        (Error::InvalidOffset, "Invalid offset"),
        (Error::InvalidFreetext, "Invalid freetext"),
        (Error::InvalidAtcPosition, "Invalid ATC position"),
    ];
    for (error, words) in all {
        assert_eq!(error.to_string(), words);
    }
}
