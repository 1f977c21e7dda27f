use sct_reader::loaders::ese::partial::PartialEse;
use sct_reader::loaders::ese::reader::{EseReader, EseState, FileSection};
use sct_reader::loaders::ese::{ProcedureType, RunwayIdentifier};
use sct_reader::loaders::euroscope::colour::Colour;
use sct_reader::loaders::euroscope::error::Error;
use sct_reader::loaders::euroscope::waypoint::RunwayModifier;

const DEG: i64 = 1_000_000_000;

fn lines(text: &[&str]) -> Vec<String> {
    text.iter().map(|l| l.to_string()).collect()
}

#[test]
fn free_text_without_a_group_goes_to_default() {
    let mut ese = PartialEse::new();
    ese.parse_freetext_line("10:20::hello").unwrap();
    assert_eq!(ese.free_text.len(), 1);
    assert_eq!(ese.free_text[0].name, "Default");
    assert_eq!(ese.free_text[0].entries.len(), 1);
    assert_eq!(ese.free_text[0].entries[0].text, "hello");
    assert_eq!(ese.free_text[0].entries[0].position.lat(), 10 * DEG);
    assert_eq!(ese.free_text[0].entries[0].position.lon(), 20 * DEG);
}

#[test]
fn free_text_is_filed_by_group() {
    let mut ese = PartialEse::new();
    ese.parse_freetext_line("N051.28.00.000:W000.27.00.000:Stands:12").unwrap();
    ese.parse_freetext_line("N051.28.10.000:W000.27.00.000:Gates:A:rest").unwrap();
    ese.parse_freetext_line("N051.28.20.000:W000.27.00.000:Stands:14").unwrap();
    ese.parse_freetext_line("N051.28.20.000:W000.27.00.000:Default:x").unwrap();
    ese.parse_freetext_line("N051.28.20.000:W000.27.00.000::y").unwrap();
    assert_eq!(ese.free_text.len(), 3);
    assert_eq!(ese.free_text[0].name, "Stands");
    assert_eq!(ese.free_text[0].entries.len(), 2);
    assert_eq!(ese.free_text[0].entries[1].text, "14");
    assert_eq!(ese.free_text[1].name, "Gates");
    assert_eq!(ese.free_text[1].entries[0].text, "A");
    assert_eq!(ese.free_text[2].name, "Default");
    assert_eq!(ese.free_text[2].entries.len(), 2);
}

#[test]
fn free_text_errors() {
    let mut ese = PartialEse::new();
    assert_eq!(ese.parse_freetext_line(""), Err(Error::InvalidFreetext));
    assert_eq!(ese.parse_freetext_line("10"), Err(Error::InvalidFreetext));
    assert_eq!(ese.parse_freetext_line("10:20"), Err(Error::InvalidFreetext));
    assert_eq!(ese.parse_freetext_line("10:20:group"), Err(Error::InvalidFreetext));
    assert_eq!(ese.parse_freetext_line("ten:20:group:text"), Err(Error::InvalidCoordinate));
    assert_eq!(ese.parse_freetext_line("10:twenty"), Err(Error::InvalidCoordinate));
    assert_eq!(ese.parse_freetext_line("91:20:group:text"), Err(Error::InvalidPosition));
    assert!(ese.free_text.is_empty());
}

#[test]
fn free_text_is_moved_by_the_offset() {
    let mut ese = PartialEse::new();
    ese.parse_offset("OFFSET 0.5 -0.25").unwrap();
    ese.parse_freetext_line("10:20:g:t").unwrap();
    assert_eq!(ese.free_text[0].entries[0].position.lat(), 10_500_000_000);
    assert_eq!(ese.free_text[0].entries[0].position.lon(), 19_750_000_000);
    assert_eq!(ese.parse_offset("OFFSET 1"), Err(Error::InvalidOffset));
}

#[test]
fn procedures_are_filed_by_airport_and_runway() {
    let mut ese = PartialEse::new();
    ese.parse_sids_stars_line("SID:EGLL:27L:CPT3F:D130B:WOD:CPT").unwrap();
    ese.parse_sids_stars_line("STAR:EGLL:27L:BIG1A:BIG").unwrap();
    ese.parse_sids_stars_line("SID:EGLL:09R:CPT5J:CPT").unwrap();
    ese.parse_sids_stars_line("SID:EGKK:26L:LAM6M:LAM").unwrap();
    ese.parse_sids_stars_line("SID:EGLL:27L:MID3F:MID").unwrap();
    assert_eq!(ese.sids_stars.len(), 2);
    let egll = &ese.sids_stars[0];
    assert_eq!(egll.identifier, "EGLL");
    assert_eq!(egll.runways.len(), 2);
    assert_eq!(egll.runways[0].runway.number_and_modifier(), (27, RunwayModifier::Left));
    assert_eq!(egll.runways[0].procedures.len(), 3);
    assert_eq!(egll.runways[0].procedures[0].identifier, "CPT3F");
    assert_eq!(egll.runways[0].procedures[0].proc_type, ProcedureType::SID);
    assert_eq!(egll.runways[0].procedures[0].route, vec!["D130B", "WOD", "CPT"]);
    assert_eq!(egll.runways[0].procedures[1].proc_type, ProcedureType::STAR);
    assert_eq!(egll.runways[0].procedures[2].identifier, "MID3F");
    assert_eq!(egll.runways[1].runway.number(), 9);
    assert_eq!(egll.runways[1].runway.modifier(), RunwayModifier::Right);
    assert_eq!(ese.sids_stars[1].identifier, "EGKK");
}

#[test]
fn procedure_errors() {
    let mut ese = PartialEse::new();
    for line in ["", "sid:EGLL:27L:A:B", "APP:EGLL:27L:A:B", "SID", "SID:E:27L:A:B", "SID:EGLL:27L:A", "SID:EGLL:27L"] {
        assert_eq!(ese.parse_sids_stars_line(line), Err(Error::InvalidSidStarEntry), "{line}");
    }
    for line in ["SID:EGLL", "SID:EGLL:37:A:B", "SID:EGLL::A:B", "STAR:EGLL:27X:A:B"] {
        assert_eq!(ese.parse_sids_stars_line(line), Err(Error::InvalidRunway), "{line}");
    }
    assert!(ese.sids_stars.is_empty());
}

#[test]
fn runway_identifier_is_read_and_written() {
    let id = RunwayIdentifier::from_str("9L").unwrap();
    assert_eq!(id.number(), 9);
    assert_eq!(id.modifier(), RunwayModifier::Left);
    assert_eq!(id.number_and_modifier(), (9, RunwayModifier::Left));
    assert_eq!(id.to_string(), "09L");
    assert_eq!(RunwayIdentifier::from_str("0").unwrap().to_string(), "36");
    assert_eq!(RunwayIdentifier::from_str("36G").unwrap().to_string(), "36G");
    assert_eq!(RunwayIdentifier::from_str("18C").unwrap().to_string(), "18C");
    assert_eq!(RunwayIdentifier::from_str("27R").unwrap().to_string(), "27R");
    assert_eq!(RunwayIdentifier::from_str("37"), Err(Error::InvalidRunway));
    assert!(id.same(&RunwayIdentifier::from_str("09L").unwrap()));
    assert!(!id.same(&RunwayIdentifier::from_str("09R").unwrap()));
    assert_eq!(id, RunwayIdentifier::from_str("09L").unwrap());
    assert!(RunwayIdentifier::from_str("09L").unwrap() < RunwayIdentifier::from_str("10").unwrap());
    assert_eq!(RunwayModifier::Grass.to_string(), "G");
    assert_eq!(RunwayModifier::Unmarked.to_string(), "");
}

#[test]
fn controller_position_with_every_field() {
    let mut ese = PartialEse::new();
    ese.parse_atc_position_line(
        "London Control:London Control:127.430:LS:S:LON:CTR:-:-:0301:0377:N051.00.00.000:W001.00.00.000:52:-2",
    )
    .unwrap();
    let p = &ese.atc_positions[0];
    assert_eq!(p.name, "London Control");
    assert_eq!(p.rt_callsign, "London Control");
    assert_eq!(p.radio_freq, "127.430");
    assert_eq!(p.short_identifier, "LS");
    assert_eq!(p.full_identifier, "LON_S_CTR");
    assert_eq!(p.start_squawk, Some(301));
    assert_eq!(p.end_squawk, Some(377));
    assert_eq!(p.vis_centres[0].map(|c| (c.lat(), c.lon())), Some((51 * DEG, -DEG)));
    assert_eq!(p.vis_centres[1].map(|c| (c.lat(), c.lon())), Some((52 * DEG, -2 * DEG)));
    assert_eq!(p.vis_centres[2], None);
    assert_eq!(p.vis_centres[3], None);
}

#[test]
fn controller_position_long_identifier_leaves_empty_parts_out() {
    let mut ese = PartialEse::new();
    ese.parse_atc_position_line("A:B:1.2:C:MID::").unwrap();
    ese.parse_atc_position_line("A:B:1.2:C:MID:LEFT:").unwrap();
    ese.parse_atc_position_line("A:B:1.2:C:MID::RIGHT").unwrap();
    let ids: Vec<&str> = ese.atc_positions.iter().map(|p| p.full_identifier.as_str()).collect();
    assert_eq!(ids, vec!["MID", "LEFT_MID", "MID_RIGHT"]);
    assert_eq!(ese.atc_positions[0].start_squawk, None);
    assert_eq!(ese.atc_positions[0].end_squawk, None);
    assert_eq!(ese.atc_positions[0].vis_centres, [None, None, None, None]);
}

#[test]
fn controller_position_squawks_and_centres_are_read_as_far_as_they_go() {
    let mut ese = PartialEse::new();
    ese.parse_atc_position_line("A:B:1.2:C:M:L:R:x:y:70000:12:1:2:3:4:5:6:7:8:9:10").unwrap();
    let p = &ese.atc_positions[0];
    assert_eq!(p.start_squawk, None);
    assert_eq!(p.end_squawk, Some(12));
    let lats: Vec<Option<i64>> = p.vis_centres.iter().map(|c| c.map(|c| c.lat())).collect();
    assert_eq!(lats, vec![Some(DEG), Some(3 * DEG), Some(5 * DEG), Some(7 * DEG)]);

    ese.parse_atc_position_line("A:B:1.2:C:M:L:R:x:y:1:2:1:2:95:4:5:6").unwrap();
    let p = &ese.atc_positions[1];
    assert_eq!(p.vis_centres[0].map(|c| c.lon()), Some(2 * DEG));
    assert_eq!(p.vis_centres[1], None);
    assert_eq!(p.vis_centres[2], None);

    ese.parse_atc_position_line("A:B:1.2:C:M:L:R:x:y:1:2:1:2:3").unwrap();
    assert_eq!(ese.atc_positions[2].vis_centres[1], None);
    ese.parse_atc_position_line("A:B:1.2:C:M:L:R:x:y:1").unwrap();
    assert_eq!(ese.atc_positions[3].start_squawk, Some(1));
    assert_eq!(ese.atc_positions[3].end_squawk, None);
}

#[test]
fn controller_position_errors() {
    let mut ese = PartialEse::new();
    for line in [
        "",
        "A:B:1.2:C:M:L",
        ":B:1.2:C:M:L:R",
        "A::1.2:C:M:L:R",
        "A:B::C:M:L:R",
        "A:B:12:C:M:L:R",
        "A:B:1.2::M:L:R",
        "A:B:1.2:C::L:R",
    ] {
        assert_eq!(ese.parse_atc_position_line(line), Err(Error::InvalidAtcPosition), "{line}");
    }
    assert!(ese.atc_positions.is_empty());
}

#[test]
fn reading_goes_on_after_a_line_that_cannot_be_used() {
    let reader = EseReader::new(lines(&[
        "10:20:Towns:Alpha",
        "11:21:Towns:Bravo",
        "#define broken",
        "12:22:Towns:Charlie",
        "13:23::Delta",
    ]));
    let ese = reader.try_read().unwrap();
    assert_eq!(ese.free_text.len(), 2);
    assert_eq!(ese.free_text[0].name, "Towns");
    let texts: Vec<&str> = ese.free_text[0].entries.iter().map(|e| e.text.as_str()).collect();
    assert_eq!(texts, vec!["Alpha", "Bravo", "Charlie"]);
    assert_eq!(ese.free_text[1].name, "Default");
    assert_eq!(ese.free_text[1].entries[0].text, "Delta");
    assert_eq!(
        ese.non_critical_errors,
        vec![(3, "#define broken".to_string(), Error::InvalidColourDefinition)]
    );
}

#[test]
fn reader_files_lines_by_section() {
    let reader = EseReader::new(lines(&[
        "; a supplementary file",
        "",
        "#define Taxi 255   ; blue",
        "[positions]",
        "Tower:Heathrow Tower:118.500:T:TWR:EGLL:",
        "[SidsStars]",
        "SID:EGLL:27L:CPT3F:WOD CPT",
        "OFFSET 1 1",
        "[FREETEXT]  ",
        "10:20:G:text ; with a comment",
        "[AIRSPACE]",
        "whatever stands here",
        "[RADAR]",
        "is passed over",
        "[GROUND]",
        "10:20:G:not free text",
        "[NOWHERE]",
        "still ground",
        "   ; only a comment",
    ]));
    let ese = reader.try_read().unwrap();
    assert_eq!(ese.colours.get(&"taxi".to_string()), Some(Colour { r: 0, g: 0, b: 255 }));
    assert_eq!(ese.atc_positions.len(), 1);
    assert_eq!(ese.atc_positions[0].full_identifier, "EGLL_TWR");
    assert_eq!(ese.sids_stars.len(), 1);
    assert_eq!(ese.sids_stars[0].runways[0].procedures[0].route, vec!["WOD CPT"]);
    assert_eq!(ese.free_text.len(), 1);
    assert_eq!(ese.free_text[0].entries.len(), 1);
    assert_eq!(ese.free_text[0].entries[0].text, "text");
    assert_eq!(ese.free_text[0].entries[0].position.lat(), 11 * DEG);
    assert_eq!(
        ese.non_critical_errors,
        vec![(17, "[NOWHERE]".to_string(), Error::InvalidFileSection)]
    );
}

#[test]
fn reader_notes_every_bad_line_with_its_number() {
    let reader = EseReader::new(lines(&[
        "bad",
        "10:20:G:ok",
        "OFFSET x",
        "[SIDSSTARS]",
        "SID:EGLL:99:A:B",
        "[POSITIONS]",
        "nothing",
    ]));
    let ese = reader.try_read().unwrap();
    assert_eq!(
        ese.non_critical_errors,
        vec![
            (1, "bad".to_string(), Error::InvalidFreetext),
            (3, "OFFSET x".to_string(), Error::InvalidOffset),
            (5, "SID:EGLL:99:A:B".to_string(), Error::InvalidRunway),
            (7, "nothing".to_string(), Error::InvalidAtcPosition),
        ]
    );
    assert_eq!(ese.free_text[0].entries.len(), 1);
}

#[test]
fn reader_can_be_fed_line_by_line() {
    let mut state = EseState::new();
    state.read_line(1, "10:20::one");
    state.read_line(2, "[radar]");
    state.read_line(3, "10:20::two");
    state.read_line(40, "[nothing]");
    assert_eq!(state.current_section, FileSection::Radar);
    assert_eq!(state.partial_ese.free_text[0].entries.len(), 1);
    assert_eq!(state.errors, vec![(40, "[nothing]".to_string(), Error::InvalidFileSection)]);
}

#[test]
fn section_headers_in_any_case() {
    assert_eq!(FileSection::from_str("[freetext]"), Ok(FileSection::FreeText));
    assert_eq!(FileSection::from_str("[SidsStars]"), Ok(FileSection::SidsStars));
    assert_eq!(FileSection::from_str("[POSITIONS]"), Ok(FileSection::Positions));
    assert_eq!(FileSection::from_str("[airspace]"), Ok(FileSection::Airspace));
    assert_eq!(FileSection::from_str("[Radar]"), Ok(FileSection::Radar));
    assert_eq!(FileSection::from_str("[ground]"), Ok(FileSection::Ground));
    assert_eq!(FileSection::from_str("[GROUND"), Err(Error::InvalidFileSection));
    assert_eq!(FileSection::from_upper("[ground]"), Err(Error::InvalidFileSection));
    assert_eq!(FileSection::from_upper("[GROUND]"), Ok(FileSection::Ground));
}
