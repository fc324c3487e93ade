use anni::print::{
    cue_sheet, track_file_name, AlbumTarget, CueDisc, CueTrack, PrintError, RepoPrintAction,
    RepoPrintType,
};

fn action(print_type: RepoPrintType, add_generated_by: bool, input: &str) -> RepoPrintAction {
    RepoPrintAction {
        print_type,
        add_generated_by,
        input: input.to_string(),
        output: "-".to_string(),
    }
}

fn track(title: &str, artist: &str) -> CueTrack {
    CueTrack { title: title.to_string(), artist: artist.to_string() }
}

fn disc() -> CueDisc {
    CueDisc {
        title: "Summer".to_string(),
        artist: "Nagi".to_string(),
        tracks: vec![track("First", "Nagi"), track("Either/Or", "Jun")],
    }
}

#[test]
fn catalog_alone_names_the_first_disc() {
    let target = action(RepoPrintType::Title, true, "KSLA-0178").target();
    assert_eq!(target, Ok(AlbumTarget { catalog: "KSLA-0178".to_string(), disc_index: 0 }));
}

#[test]
fn disc_numbers_count_from_one() {
    let target = action(RepoPrintType::Cue, true, "KSLA-0178/1").target();
    assert_eq!(target, Ok(AlbumTarget { catalog: "KSLA-0178".to_string(), disc_index: 0 }));
    let target = action(RepoPrintType::Cue, true, "KSLA-0178/3").target();
    assert_eq!(target, Ok(AlbumTarget { catalog: "KSLA-0178".to_string(), disc_index: 2 }));
    let target = action(RepoPrintType::Cue, true, "X/4294967295").target();
    assert_eq!(target, Ok(AlbumTarget { catalog: "X".to_string(), disc_index: 4294967294 }));
}

#[test]
fn disc_zero_is_the_first_disc() {
    let target = action(RepoPrintType::Cue, true, "KSLA-0178/0").target();
    assert_eq!(target, Ok(AlbumTarget { catalog: "KSLA-0178".to_string(), disc_index: 0 }));
}

#[test]
fn disc_number_may_carry_a_plus_and_zeros() {
    assert_eq!(action(RepoPrintType::Cue, true, "A/+2").target().unwrap().disc_index, 1);
    assert_eq!(action(RepoPrintType::Cue, true, "A/007").target().unwrap().disc_index, 6);
}

#[test]
fn text_behind_a_second_slash_is_ignored() {
    let target = action(RepoPrintType::Cue, true, "A/2/extra/3").target();
    assert_eq!(target, Ok(AlbumTarget { catalog: "A".to_string(), disc_index: 1 }));
}

#[test]
fn empty_input_names_the_empty_catalog() {
    let target = action(RepoPrintType::Title, true, "").target();
    assert_eq!(target, Ok(AlbumTarget { catalog: String::new(), disc_index: 0 }));
}

#[test]
fn text_that_is_no_number_is_an_invalid_disc_id() {
    for input in ["A/x", "A/", "A/-1", "A/1 ", "A/ 1", "A/+", "A/4294967296", "A/1_0", "A//2"] {
        assert_eq!(
            action(RepoPrintType::Cue, true, input).target(),
            Err(PrintError::InvalidDiscId),
            "{}",
            input
        );
    }
}

#[test]
fn file_name_has_the_number_and_a_safe_title() {
    assert_eq!(track_file_name(1, "First"), "01. First.flac");
    assert_eq!(track_file_name(12, "Either/Or"), "12. Either\u{ff0f}Or.flac");
    assert_eq!(track_file_name(123, "a/b/c"), "123. a\u{ff0f}b\u{ff0f}c.flac");
    assert_eq!(track_file_name(9, ""), "09. .flac");
}

#[test]
fn cue_sheet_with_the_program_line() {
    let sheet = cue_sheet(&disc(), "2020-12-16", Some("1.0.0"));
    let expected = "TITLE \"Summer\"\n\
PERFORMER \"Nagi\"\n\
REM DATE \"2020-12-16\"\n\
REM COMMENT \"Generated by Anni v1.0.0\"\n\
FILE \"01. First.flac\" WAVE\n  TRACK 01 AUDIO\n    TITLE \"First\"\n    PERFORMER \"Nagi\"\n    INDEX 01 00:00:00\n\
FILE \"02. Either\u{ff0f}Or.flac\" WAVE\n  TRACK 01 AUDIO\n    TITLE \"Either/Or\"\n    PERFORMER \"Jun\"\n    INDEX 01 00:00:00";
    assert_eq!(sheet, expected);
}

#[test]
fn cue_sheet_without_the_program_line() {
    let sheet = cue_sheet(&disc(), "2020-12-16", None);
    assert!(sheet.starts_with("TITLE \"Summer\"\nPERFORMER \"Nagi\"\nREM DATE \"2020-12-16\"\n\nFILE \"01. First.flac\" WAVE\n"));
    assert!(!sheet.contains("REM COMMENT"));
    assert!(sheet.ends_with("    INDEX 01 00:00:00"));
}

#[test]
fn cue_sheet_of_a_disc_without_tracks() {
    let empty = CueDisc { title: "T".to_string(), artist: "A".to_string(), tracks: vec![] };
    assert_eq!(cue_sheet(&empty, "D", None), "TITLE \"T\"\nPERFORMER \"A\"\nREM DATE \"D\"\n");
    assert_eq!(
        cue_sheet(&empty, "D", Some("2")),
        "TITLE \"T\"\nPERFORMER \"A\"\nREM DATE \"D\"\nREM COMMENT \"Generated by Anni v2\""
    );
}

#[test]
fn cue_sheet_numbers_many_tracks() {
    let tracks: Vec<CueTrack> = (0..12).map(|i| track(&format!("t{}", i), "a")).collect();
    let disc = CueDisc { title: "T".to_string(), artist: "A".to_string(), tracks };
    let sheet = cue_sheet(&disc, "D", None);
    assert!(sheet.contains("FILE \"09. t8.flac\" WAVE"));
    assert!(sheet.contains("FILE \"10. t9.flac\" WAVE"));
    assert!(sheet.contains("FILE \"12. t11.flac\" WAVE"));
    assert_eq!(sheet.matches("  TRACK 01 AUDIO\n").count(), 12);
}

#[test]
fn cue_of_the_named_disc() {
    let second = CueDisc { title: "Second".to_string(), artist: "B".to_string(), tracks: vec![] };
    let discs = vec![disc(), second.clone()];
    let sheet = action(RepoPrintType::Cue, false, "CAT/2").cue(&discs, "2020", "1.0");
    assert_eq!(sheet, Ok(cue_sheet(&second, "2020", None)));
    let sheet = action(RepoPrintType::Cue, true, "CAT").cue(&discs, "2020", "1.0");
    assert_eq!(sheet, Ok(cue_sheet(&discs[0], "2020", Some("1.0"))));
}

#[test]
fn cue_of_a_disc_that_is_not_there() {
    let discs = vec![disc()];
    let sheet = action(RepoPrintType::Cue, true, "CAT/2").cue(&discs, "2020", "1.0");
    assert_eq!(sheet, Err(PrintError::DiscNotFound { disc: 2 }));
    let sheet = action(RepoPrintType::Cue, true, "CAT/9").cue(&Vec::new(), "2020", "1.0");
    assert_eq!(sheet, Err(PrintError::DiscNotFound { disc: 9 }));
}

#[test]
fn cue_of_an_invalid_disc_id() {
    let sheet = action(RepoPrintType::Cue, true, "CAT/two").cue(&vec![disc()], "2020", "1.0");
    assert_eq!(sheet, Err(PrintError::InvalidDiscId));
}

#[test]
fn error_messages() {
    assert_eq!(PrintError::InvalidDiscId.message(), "Invalid disc id");
    assert_eq!(PrintError::DiscNotFound { disc: 2 }.message(), "Disc 2 not found!");
    assert_eq!(PrintError::DiscNotFound { disc: 4294967295 }.message(), "Disc 4294967295 not found!");
}

#[test]
fn print_types_that_read_an_album() {
    assert!(RepoPrintType::Title.prints_album_field());
    assert!(RepoPrintType::Artist.prints_album_field());
    assert!(RepoPrintType::Date.prints_album_field());
    assert!(RepoPrintType::Cue.prints_album_field());
    assert!(!RepoPrintType::Toml.prints_album_field());
    assert!(!RepoPrintType::Json.prints_album_field());
    assert!(!RepoPrintType::TagTree.prints_album_field());
}
