use twistytimer_import::error::TwistyTimerError;
use twistytimer_import::models::TwistyTimerPuzzles;

fn table() -> Vec<(&'static str, TwistyTimerPuzzles)> {
    vec![
        ("222", TwistyTimerPuzzles::Cube222),
        ("333", TwistyTimerPuzzles::Cube333),
        ("444", TwistyTimerPuzzles::Cube444),
        ("555", TwistyTimerPuzzles::Cube555),
        ("666", TwistyTimerPuzzles::Cube666),
        ("777", TwistyTimerPuzzles::Cube777),
        ("sq1", TwistyTimerPuzzles::CubeSq1),
        ("skewb", TwistyTimerPuzzles::CubeSkewb),
        ("clock", TwistyTimerPuzzles::CubeClock),
        ("pyra", TwistyTimerPuzzles::CubePyra),
        ("mega", TwistyTimerPuzzles::CubeMega),
        ("3bld", TwistyTimerPuzzles::Event3bld),
        ("fc", TwistyTimerPuzzles::EventFMC),
        ("oh", TwistyTimerPuzzles::EventOH),
        ("4bld", TwistyTimerPuzzles::Event4bld),
        ("5bld", TwistyTimerPuzzles::Event5bld),
        ("multi", TwistyTimerPuzzles::EventMultiBld),
    ]
}

#[test]
fn every_code_of_the_table_resolves_to_its_category() {
    for (code, puzzle) in table() {
        assert_eq!(TwistyTimerPuzzles::from_str(code), Ok(puzzle));
    }
}

#[test]
fn rendering_gives_the_code_back_except_for_fc() {
    for (code, _) in table() {
        let rendered = TwistyTimerPuzzles::from_str(code).unwrap().to_string();
        if code == "fc" {
            assert_eq!(rendered, "fmc");
        } else {
            assert_eq!(rendered, code);
        }
    }
}

#[test]
fn fmc_is_not_a_code_of_the_table() {
    assert_eq!(
        TwistyTimerPuzzles::from_str("fmc"),
        Ok(TwistyTimerPuzzles::Unknown("fmc".to_string()))
    );
    assert_eq!(TwistyTimerPuzzles::from_str("fmc").unwrap().to_string(), "unknown:fmc");
}

#[test]
fn empty_code_is_an_error() {
    assert_eq!(TwistyTimerPuzzles::from_str(""), Err(TwistyTimerError::EmptyPuzzleType));
    assert_eq!(TwistyTimerPuzzles::from_str("   \t"), Err(TwistyTimerError::EmptyPuzzleType));
    assert_eq!(TwistyTimerPuzzles::from_normalized(""), Err(TwistyTimerError::EmptyPuzzleType));
}

#[test]
fn white_space_and_case_are_ignored() {
    assert_eq!(TwistyTimerPuzzles::from_str("  333  "), Ok(TwistyTimerPuzzles::Cube333));
    assert_eq!(TwistyTimerPuzzles::from_str("SQ1"), Ok(TwistyTimerPuzzles::CubeSq1));
    assert_eq!(TwistyTimerPuzzles::from_str(" Skewb\n"), Ok(TwistyTimerPuzzles::CubeSkewb));
    assert_eq!(TwistyTimerPuzzles::from_str("MULTI"), Ok(TwistyTimerPuzzles::EventMultiBld));
}

#[test]
fn normalized_codes_are_matched_exactly() {
    assert_eq!(TwistyTimerPuzzles::from_normalized("333"), Ok(TwistyTimerPuzzles::Cube333));
    assert_eq!(
        TwistyTimerPuzzles::from_normalized(" 333"),
        Ok(TwistyTimerPuzzles::Unknown(" 333".to_string()))
    );
    assert_eq!(
        TwistyTimerPuzzles::from_normalized("SQ1"),
        Ok(TwistyTimerPuzzles::Unknown("SQ1".to_string()))
    );
}

#[test]
fn unknown_codes_keep_their_lowercase_text() {
    let puzzle = TwistyTimerPuzzles::from_str("  Gigaminx ").unwrap();
    assert_eq!(puzzle, TwistyTimerPuzzles::Unknown("gigaminx".to_string()));
    assert_eq!(puzzle.to_string(), "unknown:gigaminx");
}

#[test]
fn categories_are_ordered_and_comparable() {
    assert!(TwistyTimerPuzzles::Cube222 < TwistyTimerPuzzles::Cube333);
    assert!(TwistyTimerPuzzles::EventMultiBld < TwistyTimerPuzzles::Unknown(String::new()));
    assert_ne!(
        TwistyTimerPuzzles::Unknown("a".to_string()),
        TwistyTimerPuzzles::Unknown("b".to_string())
    );
}

#[test]
fn error_messages() {
    assert_eq!(TwistyTimerError::EmptyPuzzleType.to_string(), "Empty puzzle type");
    assert_eq!(
        TwistyTimerError::InvalidTimestamp("-1".to_string()).to_string(),
        "Invalid timestamp: -1"
    );
    assert_eq!(
        TwistyTimerError::TimestampParseError(
            "abc".to_string(),
            "invalid digit found in string".to_string()
        )
        .to_string(),
        "Failed to parse timestamp 'abc': invalid digit found in string"
    );
    assert_eq!(TwistyTimerError::IoError("gone".to_string()).to_string(), "IO error: gone");
    assert_eq!(TwistyTimerError::CsvError("bad".to_string()).to_string(), "CSV error: bad");
    assert_eq!(
        TwistyTimerError::CsvRecordError(12, "Empty puzzle type".to_string()).to_string(),
        "CSV error at record 12: Empty puzzle type"
    );
    assert_eq!(
        TwistyTimerError::MissingField("time".to_string()).to_string(),
        "Missing required field: time"
    );
    assert_eq!(
        TwistyTimerError::InvalidTimeValue("x".to_string()).to_string(),
        "Invalid time value: x"
    );
}
