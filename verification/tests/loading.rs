use twistytimer_import::loader::{
    batch_rows, format_duration, is_registered, penalty_code, report_due, storage_row, LoadState,
    LoadStep, LoadSummary, SolveRow, BATCH_SIZE,
};
use twistytimer_import::models::TwistyTimerPuzzles;
use twistytimer_import::record::TwistyTimer;

fn solve(code: &str, time: u32) -> TwistyTimer {
    TwistyTimer::new(
        TwistyTimerPuzzles::from_str(code).unwrap(),
        "Normal".to_string(),
        time,
        1_700_000_000_999,
        "R U".to_string(),
        "DNF".to_string(),
        "note".to_string(),
    )
    .unwrap()
}

fn names(list: &[&str]) -> Vec<String> {
    list.iter().map(|s| s.to_string()).collect()
}

/// A store that ignores a row it already holds, and reports how many rows an
/// insert added.
fn insert_ignoring_duplicates(store: &mut Vec<SolveRow>, rows: Vec<SolveRow>) -> u64 {
    let mut affected = 0;
    for row in rows {
        if !store.contains(&row) {
            store.push(row);
            affected += 1;
        }
    }
    affected
}

fn load(records: &Vec<TwistyTimer>, registered: &Vec<String>, batch_size: usize, store: &mut Vec<SolveRow>) -> LoadSummary {
    let mut state = LoadState::new(records.len());
    loop {
        match state.next_step(records, registered, batch_size) {
            LoadStep::Insert(rows) => {
                let affected = insert_ignoring_duplicates(store, rows);
                state.record_inserted(affected);
            }
            LoadStep::Skip => {}
            LoadStep::Commit => return state.summary(),
            LoadStep::Rollback => panic!("the store did not fail"),
        }
    }
}

#[test]
fn penalties_have_their_codes() {
    assert_eq!(penalty_code("+2"), 1);
    assert_eq!(penalty_code("DNF"), 2);
    assert_eq!(penalty_code(""), 0);
    assert_eq!(penalty_code("dnf"), 0);
    assert_eq!(penalty_code("+4"), 0);
}

#[test]
fn a_record_becomes_a_row() {
    let row = storage_row(&solve("333", 12_345));
    assert_eq!(
        row,
        SolveRow {
            event_name: "333".to_string(),
            time: 12_345,
            scramble: "R U".to_string(),
            date: "2023-11-14 22:13:20".to_string(),
            session_name: "Normal".to_string(),
            penalty: 2,
            comment: "note".to_string(),
        }
    );
}

#[test]
fn the_fewest_moves_event_is_stored_as_fmc() {
    assert_eq!(storage_row(&solve("fc", 1)).event_name, "fmc");
    assert_eq!(storage_row(&solve("megaminx", 1)).event_name, "unknown:megaminx");
}

#[test]
fn the_date_of_the_epoch() {
    let rec = TwistyTimer::new(
        TwistyTimerPuzzles::Cube222,
        String::new(),
        0,
        0,
        String::new(),
        String::new(),
        String::new(),
    )
    .unwrap();
    let row = storage_row(&rec);
    assert_eq!(row.date, "1970-01-01 00:00:00");
    assert_eq!(row.penalty, 0);
}

#[test]
fn registered_names_are_matched_exactly() {
    let registered = names(&["333", "fmc"]);
    assert!(is_registered(&registered, "333"));
    assert!(is_registered(&registered, "fmc"));
    assert!(!is_registered(&registered, "fc"));
    assert!(!is_registered(&registered, "33"));
    assert!(!is_registered(&names(&[]), "333"));
}

#[test]
fn only_registered_events_are_inserted() {
    let records = vec![solve("333", 1), solve("222", 2), solve("foo", 3)];
    let mut store = Vec::new();
    let summary = load(&records, &names(&["333"]), BATCH_SIZE, &mut store);
    assert_eq!(
        summary,
        LoadSummary {
            total: 3,
            processed: 1,
            new_inserts: 1,
            skipped_duplicate: 0,
            skipped_unknown: 2,
            total_skipped: 2,
        }
    );
    assert_eq!(store.len(), 1);
    assert_eq!(store[0].event_name, "333");
}

#[test]
fn a_record_parsed_from_fc_is_not_eligible_under_fc() {
    let records = vec![solve("fc", 1)];
    let mut store = Vec::new();
    assert_eq!(load(&records, &names(&["fc"]), BATCH_SIZE, &mut store).skipped_unknown, 1);
    assert_eq!(load(&records, &names(&["fmc"]), BATCH_SIZE, &mut store).new_inserts, 1);
}

#[test]
fn the_same_record_twice_is_one_insert_and_one_duplicate() {
    let records = vec![solve("333", 1), solve("333", 1)];
    let mut store = Vec::new();
    let summary = load(&records, &names(&["333"]), BATCH_SIZE, &mut store);
    assert_eq!(
        summary,
        LoadSummary {
            total: 2,
            processed: 2,
            new_inserts: 1,
            skipped_duplicate: 1,
            skipped_unknown: 0,
            total_skipped: 1,
        }
    );
    assert_eq!(store.len(), 1);
}

#[test]
fn duplicates_are_counted_from_the_affected_rows() {
    let mut state = LoadState::new(10);
    state.next = 10;
    state.processed = 10;
    state.pending = 4;
    state.record_inserted(1);
    assert_eq!(state.skipped_duplicate, 3);
    assert_eq!(state.pending, 0);
    state.pending = 3;
    state.record_inserted(3);
    assert_eq!(state.skipped_duplicate, 3);
    state.pending = 2;
    state.record_inserted(5);
    assert_eq!(state.skipped_duplicate, 3);
    assert_eq!(state.summary().new_inserts, 7);
}

#[test]
fn batches_keep_the_order_of_the_records() {
    let records =
        vec![solve("333", 1), solve("222", 2), solve("333", 3), solve("222", 4), solve("333", 5)];
    let registered = names(&["333"]);
    let mut state = LoadState::new(records.len());
    let mut times: Vec<Vec<u32>> = Vec::new();
    let mut skips = 0;
    loop {
        match state.next_step(&records, &registered, 2) {
            LoadStep::Insert(rows) => {
                assert_eq!(state.pending, rows.len());
                times.push(rows.iter().map(|r| r.time).collect());
                state.record_inserted(rows.len() as u64);
            }
            LoadStep::Skip => skips += 1,
            LoadStep::Commit => break,
            LoadStep::Rollback => panic!("the store did not fail"),
        }
    }
    assert_eq!(times, vec![vec![1], vec![3], vec![5]]);
    assert_eq!(skips, 0);
    assert_eq!(state.next, 5);
    assert_eq!(state.processed, 3);
    assert_eq!(state.skipped_unknown, 2);
}

#[test]
fn a_batch_without_eligible_records_is_skipped() {
    let records = vec![solve("222", 1), solve("222", 2), solve("333", 3)];
    let registered = names(&["333"]);
    let mut state = LoadState::new(3);
    assert!(matches!(state.next_step(&records, &registered, 2), LoadStep::Skip));
    assert_eq!(state.next, 2);
    assert!(matches!(state.next_step(&records, &registered, 2), LoadStep::Insert(_)));
    assert!(matches!(state.next_step(&records, &registered, 2), LoadStep::Commit));
    assert!(matches!(state.next_step(&records, &registered, 2), LoadStep::Commit));
}

#[test]
fn after_a_failure_the_only_step_is_the_rollback() {
    let records = vec![solve("333", 1), solve("333", 2), solve("333", 3)];
    let registered = names(&["333"]);
    let mut state = LoadState::new(3);
    assert!(matches!(state.next_step(&records, &registered, 1), LoadStep::Insert(_)));
    state.record_failure();
    assert!(matches!(state.next_step(&records, &registered, 1), LoadStep::Rollback));
    assert!(matches!(state.next_step(&records, &registered, 1), LoadStep::Rollback));
    assert_eq!(state.next, 1);
}

#[test]
fn the_rows_of_a_range() {
    let records = vec![solve("333", 1), solve("oh", 2), solve("333", 3)];
    let rows = batch_rows(&records, &names(&["oh", "333"]), 1, 3);
    assert_eq!(rows.len(), 2);
    assert_eq!(rows[0].event_name, "oh");
    assert_eq!(rows[1].time, 3);
    assert_eq!(batch_rows(&records, &names(&["oh"]), 2, 2).len(), 0);
}

#[test]
fn an_empty_load_commits_at_once() {
    let mut state = LoadState::new(0);
    assert!(matches!(state.next_step(&Vec::new(), &names(&["333"]), BATCH_SIZE), LoadStep::Commit));
    assert_eq!(
        state.summary(),
        LoadSummary {
            total: 0,
            processed: 0,
            new_inserts: 0,
            skipped_duplicate: 0,
            skipped_unknown: 0,
            total_skipped: 0,
        }
    );
}

#[test]
fn durations_are_shown_without_leading_zero_parts() {
    assert_eq!(format_duration(0), "0s");
    assert_eq!(format_duration(59), "59s");
    assert_eq!(format_duration(60), "1m 0s");
    assert_eq!(format_duration(125), "2m 5s");
    assert_eq!(format_duration(3600), "1h 0m 0s");
    assert_eq!(format_duration(3661), "1h 1m 1s");
    assert_eq!(format_duration(360_000), "100h 0m 0s");
}

#[test]
fn a_report_is_due_after_two_seconds() {
    assert!(!report_due(1_999, 0));
    assert!(report_due(2_000, 0));
    assert!(report_due(10_500, 8_000));
    assert!(!report_due(10_500, 9_000));
    assert!(!report_due(5, 10));
}

#[test]
fn a_failure_in_the_middle_leaves_the_store_as_it_was() {
    let records = vec![solve("333", 1), solve("333", 2), solve("333", 3)];
    let registered = names(&["333"]);
    let committed: Vec<SolveRow> = vec![storage_row(&solve("333", 99))];
    let mut working: Vec<SolveRow> = vec![storage_row(&solve("333", 99))];
    let mut state = LoadState::new(records.len());
    let mut inserts = 0;
    let outcome = loop {
        match state.next_step(&records, &registered, 1) {
            LoadStep::Insert(rows) => {
                inserts += 1;
                if inserts == 2 {
                    state.record_failure();
                } else {
                    let affected = insert_ignoring_duplicates(&mut working, rows);
                    state.record_inserted(affected);
                }
            }
            LoadStep::Skip => {}
            LoadStep::Commit => break working,
            LoadStep::Rollback => break committed,
        }
    };
    assert_eq!(outcome, vec![storage_row(&solve("333", 99))]);
    assert_eq!(inserts, 2);
    assert_eq!(state.next, 2);
}
