use telegram_analyzer::behavior::{Behavior, BehaviorType, Input, Reads};
use telegram_analyzer::behaviors::count_time_slots::{
    read_times, report_slots, slot_index, slot_label_text, slot_rows, tally_slots, write_slot_summary,
    CountTimeSlots, SlotTally,
};
use telegram_analyzer::common::{AnalysisError, OutputFormat, Target};
use telegram_analyzer::timestamp::TimeOfDay;

fn at(hour: u32, minute: u32) -> Option<TimeOfDay> {
    Some(TimeOfDay { hour, minute })
}

const THREE_RECORDS: &str =
    r#"[{"date":"2023-01-01T13:10:00Z"}, {"date":"2023-01-01T13:45:00Z"}, {"date":"not-a-date"}]"#;

#[test]
fn three_records_two_of_them_dated() {
    let behavior = CountTimeSlots::new("result.json".to_string(), None, None);
    let report = behavior.run(&Input::Bytes(THREE_RECORDS.as_bytes().to_vec())).unwrap();
    assert_eq!(report.target, Target::Console);
    assert_eq!(report.lines.len(), 49);
    assert_eq!(report.lines[48], "Analyzed 2 messages");
    for slot in 0..48 {
        let expected = if slot == 26 || slot == 27 { 1 } else { 0 };
        assert_eq!(report.lines[slot], format!("{}\t{}", slot_label_text(slot), expected));
    }
    assert_eq!(report.lines[26], "13:00-13:30\t1");
    assert_eq!(report.lines[27], "13:30-14:00\t1");
    assert_eq!(report.lines[0], "00:00-00:30\t0");
}

#[test]
fn there_are_always_48_rows_in_the_order_of_the_day() {
    for document in ["[]", THREE_RECORDS, r#"[1, "x", null, {"date": 5}, {"other": "2023-01-01T13:10:00Z"}]"#] {
        let behavior = CountTimeSlots::new("r.json".to_string(), None, None);
        let report = behavior.run(&Input::Bytes(document.as_bytes().to_vec())).unwrap();
        assert_eq!(report.lines.len(), 49);
        assert!(report.lines[0].starts_with("00:00-00:30\t"));
        assert!(report.lines[1].starts_with("00:30-01:00\t"));
        assert!(report.lines[46].starts_with("23:00-23:30\t"));
        assert!(report.lines[47].starts_with("23:30-00:00\t"));
    }
}

#[test]
fn slot_labels_are_two_digit_half_hours() {
    assert_eq!(slot_label_text(0), "00:00-00:30");
    assert_eq!(slot_label_text(1), "00:30-01:00");
    assert_eq!(slot_label_text(19), "09:30-10:00");
    assert_eq!(slot_label_text(20), "10:00-10:30");
    assert_eq!(slot_label_text(26), "13:00-13:30");
    assert_eq!(slot_label_text(27), "13:30-14:00");
    assert_eq!(slot_label_text(47), "23:30-00:00");
    for hour in 0..24usize {
        assert_eq!(slot_label_text(2 * hour), format!("{:02}:00-{:02}:30", hour, hour));
        assert_eq!(slot_label_text(2 * hour + 1), format!("{:02}:30-{:02}:00", hour, (hour + 1) % 24));
    }
}

#[test]
fn the_slot_changes_at_minute_30() {
    assert_eq!(slot_index(TimeOfDay { hour: 0, minute: 0 }), 0);
    assert_eq!(slot_index(TimeOfDay { hour: 0, minute: 29 }), 0);
    assert_eq!(slot_index(TimeOfDay { hour: 0, minute: 30 }), 1);
    assert_eq!(slot_index(TimeOfDay { hour: 13, minute: 10 }), 26);
    assert_eq!(slot_index(TimeOfDay { hour: 13, minute: 45 }), 27);
    assert_eq!(slot_index(TimeOfDay { hour: 23, minute: 59 }), 47);
}

#[test]
fn timestamps_are_read_in_utc() {
    let dates = vec![
        Some("2023-01-01T13:10:00Z".to_string()),
        Some("2023-01-01T23:45:00-01:00".to_string()),
        Some("2023-06-30T00:15:30+05:30".to_string()),
        Some("2023-01-01 13:10:00".to_string()),
        Some("13:10".to_string()),
        Some(String::new()),
        None,
        Some("2023-01-01T13:10:00.123456+00:00".to_string()),
    ];
    assert_eq!(
        read_times(&dates),
        vec![at(13, 10), at(0, 45), at(18, 45), None, None, None, None, at(13, 10)]
    );
}

#[test]
fn the_counts_sum_to_the_number_of_dated_records() {
    let times = vec![at(13, 10), None, at(13, 45), at(13, 29), at(0, 0), None, at(23, 30), at(13, 0)];
    let tally = tally_slots(&times);
    assert_eq!(tally.counts.len(), 48);
    assert_eq!(tally.total, 6);
    assert_eq!(tally.counts.iter().sum::<usize>(), 6);
    assert_eq!(tally.counts[26], 3);
    assert_eq!(tally.counts[27], 1);
    assert_eq!(tally.counts[0], 1);
    assert_eq!(tally.counts[47], 1);
    let rows = slot_rows(&tally);
    assert_eq!(rows.len(), 48);
    assert_eq!(rows.iter().map(|r| r.count).sum::<usize>(), tally.total);
    assert_eq!(rows[26].label, "13:00-13:30");
    assert_eq!(rows[26].count, 3);
}

#[test]
fn an_empty_tally_has_48_zero_rows() {
    let tally = tally_slots(&Vec::new());
    assert_eq!(tally, SlotTally { counts: vec![0; 48], total: 0 });
    let rows = slot_rows(&tally);
    assert!(rows.iter().all(|r| r.count == 0));
    assert_eq!(rows[0].label, "00:00-00:30");
}

#[test]
fn undated_records_are_passed_over() {
    let document = r#"[{"date":"2023-01-01T00:00:00Z"}, {"text":"hi"}, {"date":17}, {"date":null},
        "2023-01-01T00:00:00Z", ["date"], {"date":"2023-01-01T00:29:59+00:00"}, {"date":"yesterday"}]"#;
    let behavior = CountTimeSlots::new("r.json".to_string(), None, None);
    let report = behavior.run(&Input::Bytes(document.as_bytes().to_vec())).unwrap();
    assert_eq!(report.lines[0], "00:00-00:30\t2");
    assert_eq!(report.lines[48], "Analyzed 2 messages");
    let counted: usize = report.lines[..48]
        .iter()
        .map(|l| l.split('\t').nth(1).unwrap().parse::<usize>().unwrap())
        .sum();
    assert_eq!(counted, 2);
}

#[test]
fn a_document_that_is_no_array_is_malformed() {
    let behavior = CountTimeSlots::new("r.json".to_string(), None, None);
    assert_eq!(
        behavior.run(&Input::Bytes(r#"{"date":"2023-01-01T13:10:00Z"}"#.as_bytes().to_vec())),
        Err(AnalysisError::MalformedDocument)
    );
    assert_eq!(behavior.run(&Input::Bytes("42".as_bytes().to_vec())), Err(AnalysisError::MalformedDocument));
    assert_eq!(behavior.run(&Input::Bytes("null".as_bytes().to_vec())), Err(AnalysisError::MalformedDocument));
}

#[test]
fn text_that_is_no_json_is_invalid() {
    let behavior = CountTimeSlots::new("r.json".to_string(), None, None);
    assert_eq!(behavior.run(&Input::Bytes("[{\"date\":".as_bytes().to_vec())), Err(AnalysisError::InvalidJson));
    assert_eq!(behavior.run(&Input::Bytes("".as_bytes().to_vec())), Err(AnalysisError::InvalidJson));
    assert_eq!(behavior.run(&Input::Bytes("[] []".as_bytes().to_vec())), Err(AnalysisError::InvalidJson));
}

#[test]
fn a_file_format_without_directory_is_refused_for_slots() {
    let csv = CountTimeSlots::new("r.json".to_string(), None, Some(OutputFormat::Csv));
    assert_eq!(csv.run(&Input::Bytes(THREE_RECORDS.as_bytes().to_vec())), Err(AnalysisError::ValidationError));
    assert_eq!(csv.run(&Input::Missing), Err(AnalysisError::ValidationError));
    let txt = CountTimeSlots::new("r.json".to_string(), None, Some(OutputFormat::Txt));
    assert_eq!(txt.run(&Input::Bytes("not json".as_bytes().to_vec())), Err(AnalysisError::ValidationError));
}

#[test]
fn a_missing_source_is_reported_for_slots() {
    let behavior = CountTimeSlots::new("nowhere.json".to_string(), None, None);
    assert_eq!(behavior.run(&Input::Missing), Err(AnalysisError::InputNotFound));
    let to_file = CountTimeSlots::new("nowhere.json".to_string(), Some("o".to_string()), Some(OutputFormat::Txt));
    assert_eq!(to_file.run(&Input::Missing), Err(AnalysisError::InputNotFound));
}

#[test]
fn slot_files_are_named_by_format() {
    let txt = CountTimeSlots::new("r.json".to_string(), Some("out".to_string()), Some(OutputFormat::Txt));
    let report = txt.run(&Input::Bytes(THREE_RECORDS.as_bytes().to_vec())).unwrap();
    assert_eq!(report.target, Target::File { dir: "out".to_string(), name: "messages_per_slot.txt".to_string() });
    assert_eq!(report.lines.len(), 49);
    assert_eq!(report.lines[27], "13:30-14:00\t1");
    assert_eq!(report.lines[48], "Analyzed 2 messages");

    let csv = CountTimeSlots::new("r.json".to_string(), Some("out".to_string()), Some(OutputFormat::Csv));
    let report = csv.run(&Input::Bytes(THREE_RECORDS.as_bytes().to_vec())).unwrap();
    assert_eq!(report.target, Target::File { dir: "out".to_string(), name: "messages_per_slot.csv".to_string() });
    assert_eq!(report.lines.len(), 50);
    assert_eq!(report.lines[0], "\"Slot\",\"Count\"");
    assert_eq!(report.lines[1], "\"00:00-00:30\",\"0\"");
    assert_eq!(report.lines[27], "\"13:00-13:30\",\"1\"");
    assert_eq!(report.lines[28], "\"13:30-14:00\",\"1\"");
    assert_eq!(report.lines[49], "\"Analyzed 2 messages\",\"\"");
}

#[test]
fn the_slot_count_is_repeatable() {
    let behavior = CountTimeSlots::new("r.json".to_string(), Some("o".to_string()), Some(OutputFormat::Csv));
    assert_eq!(behavior.run(&Input::Bytes(THREE_RECORDS.as_bytes().to_vec())), behavior.run(&Input::Bytes(THREE_RECORDS.as_bytes().to_vec())));
}

#[test]
fn report_slots_renders_the_given_dates() {
    let dates = vec![Some("2024-02-29T09:30:00Z".to_string()), None, Some("2024-02-29T09:31:00Z".to_string())];
    let report = report_slots(Target::Console, OutputFormat::Stdout, &dates);
    assert_eq!(report.lines[19], "09:30-10:00\t2");
    assert_eq!(report.lines[48], "Analyzed 2 messages");
}

#[test]
fn the_slot_summary_names_the_number_analyzed() {
    assert_eq!(write_slot_summary(0), "Analyzed 0 messages");
    assert_eq!(write_slot_summary(1048576), "Analyzed 1048576 messages");
}

#[test]
fn the_slot_constructor_defaults_to_the_console() {
    let behavior = CountTimeSlots::new("p".to_string(), None, None);
    assert_eq!(behavior.format, OutputFormat::Stdout);
    assert_eq!(behavior.input_path, "p");
    assert_eq!(behavior.output_dir, None);
    assert_eq!(behavior.behavior_type(), BehaviorType::TimeSlot);
    assert_eq!(behavior.reads(), Reads::Bytes);
    assert_eq!(behavior.input_path(), "p");
}

#[test]
fn lines_are_no_source_for_the_slot_count() {
    let behavior = CountTimeSlots::new("in.txt".to_string(), None, None);
    assert_eq!(behavior.run(&Input::Lines(vec!["[]".to_string()])), Err(AnalysisError::InputNotFound));
}

#[test]
fn a_refused_document_is_explained_in_the_parsers_words() {
    let behavior = CountTimeSlots::new("r.json".to_string(), None, None);
    let broken = Input::Bytes(b"[{\"date\":".to_vec());
    assert_eq!(behavior.run(&broken), Err(AnalysisError::InvalidJson));
    let told = behavior.explain(&broken, AnalysisError::InvalidJson);
    assert!(told.starts_with("Input is not a JSON document: r.json: "));
    assert!(told.ends_with("line 1 column 9"));
    let second_line = Input::Bytes(b"[\n  {\"date\": tomorrow}\n]".to_vec());
    let told = behavior.explain(&second_line, AnalysisError::InvalidJson);
    assert!(told.starts_with("Input is not a JSON document: r.json: "));
    assert!(told.contains("line 2 column"));
}

#[test]
fn other_failures_are_explained_by_their_description() {
    let behavior = CountTimeSlots::new("r.json".to_string(), None, None);
    assert_eq!(
        behavior.explain(&Input::Missing, AnalysisError::InputNotFound),
        "Input file not found: r.json"
    );
    assert_eq!(
        behavior.explain(&Input::Bytes(b"{}".to_vec()), AnalysisError::MalformedDocument),
        "Expected top-level JSON array"
    );
    assert_eq!(
        behavior.explain(&Input::Bytes(b"[]".to_vec()), AnalysisError::InvalidJson),
        "Input is not a JSON document: r.json"
    );
    assert_eq!(
        behavior.explain(&Input::Missing, AnalysisError::InvalidJson),
        "Input is not a JSON document: r.json"
    );
}
