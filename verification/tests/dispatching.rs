use telegram_analyzer::behavior::{Behavior, BehaviorType, Input, Reads};
use telegram_analyzer::behaviors::count_daily::CountDaily;
use telegram_analyzer::behaviors::diffusion::Diffusion;
use telegram_analyzer::behaviors::extract_urls::ExtractUrls;
use telegram_analyzer::behaviors::file_metadata::FileMetadata;
use telegram_analyzer::behaviors::list_extensions::ListExtensions;
use telegram_analyzer::behaviors::message_stats::MessageStats;
use telegram_analyzer::behaviors::shares::Shares;
use telegram_analyzer::behaviors::text_stats::TextStats;
use telegram_analyzer::behaviors::user_interactions::UserInteractions;
use telegram_analyzer::common::{AnalysisError, OutputFormat, Target};
use telegram_analyzer::dispatch::{all_behaviors, AnyBehavior, Batch, BatchStep};

const ORDER: [BehaviorType; 11] = [
    BehaviorType::Url,
    BehaviorType::UrlCount,
    BehaviorType::TimeSlot,
    BehaviorType::Daily,
    BehaviorType::Extensions,
    BehaviorType::FileMetadata,
    BehaviorType::UserInteractions,
    BehaviorType::MessageStats,
    BehaviorType::Diffusion,
    BehaviorType::Shares,
    BehaviorType::TextStats,
];

#[test]
fn all_behaviors_come_in_the_declared_order() {
    let all = all_behaviors("chat.json", "media", "photo.jpg");
    let kinds: Vec<BehaviorType> = all.iter().map(|b| b.behavior_type()).collect();
    assert_eq!(kinds, ORDER.to_vec());
    match &all[1] {
        AnyBehavior::CountUrls(b) => {
            assert_eq!(b.input_path, "chat.json");
            assert_eq!(b.output_dir, None);
            assert_eq!(b.format, OutputFormat::Stdout);
        }
        _ => panic!("the second behavior counts URLs"),
    }
    match &all[2] {
        AnyBehavior::CountTimeSlots(b) => {
            assert_eq!(b.input_path, "chat.json");
            assert_eq!(b.output_dir, None);
            assert_eq!(b.format, OutputFormat::Stdout);
        }
        _ => panic!("the third behavior counts time slots"),
    }
    match &all[4] {
        AnyBehavior::ListExtensions(b) => assert_eq!(b.folder_path, "media"),
        _ => panic!("the fifth behavior lists extensions"),
    }
    match &all[5] {
        AnyBehavior::FileMetadata(b) => assert_eq!(b.file_path, "photo.jpg"),
        _ => panic!("the sixth behavior reads file metadata"),
    }
    match &all[10] {
        AnyBehavior::TextStats(b) => assert_eq!(b.json_path, "chat.json"),
        _ => panic!("the last behavior computes text statistics"),
    }
}

#[test]
fn a_batch_of_all_runs_each_in_turn() {
    let batch = Batch::new(all_behaviors("j", "d", "f"), None);
    let mut step = batch.start();
    let mut ran = Vec::new();
    while let BatchStep::Run(i) = step {
        ran.push(i);
        step = batch.advance(i, Ok(()));
    }
    assert_eq!(step, BatchStep::Finished);
    assert_eq!(ran, (0..11).collect::<Vec<usize>>());
}

#[test]
fn a_batch_stops_at_the_first_failure() {
    let batch = Batch::new(all_behaviors("j", "d", "f"), None);
    assert_eq!(batch.start(), BatchStep::Run(0));
    assert_eq!(batch.advance(0, Ok(())), BatchStep::Run(1));
    assert_eq!(
        batch.advance(1, Err(AnalysisError::InputNotFound)),
        BatchStep::Failed(1, AnalysisError::InputNotFound)
    );
    assert_eq!(
        batch.advance(10, Err(AnalysisError::OutputWriteFailure)),
        BatchStep::Failed(10, AnalysisError::OutputWriteFailure)
    );
}

#[test]
fn a_group_runs_only_its_kind() {
    for (index, kind) in ORDER.iter().enumerate() {
        let batch = Batch::new(all_behaviors("j", "d", "f"), Some(*kind));
        assert_eq!(batch.start(), BatchStep::Run(index));
        assert_eq!(batch.next_to_run(0), Some(index));
        assert_eq!(batch.next_to_run(index), Some(index));
        assert_eq!(batch.next_to_run(index + 1), None);
        assert_eq!(batch.advance(index, Ok(())), BatchStep::Finished);
        assert_eq!(
            batch.advance(index, Err(AnalysisError::MalformedDocument)),
            BatchStep::Failed(index, AnalysisError::MalformedDocument)
        );
    }
}

#[test]
fn an_empty_batch_is_finished_at_once() {
    let batch = Batch::new(Vec::new(), None);
    assert_eq!(batch.start(), BatchStep::Finished);
    assert_eq!(batch.next_to_run(3), None);
    assert_eq!(batch.advance(0, Ok(())), BatchStep::Finished);
    assert_eq!(batch.advance(usize::MAX, Ok(())), BatchStep::Finished);
}

#[test]
fn placeholders_succeed_with_a_notice() {
    let path = "data/result.json".to_string();
    let cases = vec![
        (ExtractUrls::new(path.clone()).run(&Input::Missing), "ExtractUrls: would process JSON at \"data/result.json\"..."),
        (CountDaily::new(path.clone()).run(&Input::Missing), "CountDaily: would count daily events in \"data/result.json\"..."),
        (
            ListExtensions::new(path.clone()).run(&Input::Missing),
            "ListExtensions: would scan folder \"data/result.json\" for extensions...",
        ),
        (
            FileMetadata::new(path.clone()).run(&Input::Missing),
            "FileMetadata: would inspect file \"data/result.json\" to get name, format, size...",
        ),
        (
            UserInteractions::new(path.clone()).run(&Input::Missing),
            "UserInteractions: would analyze interactions in \"data/result.json\"...",
        ),
        (
            MessageStats::new(path.clone()).run(&Input::Missing),
            "MessageStats: would compute message & distinct-user counts in \"data/result.json\"...",
        ),
        (Diffusion::new(path.clone()).run(&Input::Missing), "Diffusion: would analyze media+link diffusion in \"data/result.json\"..."),
        (Shares::new(path.clone()).run(&Input::Missing), "Shares: would list user→media and user→link in \"data/result.json\"..."),
        (TextStats::new(path.clone()).run(&Input::Missing), "TextStats: would compute text metrics in \"data/result.json\"..."),
    ];
    for (outcome, notice) in cases {
        let report = outcome.unwrap();
        assert_eq!(report.target, Target::Console);
        assert_eq!(report.lines, vec![notice.to_string()]);
    }
}

#[test]
fn placeholders_have_their_kinds() {
    let p = String::new();
    assert_eq!(ExtractUrls::new(p.clone()).behavior_type(), BehaviorType::Url);
    assert_eq!(CountDaily::new(p.clone()).behavior_type(), BehaviorType::Daily);
    assert_eq!(ListExtensions::new(p.clone()).behavior_type(), BehaviorType::Extensions);
    assert_eq!(FileMetadata::new(p.clone()).behavior_type(), BehaviorType::FileMetadata);
    assert_eq!(UserInteractions::new(p.clone()).behavior_type(), BehaviorType::UserInteractions);
    assert_eq!(MessageStats::new(p.clone()).behavior_type(), BehaviorType::MessageStats);
    assert_eq!(Diffusion::new(p.clone()).behavior_type(), BehaviorType::Diffusion);
    assert_eq!(Shares::new(p.clone()).behavior_type(), BehaviorType::Shares);
    assert_eq!(TextStats::new(p.clone()).behavior_type(), BehaviorType::TextStats);
    assert_eq!(CountDaily::new("x.json".to_string()).json_path, "x.json");
    assert_eq!(CountDaily::new("x.json".to_string()).input_path(), "x.json");
    assert_eq!(ListExtensions::new("dir".to_string()).reads(), Reads::Nothing);
    assert_eq!(
        FileMetadata::new("a.bin".to_string()).run(&Input::Bytes(vec![1, 2, 3])),
        FileMetadata::new("a.bin".to_string()).run(&Input::Missing)
    );
}

#[test]
fn any_behavior_runs_what_it_holds() {
    let all = all_behaviors("chat.json", "media", "photo.jpg");
    let reads: Vec<Reads> = all.iter().map(|b| b.reads()).collect();
    let mut expected = vec![Reads::Nothing; 11];
    expected[1] = Reads::Lines;
    expected[2] = Reads::Bytes;
    assert_eq!(reads, expected);
    let paths: Vec<&str> = all.iter().map(|b| b.input_path()).collect();
    assert_eq!(
        paths,
        vec![
            "chat.json", "chat.json", "chat.json", "chat.json", "media", "photo.jpg", "chat.json", "chat.json",
            "chat.json", "chat.json", "chat.json",
        ]
    );
    let lines = Input::Lines(vec!["http://a.b http://a.b".to_string()]);
    assert_eq!(
        all[1].run(&lines).unwrap().lines,
        vec!["2\thttp://a.b", "→ CountUrls: Found 1 unique URLs (printed to stdout)"]
    );
    assert_eq!(all[1].run(&Input::Missing), Err(AnalysisError::InputNotFound));
    let document = Input::Bytes(br#"[{"date":"2020-05-05T05:05:05Z"}]"#.to_vec());
    let report = all[2].run(&document).unwrap();
    assert_eq!(report.lines[10], "05:00-05:30\t1");
    assert_eq!(report.lines[48], "Analyzed 1 messages");
    assert_eq!(all[2].run(&Input::Bytes(b"{}".to_vec())), Err(AnalysisError::MalformedDocument));
    assert_eq!(
        all[3].run(&Input::Missing).unwrap().lines,
        vec!["CountDaily: would count daily events in \"chat.json\"..."]
    );
}

#[test]
fn the_configuration_is_checked_without_input() {
    for behavior in all_behaviors("j", "d", "f") {
        assert_eq!(behavior.validate(), Ok(()));
    }
    let csv = AnyBehavior::CountUrls(
        telegram_analyzer::behaviors::count_urls::CountUrls::new("in".to_string(), None, Some(OutputFormat::Csv)),
    );
    assert_eq!(csv.validate(), Err(AnalysisError::ValidationError));
    let txt = AnyBehavior::CountTimeSlots(
        telegram_analyzer::behaviors::count_time_slots::CountTimeSlots::new(
            "in".to_string(),
            None,
            Some(OutputFormat::Txt),
        ),
    );
    assert_eq!(txt.validate(), Err(AnalysisError::ValidationError));
    let with_dir = telegram_analyzer::behaviors::count_urls::CountUrls::new(
        "in".to_string(),
        Some("out".to_string()),
        Some(OutputFormat::Csv),
    );
    assert_eq!(with_dir.validate(), Ok(()));
    assert_eq!(
        with_dir.target(),
        Ok(Target::File { dir: "out".to_string(), name: "urls_count.csv".to_string() })
    );
}

#[test]
fn any_behavior_explains_its_failures() {
    let all = all_behaviors("chat.json", "media", "photo.jpg");
    assert_eq!(
        all[1].explain(&Input::Missing, AnalysisError::InputNotFound),
        "Input file not found: chat.json"
    );
    assert_eq!(
        all[4].explain(&Input::Missing, AnalysisError::OutputWriteFailure),
        "Could not write the results for: media"
    );
    let told = all[2].explain(&Input::Bytes(b"[1,".to_vec()), AnalysisError::InvalidJson);
    assert!(told.starts_with("Input is not a JSON document: chat.json: "));
    assert!(told.len() > "Input is not a JSON document: chat.json: ".len());
}
