use telegram_analyzer::behavior::{Behavior, BehaviorType, Input, Reads};
use telegram_analyzer::behaviors::count_urls::{extract_urls, write_url_summary, CountUrls};
use telegram_analyzer::common::{AnalysisError, AnalysisRow, OutputFormat, Target};
use telegram_analyzer::ranking::{precedes, rank_rows, rank_urls, tally_labels};
use telegram_analyzer::text::{compare_labels, Standing};

fn strings(items: &[&str]) -> Vec<String> {
    items.iter().map(|s| s.to_string()).collect()
}

fn row(label: &str, count: usize) -> AnalysisRow {
    AnalysisRow { label: label.to_string(), count }
}

#[test]
fn two_lines_are_counted_and_ranked() {
    let lines = strings(&["see https://a.com/x and https://b.com/y", "again https://a.com/x"]);
    let behavior = CountUrls::new("chat.log".to_string(), None, None);
    let report = behavior.run(&Input::Lines(lines.clone())).unwrap();
    assert_eq!(report.target, Target::Console);
    assert_eq!(
        report.lines,
        strings(&[
            "2\thttps://a.com/x",
            "1\thttps://b.com/y",
            "→ CountUrls: Found 2 unique URLs (printed to stdout)",
        ])
    );
}

#[test]
fn urls_are_extracted_in_order_of_occurrence() {
    let lines = strings(&["see https://a.com/x and https://b.com/y", "again https://a.com/x"]);
    assert_eq!(
        extract_urls(&lines),
        Ok(strings(&["https://a.com/x", "https://b.com/y", "https://a.com/x"]))
    );
}

#[test]
fn a_url_ends_at_the_first_character_outside_the_class() {
    let lines = strings(&[
        "(http://x.org/a?b=c+d_e-f), https://y.io/p#frag ftp://no.pe http:// https://Z9",
        "no links here",
        "http://a.bhttp://c.d",
    ]);
    assert_eq!(
        extract_urls(&lines),
        Ok(strings(&["http://x.org/a?b=c+d_e-f", "https://y.io/p", "https://Z9", "http://a.bhttp"]))
    );
}

#[test]
fn urls_differing_in_case_or_query_are_distinct() {
    let lines = strings(&["http://a.com/X http://a.com/x http://a.com/x?q=1 http://a.com/x"]);
    let rows = rank_urls(&extract_urls(&lines).unwrap());
    assert_eq!(rows, vec![row("http://a.com/x", 2), row("http://a.com/X", 1), row("http://a.com/x?q=1", 1)]);
}

#[test]
fn no_lines_give_only_the_summary() {
    let behavior = CountUrls::new("empty.log".to_string(), None, Some(OutputFormat::Stdout));
    let report = behavior.run(&Input::Lines(Vec::new())).unwrap();
    assert_eq!(report.lines, strings(&["→ CountUrls: Found 0 unique URLs (printed to stdout)"]));
}

#[test]
fn ties_are_broken_by_byte_order() {
    let urls = strings(&["http://b", "http://a", "http://c", "http://c", "http://B", "http://a/"]);
    let rows = rank_urls(&urls);
    assert_eq!(
        rows,
        vec![row("http://c", 2), row("http://B", 1), row("http://a", 1), row("http://a/", 1), row("http://b", 1)]
    );
}

#[test]
fn higher_counts_precede_lower_ones() {
    let urls = strings(&["z", "a", "z", "m", "m", "z"]);
    let rows = rank_urls(&urls);
    assert_eq!(rows, vec![row("z", 3), row("m", 2), row("a", 1)]);
    for i in 0..rows.len() {
        for j in (i + 1)..rows.len() {
            assert!(precedes(&rows[i], &rows[j]));
            assert!(!precedes(&rows[j], &rows[i]));
        }
    }
}

#[test]
fn tally_keeps_order_of_first_occurrence() {
    let items = strings(&["b", "a", "b", "c", "a", "b"]);
    assert_eq!(tally_labels(&items), vec![row("b", 3), row("a", 2), row("c", 1)]);
    assert_eq!(tally_labels(&Vec::new()), Vec::<AnalysisRow>::new());
}

#[test]
fn rank_rows_sorts_rows_with_distinct_labels() {
    let rows = vec![row("b", 1), row("a", 1), row("c", 5), row("", 1)];
    assert_eq!(rank_rows(rows), vec![row("c", 5), row("", 1), row("a", 1), row("b", 1)]);
}

#[test]
fn labels_compare_by_their_bytes() {
    assert_eq!(compare_labels("abc", "abd"), Standing::Before);
    assert_eq!(compare_labels("abd", "abc"), Standing::After);
    assert_eq!(compare_labels("ab", "abc"), Standing::Before);
    assert_eq!(compare_labels("abc", "ab"), Standing::After);
    assert_eq!(compare_labels("", ""), Standing::Same);
    assert_eq!(compare_labels("same", "same"), Standing::Same);
    assert_eq!(compare_labels("Z", "a"), Standing::Before);
    assert_eq!(compare_labels("é", "z"), Standing::After);
    assert_eq!(compare_labels("", "a"), Standing::Before);
}

#[test]
fn text_file_holds_rows_and_short_summary() {
    let lines = strings(&["https://a.com/x https://a.com/x http://b.org"]);
    let behavior = CountUrls::new("in.txt".to_string(), Some("out/dir".to_string()), Some(OutputFormat::Txt));
    let report = behavior.run(&Input::Lines(lines.clone())).unwrap();
    assert_eq!(report.target, Target::File { dir: "out/dir".to_string(), name: "urls_count.txt".to_string() });
    assert_eq!(
        report.lines,
        strings(&["2\thttps://a.com/x", "1\thttp://b.org", "→ CountUrls: Found 2 unique URLs"])
    );
}

#[test]
fn csv_file_holds_header_quoted_rows_and_summary() {
    let lines = strings(&["https://a.com/x https://a.com/x http://b.org"]);
    let behavior = CountUrls::new("in.txt".to_string(), Some("out".to_string()), Some(OutputFormat::Csv));
    let report = behavior.run(&Input::Lines(lines.clone())).unwrap();
    assert_eq!(report.target, Target::File { dir: "out".to_string(), name: "urls_count.csv".to_string() });
    assert_eq!(
        report.lines,
        strings(&[
            "\"URL\",\"Count\"",
            "\"https://a.com/x\",\"2\"",
            "\"http://b.org\",\"1\"",
            "\"→ CountUrls: Found 2 unique URLs\",\"\"",
        ])
    );
}

#[test]
fn csv_and_text_carry_the_same_cells() {
    let lines = strings(&["https://a.com/x https://a.com/x http://b.org", "http://c.d/e?f=g"]);
    let text = CountUrls::new("in".to_string(), Some("o".to_string()), Some(OutputFormat::Txt))
        .run(&Input::Lines(lines.clone()))
        .unwrap();
    let csv = CountUrls::new("in".to_string(), Some("o".to_string()), Some(OutputFormat::Csv))
        .run(&Input::Lines(lines.clone()))
        .unwrap();
    assert_eq!(text.lines.len(), 4);
    assert_eq!(csv.lines.len(), 5);
    for i in 0..3 {
        let (count, url) = text.lines[i].split_once('\t').unwrap();
        let quoted = &csv.lines[i + 1];
        let (quoted_url, quoted_count) = quoted[1..quoted.len() - 1].rsplit_once("\",\"").unwrap();
        assert_eq!(url, quoted_url);
        assert_eq!(count, quoted_count);
    }
}

#[test]
fn a_file_format_without_directory_is_refused_for_urls() {
    let lines = strings(&["https://a.com/x"]);
    let csv = CountUrls::new("in.txt".to_string(), None, Some(OutputFormat::Csv));
    assert_eq!(csv.run(&Input::Lines(lines.clone())), Err(AnalysisError::ValidationError));
    assert_eq!(csv.run(&Input::Missing), Err(AnalysisError::ValidationError));
    let txt = CountUrls::new("in.txt".to_string(), None, Some(OutputFormat::Txt));
    assert_eq!(txt.run(&Input::Lines(lines.clone())), Err(AnalysisError::ValidationError));
}

#[test]
fn a_missing_source_is_reported_for_urls() {
    let behavior = CountUrls::new("nowhere.txt".to_string(), None, None);
    assert_eq!(behavior.run(&Input::Missing), Err(AnalysisError::InputNotFound));
    let to_file = CountUrls::new("nowhere.txt".to_string(), Some("out".to_string()), Some(OutputFormat::Csv));
    assert_eq!(to_file.run(&Input::Missing), Err(AnalysisError::InputNotFound));
}

#[test]
fn the_url_count_is_repeatable() {
    let lines = strings(&["https://a.com/x https://b.com http://c", "http://c https://a.com/x"]);
    let behavior = CountUrls::new("in".to_string(), Some("o".to_string()), Some(OutputFormat::Csv));
    assert_eq!(behavior.run(&Input::Lines(lines.clone())), behavior.run(&Input::Lines(lines.clone())));
}

#[test]
fn the_constructor_defaults_to_the_console() {
    let behavior = CountUrls::new("p".to_string(), Some("d".to_string()), None);
    assert_eq!(behavior.format, OutputFormat::Stdout);
    assert_eq!(behavior.input_path, "p");
    assert_eq!(behavior.output_dir, Some("d".to_string()));
    assert_eq!(behavior.behavior_type(), BehaviorType::UrlCount);
    assert_eq!(behavior.reads(), Reads::Lines);
    assert_eq!(behavior.input_path(), "p");
    assert_eq!(behavior.run(&Input::Lines(Vec::new())).unwrap().target, Target::Console);
}

#[test]
fn the_url_summary_names_the_number_of_distinct_urls() {
    assert_eq!(write_url_summary(0, OutputFormat::Txt), "→ CountUrls: Found 0 unique URLs");
    assert_eq!(write_url_summary(12, OutputFormat::Csv), "→ CountUrls: Found 12 unique URLs");
    assert_eq!(
        write_url_summary(305, OutputFormat::Stdout),
        "→ CountUrls: Found 305 unique URLs (printed to stdout)"
    );
}

#[test]
fn bytes_are_no_source_for_the_url_count() {
    let behavior = CountUrls::new("in.bin".to_string(), None, None);
    assert_eq!(behavior.run(&Input::Bytes(b"https://a.com".to_vec())), Err(AnalysisError::InputNotFound));
}

#[test]
fn the_quoted_url_table_has_the_url_first() {
    let lines = strings(&["see https://a.com/x and https://b.com/y", "again https://a.com/x"]);
    let behavior = CountUrls::new("chat.log".to_string(), Some("out/deep".to_string()), Some(OutputFormat::Csv));
    let report = behavior.run(&Input::Lines(lines)).unwrap();
    assert_eq!(report.target, Target::File { dir: "out/deep".to_string(), name: "urls_count.csv".to_string() });
    assert_eq!(
        report.lines,
        strings(&[
            "\"URL\",\"Count\"",
            "\"https://a.com/x\",\"2\"",
            "\"https://b.com/y\",\"1\"",
            "\"→ CountUrls: Found 2 unique URLs\",\"\"",
        ])
    );
    assert_eq!(report.saved_notice, "→ CountUrls: Results saved to ");
}

#[test]
fn the_counts_of_the_ranking_sum_to_the_number_of_matches() {
    let lines = strings(&["http://a http://b http://a", "", "x http://c http://a http://b"]);
    let urls = extract_urls(&lines).unwrap();
    assert_eq!(urls.len(), 6);
    let rows = rank_urls(&urls);
    assert_eq!(rows.iter().map(|r| r.count).sum::<usize>(), urls.len());
    assert_eq!(tally_labels(&urls).iter().map(|r| r.count).sum::<usize>(), 6);
}
