use telegram_analyzer::common::{
    describe, plan_target, write_notice, AnalysisError, AnalysisRow, OutputFormat, Target,
};
use telegram_analyzer::render::{
    decimal_text, digit_text, render_csv, render_text, two_digit_text, write_csv_line, write_text_line,
};

fn row(label: &str, count: usize) -> AnalysisRow {
    AnalysisRow { label: label.to_string(), count }
}

#[test]
fn numbers_are_written_in_decimal() {
    assert_eq!(decimal_text(0), "0");
    assert_eq!(decimal_text(7), "7");
    assert_eq!(decimal_text(10), "10");
    assert_eq!(decimal_text(1234567890), "1234567890");
    assert_eq!(decimal_text(usize::MAX), usize::MAX.to_string());
    for d in 0..10usize {
        assert_eq!(digit_text(d), d.to_string());
    }
}

#[test]
fn two_digits_keep_a_leading_zero() {
    assert_eq!(two_digit_text(0), "00");
    assert_eq!(two_digit_text(7), "07");
    assert_eq!(two_digit_text(23), "23");
    assert_eq!(two_digit_text(99), "99");
}

#[test]
fn lines_are_delimited() {
    assert_eq!(write_text_line("a", "1"), "a\t1");
    assert_eq!(write_text_line("", ""), "\t");
    assert_eq!(write_csv_line("a", "1"), "\"a\",\"1\"");
    assert_eq!(write_csv_line("x y", ""), "\"x y\",\"\"");
}

#[test]
fn text_rendering_keeps_the_order_given() {
    let rows = vec![row("b", 1), row("a", 20), row("c", 3)];
    assert_eq!(render_text(&rows, false, "done"), vec!["b\t1", "a\t20", "c\t3", "done"]);
    assert_eq!(render_text(&rows, true, "done"), vec!["1\tb", "20\ta", "3\tc", "done"]);
    assert_eq!(render_text(&Vec::new(), true, "nothing"), vec!["nothing"]);
}

#[test]
fn csv_rendering_has_header_rows_and_summary() {
    let rows = vec![row("b", 1), row("a", 20)];
    assert_eq!(
        render_csv(&rows, false, "Slot", "Count", "done"),
        vec!["\"Slot\",\"Count\"", "\"b\",\"1\"", "\"a\",\"20\"", "\"done\",\"\""]
    );
    assert_eq!(
        render_csv(&rows, false, "URL", "Count", "done"),
        vec!["\"URL\",\"Count\"", "\"b\",\"1\"", "\"a\",\"20\"", "\"done\",\"\""]
    );
    assert_eq!(
        render_csv(&rows, true, "N", "Name", "done"),
        vec!["\"N\",\"Name\"", "\"1\",\"b\"", "\"20\",\"a\"", "\"done\",\"\""]
    );
    assert_eq!(render_csv(&Vec::new(), true, "A", "B", "s"), vec!["\"A\",\"B\"", "\"s\",\"\""]);
}

#[test]
fn the_target_follows_the_format() {
    let dir = Some("out".to_string());
    assert_eq!(plan_target(OutputFormat::Stdout, &None, "table"), Ok(Target::Console));
    assert_eq!(plan_target(OutputFormat::Stdout, &dir, "table"), Ok(Target::Console));
    assert_eq!(
        plan_target(OutputFormat::Txt, &dir, "table"),
        Ok(Target::File { dir: "out".to_string(), name: "table.txt".to_string() })
    );
    assert_eq!(
        plan_target(OutputFormat::Csv, &dir, "table"),
        Ok(Target::File { dir: "out".to_string(), name: "table.csv".to_string() })
    );
    assert_eq!(plan_target(OutputFormat::Txt, &None, "table"), Err(AnalysisError::ValidationError));
    assert_eq!(plan_target(OutputFormat::Csv, &None, "table"), Err(AnalysisError::ValidationError));
}

#[test]
fn a_notice_wraps_the_path() {
    let report = write_notice("Doing \"", "a/b.json", "\" now...");
    assert_eq!(report.target, Target::Console);
    assert_eq!(report.lines, vec!["Doing \"a/b.json\" now..."]);
}

#[test]
fn failures_are_described() {
    assert_eq!(describe(AnalysisError::InputNotFound, "a/b.txt"), "Input file not found: a/b.txt");
    assert_eq!(describe(AnalysisError::InvalidJson, "r.json"), "Input is not a JSON document: r.json");
    assert_eq!(describe(AnalysisError::MalformedDocument, "r.json"), "Expected top-level JSON array");
    assert_eq!(describe(AnalysisError::InvalidPattern, "x"), "The URL pattern was not accepted");
    assert_eq!(describe(AnalysisError::OutputWriteFailure, "x"), "Could not write the results for: x");
    assert_eq!(
        describe(AnalysisError::ValidationError, "x"),
        "Error: --format not ‘stdout’ requires --output <folder>"
    );
}
