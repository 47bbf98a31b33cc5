use vstd::prelude::*;
use vstd::string::StringExecFns;

verus! {

/// Where and how a table is emitted.
#[derive(Debug, Clone, Copy, PartialEq, Eq, Structural)]
pub enum OutputFormat {
    /// Printed to standard output.
    Stdout,
    /// A tab-delimited file in the destination directory.
    Txt,
    /// A quoted, comma-separated file in the destination directory.
    Csv,
}

/// The fatal failures of an analysis.
#[derive(Debug, Clone, Copy, PartialEq, Eq, Structural)]
pub enum AnalysisError {
    /// The input path names no regular file.
    InputNotFound,
    /// The input is not a JSON document at all.
    InvalidJson,
    /// The document's top-level value is not an array.
    MalformedDocument,
    /// The URL pattern was not accepted by the pattern engine.
    InvalidPattern,
    /// Creating the destination directory or writing the file failed.
    OutputWriteFailure,
    /// A file format was requested without a destination directory.
    ValidationError,
}

/// What a failure tells the user; `path` is the path of the input.
pub open spec fn description(error: AnalysisError, path: Seq<char>) -> Seq<char> {
    match error {
        AnalysisError::InputNotFound => "Input file not found: "@ + path,
        AnalysisError::InvalidJson => "Input is not a JSON document: "@ + path,
        AnalysisError::MalformedDocument => "Expected top-level JSON array"@,
        AnalysisError::InvalidPattern => "The URL pattern was not accepted"@,
        AnalysisError::OutputWriteFailure => "Could not write the results for: "@ + path,
        AnalysisError::ValidationError => "Error: --format not ‘stdout’ requires --output <folder>"@,
    }
}

/// A description followed by a colon and further words.
pub open spec fn with_words(base: Seq<char>, words: Seq<char>) -> Seq<char> {
    base + ": "@ + words
}

/// Writes what a failure tells the user.
pub fn describe(error: AnalysisError, path: &str) -> (out: String)
    ensures
        out@ == description(error, path@),
{
    match error {
        AnalysisError::InputNotFound => {
            let mut out = String::from_str("Input file not found: ");
            out.append(path);
            out
        },
        AnalysisError::InvalidJson => {
            let mut out = String::from_str("Input is not a JSON document: ");
            out.append(path);
            out
        },
        AnalysisError::MalformedDocument => String::from_str("Expected top-level JSON array"),
        AnalysisError::InvalidPattern => String::from_str("The URL pattern was not accepted"),
        AnalysisError::OutputWriteFailure => {
            let mut out = String::from_str("Could not write the results for: ");
            out.append(path);
            out
        },
        AnalysisError::ValidationError => String::from_str(
            "Error: --format not ‘stdout’ requires --output <folder>",
        ),
    }
}

/// One line of a result table.
#[derive(Debug, Clone, PartialEq, Eq)]
pub struct AnalysisRow {
    pub label: String,
    pub count: usize,
}

/// The mathematical value of an [`AnalysisRow`].
pub struct RowSpec {
    pub label: Seq<char>,
    pub count: nat,
}

impl View for AnalysisRow {
    type V = RowSpec;

    open spec fn view(&self) -> RowSpec {
        RowSpec { label: self.label@, count: self.count as nat }
    }
}

/// The values of a sequence of rows, in order.
pub open spec fn rows_view(rows: Seq<AnalysisRow>) -> Seq<RowSpec> {
    Seq::new(rows.len(), |i: int| rows[i]@)
}

/// The values of a sequence of strings, in order.
pub open spec fn texts(items: Seq<String>) -> Seq<Seq<char>> {
    Seq::new(items.len(), |i: int| items[i]@)
}

/// The value of an optional string.
pub open spec fn optional_text(item: Option<String>) -> Option<Seq<char>> {
    match item {
        Some(s) => Some(s@),
        None => None,
    }
}

/// Where a report goes.
#[derive(Debug, Clone, PartialEq, Eq)]
pub enum Target {
    /// Standard output.
    Console,
    /// The file `name` directly under the directory `dir`, which is created if absent.
    File { dir: String, name: String },
}

/// The mathematical value of a [`Target`].
pub enum TargetSpec {
    Console,
    File { dir: Seq<char>, name: Seq<char> },
}

impl View for Target {
    type V = TargetSpec;

    open spec fn view(&self) -> TargetSpec {
        match self {
            Target::Console => TargetSpec::Console,
            Target::File { dir, name } => TargetSpec::File { dir: dir@, name: name@ },
        }
    }
}

/// What a behavior emits: the lines of its output, each to be ended by a line feed, and
/// where they go. Once a file is written, `saved_notice` followed by the file's path is
/// the line that says so on the console; for the console it is empty.
#[derive(Debug, Clone, PartialEq, Eq)]
pub struct Report {
    pub target: Target,
    pub lines: Vec<String>,
    pub saved_notice: String,
}

/// The mathematical value of a [`Report`].
pub struct ReportSpec {
    pub target: TargetSpec,
    pub lines: Seq<Seq<char>>,
    pub saved_notice: Seq<char>,
}

impl View for Report {
    type V = ReportSpec;

    open spec fn view(&self) -> ReportSpec {
        ReportSpec {
            target: self.target@,
            lines: texts(self.lines@),
            saved_notice: self.saved_notice@,
        }
    }
}

/// The value of the outcome of a behavior.
pub open spec fn outcome_view(out: Result<Report, AnalysisError>) -> Result<
    ReportSpec,
    AnalysisError,
> {
    match out {
        Ok(report) => Ok(report@),
        Err(e) => Err(e),
    }
}

/// Where the table of an analysis goes: to the console, or to the file `stem` with the
/// format's extension under the destination directory.
pub open spec fn target_for(format: OutputFormat, dir: Option<Seq<char>>, stem: Seq<char>) -> Option<
    TargetSpec,
> {
    match format {
        OutputFormat::Stdout => Some(TargetSpec::Console),
        OutputFormat::Txt => match dir {
            Some(d) => Some(TargetSpec::File { dir: d, name: stem + ".txt"@ }),
            None => None,
        },
        OutputFormat::Csv => match dir {
            Some(d) => Some(TargetSpec::File { dir: d, name: stem + ".csv"@ }),
            None => None,
        },
    }
}

/// Checks the output configuration: a file format needs a destination directory.
/// Nothing is read or written.
pub fn plan_target(format: OutputFormat, output_dir: &Option<String>, stem: &str) -> (out: Result<
    Target,
    AnalysisError,
>)
    ensures
        match out {
            Ok(target) => target_for(format, optional_text(*output_dir), stem@) == Some(target@),
            Err(e) => e == AnalysisError::ValidationError && target_for(
                format,
                optional_text(*output_dir),
                stem@,
            ) is None,
        },
{
    match format {
        OutputFormat::Stdout => Ok(Target::Console),
        OutputFormat::Txt => match output_dir {
            Some(dir) => {
                let mut name = String::from_str(stem);
                name.append(".txt");
                Ok(Target::File { dir: dir.clone(), name })
            },
            None => Err(AnalysisError::ValidationError),
        },
        OutputFormat::Csv => match output_dir {
            Some(dir) => {
                let mut name = String::from_str(stem);
                name.append(".csv");
                Ok(Target::File { dir: dir.clone(), name })
            },
            None => Err(AnalysisError::ValidationError),
        },
    }
}

/// The notice of a behavior that has no analysis yet: the path between two fixed texts.
pub open spec fn notice(prefix: Seq<char>, path: Seq<char>, suffix: Seq<char>) -> Seq<char> {
    prefix + path + suffix
}

/// The report of a behavior that has no analysis yet: its notice, on the console.
pub open spec fn notice_report(prefix: Seq<char>, path: Seq<char>, suffix: Seq<char>) -> ReportSpec {
    ReportSpec {
        target: TargetSpec::Console,
        lines: seq![notice(prefix, path, suffix)],
        saved_notice: Seq::empty(),
    }
}

/// Writes the report of a behavior that has no analysis yet.
pub fn write_notice(prefix: &str, path: &str, suffix: &str) -> (out: Report)
    ensures
        out@ == notice_report(prefix@, path@, suffix@),
{
    let mut line = String::from_str(prefix);
    line.append(path);
    line.append(suffix);
    let mut lines: Vec<String> = Vec::new();
    lines.push(line);
    let out = Report { target: Target::Console, lines, saved_notice: String::new() };
    assert(out@.lines =~= seq![notice(prefix@, path@, suffix@)]);
    out
}

/// The sum of the counts of `rows`.
pub open spec fn count_sum(rows: Seq<RowSpec>) -> nat
    decreases rows.len(),
{
    if rows.len() == 0 {
        0
    } else {
        count_sum(rows.drop_last()) + rows.last().count
    }
}

/// Rows without counts sum to nothing.
pub proof fn lemma_count_sum_zero(rows: Seq<RowSpec>)
    requires
        forall|i: int| 0 <= i < rows.len() ==> (#[trigger] rows[i]).count == 0,
    ensures
        count_sum(rows) == 0,
    decreases rows.len(),
{
    if rows.len() > 0 {
        assert(rows.last().count == 0);
        assert forall|i: int| 0 <= i < rows.drop_last().len() implies (#[trigger] rows.drop_last()[i]).count == 0 by {
            assert(rows[i].count == 0);
        }
        lemma_count_sum_zero(rows.drop_last());
    }
}

/// Where `b` differs from `a` only in that the count at `at` is one higher, its sum is
/// one higher; where `at` is no index and all counts agree, the sums agree.
pub proof fn lemma_count_sum_bump(a: Seq<RowSpec>, b: Seq<RowSpec>, at: int)
    requires
        a.len() == b.len(),
        forall|i: int| 0 <= i < a.len() && i != at ==> (#[trigger] b[i]).count == a[i].count,
        0 <= at < a.len() ==> b[at].count == a[at].count + 1,
    ensures
        count_sum(b) == count_sum(a) + if 0 <= at < a.len() { 1nat } else { 0nat },
    decreases a.len(),
{
    if a.len() > 0 {
        let a0 = a.drop_last();
        let b0 = b.drop_last();
        assert forall|i: int| 0 <= i < a0.len() && i != at implies (#[trigger] b0[i]).count == a0[i].count by {
            assert(b[i].count == a[i].count);
        }
        lemma_count_sum_bump(a0, b0, at);
        if at != a.len() - 1 {
            assert(b[a.len() - 1].count == a[a.len() - 1].count);
        }
    }
}

} // verus!
