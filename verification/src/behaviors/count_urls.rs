use vstd::prelude::*;
use vstd::string::StringExecFns;
use crate::behavior::Behavior;
use crate::behavior::BehaviorType;
use crate::behavior::Input;
use crate::behavior::InputSpec;
use crate::behavior::Reads;
use crate::common::AnalysisError;
use crate::common::count_sum;
use crate::common::describe;
use crate::common::description;
use crate::common::optional_text;
use crate::common::OutputFormat;
use crate::common::plan_target;
use crate::common::Report;
use crate::common::ReportSpec;
use crate::common::rows_view;
use crate::common::RowSpec;
use crate::common::Target;
use crate::common::target_for;
use crate::common::TargetSpec;
use crate::common::texts;
use crate::pattern::compiles;
use crate::pattern::find_matches;
use crate::pattern::pattern_accepted;
use crate::pattern::pattern_matches;
use crate::ranking::is_ranking;
use crate::ranking::lemma_more_frequent_first;
use crate::ranking::lemma_ranking_unique;
use crate::ranking::lemma_tally_counts_sum;
use crate::ranking::rank_urls;
use crate::ranking::row_before;
use crate::render::cells;
use crate::render::csv_cells_by_count;
use crate::render::csv_lines;
use crate::render::decimal;
use crate::render::decimal_text;
use crate::render::lemma_cells_recovered;
use crate::render::lemma_count_cell_recovered;
use crate::render::lemma_decimal_is_plain;
use crate::render::render_csv;
use crate::render::render_text;
use crate::render::text_cells;
use crate::render::text_lines;

verus! {

/// Counts how often each URL occurs in a line-oriented text and ranks the URLs by
/// frequency.
pub struct CountUrls {
    pub input_path: String,
    pub output_dir: Option<String>,
    pub format: OutputFormat,
}

/// The URL grammar as a regular expression: `http` or `https`, `://`, then one or more
/// of letters, digits and `. / ? = + _ -`.
pub open spec fn url_pattern() -> Seq<char> {
    "https?://[A-Za-z0-9\\./\\?=\\+_\\-]+"@
}

/// The matches of `pattern` in each of `lines`, line after line.
pub open spec fn all_matches(pattern: Seq<char>, lines: Seq<Seq<char>>) -> Seq<Seq<char>>
    decreases lines.len(),
{
    if lines.len() == 0 {
        Seq::empty()
    } else {
        all_matches(pattern, lines.drop_last()) + pattern_matches(pattern, lines.last())
    }
}

/// The summary line of the URL table.
pub open spec fn url_summary(distinct: nat, format: OutputFormat) -> Seq<char> {
    let found = "→ CountUrls: Found "@ + decimal(distinct) + " unique URLs"@;
    if format == OutputFormat::Stdout {
        found + " (printed to stdout)"@
    } else {
        found
    }
}

/// The lines of the URL table. In the text form the count stands first, then the URL;
/// the quoted form has the URL first, under the header `"URL","Count"`.
pub open spec fn url_lines(rows: Seq<RowSpec>, format: OutputFormat) -> Seq<Seq<char>> {
    if format == OutputFormat::Csv {
        csv_lines(rows, false, ("URL"@, "Count"@), url_summary(rows.len(), format))
    } else {
        text_lines(rows, true, url_summary(rows.len(), format))
    }
}

/// What the console says of a written file, up to the file's path.
pub open spec fn url_saved_notice(format: OutputFormat) -> Seq<char> {
    if format == OutputFormat::Stdout {
        Seq::empty()
    } else {
        "→ CountUrls: Results saved to "@
    }
}

/// The report of the URL table with these rows.
pub open spec fn url_report(target: TargetSpec, format: OutputFormat, rows: Seq<RowSpec>) -> ReportSpec {
    ReportSpec { target, lines: url_lines(rows, format), saved_notice: url_saved_notice(format) }
}

/// `report` is the table of the ranking of `urls`, bound for `target`.
pub open spec fn is_url_table(
    report: ReportSpec,
    target: TargetSpec,
    format: OutputFormat,
    urls: Seq<Seq<char>>,
) -> bool {
    exists|rows: Seq<RowSpec>|
        is_ranking(rows, urls) && report == url_report(target, format, rows)
}

/// What the URL count yields. `input` is the lines of the source, or `None` where the
/// source is no regular file. The checks come in this order: the output configuration,
/// the source, the pattern.
pub open spec fn count_urls_yields(
    format: OutputFormat,
    dir: Option<Seq<char>>,
    input: Option<Seq<Seq<char>>>,
    out: Result<ReportSpec, AnalysisError>,
) -> bool {
    match target_for(format, dir, "urls_count"@) {
        None => out == Err::<ReportSpec, _>(AnalysisError::ValidationError),
        Some(target) => match input {
            None => out == Err::<ReportSpec, _>(AnalysisError::InputNotFound),
            Some(lines) => if !pattern_accepted(url_pattern()) {
                out == Err::<ReportSpec, _>(AnalysisError::InvalidPattern)
            } else {
                out matches Ok(report) && is_url_table(
                    report,
                    target,
                    format,
                    all_matches(url_pattern(), lines),
                )
            },
        },
    }
}

/// Collects the URLs of every line, in order of occurrence.
pub fn extract_urls(lines: &Vec<String>) -> (out: Result<Vec<String>, AnalysisError>)
    ensures
        match out {
            Ok(urls) => pattern_accepted(url_pattern()) && texts(urls@) == all_matches(
                url_pattern(),
                texts(lines@),
            ),
            Err(e) => e == AnalysisError::InvalidPattern && !pattern_accepted(url_pattern()),
        },
{
    let pattern = "https?://[A-Za-z0-9\\./\\?=\\+_\\-]+";
    if !compiles(pattern) {
        return Err(AnalysisError::InvalidPattern);
    }
    let mut urls: Vec<String> = Vec::new();
    let mut i: usize = 0;
    while i < lines.len()
        invariant
            i <= lines.len(),
            pattern@ == url_pattern(),
            pattern_accepted(url_pattern()),
            texts(urls@) == all_matches(url_pattern(), texts(lines@).take(i as int)),
        decreases lines.len() - i,
    {
        let ghost seen = texts(lines@).take(i as int);
        let ghost next = texts(lines@).take(i + 1);
        let ghost before = texts(urls@);
        match find_matches(pattern, lines[i].as_str()) {
            Some(found) => {
                let mut found = found;
                let ghost added = texts(found@);
                urls.append(&mut found);
                proof {
                    assert(next.drop_last() =~= seen);
                    assert(next.last() == lines@[i as int]@);
                    assert(texts(urls@) =~= before + added);
                }
            },
            None => {
                return Err(AnalysisError::InvalidPattern);
            },
        }
        i += 1;
    }
    proof {
        assert(texts(lines@).take(i as int) =~= texts(lines@));
    }
    Ok(urls)
}

/// Writes the summary line of the URL table.
pub fn write_url_summary(distinct: usize, format: OutputFormat) -> (out: String)
    ensures
        out@ == url_summary(distinct as nat, format),
{
    let mut out = String::from_str("→ CountUrls: Found ");
    let number = decimal_text(distinct);
    out.append(number.as_str());
    out.append(" unique URLs");
    if format == OutputFormat::Stdout {
        out.append(" (printed to stdout)");
    }
    out
}

impl CountUrls {
    /// A URL count on `input_path`. Without a format the table goes to standard output.
    pub fn new(input_path: String, output_dir: Option<String>, format: Option<OutputFormat>) -> (out:
        Self)
        ensures
            out.input_path == input_path,
            out.output_dir == output_dir,
            out.format == match format {
                Some(f) => f,
                None => OutputFormat::Stdout,
            },
    {
        let format = match format {
            Some(f) => f,
            None => OutputFormat::Stdout,
        };
        CountUrls { input_path, output_dir, format }
    }

    /// Where the table goes. A file format without a destination directory is refused;
    /// nothing is read or written to find that out.
    pub fn target(&self) -> (out: Result<Target, AnalysisError>)
        ensures
            match out {
                Ok(target) => target_for(self.format, optional_text(self.output_dir), "urls_count"@)
                    == Some(target@),
                Err(e) => e == AnalysisError::ValidationError && target_for(
                    self.format,
                    optional_text(self.output_dir),
                    "urls_count"@,
                ) is None,
            },
    {
        plan_target(self.format, &self.output_dir, "urls_count")
    }
}

impl Behavior for CountUrls {
    open spec fn kind(&self) -> BehaviorType {
        BehaviorType::UrlCount
    }

    open spec fn needs(&self) -> Reads {
        Reads::Lines
    }

    open spec fn source(&self) -> Seq<char> {
        self.input_path@
    }

    open spec fn configured(&self) -> bool {
        target_for(self.format, optional_text(self.output_dir), "urls_count"@) is Some
    }

    open spec fn yields(&self, input: InputSpec, out: Result<ReportSpec, AnalysisError>) -> bool {
        count_urls_yields(self.format, optional_text(self.output_dir), input.lines(), out)
    }

    open spec fn explains(&self, input: InputSpec, error: AnalysisError, out: Seq<char>) -> bool {
        out == description(error, self.source())
    }

    fn behavior_type(&self) -> (out: BehaviorType) {
        BehaviorType::UrlCount
    }

    fn reads(&self) -> (out: Reads) {
        Reads::Lines
    }

    fn input_path(&self) -> (out: &str) {
        self.input_path.as_str()
    }

    fn validate(&self) -> (out: Result<(), AnalysisError>) {
        match self.target() {
            Ok(_) => Ok(()),
            Err(e) => Err(e),
        }
    }

    /// Counts the URLs in the lines that were read. The output configuration is checked
    /// first; anything but lines counts as a source that is no regular file.
    fn run(&self, input: &Input) -> (out: Result<Report, AnalysisError>) {
        let target = match self.target() {
            Ok(target) => target,
            Err(e) => {
                return Err(e);
            },
        };
        let lines = match input {
            Input::Lines(lines) => lines,
            _ => {
                return Err(AnalysisError::InputNotFound);
            },
        };
        let urls = match extract_urls(lines) {
            Ok(urls) => urls,
            Err(e) => {
                return Err(e);
            },
        };
        let rows = rank_urls(&urls);
        let summary = write_url_summary(rows.len(), self.format);
        let lines = match self.format {
            OutputFormat::Csv => render_csv(&rows, false, "URL", "Count", summary.as_str()),
            _ => render_text(&rows, true, summary.as_str()),
        };
        let saved_notice = match self.format {
            OutputFormat::Stdout => String::new(),
            _ => String::from_str("→ CountUrls: Results saved to "),
        };
        let report = Report { target, lines, saved_notice };
        assert(is_url_table(report@, target@, self.format, texts(urls@))) by {
            assert(is_ranking(rows_view(rows@), texts(urls@)));
        }
        Ok(report)
    }

    fn explain(&self, input: &Input, error: AnalysisError) -> (out: String) {
        describe(error, self.input_path.as_str())
    }
}

/// Running the URL count again on the same input, with the same configuration, yields
/// the same: the outcome is determined, line for line.
pub proof fn lemma_count_urls_repeatable(
    behavior: CountUrls,
    source: InputSpec,
    first: Result<ReportSpec, AnalysisError>,
    second: Result<ReportSpec, AnalysisError>,
)
    requires
        behavior.yields(source, first),
        behavior.yields(source, second),
    ensures
        first == second,
{
    let format = behavior.format;
    let dir = optional_text(behavior.output_dir);
    let input = source.lines();
    if target_for(format, dir, "urls_count"@) is Some && input is Some && pattern_accepted(
        url_pattern(),
    ) {
        let target = target_for(format, dir, "urls_count"@).unwrap();
        let urls = all_matches(url_pattern(), input.unwrap());
        let a = choose|rows: Seq<RowSpec>|
            is_ranking(rows, urls) && first.unwrap() == url_report(target, format, rows);
        let b = choose|rows: Seq<RowSpec>|
            is_ranking(rows, urls) && second.unwrap() == url_report(target, format, rows);
        lemma_ranking_unique(a, b, urls);
    }
}

/// A file format without a destination directory fails the run with a validation
/// error, whatever the input: nothing needs to be read to refuse it.
pub proof fn lemma_unconfigured_run_fails(
    behavior: CountUrls,
    input: InputSpec,
    out: Result<ReportSpec, AnalysisError>,
)
    requires
        behavior.format != OutputFormat::Stdout,
        behavior.output_dir is None,
        behavior.yields(input, out),
    ensures
        !behavior.configured(),
        out == Err::<ReportSpec, AnalysisError>(AnalysisError::ValidationError),
{
}

/// Every report of the URL count renders the ranking of the URLs found: the rows of a
/// tally in which a URL that occurs more often stands before one that occurs less often,
/// and of two that occur equally often the one smaller in byte order stands first. The
/// counts of the rows sum to the number of matches.
pub proof fn lemma_report_is_ranked(
    behavior: CountUrls,
    source: InputSpec,
    out: Result<ReportSpec, AnalysisError>,
)
    requires
        behavior.yields(source, out),
        out is Ok,
    ensures
        source.lines() is Some,
        exists|rows: Seq<RowSpec>|
            {
                &&& is_ranking(rows, all_matches(url_pattern(), source.lines().unwrap()))
                &&& out.unwrap().lines == url_lines(rows, behavior.format)
                &&& count_sum(rows) == all_matches(url_pattern(), source.lines().unwrap()).len()
                &&& forall|i: int, j: int|
                    0 <= i < rows.len() && 0 <= j < rows.len() && row_before(
                        #[trigger] rows[i],
                        #[trigger] rows[j],
                    ) ==> i < j
            },
{
    let urls = all_matches(url_pattern(), source.lines().unwrap());
    let target = target_for(behavior.format, optional_text(behavior.output_dir), "urls_count"@).unwrap();
    let rows = choose|rows: Seq<RowSpec>|
        is_ranking(rows, urls) && out.unwrap() == url_report(target, behavior.format, rows);
    assert forall|i: int, j: int|
        0 <= i < rows.len() && 0 <= j < rows.len() && row_before(
            #[trigger] rows[i],
            #[trigger] rows[j],
        ) implies i < j by {
        lemma_more_frequent_first(rows, urls, i, j);
    }
    lemma_tally_counts_sum(rows, urls);
}

/// The text and the quoted rendering of the URL table carry the same data, in columns
/// of opposite order: stripped of delimiters and quotes, the line of each row holds in
/// the text its count and its URL, and in the quoted form its URL and its count,
/// whatever characters the URL is made of.
pub proof fn lemma_url_renderings_agree(rows: Seq<RowSpec>, i: int)
    requires
        0 <= i < rows.len(),
    ensures
        text_cells(url_lines(rows, OutputFormat::Txt)[i]) == (decimal(rows[i].count), rows[i].label),
        url_lines(rows, OutputFormat::Stdout)[i] == url_lines(rows, OutputFormat::Txt)[i],
        csv_cells_by_count(url_lines(rows, OutputFormat::Csv)[i + 1]) == (
            rows[i].label,
            decimal(rows[i].count),
        ),
        text_cells(url_lines(rows, OutputFormat::Txt)[i]).0 == csv_cells_by_count(
            url_lines(rows, OutputFormat::Csv)[i + 1],
        ).1,
        text_cells(url_lines(rows, OutputFormat::Txt)[i]).1 == csv_cells_by_count(
            url_lines(rows, OutputFormat::Csv)[i + 1],
        ).0,
{
    lemma_decimal_is_plain(rows[i].count);
    lemma_cells_recovered(cells(rows[i], true));
    lemma_count_cell_recovered(cells(rows[i], false));
}

} // verus!
