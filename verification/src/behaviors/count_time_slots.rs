use vstd::prelude::*;
use vstd::string::StringExecFns;
use crate::behavior::Behavior;
use crate::behavior::BehaviorType;
use crate::behavior::Input;
use crate::behavior::InputSpec;
use crate::behavior::Reads;
use crate::common::AnalysisError;
use crate::common::AnalysisRow;
use crate::common::count_sum;
use crate::common::describe;
use crate::common::description;
use crate::common::lemma_count_sum_bump;
use crate::common::lemma_count_sum_zero;
use crate::common::optional_text;
use crate::common::OutputFormat;
use crate::common::plan_target;
use crate::common::Report;
use crate::common::ReportSpec;
use crate::common::rows_view;
use crate::common::RowSpec;
use crate::common::Target;
use crate::common::target_for;
use crate::common::TargetSpec;
use crate::common::with_words;
use crate::document::fault_text;
use crate::document::json_array_field;
use crate::document::optional_texts;
use crate::document::read_array_field;
use crate::render::csv_cells;
use crate::render::csv_lines;
use crate::render::decimal;
use crate::render::decimal_text;
use crate::render::digit_char;
use crate::render::is_plain;
use crate::render::lemma_renderings_agree;
use crate::render::render_csv;
use crate::render::render_text;
use crate::render::text_cells;
use crate::render::text_lines;
use crate::render::two_digit_text;
use crate::render::two_digits;
use crate::timestamp::parse_time_of_day;
use crate::timestamp::rfc3339_time_of_day;
use crate::timestamp::TimeOfDay;

verus! {

/// Counts timestamped records by the half hour of the day, in UTC, into which they fall.
pub struct CountTimeSlots {
    pub input_path: String,
    pub output_dir: Option<String>,
    pub format: OutputFormat,
}

/// The slot of a time of day: two per hour, the second from minute 30 on.
pub open spec fn slot_of(time: TimeOfDay) -> int {
    2 * time.hour + if time.minute < 30 { 0int } else { 1int }
}

/// The label of a slot: `HH:00-HH:30`, or `HH:30-` and the next hour, which after 23 is 00.
pub open spec fn slot_label(slot: nat) -> Seq<char> {
    let hour = slot / 2;
    if slot % 2 == 0 {
        two_digits(hour) + ":00-"@ + two_digits(hour) + ":30"@
    } else {
        two_digits(hour) + ":30-"@ + two_digits((hour + 1) % 24) + ":00"@
    }
}

/// How many of `times` are present and fall into `slot`.
pub open spec fn slot_count(times: Seq<Option<TimeOfDay>>, slot: int) -> nat
    decreases times.len(),
{
    if times.len() == 0 {
        0
    } else {
        slot_count(times.drop_last(), slot) + match times.last() {
            Some(time) => if slot_of(time) == slot { 1nat } else { 0nat },
            None => 0nat,
        }
    }
}

/// How many of `times` are present.
pub open spec fn parsed_count(times: Seq<Option<TimeOfDay>>) -> nat
    decreases times.len(),
{
    if times.len() == 0 {
        0
    } else {
        parsed_count(times.drop_last()) + if times.last() is Some { 1nat } else { 0nat }
    }
}

/// Every time that is present is a time of day.
pub open spec fn all_wf(times: Seq<Option<TimeOfDay>>) -> bool {
    forall|i: int| 0 <= i < times.len() ==> ((#[trigger] times[i]) matches Some(t) ==> t.wf())
}

/// The time of day of each record: of its date where it has one that is an RFC 3339
/// timestamp, else none.
pub open spec fn record_times(dates: Seq<Option<Seq<char>>>) -> Seq<Option<TimeOfDay>> {
    Seq::new(
        dates.len(),
        |i: int|
            match dates[i] {
                Some(text) => rfc3339_time_of_day(text),
                None => None,
            },
    )
}

/// The 48 rows of the slot table, in the order of the day, whatever `times` holds.
pub open spec fn slot_rows_of(times: Seq<Option<TimeOfDay>>) -> Seq<RowSpec> {
    Seq::new(
        48,
        |slot: int| RowSpec { label: slot_label(slot as nat), count: slot_count(times, slot) },
    )
}

/// The counts per slot and the number of records counted.
#[derive(Debug, Clone, PartialEq, Eq)]
pub struct SlotTally {
    pub counts: Vec<usize>,
    pub total: usize,
}

impl SlotTally {
    /// There is one count for each of the 48 slots.
    pub open spec fn wf(&self) -> bool {
        self.counts@.len() == 48
    }

    /// The tally is that of `times`: one count per slot, and their number in all.
    pub open spec fn tallies(&self, times: Seq<Option<TimeOfDay>>) -> bool {
        &&& self.wf()
        &&& forall|slot: int| 0 <= slot < 48 ==> #[trigger] self.counts@[slot] == slot_count(times, slot)
        &&& self.total == parsed_count(times)
    }
}

/// A slot holds at most as many records as there are.
pub proof fn lemma_slot_count_bounded(times: Seq<Option<TimeOfDay>>, slot: int)
    ensures
        slot_count(times, slot) <= times.len(),
        parsed_count(times) <= times.len(),
    decreases times.len(),
{
    if times.len() > 0 {
        lemma_slot_count_bounded(times.drop_last(), slot);
    }
}

/// The slot of a time of day.
pub fn slot_index(time: TimeOfDay) -> (out: usize)
    requires
        time.wf(),
    ensures
        out == slot_of(time),
        out < 48,
{
    let hour: usize = time.hour as usize;
    if time.minute < 30 {
        2 * hour
    } else {
        2 * hour + 1
    }
}

/// Writes the label of a slot.
pub fn slot_label_text(slot: usize) -> (out: String)
    requires
        slot < 48,
    ensures
        out@ == slot_label(slot as nat),
{
    let hour: usize = slot / 2;
    let mut out = two_digit_text(hour);
    if slot % 2 == 0 {
        out.append(":00-");
        let end = two_digit_text(hour);
        out.append(end.as_str());
        out.append(":30");
    } else {
        out.append(":30-");
        let end = two_digit_text((hour + 1) % 24);
        out.append(end.as_str());
        out.append(":00");
    }
    out
}

/// Reads the time of day of each record's date. A record without a date, or with one
/// that is no RFC 3339 timestamp, has none.
pub fn read_times(dates: &Vec<Option<String>>) -> (out: Vec<Option<TimeOfDay>>)
    ensures
        out@ == record_times(optional_texts(dates@)),
        all_wf(out@),
{
    let mut out: Vec<Option<TimeOfDay>> = Vec::new();
    let mut i: usize = 0;
    while i < dates.len()
        invariant
            i <= dates.len(),
            out.len() == i,
            forall|k: int| 0 <= k < i ==> #[trigger] out@[k] == record_times(optional_texts(dates@))[k],
            all_wf(out@),
        decreases dates.len() - i,
    {
        let time = match &dates[i] {
            Some(text) => parse_time_of_day(text.as_str()),
            None => None,
        };
        out.push(time);
        i += 1;
    }
    assert(out@ =~= record_times(optional_texts(dates@)));
    out
}

/// Counts the times that are present, per slot and in all. Absent ones are passed over.
pub fn tally_slots(times: &Vec<Option<TimeOfDay>>) -> (out: SlotTally)
    requires
        all_wf(times@),
    ensures
        out.tallies(times@),
        count_sum(slot_rows_of(times@)) == out.total,
{
    let mut counts: Vec<usize> = Vec::new();
    while counts.len() < 48
        invariant
            counts.len() <= 48,
            forall|slot: int| 0 <= slot < counts.len() ==> #[trigger] counts@[slot] == 0,
        decreases 48 - counts.len(),
    {
        counts.push(0);
    }
    let mut total: usize = 0;
    let mut i: usize = 0;
    while i < times.len()
        invariant
            i <= times.len(),
            all_wf(times@),
            counts.len() == 48,
            forall|slot: int|
                0 <= slot < 48 ==> #[trigger] counts@[slot] == slot_count(times@.take(i as int), slot),
            total == parsed_count(times@.take(i as int)),
        decreases times.len() - i,
    {
        let ghost seen = times@.take(i as int);
        let ghost next = times@.take(i + 1);
        proof {
            assert(next.drop_last() =~= seen);
            assert(next.last() == times@[i as int]);
        }
        match times[i] {
            Some(time) => {
                let slot = slot_index(time);
                proof {
                    lemma_slot_count_bounded(seen, slot as int);
                }
                let bumped: usize = counts[slot] + 1;
                counts.set(slot, bumped);
                total = total + 1;
            },
            None => {},
        }
        i += 1;
    }
    proof {
        assert(times@.take(i as int) =~= times@);
        lemma_slot_counts_sum(times@);
    }
    SlotTally { counts, total }
}

/// The rows of the slot table: all 48 slots in the order of the day, each with its count.
pub fn slot_rows(tally: &SlotTally) -> (out: Vec<AnalysisRow>)
    requires
        tally.wf(),
    ensures
        out@.len() == 48,
        forall|slot: int|
            0 <= slot < 48 ==> (#[trigger] out@[slot])@ == (RowSpec {
                label: slot_label(slot as nat),
                count: tally.counts@[slot] as nat,
            }),
{
    let mut out: Vec<AnalysisRow> = Vec::new();
    let mut slot: usize = 0;
    while slot < 48
        invariant
            slot <= 48,
            out.len() == slot,
            tally.wf(),
            forall|s: int|
                0 <= s < slot ==> (#[trigger] out@[s])@ == (RowSpec {
                    label: slot_label(s as nat),
                    count: tally.counts@[s] as nat,
                }),
        decreases 48 - slot,
    {
        out.push(AnalysisRow { label: slot_label_text(slot), count: tally.counts[slot] });
        slot += 1;
    }
    out
}

/// The summary line of the slot table.
pub open spec fn slot_summary(analyzed: nat) -> Seq<char> {
    "Analyzed "@ + decimal(analyzed) + " messages"@
}

/// The lines of the slot table: the slot first, then its count.
pub open spec fn slot_lines(times: Seq<Option<TimeOfDay>>, format: OutputFormat) -> Seq<Seq<char>> {
    if format == OutputFormat::Csv {
        csv_lines(
            slot_rows_of(times),
            false,
            ("Slot"@, "Count"@),
            slot_summary(parsed_count(times)),
        )
    } else {
        text_lines(slot_rows_of(times), false, slot_summary(parsed_count(times)))
    }
}

/// What the console says of a written file, up to the file's path.
pub open spec fn slot_saved_notice(analyzed: nat, format: OutputFormat) -> Seq<char> {
    if format == OutputFormat::Stdout {
        Seq::empty()
    } else {
        "→ CountTimeSlots: Processed "@ + decimal(analyzed) + " messages, results saved to "@
    }
}

/// The table of the slot count for the dates of the records.
pub open spec fn slot_report(
    target: TargetSpec,
    format: OutputFormat,
    dates: Seq<Option<Seq<char>>>,
) -> ReportSpec {
    ReportSpec {
        target,
        lines: slot_lines(record_times(dates), format),
        saved_notice: slot_saved_notice(parsed_count(record_times(dates)), format),
    }
}

/// The times of day of the records of a document: of the elements of its top-level
/// array, in order. A source that holds no such array has none.
pub open spec fn document_times(input: Option<Seq<u8>>) -> Seq<Option<TimeOfDay>> {
    match input {
        Some(bytes) => match json_array_field(bytes, "date"@) {
            Some(Some(dates)) => record_times(dates),
            _ => Seq::empty(),
        },
        None => Seq::empty(),
    }
}

/// What the slot count yields. `input` is the bytes of the source, or `None` where the
/// source is no regular file. The checks come in this order: the output configuration,
/// the source, the document, its top-level value.
pub open spec fn count_time_slots_outcome(
    format: OutputFormat,
    dir: Option<Seq<char>>,
    input: Option<Seq<u8>>,
) -> Result<ReportSpec, AnalysisError> {
    match target_for(format, dir, "messages_per_slot"@) {
        None => Err(AnalysisError::ValidationError),
        Some(target) => match input {
            None => Err(AnalysisError::InputNotFound),
            Some(bytes) => match json_array_field(bytes, "date"@) {
                None => Err(AnalysisError::InvalidJson),
                Some(None) => Err(AnalysisError::MalformedDocument),
                Some(Some(dates)) => Ok(slot_report(target, format, dates)),
            },
        },
    }
}

/// Writes the summary line of the slot table.
pub fn write_slot_summary(analyzed: usize) -> (out: String)
    ensures
        out@ == slot_summary(analyzed as nat),
{
    let mut out = String::from_str("Analyzed ");
    let number = decimal_text(analyzed);
    out.append(number.as_str());
    out.append(" messages");
    out
}

/// Buckets the dates of the records and renders the table of all 48 slots.
pub fn report_slots(target: Target, format: OutputFormat, dates: &Vec<Option<String>>) -> (out:
    Report)
    ensures
        out@ == slot_report(target@, format, optional_texts(dates@)),
        all_wf(record_times(optional_texts(dates@))),
{
    let times = read_times(dates);
    let tally = tally_slots(&times);
    let rows = slot_rows(&tally);
    assert(rows_view(rows@) =~= slot_rows_of(times@));
    let summary = write_slot_summary(tally.total);
    let lines = match format {
        OutputFormat::Csv => render_csv(&rows, false, "Slot", "Count", summary.as_str()),
        _ => render_text(&rows, false, summary.as_str()),
    };
    let saved_notice = match format {
        OutputFormat::Stdout => String::new(),
        _ => {
            let mut notice = String::from_str("→ CountTimeSlots: Processed ");
            let number = decimal_text(tally.total);
            notice.append(number.as_str());
            notice.append(" messages, results saved to ");
            notice
        },
    };
    Report { target, lines, saved_notice }
}

impl CountTimeSlots {
    /// A slot count on `input_path`. Without a format the table goes to standard output.
    pub fn new(input_path: String, output_dir: Option<String>, format: Option<OutputFormat>) -> (out:
        Self)
        ensures
            out.input_path == input_path,
            out.output_dir == output_dir,
            out.format == match format {
                Some(f) => f,
                None => OutputFormat::Stdout,
            },
    {
        let format = match format {
            Some(f) => f,
            None => OutputFormat::Stdout,
        };
        CountTimeSlots { input_path, output_dir, format }
    }

    /// Where the table goes. A file format without a destination directory is refused;
    /// nothing is read or written to find that out.
    pub fn target(&self) -> (out: Result<Target, AnalysisError>)
        ensures
            match out {
                Ok(target) => target_for(self.format, optional_text(self.output_dir), "messages_per_slot"@)
                    == Some(target@),
                Err(e) => e == AnalysisError::ValidationError && target_for(
                    self.format,
                    optional_text(self.output_dir),
                    "messages_per_slot"@,
                ) is None,
            },
    {
        plan_target(self.format, &self.output_dir, "messages_per_slot")
    }
}

impl Behavior for CountTimeSlots {
    open spec fn kind(&self) -> BehaviorType {
        BehaviorType::TimeSlot
    }

    open spec fn needs(&self) -> Reads {
        Reads::Bytes
    }

    open spec fn source(&self) -> Seq<char> {
        self.input_path@
    }

    open spec fn configured(&self) -> bool {
        target_for(self.format, optional_text(self.output_dir), "messages_per_slot"@) is Some
    }

    open spec fn yields(&self, input: InputSpec, out: Result<ReportSpec, AnalysisError>) -> bool {
        &&& out == count_time_slots_outcome(
            self.format,
            optional_text(self.output_dir),
            input.bytes(),
        )
        &&& out is Ok ==> all_wf(document_times(input.bytes()))
    }

    open spec fn explains(&self, input: InputSpec, error: AnalysisError, out: Seq<char>) -> bool {
        if error == AnalysisError::InvalidJson && input.bytes() is Some && json_array_field(
            input.bytes().unwrap(),
            "date"@,
        ) is None {
            exists|words: Seq<char>| out == with_words(description(error, self.source()), words)
        } else {
            out == description(error, self.source())
        }
    }

    fn behavior_type(&self) -> (out: BehaviorType) {
        BehaviorType::TimeSlot
    }

    fn reads(&self) -> (out: Reads) {
        Reads::Bytes
    }

    fn input_path(&self) -> (out: &str) {
        self.input_path.as_str()
    }

    fn validate(&self) -> (out: Result<(), AnalysisError>) {
        match self.target() {
            Ok(_) => Ok(()),
            Err(e) => Err(e),
        }
    }

    /// Counts the records of the document that was read. The output configuration is
    /// checked first; anything but bytes counts as a source that is no regular file.
    fn run(&self, input: &Input) -> (out: Result<Report, AnalysisError>) {
        let target = match self.target() {
            Ok(target) => target,
            Err(e) => {
                return Err(e);
            },
        };
        let bytes = match input {
            Input::Bytes(bytes) => bytes,
            _ => {
                return Err(AnalysisError::InputNotFound);
            },
        };
        match read_array_field(bytes.as_slice(), "date") {
            Err(_) => Err(AnalysisError::InvalidJson),
            Ok(None) => Err(AnalysisError::MalformedDocument),
            Ok(Some(dates)) => Ok(report_slots(target, self.format, &dates)),
        }
    }

    /// Describes the failure; of a document that is no JSON, the parser's own words
    /// follow, which give the line and column at which it stopped.
    fn explain(&self, input: &Input, error: AnalysisError) -> (out: String) {
        let mut out = describe(error, self.input_path.as_str());
        if error == AnalysisError::InvalidJson {
            match input {
                Input::Bytes(bytes) => {
                    match read_array_field(bytes.as_slice(), "date") {
                        Err(fault) => {
                            let words = fault_text(&fault);
                            out.append(": ");
                            out.append(words.as_str());
                            assert(out@ == with_words(
                                description(error, self.source()),
                                words@,
                            ));
                        },
                        Ok(_) => {},
                    }
                },
                _ => {},
            }
        }
        out
    }
}

/// The counts of the 48 rendered slots sum to the number of records whose date was read:
/// records without a readable date are in neither.
pub proof fn lemma_slot_counts_sum(times: Seq<Option<TimeOfDay>>)
    requires
        all_wf(times),
    ensures
        count_sum(slot_rows_of(times)) == parsed_count(times),
    decreases times.len(),
{
    if times.len() == 0 {
        lemma_count_sum_zero(slot_rows_of(times));
    } else {
        let before = times.drop_last();
        assert forall|i: int| 0 <= i < before.len() implies ((#[trigger] before[i]) matches Some(t) ==> t.wf()) by {
            assert(before[i] == times[i]);
        }
        lemma_slot_counts_sum(before);
        let at = match times.last() {
            Some(time) => slot_of(time),
            None => -1,
        };
        assert(times.last() == times[times.len() - 1]);
        lemma_count_sum_bump(slot_rows_of(before), slot_rows_of(times), at);
    }
}

/// Running the slot count again on the same input, with the same configuration, yields
/// the same: the outcome is determined, line for line.
pub proof fn lemma_count_time_slots_repeatable(
    behavior: CountTimeSlots,
    input: InputSpec,
    first: Result<ReportSpec, AnalysisError>,
    second: Result<ReportSpec, AnalysisError>,
)
    requires
        behavior.yields(input, first),
        behavior.yields(input, second),
    ensures
        first == second,
{
}

/// In every report of the slot count, the lines are those of the 48 slots and the
/// summary, and the counts of the 48 slots sum to the number of records that the summary
/// gives as analyzed.
pub proof fn lemma_report_counts_sum(
    behavior: CountTimeSlots,
    input: InputSpec,
    out: Result<ReportSpec, AnalysisError>,
)
    requires
        behavior.yields(input, out),
        out is Ok,
    ensures
        out.unwrap().lines == slot_lines(document_times(input.bytes()), behavior.format),
        slot_rows_of(document_times(input.bytes())).len() == 48,
        count_sum(slot_rows_of(document_times(input.bytes()))) == parsed_count(
            document_times(input.bytes()),
        ),
{
    lemma_slot_counts_sum(document_times(input.bytes()));
}

/// The slot table has 48 rows whatever was counted; the first is `00:00-00:30` and the
/// last `23:30-00:00`.
pub proof fn lemma_slot_rows_fixed(times: Seq<Option<TimeOfDay>>)
    ensures
        slot_rows_of(times).len() == 48,
        forall|slot: int| 0 <= slot < 48 ==> (#[trigger] slot_rows_of(times)[slot]).label == slot_label(slot as nat),
        slot_rows_of(times)[0].label == "00:00-00:30"@,
        slot_rows_of(times)[47].label == "23:30-00:00"@,
{
    reveal_strlit("00:00-00:30");
    reveal_strlit("23:30-00:00");
    reveal_strlit(":00-");
    reveal_strlit(":30-");
    reveal_strlit(":00");
    reveal_strlit(":30");
    assert(slot_label(0) =~= "00:00-00:30"@);
    assert(slot_label(47) =~= "23:30-00:00"@);
}

/// A file format without a destination directory fails the run with a validation
/// error, whatever the input: nothing needs to be read to refuse it.
pub proof fn lemma_unconfigured_run_fails(
    behavior: CountTimeSlots,
    input: InputSpec,
    out: Result<ReportSpec, AnalysisError>,
)
    requires
        behavior.format != OutputFormat::Stdout,
        behavior.output_dir is None,
        behavior.yields(input, out),
    ensures
        !behavior.configured(),
        out == Err::<ReportSpec, AnalysisError>(AnalysisError::ValidationError),
{
}

/// A slot label holds digits, colons and a hyphen, so neither a tab nor a quote.
pub proof fn lemma_slot_label_is_plain(slot: nat)
    ensures
        is_plain(slot_label(slot)),
{
    reveal_strlit(":00-");
    reveal_strlit(":30-");
    reveal_strlit(":00");
    reveal_strlit(":30");
    let hour = slot / 2;
    let next = (hour + 1) % 24;
    let label = slot_label(slot);
    if slot % 2 == 0 {
        assert(label =~= seq![
            digit_char(hour / 10),
            digit_char(hour % 10),
            ':',
            '0',
            '0',
            '-',
            digit_char(hour / 10),
            digit_char(hour % 10),
            ':',
            '3',
            '0',
        ]);
    } else {
        assert(label =~= seq![
            digit_char(hour / 10),
            digit_char(hour % 10),
            ':',
            '3',
            '0',
            '-',
            digit_char(next / 10),
            digit_char(next % 10),
            ':',
            '0',
            '0',
        ]);
    }
}

/// The text and the quoted rendering of the slot table carry the same data: stripped of
/// delimiters and quotes, the line of each slot holds in both its label and its count.
pub proof fn lemma_slot_renderings_agree(times: Seq<Option<TimeOfDay>>, slot: int)
    requires
        0 <= slot < 48,
    ensures
        text_cells(slot_lines(times, OutputFormat::Txt)[slot]) == (
            slot_label(slot as nat),
            decimal(slot_count(times, slot)),
        ),
        csv_cells(slot_lines(times, OutputFormat::Csv)[slot + 1]) == (
            slot_label(slot as nat),
            decimal(slot_count(times, slot)),
        ),
        slot_lines(times, OutputFormat::Stdout) == slot_lines(times, OutputFormat::Txt),
{
    lemma_slot_label_is_plain(slot as nat);
    lemma_renderings_agree(
        slot_rows_of(times),
        false,
        ("Slot"@, "Count"@),
        slot_summary(parsed_count(times)),
        slot_summary(parsed_count(times)),
        slot,
    );
}

} // verus!
