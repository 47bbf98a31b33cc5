use vstd::prelude::*;
use vstd::string::StringExecFns;
use crate::common::AnalysisRow;
use crate::common::rows_view;
use crate::common::RowSpec;
use crate::common::texts;

verus! {

/// The character of a decimal digit.
pub open spec fn digit_char(d: nat) -> char {
    if d == 0 {
        '0'
    } else if d == 1 {
        '1'
    } else if d == 2 {
        '2'
    } else if d == 3 {
        '3'
    } else if d == 4 {
        '4'
    } else if d == 5 {
        '5'
    } else if d == 6 {
        '6'
    } else if d == 7 {
        '7'
    } else if d == 8 {
        '8'
    } else {
        '9'
    }
}

/// A number in decimal, without leading zeros.
pub open spec fn decimal(n: nat) -> Seq<char>
    decreases n,
{
    if n < 10 {
        seq![digit_char(n)]
    } else {
        decimal(n / 10).push(digit_char(n % 10))
    }
}

/// A number below one hundred in two decimal digits.
pub open spec fn two_digits(n: nat) -> Seq<char> {
    seq![digit_char(n / 10), digit_char(n % 10)]
}

/// The one-character string of a decimal digit.
pub fn digit_text(d: usize) -> (out: &'static str)
    requires
        d < 10,
    ensures
        out@ == seq![digit_char(d as nat)],
{
    proof {
        reveal_strlit("0");
        reveal_strlit("1");
        reveal_strlit("2");
        reveal_strlit("3");
        reveal_strlit("4");
        reveal_strlit("5");
        reveal_strlit("6");
        reveal_strlit("7");
        reveal_strlit("8");
        reveal_strlit("9");
    }
    let out = if d == 0 {
        "0"
    } else if d == 1 {
        "1"
    } else if d == 2 {
        "2"
    } else if d == 3 {
        "3"
    } else if d == 4 {
        "4"
    } else if d == 5 {
        "5"
    } else if d == 6 {
        "6"
    } else if d == 7 {
        "7"
    } else if d == 8 {
        "8"
    } else {
        "9"
    };
    assert(out@ =~= seq![digit_char(d as nat)]);
    out
}

/// Writes a number in decimal.
pub fn decimal_text(n: usize) -> (out: String)
    ensures
        out@ == decimal(n as nat),
    decreases n,
{
    if n < 10 {
        String::from_str(digit_text(n))
    } else {
        let mut out = decimal_text(n / 10);
        out.append(digit_text(n % 10));
        assert(out@ =~= decimal(n as nat));
        out
    }
}

/// Writes a number below one hundred in two digits.
pub fn two_digit_text(n: usize) -> (out: String)
    requires
        n < 100,
    ensures
        out@ == two_digits(n as nat),
{
    let mut out = String::from_str(digit_text(n / 10));
    out.append(digit_text(n % 10));
    assert(out@ =~= two_digits(n as nat));
    out
}

/// The two cells of a row, in column order.
pub open spec fn cells(row: RowSpec, count_first: bool) -> (Seq<char>, Seq<char>) {
    if count_first {
        (decimal(row.count), row.label)
    } else {
        (row.label, decimal(row.count))
    }
}

/// Two cells as a tab-delimited line.
pub open spec fn text_line(cell: (Seq<char>, Seq<char>)) -> Seq<char> {
    cell.0 + "\t"@ + cell.1
}

/// Two cells as a quoted, comma-separated line.
pub open spec fn csv_line(cell: (Seq<char>, Seq<char>)) -> Seq<char> {
    "\""@ + cell.0 + "\",\""@ + cell.1 + "\""@
}

/// The tab-delimited rendering: one line per row, in the order given, then the summary.
pub open spec fn text_lines(rows: Seq<RowSpec>, count_first: bool, summary: Seq<char>) -> Seq<
    Seq<char>,
> {
    Seq::new(
        rows.len() + 1,
        |i: int|
            if i < rows.len() {
                text_line(cells(rows[i], count_first))
            } else {
                summary
            },
    )
}

/// The quoted rendering: the header, one line per row in the order given, then the
/// summary with an empty second field.
pub open spec fn csv_lines(
    rows: Seq<RowSpec>,
    count_first: bool,
    header: (Seq<char>, Seq<char>),
    summary: Seq<char>,
) -> Seq<Seq<char>> {
    Seq::new(
        rows.len() + 2,
        |i: int|
            if i == 0 {
                csv_line(header)
            } else if i <= rows.len() {
                csv_line(cells(rows[i - 1], count_first))
            } else {
                csv_line((summary, Seq::<char>::empty()))
            },
    )
}

/// Writes two cells as a tab-delimited line.
pub fn write_text_line(first: &str, second: &str) -> (out: String)
    ensures
        out@ == text_line((first@, second@)),
{
    let mut out = String::from_str(first);
    out.append("\t");
    out.append(second);
    out
}

/// Writes two cells as a quoted, comma-separated line.
pub fn write_csv_line(first: &str, second: &str) -> (out: String)
    ensures
        out@ == csv_line((first@, second@)),
{
    let mut out = String::from_str("\"");
    out.append(first);
    out.append("\",\"");
    out.append(second);
    out.append("\"");
    out
}

/// Renders rows as tab-delimited lines followed by the summary. The rows keep their order.
pub fn render_text(rows: &Vec<AnalysisRow>, count_first: bool, summary: &str) -> (out: Vec<
    String,
>)
    ensures
        texts(out@) == text_lines(rows_view(rows@), count_first, summary@),
{
    let ghost want = text_lines(rows_view(rows@), count_first, summary@);
    let mut out: Vec<String> = Vec::new();
    let mut i: usize = 0;
    while i < rows.len()
        invariant
            i <= rows.len(),
            out.len() == i,
            want == text_lines(rows_view(rows@), count_first, summary@),
            forall|k: int| 0 <= k < i ==> (#[trigger] out@[k])@ == want[k],
        decreases rows.len() - i,
    {
        let number = decimal_text(rows[i].count);
        let line = if count_first {
            write_text_line(number.as_str(), rows[i].label.as_str())
        } else {
            write_text_line(rows[i].label.as_str(), number.as_str())
        };
        assert(line@ == want[i as int]);
        out.push(line);
        i += 1;
    }
    out.push(String::from_str(summary));
    assert(texts(out@) =~= want);
    out
}

/// Renders rows as quoted lines under a header, followed by the quoted summary. The rows
/// keep their order.
pub fn render_csv(
    rows: &Vec<AnalysisRow>,
    count_first: bool,
    first_header: &str,
    second_header: &str,
    summary: &str,
) -> (out: Vec<String>)
    ensures
        texts(out@) == csv_lines(
            rows_view(rows@),
            count_first,
            (first_header@, second_header@),
            summary@,
        ),
{
    let ghost want = csv_lines(
        rows_view(rows@),
        count_first,
        (first_header@, second_header@),
        summary@,
    );
    let mut out: Vec<String> = Vec::new();
    out.push(write_csv_line(first_header, second_header));
    let mut i: usize = 0;
    while i < rows.len()
        invariant
            i <= rows.len(),
            out.len() == i + 1,
            want == csv_lines(
                rows_view(rows@),
                count_first,
                (first_header@, second_header@),
                summary@,
            ),
            forall|k: int| 0 <= k < i + 1 ==> (#[trigger] out@[k])@ == want[k],
        decreases rows.len() - i,
    {
        let number = decimal_text(rows[i].count);
        let line = if count_first {
            write_csv_line(number.as_str(), rows[i].label.as_str())
        } else {
            write_csv_line(rows[i].label.as_str(), number.as_str())
        };
        assert(line@ == want[i + 1]);
        out.push(line);
        i += 1;
    }
    let last = write_csv_line(summary, "");
    proof {
        reveal_strlit("");
        assert(""@ =~= Seq::<char>::empty());
    }
    out.push(last);
    assert(texts(out@) =~= want);
    out
}

/// The index of the first `c` in `s`, or the length of `s` where it holds none.
pub open spec fn first_index(s: Seq<char>, c: char) -> int
    decreases s.len(),
{
    if s.len() == 0 {
        0
    } else if s[0] == c {
        0
    } else {
        1 + first_index(s.drop_first(), c)
    }
}

/// `s` holds no `c`.
pub open spec fn free_of(s: Seq<char>, c: char) -> bool {
    forall|i: int| 0 <= i < s.len() ==> s[i] != c
}

/// A cell that can stand first in a line: it holds neither a tab nor a quote.
pub open spec fn is_plain(cell: Seq<char>) -> bool {
    free_of(cell, '\t') && free_of(cell, '"')
}

/// The cells of a tab-delimited line: what stands before its first tab, and what after.
pub open spec fn text_cells(line: Seq<char>) -> (Seq<char>, Seq<char>) {
    let k = first_index(line, '\t');
    (line.take(k), line.skip(k + 1))
}

/// The cells of a quoted line: inside the outer quotes, what stands before the first
/// quote, and what after the `","` that this quote opens.
pub open spec fn csv_cells(line: Seq<char>) -> (Seq<char>, Seq<char>) {
    let inner = line.subrange(1, line.len() - 1);
    let k = first_index(inner, '"');
    (inner.take(k), inner.skip(k + 3))
}

/// After a prefix without `c`, the first `c` stands where the prefix ends.
pub proof fn lemma_first_index(prefix: Seq<char>, c: char, rest: Seq<char>)
    requires
        free_of(prefix, c),
    ensures
        first_index(prefix + seq![c] + rest, c) == prefix.len(),
    decreases prefix.len(),
{
    let s = prefix + seq![c] + rest;
    if prefix.len() == 0 {
        assert(s[0] == c);
    } else {
        assert(s[0] == prefix[0]);
        assert(s.drop_first() =~= prefix.drop_first() + seq![c] + rest);
        assert forall|i: int| 0 <= i < prefix.drop_first().len() implies prefix.drop_first()[i]
            != c by {
            assert(prefix.drop_first()[i] == prefix[i + 1]);
        }
        lemma_first_index(prefix.drop_first(), c, rest);
    }
}

/// A number in decimal holds digits only, so neither a tab nor a quote.
pub proof fn lemma_decimal_is_plain(n: nat)
    ensures
        is_plain(decimal(n)),
    decreases n,
{
    if n >= 10 {
        lemma_decimal_is_plain(n / 10);
    }
}

/// Delimiting and stripping give back the cells: a line of either rendering, read by its
/// delimiters, holds the two cells it was made of.
pub proof fn lemma_cells_recovered(cell: (Seq<char>, Seq<char>))
    requires
        is_plain(cell.0),
    ensures
        text_cells(text_line(cell)) == cell,
        csv_cells(csv_line(cell)) == cell,
{
    reveal_strlit("\t");
    reveal_strlit("\"");
    reveal_strlit("\",\"");
    let line = text_line(cell);
    assert(line =~= cell.0 + seq!['\t'] + cell.1);
    lemma_first_index(cell.0, '\t', cell.1);
    assert(line.take(cell.0.len() as int) =~= cell.0);
    assert(line.skip(cell.0.len() as int + 1) =~= cell.1);
    let quoted = csv_line(cell);
    let inner = quoted.subrange(1, quoted.len() - 1);
    let rest = seq![',', '"'] + cell.1;
    assert(inner =~= cell.0 + seq!['"'] + rest);
    lemma_first_index(cell.0, '"', rest);
    assert(inner.take(cell.0.len() as int) =~= cell.0);
    assert(inner.skip(cell.0.len() as int + 3) =~= cell.1);
}

/// The index of the last `c` in `s`, or -1 where it holds none.
pub open spec fn last_index(s: Seq<char>, c: char) -> int
    decreases s.len(),
{
    if s.len() == 0 {
        -1
    } else if s.last() == c {
        s.len() - 1
    } else {
        last_index(s.drop_last(), c)
    }
}

/// The cells of a quoted line that ends in a number: inside the outer quotes, what
/// stands before the last `","`, and what after it. The first cell may hold anything.
pub open spec fn csv_cells_by_count(line: Seq<char>) -> (Seq<char>, Seq<char>) {
    let inner = line.subrange(1, line.len() - 1);
    let k = last_index(inner, '"');
    (inner.take(k - 2), inner.skip(k + 1))
}

/// Before a suffix without `c`, the last `c` stands where the suffix begins.
pub proof fn lemma_last_index(prefix: Seq<char>, c: char, suffix: Seq<char>)
    requires
        free_of(suffix, c),
    ensures
        last_index(prefix + seq![c] + suffix, c) == prefix.len(),
    decreases suffix.len(),
{
    let s = prefix + seq![c] + suffix;
    if suffix.len() == 0 {
        assert(s.last() == c);
    } else {
        assert(s.last() == suffix.last());
        assert(suffix.last() == suffix[suffix.len() - 1]);
        assert(s.drop_last() =~= prefix + seq![c] + suffix.drop_last());
        assert forall|i: int| 0 <= i < suffix.drop_last().len() implies suffix.drop_last()[i]
            != c by {
            assert(suffix.drop_last()[i] == suffix[i]);
        }
        lemma_last_index(prefix, c, suffix.drop_last());
    }
}

/// A quoted line whose second cell holds no quote, read from its end, gives back the
/// two cells it was made of, whatever the first cell holds.
pub proof fn lemma_count_cell_recovered(cell: (Seq<char>, Seq<char>))
    requires
        free_of(cell.1, '"'),
    ensures
        csv_cells_by_count(csv_line(cell)) == cell,
{
    reveal_strlit("\"");
    reveal_strlit("\",\"");
    let quoted = csv_line(cell);
    let inner = quoted.subrange(1, quoted.len() - 1);
    let prefix = cell.0 + seq!['"', ','];
    assert(inner =~= prefix + seq!['"'] + cell.1);
    lemma_last_index(prefix, '"', cell.1);
    assert(inner.take(cell.0.len() as int) =~= cell.0);
    assert(inner.skip(cell.0.len() as int + 3) =~= cell.1);
}

/// The text and the quoted rendering of the same rows carry the same data: stripped of
/// delimiters and quotes, the line of a row holds in both the cells of that row. This
/// holds of every row where the count stands first, and of a row with a plain label
/// where the label does.
pub proof fn lemma_renderings_agree(
    rows: Seq<RowSpec>,
    count_first: bool,
    header: (Seq<char>, Seq<char>),
    text_summary: Seq<char>,
    csv_summary: Seq<char>,
    i: int,
)
    requires
        0 <= i < rows.len(),
        count_first || is_plain(rows[i].label),
    ensures
        text_cells(text_lines(rows, count_first, text_summary)[i]) == cells(rows[i], count_first),
        csv_cells(csv_lines(rows, count_first, header, csv_summary)[i + 1]) == cells(
            rows[i],
            count_first,
        ),
        text_cells(text_lines(rows, count_first, text_summary)[i]) == csv_cells(
            csv_lines(rows, count_first, header, csv_summary)[i + 1],
        ),
{
    lemma_decimal_is_plain(rows[i].count);
    lemma_cells_recovered(cells(rows[i], count_first));
}

} // verus!
