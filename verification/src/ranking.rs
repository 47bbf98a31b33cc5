use vstd::prelude::*;
use vstd::utf8::encode_utf8;
use crate::common::AnalysisRow;
use crate::common::count_sum;
use crate::common::lemma_count_sum_bump;
use crate::common::lemma_count_sum_zero;
use crate::common::rows_view;
use crate::common::RowSpec;
use crate::common::texts;
use crate::text::compare_labels;
use crate::text::label_before;
use crate::text::lemma_bytes_before_asymmetric;
use crate::text::lemma_bytes_before_transitive;
use crate::text::Standing;

verus! {

/// How often `x` occurs in `items`.
pub open spec fn count_of(items: Seq<Seq<char>>, x: Seq<char>) -> nat
    decreases items.len(),
{
    if items.len() == 0 {
        0
    } else {
        count_of(items.drop_last(), x) + if items.last() == x { 1nat } else { 0nat }
    }
}

/// An item occurs at most as often as there are items.
pub proof fn lemma_count_of_bounded(items: Seq<Seq<char>>, x: Seq<char>)
    ensures
        count_of(items, x) <= items.len(),
    decreases items.len(),
{
    if items.len() > 0 {
        lemma_count_of_bounded(items.drop_last(), x);
    }
}

/// `label` is the label of one of `rows`.
pub open spec fn has_label(rows: Seq<RowSpec>, label: Seq<char>) -> bool {
    exists|i: int| 0 <= i < rows.len() && #[trigger] rows[i].label == label
}

/// `rows` holds each distinct item of `items` once, with the number of its occurrences.
pub open spec fn is_tally(rows: Seq<RowSpec>, items: Seq<Seq<char>>) -> bool {
    &&& forall|i: int|
        0 <= i < rows.len() ==> (#[trigger] rows[i]).count == count_of(items, rows[i].label)
            && rows[i].count >= 1
    &&& forall|i: int, j: int|
        0 <= i < j < rows.len() ==> (#[trigger] rows[i]).label != (#[trigger] rows[j]).label
    &&& forall|k: int| 0 <= k < items.len() ==> has_label(rows, #[trigger] items[k])
}

/// The rendering order of rows: the higher count first, and among equal counts the
/// label that is smaller in byte order.
pub open spec fn row_before(x: RowSpec, y: RowSpec) -> bool {
    x.count > y.count || (x.count == y.count && label_before(x.label, y.label))
}

/// Each row stands before all that follow it.
pub open spec fn is_ranked(rows: Seq<RowSpec>) -> bool {
    forall|i: int, j: int| 0 <= i < j < rows.len() ==> row_before(#[trigger] rows[i], #[trigger] rows[j])
}

/// `rows` is the tally of `items` in rendering order.
pub open spec fn is_ranking(rows: Seq<RowSpec>, items: Seq<Seq<char>>) -> bool {
    is_tally(rows, items) && is_ranked(rows)
}

/// The rendering order is transitive.
pub proof fn lemma_row_before_transitive(x: RowSpec, y: RowSpec, z: RowSpec)
    requires
        row_before(x, y),
        row_before(y, z),
    ensures
        row_before(x, z),
{
    if x.count == y.count && y.count == z.count {
        lemma_bytes_before_transitive(
            encode_utf8(x.label),
            encode_utf8(y.label),
            encode_utf8(z.label),
        );
    }
}

/// No two rows stand before each other.
pub proof fn lemma_row_before_asymmetric(x: RowSpec, y: RowSpec)
    requires
        row_before(x, y),
    ensures
        !row_before(y, x),
        x != y,
{
    if x.count == y.count {
        lemma_bytes_before_asymmetric(encode_utf8(x.label), encode_utf8(y.label));
    }
}

/// Decides the rendering order of two rows with different labels.
pub fn precedes(x: &AnalysisRow, y: &AnalysisRow) -> (out: bool)
    ensures
        out == row_before(x@, y@),
        x@.label != y@.label ==> (!out <==> row_before(y@, x@)),
{
    if x.count != y.count {
        x.count > y.count
    } else {
        let standing = compare_labels(x.label.as_str(), y.label.as_str());
        standing == Standing::Before
    }
}

/// `x` occurs in `items` at `k`, and `y` does not occur up to there.
pub open spec fn occurs_before(items: Seq<Seq<char>>, k: int, x: Seq<char>, y: Seq<char>) -> bool {
    &&& 0 <= k < items.len()
    &&& items[k] == x
    &&& forall|m: int| 0 <= m <= k ==> items[m] != y
}

/// `x` occurs in `items` before `y` does, if `y` occurs at all.
pub open spec fn occurs_first(items: Seq<Seq<char>>, x: Seq<char>, y: Seq<char>) -> bool {
    exists|k: int| occurs_before(items, k, x, y)
}

/// The rows stand in the order in which their labels first occur in `items`.
pub open spec fn in_order_of_occurrence(rows: Seq<RowSpec>, items: Seq<Seq<char>>) -> bool {
    forall|a: int, b: int|
        #![trigger rows[a], rows[b]]
        0 <= a < b < rows.len() ==> occurs_first(items, rows[a].label, rows[b].label)
}

/// Counts the occurrences of each distinct item, rows in order of first occurrence.
pub fn tally_labels(items: &Vec<String>) -> (rows: Vec<AnalysisRow>)
    ensures
        is_tally(rows_view(rows@), texts(items@)),
        in_order_of_occurrence(rows_view(rows@), texts(items@)),
        count_sum(rows_view(rows@)) == items@.len(),
{
    let mut rows: Vec<AnalysisRow> = Vec::new();
    let mut i: usize = 0;
    while i < items.len()
        invariant
            i <= items.len(),
            is_tally(rows_view(rows@), texts(items@).take(i as int)),
            in_order_of_occurrence(rows_view(rows@), texts(items@).take(i as int)),
        decreases items.len() - i,
    {
        let ghost seen = texts(items@).take(i as int);
        let ghost next = texts(items@).take(i + 1);
        let ghost before = rows_view(rows@);
        proof {
            assert(next.drop_last() =~= seen);
            assert(next.last() == items@[i as int]@);
        }
        let mut j: usize = 0;
        while j < rows.len() && rows[j].label != items[i]
            invariant
                j <= rows.len(),
                i < items.len(),
                forall|k: int| 0 <= k < j ==> rows@[k]@.label != items@[i as int]@,
            decreases rows.len() - j,
        {
            j += 1;
        }
        if j < rows.len() {
            proof {
                lemma_count_of_bounded(seen, rows@[j as int]@.label);
                assert(before[j as int].count == count_of(seen, before[j as int].label));
            }
            let bumped = AnalysisRow { label: rows[j].label.clone(), count: rows[j].count + 1 };
            rows.set(j, bumped);
            proof {
                let after = rows_view(rows@);
                assert forall|r: int| 0 <= r < after.len() implies (#[trigger] after[r]).count
                    == count_of(next, after[r].label) && after[r].count >= 1 by {
                    assert(before[r].count == count_of(seen, before[r].label));
                    if r != j {
                        assert(before[r].label != before[j as int].label);
                    }
                }
                assert forall|a: int, b: int| 0 <= a < b < after.len() implies (
                #[trigger] after[a]).label != (#[trigger] after[b]).label by {
                    assert(before[a].label != before[b].label);
                }
                assert forall|k: int| 0 <= k < next.len() implies has_label(
                    after,
                    #[trigger] next[k],
                ) by {
                    if k < i {
                        assert(has_label(before, seen[k]));
                        let w = choose|w: int| 0 <= w < before.len() && before[w].label == seen[k];
                        assert(after[w].label == next[k]);
                    } else {
                        assert(after[j as int].label == next[k]);
                    }
                }
                assert forall|a: int, b: int|
                    #![trigger after[a], after[b]]
                    0 <= a < b < after.len() implies occurs_first(
                    next,
                    after[a].label,
                    after[b].label,
                ) by {
                    assert(occurs_first(seen, before[a].label, before[b].label));
                    let k = choose|k: int| occurs_before(seen, k, before[a].label, before[b].label);
                    assert(occurs_before(next, k, after[a].label, after[b].label));
                }
            }
        } else {
            let fresh = AnalysisRow { label: items[i].clone(), count: 1 };
            rows.push(fresh);
            proof {
                let after = rows_view(rows@);
                assert forall|r: int| 0 <= r < after.len() implies (#[trigger] after[r]).count
                    == count_of(next, after[r].label) && after[r].count >= 1 by {
                    if r < before.len() {
                        assert(before[r].count == count_of(seen, before[r].label));
                        assert(after[r] == before[r]);
                    } else {
                        assert(count_of(seen, next.last()) == 0) by {
                            if count_of(seen, next.last()) != 0 {
                                lemma_count_positive_occurs(seen, next.last());
                                let k = choose|k: int| 0 <= k < seen.len() && seen[k] == next.last();
                                assert(has_label(before, seen[k]));
                            }
                        }
                    }
                }
                assert forall|a: int, b: int| 0 <= a < b < after.len() implies (
                #[trigger] after[a]).label != (#[trigger] after[b]).label by {
                    if b < before.len() {
                        assert(before[a].label != before[b].label);
                    }
                }
                assert forall|k: int| 0 <= k < next.len() implies has_label(
                    after,
                    #[trigger] next[k],
                ) by {
                    if k < i {
                        assert(has_label(before, seen[k]));
                        let w = choose|w: int| 0 <= w < before.len() && before[w].label == seen[k];
                        assert(after[w].label == next[k]);
                    } else {
                        assert(after[before.len() as int].label == next[k]);
                    }
                }
                assert forall|a: int, b: int|
                    #![trigger after[a], after[b]]
                    0 <= a < b < after.len() implies occurs_first(
                    next,
                    after[a].label,
                    after[b].label,
                ) by {
                    if b < before.len() {
                        assert(occurs_first(seen, before[a].label, before[b].label));
                        let k = choose|k: int|
                            occurs_before(seen, k, before[a].label, before[b].label);
                        assert(occurs_before(next, k, after[a].label, after[b].label));
                    } else {
                        assert(before[a].count == count_of(seen, before[a].label));
                        lemma_count_positive_occurs(seen, before[a].label);
                        let k = choose|k: int| 0 <= k < seen.len() && seen[k] == before[a].label;
                        assert forall|m: int| 0 <= m <= k implies next[m] != next.last() by {
                            if seen[m] == next.last() {
                                assert(has_label(before, seen[m]));
                            }
                        }
                        assert(occurs_before(next, k, after[a].label, after[b].label));
                    }
                }
            }
        }
        i += 1;
    }
    proof {
        assert(texts(items@).take(i as int) =~= texts(items@));
        lemma_tally_counts_sum(rows_view(rows@), texts(items@));
    }
    rows
}

/// An item with a positive count occurs somewhere.
pub proof fn lemma_count_positive_occurs(items: Seq<Seq<char>>, x: Seq<char>)
    requires
        count_of(items, x) > 0,
    ensures
        exists|k: int| 0 <= k < items.len() && items[k] == x,
    decreases items.len(),
{
    if items.len() > 0 {
        if items.last() == x {
            assert(items[items.len() - 1] == x);
        } else {
            lemma_count_positive_occurs(items.drop_last(), x);
            let k = choose|k: int| 0 <= k < items.len() - 1 && items.drop_last()[k] == x;
            assert(items[k] == x);
        }
    }
}

/// No two rows of `rows` share a label.
pub open spec fn distinct_labels(rows: Seq<RowSpec>) -> bool {
    forall|i: int, j: int|
        0 <= i < j < rows.len() ==> (#[trigger] rows[i]).label != (#[trigger] rows[j]).label
}

/// `a` and `b` hold the same rows, in whatever order.
pub open spec fn same_rows(a: Seq<RowSpec>, b: Seq<RowSpec>) -> bool {
    &&& a.len() == b.len()
    &&& forall|i: int| 0 <= i < a.len() ==> b.contains(#[trigger] a[i])
    &&& forall|j: int| 0 <= j < b.len() ==> a.contains(#[trigger] b[j])
}

/// Puts rows with distinct labels into rendering order.
pub fn rank_rows(rows: Vec<AnalysisRow>) -> (out: Vec<AnalysisRow>)
    requires
        distinct_labels(rows_view(rows@)),
    ensures
        is_ranked(rows_view(out@)),
        same_rows(rows_view(out@), rows_view(rows@)),
        distinct_labels(rows_view(out@)),
{
    let ghost orig = rows_view(rows@);
    let mut rest = rows;
    let mut out: Vec<AnalysisRow> = Vec::new();
    while rest.len() > 0
        invariant
            distinct_labels(orig),
            rest.len() + out.len() == orig.len(),
            rows_view(rest@) =~= orig.take(rest.len() as int),
            is_ranked(rows_view(out@)),
            forall|k: int| rest.len() <= k < orig.len() ==> rows_view(out@).contains(#[trigger] orig[k]),
            forall|k: int|
                0 <= k < out.len() ==> exists|q: int|
                    rest.len() <= q < orig.len() && orig[q] == #[trigger] rows_view(out@)[k],
        decreases rest.len(),
    {
        let ghost n = rest.len() - 1;
        let ghost sorted = rows_view(out@);
        assert(rows_view(rest@)[n] == orig[n]);
        let row = rest.pop().unwrap();
        assert(row@ == orig[n]);
        let mut p: usize = 0;
        while p < out.len() && precedes(&out[p], &row)
            invariant
                p <= out.len(),
                sorted == rows_view(out@),
                forall|k: int| 0 <= k < p ==> row_before(#[trigger] sorted[k], row@),
            decreases out.len() - p,
        {
            p += 1;
        }
        proof {
            if p < out.len() {
                let q = choose|q: int| n + 1 <= q < orig.len() && orig[q] == sorted[p as int];
                assert(orig[n].label != orig[q].label);
                assert(row_before(row@, sorted[p as int]));
                assert forall|k: int| p < k < sorted.len() implies row_before(
                    row@,
                    #[trigger] sorted[k],
                ) by {
                    lemma_row_before_transitive(row@, sorted[p as int], sorted[k]);
                }
            }
        }
        out.insert(p, row);
        proof {
            let grown = rows_view(out@);
            assert(grown =~= sorted.insert(p as int, orig[n]));
            assert forall|a: int, b: int| 0 <= a < b < grown.len() implies row_before(
                #[trigger] grown[a],
                #[trigger] grown[b],
            ) by {
                let a0 = if a < p { a } else { a - 1 };
                let b0 = if b < p { b } else { b - 1 };
                if a != p && b != p {
                    assert(row_before(sorted[a0], sorted[b0]));
                } else if a == p {
                    assert(grown[b] == sorted[b0]);
                } else {
                    assert(grown[a] == sorted[a0]);
                }
            }
            assert forall|k: int| n <= k < orig.len() implies grown.contains(
                #[trigger] orig[k],
            ) by {
                if k == n {
                    assert(grown[p as int] == orig[k]);
                } else {
                    assert(sorted.contains(orig[k]));
                    let w = choose|w: int| 0 <= w < sorted.len() && sorted[w] == orig[k];
                    let w1 = if w < p { w } else { w + 1 };
                    assert(grown[w1] == orig[k]);
                }
            }
            assert forall|k: int| 0 <= k < grown.len() implies exists|q: int|
                n <= q < orig.len() && orig[q] == #[trigger] grown[k] by {
                if k == p {
                    assert(orig[n] == grown[k]);
                } else {
                    let k0 = if k < p { k } else { k - 1 };
                    assert(grown[k] == sorted[k0]);
                    let q = choose|q: int| n + 1 <= q < orig.len() && orig[q] == sorted[k0];
                    assert(orig[q] == grown[k]);
                }
            }
            assert(rows_view(rest@) =~= orig.take(n as int));
        }
    }
    proof {
        let fin = rows_view(out@);
        assert forall|j: int| 0 <= j < fin.len() implies orig.contains(#[trigger] fin[j]) by {
            let q = choose|q: int| 0 <= q < orig.len() && orig[q] == fin[j];
            assert(orig[q] == fin[j]);
        }
        assert forall|i: int, j: int| 0 <= i < j < fin.len() implies (#[trigger] fin[i]).label != (
        #[trigger] fin[j]).label by {
            let qi = choose|q: int| 0 <= q < orig.len() && orig[q] == fin[i];
            let qj = choose|q: int| 0 <= q < orig.len() && orig[q] == fin[j];
            lemma_row_before_asymmetric(fin[i], fin[j]);
            if qi < qj {
                assert(orig[qi].label != orig[qj].label);
            } else if qj < qi {
                assert(orig[qj].label != orig[qi].label);
            }
        }
    }
    out
}

/// Rows that hold the same as a tally, with distinct labels, are a tally too.
pub proof fn lemma_same_rows_tally(a: Seq<RowSpec>, b: Seq<RowSpec>, items: Seq<Seq<char>>)
    requires
        is_tally(b, items),
        same_rows(a, b),
        distinct_labels(a),
    ensures
        is_tally(a, items),
{
    assert forall|i: int| 0 <= i < a.len() implies (#[trigger] a[i]).count == count_of(
        items,
        a[i].label,
    ) && a[i].count >= 1 by {
        assert(b.contains(a[i]));
        let j = choose|j: int| 0 <= j < b.len() && b[j] == a[i];
        assert(b[j].count == count_of(items, b[j].label));
    }
    assert forall|k: int| 0 <= k < items.len() implies has_label(a, #[trigger] items[k]) by {
        assert(has_label(b, items[k]));
        let j = choose|j: int| 0 <= j < b.len() && b[j].label == items[k];
        assert(a.contains(b[j]));
        let i = choose|i: int| 0 <= i < a.len() && a[i] == b[j];
        assert(a[i].label == items[k]);
    }
}

/// Tallies the items and ranks the rows: the most frequent first, and among equally
/// frequent ones the smaller in byte order.
pub fn rank_urls(urls: &Vec<String>) -> (out: Vec<AnalysisRow>)
    ensures
        is_ranking(rows_view(out@), texts(urls@)),
        count_sum(rows_view(out@)) == urls@.len(),
{
    let tally = tally_labels(urls);
    let ghost before = rows_view(tally@);
    let out = rank_rows(tally);
    proof {
        lemma_same_rows_tally(rows_view(out@), before, texts(urls@));
        lemma_tally_counts_sum(rows_view(out@), texts(urls@));
    }
    out
}

/// Two ranked sequences that hold the same rows are equal.
pub proof fn lemma_ranked_unique(a: Seq<RowSpec>, b: Seq<RowSpec>)
    requires
        is_ranked(a),
        is_ranked(b),
        forall|i: int| 0 <= i < a.len() ==> b.contains(#[trigger] a[i]),
        forall|j: int| 0 <= j < b.len() ==> a.contains(#[trigger] b[j]),
    ensures
        a == b,
    decreases a.len(),
{
    if a.len() == 0 {
        if b.len() > 0 {
            assert(a.contains(b[0]));
        }
        assert(a =~= b);
    } else {
        assert(b.contains(a[0]));
        let j = choose|j: int| 0 <= j < b.len() && b[j] == a[0];
        assert(a.contains(b[0]));
        let i = choose|i: int| 0 <= i < a.len() && a[i] == b[0];
        if j > 0 {
            assert(row_before(b[0], b[j]));
            if i > 0 {
                assert(row_before(a[0], a[i]));
                lemma_row_before_asymmetric(a[0], a[i]);
            }
        }
        assert(a[0] == b[0]);
        let ta = a.drop_first();
        let tb = b.drop_first();
        assert forall|x: int, y: int| 0 <= x < y < ta.len() implies row_before(
            #[trigger] ta[x],
            #[trigger] ta[y],
        ) by {
            assert(row_before(a[x + 1], a[y + 1]));
        }
        assert forall|x: int, y: int| 0 <= x < y < tb.len() implies row_before(
            #[trigger] tb[x],
            #[trigger] tb[y],
        ) by {
            assert(row_before(b[x + 1], b[y + 1]));
        }
        assert forall|x: int| 0 <= x < ta.len() implies tb.contains(#[trigger] ta[x]) by {
            assert(b.contains(a[x + 1]));
            let w = choose|w: int| 0 <= w < b.len() && b[w] == a[x + 1];
            assert(row_before(a[0], a[x + 1]));
            lemma_row_before_asymmetric(a[0], a[x + 1]);
            assert(tb[w - 1] == ta[x]);
        }
        assert forall|y: int| 0 <= y < tb.len() implies ta.contains(#[trigger] tb[y]) by {
            assert(a.contains(b[y + 1]));
            let w = choose|w: int| 0 <= w < a.len() && a[w] == b[y + 1];
            assert(row_before(b[0], b[y + 1]));
            lemma_row_before_asymmetric(b[0], b[y + 1]);
            assert(ta[w - 1] == tb[y]);
        }
        lemma_ranked_unique(ta, tb);
        assert(a =~= seq![a[0]] + ta);
        assert(b =~= seq![b[0]] + tb);
    }
}

/// The ranking of a sequence of items is unique: any two are equal, row for row.
pub proof fn lemma_ranking_unique(a: Seq<RowSpec>, b: Seq<RowSpec>, items: Seq<Seq<char>>)
    requires
        is_ranking(a, items),
        is_ranking(b, items),
    ensures
        a == b,
{
    lemma_tally_covers(a, b, items);
    lemma_tally_covers(b, a, items);
    lemma_ranked_unique(a, b);
}

/// Each row of one tally of `items` is a row of every other.
pub proof fn lemma_tally_covers(a: Seq<RowSpec>, b: Seq<RowSpec>, items: Seq<Seq<char>>)
    requires
        is_tally(a, items),
        is_tally(b, items),
    ensures
        forall|i: int| 0 <= i < a.len() ==> b.contains(#[trigger] a[i]),
{
    assert forall|i: int| 0 <= i < a.len() implies b.contains(#[trigger] a[i]) by {
        assert(a[i].count == count_of(items, a[i].label));
        lemma_count_positive_occurs(items, a[i].label);
        let k = choose|k: int| 0 <= k < items.len() && items[k] == a[i].label;
        assert(has_label(b, items[k]));
        let j = choose|j: int| 0 <= j < b.len() && b[j].label == items[k];
        assert(b[j].count == count_of(items, b[j].label));
        assert(b[j] == a[i]);
    }
}

/// `rows` holds under distinct labels, one of them for each item, how often the label
/// occurs in `items`; a label that does not occur has the count 0.
pub open spec fn counts_occurrences(rows: Seq<RowSpec>, items: Seq<Seq<char>>) -> bool {
    &&& forall|i: int|
        0 <= i < rows.len() ==> (#[trigger] rows[i]).count == count_of(items, rows[i].label)
    &&& distinct_labels(rows)
    &&& forall|k: int| 0 <= k < items.len() ==> has_label(rows, #[trigger] items[k])
}

/// Counts of occurrences under distinct labels that cover the items sum to the number
/// of items.
pub proof fn lemma_occurrences_sum(rows: Seq<RowSpec>, items: Seq<Seq<char>>)
    requires
        counts_occurrences(rows, items),
    ensures
        count_sum(rows) == items.len(),
    decreases items.len(),
{
    if items.len() == 0 {
        assert forall|i: int| 0 <= i < rows.len() implies (#[trigger] rows[i]).count == 0 by {
            assert(rows[i].count == count_of(items, rows[i].label));
        }
        lemma_count_sum_zero(rows);
    } else {
        let x = items.last();
        let rest = items.drop_last();
        assert(has_label(rows, items[items.len() - 1]));
        let j = choose|j: int| 0 <= j < rows.len() && rows[j].label == x;
        assert(rows[j].count == count_of(items, rows[j].label));
        let lowered = rows.update(j, RowSpec { label: x, count: (rows[j].count - 1) as nat });
        assert forall|i: int| 0 <= i < lowered.len() implies (#[trigger] lowered[i]).count
            == count_of(rest, lowered[i].label) by {
            assert(rows[i].count == count_of(items, rows[i].label));
            if i < j {
                assert(rows[i].label != rows[j].label);
            } else if j < i {
                assert(rows[j].label != rows[i].label);
            }
        }
        assert forall|a: int, b: int| 0 <= a < b < lowered.len() implies (
        #[trigger] lowered[a]).label != (#[trigger] lowered[b]).label by {
            assert(rows[a].label != rows[b].label);
        }
        assert forall|k: int| 0 <= k < rest.len() implies has_label(lowered, #[trigger] rest[k]) by {
            assert(has_label(rows, items[k]));
            let w = choose|w: int| 0 <= w < rows.len() && rows[w].label == items[k];
            assert(lowered[w].label == rest[k]);
        }
        lemma_occurrences_sum(lowered, rest);
        lemma_count_sum_bump(lowered, rows, j);
    }
}

/// The counts of a tally sum to the number of items tallied: every occurrence is
/// counted once.
pub proof fn lemma_tally_counts_sum(rows: Seq<RowSpec>, items: Seq<Seq<char>>)
    requires
        is_tally(rows, items),
    ensures
        count_sum(rows) == items.len(),
{
    lemma_occurrences_sum(rows, items);
}

/// In the ranking of `urls`, a URL that occurs more often than another stands before
/// it, and of two that occur equally often the one smaller in byte order stands first.
pub proof fn lemma_more_frequent_first(rows: Seq<RowSpec>, urls: Seq<Seq<char>>, i: int, j: int)
    requires
        is_ranking(rows, urls),
        0 <= i < rows.len(),
        0 <= j < rows.len(),
        count_of(urls, rows[i].label) > count_of(urls, rows[j].label) || (count_of(
            urls,
            rows[i].label,
        ) == count_of(urls, rows[j].label) && label_before(rows[i].label, rows[j].label)),
    ensures
        i < j,
{
    assert(rows[i].count == count_of(urls, rows[i].label));
    assert(rows[j].count == count_of(urls, rows[j].label));
    if j < i {
        assert(row_before(rows[j], rows[i]));
        lemma_row_before_asymmetric(rows[j], rows[i]);
    } else if j == i {
        lemma_bytes_before_asymmetric(encode_utf8(rows[i].label), encode_utf8(rows[j].label));
    }
}

} // verus!
