//! The library's laws: properties that hold of translation and
//! encoding for every input, stated and proved over the same spec
//! functions the public contracts use.

use vstd::prelude::*;

use crate::encode::{
    esc_char, spec_bucket_sum, spec_encode, spec_escape, spec_gauge_text, spec_label_block,
    spec_label_item, spec_labels_body, spec_metric_ok, spec_metric_text, valid_label_name,
    valid_metric_name,
};
use crate::model::{HistogramV, LabelV, MetricsV, MICRO_SCALE};
use crate::render::{digit_char, spec_int_str, spec_uint_str};
use crate::scrape::spec_document;
use crate::translate::{
    spec_map_gauge, spec_map_histogram, spec_translate, spec_translate_gauges,
    spec_translate_histograms, ExpoBucketV, ExpoGaugeV, ExpoHistogramV, ExpoMetricV,
};

verus! {

/// Law: derived bound `i` of a histogram with `n` buckets over
/// `[low, high]` is exactly `low + (high - low) / n * (i + 1)`: over
/// the common denominator `n` (in micros) its numerator is
/// `low * n + (high - low) * (i + 1)`.
pub proof fn lemma_derived_bound(h: HistogramV, i: int)
    requires
        h.buckets.len() > 0,
        0 <= i < h.buckets.len(),
    ensures
        spec_map_histogram(h) matches ExpoMetricV::Histogram(eh) && eh.den == h.buckets.len() * (
        MICRO_SCALE as nat) && eh.buckets[i].bound_num == h.low_micros * (h.buckets.len() as int)
            + (h.high_micros - h.low_micros) * (i + 1),
{
}

/// Law: the last derived bound equals the upper end of the value range
/// exactly: over the denominator `n` its numerator is `high * n`.
pub proof fn lemma_last_bound_is_high(h: HistogramV)
    requires
        h.buckets.len() > 0,
    ensures
        spec_map_histogram(h) matches ExpoMetricV::Histogram(eh) && eh.buckets[h.buckets.len()
            - 1].bound_num == h.high_micros * (h.buckets.len() as int),
{
    let n = h.buckets.len() as int;
    assert(h.low_micros * n + (h.high_micros - h.low_micros) * n == h.high_micros * n)
        by (nonlinear_arith);
}

/// Law: the cumulative bucket counts are non-decreasing in bound
/// order.
pub proof fn lemma_cumulative_nondecreasing(bs: Seq<ExpoBucketV>, i: int, j: int)
    requires
        0 <= i <= j <= bs.len(),
    ensures
        spec_bucket_sum(bs.take(i)) <= spec_bucket_sum(bs.take(j)),
    decreases j - i,
{
    if i < j {
        lemma_cumulative_nondecreasing(bs, i, j - 1);
        assert(bs.take(j).drop_last() =~= bs.take(j - 1));
    }
}

/// Law: when the per-bucket counts sum to at most the carried
/// observation count, every cumulative count is at most that count, so
/// the `+Inf` sample (which carries the count itself) is the largest.
/// An input whose bucket counts sum past its `count` field breaks the
/// ordering at the `+Inf` step and is left out here.
pub proof fn lemma_inf_bucket_dominates(h: ExpoHistogramV)
    requires
        spec_bucket_sum(h.buckets) <= h.count,
    ensures
        forall|i: int|
            0 <= i <= h.buckets.len() ==> spec_bucket_sum(#[trigger] h.buckets.take(i)) <= h.count,
{
    assert forall|i: int|
        0 <= i <= h.buckets.len() implies spec_bucket_sum(#[trigger] h.buckets.take(i))
        <= h.count by {
        lemma_cumulative_nondecreasing(h.buckets, i, h.buckets.len() as int);
        assert(h.buckets.take(h.buckets.len() as int) =~= h.buckets);
    }
}

/// Law: a histogram with no buckets contributes nothing: adding it to
/// a snapshot leaves the encoded document unchanged, and nothing
/// fails.
pub proof fn lemma_zero_bucket_histogram_skipped(m: MetricsV, h: HistogramV)
    requires
        h.buckets.len() == 0,
    ensures
        spec_document(MetricsV { gauges: m.gauges, histograms: m.histograms.push(h) })
            == spec_document(m),
{
    let with = MetricsV { gauges: m.gauges, histograms: m.histograms.push(h) };
    assert(m.histograms.push(h).drop_last() =~= m.histograms);
    assert(m.histograms.push(h).last() == h);
    assert(spec_translate_histograms(m.histograms.push(h)) =~= spec_translate_histograms(
        m.histograms,
    ));
    assert(spec_translate(with) =~= spec_translate(m));
}

/// Law: the empty snapshot encodes to the empty document.
pub proof fn lemma_empty_document()
    ensures
        spec_document(MetricsV { gauges: Seq::empty(), histograms: Seq::empty() })
            == Seq::<char>::empty(),
{
    let m = MetricsV { gauges: Seq::empty(), histograms: Seq::empty() };
    assert(spec_translate(m) =~= Seq::<ExpoMetricV>::empty());
}

/// Number of newline characters in a text.
pub open spec fn newline_count(s: Seq<char>) -> nat
    decreases s.len(),
{
    if s.len() == 0 {
        0
    } else {
        newline_count(s.drop_last()) + (if s.last() == '\n' {
            1nat
        } else {
            0nat
        })
    }
}

/// Newlines add up over concatenation.
proof fn lemma_newline_concat(a: Seq<char>, b: Seq<char>)
    ensures
        newline_count(a + b) == newline_count(a) + newline_count(b),
    decreases b.len(),
{
    if b.len() == 0 {
        assert(a + b =~= a);
    } else {
        lemma_newline_concat(a, b.drop_last());
        assert((a + b).drop_last() =~= a + b.drop_last());
        assert((a + b).last() == b.last());
    }
}

/// A text none of whose characters is a newline holds no newline.
proof fn lemma_no_newline(s: Seq<char>)
    requires
        forall|i: int| 0 <= i < s.len() ==> s[i] != '\n',
    ensures
        newline_count(s) == 0,
    decreases s.len(),
{
    if s.len() > 0 {
        assert(forall|i: int| 0 <= i < s.drop_last().len() ==> s.drop_last()[i] == s[i]);
        lemma_no_newline(s.drop_last());
    }
}

/// A legal metric name holds no newline.
proof fn lemma_metric_name_no_newline(s: Seq<char>)
    requires
        valid_metric_name(s),
    ensures
        newline_count(s) == 0,
{
    assert forall|i: int| 0 <= i < s.len() implies s[i] != '\n' by {
        assert('\n' as u32 == 10);
    }
    lemma_no_newline(s);
}

/// A legal label name holds no newline.
proof fn lemma_label_name_no_newline(s: Seq<char>)
    requires
        valid_label_name(s),
    ensures
        newline_count(s) == 0,
{
    assert forall|i: int| 0 <= i < s.len() implies s[i] != '\n' by {
        assert('\n' as u32 == 10);
    }
    lemma_no_newline(s);
}

/// An escaped label value holds no newline: the escape rewrites the
/// newline itself.
proof fn lemma_escape_no_newline(s: Seq<char>)
    ensures
        newline_count(spec_escape(s)) == 0,
    decreases s.len(),
{
    reveal_strlit("\\\\");
    reveal_strlit("\\\"");
    reveal_strlit("\\n");
    if s.len() == 0 {
    } else {
        lemma_escape_no_newline(s.drop_last());
        lemma_newline_concat(spec_escape(s.drop_last()), esc_char(s.last()));
        lemma_no_newline(esc_char(s.last()));
    }
}

/// One label item holds no newline.
proof fn lemma_label_item_no_newline(l: LabelV)
    requires
        valid_label_name(l.name),
    ensures
        newline_count(spec_label_item(l)) == 0,
{
    reveal_strlit("=\"");
    reveal_strlit("\"");
    lemma_label_name_no_newline(l.name);
    lemma_escape_no_newline(l.value);
    lemma_newline_concat(l.name, "=\""@);
    lemma_no_newline("=\""@);
    lemma_newline_concat(l.name + "=\""@, spec_escape(l.value));
    lemma_newline_concat(l.name + "=\""@ + spec_escape(l.value), "\""@);
    lemma_no_newline("\""@);
}

/// A label block holds no newline.
proof fn lemma_labels_body_no_newline(ls: Seq<LabelV>)
    requires
        forall|i: int| 0 <= i < ls.len() ==> valid_label_name(#[trigger] ls[i].name),
    ensures
        newline_count(spec_labels_body(ls)) == 0,
    decreases ls.len(),
{
    reveal_strlit(",");
    if ls.len() == 0 {
    } else {
        assert(forall|i: int| 0 <= i < ls.drop_last().len() ==> ls.drop_last()[i] == ls[i]);
        lemma_labels_body_no_newline(ls.drop_last());
        let sep: Seq<char> = if ls.len() == 1 {
            Seq::<char>::empty()
        } else {
            ","@
        };
        lemma_no_newline(sep);
        lemma_newline_concat(spec_labels_body(ls.drop_last()), sep);
        lemma_label_item_no_newline(ls.last());
        lemma_newline_concat(spec_labels_body(ls.drop_last()) + sep, spec_label_item(ls.last()));
    }
}

/// The whole label block of a sample line holds no newline.
proof fn lemma_label_block_no_newline(ls: Seq<LabelV>)
    requires
        forall|i: int| 0 <= i < ls.len() ==> valid_label_name(#[trigger] ls[i].name),
    ensures
        newline_count(spec_label_block(ls)) == 0,
{
    reveal_strlit("{");
    reveal_strlit("}");
    if ls.len() == 0 {
    } else {
        lemma_no_newline("{"@);
        lemma_labels_body_no_newline(ls);
        lemma_newline_concat("{"@, spec_labels_body(ls));
        lemma_newline_concat("{"@ + spec_labels_body(ls), "}"@);
        lemma_no_newline("}"@);
    }
}

/// The decimal text of a natural number holds no newline.
proof fn lemma_uint_str_no_newline(n: nat)
    ensures
        newline_count(spec_uint_str(n)) == 0,
    decreases n,
{
    if n < 10 {
        lemma_no_newline(spec_uint_str(n));
    } else {
        lemma_uint_str_no_newline(n / 10);
        lemma_newline_concat(spec_uint_str(n / 10), seq![digit_char((n % 10) as int)]);
        lemma_no_newline(seq![digit_char((n % 10) as int)]);
    }
}

/// The decimal text of an integer holds no newline.
proof fn lemma_int_str_no_newline(v: int)
    ensures
        newline_count(spec_int_str(v)) == 0,
{
    if v < 0 {
        lemma_no_newline(seq!['-']);
        lemma_uint_str_no_newline((-v) as nat);
        lemma_newline_concat(seq!['-'], spec_uint_str((-v) as nat));
    } else {
        lemma_uint_str_no_newline(v as nat);
    }
}

/// Law: one gauge with legal names contributes exactly two lines to
/// the document: its type line and a single sample line
/// `name{labels} value`, both newline-terminated, with the labels in
/// last-write-wins form and the value the gauge's own.
pub proof fn lemma_gauge_one_sample_line(g: ExpoGaugeV)
    requires
        spec_metric_ok(ExpoMetricV::Gauge(g)),
    ensures
        newline_count(spec_gauge_text(g)) == 2,
        spec_gauge_text(g).last() == '\n',
{
    reveal_strlit("# TYPE ");
    reveal_strlit(" gauge\n");
    reveal_strlit(" ");
    reveal_strlit("\n");
    let type_head = "# TYPE "@ + g.name + " gauge\n"@;
    let sample = g.name + spec_label_block(g.labels) + " "@ + spec_int_str(g.value);
    assert(spec_gauge_text(g) =~= type_head + sample + "\n"@);

    lemma_no_newline("# TYPE "@);
    lemma_metric_name_no_newline(g.name);
    lemma_newline_concat("# TYPE "@, g.name);
    assert(forall|i: int|
        0 <= i < " gauge\n"@.drop_last().len() ==> " gauge\n"@.drop_last()[i] == " gauge\n"@[i]);
    lemma_no_newline(" gauge\n"@.drop_last());
    assert(newline_count(" gauge\n"@) == 1);
    lemma_newline_concat("# TYPE "@ + g.name, " gauge\n"@);
    assert(newline_count(type_head) == 1);

    lemma_label_block_no_newline(g.labels);
    lemma_newline_concat(g.name, spec_label_block(g.labels));
    lemma_newline_concat(g.name + spec_label_block(g.labels), " "@);
    lemma_no_newline(" "@);
    lemma_int_str_no_newline(g.value);
    lemma_newline_concat(g.name + spec_label_block(g.labels) + " "@, spec_int_str(g.value));
    assert(newline_count(sample) == 0);

    lemma_newline_concat(type_head, sample);
    lemma_newline_concat(type_head + sample, "\n"@);
    lemma_no_newline("\n"@.drop_last());
    assert(newline_count("\n"@) == 1);
}

/// One step of a document: appending one record appends its text.
proof fn lemma_encode_snoc(ms: Seq<ExpoMetricV>, m: ExpoMetricV)
    ensures
        spec_encode(ms.push(m)) == spec_encode(ms) + spec_metric_text(m),
{
    assert(ms.push(m).drop_last() =~= ms);
    assert(ms.push(m).last() == m);
}

/// The lines of a batch of gauges: two per gauge.
proof fn lemma_gauges_line_count(gs: Seq<crate::model::GaugeV>)
    requires
        forall|i: int| 0 <= i < gs.len() ==> spec_metric_ok(#[trigger] spec_map_gauge(gs[i])),
    ensures
        newline_count(spec_encode(spec_translate_gauges(gs))) == 2 * gs.len(),
    decreases gs.len(),
{
    if gs.len() == 0 {
    } else {
        let prev = gs.drop_last();
        assert(forall|i: int| 0 <= i < prev.len() ==> prev[i] == gs[i]);
        lemma_gauges_line_count(prev);
        let g = gs.last();
        assert(spec_translate_gauges(gs) =~= spec_translate_gauges(prev).push(spec_map_gauge(g)));
        lemma_encode_snoc(spec_translate_gauges(prev), spec_map_gauge(g));
        lemma_newline_concat(
            spec_encode(spec_translate_gauges(prev)),
            spec_metric_text(spec_map_gauge(g)),
        );
        assert(spec_map_gauge(g) matches ExpoMetricV::Gauge(eg) && spec_metric_text(
            spec_map_gauge(g),
        ) == spec_gauge_text(eg));
        lemma_gauge_one_sample_line(
            ExpoGaugeV { name: g.name, value: g.value, labels: crate::translate::spec_lww(g.labels) },
        );
    }
}

/// Law: the document of a snapshot that holds only gauges (with legal
/// names) has exactly two lines per gauge: each gauge's type line and
/// its single sample line.
pub proof fn lemma_gauge_document_line_count(m: MetricsV)
    requires
        m.histograms.len() == 0,
        forall|i: int|
            0 <= i < m.gauges.len() ==> spec_metric_ok(#[trigger] spec_map_gauge(m.gauges[i])),
    ensures
        newline_count(spec_document(m)) == 2 * m.gauges.len(),
{
    assert(spec_translate(m) =~= spec_translate_gauges(m.gauges));
    lemma_gauges_line_count(m.gauges);
}

} // verus!

