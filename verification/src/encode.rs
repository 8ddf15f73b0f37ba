//! Exposition encoder: serializes exposition-ready metric records into
//! the Prometheus text wire format.
//!
//! Each record contributes one `# TYPE` line and its sample lines: a
//! gauge one `name{labels} value` line; a histogram one
//! `name_bucket{labels,le="bound"} cum` line per bucket with cumulative
//! counts (the running sum of the per-bucket counts), an implicit
//! `+Inf` bucket equal to the carried `count`, then `name_sum` and
//! `name_count` lines.  A metric or label name with a character illegal
//! in the wire format aborts the whole encoding with an error; label
//! values are escaped instead.

use vstd::prelude::*;
use vstd::string::*;

use crate::model::{labels_view, Label, LabelV, MICRO_SCALE};
use crate::render::{
    append_int, append_ratio, append_uint, push_char, spec_int_str, spec_ratio_str, spec_uint_str,
};
use crate::translate::{
    expo_view, spec_hist_renderable, spec_renderable, ExpoBucketV, ExpoGauge, ExpoGaugeV,
    ExpoHistogram, ExpoHistogramV, ExpoMetric, ExpoMetricV,
};

verus! {

/// Encoding failure: some metric or label name cannot stand in the
/// wire format.
#[derive(Clone, Copy, Debug, PartialEq, Eq, Structural)]
pub enum EncodeError {
    InvalidName,
}

/// A character legal anywhere in a metric name.
pub open spec fn metric_name_char(c: char) -> bool {
    97 <= c as u32 <= 122 || 65 <= c as u32 <= 90 || c == '_' || c == ':' || 48 <= c as u32 <= 57
}

/// A character legal at the start of a metric name (no digit).
pub open spec fn metric_name_start(c: char) -> bool {
    97 <= c as u32 <= 122 || 65 <= c as u32 <= 90 || c == '_' || c == ':'
}

/// A character legal anywhere in a label name.
pub open spec fn label_name_char(c: char) -> bool {
    97 <= c as u32 <= 122 || 65 <= c as u32 <= 90 || c == '_' || 48 <= c as u32 <= 57
}

/// A character legal at the start of a label name.
pub open spec fn label_name_start(c: char) -> bool {
    97 <= c as u32 <= 122 || 65 <= c as u32 <= 90 || c == '_'
}

/// A metric name legal in the wire format.
pub open spec fn valid_metric_name(s: Seq<char>) -> bool {
    s.len() > 0 && metric_name_start(s[0]) && forall|i: int|
        1 <= i < s.len() ==> metric_name_char(#[trigger] s[i])
}

/// A label name legal in the wire format.
pub open spec fn valid_label_name(s: Seq<char>) -> bool {
    s.len() > 0 && label_name_start(s[0]) && forall|i: int|
        1 <= i < s.len() ==> label_name_char(#[trigger] s[i])
}

/// The escape of one label-value character.
pub open spec fn esc_char(c: char) -> Seq<char> {
    if c == '\\' {
        "\\\\"@
    } else if c == '"' {
        "\\\""@
    } else if c == '\n' {
        "\\n"@
    } else {
        seq![c]
    }
}

/// The escaped form of a label value.
pub open spec fn spec_escape(s: Seq<char>) -> Seq<char>
    decreases s.len(),
{
    if s.len() == 0 {
        Seq::empty()
    } else {
        spec_escape(s.drop_last()) + esc_char(s.last())
    }
}

/// One `name="value"` item of a label block.
pub open spec fn spec_label_item(l: LabelV) -> Seq<char> {
    l.name + "=\""@ + spec_escape(l.value) + "\""@
}

/// The comma-separated items of a label block.
pub open spec fn spec_labels_body(ls: Seq<LabelV>) -> Seq<char>
    decreases ls.len(),
{
    if ls.len() == 0 {
        Seq::empty()
    } else {
        spec_labels_body(ls.drop_last()) + (if ls.len() == 1 {
            Seq::<char>::empty()
        } else {
            ","@
        }) + spec_label_item(ls.last())
    }
}

/// The label block of a sample line: empty when there is no label,
/// else the items in braces.
pub open spec fn spec_label_block(ls: Seq<LabelV>) -> Seq<char> {
    if ls.len() == 0 {
        Seq::empty()
    } else {
        "{"@ + spec_labels_body(ls) + "}"@
    }
}

/// The label block of a bucket line: the labels, then the `le` bound
/// label, always in braces.
pub open spec fn spec_le_block(ls: Seq<LabelV>, le: Seq<char>) -> Seq<char> {
    "{"@ + (if ls.len() == 0 {
        Seq::<char>::empty()
    } else {
        spec_labels_body(ls) + ","@
    }) + "le=\""@ + le + "\"}"@
}

/// The text of one gauge record: a type line and one sample line.
pub open spec fn spec_gauge_text(g: ExpoGaugeV) -> Seq<char> {
    "# TYPE "@ + g.name + " gauge\n"@ + g.name + spec_label_block(g.labels) + " "@ + spec_int_str(
        g.value,
    ) + "\n"@
}

/// Sum of the per-bucket counts.
pub open spec fn spec_bucket_sum(bs: Seq<ExpoBucketV>) -> nat
    decreases bs.len(),
{
    if bs.len() == 0 {
        0
    } else {
        spec_bucket_sum(bs.drop_last()) + bs.last().count
    }
}

/// The bucket line of bucket `i`: the cumulative count up to and
/// including `i` under the derived bound rendered as `le`.
pub open spec fn spec_bucket_line(h: ExpoHistogramV, i: int) -> Seq<char> {
    h.name + "_bucket"@ + spec_le_block(
        h.labels,
        spec_ratio_str(h.buckets[i].bound_num, h.den),
    ) + " "@ + spec_uint_str(spec_bucket_sum(h.buckets.take(i + 1))) + "\n"@
}

/// The first `k` bucket lines, in bound order.
pub open spec fn spec_bucket_lines(h: ExpoHistogramV, k: int) -> Seq<char>
    decreases k,
{
    if k <= 0 {
        Seq::empty()
    } else {
        spec_bucket_lines(h, k - 1) + spec_bucket_line(h, k - 1)
    }
}

/// The text of one histogram record: a type line, the bucket lines,
/// the `+Inf` bucket carrying the observation count, then the sum and
/// count lines.
pub open spec fn spec_hist_text(h: ExpoHistogramV) -> Seq<char> {
    "# TYPE "@ + h.name + " histogram\n"@ + spec_bucket_lines(h, h.buckets.len() as int) + h.name
        + "_bucket"@ + spec_le_block(h.labels, "+Inf"@) + " "@ + spec_uint_str(h.count) + "\n"@
        + h.name + "_sum"@ + spec_label_block(h.labels) + " "@ + spec_ratio_str(
        h.sum_micros,
        MICRO_SCALE as nat,
    ) + "\n"@ + h.name + "_count"@ + spec_label_block(h.labels) + " "@ + spec_uint_str(h.count)
        + "\n"@
}

/// The text of one record.
pub open spec fn spec_metric_text(m: ExpoMetricV) -> Seq<char> {
    match m {
        ExpoMetricV::Gauge(g) => spec_gauge_text(g),
        ExpoMetricV::Histogram(h) => spec_hist_text(h),
    }
}

/// The whole document: the records' texts, in order.
pub open spec fn spec_encode(ms: Seq<ExpoMetricV>) -> Seq<char>
    decreases ms.len(),
{
    if ms.len() == 0 {
        Seq::empty()
    } else {
        spec_encode(ms.drop_last()) + spec_metric_text(ms.last())
    }
}

/// All names of one record are legal in the wire format.
pub open spec fn spec_metric_ok(m: ExpoMetricV) -> bool {
    match m {
        ExpoMetricV::Gauge(g) => valid_metric_name(g.name) && forall|i: int|
            0 <= i < g.labels.len() ==> valid_label_name(#[trigger] g.labels[i].name),
        ExpoMetricV::Histogram(h) => valid_metric_name(h.name) && forall|i: int|
            0 <= i < h.labels.len() ==> valid_label_name(#[trigger] h.labels[i].name),
    }
}

/// Whether `s` is legal as a metric name.
pub fn is_valid_metric_name(s: &String) -> (b: bool)
    ensures
        b == valid_metric_name(s@),
{
    let len = s.as_str().unicode_len();
    if len == 0 {
        return false;
    }
    let c0 = s.as_str().get_char(0);
    let v0 = c0 as u32;
    if !(97 <= v0 && v0 <= 122 || 65 <= v0 && v0 <= 90 || c0 == '_' || c0 == ':') {
        return false;
    }
    let mut i: usize = 1;
    while i < len
        invariant
            1 <= i <= len,
            len == s@.len(),
            metric_name_start(s@[0]),
            forall|k: int| 1 <= k < i ==> metric_name_char(#[trigger] s@[k]),
        decreases len - i,
    {
        let c = s.as_str().get_char(i);
        let v = c as u32;
        if !(97 <= v && v <= 122 || 65 <= v && v <= 90 || c == '_' || c == ':' || 48 <= v && v
            <= 57) {
            return false;
        }
        i = i + 1;
    }
    true
}

/// Whether `s` is legal as a label name.
pub fn is_valid_label_name(s: &String) -> (b: bool)
    ensures
        b == valid_label_name(s@),
{
    let len = s.as_str().unicode_len();
    if len == 0 {
        return false;
    }
    let c0 = s.as_str().get_char(0);
    let v0 = c0 as u32;
    if !(97 <= v0 && v0 <= 122 || 65 <= v0 && v0 <= 90 || c0 == '_') {
        return false;
    }
    let mut i: usize = 1;
    while i < len
        invariant
            1 <= i <= len,
            len == s@.len(),
            label_name_start(s@[0]),
            forall|k: int| 1 <= k < i ==> label_name_char(#[trigger] s@[k]),
        decreases len - i,
    {
        let c = s.as_str().get_char(i);
        let v = c as u32;
        if !(97 <= v && v <= 122 || 65 <= v && v <= 90 || c == '_' || 48 <= v && v <= 57) {
            return false;
        }
        i = i + 1;
    }
    true
}

/// Whether every label name of the sequence is legal.
pub fn all_label_names_valid(ls: &Vec<Label>) -> (b: bool)
    ensures
        b == (forall|i: int|
            0 <= i < ls@.len() ==> valid_label_name(#[trigger] labels_view(ls@)[i].name)),
{
    let mut i: usize = 0;
    while i < ls.len()
        invariant
            i <= ls@.len(),
            forall|k: int| 0 <= k < i ==> valid_label_name(#[trigger] labels_view(ls@)[k].name),
        decreases ls@.len() - i,
    {
        if !is_valid_label_name(&ls[i].name) {
            assert(labels_view(ls@)[i as int].name == ls@[i as int].name@);
            return false;
        }
        assert(labels_view(ls@)[i as int].name == ls@[i as int].name@);
        i = i + 1;
    }
    true
}

/// Appends the escaped form of a label value.
fn append_escaped(out: &mut String, s: &String)
    ensures
        final(out)@ == old(out)@ + spec_escape(s@),
{
    let len = s.as_str().unicode_len();
    let mut i: usize = 0;
    assert(old(out)@ + spec_escape(s@.take(0)) =~= old(out)@);
    while i < len
        invariant
            i <= len,
            len == s@.len(),
            out@ == old(out)@ + spec_escape(s@.take(i as int)),
        decreases len - i,
    {
        let c = s.as_str().get_char(i);
        if c == '\\' {
            out.append("\\\\");
        } else if c == '"' {
            out.append("\\\"");
        } else if c == '\n' {
            out.append("\\n");
        } else {
            push_char(out, c);
        }
        proof {
            assert(s@.take(i as int + 1).drop_last() =~= s@.take(i as int));
            assert(s@.take(i as int + 1).last() == s@[i as int]);
            assert(out@ =~= old(out)@ + spec_escape(s@.take(i as int + 1)));
        }
        i = i + 1;
    }
    assert(s@.take(len as int) =~= s@);
}

/// Appends the comma-separated items of a label block.
fn append_labels_body(out: &mut String, ls: &Vec<Label>)
    ensures
        final(out)@ == old(out)@ + spec_labels_body(labels_view(ls@)),
{
    let ghost lv = labels_view(ls@);
    let mut i: usize = 0;
    assert(old(out)@ + spec_labels_body(lv.take(0)) =~= old(out)@);
    while i < ls.len()
        invariant
            i <= ls@.len(),
            lv == labels_view(ls@),
            out@ == old(out)@ + spec_labels_body(lv.take(i as int)),
        decreases ls@.len() - i,
    {
        if i > 0 {
            out.append(",");
        }
        out.append(ls[i].name.as_str());
        out.append("=\"");
        append_escaped(out, &ls[i].value);
        out.append("\"");
        proof {
            assert(lv.take(i as int + 1).drop_last() =~= lv.take(i as int));
            assert(lv.take(i as int + 1).last() == lv[i as int]);
            assert(lv[i as int].name == ls@[i as int].name@);
            assert(lv[i as int].value == ls@[i as int].value@);
            assert(out@ =~= old(out)@ + spec_labels_body(lv.take(i as int + 1)));
        }
        i = i + 1;
    }
    assert(lv.take(ls@.len() as int) =~= lv);
}

/// Appends the label block of a plain sample line.
fn append_label_block(out: &mut String, ls: &Vec<Label>)
    ensures
        final(out)@ == old(out)@ + spec_label_block(labels_view(ls@)),
{
    if ls.len() > 0 {
        out.append("{");
        append_labels_body(out, ls);
        out.append("}");
        assert(final(out)@ =~= old(out)@ + spec_label_block(labels_view(ls@)));
    } else {
        assert(final(out)@ =~= old(out)@ + spec_label_block(labels_view(ls@)));
    }
}

/// Appends the label block of a bucket line, `le` last.
fn append_le_block(out: &mut String, ls: &Vec<Label>, le: &String)
    ensures
        final(out)@ == old(out)@ + spec_le_block(labels_view(ls@), le@),
{
    out.append("{");
    if ls.len() > 0 {
        append_labels_body(out, ls);
        out.append(",");
    }
    out.append("le=\"");
    out.append(le.as_str());
    out.append("\"}");
    assert(final(out)@ =~= old(out)@ + spec_le_block(labels_view(ls@), le@));
}

/// Appends the text of one gauge record.
fn append_gauge(out: &mut String, g: &ExpoGauge)
    ensures
        final(out)@ == old(out)@ + spec_gauge_text(g@),
{
    out.append("# TYPE ");
    out.append(g.name.as_str());
    out.append(" gauge\n");
    out.append(g.name.as_str());
    append_label_block(out, &g.labels);
    out.append(" ");
    append_int(out, g.value);
    out.append("\n");
    assert(final(out)@ =~= old(out)@ + spec_gauge_text(g@));
}

/// Appends the text of one histogram record.
#[verifier::rlimit(80)]
fn append_histogram(out: &mut String, h: &ExpoHistogram)
    requires
        spec_hist_renderable(*h),
    ensures
        final(out)@ == old(out)@ + spec_hist_text(h@),
{
    let ghost hv = h@;
    out.append("# TYPE ");
    out.append(h.name.as_str());
    out.append(" histogram\n");
    let ghost prefix = "# TYPE "@ + hv.name + " histogram\n"@;
    assert(out@ =~= old(out)@ + prefix + spec_bucket_lines(hv, 0));
    let mut acc: u128 = 0;
    let mut i: usize = 0;
    while i < h.buckets.len()
        invariant
            i <= h.buckets@.len(),
            hv == h@,
            prefix == "# TYPE "@ + hv.name + " histogram\n"@,
            spec_hist_renderable(*h),
            acc as nat == spec_bucket_sum(hv.buckets.take(i as int)),
            acc <= (i as nat) * (u64::MAX as nat),
            out@ == old(out)@ + prefix + spec_bucket_lines(hv, i as int),
        decreases h.buckets@.len() - i,
    {
        let c: u64 = h.buckets[i].count;
        proof {
            assert((i as nat) * (u64::MAX as nat) + (u64::MAX as nat) == ((i + 1) as nat) * (
            u64::MAX as nat)) by (nonlinear_arith);
            assert(((i + 1) as nat) * (u64::MAX as nat) <= (usize::MAX as nat) * (u64::MAX as nat))
                by (nonlinear_arith)
                requires
                    i + 1 <= usize::MAX,
            ;
            assert((usize::MAX as nat) * (u64::MAX as nat) < u128::MAX as nat) by (nonlinear_arith);
        }
        acc = acc + (c as u128);
        proof {
            assert(hv.buckets.take(i as int + 1).drop_last() =~= hv.buckets.take(i as int));
            assert(hv.buckets.take(i as int + 1).last() == hv.buckets[i as int]);
            assert(hv.buckets[i as int].count == h.buckets@[i as int].count as nat);
            assert(acc as nat == spec_bucket_sum(hv.buckets.take(i as int + 1)));
        }
        let mut le = String::new();
        append_ratio(&mut le, h.buckets[i].bound_num, h.den);
        assert(le@ =~= spec_ratio_str(hv.buckets[i as int].bound_num, hv.den));
        out.append(h.name.as_str());
        out.append("_bucket");
        append_le_block(out, &h.labels, &le);
        out.append(" ");
        append_uint(out, acc);
        out.append("\n");
        proof {
            assert(out@ =~= old(out)@ + prefix + spec_bucket_lines(hv, i as int + 1));
        }
        i = i + 1;
    }
    let inf = String::from_str("+Inf");
    out.append(h.name.as_str());
    out.append("_bucket");
    append_le_block(out, &h.labels, &inf);
    out.append(" ");
    append_uint(out, h.count as u128);
    out.append("\n");
    out.append(h.name.as_str());
    out.append("_sum");
    append_label_block(out, &h.labels);
    out.append(" ");
    append_ratio(out, h.sum_micros as i128, MICRO_SCALE as u128);
    out.append("\n");
    out.append(h.name.as_str());
    out.append("_count");
    append_label_block(out, &h.labels);
    out.append(" ");
    append_uint(out, h.count as u128);
    out.append("\n");
    assert(final(out)@ =~= old(out)@ + spec_hist_text(hv));
}

/// Whether every name of the record is legal in the wire format.
pub fn metric_ok_exec(m: &ExpoMetric) -> (b: bool)
    ensures
        b == spec_metric_ok(m@),
{
    match m {
        ExpoMetric::Gauge(g) => {
            assert(m@ == ExpoMetricV::Gauge(g@));
            let name_ok = is_valid_metric_name(&g.name);
            let labels_ok = all_label_names_valid(&g.labels);
            assert(g@.labels == labels_view(g.labels@));
            assert((name_ok && labels_ok) == spec_metric_ok(m@));
            name_ok && labels_ok
        },
        ExpoMetric::Histogram(h) => {
            assert(m@ == ExpoMetricV::Histogram(h@));
            let name_ok = is_valid_metric_name(&h.name);
            let labels_ok = all_label_names_valid(&h.labels);
            assert(h@.labels == labels_view(h.labels@));
            assert((name_ok && labels_ok) == spec_metric_ok(m@));
            name_ok && labels_ok
        },
    }
}

/// Encodes the records into one exposition document.
///
/// Succeeds exactly when every metric and label name is legal in the
/// wire format; the document is then the records' texts in order.  An
/// illegal name aborts the whole encoding: no partial document comes
/// back.
pub fn encode(ms: &Vec<ExpoMetric>) -> (r: Result<String, EncodeError>)
    requires
        forall|i: int| 0 <= i < ms@.len() ==> spec_renderable(#[trigger] ms@[i]),
    ensures
        match r {
            Result::Ok(s) => s@ == spec_encode(expo_view(ms@)) && forall|i: int|
                0 <= i < ms@.len() ==> spec_metric_ok(#[trigger] expo_view(ms@)[i]),
            Result::Err(e) => e == EncodeError::InvalidName && exists|i: int|
                0 <= i < ms@.len() && !spec_metric_ok(#[trigger] expo_view(ms@)[i]),
        },
{
    let ghost msv = expo_view(ms@);
    let mut out = String::new();
    assert(out@ =~= spec_encode(msv.take(0)));
    let mut i: usize = 0;
    while i < ms.len()
        invariant
            i <= ms@.len(),
            msv == expo_view(ms@),
            forall|k: int| 0 <= k < ms@.len() ==> spec_renderable(#[trigger] ms@[k]),
            out@ == spec_encode(msv.take(i as int)),
            forall|k: int| 0 <= k < i ==> spec_metric_ok(#[trigger] msv[k]),
        decreases ms@.len() - i,
    {
        let m = &ms[i];
        proof {
            assert(msv[i as int] == ms@[i as int]@);
        }
        if !metric_ok_exec(m) {
            return Result::Err(EncodeError::InvalidName);
        }
        match m {
            ExpoMetric::Gauge(g) => {
                append_gauge(&mut out, g);
            },
            ExpoMetric::Histogram(h) => {
                assert(spec_renderable(ms@[i as int]));
                append_histogram(&mut out, h);
            },
        }
        proof {
            assert(msv.take(i as int + 1).drop_last() =~= msv.take(i as int));
            assert(msv.take(i as int + 1).last() == msv[i as int]);
            assert(out@ =~= spec_encode(msv.take(i as int + 1)));
        }
        i = i + 1;
    }
    assert(msv.take(ms@.len() as int) =~= msv);
    Result::Ok(out)
}

} // verus!
