//! Translator: pure mapping from one raw `Metrics` value to the
//! exposition-ready metric records.
//!
//! Gauges map one to one.  Histograms carry only a value range and a
//! bucket count, so the translator reconstructs `n` equal-width bucket
//! upper bounds; bound `i` (0-indexed) is the exact rational
//! `low + (high - low) / n * (i + 1)`, held as the integer numerator
//! `low * n + (high - low) * (i + 1)` in micros over the common
//! denominator `n * MICRO_SCALE`.  A histogram with no buckets is
//! skipped: no bucket layout can be derived for it.  Label sequences are
//! folded into a mapping with unique names, later entries for a repeated
//! name overwriting earlier ones.

use vstd::prelude::*;

use crate::model::{GaugeV, Histogram, HistogramV, Label, LabelV, Metrics, MetricsV};
use crate::model::{labels_view, MICRO_SCALE};

verus! {

/// Largest accepted bucket count of one histogram; keeps the bound
/// numerators inside the machine integer range.
pub const MAX_BUCKETS: u64 = 1_000_000_000_000;

/// Every histogram's bucket count is within the machine limit the
/// translator needs.
pub open spec fn buckets_fit(m: Metrics) -> bool {
    forall|i: int|
        0 <= i < m.histograms@.len() ==> #[trigger] m.histograms@[i].buckets@.len() <= MAX_BUCKETS
}

/// Index of the first label named `name`, `-1` when there is none.
pub open spec fn find_label(ls: Seq<LabelV>, name: Seq<char>) -> int
    decreases ls.len(),
{
    if ls.len() == 0 {
        -1
    } else if ls[0].name == name {
        0
    } else {
        let r = find_label(ls.skip(1), name);
        if r < 0 {
            -1
        } else {
            r + 1
        }
    }
}

/// Last-write-wins fold of a label sequence: entries are taken in
/// order; a repeated name overwrites the earlier entry in place.
pub open spec fn spec_lww(ls: Seq<LabelV>) -> Seq<LabelV>
    decreases ls.len(),
{
    if ls.len() == 0 {
        Seq::empty()
    } else {
        let prev = spec_lww(ls.drop_last());
        let l = ls.last();
        let j = find_label(prev, l.name);
        if j >= 0 {
            prev.update(j, l)
        } else {
            prev.push(l)
        }
    }
}

/// What `find_label` finds: either no entry has the name, or the result
/// is the first entry that does.
proof fn lemma_find_label(ls: Seq<LabelV>, name: Seq<char>)
    ensures
        find_label(ls, name) == -1 ==> forall|i: int| 0 <= i < ls.len() ==> ls[i].name != name,
        find_label(ls, name) != -1 ==> {
            let r = find_label(ls, name);
            0 <= r < ls.len() && ls[r].name == name && forall|m: int|
                0 <= m < r ==> ls[m].name != name
        },
    decreases ls.len(),
{
    if ls.len() == 0 {
    } else if ls[0].name == name {
    } else {
        let tail = ls.skip(1);
        lemma_find_label(tail, name);
        assert forall|i: int| 0 <= i < tail.len() implies tail[i] == ls[i + 1] by {
            assert(tail[i] == ls[i + 1]);
        }
        let rt = find_label(tail, name);
        if rt == -1 {
            assert forall|i: int| 0 <= i < ls.len() implies ls[i].name != name by {
                if i > 0 {
                    assert(ls[i] == tail[i - 1]);
                }
            }
        } else {
            assert(ls[rt + 1] == tail[rt]);
            assert forall|m: int| 0 <= m < rt + 1 implies ls[m].name != name by {
                if m > 0 {
                    assert(ls[m] == tail[m - 1]);
                }
            }
        }
    }
}

/// Exposition gauge record.
pub struct ExpoGauge {
    pub name: String,
    pub value: i64,
    pub labels: Vec<Label>,
}

/// Mathematical image of an `ExpoGauge`.
pub ghost struct ExpoGaugeV {
    pub name: Seq<char>,
    pub value: int,
    pub labels: Seq<LabelV>,
}

impl View for ExpoGauge {
    type V = ExpoGaugeV;

    open spec fn view(&self) -> ExpoGaugeV {
        ExpoGaugeV {
            name: self.name@,
            value: self.value as int,
            labels: labels_view(self.labels@),
        }
    }
}

/// One derived bucket: the bound numerator (micros times the bucket
/// count of the histogram) and the per-bucket observation count.
pub struct ExpoBucket {
    pub bound_num: i128,
    pub count: u64,
}

/// Mathematical image of an `ExpoBucket`.
pub ghost struct ExpoBucketV {
    pub bound_num: int,
    pub count: nat,
}

impl View for ExpoBucket {
    type V = ExpoBucketV;

    open spec fn view(&self) -> ExpoBucketV {
        ExpoBucketV { bound_num: self.bound_num as int, count: self.count as nat }
    }
}

/// Exposition histogram record: derived buckets over a common bound
/// denominator, with sum and count carried through.
pub struct ExpoHistogram {
    pub name: String,
    pub labels: Vec<Label>,
    pub buckets: Vec<ExpoBucket>,
    pub den: u128,
    pub sum_micros: i64,
    pub count: u64,
}

/// Mathematical image of an `ExpoHistogram`.
pub ghost struct ExpoHistogramV {
    pub name: Seq<char>,
    pub labels: Seq<LabelV>,
    pub buckets: Seq<ExpoBucketV>,
    pub den: nat,
    pub sum_micros: int,
    pub count: nat,
}

impl View for ExpoHistogram {
    type V = ExpoHistogramV;

    open spec fn view(&self) -> ExpoHistogramV {
        ExpoHistogramV {
            name: self.name@,
            labels: labels_view(self.labels@),
            buckets: Seq::new(self.buckets@.len(), |i: int| self.buckets@[i]@),
            den: self.den as nat,
            sum_micros: self.sum_micros as int,
            count: self.count as nat,
        }
    }
}

/// One exposition-ready metric record.
pub enum ExpoMetric {
    Gauge(ExpoGauge),
    Histogram(ExpoHistogram),
}

/// Mathematical image of an `ExpoMetric`.
pub ghost enum ExpoMetricV {
    Gauge(ExpoGaugeV),
    Histogram(ExpoHistogramV),
}

impl View for ExpoMetric {
    type V = ExpoMetricV;

    open spec fn view(&self) -> ExpoMetricV {
        match self {
            ExpoMetric::Gauge(g) => ExpoMetricV::Gauge(g@),
            ExpoMetric::Histogram(h) => ExpoMetricV::Histogram(h@),
        }
    }
}

/// The images of a sequence of exposition metrics, in order.
pub open spec fn expo_view(ms: Seq<ExpoMetric>) -> Seq<ExpoMetricV> {
    Seq::new(ms.len(), |i: int| ms[i]@)
}

/// The machine-size side conditions under which a histogram record can
/// be rendered; the translator establishes them for every record it
/// emits.
pub open spec fn spec_hist_renderable(h: ExpoHistogram) -> bool {
    0 < h.den <= u128::MAX / 10 && forall|i: int|
        0 <= i < h.buckets@.len() ==> #[trigger] h.buckets@[i].bound_num > i128::MIN
}

/// The side conditions for one record.
pub open spec fn spec_renderable(m: ExpoMetric) -> bool {
    match m {
        ExpoMetric::Gauge(_) => true,
        ExpoMetric::Histogram(h) => spec_hist_renderable(h),
    }
}

/// Numerator of derived bound `i` for a histogram over `[low, high]`
/// with `n` buckets: the exact value `low + (high - low) / n * (i + 1)`
/// times `n` (all in micros).
pub open spec fn bound_num(low: int, high: int, n: int, i: int) -> int {
    low * n + (high - low) * (i + 1)
}

/// Image of one raw gauge.
pub open spec fn spec_map_gauge(g: GaugeV) -> ExpoMetricV {
    ExpoMetricV::Gauge(ExpoGaugeV { name: g.name, value: g.value, labels: spec_lww(g.labels) })
}

/// Image of one raw histogram with at least one bucket.
pub open spec fn spec_map_histogram(h: HistogramV) -> ExpoMetricV {
    ExpoMetricV::Histogram(
        ExpoHistogramV {
            name: h.name,
            labels: spec_lww(h.labels),
            buckets: Seq::new(
                h.buckets.len(),
                |i: int|
                    ExpoBucketV {
                        bound_num: bound_num(
                            h.low_micros,
                            h.high_micros,
                            h.buckets.len() as int,
                            i,
                        ),
                        count: h.buckets[i],
                    },
            ),
            den: h.buckets.len() * (MICRO_SCALE as nat),
            sum_micros: h.sum_micros,
            count: h.count,
        },
    )
}

/// Images of the gauges, in order.
pub open spec fn spec_translate_gauges(gs: Seq<GaugeV>) -> Seq<ExpoMetricV>
    decreases gs.len(),
{
    if gs.len() == 0 {
        Seq::empty()
    } else {
        spec_translate_gauges(gs.drop_last()) + seq![spec_map_gauge(gs.last())]
    }
}

/// Images of the histograms, in order, zero-bucket records skipped.
pub open spec fn spec_translate_histograms(hs: Seq<HistogramV>) -> Seq<ExpoMetricV>
    decreases hs.len(),
{
    if hs.len() == 0 {
        Seq::empty()
    } else {
        spec_translate_histograms(hs.drop_last()) + (if hs.last().buckets.len() == 0 {
            Seq::<ExpoMetricV>::empty()
        } else {
            seq![spec_map_histogram(hs.last())]
        })
    }
}

/// The whole translation: all gauges, then all histograms with at
/// least one bucket.
pub open spec fn spec_translate(m: MetricsV) -> Seq<ExpoMetricV> {
    spec_translate_gauges(m.gauges) + spec_translate_histograms(m.histograms)
}

/// Index of the first label in `ls` named `*name`.
fn find_in(ls: &Vec<Label>, name: &String) -> (r: Option<usize>)
    ensures
        match r {
            Option::Some(j) => j < ls@.len() && find_label(labels_view(ls@), name@) == j,
            Option::None => find_label(labels_view(ls@), name@) == -1,
        },
{
    let ghost lsv = labels_view(ls@);
    let mut j: usize = 0;
    while j < ls.len()
        invariant
            j <= ls@.len(),
            lsv == labels_view(ls@),
            forall|m: int| 0 <= m < j ==> lsv[m].name != name@,
        decreases ls@.len() - j,
    {
        if ls[j].name == *name {
            proof {
                assert(lsv[j as int].name == name@);
                lemma_find_label(lsv, name@);
                let r = find_label(lsv, name@);
                assert(r != -1);
                if r < j as int {
                    assert(lsv[r].name == name@);
                    assert(false);
                }
                if r > j as int {
                    assert(lsv[j as int].name != name@);
                    assert(false);
                }
            }
            return Option::Some(j);
        }
        j = j + 1;
    }
    proof {
        lemma_find_label(lsv, name@);
    }
    Option::None
}

/// Folds a raw label sequence into last-write-wins form.
pub fn fold_labels(ls: &Vec<Label>) -> (out: Vec<Label>)
    ensures
        labels_view(out@) == spec_lww(labels_view(ls@)),
{
    let ghost lsv = labels_view(ls@);
    let mut out: Vec<Label> = Vec::new();
    assert(labels_view(out@) =~= spec_lww(lsv.take(0)));
    let mut i: usize = 0;
    while i < ls.len()
        invariant
            i <= ls@.len(),
            lsv == labels_view(ls@),
            labels_view(out@) == spec_lww(lsv.take(i as int)),
        decreases ls@.len() - i,
    {
        let l = Label { name: ls[i].name.clone(), value: ls[i].value.clone() };
        let ghost prev = spec_lww(lsv.take(i as int));
        assert(lsv.take(i as int + 1).drop_last() =~= lsv.take(i as int));
        assert(lsv.take(i as int + 1).last() == lsv[i as int]);
        match find_in(&out, &l.name) {
            Option::Some(j) => {
                out[j] = l;
                assert(labels_view(out@) =~= prev.update(
                    find_label(prev, lsv[i as int].name),
                    lsv[i as int],
                ));
            },
            Option::None => {
                out.push(l);
                assert(labels_view(out@) =~= prev.push(lsv[i as int]));
            },
        }
        i = i + 1;
    }
    assert(lsv.take(ls@.len() as int) =~= lsv);
    out
}

/// Translates one raw snapshot into exposition-ready records: one gauge
/// record per raw gauge, then one histogram record per raw histogram
/// that has at least one bucket; a histogram with no buckets yields
/// nothing and is not an error.
pub fn translate(m: &Metrics) -> (out: Vec<ExpoMetric>)
    requires
        buckets_fit(*m),
    ensures
        expo_view(out@) == spec_translate(m@),
        forall|i: int| 0 <= i < out@.len() ==> spec_renderable(#[trigger] out@[i]),
{
    let mut out: Vec<ExpoMetric> = Vec::new();
    let ghost mv = m@;
    let mut gi: usize = 0;
    assert(expo_view(out@) =~= spec_translate_gauges(mv.gauges.take(0)));
    while gi < m.gauges.len()
        invariant
            gi <= m.gauges@.len(),
            mv == m@,
            mv.gauges.len() == m.gauges@.len(),
            forall|i: int| 0 <= i < m.gauges@.len() ==> mv.gauges[i] == m.gauges@[i]@,
            expo_view(out@) == spec_translate_gauges(mv.gauges.take(gi as int)),
            forall|k: int| 0 <= k < out@.len() ==> spec_renderable(#[trigger] out@[k]),
        decreases m.gauges@.len() - gi,
    {
        let g = &m.gauges[gi];
        let labels = fold_labels(&g.labels);
        let ghost before = expo_view(out@);
        out.push(ExpoMetric::Gauge(ExpoGauge { name: g.name.clone(), value: g.value, labels }));
        proof {
            assert(mv.gauges.take(gi as int + 1).drop_last() =~= mv.gauges.take(gi as int));
            assert(expo_view(out@) =~= before + seq![spec_map_gauge(mv.gauges[gi as int])]);
        }
        gi = gi + 1;
    }
    assert(mv.gauges.take(m.gauges@.len() as int) =~= mv.gauges);

    let mut hi: usize = 0;
    while hi < m.histograms.len()
        invariant
            hi <= m.histograms@.len(),
            mv == m@,
            mv.histograms.len() == m.histograms@.len(),
            forall|i: int| 0 <= i < m.histograms@.len() ==> mv.histograms[i] == m.histograms@[i]@,
            forall|i: int|
                0 <= i < m.histograms@.len() ==> #[trigger] m.histograms@[i].buckets@.len()
                    <= MAX_BUCKETS,
            expo_view(out@) == spec_translate_gauges(mv.gauges) + spec_translate_histograms(
                mv.histograms.take(hi as int),
            ),
            forall|k: int| 0 <= k < out@.len() ==> spec_renderable(#[trigger] out@[k]),
        decreases m.histograms@.len() - hi,
    {
        let h = &m.histograms[hi];
        let ghost hv = mv.histograms[hi as int];
        let ghost before = expo_view(out@);
        proof {
            assert(mv.histograms.take(hi as int + 1).drop_last() =~= mv.histograms.take(
                hi as int,
            ));
        }
        let n = h.buckets.len();
        if n > 0 {
            let rec = map_histogram(h);
            out.push(ExpoMetric::Histogram(rec));
            proof {
                assert(expo_view(out@) =~= before + seq![spec_map_histogram(hv)]);
            }
        }
        hi = hi + 1;
    }
    assert(mv.histograms.take(m.histograms@.len() as int) =~= mv.histograms);
    out
}

/// Builds the exposition record of one histogram with at least one
/// bucket: derived bound numerators over the common denominator
/// `n * MICRO_SCALE`, per-bucket counts, sum and count carried through.
fn map_histogram(h: &Histogram) -> (r: ExpoHistogram)
    requires
        0 < h.buckets@.len() <= MAX_BUCKETS,
    ensures
        ExpoMetricV::Histogram(r@) == spec_map_histogram(h@),
        spec_hist_renderable(r),
{
    let ghost hv = h@;
    let n = h.buckets.len();
    proof {
        assert(0 < (n as u128) * (MICRO_SCALE as u128) <= 1_000_000_000_000 * 1_000_000)
            by (nonlinear_arith)
            requires
                0 < n as u128 <= 1_000_000_000_000 && MICRO_SCALE == 1_000_000,
        ;
    }
    let den: u128 = (n as u128) * (MICRO_SCALE as u128);
    let labels = fold_labels(&h.labels);
    let low: i128 = h.low_micros as i128;
    let high: i128 = h.high_micros as i128;
    let nn: i128 = n as i128;
    let mut buckets: Vec<ExpoBucket> = Vec::new();
    let ghost target = Seq::new(
        hv.buckets.len(),
        |i: int|
            ExpoBucketV {
                bound_num: bound_num(hv.low_micros, hv.high_micros, hv.buckets.len() as int, i),
                count: hv.buckets[i],
            },
    );
    let mut i: usize = 0;
    while i < n
        invariant
            i <= n,
            n == h.buckets@.len(),
            0 < n <= MAX_BUCKETS,
            nn == n as i128,
            low == h.low_micros as i128,
            high == h.high_micros as i128,
            hv == h@,
            target == Seq::new(
                hv.buckets.len(),
                |i: int|
                    ExpoBucketV {
                        bound_num: bound_num(
                            hv.low_micros,
                            hv.high_micros,
                            hv.buckets.len() as int,
                            i,
                        ),
                        count: hv.buckets[i],
                    },
            ),
            buckets@.len() == i,
            forall|k: int| 0 <= k < i ==> #[trigger] buckets@[k]@ == target[k],
            forall|k: int| 0 <= k < i ==> #[trigger] buckets@[k].bound_num > i128::MIN,
        decreases n - i,
    {
        proof {
            assert(low * nn <= i64::MAX * MAX_BUCKETS && low * nn >= i64::MIN * MAX_BUCKETS)
                by (nonlinear_arith)
                requires
                    i64::MIN <= low <= i64::MAX && 0 < nn <= MAX_BUCKETS,
            ;
            assert((high - low) * ((i as i128) + 1) <= (i64::MAX - i64::MIN) * MAX_BUCKETS && (high
                - low) * ((i as i128) + 1) >= (i64::MIN - i64::MAX) * MAX_BUCKETS)
                by (nonlinear_arith)
                requires
                    i64::MIN <= low <= i64::MAX && i64::MIN <= high <= i64::MAX && 0 <= (i as i128)
                        < nn <= MAX_BUCKETS,
            ;
        }
        let num: i128 = low * nn + (high - low) * ((i as i128) + 1);
        buckets.push(ExpoBucket { bound_num: num, count: h.buckets[i] });
        proof {
            assert(target[i as int] == ExpoBucketV {
                bound_num: bound_num(hv.low_micros, hv.high_micros, hv.buckets.len() as int, i as int),
                count: hv.buckets[i as int],
            });
            assert(buckets@[i as int]@ == target[i as int]);
        }
        i = i + 1;
    }
    let r = ExpoHistogram {
        name: h.name.clone(),
        labels,
        buckets,
        den,
        sum_micros: h.sum_micros,
        count: h.count,
    };
    assert(r@.buckets =~= target);
    assert(r@.den == hv.buckets.len() * (MICRO_SCALE as nat));
    r
}

} // verus!
