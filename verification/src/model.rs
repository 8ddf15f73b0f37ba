//! Raw metrics model: the shape of one upstream snapshot.
//!
//! Scalar quantities that the upstream reports with a fractional part
//! (the observed value range and the sum of observations) are held in
//! fixed point as integer counts of millionths ("micros"), so that the
//! translation arithmetic is exact.

use vstd::prelude::*;

verus! {

/// Fixed-point scale: one unit is `1 / MICRO_SCALE`.
pub const MICRO_SCALE: u64 = 1_000_000;

/// A name/value pair attached to a metric instance.
pub struct Label {
    pub name: String,
    pub value: String,
}

/// Mathematical image of a `Label`.
pub ghost struct LabelV {
    pub name: Seq<char>,
    pub value: Seq<char>,
}

impl View for Label {
    type V = LabelV;

    open spec fn view(&self) -> LabelV {
        LabelV { name: self.name@, value: self.value@ }
    }
}

/// The images of a sequence of labels, in order.
pub open spec fn labels_view(ls: Seq<Label>) -> Seq<LabelV> {
    Seq::new(ls.len(), |i: int| ls[i]@)
}

/// One point-in-time scalar measurement.
pub struct Gauge {
    pub name: String,
    pub value: i64,
    pub labels: Vec<Label>,
}

/// Mathematical image of a `Gauge`.
pub ghost struct GaugeV {
    pub name: Seq<char>,
    pub value: int,
    pub labels: Seq<LabelV>,
}

impl View for Gauge {
    type V = GaugeV;

    open spec fn view(&self) -> GaugeV {
        GaugeV { name: self.name@, value: self.value as int, labels: labels_view(self.labels@) }
    }
}

/// One raw histogram: an observed value range in micros, the sum of
/// observations in micros, the observation count, and per-bucket
/// observation counts.  Bucket boundaries are not transmitted; the
/// translator derives them from the range and the bucket count.
pub struct Histogram {
    pub name: String,
    pub low_micros: i64,
    pub high_micros: i64,
    pub sum_micros: i64,
    pub count: u64,
    pub buckets: Vec<u64>,
    pub labels: Vec<Label>,
}

/// Mathematical image of a `Histogram`.
pub ghost struct HistogramV {
    pub name: Seq<char>,
    pub low_micros: int,
    pub high_micros: int,
    pub sum_micros: int,
    pub count: nat,
    pub buckets: Seq<nat>,
    pub labels: Seq<LabelV>,
}

impl View for Histogram {
    type V = HistogramV;

    open spec fn view(&self) -> HistogramV {
        HistogramV {
            name: self.name@,
            low_micros: self.low_micros as int,
            high_micros: self.high_micros as int,
            sum_micros: self.sum_micros as int,
            count: self.count as nat,
            buckets: Seq::new(self.buckets@.len(), |i: int| self.buckets@[i] as nat),
            labels: labels_view(self.labels@),
        }
    }
}

/// The full decoded body of one scrape response.
pub struct Metrics {
    pub gauges: Vec<Gauge>,
    pub histograms: Vec<Histogram>,
}

/// Mathematical image of a `Metrics` value.
pub ghost struct MetricsV {
    pub gauges: Seq<GaugeV>,
    pub histograms: Seq<HistogramV>,
}

impl View for Metrics {
    type V = MetricsV;

    open spec fn view(&self) -> MetricsV {
        MetricsV {
            gauges: Seq::new(self.gauges@.len(), |i: int| self.gauges@[i]@),
            histograms: Seq::new(self.histograms@.len(), |i: int| self.histograms@[i]@),
        }
    }
}

impl Metrics {
    /// Read-only access to the gauge records.
    pub fn gauges(&self) -> (r: &Vec<Gauge>)
        ensures
            r == &self.gauges,
    {
        &self.gauges
    }

    /// Read-only access to the histogram records.
    pub fn histograms(&self) -> (r: &Vec<Histogram>)
        ensures
            r == &self.histograms,
    {
        &self.histograms
    }
}

} // verus!
