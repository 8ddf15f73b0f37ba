use nebula_prom_transformer::model::{Gauge, Histogram, Label, Metrics};
use nebula_prom_transformer::scrape::{
    http_response, render_metrics, scrape_step, ScrapeError, ScrapeEvent, ScrapeState,
};
use nebula_prom_transformer::hello;

fn label(name: &str, value: &str) -> Label {
    Label { name: String::from(name), value: String::from(value) }
}

fn empty_metrics() -> Metrics {
    Metrics { gauges: vec![], histograms: vec![] }
}

#[test]
fn empty_snapshot_encodes_to_empty_document() {
    let m = empty_metrics();
    let doc = render_metrics(&m).unwrap();
    assert_eq!(doc, "");
}

#[test]
fn single_gauge_without_labels() {
    let m = Metrics {
        gauges: vec![Gauge { name: String::from("g1"), value: 5, labels: vec![] }],
        histograms: vec![],
    };
    let doc = render_metrics(&m).unwrap();
    assert_eq!(doc, "# TYPE g1 gauge\ng1 5\n");
}

#[test]
fn gauge_has_exactly_one_sample_line() {
    let m = Metrics {
        gauges: vec![Gauge {
            name: String::from("requests"),
            value: 17,
            labels: vec![label("zone", "a"), label("host", "h1")],
        }],
        histograms: vec![],
    };
    let doc = render_metrics(&m).unwrap();
    let lines: Vec<&str> = doc.lines().collect();
    assert_eq!(lines.len(), 2);
    assert_eq!(lines[0], "# TYPE requests gauge");
    assert_eq!(lines[1], "requests{zone=\"a\",host=\"h1\"} 17");
}

#[test]
fn repeated_label_names_are_last_write_wins() {
    let m = Metrics {
        gauges: vec![Gauge {
            name: String::from("g"),
            value: 1,
            labels: vec![label("k", "first"), label("other", "x"), label("k", "second")],
        }],
        histograms: vec![],
    };
    let doc = render_metrics(&m).unwrap();
    assert_eq!(doc, "# TYPE g gauge\ng{k=\"second\",other=\"x\"} 1\n");
}

#[test]
fn negative_gauge_value() {
    let m = Metrics {
        gauges: vec![Gauge { name: String::from("g"), value: -42, labels: vec![] }],
        histograms: vec![],
    };
    let doc = render_metrics(&m).unwrap();
    assert_eq!(doc, "# TYPE g gauge\ng -42\n");
}

#[test]
fn label_values_are_escaped() {
    let m = Metrics {
        gauges: vec![Gauge {
            name: String::from("g"),
            value: 0,
            labels: vec![label("k", "a\\b\"c\nd")],
        }],
        histograms: vec![],
    };
    let doc = render_metrics(&m).unwrap();
    assert_eq!(doc, "# TYPE g gauge\ng{k=\"a\\\\b\\\"c\\nd\"} 0\n");
}

#[test]
fn histogram_bounds_and_cumulative_counts() {
    let m = Metrics {
        gauges: vec![],
        histograms: vec![Histogram {
            name: String::from("h1"),
            low_micros: 0,
            high_micros: 10_000_000,
            sum_micros: 20_000_000,
            count: 4,
            buckets: vec![1, 1, 1, 1],
            labels: vec![],
        }],
    };
    let doc = render_metrics(&m).unwrap();
    let expected = "# TYPE h1 histogram\nh1_bucket{le=\"2.5\"} 1\nh1_bucket{le=\"5\"} 2\nh1_bucket{le=\"7.5\"} 3\nh1_bucket{le=\"10\"} 4\nh1_bucket{le=\"+Inf\"} 4\nh1_sum 20\nh1_count 4\n";
    assert_eq!(doc, expected);
}

#[test]
fn histogram_cumulative_counts_are_nondecreasing() {
    let m = Metrics {
        gauges: vec![],
        histograms: vec![Histogram {
            name: String::from("h"),
            low_micros: 0,
            high_micros: 8_000_000,
            sum_micros: 9_500_000,
            count: 10,
            buckets: vec![3, 0, 5, 2],
            labels: vec![],
        }],
    };
    let doc = render_metrics(&m).unwrap();
    let mut cums: Vec<u64> = vec![];
    for line in doc.lines() {
        if line.starts_with("h_bucket{") {
            let v: u64 = line.rsplit(' ').next().unwrap().parse().unwrap();
            cums.push(v);
        }
    }
    assert_eq!(cums, vec![3, 3, 8, 10, 10]);
    for w in cums.windows(2) {
        assert!(w[0] <= w[1]);
    }
}

#[test]
fn histogram_with_labels_gets_le_last() {
    let m = Metrics {
        gauges: vec![],
        histograms: vec![Histogram {
            name: String::from("h"),
            low_micros: 0,
            high_micros: 2_000_000,
            sum_micros: 2_500_000,
            count: 2,
            buckets: vec![1, 1],
            labels: vec![label("zone", "a")],
        }],
    };
    let doc = render_metrics(&m).unwrap();
    let expected = "# TYPE h histogram\nh_bucket{zone=\"a\",le=\"1\"} 1\nh_bucket{zone=\"a\",le=\"2\"} 2\nh_bucket{zone=\"a\",le=\"+Inf\"} 2\nh_sum{zone=\"a\"} 2.5\nh_count{zone=\"a\"} 2\n";
    assert_eq!(doc, expected);
}

#[test]
fn zero_bucket_histogram_is_skipped_silently() {
    let m = Metrics {
        gauges: vec![Gauge { name: String::from("g"), value: 3, labels: vec![] }],
        histograms: vec![Histogram {
            name: String::from("empty_h"),
            low_micros: 0,
            high_micros: 1_000_000,
            sum_micros: 0,
            count: 0,
            buckets: vec![],
            labels: vec![],
        }],
    };
    let doc = render_metrics(&m).unwrap();
    assert_eq!(doc, "# TYPE g gauge\ng 3\n");
    assert!(!doc.contains("empty_h"));
}

#[test]
fn nonterminating_bound_is_truncated() {
    let m = Metrics {
        gauges: vec![],
        histograms: vec![Histogram {
            name: String::from("h"),
            low_micros: 0,
            high_micros: 10_000_000,
            sum_micros: 0,
            count: 3,
            buckets: vec![1, 1, 1],
            labels: vec![],
        }],
    };
    let doc = render_metrics(&m).unwrap();
    assert!(doc.contains("h_bucket{le=\"3.333333333333333333\"} 1\n"));
    assert!(doc.contains("h_bucket{le=\"6.666666666666666666\"} 2\n"));
    assert!(doc.contains("h_bucket{le=\"10\"} 3\n"));
}

#[test]
fn invalid_metric_name_aborts_encoding() {
    let m = Metrics {
        gauges: vec![Gauge { name: String::from("bad name"), value: 1, labels: vec![] }],
        histograms: vec![],
    };
    assert_eq!(render_metrics(&m).unwrap_err(), ScrapeError::EncodingError);
}

#[test]
fn invalid_label_name_aborts_encoding() {
    let m = Metrics {
        gauges: vec![Gauge {
            name: String::from("g"),
            value: 1,
            labels: vec![label("0bad", "v")],
        }],
        histograms: vec![],
    };
    assert_eq!(render_metrics(&m).unwrap_err(), ScrapeError::EncodingError);
}

#[test]
fn scrape_request_starts_fetch() {
    let next = scrape_step(ScrapeState::Idle, ScrapeEvent::Request);
    assert!(matches!(next, ScrapeState::Fetching));
}

#[test]
fn fetch_failure_is_upstream_unreachable_and_opaque() {
    let next = scrape_step(ScrapeState::Fetching, ScrapeEvent::FetchFailed);
    assert!(matches!(next, ScrapeState::Failed(ScrapeError::UpstreamUnreachable)));
    let (status, body) = http_response(&next);
    assert_eq!(status, 500);
    assert_eq!(body, "Internal Error");
}

#[test]
fn malformed_body_is_opaque_500() {
    let next = scrape_step(ScrapeState::Fetching, ScrapeEvent::BodyMalformed);
    assert!(matches!(next, ScrapeState::Failed(ScrapeError::MalformedPayload)));
    let (status, body) = http_response(&next);
    assert_eq!(status, 500);
    assert_eq!(body, "Internal Error");
}

#[test]
fn decoded_body_succeeds_with_document() {
    let m = Metrics {
        gauges: vec![Gauge { name: String::from("g1"), value: 5, labels: vec![] }],
        histograms: vec![],
    };
    let next = scrape_step(ScrapeState::Fetching, ScrapeEvent::BodyDecoded(m));
    match next {
        ScrapeState::Succeeded(text) => assert_eq!(text, "# TYPE g1 gauge\ng1 5\n"),
        _ => panic!("expected success"),
    }
}

#[test]
fn success_response_carries_document() {
    let state = ScrapeState::Succeeded(String::from("# TYPE g gauge\ng 1\n"));
    let (status, body) = http_response(&state);
    assert_eq!(status, 200);
    assert_eq!(body, "# TYPE g gauge\ng 1\n");
}

#[test]
fn hello_banner() {
    assert_eq!(
        hello(),
        "The Prometheus metrics exposer for Nebula Graph! Get the metrics from /metrics.\n"
    );
}

#[test]
fn gauges_come_before_histograms_in_document_order() {
    let m = Metrics {
        gauges: vec![Gauge { name: String::from("zz"), value: 1, labels: vec![] }],
        histograms: vec![Histogram {
            name: String::from("aa"),
            low_micros: 0,
            high_micros: 1_000_000,
            sum_micros: 1_000_000,
            count: 1,
            buckets: vec![1],
            labels: vec![],
        }],
    };
    let doc = render_metrics(&m).unwrap();
    let gauge_pos = doc.find("# TYPE zz gauge").unwrap();
    let hist_pos = doc.find("# TYPE aa histogram").unwrap();
    assert!(gauge_pos < hist_pos);
}

#[test]
fn histogram_labels_are_last_write_wins_too() {
    let m = Metrics {
        gauges: vec![],
        histograms: vec![Histogram {
            name: String::from("h"),
            low_micros: 0,
            high_micros: 1_000_000,
            sum_micros: 0,
            count: 1,
            buckets: vec![1],
            labels: vec![label("k", "old"), label("k", "new")],
        }],
    };
    let doc = render_metrics(&m).unwrap();
    assert!(doc.contains("h_bucket{k=\"new\",le=\"1\"} 1\n"));
    assert!(!doc.contains("old"));
}

#[test]
fn smallest_gauge_value_renders_exactly() {
    let m = Metrics {
        gauges: vec![Gauge { name: String::from("g"), value: i64::MIN, labels: vec![] }],
        histograms: vec![],
    };
    let doc = render_metrics(&m).unwrap();
    assert_eq!(doc, "# TYPE g gauge\ng -9223372036854775808\n");
}

#[test]
fn negative_value_range_bounds() {
    let m = Metrics {
        gauges: vec![],
        histograms: vec![Histogram {
            name: String::from("h"),
            low_micros: -4_000_000,
            high_micros: 0,
            sum_micros: -3_500_000,
            count: 2,
            buckets: vec![1, 1],
            labels: vec![],
        }],
    };
    let doc = render_metrics(&m).unwrap();
    assert!(doc.contains("h_bucket{le=\"-2\"} 1\n"));
    assert!(doc.contains("h_bucket{le=\"0\"} 2\n"));
    assert!(doc.contains("h_sum -3.5\n"));
}
