//! The aggregate statistics of one group of actors.

use vstd::prelude::*;
use crate::decimal::Hundredths;
use crate::group_metrics_kind::GroupMetricsKind;

verus! {

/// The finished statistics of one group. Throughput in megabytes and
/// latencies in milliseconds are kept to two decimal places; message rates
/// are whole messages per second.
#[derive(Clone, Copy, Debug, PartialEq, Eq, Structural)]
pub struct BenchmarkGroupMetricsSummary {
    pub kind: GroupMetricsKind,
    pub total_throughput_megabytes_per_second: Hundredths,
    pub total_throughput_messages_per_second: u64,
    pub average_throughput_megabytes_per_second: Hundredths,
    pub average_throughput_messages_per_second: u64,
    pub average_p50_latency_ms: Hundredths,
    pub average_p90_latency_ms: Hundredths,
    pub average_p95_latency_ms: Hundredths,
    pub average_p99_latency_ms: Hundredths,
    pub average_p999_latency_ms: Hundredths,
    pub average_p9999_latency_ms: Hundredths,
    pub average_latency_ms: Hundredths,
    pub average_median_latency_ms: Hundredths,
    pub min_latency_ms: Hundredths,
    pub max_latency_ms: Hundredths,
    pub std_dev_latency_ms: Hundredths,
}

/// One sample of a series: a value at a time since the start of the run.
#[derive(Clone, Copy, Debug, PartialEq, Eq, Structural)]
pub struct TimePoint {
    /// Seconds since the start of the run.
    pub time_s: Hundredths,
    pub value: Hundredths,
}

/// Samples of the average throughput over the run, in ascending order of
/// time. The time of the last sample is the duration of the run.
#[derive(Clone, Debug, PartialEq, Eq)]
pub struct ThroughputTimeSeries {
    pub points: Vec<TimePoint>,
}

/// The statistics of one group together with its throughput over time.
#[derive(Clone, Debug, PartialEq, Eq)]
pub struct BenchmarkGroupMetrics {
    pub summary: BenchmarkGroupMetricsSummary,
    pub avg_throughput_mb_ts: ThroughputTimeSeries,
}

impl ThroughputTimeSeries {
    /// Whether the series has a sample, and with it a duration.
    pub open spec fn spec_has_points(&self) -> bool {
        self.points@.len() > 0
    }

    /// The duration of the run: the time of the last sample.
    pub open spec fn spec_total_time(&self) -> Hundredths
        recommends
            self.spec_has_points(),
    {
        self.points@.last().time_s
    }

    /// Whether the series has a sample.
    #[verifier::when_used_as_spec(spec_has_points)]
    pub fn has_points(&self) -> (b: bool)
        ensures
            b == self.spec_has_points(),
    {
        self.points.len() > 0
    }

    /// The duration of the run: the time of the last sample.
    #[verifier::when_used_as_spec(spec_total_time)]
    pub fn total_time(&self) -> (t: Hundredths)
        requires
            self.spec_has_points(),
        ensures
            t == self.spec_total_time(),
    {
        self.points[self.points.len() - 1].time_s
    }
}

} // verus!
