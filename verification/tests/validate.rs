use bench_report::validate::checked_total;
use bench_report::{
    ActorKind, BenchmarkGroupMetrics, BenchmarkGroupMetricsSummary, BenchmarkKind,
    BenchmarkParams, BenchmarkReport, GroupMetricsKind, Hundredths, IndividualMetricsSummary,
    Quantity, ReportError, Scope, ThroughputTimeSeries, TimePoint,
};

fn some_params() -> BenchmarkParams {
    BenchmarkParams {
        benchmark_kind: BenchmarkKind::PinnedProducerAndConsumer,
        producers: 2,
        consumers: 2,
        streams: 1,
        partitions: 1,
        consumer_groups: 0,
        messages_per_batch: 10,
        message_batches: 5,
        message_size: 10,
    }
}

fn some_group(kind: GroupMetricsKind, times: &[u64]) -> BenchmarkGroupMetrics {
    let h = Hundredths(100);
    BenchmarkGroupMetrics {
        summary: BenchmarkGroupMetricsSummary {
            kind,
            total_throughput_megabytes_per_second: h,
            total_throughput_messages_per_second: 1,
            average_throughput_megabytes_per_second: h,
            average_throughput_messages_per_second: 1,
            average_p50_latency_ms: h,
            average_p90_latency_ms: h,
            average_p95_latency_ms: h,
            average_p99_latency_ms: h,
            average_p999_latency_ms: h,
            average_p9999_latency_ms: h,
            average_latency_ms: h,
            average_median_latency_ms: h,
            min_latency_ms: h,
            max_latency_ms: h,
            std_dev_latency_ms: h,
        },
        avg_throughput_mb_ts: ThroughputTimeSeries {
            points: times.iter().map(|t| TimePoint { time_s: Hundredths(*t), value: h }).collect(),
        },
    }
}

fn some_actor(actor_kind: ActorKind, messages: u64, bytes: u64, batches: u64) -> IndividualMetricsSummary {
    IndividualMetricsSummary {
        actor_kind,
        total_messages: messages,
        total_user_data_bytes: bytes,
        total_message_batches: batches,
    }
}

#[test]
fn a_complete_report_is_valid() {
    let r = BenchmarkReport {
        params: some_params(),
        individual_metrics: vec![
            some_actor(ActorKind::Producer, u64::MAX, 1, 1),
            some_actor(ActorKind::Consumer, 0, u64::MAX - 1, 1),
        ],
        group_metrics: vec![
            some_group(GroupMetricsKind::Producers, &[0, 100]),
            some_group(GroupMetricsKind::Consumers, &[100]),
        ],
    };
    assert_eq!(r.validate(), Ok(()));
}

#[test]
fn an_empty_report_is_valid() {
    let r = BenchmarkReport {
        params: some_params(),
        individual_metrics: Vec::new(),
        group_metrics: Vec::new(),
    };
    assert_eq!(r.validate(), Ok(()));
}

#[test]
fn the_first_group_without_points_is_reported() {
    let r = BenchmarkReport {
        params: some_params(),
        individual_metrics: vec![some_actor(ActorKind::Producer, u64::MAX, 1, 1); 2],
        group_metrics: vec![
            some_group(GroupMetricsKind::Producers, &[0, 100]),
            some_group(GroupMetricsKind::Consumers, &[]),
            some_group(GroupMetricsKind::ProducersAndConsumers, &[]),
        ],
    };
    assert_eq!(r.validate(), Err(ReportError::EmptyTimeSeries { group: 1 }));
}

#[test]
fn a_total_beyond_the_word_is_reported() {
    let mut r = BenchmarkReport {
        params: some_params(),
        individual_metrics: vec![
            some_actor(ActorKind::Producer, 1, 1, u64::MAX),
            some_actor(ActorKind::Consumer, 1, 1, 1),
        ],
        group_metrics: vec![some_group(GroupMetricsKind::Producers, &[5])],
    };
    assert_eq!(r.validate(), Err(ReportError::TotalOutOfRange { quantity: Quantity::Batches }));
    r.individual_metrics[0].total_user_data_bytes = u64::MAX;
    assert_eq!(r.validate(), Err(ReportError::TotalOutOfRange { quantity: Quantity::Bytes }));
    r.individual_metrics[1].total_messages = u64::MAX;
    assert_eq!(r.validate(), Err(ReportError::TotalOutOfRange { quantity: Quantity::Messages }));
}

#[test]
fn checked_total_sums_what_is_in_scope() {
    let records = vec![
        some_actor(ActorKind::Producer, 1, 10, 100),
        some_actor(ActorKind::Consumer, 2, 20, 200),
        some_actor(ActorKind::ProducingConsumer, 4, 40, 400),
    ];
    assert_eq!(checked_total(&records, Quantity::Messages, Scope::All), Some(7));
    assert_eq!(checked_total(&records, Quantity::Messages, Scope::Sent), Some(5));
    assert_eq!(checked_total(&records, Quantity::Messages, Scope::Received), Some(6));
    assert_eq!(checked_total(&records, Quantity::Bytes, Scope::All), Some(70));
    assert_eq!(checked_total(&records, Quantity::Bytes, Scope::Sent), Some(50));
    assert_eq!(checked_total(&records, Quantity::Bytes, Scope::Received), Some(60));
    assert_eq!(checked_total(&records, Quantity::Batches, Scope::All), Some(700));
    assert_eq!(checked_total(&Vec::new(), Quantity::Batches, Scope::All), Some(0));
}

#[test]
fn checked_total_is_none_beyond_the_word() {
    let records = vec![
        some_actor(ActorKind::Producer, u64::MAX, 0, 0),
        some_actor(ActorKind::Consumer, 1, 0, 0),
    ];
    assert_eq!(checked_total(&records, Quantity::Messages, Scope::All), None);
    assert_eq!(checked_total(&records, Quantity::Messages, Scope::Sent), Some(u64::MAX));
    assert_eq!(checked_total(&records, Quantity::Messages, Scope::Received), Some(1));
    assert_eq!(records[0].amount(Quantity::Messages), u64::MAX);
    assert!(records[0].in_scope(Scope::Sent));
    assert!(!records[0].in_scope(Scope::Received));
    assert!(records[1].in_scope(Scope::All));
}
