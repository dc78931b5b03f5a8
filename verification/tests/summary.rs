use bench_report::{
    ActorKind, BenchmarkGroupMetrics, BenchmarkGroupMetricsSummary, BenchmarkKind,
    BenchmarkParams, BenchmarkReport, GroupMetricsKind, Hundredths, IndividualMetricsSummary,
    ThroughputTimeSeries, TimePoint,
};
use colored::Color;

fn plain_group(kind: GroupMetricsKind, seconds: u64) -> BenchmarkGroupMetrics {
    let h = Hundredths(seconds);
    BenchmarkGroupMetrics {
        summary: BenchmarkGroupMetricsSummary {
            kind,
            total_throughput_megabytes_per_second: h,
            total_throughput_messages_per_second: seconds,
            average_throughput_megabytes_per_second: h,
            average_throughput_messages_per_second: seconds,
            average_p50_latency_ms: h,
            average_p90_latency_ms: h,
            average_p95_latency_ms: h,
            average_p99_latency_ms: h,
            average_p999_latency_ms: h,
            average_p9999_latency_ms: h,
            average_latency_ms: h,
            average_median_latency_ms: h,
            min_latency_ms: h,
            max_latency_ms: h,
            std_dev_latency_ms: h,
        },
        avg_throughput_mb_ts: ThroughputTimeSeries {
            points: vec![TimePoint { time_s: h, value: h }],
        },
    }
}

fn mixed_report(groups: Vec<BenchmarkGroupMetrics>) -> BenchmarkReport {
    BenchmarkReport {
        params: BenchmarkParams {
            benchmark_kind: BenchmarkKind::PinnedProducerAndConsumer,
            producers: 1,
            consumers: 1,
            streams: 1,
            partitions: 1,
            consumer_groups: 0,
            messages_per_batch: 10,
            message_batches: 5,
            message_size: 10,
        },
        individual_metrics: vec![
            IndividualMetricsSummary {
                actor_kind: ActorKind::Producer,
                total_messages: 100,
                total_user_data_bytes: 1000,
                total_message_batches: 0,
            },
            IndividualMetricsSummary {
                actor_kind: ActorKind::Consumer,
                total_messages: 100,
                total_user_data_bytes: 1000,
                total_message_batches: 0,
            },
        ],
        group_metrics: groups,
    }
}

#[test]
fn summary_has_the_parameter_line_first_and_the_groups_in_order() {
    let r = mixed_report(vec![
        plain_group(GroupMetricsKind::Producers, 100),
        plain_group(GroupMetricsKind::Consumers, 200),
        plain_group(GroupMetricsKind::ProducersAndConsumers, 300),
    ]);
    let lines = r.summary_lines();
    assert_eq!(lines.len(), 4);
    assert_eq!(lines[0], r.parameter_line());
    assert_eq!(lines[0].fgcolor, Some(Color::Blue));
    assert!(lines[0].input.starts_with("Benchmark: Pinned Producer And Consumer, 1 producers, "));
    for i in 0..3 {
        assert_eq!(lines[i + 1], r.group_metrics[i].formatted_string());
    }
    assert!(lines[1].input.starts_with("Producers Results: "));
    assert!(lines[1].input.ends_with(", total time: 1.00 s"));
    assert_eq!(lines[1].fgcolor, Some(Color::Green));
    assert!(lines[2].input.starts_with("Consumers Results: "));
    assert!(lines[2].input.ends_with(", total time: 2.00 s"));
    assert_eq!(lines[2].fgcolor, Some(Color::Green));
    assert!(lines[3].input.starts_with("Aggregate Results: "));
    assert!(lines[3].input.ends_with(", total time: 3.00 s"));
    assert_eq!(lines[3].fgcolor, Some(Color::Red));
}

#[test]
fn summary_without_groups_is_the_parameter_line() {
    let r = mixed_report(Vec::new());
    let lines = r.summary_lines();
    assert_eq!(lines.len(), 1);
    assert_eq!(
        lines[0].input,
        "Benchmark: Pinned Producer And Consumer, 1 producers, 1 consumers, 1 streams, \
         1 topic per stream, 1 partitions per topic, 200 messages, 10 messages per batch, \
         5 message batches, 10 bytes per message, 2kB of data processed"
    );
}

#[test]
fn summary_is_the_same_when_asked_again() {
    let r = mixed_report(vec![plain_group(GroupMetricsKind::ProducingConsumers, 1234)]);
    assert_eq!(r.summary_lines(), r.summary_lines());
}
