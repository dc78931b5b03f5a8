use bench_report::parameter_line::render_parameter_line;
use bench_report::{
    ActorKind, BenchmarkKind, BenchmarkParams, BenchmarkReport, IndividualMetricsSummary,
};
use colored::{Color, Colorize};

fn run_params(benchmark_kind: BenchmarkKind) -> BenchmarkParams {
    BenchmarkParams {
        benchmark_kind,
        producers: 1,
        consumers: 1,
        streams: 1,
        partitions: 1,
        consumer_groups: 0,
        messages_per_batch: 10,
        message_batches: 5,
        message_size: 10,
    }
}

fn actor(actor_kind: ActorKind, messages: u64, bytes: u64) -> IndividualMetricsSummary {
    IndividualMetricsSummary {
        actor_kind,
        total_messages: messages,
        total_user_data_bytes: bytes,
        total_message_batches: 0,
    }
}

fn run_report(params: BenchmarkParams, records: Vec<IndividualMetricsSummary>) -> BenchmarkReport {
    BenchmarkReport { params, individual_metrics: records, group_metrics: Vec::new() }
}

#[test]
fn parameter_line_in_full() {
    let r = run_report(
        run_params(BenchmarkKind::PinnedProducerAndConsumer),
        vec![actor(ActorKind::Producer, 100, 1000), actor(ActorKind::Consumer, 100, 1000)],
    );
    assert_eq!(
        r.parameter_line_string(),
        "Benchmark: Pinned Producer And Consumer, 1 producers, 1 consumers, 1 streams, \
         1 topic per stream, 1 partitions per topic, 200 messages, 10 messages per batch, \
         5 message batches, 10 bytes per message, 2kB of data processed"
    );
}

#[test]
fn parameter_line_with_every_clause() {
    let params = BenchmarkParams {
        benchmark_kind: BenchmarkKind::BalancedProducerAndConsumerGroup,
        producers: 4,
        consumers: 8,
        streams: 2,
        partitions: 16,
        consumer_groups: 3,
        messages_per_batch: 1000,
        message_batches: 500,
        message_size: 1024,
    };
    assert_eq!(
        render_parameter_line(&params, 4_000_000, "4.1GB"),
        "Benchmark: Balanced Producer And Consumer Group, 4 producers, 8 consumers, 2 streams, \
         1 topic per stream, 16 partitions per topic, 3 consumer groups, 4000000 messages, \
         1000 messages per batch, 500 message batches, 1024 bytes per message, \
         4.1GB of data processed"
    );
}

#[test]
fn parameter_line_without_optional_clauses() {
    let params = BenchmarkParams {
        benchmark_kind: BenchmarkKind::PinnedProducer,
        producers: 0,
        consumers: 0,
        streams: 0,
        partitions: 0,
        consumer_groups: 0,
        messages_per_batch: 0,
        message_batches: 0,
        message_size: 0,
    };
    assert_eq!(
        render_parameter_line(&params, 0, "0B"),
        "Benchmark: Pinned Producer, 0 streams, 1 topic per stream, 0 messages, \
         0 messages per batch, 0 message batches, 0 bytes per message, 0B of data processed"
    );
}

#[test]
fn no_partitions_clause_without_partitions() {
    let mut params = run_params(BenchmarkKind::BalancedProducer);
    params.partitions = 0;
    let r = run_report(params, vec![actor(ActorKind::Producer, 10, 100)]);
    let line = r.parameter_line_string();
    assert!(!line.contains("partitions per topic"));
    assert!(line.contains("1 streams, 1 topic per stream, 10 messages, "));

    params.partitions = 2;
    let with = run_report(params, vec![actor(ActorKind::Producer, 10, 100)]);
    assert!(with.parameter_line_string().contains("1 topic per stream, 2 partitions per topic, "));
}

#[test]
fn no_clause_for_a_count_of_zero() {
    let mut params = run_params(BenchmarkKind::PinnedConsumer);
    params.producers = 0;
    params.consumers = 0;
    params.consumer_groups = 0;
    let line = render_parameter_line(&params, 1, "1B");
    assert!(!line.contains("producers"));
    assert!(!line.contains("consumers"));
    assert!(!line.contains("consumer groups"));
    assert!(line.starts_with("Benchmark: Pinned Consumer, 1 streams, "));
    assert!(!line.contains(", , "));
}

#[test]
fn end_to_end_producers_are_producing_consumers() {
    for kind in [
        BenchmarkKind::EndToEndProducingConsumer,
        BenchmarkKind::EndToEndProducingConsumerGroup,
    ] {
        let mut params = run_params(kind);
        params.producers = 3;
        let r = run_report(params, vec![actor(ActorKind::ProducingConsumer, 10, 100)]);
        let line = r.parameter_line_string();
        assert!(line.contains("3 producing consumers,"));
        assert!(!line.contains("3 producers,"));
    }
}

#[test]
fn other_kinds_have_producers() {
    for kind in [
        BenchmarkKind::PinnedProducer,
        BenchmarkKind::PinnedConsumer,
        BenchmarkKind::PinnedProducerAndConsumer,
        BenchmarkKind::BalancedProducer,
        BenchmarkKind::BalancedConsumerGroup,
        BenchmarkKind::BalancedProducerAndConsumerGroup,
    ] {
        let mut params = run_params(kind);
        params.producers = 3;
        let line = render_parameter_line(&params, 0, "0B");
        assert!(line.contains(", 3 producers, "));
        assert!(!line.contains("producing consumers"));
    }
}

#[test]
fn kinds_have_their_names() {
    assert_eq!(BenchmarkKind::PinnedProducer.label(), "Pinned Producer");
    assert_eq!(BenchmarkKind::PinnedConsumer.label(), "Pinned Consumer");
    assert_eq!(BenchmarkKind::PinnedProducerAndConsumer.label(), "Pinned Producer And Consumer");
    assert_eq!(BenchmarkKind::BalancedProducer.label(), "Balanced Producer");
    assert_eq!(BenchmarkKind::BalancedConsumerGroup.label(), "Balanced Consumer Group");
    assert_eq!(
        BenchmarkKind::BalancedProducerAndConsumerGroup.label(),
        "Balanced Producer And Consumer Group"
    );
    assert_eq!(BenchmarkKind::EndToEndProducingConsumer.label(), "End To End Producing Consumer");
    assert_eq!(
        BenchmarkKind::EndToEndProducingConsumerGroup.label(),
        "End To End Producing Consumer Group"
    );
    assert!(BenchmarkKind::EndToEndProducingConsumer.is_producing_consumer());
    assert!(BenchmarkKind::EndToEndProducingConsumerGroup.is_producing_consumer());
    assert!(!BenchmarkKind::PinnedProducerAndConsumer.is_producing_consumer());
}

#[test]
fn total_size_is_in_short_form() {
    let line_for = |bytes: u64| {
        run_report(
            run_params(BenchmarkKind::PinnedProducer),
            vec![actor(ActorKind::Producer, 1, bytes)],
        )
        .parameter_line_string()
    };
    assert!(line_for(0).ends_with("10 bytes per message, 0B of data processed"));
    assert!(line_for(999).ends_with(", 999B of data processed"));
    assert!(line_for(1000).ends_with(", 1kB of data processed"));
    assert!(line_for(123_456).ends_with(", 123.5kB of data processed"));
    assert!(line_for(43_214_321).ends_with(", 43.2MB of data processed"));
    assert!(line_for(23_433_454_432).ends_with(", 23.43GB of data processed"));
    assert!(line_for(u64::MAX).ends_with(", 18.45EB of data processed"));
}

#[test]
fn parameter_line_is_blue() {
    let r = run_report(
        run_params(BenchmarkKind::PinnedProducerAndConsumer),
        vec![actor(ActorKind::Producer, 100, 1000), actor(ActorKind::Consumer, 100, 1000)],
    );
    let line = r.parameter_line();
    assert_eq!(line.fgcolor, Some(Color::Blue));
    assert_eq!(line.bgcolor, None);
    assert_eq!(line.input, r.parameter_line_string());
    assert_eq!(line, r.parameter_line_string().as_str().blue());
    assert_eq!(r.parameter_line(), r.parameter_line());
}
