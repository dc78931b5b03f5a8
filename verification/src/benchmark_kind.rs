//! The kinds of benchmark that a run can be configured as.

use vstd::prelude::*;
use vstd::string::*;

verus! {

/// How the actors of a run are arranged.
#[derive(Clone, Copy, Debug, PartialEq, Eq, Structural)]
pub enum BenchmarkKind {
    /// Producers only, each pinned to a stream.
    PinnedProducer,
    /// Consumers only, each pinned to a stream.
    PinnedConsumer,
    /// Producers and consumers, each pinned to a stream.
    PinnedProducerAndConsumer,
    /// Producers only, balanced over the partitions.
    BalancedProducer,
    /// Consumers only, balanced by consumer groups.
    BalancedConsumerGroup,
    /// Producers balanced over the partitions and consumers balanced by consumer groups.
    BalancedProducerAndConsumerGroup,
    /// Actors that each send and receive, end to end.
    EndToEndProducingConsumer,
    /// Actors that each send and receive, end to end, with consumer groups.
    EndToEndProducingConsumerGroup,
}

impl BenchmarkKind {
    /// The name of the kind as a summary shows it.
    pub open spec fn label_text(self) -> Seq<char> {
        match self {
            BenchmarkKind::PinnedProducer => "Pinned Producer"@,
            BenchmarkKind::PinnedConsumer => "Pinned Consumer"@,
            BenchmarkKind::PinnedProducerAndConsumer => "Pinned Producer And Consumer"@,
            BenchmarkKind::BalancedProducer => "Balanced Producer"@,
            BenchmarkKind::BalancedConsumerGroup => "Balanced Consumer Group"@,
            BenchmarkKind::BalancedProducerAndConsumerGroup => "Balanced Producer And Consumer Group"@,
            BenchmarkKind::EndToEndProducingConsumer => "End To End Producing Consumer"@,
            BenchmarkKind::EndToEndProducingConsumerGroup => "End To End Producing Consumer Group"@,
        }
    }

    /// Whether the actors of this kind both send and receive: the two
    /// end-to-end kinds.
    pub open spec fn spec_is_producing_consumer(&self) -> bool {
        *self == BenchmarkKind::EndToEndProducingConsumer || *self
            == BenchmarkKind::EndToEndProducingConsumerGroup
    }

    /// The name of the kind as a summary shows it.
    pub fn label(&self) -> (s: &'static str)
        ensures
            s@ == self.label_text(),
    {
        match self {
            BenchmarkKind::PinnedProducer => "Pinned Producer",
            BenchmarkKind::PinnedConsumer => "Pinned Consumer",
            BenchmarkKind::PinnedProducerAndConsumer => "Pinned Producer And Consumer",
            BenchmarkKind::BalancedProducer => "Balanced Producer",
            BenchmarkKind::BalancedConsumerGroup => "Balanced Consumer Group",
            BenchmarkKind::BalancedProducerAndConsumerGroup => "Balanced Producer And Consumer Group",
            BenchmarkKind::EndToEndProducingConsumer => "End To End Producing Consumer",
            BenchmarkKind::EndToEndProducingConsumerGroup => "End To End Producing Consumer Group",
        }
    }

    /// Whether the actors of this kind both send and receive.
    #[verifier::when_used_as_spec(spec_is_producing_consumer)]
    pub fn is_producing_consumer(&self) -> (b: bool)
        ensures
            b == self.spec_is_producing_consumer(),
    {
        match self {
            BenchmarkKind::EndToEndProducingConsumer => true,
            BenchmarkKind::EndToEndProducingConsumerGroup => true,
            _ => false,
        }
    }
}

} // verus!
