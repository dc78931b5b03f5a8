//! The kinds of group that a report aggregates actors into.

use vstd::prelude::*;
use vstd::string::*;
use crate::emphasis::Emphasis;

verus! {

/// Which actors a group aggregate covers.
#[derive(Clone, Copy, Debug, PartialEq, Eq, Structural)]
pub enum GroupMetricsKind {
    /// All producers of the run.
    Producers,
    /// All consumers of the run.
    Consumers,
    /// Producers and consumers of a mixed run, as one aggregate.
    ProducersAndConsumers,
    /// Actors that each both send and receive.
    ProducingConsumers,
}

impl GroupMetricsKind {
    /// The words that open the summary line of a group of this kind.
    pub open spec fn label_text(self) -> Seq<char> {
        match self {
            GroupMetricsKind::Producers => "Producers Results"@,
            GroupMetricsKind::Consumers => "Consumers Results"@,
            GroupMetricsKind::ProducersAndConsumers => "Aggregate Results"@,
            GroupMetricsKind::ProducingConsumers => "Producing Consumer Results"@,
        }
    }

    /// The singular noun for one member of a group of this kind.
    pub open spec fn actor_text(self) -> Seq<char> {
        match self {
            GroupMetricsKind::Producers => "producer"@,
            GroupMetricsKind::Consumers => "consumer"@,
            GroupMetricsKind::ProducersAndConsumers => "actor"@,
            GroupMetricsKind::ProducingConsumers => "producing consumer"@,
        }
    }

    /// The emphasis of the summary line of a group of this kind: neutral for a
    /// group of one role, attention for a group that combines roles.
    pub open spec fn spec_emphasis(&self) -> Emphasis {
        match self {
            GroupMetricsKind::Producers => Emphasis::Neutral,
            GroupMetricsKind::Consumers => Emphasis::Neutral,
            GroupMetricsKind::ProducersAndConsumers => Emphasis::Attention,
            GroupMetricsKind::ProducingConsumers => Emphasis::Attention,
        }
    }

    /// The words that open the summary line of a group of this kind.
    pub fn label(&self) -> (s: &'static str)
        ensures
            s@ == self.label_text(),
    {
        match self {
            GroupMetricsKind::Producers => "Producers Results",
            GroupMetricsKind::Consumers => "Consumers Results",
            GroupMetricsKind::ProducersAndConsumers => "Aggregate Results",
            GroupMetricsKind::ProducingConsumers => "Producing Consumer Results",
        }
    }

    /// The singular noun for one member of a group of this kind.
    pub fn actor(&self) -> (s: &'static str)
        ensures
            s@ == self.actor_text(),
    {
        match self {
            GroupMetricsKind::Producers => "producer",
            GroupMetricsKind::Consumers => "consumer",
            GroupMetricsKind::ProducersAndConsumers => "actor",
            GroupMetricsKind::ProducingConsumers => "producing consumer",
        }
    }

    /// The emphasis of the summary line of a group of this kind.
    #[verifier::when_used_as_spec(spec_emphasis)]
    pub fn emphasis(&self) -> (e: Emphasis)
        ensures
            e == self.spec_emphasis(),
    {
        match self {
            GroupMetricsKind::Producers => Emphasis::Neutral,
            GroupMetricsKind::Consumers => Emphasis::Neutral,
            GroupMetricsKind::ProducersAndConsumers => Emphasis::Attention,
            GroupMetricsKind::ProducingConsumers => Emphasis::Attention,
        }
    }
}

} // verus!
