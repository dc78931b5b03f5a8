//! The role that a single benchmark actor played during a run.

use vstd::prelude::*;

verus! {

/// The role of one actor record.
#[derive(Clone, Copy, Debug, PartialEq, Eq, Structural)]
pub enum ActorKind {
    /// The actor only sent messages.
    Producer,
    /// The actor only received messages.
    Consumer,
    /// The actor both sent and received messages in one role.
    ProducingConsumer,
}

impl ActorKind {
    /// Whether records of this kind count toward the "sent" totals:
    /// every kind but `Consumer`.
    pub open spec fn sends(self) -> bool {
        self != ActorKind::Consumer
    }

    /// Whether records of this kind count toward the "received" totals:
    /// every kind but `Producer`.
    pub open spec fn receives(self) -> bool {
        self != ActorKind::Producer
    }

    /// Whether the actor has exactly one role, so that it counts toward
    /// exactly one of "sent" and "received".
    pub open spec fn is_single_role(self) -> bool {
        self == ActorKind::Producer || self == ActorKind::Consumer
    }
}

} // verus!
