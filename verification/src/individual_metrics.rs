//! The finished measurements of a single actor.

use vstd::prelude::*;
use crate::actor_kind::ActorKind;

verus! {

/// What one actor handled during the run.
#[derive(Clone, Copy, Debug, PartialEq, Eq, Structural)]
pub struct IndividualMetricsSummary {
    pub actor_kind: ActorKind,
    /// The number of messages that the actor handled.
    pub total_messages: u64,
    /// The payload bytes that the actor handled, without protocol overhead.
    pub total_user_data_bytes: u64,
    /// The number of batches that the actor was seen to handle; zero where
    /// batches were not tracked.
    pub total_message_batches: u64,
}

} // verus!
