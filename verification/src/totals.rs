//! Totals over the actor records of a report.
//!
//! Every total is the sum of one quantity over the records that a scope admits.
//! The sums are stated over natural numbers by [`total_of`]; the functions of
//! [`BenchmarkReport`] compute them in machine words where they fit.

use vstd::prelude::*;
use crate::actor_kind::ActorKind;
use crate::individual_metrics::IndividualMetricsSummary;
use crate::report::BenchmarkReport;

verus! {

/// What is summed over the actor records.
#[derive(Clone, Copy, Debug, PartialEq, Eq, Structural)]
pub enum Quantity {
    /// `total_messages`
    Messages,
    /// `total_user_data_bytes`
    Bytes,
    /// `total_message_batches`
    Batches,
}

/// Which actor records a total takes in.
#[derive(Clone, Copy, Debug, PartialEq, Eq, Structural)]
pub enum Scope {
    /// Every record.
    All,
    /// Every record but those of consumers.
    Sent,
    /// Every record but those of producers.
    Received,
}

impl IndividualMetricsSummary {
    /// The value that the record holds of `quantity`.
    pub open spec fn spec_amount(&self, quantity: Quantity) -> u64 {
        match quantity {
            Quantity::Messages => self.total_messages,
            Quantity::Bytes => self.total_user_data_bytes,
            Quantity::Batches => self.total_message_batches,
        }
    }

    /// Whether a total over `scope` takes the record in.
    pub open spec fn spec_in_scope(&self, scope: Scope) -> bool {
        match scope {
            Scope::All => true,
            Scope::Sent => self.actor_kind != ActorKind::Consumer,
            Scope::Received => self.actor_kind != ActorKind::Producer,
        }
    }

    /// What the record adds to the total of `quantity` over `scope`.
    pub open spec fn share(&self, quantity: Quantity, scope: Scope) -> nat {
        if self.spec_in_scope(scope) {
            self.spec_amount(quantity) as nat
        } else {
            0
        }
    }

    /// The value that the record holds of `quantity`.
    #[verifier::when_used_as_spec(spec_amount)]
    pub fn amount(&self, quantity: Quantity) -> (amount: u64)
        ensures
            amount == self.spec_amount(quantity),
    {
        match quantity {
            Quantity::Messages => self.total_messages,
            Quantity::Bytes => self.total_user_data_bytes,
            Quantity::Batches => self.total_message_batches,
        }
    }

    /// Whether a total over `scope` takes the record in.
    #[verifier::when_used_as_spec(spec_in_scope)]
    pub fn in_scope(&self, scope: Scope) -> (b: bool)
        ensures
            b == self.spec_in_scope(scope),
    {
        match scope {
            Scope::All => true,
            Scope::Sent => self.actor_kind != ActorKind::Consumer,
            Scope::Received => self.actor_kind != ActorKind::Producer,
        }
    }
}

/// The sum of `quantity` over the records of `records` that `scope` admits.
pub open spec fn total_of(
    records: Seq<IndividualMetricsSummary>,
    quantity: Quantity,
    scope: Scope,
) -> nat
    decreases records.len(),
{
    if records.len() == 0 {
        0
    } else {
        total_of(records.drop_last(), quantity, scope) + records.last().share(quantity, scope)
    }
}

/// The total over the first `k` records is at most the total over all of them.
pub proof fn lemma_total_of_prefix(
    records: Seq<IndividualMetricsSummary>,
    k: int,
    quantity: Quantity,
    scope: Scope,
)
    requires
        0 <= k <= records.len(),
    ensures
        total_of(records.take(k), quantity, scope) <= total_of(records, quantity, scope),
    decreases records.len(),
{
    if k == records.len() {
        assert(records.take(k) =~= records);
    } else {
        lemma_total_of_prefix(records.drop_last(), k, quantity, scope);
        assert(records.drop_last().take(k) =~= records.take(k));
    }
}

/// A total over a narrower scope is at most the total over every record.
pub proof fn lemma_total_of_scope(
    records: Seq<IndividualMetricsSummary>,
    quantity: Quantity,
    scope: Scope,
)
    ensures
        total_of(records, quantity, scope) <= total_of(records, quantity, Scope::All),
    decreases records.len(),
{
    if records.len() > 0 {
        lemma_total_of_scope(records.drop_last(), quantity, scope);
    }
}

/// A total is zero exactly when every record in scope holds zero of the quantity.
pub proof fn lemma_total_of_zero(
    records: Seq<IndividualMetricsSummary>,
    quantity: Quantity,
    scope: Scope,
)
    ensures
        total_of(records, quantity, scope) == 0 <==> forall|i: int|
            0 <= i < records.len() ==> (#[trigger] records[i]).share(quantity, scope) == 0,
    decreases records.len(),
{
    if records.len() > 0 {
        let front = records.drop_last();
        lemma_total_of_zero(front, quantity, scope);
        if total_of(records, quantity, scope) == 0 {
            assert forall|i: int| 0 <= i < records.len() implies (#[trigger] records[i]).share(
                quantity,
                scope,
            ) == 0 by {
                if i < front.len() {
                    assert(records[i] == front[i]);
                }
            }
        } else if forall|i: int|
            0 <= i < records.len() ==> (#[trigger] records[i]).share(quantity, scope) == 0 {
            assert forall|i: int| 0 <= i < front.len() implies (#[trigger] front[i]).share(
                quantity,
                scope,
            ) == 0 by {
                assert(front[i] == records[i]);
            }
            assert(records.last() == records[records.len() - 1]);
        }
    }
}

/// Where every record is that of a producer or of a consumer, each record
/// counts toward exactly one of "sent" and "received": the two totals add up
/// to the total over all records, for every quantity.
pub proof fn law_sent_and_received_partition(
    records: Seq<IndividualMetricsSummary>,
    quantity: Quantity,
)
    requires
        forall|i: int| 0 <= i < records.len() ==> (#[trigger] records[i]).actor_kind.is_single_role(),
    ensures
        total_of(records, quantity, Scope::Sent) + total_of(records, quantity, Scope::Received)
            == total_of(records, quantity, Scope::All),
    decreases records.len(),
{
    if records.len() > 0 {
        let front = records.drop_last();
        assert forall|i: int| 0 <= i < front.len() implies (
        #[trigger] front[i]).actor_kind.is_single_role() by {
            assert(front[i] == records[i]);
        }
        law_sent_and_received_partition(front, quantity);
        assert(records.last() == records[records.len() - 1]);
        assert(records.last().actor_kind.is_single_role());
    }
}

/// Sums `quantity` over the records that `scope` admits.
fn sum_records(records: &Vec<IndividualMetricsSummary>, quantity: Quantity, scope: Scope) -> (total:
    u64)
    requires
        total_of(records@, quantity, scope) <= u64::MAX,
    ensures
        total == total_of(records@, quantity, scope),
{
    let mut total: u64 = 0;
    let mut i: usize = 0;
    while i < records.len()
        invariant
            i <= records.len(),
            total == total_of(records@.take(i as int), quantity, scope),
            total_of(records@, quantity, scope) <= u64::MAX,
        decreases records.len() - i,
    {
        proof {
            lemma_total_of_prefix(records@, i + 1, quantity, scope);
            assert(records@.take(i + 1).drop_last() =~= records@.take(i as int));
        }
        if records[i].in_scope(scope) {
            total = total + records[i].amount(quantity);
        }
        i = i + 1;
    }
    assert(records@.take(i as int) =~= records@);
    total
}

impl BenchmarkReport {
    /// The number of messages that all actors handled.
    pub open spec fn spec_total_messages(&self) -> nat {
        total_of(self.individual_metrics@, Quantity::Messages, Scope::All)
    }

    /// The number of messages that the actors other than consumers handled.
    pub open spec fn spec_total_messages_sent(&self) -> nat {
        total_of(self.individual_metrics@, Quantity::Messages, Scope::Sent)
    }

    /// The number of messages that the actors other than producers handled.
    pub open spec fn spec_total_messages_received(&self) -> nat {
        total_of(self.individual_metrics@, Quantity::Messages, Scope::Received)
    }

    /// The payload bytes that the actors other than consumers handled.
    pub open spec fn spec_total_bytes_sent(&self) -> nat {
        total_of(self.individual_metrics@, Quantity::Bytes, Scope::Sent)
    }

    /// The payload bytes that the actors other than producers handled.
    pub open spec fn spec_total_bytes_received(&self) -> nat {
        total_of(self.individual_metrics@, Quantity::Bytes, Scope::Received)
    }

    /// The payload bytes that all actors handled.
    pub open spec fn spec_total_bytes(&self) -> nat {
        total_of(self.individual_metrics@, Quantity::Bytes, Scope::All)
    }

    /// The number of batches that the actors were seen to handle.
    pub open spec fn observed_message_batches(&self) -> nat {
        total_of(self.individual_metrics@, Quantity::Batches, Scope::All)
    }

    /// Whether no actor recorded a batch.
    pub open spec fn no_batches_observed(&self) -> bool {
        forall|i: int|
            0 <= i < self.individual_metrics@.len() ==> (
            #[trigger] self.individual_metrics@[i]).total_message_batches == 0
    }

    /// The number of batches of the run: the observed number, or the
    /// configured number where no batch was observed.
    pub open spec fn spec_total_message_batches(&self) -> nat {
        if self.observed_message_batches() == 0 {
            self.params.message_batches as nat
        } else {
            self.observed_message_batches()
        }
    }

    /// The number of messages that all actors handled.
    pub fn total_messages(&self) -> (total: u64)
        requires
            self.spec_total_messages() <= u64::MAX,
        ensures
            total == self.spec_total_messages(),
    {
        sum_records(&self.individual_metrics, Quantity::Messages, Scope::All)
    }

    /// The number of messages sent: the messages of every actor that is not a
    /// consumer.
    pub fn total_messages_sent(&self) -> (total: u64)
        requires
            self.spec_total_messages_sent() <= u64::MAX,
        ensures
            total == self.spec_total_messages_sent(),
    {
        sum_records(&self.individual_metrics, Quantity::Messages, Scope::Sent)
    }

    /// The number of messages received: the messages of every actor that is
    /// not a producer.
    pub fn total_messages_received(&self) -> (total: u64)
        requires
            self.spec_total_messages_received() <= u64::MAX,
        ensures
            total == self.spec_total_messages_received(),
    {
        sum_records(&self.individual_metrics, Quantity::Messages, Scope::Received)
    }

    /// The payload bytes sent: the bytes of every actor that is not a consumer.
    pub fn total_bytes_sent(&self) -> (total: u64)
        requires
            self.spec_total_bytes_sent() <= u64::MAX,
        ensures
            total == self.spec_total_bytes_sent(),
    {
        sum_records(&self.individual_metrics, Quantity::Bytes, Scope::Sent)
    }

    /// The payload bytes received: the bytes of every actor that is not a
    /// producer.
    pub fn total_bytes_received(&self) -> (total: u64)
        requires
            self.spec_total_bytes_received() <= u64::MAX,
        ensures
            total == self.spec_total_bytes_received(),
    {
        sum_records(&self.individual_metrics, Quantity::Bytes, Scope::Received)
    }

    /// The payload bytes that all actors handled.
    pub fn total_bytes(&self) -> (total: u64)
        requires
            self.spec_total_bytes() <= u64::MAX,
        ensures
            total == self.spec_total_bytes(),
    {
        sum_records(&self.individual_metrics, Quantity::Bytes, Scope::All)
    }

    /// The number of batches of the run. Where no actor recorded a batch, this
    /// is the configured number of batches; otherwise it is the sum of the
    /// recorded numbers.
    pub fn total_message_batches(&self) -> (total: u64)
        requires
            self.observed_message_batches() <= u64::MAX,
        ensures
            total == self.spec_total_message_batches(),
            self.no_batches_observed() ==> total == self.params.message_batches,
            !self.no_batches_observed() ==> total == self.observed_message_batches() && total > 0,
    {
        proof {
            self.lemma_no_batches_observed();
        }
        let batches: u64 = sum_records(&self.individual_metrics, Quantity::Batches, Scope::All);
        if batches == 0 {
            self.params.message_batches
        } else {
            batches
        }
    }

    /// The totals of a report are values of its records and its parameters
    /// alone. Each function above returns exactly such a value, so calling it
    /// again on a report that was not changed, or on a report with the same
    /// contents, gives the same number.
    pub proof fn law_totals_repeatable(&self, other: &BenchmarkReport)
        requires
            self.params == other.params,
            self.individual_metrics@ == other.individual_metrics@,
        ensures
            self.spec_total_messages() == other.spec_total_messages(),
            self.spec_total_messages_sent() == other.spec_total_messages_sent(),
            self.spec_total_messages_received() == other.spec_total_messages_received(),
            self.spec_total_bytes() == other.spec_total_bytes(),
            self.spec_total_bytes_sent() == other.spec_total_bytes_sent(),
            self.spec_total_bytes_received() == other.spec_total_bytes_received(),
            self.spec_total_message_batches() == other.spec_total_message_batches(),
    {
    }

    /// Where every actor is a producer or a consumer, the messages sent and
    /// the messages received add up to the messages of all actors, and so do
    /// the bytes.
    pub proof fn law_sent_plus_received(&self)
        requires
            forall|i: int|
                0 <= i < self.individual_metrics@.len() ==> (
                #[trigger] self.individual_metrics@[i]).actor_kind.is_single_role(),
        ensures
            self.spec_total_messages_sent() + self.spec_total_messages_received()
                == self.spec_total_messages(),
            self.spec_total_bytes_sent() + self.spec_total_bytes_received()
                == self.spec_total_bytes(),
    {
        law_sent_and_received_partition(self.individual_metrics@, Quantity::Messages);
        law_sent_and_received_partition(self.individual_metrics@, Quantity::Bytes);
    }

    /// The observed number of batches is zero exactly when every record holds
    /// zero batches.
    pub proof fn lemma_no_batches_observed(&self)
        ensures
            self.observed_message_batches() == 0 <==> self.no_batches_observed(),
    {
        let records = self.individual_metrics@;
        lemma_total_of_zero(records, Quantity::Batches, Scope::All);
        if self.no_batches_observed() {
            assert forall|i: int| 0 <= i < records.len() implies (#[trigger] records[i]).share(
                Quantity::Batches,
                Scope::All,
            ) == 0 by {
                assert(records[i].total_message_batches == 0);
            }
        }
        if self.observed_message_batches() == 0 {
            assert forall|i: int| 0 <= i < records.len() implies (
            #[trigger] records[i]).total_message_batches == 0 by {
                assert(records[i].share(Quantity::Batches, Scope::All) == 0);
            }
        }
    }
}

} // verus!
