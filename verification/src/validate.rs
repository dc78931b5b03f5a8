//! What a report has to satisfy before its totals are computed and its summary
//! is rendered, and the function that finds out whether it does.

use vstd::prelude::*;
use crate::individual_metrics::IndividualMetricsSummary;
use crate::report::BenchmarkReport;
use crate::totals::{lemma_total_of_prefix, lemma_total_of_scope, total_of, Quantity, Scope};

verus! {

/// Why a report cannot be summarized.
#[derive(Clone, Copy, Debug, PartialEq, Eq, Structural)]
pub enum ReportError {
    /// The group at this position has no throughput sample, and so no duration.
    EmptyTimeSeries { group: usize },
    /// The total of this quantity over all actors does not fit a 64-bit word.
    TotalOutOfRange { quantity: Quantity },
}

/// The sum of `quantity` over the records that `scope` admits, or `None`
/// where the sum does not fit a 64-bit word.
pub fn checked_total(records: &Vec<IndividualMetricsSummary>, quantity: Quantity, scope: Scope) -> (total:
    Option<u64>)
    ensures
        total is Some <==> total_of(records@, quantity, scope) <= u64::MAX,
        total matches Some(t) ==> t == total_of(records@, quantity, scope),
{
    let mut sum: u64 = 0;
    let mut i: usize = 0;
    while i < records.len()
        invariant
            i <= records.len(),
            sum == total_of(records@.take(i as int), quantity, scope),
        decreases records.len() - i,
    {
        proof {
            lemma_total_of_prefix(records@, i + 1, quantity, scope);
            assert(records@.take(i + 1).drop_last() =~= records@.take(i as int));
        }
        if records[i].in_scope(scope) {
            let amount: u64 = records[i].amount(quantity);
            if amount > u64::MAX - sum {
                return None;
            }
            sum = sum + amount;
        }
        i = i + 1;
    }
    assert(records@.take(i as int) =~= records@);
    Some(sum)
}

impl BenchmarkReport {
    /// Whether every group has at least one throughput sample.
    pub open spec fn groups_have_points(&self) -> bool {
        forall|i: int|
            0 <= i < self.group_metrics@.len() ==> (
            #[trigger] self.group_metrics@[i]).avg_throughput_mb_ts.spec_has_points()
    }

    /// Whether the total of `quantity` over all actors fits a 64-bit word.
    pub open spec fn total_in_range(&self, quantity: Quantity) -> bool {
        total_of(self.individual_metrics@, quantity, Scope::All) <= u64::MAX
    }

    /// Whether the report can be summarized: every group has a duration, and
    /// the totals of messages, bytes and batches fit 64-bit words.
    pub open spec fn well_formed(&self) -> bool {
        &&& self.groups_have_points()
        &&& self.total_in_range(Quantity::Messages)
        &&& self.total_in_range(Quantity::Bytes)
        &&& self.total_in_range(Quantity::Batches)
    }

    /// The position of the first group without a throughput sample.
    fn first_empty_group(&self) -> (found: Option<usize>)
        ensures
            found is None <==> self.groups_have_points(),
            found matches Some(g) ==> g < self.group_metrics@.len()
                && !self.group_metrics@[g as int].avg_throughput_mb_ts.spec_has_points()
                && forall|j: int|
                0 <= j < g ==> (
                #[trigger] self.group_metrics@[j]).avg_throughput_mb_ts.spec_has_points(),
    {
        let mut i: usize = 0;
        while i < self.group_metrics.len()
            invariant
                i <= self.group_metrics@.len(),
                forall|j: int|
                    0 <= j < i ==> (
                    #[trigger] self.group_metrics@[j]).avg_throughput_mb_ts.spec_has_points(),
            decreases self.group_metrics@.len() - i,
        {
            if !self.group_metrics[i].avg_throughput_mb_ts.has_points() {
                return Some(i);
            }
            i = i + 1;
        }
        None
    }

    /// Checks that the report can be summarized. The groups are looked at
    /// first, in their order; then the totals of messages, of bytes and of
    /// batches. The error names the first thing found wrong.
    pub fn validate(&self) -> (checked: Result<(), ReportError>)
        ensures
            checked is Ok <==> self.well_formed(),
            checked matches Err(ReportError::EmptyTimeSeries { group }) ==> {
                &&& group < self.group_metrics@.len()
                &&& !self.group_metrics@[group as int].avg_throughput_mb_ts.spec_has_points()
                &&& forall|j: int|
                    0 <= j < group ==> (
                    #[trigger] self.group_metrics@[j]).avg_throughput_mb_ts.spec_has_points()
            },
            checked matches Err(ReportError::TotalOutOfRange { quantity }) ==> {
                &&& self.groups_have_points()
                &&& !self.total_in_range(quantity)
                &&& quantity != Quantity::Messages ==> self.total_in_range(Quantity::Messages)
                &&& quantity == Quantity::Batches ==> self.total_in_range(Quantity::Bytes)
            },
    {
        match self.first_empty_group() {
            Some(group) => {
                return Err(ReportError::EmptyTimeSeries { group });
            },
            None => {},
        }
        if checked_total(&self.individual_metrics, Quantity::Messages, Scope::All).is_none() {
            return Err(ReportError::TotalOutOfRange { quantity: Quantity::Messages });
        }
        if checked_total(&self.individual_metrics, Quantity::Bytes, Scope::All).is_none() {
            return Err(ReportError::TotalOutOfRange { quantity: Quantity::Bytes });
        }
        if checked_total(&self.individual_metrics, Quantity::Batches, Scope::All).is_none() {
            return Err(ReportError::TotalOutOfRange { quantity: Quantity::Batches });
        }
        Ok(())
    }

    /// In a well-formed report every total fits a 64-bit word, whatever its scope.
    pub proof fn lemma_well_formed_totals(&self)
        requires
            self.well_formed(),
        ensures
            self.spec_total_messages() <= u64::MAX,
            self.spec_total_messages_sent() <= u64::MAX,
            self.spec_total_messages_received() <= u64::MAX,
            self.spec_total_bytes() <= u64::MAX,
            self.spec_total_bytes_sent() <= u64::MAX,
            self.spec_total_bytes_received() <= u64::MAX,
            self.observed_message_batches() <= u64::MAX,
    {
        let records = self.individual_metrics@;
        lemma_total_of_scope(records, Quantity::Messages, Scope::Sent);
        lemma_total_of_scope(records, Quantity::Messages, Scope::Received);
        lemma_total_of_scope(records, Quantity::Bytes, Scope::Sent);
        lemma_total_of_scope(records, Quantity::Bytes, Scope::Received);
    }
}

} // verus!
