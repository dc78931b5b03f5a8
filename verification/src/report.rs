//! The report of one finished benchmark run.

use vstd::prelude::*;
use crate::group_metrics::BenchmarkGroupMetrics;
use crate::individual_metrics::IndividualMetricsSummary;
use crate::params::BenchmarkParams;

verus! {

/// Everything that was recorded of one run: its parameters, one record per
/// actor in the order in which the actors were created, and one aggregate per
/// group in the order in which a summary shows them.
#[derive(Clone, Debug, PartialEq, Eq)]
pub struct BenchmarkReport {
    pub params: BenchmarkParams,
    pub individual_metrics: Vec<IndividualMetricsSummary>,
    pub group_metrics: Vec<BenchmarkGroupMetrics>,
}

} // verus!
