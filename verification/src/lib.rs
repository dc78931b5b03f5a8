//! Aggregation and summary rendering for the results of a messaging benchmark run.
//!
//! A [`BenchmarkReport`] holds the parameters of a run, one record per actor and one
//! aggregate per reported group. The totals over the actor records and the text of the
//! summary lines are computed by verified functions whose contracts are stated over
//! mathematical sums and character sequences.

pub mod actor_kind;
pub mod benchmark_kind;
pub mod decimal;
pub mod emphasis;
pub mod group_line;
pub mod group_metrics;
pub mod group_metrics_kind;
pub mod human;
pub mod individual_metrics;
pub mod paint;
pub mod parameter_laws;
pub mod parameter_line;
pub mod params;
pub mod report;
pub mod summary;
pub mod text;
pub mod totals;
pub mod validate;

pub use actor_kind::ActorKind;
pub use benchmark_kind::BenchmarkKind;
pub use decimal::Hundredths;
pub use emphasis::{Emphasis, TextColor};
pub use group_metrics::{
    BenchmarkGroupMetrics, BenchmarkGroupMetricsSummary, ThroughputTimeSeries, TimePoint,
};
pub use group_metrics_kind::GroupMetricsKind;
pub use individual_metrics::IndividualMetricsSummary;
pub use params::BenchmarkParams;
pub use report::BenchmarkReport;
pub use totals::{Quantity, Scope};
pub use validate::ReportError;
