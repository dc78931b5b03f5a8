//! The line of a summary that reports the statistics of one group.
//!
//! The line opens with the label of the group's kind and then gives, in a fixed
//! order and each with its unit, the throughput, the latency percentiles, the
//! other latency statistics and the duration of the run.

use vstd::prelude::*;
use vstd::string::*;
use colored::ColoredString;
use crate::decimal::{decimal_text, push_decimal};
use crate::group_metrics::BenchmarkGroupMetrics;
use crate::paint::{paint, painted};

verus! {

impl BenchmarkGroupMetrics {
    /// The text of the group's line. Throughput in megabytes, latencies and
    /// the duration are written with two decimals, the message rate as a whole
    /// number. The duration is the time of the last throughput sample.
    pub open spec fn line_text(&self) -> Seq<char>
        recommends
            self.avg_throughput_mb_ts.spec_has_points(),
    {
        let s = self.summary;
        s.kind.label_text() + ": Total throughput: "@
            + s.total_throughput_megabytes_per_second.text() + " MB/s, "@ + decimal_text(
            s.total_throughput_messages_per_second as nat,
        ) + " messages/s, average throughput per "@ + s.kind.actor_text() + ": "@
            + s.average_throughput_megabytes_per_second.text() + " MB/s, p50 latency: "@
            + s.average_p50_latency_ms.text() + " ms, p90 latency: "@
            + s.average_p90_latency_ms.text() + " ms, p95 latency: "@
            + s.average_p95_latency_ms.text() + " ms, p99 latency: "@
            + s.average_p99_latency_ms.text() + " ms, p999 latency: "@
            + s.average_p999_latency_ms.text() + " ms, p9999 latency: "@
            + s.average_p9999_latency_ms.text() + " ms, average latency: "@
            + s.average_latency_ms.text() + " ms, median latency: "@
            + s.average_median_latency_ms.text() + " ms, min: "@ + s.min_latency_ms.text()
            + " ms, max: "@ + s.max_latency_ms.text() + " ms, std dev: "@
            + s.std_dev_latency_ms.text() + " ms, total time: "@
            + self.avg_throughput_mb_ts.spec_total_time().text() + " s"@
    }

    /// The text of the group's line.
    pub fn line_string(&self) -> (line: String)
        requires
            self.avg_throughput_mb_ts.spec_has_points(),
        ensures
            line@ == self.line_text(),
    {
        let prefix = self.summary.kind.label();
        let actor = self.summary.kind.actor();
        let total_test_time = self.avg_throughput_mb_ts.total_time();

        let mut line = String::from_str(prefix);
        line.append(": Total throughput: ");
        self.summary.total_throughput_megabytes_per_second.push_to(&mut line);
        line.append(" MB/s, ");
        push_decimal(&mut line, self.summary.total_throughput_messages_per_second);
        line.append(" messages/s, average throughput per ");
        line.append(actor);
        line.append(": ");
        self.summary.average_throughput_megabytes_per_second.push_to(&mut line);
        line.append(" MB/s, p50 latency: ");
        self.summary.average_p50_latency_ms.push_to(&mut line);
        line.append(" ms, p90 latency: ");
        self.summary.average_p90_latency_ms.push_to(&mut line);
        line.append(" ms, p95 latency: ");
        self.summary.average_p95_latency_ms.push_to(&mut line);
        line.append(" ms, p99 latency: ");
        self.summary.average_p99_latency_ms.push_to(&mut line);
        line.append(" ms, p999 latency: ");
        self.summary.average_p999_latency_ms.push_to(&mut line);
        line.append(" ms, p9999 latency: ");
        self.summary.average_p9999_latency_ms.push_to(&mut line);
        line.append(" ms, average latency: ");
        self.summary.average_latency_ms.push_to(&mut line);
        line.append(" ms, median latency: ");
        self.summary.average_median_latency_ms.push_to(&mut line);
        line.append(" ms, min: ");
        self.summary.min_latency_ms.push_to(&mut line);
        line.append(" ms, max: ");
        self.summary.max_latency_ms.push_to(&mut line);
        line.append(" ms, std dev: ");
        self.summary.std_dev_latency_ms.push_to(&mut line);
        line.append(" ms, total time: ");
        total_test_time.push_to(&mut line);
        line.append(" s");
        line
    }

    /// The group's line, coloured by the emphasis of the group's kind: green
    /// for producers and for consumers, red for the two kinds that combine roles.
    pub fn formatted_string(&self) -> (line: ColoredString)
        requires
            self.avg_throughput_mb_ts.spec_has_points(),
        ensures
            line == painted(self.line_text(), self.summary.kind.emphasis().color()),
    {
        let color = self.summary.kind.emphasis().color();
        let text = self.line_string();
        paint(text.as_str(), color)
    }
}

} // verus!
