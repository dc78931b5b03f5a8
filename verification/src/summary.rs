//! The summary of a report: the parameter line, then one line per group.

use vstd::prelude::*;
use colored::ColoredString;
use crate::emphasis::TextColor;
use crate::paint::painted;
use crate::report::BenchmarkReport;

verus! {

impl BenchmarkReport {
    /// The line at position `i` of the summary: the parameter line in blue at
    /// position 0, and after it the line of each group, in the order of the
    /// groups and in the colour of the group's kind.
    pub open spec fn summary_line(&self, i: int) -> ColoredString
        recommends
            0 <= i <= self.group_metrics@.len(),
    {
        if i == 0 {
            painted(self.parameter_text(), TextColor::Blue)
        } else {
            let group = self.group_metrics@[i - 1];
            painted(group.line_text(), group.summary.kind.emphasis().color())
        }
    }

    /// The lines of the summary, in the order in which they are to be shown.
    pub fn summary_lines(&self) -> (lines: Vec<ColoredString>)
        requires
            self.spec_total_messages() <= u64::MAX,
            self.spec_total_bytes() <= u64::MAX,
            self.groups_have_points(),
        ensures
            lines@.len() == self.group_metrics@.len() + 1,
            forall|i: int| 0 <= i < lines@.len() ==> #[trigger] lines@[i] == self.summary_line(i),
    {
        let mut lines: Vec<ColoredString> = Vec::new();
        lines.push(self.parameter_line());
        let mut g: usize = 0;
        while g < self.group_metrics.len()
            invariant
                g <= self.group_metrics@.len(),
                self.groups_have_points(),
                lines@.len() == g + 1,
                forall|i: int| 0 <= i < lines@.len() ==> #[trigger] lines@[i] == self.summary_line(i),
            decreases self.group_metrics@.len() - g,
        {
            assert(self.group_metrics@[g as int].avg_throughput_mb_ts.spec_has_points());
            lines.push(self.group_metrics[g].formatted_string());
            g = g + 1;
        }
        lines
    }
}

} // verus!
