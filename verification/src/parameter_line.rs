//! The line of a summary that describes the run: its kind, the counts it was
//! configured with and the totals that its actors reached.
//!
//! The line is a sequence of clauses, each closed by a comma and a space, in a
//! fixed order. The clauses for producers, consumers, partitions and consumer
//! groups are left out where the count is zero.

use vstd::prelude::*;
use vstd::string::*;
use colored::ColoredString;
use crate::benchmark_kind::BenchmarkKind;
use crate::decimal::{decimal_text, push_decimal};
use crate::emphasis::{Emphasis, TextColor};
use crate::human::{human_bytes, human_bytes_text};
use crate::paint::{paint, painted};
use crate::parameter_laws::{law_no_partitions_clause, law_producing_consumers_named};
use crate::params::BenchmarkParams;
use crate::report::BenchmarkReport;
use crate::text::occurs_in;

verus! {

/// A count followed by the words that say what is counted.
pub open spec fn count_clause(count: nat, words: Seq<char>) -> Seq<char> {
    decimal_text(count) + words
}

/// A clause that is left out where there is nothing to count.
pub open spec fn optional_clause(count: nat, words: Seq<char>) -> Seq<char> {
    if count == 0 {
        Seq::<char>::empty()
    } else {
        count_clause(count, words)
    }
}

/// The words after the number of producers: the actors of an end-to-end run
/// are producing consumers.
pub open spec fn producers_words(kind: BenchmarkKind) -> Seq<char> {
    if kind.is_producing_consumer() {
        " producing consumers, "@
    } else {
        " producers, "@
    }
}

/// The text of the parameter line for a run with the parameters `params`, whose
/// actors handled `total_messages` messages and an amount of data that is
/// written as `total_size`.
pub open spec fn parameter_line_text(
    params: BenchmarkParams,
    total_messages: u64,
    total_size: Seq<char>,
) -> Seq<char> {
    "Benchmark: "@ + params.benchmark_kind.label_text() + ", "@ + optional_clause(
        params.producers as nat,
        producers_words(params.benchmark_kind),
    ) + optional_clause(params.consumers as nat, " consumers, "@) + count_clause(
        params.streams as nat,
        " streams, "@,
    ) + "1 topic per stream, "@ + optional_clause(
        params.partitions as nat,
        " partitions per topic, "@,
    ) + optional_clause(params.consumer_groups as nat, " consumer groups, "@) + count_clause(
        total_messages as nat,
        " messages, "@,
    ) + count_clause(params.messages_per_batch as nat, " messages per batch, "@) + count_clause(
        params.message_batches as nat,
        " message batches, "@,
    ) + count_clause(params.message_size as nat, " bytes per message, "@) + total_size
        + " of data processed"@
}

/// The clause for `count` with the words `words`.
fn count_clause_string(count: u64, words: &str) -> (clause: String)
    ensures
        clause@ == count_clause(count as nat, words@),
{
    let mut clause = String::new();
    push_decimal(&mut clause, count);
    clause.append(words);
    assert(clause@ =~= count_clause(count as nat, words@));
    clause
}

/// The clause for `count` with the words `words`, empty where `count` is zero.
fn optional_clause_string(count: u64, words: &str) -> (clause: String)
    ensures
        clause@ == optional_clause(count as nat, words@),
{
    if count == 0 {
        String::new()
    } else {
        count_clause_string(count, words)
    }
}

/// Renders the parameter line of a run from its parameters, the number of
/// messages that its actors handled and the written form of the amount of data.
pub fn render_parameter_line(params: &BenchmarkParams, total_messages: u64, total_size: &str) -> (line:
    String)
    ensures
        line@ == parameter_line_text(*params, total_messages, total_size@),
{
    let kind = params.benchmark_kind;
    let total_messages = count_clause_string(total_messages, " messages, ");
    let streams = count_clause_string(params.streams as u64, " streams, ");
    let topics = "1 topic per stream, ";
    let messages_per_batch = count_clause_string(
        params.messages_per_batch as u64,
        " messages per batch, ",
    );
    let message_batches = count_clause_string(params.message_batches, " message batches, ");
    let message_size = count_clause_string(params.message_size as u64, " bytes per message, ");
    let producers = if kind.is_producing_consumer() {
        optional_clause_string(params.producers as u64, " producing consumers, ")
    } else {
        optional_clause_string(params.producers as u64, " producers, ")
    };
    let consumers = optional_clause_string(params.consumers as u64, " consumers, ");
    let partitions = optional_clause_string(params.partitions as u64, " partitions per topic, ");
    let consumer_groups = optional_clause_string(
        params.consumer_groups as u64,
        " consumer groups, ",
    );

    let mut line = String::from_str("Benchmark: ");
    line.append(kind.label());
    line.append(", ");
    line.append(producers.as_str());
    line.append(consumers.as_str());
    line.append(streams.as_str());
    line.append(topics);
    line.append(partitions.as_str());
    line.append(consumer_groups.as_str());
    line.append(total_messages.as_str());
    line.append(messages_per_batch.as_str());
    line.append(message_batches.as_str());
    line.append(message_size.as_str());
    line.append(total_size);
    line.append(" of data processed");
    line
}

impl BenchmarkReport {
    /// The text of the parameter line of the report: the line for its
    /// parameters, the messages that all its actors handled and the bytes that
    /// they handled, written in short form.
    pub open spec fn parameter_text(&self) -> Seq<char>
        recommends
            self.spec_total_messages() <= u64::MAX,
            self.spec_total_bytes() <= u64::MAX,
    {
        parameter_line_text(
            self.params,
            self.spec_total_messages() as u64,
            human_bytes_text(self.spec_total_bytes() as u64),
        )
    }

    /// The text of the parameter line of the report. A run without
    /// partitions has no mention of partitions in its line, and the line of an
    /// end-to-end run names its producers as producing consumers only.
    pub fn parameter_line_string(&self) -> (line: String)
        requires
            self.spec_total_messages() <= u64::MAX,
            self.spec_total_bytes() <= u64::MAX,
        ensures
            line@ == self.parameter_text(),
            self.params.partitions == 0 ==> !occurs_in(line@, "partitions per topic"@),
            self.params.benchmark_kind.is_producing_consumer() && self.params.producers != 0
                ==> occurs_in(
                line@,
                decimal_text(self.params.producers as nat) + " producing consumers,"@,
            ) && !occurs_in(line@, decimal_text(self.params.producers as nat) + " producers,"@),
    {
        let total_messages: u64 = self.total_messages();
        let total_size = human_bytes(self.total_bytes());
        proof {
            if self.params.partitions == 0 {
                law_no_partitions_clause(self.params, total_messages, total_size@);
            }
            if self.params.benchmark_kind.is_producing_consumer() && self.params.producers != 0 {
                law_producing_consumers_named(self.params, total_messages, total_size@);
            }
        }
        render_parameter_line(&self.params, total_messages, total_size.as_str())
    }

    /// The parameter line of the report, coloured as the heading of the summary.
    pub fn parameter_line(&self) -> (line: ColoredString)
        requires
            self.spec_total_messages() <= u64::MAX,
            self.spec_total_bytes() <= u64::MAX,
        ensures
            line == painted(self.parameter_text(), TextColor::Blue),
    {
        let text = self.parameter_line_string();
        paint(text.as_str(), Emphasis::Heading.color())
    }
}

} // verus!
