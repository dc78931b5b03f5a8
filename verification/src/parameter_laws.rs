//! What holds of every parameter line.
//!
//! A clause whose count is zero leaves no trace in the line, and the actors of
//! an end-to-end run are called producing consumers and never producers. Both
//! are stated of the text of the line; [`BenchmarkReport::parameter_line_string`]
//! states them of the line that it returns.

use vstd::prelude::*;
use vstd::string::*;
use crate::benchmark_kind::BenchmarkKind;
use crate::decimal::{decimal_text, is_digit, lemma_decimal_text_digits};
use crate::human::is_human_bytes_char;
use crate::parameter_line::{count_clause, optional_clause, parameter_line_text, producers_words};
use crate::params::BenchmarkParams;
use crate::text::{
    clean, lemma_clean_join, lemma_clean_without, lemma_occurs_before_last,
    lemma_occurs_in_continued, lemma_pair_excludes, occurs_in,
};

verus! {

/// Whether every character of `text` can occur in a byte count in short form.
pub open spec fn is_human_bytes(text: Seq<char>) -> bool {
    forall|i: int| 0 <= i < text.len() ==> is_human_bytes_char(#[trigger] text[i])
}

/// A count in decimal is clean of every pair of characters that are not digits.
proof fn lemma_decimal_clean(n: nat, first: char, second: char, gap: int)
    requires
        gap >= 1,
        !is_digit(first),
        !is_digit(second),
    ensures
        clean(decimal_text(n), first, second, gap),
{
    lemma_decimal_text_digits(n);
    lemma_clean_without(decimal_text(n), first, second, gap);
}

/// A clause is clean where its words are.
proof fn lemma_clause_clean(n: nat, words: Seq<char>, first: char, second: char, gap: int)
    requires
        gap >= 1,
        !is_digit(first),
        !is_digit(second),
        clean(words, first, second, gap),
    ensures
        clean(count_clause(n, words), first, second, gap),
        clean(optional_clause(n, words), first, second, gap),
{
    lemma_decimal_clean(n, first, second, gap);
    lemma_clean_join(decimal_text(n), words, first, second, gap);
}

/// The parameter line is clean of a pair where the name of the kind, the words
/// of the clauses that are present and the written amount of data are.
proof fn lemma_line_clean(
    params: BenchmarkParams,
    total_messages: u64,
    total_size: Seq<char>,
    first: char,
    second: char,
    gap: int,
)
    requires
        gap >= 1,
        !is_digit(first),
        !is_digit(second),
        clean("Benchmark: "@, first, second, gap),
        clean(params.benchmark_kind.label_text(), first, second, gap),
        clean(", "@, first, second, gap),
        params.producers != 0 ==> clean(
            producers_words(params.benchmark_kind),
            first,
            second,
            gap,
        ),
        clean(" consumers, "@, first, second, gap),
        clean(" streams, "@, first, second, gap),
        clean("1 topic per stream, "@, first, second, gap),
        params.partitions != 0 ==> clean(" partitions per topic, "@, first, second, gap),
        clean(" consumer groups, "@, first, second, gap),
        clean(" messages, "@, first, second, gap),
        clean(" messages per batch, "@, first, second, gap),
        clean(" message batches, "@, first, second, gap),
        clean(" bytes per message, "@, first, second, gap),
        clean(total_size, first, second, gap),
        clean(" of data processed"@, first, second, gap),
    ensures
        clean(parameter_line_text(params, total_messages, total_size), first, second, gap),
{
    let producers = optional_clause(
        params.producers as nat,
        producers_words(params.benchmark_kind),
    );
    let consumers = optional_clause(params.consumers as nat, " consumers, "@);
    let streams = count_clause(params.streams as nat, " streams, "@);
    let partitions = optional_clause(params.partitions as nat, " partitions per topic, "@);
    let consumer_groups = optional_clause(params.consumer_groups as nat, " consumer groups, "@);
    let messages = count_clause(total_messages as nat, " messages, "@);
    let messages_per_batch = count_clause(
        params.messages_per_batch as nat,
        " messages per batch, "@,
    );
    let message_batches = count_clause(params.message_batches as nat, " message batches, "@);
    let message_size = count_clause(params.message_size as nat, " bytes per message, "@);

    if params.producers != 0 {
        lemma_clause_clean(
            params.producers as nat,
            producers_words(params.benchmark_kind),
            first,
            second,
            gap,
        );
    }
    lemma_clause_clean(params.consumers as nat, " consumers, "@, first, second, gap);
    lemma_clause_clean(params.streams as nat, " streams, "@, first, second, gap);
    if params.partitions != 0 {
        lemma_clause_clean(params.partitions as nat, " partitions per topic, "@, first, second, gap);
    }
    lemma_clause_clean(params.consumer_groups as nat, " consumer groups, "@, first, second, gap);
    lemma_clause_clean(total_messages as nat, " messages, "@, first, second, gap);
    lemma_clause_clean(
        params.messages_per_batch as nat,
        " messages per batch, "@,
        first,
        second,
        gap,
    );
    lemma_clause_clean(params.message_batches as nat, " message batches, "@, first, second, gap);
    lemma_clause_clean(params.message_size as nat, " bytes per message, "@, first, second, gap);

    let t1 = "Benchmark: "@ + params.benchmark_kind.label_text();
    lemma_clean_join("Benchmark: "@, params.benchmark_kind.label_text(), first, second, gap);
    let t2 = t1 + ", "@;
    lemma_clean_join(t1, ", "@, first, second, gap);
    let t3 = t2 + producers;
    lemma_clean_join(t2, producers, first, second, gap);
    let t4 = t3 + consumers;
    lemma_clean_join(t3, consumers, first, second, gap);
    let t5 = t4 + streams;
    lemma_clean_join(t4, streams, first, second, gap);
    let t6 = t5 + "1 topic per stream, "@;
    lemma_clean_join(t5, "1 topic per stream, "@, first, second, gap);
    let t7 = t6 + partitions;
    lemma_clean_join(t6, partitions, first, second, gap);
    let t8 = t7 + consumer_groups;
    lemma_clean_join(t7, consumer_groups, first, second, gap);
    let t9 = t8 + messages;
    lemma_clean_join(t8, messages, first, second, gap);
    let t10 = t9 + messages_per_batch;
    lemma_clean_join(t9, messages_per_batch, first, second, gap);
    let t11 = t10 + message_batches;
    lemma_clean_join(t10, message_batches, first, second, gap);
    let t12 = t11 + message_size;
    lemma_clean_join(t11, message_size, first, second, gap);
    let t13 = t12 + total_size;
    lemma_clean_join(t12, total_size, first, second, gap);
    let t14 = t13 + " of data processed"@;
    lemma_clean_join(t13, " of data processed"@, first, second, gap);
    assert(t14 == parameter_line_text(params, total_messages, total_size));
}

/// The words that are the same in every parameter line never hold an `r`
/// with a `t` right after it.
proof fn lemma_fixed_words_without_rt()
    ensures
        clean("Benchmark: "@, 'r', 't', 1),
        clean(", "@, 'r', 't', 1),
        clean(" producing consumers, "@, 'r', 't', 1),
        clean(" producers, "@, 'r', 't', 1),
        clean(" consumers, "@, 'r', 't', 1),
        clean(" streams, "@, 'r', 't', 1),
        clean("1 topic per stream, "@, 'r', 't', 1),
        clean(" consumer groups, "@, 'r', 't', 1),
        clean(" messages, "@, 'r', 't', 1),
        clean(" messages per batch, "@, 'r', 't', 1),
        clean(" message batches, "@, 'r', 't', 1),
        clean(" bytes per message, "@, 'r', 't', 1),
        clean(" of data processed"@, 'r', 't', 1),
{
    reveal_strlit("Benchmark: ");
    reveal_strlit(", ");
    reveal_strlit(" producing consumers, ");
    reveal_strlit(" producers, ");
    reveal_strlit(" consumers, ");
    reveal_strlit(" streams, ");
    reveal_strlit("1 topic per stream, ");
    reveal_strlit(" consumer groups, ");
    reveal_strlit(" messages, ");
    reveal_strlit(" messages per batch, ");
    reveal_strlit(" message batches, ");
    reveal_strlit(" bytes per message, ");
    reveal_strlit(" of data processed");
}

/// No name of a kind holds an `r` with a `t` right after it.
proof fn lemma_labels_without_rt(kind: BenchmarkKind)
    ensures
        clean(kind.label_text(), 'r', 't', 1),
{
    reveal_strlit("Pinned Producer");
    reveal_strlit("Pinned Consumer");
    reveal_strlit("Pinned Producer And Consumer");
    reveal_strlit("Balanced Producer");
    reveal_strlit("Balanced Consumer Group");
    reveal_strlit("Balanced Producer And Consumer Group");
    reveal_strlit("End To End Producing Consumer");
    reveal_strlit("End To End Producing Consumer Group");
}

/// The words of an end-to-end run's parameter line never hold a `c` with an
/// `r` two places after it.
proof fn lemma_fixed_words_without_c_r()
    ensures
        clean("Benchmark: "@, 'c', 'r', 2),
        clean(", "@, 'c', 'r', 2),
        clean(" producing consumers, "@, 'c', 'r', 2),
        clean(" consumers, "@, 'c', 'r', 2),
        clean(" streams, "@, 'c', 'r', 2),
        clean("1 topic per stream, "@, 'c', 'r', 2),
        clean(" partitions per topic, "@, 'c', 'r', 2),
        clean(" consumer groups, "@, 'c', 'r', 2),
        clean(" messages, "@, 'c', 'r', 2),
        clean(" messages per batch, "@, 'c', 'r', 2),
        clean(" message batches, "@, 'c', 'r', 2),
        clean(" bytes per message, "@, 'c', 'r', 2),
        clean(" of data processed"@, 'c', 'r', 2),
        clean("End To End Producing Consumer"@, 'c', 'r', 2),
        clean("End To End Producing Consumer Group"@, 'c', 'r', 2),
{
    reveal_strlit("Benchmark: ");
    reveal_strlit(", ");
    reveal_strlit(" producing consumers, ");
    reveal_strlit(" consumers, ");
    reveal_strlit(" streams, ");
    reveal_strlit("1 topic per stream, ");
    reveal_strlit(" partitions per topic, ");
    reveal_strlit(" consumer groups, ");
    reveal_strlit(" messages, ");
    reveal_strlit(" messages per batch, ");
    reveal_strlit(" message batches, ");
    reveal_strlit(" bytes per message, ");
    reveal_strlit(" of data processed");
    reveal_strlit("End To End Producing Consumer");
    reveal_strlit("End To End Producing Consumer Group");
}

/// Where the run has no partitions, the parameter line does not mention
/// partitions: the words `partitions per topic` stand nowhere in it.
pub proof fn law_no_partitions_clause(
    params: BenchmarkParams,
    total_messages: u64,
    total_size: Seq<char>,
)
    requires
        params.partitions == 0,
        is_human_bytes(total_size),
    ensures
        !occurs_in(
            parameter_line_text(params, total_messages, total_size),
            "partitions per topic"@,
        ),
{
    lemma_fixed_words_without_rt();
    lemma_labels_without_rt(params.benchmark_kind);
    lemma_clean_without(total_size, 'r', 't', 1);
    lemma_line_clean(params, total_messages, total_size, 'r', 't', 1);
    reveal_strlit("partitions per topic");
    lemma_pair_excludes(
        parameter_line_text(params, total_messages, total_size),
        "partitions per topic"@,
        'r',
        't',
        1,
        2,
    );
}

/// In the parameter line of an end-to-end run the producers are called
/// producing consumers: the line holds their number followed by
/// ` producing consumers,` and nowhere that number followed by ` producers,`.
/// For three producers it holds `3 producing consumers,` and not `3 producers,`.
pub proof fn law_producing_consumers_named(
    params: BenchmarkParams,
    total_messages: u64,
    total_size: Seq<char>,
)
    requires
        params.benchmark_kind.is_producing_consumer(),
        params.producers != 0,
        is_human_bytes(total_size),
    ensures
        occurs_in(
            parameter_line_text(params, total_messages, total_size),
            decimal_text(params.producers as nat) + " producing consumers,"@,
        ),
        !occurs_in(
            parameter_line_text(params, total_messages, total_size),
            decimal_text(params.producers as nat) + " producers,"@,
        ),
{
    let line = parameter_line_text(params, total_messages, total_size);
    let number = decimal_text(params.producers as nat);

    // The producers clause stands right after the name of the kind, and what
    // follows it takes nothing away.
    let head = "Benchmark: "@ + params.benchmark_kind.label_text() + ", "@;
    let named = number + " producing consumers,"@;
    reveal_strlit(" producing consumers, ");
    reveal_strlit(" producing consumers,");
    assert(number + " producing consumers, "@ =~= named.push(' '));
    lemma_occurs_before_last(head, named, ' ');
    let t3 = head + optional_clause(params.producers as nat, producers_words(params.benchmark_kind));
    assert(occurs_in(t3, named));
    let consumers = optional_clause(params.consumers as nat, " consumers, "@);
    let streams = count_clause(params.streams as nat, " streams, "@);
    let partitions = optional_clause(params.partitions as nat, " partitions per topic, "@);
    let consumer_groups = optional_clause(params.consumer_groups as nat, " consumer groups, "@);
    let messages = count_clause(total_messages as nat, " messages, "@);
    let messages_per_batch = count_clause(
        params.messages_per_batch as nat,
        " messages per batch, "@,
    );
    let message_batches = count_clause(params.message_batches as nat, " message batches, "@);
    let message_size = count_clause(params.message_size as nat, " bytes per message, "@);
    let t4 = t3 + consumers;
    lemma_occurs_in_continued(t3, consumers, named);
    let t5 = t4 + streams;
    lemma_occurs_in_continued(t4, streams, named);
    let t6 = t5 + "1 topic per stream, "@;
    lemma_occurs_in_continued(t5, "1 topic per stream, "@, named);
    let t7 = t6 + partitions;
    lemma_occurs_in_continued(t6, partitions, named);
    let t8 = t7 + consumer_groups;
    lemma_occurs_in_continued(t7, consumer_groups, named);
    let t9 = t8 + messages;
    lemma_occurs_in_continued(t8, messages, named);
    let t10 = t9 + messages_per_batch;
    lemma_occurs_in_continued(t9, messages_per_batch, named);
    let t11 = t10 + message_batches;
    lemma_occurs_in_continued(t10, message_batches, named);
    let t12 = t11 + message_size;
    lemma_occurs_in_continued(t11, message_size, named);
    let t13 = t12 + total_size;
    lemma_occurs_in_continued(t12, total_size, named);
    let t14 = t13 + " of data processed"@;
    lemma_occurs_in_continued(t13, " of data processed"@, named);
    assert(t14 == line);

    // No part of the line holds the `c` and `r` of `producers`.
    lemma_fixed_words_without_c_r();
    lemma_clean_without(total_size, 'c', 'r', 2);
    lemma_line_clean(params, total_messages, total_size, 'c', 'r', 2);
    let plain = number + " producers,"@;
    reveal_strlit(" producers,");
    lemma_pair_excludes(line, plain, 'c', 'r', 2, (number.len() + 6) as int);
}

} // verus!
