//! Occurrences of one text in another, and a way to rule them out.
//!
//! A text cannot hold a pattern if the pattern has two characters, a fixed
//! distance apart, that never stand at that distance in the text. Texts that
//! are free of such a pair, and that do not begin with its second character,
//! stay so when they are joined.

use vstd::prelude::*;

verus! {

/// Whether `pattern` stands in `text` beginning at position `at`.
pub open spec fn occurs_at(text: Seq<char>, pattern: Seq<char>, at: int) -> bool {
    &&& 0 <= at
    &&& at + pattern.len() <= text.len()
    &&& text.subrange(at, at + pattern.len()) == pattern
}

/// Whether `pattern` stands somewhere in `text`.
pub open spec fn occurs_in(text: Seq<char>, pattern: Seq<char>) -> bool {
    exists|at: int| occurs_at(text, pattern, at)
}

/// Whether `text` has no position that holds `first` with `second` standing
/// `gap` positions after it.
pub open spec fn free_of_pair(text: Seq<char>, first: char, second: char, gap: int) -> bool {
    forall|i: int|
        0 <= i && i + gap < text.len() ==> !(#[trigger] text[i] == first && text[i + gap]
            == second)
}

/// Whether none of the first `gap` characters of `text` is `second`.
pub open spec fn opens_without(text: Seq<char>, second: char, gap: int) -> bool {
    forall|j: int| 0 <= j < gap && j < text.len() ==> #[trigger] text[j] != second
}

/// Whether `text` is free of the pair and can follow any other text without
/// completing the pair across the join.
pub open spec fn clean(text: Seq<char>, first: char, second: char, gap: int) -> bool {
    free_of_pair(text, first, second, gap) && opens_without(text, second, gap)
}

/// Joining two clean texts gives a clean text.
pub proof fn lemma_clean_join(
    left: Seq<char>,
    right: Seq<char>,
    first: char,
    second: char,
    gap: int,
)
    requires
        gap >= 1,
        clean(left, first, second, gap),
        clean(right, first, second, gap),
    ensures
        clean(left + right, first, second, gap),
{
    let joined = left + right;
    assert forall|i: int| 0 <= i && i + gap < joined.len() implies !(#[trigger] joined[i] == first
        && joined[i + gap] == second) by {
        if i + gap < left.len() {
            assert(joined[i] == left[i]);
            assert(joined[i + gap] == left[i + gap]);
        } else if i >= left.len() {
            assert(joined[i] == right[i - left.len()]);
            assert(joined[i + gap] == right[i - left.len() + gap]);
        } else {
            let j = i + gap - left.len();
            assert(joined[i + gap] == right[j]);
            assert(0 <= j < gap);
        }
    }
    assert forall|j: int| 0 <= j < gap && j < joined.len() implies #[trigger] joined[j]
        != second by {
        if j < left.len() {
            assert(joined[j] == left[j]);
        } else {
            assert(joined[j] == right[j - left.len()]);
        }
    }
}

/// A text that holds neither character of the pair is clean.
pub proof fn lemma_clean_without(text: Seq<char>, first: char, second: char, gap: int)
    requires
        gap >= 0,
        forall|i: int| 0 <= i < text.len() ==> #[trigger] text[i] != first,
        forall|i: int| 0 <= i < text.len() ==> #[trigger] text[i] != second,
    ensures
        clean(text, first, second, gap),
{
}

/// A text that is free of a pair holds no pattern in which the pair stands.
pub proof fn lemma_pair_excludes(
    text: Seq<char>,
    pattern: Seq<char>,
    first: char,
    second: char,
    gap: int,
    k: int,
)
    requires
        gap >= 0,
        free_of_pair(text, first, second, gap),
        0 <= k,
        k + gap < pattern.len(),
        pattern[k] == first,
        pattern[k + gap] == second,
    ensures
        !occurs_in(text, pattern),
{
    assert forall|at: int| !occurs_at(text, pattern, at) by {
        if occurs_at(text, pattern, at) {
            let window = text.subrange(at, at + pattern.len());
            assert(window[k] == text[at + k]);
            assert(window[k + gap] == text[at + k + gap]);
            assert(text[at + k] == first && text[(at + k) + gap] == second);
        }
    }
}

/// A pattern that stands in a text stands in every text that continues it.
pub proof fn lemma_occurs_in_continued(text: Seq<char>, rest: Seq<char>, pattern: Seq<char>)
    requires
        occurs_in(text, pattern),
    ensures
        occurs_in(text + rest, pattern),
{
    let at = choose|at: int| occurs_at(text, pattern, at);
    assert((text + rest).subrange(at, at + pattern.len()) =~= text.subrange(
        at,
        at + pattern.len(),
    ));
    assert(occurs_at(text + rest, pattern, at));
}

/// A pattern stands in a text that ends with it and one more character.
pub proof fn lemma_occurs_before_last(front: Seq<char>, pattern: Seq<char>, last: char)
    ensures
        occurs_in(front + pattern.push(last), pattern),
{
    let text = front + pattern.push(last);
    let at = front.len() as int;
    assert(text.subrange(at, at + pattern.len()) =~= pattern);
    assert(occurs_at(text, pattern, at));
}

} // verus!
