//! Searching for one text inside another, over sequences of characters.

use vstd::prelude::*;

verus! {

/// `String::push` of the standard library: the character is appended to
/// the text, which is otherwise unchanged.
pub assume_specification[ String::push ](text: &mut String, c: char)
    ensures
        final(text)@ == old(text)@.push(c),
;

/// `pattern` stands in `text` at position `at`.
pub open spec fn occurs_at(text: Seq<char>, pattern: Seq<char>, at: int) -> bool {
    &&& 0 <= at
    &&& at + pattern.len() <= text.len()
    &&& text.subrange(at, at + pattern.len()) == pattern
}

/// `pattern` stands somewhere in `text`.
pub open spec fn contains_text(text: Seq<char>, pattern: Seq<char>) -> bool {
    exists|at: int| occurs_at(text, pattern, at)
}

/// `pattern` stands in `text` at `at` and nowhere before it.
pub open spec fn is_first_occurrence(text: Seq<char>, pattern: Seq<char>, at: int) -> bool {
    &&& occurs_at(text, pattern, at)
    &&& forall|earlier: int| 0 <= earlier < at ==> !occurs_at(text, pattern, earlier)
}

/// The position of the first occurrence of `pattern` in `text`; meaningful
/// only where `contains_text(text, pattern)` holds.
pub open spec fn first_occurrence(text: Seq<char>, pattern: Seq<char>) -> int {
    choose|at: int| is_first_occurrence(text, pattern, at)
}

/// `text` with `inserted` put in at position `at`; nothing of `text` is
/// removed or moved.
pub open spec fn insert_at(text: Seq<char>, at: int, inserted: Seq<char>) -> Seq<char> {
    text.subrange(0, at) + inserted + text.subrange(at, text.len() as int)
}

/// `result` is `text` itself, or `text` with `inserted` put in at one place:
/// everything that `text` held is still there, in the same order.
pub open spec fn extends_by(text: Seq<char>, inserted: Seq<char>, result: Seq<char>) -> bool {
    result == text || exists|at: int|
        0 <= at <= text.len() && result == insert_at(text, at, inserted)
}

/// A text has at most one first occurrence of a pattern.
pub proof fn lemma_first_occurrence_unique(text: Seq<char>, pattern: Seq<char>, at: int)
    requires
        is_first_occurrence(text, pattern, at),
    ensures
        contains_text(text, pattern),
        first_occurrence(text, pattern) == at,
{
    let chosen = first_occurrence(text, pattern);
    assert(is_first_occurrence(text, pattern, chosen));
    if chosen < at {
        assert(!occurs_at(text, pattern, chosen));
    }
    if at < chosen {
        assert(!occurs_at(text, pattern, at));
    }
}

/// Among the positions up to `bound` at which `pattern` occurs there is a
/// first one.
proof fn lemma_least_occurrence(text: Seq<char>, pattern: Seq<char>, bound: int) -> (least: int)
    requires
        occurs_at(text, pattern, bound),
    ensures
        is_first_occurrence(text, pattern, least),
        least <= bound,
    decreases bound,
{
    if exists|earlier: int| 0 <= earlier < bound && occurs_at(text, pattern, earlier) {
        let earlier = choose|earlier: int| 0 <= earlier < bound && occurs_at(text, pattern, earlier);
        lemma_least_occurrence(text, pattern, earlier)
    } else {
        bound
    }
}

/// A text that contains a pattern has a first occurrence of it, and
/// `first_occurrence` names it.
pub proof fn lemma_first_occurrence_exists(text: Seq<char>, pattern: Seq<char>)
    requires
        contains_text(text, pattern),
    ensures
        is_first_occurrence(text, pattern, first_occurrence(text, pattern)),
{
    let some = choose|at: int| occurs_at(text, pattern, at);
    let least = lemma_least_occurrence(text, pattern, some);
    lemma_first_occurrence_unique(text, pattern, least);
}

/// Where a pattern occurs in a text, the text holds the pattern's characters
/// one by one.
pub proof fn lemma_occurrence_char(text: Seq<char>, pattern: Seq<char>, at: int, offset: int)
    requires
        occurs_at(text, pattern, at),
        0 <= offset < pattern.len(),
    ensures
        text[at + offset] == pattern[offset],
{
    assert(text.subrange(at, at + pattern.len())[offset] == text[at + offset]);
}

/// What is inserted into a text stands in the result, at the place of the
/// insertion.
pub proof fn lemma_inserted_occurs(text: Seq<char>, at: int, inserted: Seq<char>)
    requires
        0 <= at <= text.len(),
    ensures
        occurs_at(insert_at(text, at, inserted), inserted, at),
        contains_text(insert_at(text, at, inserted), inserted),
{
    let result = insert_at(text, at, inserted);
    assert(result.subrange(at, at + inserted.len()) =~= inserted);
    assert(occurs_at(result, inserted, at));
}

/// An occurrence of a pattern survives an insertion that does not fall
/// strictly inside it: it stays where it was when the insertion is behind
/// it, and moves by the length of what was inserted when the insertion is
/// before it.
pub proof fn lemma_occurrence_survives_insertion(
    text: Seq<char>,
    pattern: Seq<char>,
    occurrence: int,
    at: int,
    inserted: Seq<char>,
)
    requires
        occurs_at(text, pattern, occurrence),
        0 <= at <= text.len(),
        at <= occurrence || occurrence + pattern.len() <= at,
    ensures
        occurrence + pattern.len() <= at ==> occurs_at(
            insert_at(text, at, inserted),
            pattern,
            occurrence,
        ),
        occurrence + pattern.len() > at ==> occurs_at(
            insert_at(text, at, inserted),
            pattern,
            occurrence + inserted.len(),
        ),
        contains_text(insert_at(text, at, inserted), pattern),
{
    let result = insert_at(text, at, inserted);
    let found = text.subrange(occurrence, occurrence + pattern.len());
    if occurrence + pattern.len() <= at {
        assert(result.subrange(occurrence, occurrence + pattern.len()) =~= found);
        assert(occurs_at(result, pattern, occurrence));
    } else {
        let moved = occurrence + inserted.len();
        assert(result.subrange(moved, moved + pattern.len()) =~= found);
        assert(occurs_at(result, pattern, moved));
    }
}

/// The characters of a string slice, as a vector.
pub fn chars_of(s: &str) -> (chars: Vec<char>)
    ensures
        chars@ == s@,
{
    let mut chars: Vec<char> = Vec::new();
    for c in it: s.chars()
        invariant
            it.seq() == s@,
            chars@ == it.seq().take(it.index() as int),
    {
        chars.push(c);
    }
    chars
}

/// Tells whether `pattern` stands in `text` at position `at`.
pub fn matches_at(text: &Vec<char>, pattern: &Vec<char>, at: usize) -> (found: bool)
    ensures
        found == occurs_at(text@, pattern@, at as int),
{
    if pattern.len() > text.len() || at > text.len() - pattern.len() {
        return false;
    }
    let mut matched: usize = 0;
    while matched < pattern.len()
        invariant
            matched <= pattern.len(),
            at + pattern.len() <= text.len(),
            forall|k: int| 0 <= k < matched ==> text@[at + k] == pattern@[k],
        decreases pattern.len() - matched,
    {
        if text[at + matched] != pattern[matched] {
            assert(text@.subrange(at as int, at + pattern.len())[matched as int]
                != pattern@[matched as int]);
            return false;
        }
        matched += 1;
    }
    assert(text@.subrange(at as int, at + pattern.len()) =~= pattern@);
    true
}

/// Finds the first position at which `pattern` stands in `text`.
pub fn find_first(text: &Vec<char>, pattern: &Vec<char>) -> (found: Option<usize>)
    ensures
        match found {
            Some(at) => is_first_occurrence(text@, pattern@, at as int),
            None => !contains_text(text@, pattern@),
        },
{
    if pattern.len() > text.len() {
        return None;
    }
    let last: usize = text.len() - pattern.len();
    let mut at: usize = 0;
    while at < last
        invariant
            at <= last,
            last == text.len() - pattern.len(),
            forall|earlier: int| 0 <= earlier < at ==> !occurs_at(text@, pattern@, earlier),
        decreases last - at,
    {
        if matches_at(text, pattern, at) {
            return Some(at);
        }
        at += 1;
    }
    if matches_at(text, pattern, last) {
        Some(last)
    } else {
        None
    }
}

} // verus!
