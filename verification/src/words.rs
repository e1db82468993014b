//! Splitting a line of text into words.
//!
//! A line is first trimmed of white space at both ends; its words are then
//! the maximal runs of characters that are not ASCII white space.

use crate::text::chars_of;
use vstd::prelude::*;
use vstd::string::StrSliceExecFns;

verus! {

/// Whether the character is white space as Unicode defines it: the
/// characters that are trimmed from the ends of a line.
pub open spec fn is_space(c: char) -> bool {
    ||| '\u{9}' <= c <= '\u{D}'
    ||| c == ' '
    ||| c == '\u{85}'
    ||| c == '\u{A0}'
    ||| c == '\u{1680}'
    ||| '\u{2000}' <= c <= '\u{200A}'
    ||| c == '\u{2028}'
    ||| c == '\u{2029}'
    ||| c == '\u{202F}'
    ||| c == '\u{205F}'
    ||| c == '\u{3000}'
}

/// Whether the character separates words: space, horizontal tab, line feed,
/// form feed or carriage return.
pub open spec fn is_ascii_space(c: char) -> bool {
    c == ' ' || c == '\u{9}' || c == '\u{A}' || c == '\u{C}' || c == '\u{D}'
}

/// The least index from `from` on that holds no white space, or the length
/// of the text if there is none.
pub open spec fn leading_end(text: Seq<char>, from: int) -> int
    decreases text.len() - from,
{
    if 0 <= from < text.len() && is_space(text[from]) {
        leading_end(text, from + 1)
    } else {
        from
    }
}

/// The greatest index up to `to` below which the text holds no white
/// space directly, or 0 if there is none.
pub open spec fn trailing_start(text: Seq<char>, to: int) -> int
    decreases to,
{
    if 0 < to <= text.len() && is_space(text[to - 1]) {
        trailing_start(text, to - 1)
    } else {
        to
    }
}

/// The text without the white space at its two ends.
pub open spec fn trimmed(text: Seq<char>) -> Seq<char> {
    let from = leading_end(text, 0);
    let to = trailing_start(text, text.len() as int);
    if from < to {
        text.subrange(from, to)
    } else {
        Seq::empty()
    }
}

/// Where the word starts that follows index `from`: the least index from
/// `from` on that holds no separator, or the length of the text.
pub open spec fn word_start(text: Seq<char>, from: int) -> int
    decreases text.len() - from,
{
    if 0 <= from < text.len() && is_ascii_space(text[from]) {
        word_start(text, from + 1)
    } else {
        from
    }
}

/// Where the word ends that starts at index `from`: the least index from
/// `from` on that holds a separator, or the length of the text.
pub open spec fn word_end(text: Seq<char>, from: int) -> int
    decreases text.len() - from,
{
    if 0 <= from < text.len() && !is_ascii_space(text[from]) {
        word_end(text, from + 1)
    } else {
        from
    }
}

/// The first word found from index `from` on, if there is one.
pub open spec fn word_from(text: Seq<char>, from: int) -> Option<Seq<char>> {
    let start = word_start(text, from);
    if start < text.len() {
        Some(text.subrange(start, word_end(text, start)))
    } else {
        None
    }
}

/// What `leading_end` finds: only white space lies before it, and none
/// lies at it.
pub proof fn lemma_leading_end(text: Seq<char>, from: int)
    requires
        0 <= from <= text.len(),
    ensures
        from <= leading_end(text, from) <= text.len(),
        forall|i: int| from <= i < leading_end(text, from) ==> is_space(#[trigger] text[i]),
        leading_end(text, from) < text.len() ==> !is_space(text[leading_end(text, from)]),
    decreases text.len() - from,
{
    if from < text.len() && is_space(text[from]) {
        lemma_leading_end(text, from + 1);
    }
}

/// What `trailing_start` finds: only white space lies from it on, and none
/// lies directly before it.
pub proof fn lemma_trailing_start(text: Seq<char>, to: int)
    requires
        0 <= to <= text.len(),
    ensures
        0 <= trailing_start(text, to) <= to,
        forall|i: int| trailing_start(text, to) <= i < to ==> is_space(#[trigger] text[i]),
        trailing_start(text, to) > 0 ==> !is_space(text[trailing_start(text, to) - 1]),
    decreases to,
{
    if 0 < to && is_space(text[to - 1]) {
        lemma_trailing_start(text, to - 1);
    }
}

/// What `word_start` finds: only separators lie before it, and none lies
/// at it.
pub proof fn lemma_word_start(text: Seq<char>, from: int)
    requires
        0 <= from <= text.len(),
    ensures
        from <= word_start(text, from) <= text.len(),
        forall|i: int| from <= i < word_start(text, from) ==> is_ascii_space(#[trigger] text[i]),
        word_start(text, from) < text.len() ==> !is_ascii_space(text[word_start(text, from)]),
    decreases text.len() - from,
{
    if from < text.len() && is_ascii_space(text[from]) {
        lemma_word_start(text, from + 1);
    }
}

/// What `word_end` finds: no separator lies before it, and one lies at it
/// unless the text ends there.
pub proof fn lemma_word_end(text: Seq<char>, from: int)
    requires
        0 <= from <= text.len(),
    ensures
        from <= word_end(text, from) <= text.len(),
        forall|i: int| from <= i < word_end(text, from) ==> !is_ascii_space(#[trigger] text[i]),
        word_end(text, from) < text.len() ==> is_ascii_space(text[word_end(text, from)]),
        from < text.len() && !is_ascii_space(text[from]) ==> from < word_end(text, from),
    decreases text.len() - from,
{
    if from < text.len() && !is_ascii_space(text[from]) {
        lemma_word_end(text, from + 1);
    }
}

/// A trimmed text neither starts nor ends with white space.
pub proof fn lemma_trimmed_ends(text: Seq<char>)
    ensures
        trimmed(text).len() > 0 ==> !is_space(trimmed(text).first()) && !is_space(
            trimmed(text).last(),
        ),
{
    lemma_leading_end(text, 0);
    lemma_trailing_start(text, text.len() as int);
}

/// A word that is found is not empty and holds no separator.
pub proof fn lemma_word_found(text: Seq<char>, from: int)
    requires
        0 <= from <= text.len(),
    ensures
        word_from(text, from) matches Some(word) ==> word.len() > 0 && forall|i: int|
            0 <= i < word.len() ==> !is_ascii_space(#[trigger] word[i]),
{
    lemma_word_start(text, from);
    lemma_word_end(text, word_start(text, from));
}

/// Whether the character is white space.
pub fn char_is_space(c: char) -> (space: bool)
    ensures
        space == is_space(c),
{
    ('\u{9}' <= c && c <= '\u{D}') || c == ' ' || c == '\u{85}' || c == '\u{A0}' || c == '\u{1680}'
        || ('\u{2000}' <= c && c <= '\u{200A}') || c == '\u{2028}' || c == '\u{2029}' || c
        == '\u{202F}' || c == '\u{205F}' || c == '\u{3000}'
}

/// Whether the character separates words.
pub fn char_is_ascii_space(c: char) -> (space: bool)
    ensures
        space == is_ascii_space(c),
{
    c == ' ' || c == '\u{9}' || c == '\u{A}' || c == '\u{C}' || c == '\u{D}'
}

/// Finds the first index from `from` on that holds no white space.
fn find_leading_end(text: &Vec<char>, from: usize) -> (end: usize)
    requires
        from <= text.len(),
    ensures
        end == leading_end(text@, from as int),
        from <= end <= text.len(),
{
    let mut i: usize = from;
    while i < text.len() && char_is_space(text[i])
        invariant
            from <= i <= text.len(),
            leading_end(text@, from as int) == leading_end(text@, i as int),
        decreases text.len() - i,
    {
        i = i + 1;
    }
    i
}

/// Finds the last index up to `to` that has no white space directly before
/// it.
fn find_trailing_start(text: &Vec<char>, to: usize) -> (start: usize)
    requires
        to <= text.len(),
    ensures
        start == trailing_start(text@, to as int),
        start <= to,
{
    let mut i: usize = to;
    while i > 0 && char_is_space(text[i - 1])
        invariant
            i <= to <= text.len(),
            trailing_start(text@, to as int) == trailing_start(text@, i as int),
        decreases i,
    {
        i = i - 1;
    }
    i
}

/// The text without the white space at its two ends.
pub fn trim(text: &str) -> (line: &str)
    ensures
        line@ == trimmed(text@),
        line@.len() > 0 ==> !is_space(line@.first()) && !is_space(line@.last()),
{
    proof {
        lemma_trimmed_ends(text@);
    }
    let chars = chars_of(text);
    let from = find_leading_end(&chars, 0);
    let to = find_trailing_start(&chars, chars.len());
    if from < to {
        text.substring_char(from, to)
    } else {
        text.substring_char(0, 0)
    }
}

/// Finds where the word starts that follows index `from`: the result is
/// the length of the text if no word follows.
pub fn find_word_start(text: &Vec<char>, from: usize) -> (start: usize)
    requires
        from <= text.len(),
    ensures
        start == word_start(text@, from as int),
        from <= start <= text.len(),
        forall|i: int| from <= i < start ==> is_ascii_space(#[trigger] text[i]),
        start < text.len() ==> !is_ascii_space(text[start as int]),
{
    proof {
        lemma_word_start(text@, from as int);
    }
    let mut i: usize = from;
    while i < text.len() && char_is_ascii_space(text[i])
        invariant
            from <= i <= text.len(),
            word_start(text@, from as int) == word_start(text@, i as int),
        decreases text.len() - i,
    {
        i = i + 1;
    }
    i
}

/// Finds where the word ends that starts at index `from`.
pub fn find_word_end(text: &Vec<char>, from: usize) -> (end: usize)
    requires
        from <= text.len(),
    ensures
        end == word_end(text@, from as int),
        from <= end <= text.len(),
        forall|i: int| from <= i < end ==> !is_ascii_space(#[trigger] text[i]),
        end < text.len() ==> is_ascii_space(text[end as int]),
        from < text.len() && !is_ascii_space(text[from as int]) ==> from < end,
{
    proof {
        lemma_word_end(text@, from as int);
    }
    let mut i: usize = from;
    while i < text.len() && !char_is_ascii_space(text[i])
        invariant
            from <= i <= text.len(),
            word_end(text@, from as int) == word_end(text@, i as int),
        decreases text.len() - i,
    {
        i = i + 1;
    }
    i
}

} // verus!
