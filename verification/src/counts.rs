//! Measures of a text: its characters, its words, and whether it is blank.

use vstd::prelude::*;
use crate::editor::CustomTextView;

verus! {

/// Whether `c` is white space: one of the characters that Unicode marks
/// as `White_Space`.
pub open spec fn is_whitespace(c: char) -> bool {
    let u = c as u32;
    ||| 0x09 <= u <= 0x0D
    ||| u == 0x20
    ||| u == 0x85
    ||| u == 0xA0
    ||| u == 0x1680
    ||| 0x2000 <= u <= 0x200A
    ||| u == 0x2028
    ||| u == 0x2029
    ||| u == 0x202F
    ||| u == 0x205F
    ||| u == 0x3000
}

/// Whether a word starts at index `i` of `s`: a character that is no white
/// space, at the start of the text or after white space.
pub open spec fn word_starts_at(s: Seq<char>, i: int) -> bool {
    &&& 0 <= i < s.len()
    &&& !is_whitespace(s[i])
    &&& (i == 0 || is_whitespace(s[i - 1]))
}

/// The number of words in `s`: the number of indices at which a word
/// starts. A word is a longest run of characters that are no white space.
pub open spec fn words_in(s: Seq<char>) -> nat
    decreases s.len(),
{
    if s.len() == 0 {
        0
    } else if word_starts_at(s, s.len() - 1) {
        words_in(s.drop_last()) + 1
    } else {
        words_in(s.drop_last())
    }
}

/// Whether `s` is blank: empty, or white space throughout.
pub open spec fn is_blank(s: Seq<char>) -> bool {
    forall|i: int| 0 <= i < s.len() ==> is_whitespace(#[trigger] s[i])
}

/// A blank text has no words, and a text without words is blank.
pub proof fn lemma_blank_means_no_words(s: Seq<char>)
    ensures
        is_blank(s) <==> words_in(s) == 0,
    decreases s.len(),
{
    if s.len() > 0 {
        let head = s.drop_last();
        lemma_blank_means_no_words(head);
        if is_blank(s) {
            assert forall|i: int| 0 <= i < head.len() implies is_whitespace(
                #[trigger] head[i],
            ) by {
                assert(head[i] == s[i]);
            }
            assert(is_whitespace(s[s.len() - 1]));
        }
        if words_in(s) == 0 {
            assert(words_in(head) == 0);
            assert(!word_starts_at(s, s.len() - 1));
            if s.len() == 1 {
                assert(is_whitespace(s[0]));
            } else {
                assert(is_whitespace(head[head.len() - 1]));
                assert(head[head.len() - 1] == s[s.len() - 2]);
                assert(is_whitespace(s[s.len() - 1]));
            }
            assert forall|i: int| 0 <= i < s.len() implies is_whitespace(#[trigger] s[i]) by {
                if i < head.len() {
                    assert(head[i] == s[i]);
                }
            }
        }
    }
}

/// Whether `c` is white space.
pub fn char_is_whitespace(c: char) -> (white: bool)
    ensures
        white == is_whitespace(c),
{
    let u: u32 = c as u32;
    (0x09 <= u && u <= 0x0D) || u == 0x20 || u == 0x85 || u == 0xA0 || u == 0x1680 || (0x2000 <= u
        && u <= 0x200A) || u == 0x2028 || u == 0x2029 || u == 0x202F || u == 0x205F || u == 0x3000
}

impl CustomTextView {
    /// The number of characters in `text`.
    pub fn char_count(text: &str) -> (count: usize)
        ensures
            count == text@.len(),
    {
        text.unicode_len()
    }

    /// The number of words in `text`, where white space separates words.
    pub fn word_count(text: &str) -> (count: usize)
        ensures
            count == words_in(text@),
    {
        broadcast use vstd::string::group_string_axioms;

        // There are at most as many words as characters, so the count fits.
        let total: usize = text.unicode_len();
        let mut count: usize = 0;
        let mut in_word: bool = false;
        for c in iter: text.chars()
            invariant
                iter.seq() == text@,
                total == text@.len(),
                count == words_in(text@.take(iter.index() as int)),
                count <= iter.index(),
                in_word == (iter.index() > 0 && !is_whitespace(text@[iter.index() - 1])),
        {
            let ghost at: int = iter.index() as int;
            let white: bool = char_is_whitespace(c);
            proof {
                let next = text@.take(at + 1);
                assert(next.drop_last() =~= text@.take(at));
                assert(next[at] == c);
                if at > 0 {
                    assert(next[at - 1] == text@[at - 1]);
                }
                assert(word_starts_at(next, at) == (!white && !in_word));
            }
            if !white && !in_word {
                count = count + 1;
            }
            in_word = !white;
        }
        assert(text@.take(text@.len() as int) =~= text@);
        count
    }
}

/// Whether `text` is blank: empty, or white space throughout.
pub fn text_is_blank(text: &str) -> (blank: bool)
    ensures
        blank == is_blank(text@),
{
    broadcast use vstd::string::group_string_axioms;

    for c in iter: text.chars()
        invariant
            iter.seq() == text@,
            forall|i: int| 0 <= i < iter.index() ==> is_whitespace(#[trigger] text@[i]),
    {
        if !char_is_whitespace(c) {
            assert(!is_whitespace(text@[iter.index() as int]));
            return false;
        }
    }
    true
}

} // verus!
