//! The words of a line of input.
//!
//! A line is read as words parted by blanks. Nothing else has a meaning of
//! its own: a quote or a brace is a character of the word it stands in.

use crate::text::{blank, chars_of, is_blank, string_of};
use crate::views::texts;
use vstd::prelude::*;

verus! {

/// How many characters at the start of `line` belong to its first word:
/// those before the first blank.
pub open spec fn word_len(line: Seq<char>) -> nat
    decreases line.len(),
{
    if line.len() == 0 || is_blank(line[0]) {
        0
    } else {
        1 + word_len(line.drop_first())
    }
}

/// A first word is as long as the line at most, holds no blank, and ends at a
/// blank or at the end of the line.
pub proof fn lemma_word_len(line: Seq<char>)
    ensures
        word_len(line) <= line.len(),
        line.len() > 0 && !is_blank(line[0]) ==> word_len(line) > 0,
        forall|i: int| 0 <= i < word_len(line) ==> !is_blank(#[trigger] line[i]),
        word_len(line) < line.len() ==> is_blank(line[word_len(line) as int]),
    decreases line.len(),
{
    if line.len() == 0 || is_blank(line[0]) {
    } else {
        let rest = line.drop_first();
        lemma_word_len(rest);
        assert forall|i: int| 0 <= i < word_len(line) implies !is_blank(#[trigger] line[i]) by {
            if i > 0 {
                assert(line[i] == rest[i - 1]);
            }
        }
    }
}

/// The words of a line: its longest stretches of characters without a blank,
/// from left to right.
pub open spec fn words(line: Seq<char>) -> Seq<Seq<char>>
    decreases line.len(),
{
    if line.len() == 0 {
        Seq::empty()
    } else if is_blank(line[0]) {
        words(line.drop_first())
    } else {
        proof {
            lemma_word_len(line);
        }
        seq![line.take(word_len(line) as int)] + words(line.skip(word_len(line) as int))
    }
}

/// A word has at least one character and no blank.
pub open spec fn is_word(w: Seq<char>) -> bool {
    w.len() > 0 && forall|i: int| 0 <= i < w.len() ==> !is_blank(#[trigger] w[i])
}

/// Every word of a line is a word.
pub proof fn lemma_words_are_words(line: Seq<char>)
    ensures
        forall|k: int| 0 <= k < words(line).len() ==> is_word(#[trigger] words(line)[k]),
    decreases line.len(),
{
    if line.len() == 0 {
    } else if is_blank(line[0]) {
        lemma_words_are_words(line.drop_first());
        assert(words(line) == words(line.drop_first()));
    } else {
        let n = word_len(line) as int;
        lemma_word_len(line);
        lemma_words_are_words(line.skip(n));
        let first = line.take(n);
        let later = words(line.skip(n));
        assert forall|k: int| 0 <= k < words(line).len() implies is_word(
            #[trigger] words(line)[k],
        ) by {
            if k == 0 {
                assert(words(line)[0] == first);
            } else {
                assert(words(line)[k] == later[k - 1]);
            }
        }
    }
}

/// The words of a list, each parted from the next by one space.
pub open spec fn spaced(ws: Seq<Seq<char>>) -> Seq<char>
    decreases ws.len(),
{
    if ws.len() == 0 {
        Seq::empty()
    } else if ws.len() == 1 {
        ws[0]
    } else {
        ws[0] + seq![' '] + spaced(ws.drop_first())
    }
}

/// A word that is followed by a blank, or by nothing, is a first word.
proof fn lemma_word_len_of_word(w: Seq<char>, tail: Seq<char>)
    requires
        forall|i: int| 0 <= i < w.len() ==> !is_blank(#[trigger] w[i]),
        tail.len() == 0 || is_blank(tail[0]),
    ensures
        word_len(w + tail) == w.len(),
    decreases w.len(),
{
    if w.len() == 0 {
    } else {
        assert((w + tail).drop_first() =~= w.drop_first() + tail);
        assert forall|i: int| 0 <= i < w.drop_first().len() implies !is_blank(
            #[trigger] w.drop_first()[i],
        ) by {
            assert(w.drop_first()[i] == w[i + 1]);
        }
        lemma_word_len_of_word(w.drop_first(), tail);
    }
}

/// Reading undoes writing: a list of words, written out with one space
/// between each two, reads as that list.
pub proof fn lemma_words_of_spaced(ws: Seq<Seq<char>>)
    requires
        forall|k: int| 0 <= k < ws.len() ==> is_word(#[trigger] ws[k]),
    ensures
        words(spaced(ws)) == ws,
    decreases ws.len(),
{
    if ws.len() == 0 {
    } else {
        let first = ws[0];
        let rest = ws.drop_first();
        let tail = if ws.len() == 1 {
            Seq::<char>::empty()
        } else {
            seq![' '] + spaced(rest)
        };
        let line = spaced(ws);
        assert(line =~= first + tail);
        lemma_word_len_of_word(first, tail);
        assert(line.take(first.len() as int) =~= first);
        assert(line.skip(first.len() as int) =~= tail);
        assert forall|k: int| 0 <= k < rest.len() implies is_word(#[trigger] rest[k]) by {
            assert(rest[k] == ws[k + 1]);
        }
        lemma_words_of_spaced(rest);
        if ws.len() > 1 {
            assert(tail.drop_first() =~= spaced(rest));
            assert(words(tail) == words(spaced(rest)));
        }
    }
}

/// Splits a line into its words.
pub fn tokenize(line: &str) -> (r: Vec<String>)
    ensures
        texts(r@) == words(line@),
        forall|k: int| 0 <= k < r@.len() ==> is_word(#[trigger] r@[k]@),
{
    let chars = chars_of(line);
    let n: usize = chars.len();
    let mut out: Vec<String> = Vec::new();
    let mut i: usize = 0;
    assert(chars@.skip(0) =~= chars@);
    while i < n
        invariant
            i <= n,
            n == chars@.len(),
            chars@ == line@,
            words(line@) == texts(out@) + words(chars@.skip(i as int)),
        decreases n - i,
    {
        let ghost tail = chars@.skip(i as int);
        if blank(chars[i]) {
            assert(tail.drop_first() =~= chars@.skip(i + 1));
            i = i + 1;
        } else {
            let start: usize = i;
            proof {
                lemma_word_len(tail);
            }
            while i < n && !blank(chars[i])
                invariant
                    start <= i <= n,
                    n == chars@.len(),
                    tail == chars@.skip(start as int),
                    word_len(tail) == (i - start) + word_len(chars@.skip(i as int)),
                decreases n - i,
            {
                assert(chars@.skip(i as int).drop_first() =~= chars@.skip(i + 1));
                i = i + 1;
            }
            let word = string_of(&chars, start, i);
            assert(tail.take(i - start) =~= chars@.subrange(start as int, i as int));
            assert(tail.skip(i - start) =~= chars@.skip(i as int));
            out.push(word);
        }
    }
    proof {
        lemma_words_are_words(line@);
        assert forall|k: int| 0 <= k < out@.len() implies is_word(#[trigger] out@[k]@) by {
            assert(out@[k]@ == texts(out@)[k]);
        }
    }
    out
}

} // verus!
