//! Rewriting of sysconfig values, so that a value recorded for one
//! interpreter layout describes another.
//!
//! A value is either replaced as a whole, or word by word: the value is cut
//! into its whitespace-separated words, every word equal to a given one is
//! exchanged, and the words are joined again with single spaces.

use vstd::prelude::*;
use vstd::string::StringExecFns;
use crate::chars::{chars_of, char_is_whitespace, is_whitespace, push_char};

verus! {

/// The index of the first whitespace character of `s` at or after `i`, or
/// the length of `s` if there is none: where a word that reaches `i` ends.
pub open spec fn word_end(s: Seq<char>, i: int) -> int
    decreases s.len() - i,
{
    if 0 <= i < s.len() && !is_whitespace(s[i]) {
        word_end(s, i + 1)
    } else {
        i
    }
}

/// A word never ends before the index it is looked for from, nor after the
/// end of the text.
pub proof fn lemma_word_end_bounds(s: Seq<char>, i: int)
    requires
        0 <= i <= s.len(),
    ensures
        i <= word_end(s, i) <= s.len(),
    decreases s.len() - i,
{
    if i < s.len() && !is_whitespace(s[i]) {
        lemma_word_end_bounds(s, i + 1);
    }
}

/// The words of `s` that start at or after `i`, in order. A word is a
/// maximal run of characters that are not whitespace.
pub open spec fn words_from(s: Seq<char>, i: int) -> Seq<Seq<char>>
    decreases s.len() - i,
{
    if i < 0 || i >= s.len() {
        Seq::empty()
    } else if is_whitespace(s[i]) {
        words_from(s, i + 1)
    } else {
        proof {
            lemma_word_end_bounds(s, i + 1);
        }
        let end = word_end(s, i + 1);
        seq![s.subrange(i, end)] + words_from(s, end)
    }
}

/// The whitespace-separated words of `s`, in order. Leading, trailing and
/// repeated whitespace yields no empty word.
pub open spec fn words(s: Seq<char>) -> Seq<Seq<char>> {
    words_from(s, 0)
}

/// The words joined into one text, with a single space between neighbours.
pub open spec fn join_words(ws: Seq<Seq<char>>) -> Seq<char>
    decreases ws.len(),
{
    if ws.len() == 0 {
        Seq::empty()
    } else if ws.len() == 1 {
        ws[0]
    } else {
        join_words(ws.drop_last()) + seq![' '] + ws.last()
    }
}

/// The word that stands in the patched value for `word`: `to` where the word
/// equals `from`, the word itself otherwise.
pub open spec fn replace_word(word: Seq<char>, from: Seq<char>, to: Seq<char>) -> Seq<char> {
    if word == from {
        to
    } else {
        word
    }
}

/// Every word equal to `from` exchanged for `to`, the others kept, in order.
pub open spec fn replace_words(ws: Seq<Seq<char>>, from: Seq<char>, to: Seq<char>) -> Seq<
    Seq<char>,
> {
    ws.map_values(|w: Seq<char>| replace_word(w, from, to))
}

/// The result of a word-by-word replacement in `original`.
pub open spec fn patch_words(original: Seq<char>, from: Seq<char>, to: Seq<char>) -> Seq<char> {
    join_words(replace_words(words(original), from, to))
}

/// Replacement mode for sysconfig values.
#[derive(Debug)]
pub enum ReplacementMode {
    /// Replace each word equal to `from`.
    Partial { from: String },
    /// Replace the whole value.
    Full,
}

/// A replacement entry to patch in sysconfig data.
#[derive(Debug)]
pub struct ReplacementEntry {
    pub mode: ReplacementMode,
    pub to: String,
}

impl ReplacementEntry {
    /// The value that this entry turns `original` into.
    pub open spec fn patched(&self, original: Seq<char>) -> Seq<char> {
        match self.mode {
            ReplacementMode::Full => self.to@,
            ReplacementMode::Partial { from } => patch_words(original, from@, self.to@),
        }
    }

    /// Patches a sysconfig value either partially (replacing a specific word) or fully.
    ///
    /// A full replacement ignores `entry` and returns `to`. A partial one
    /// returns the words of `entry` joined by single spaces, with `to` in
    /// place of each word equal to `from`; the spacing of `entry` is not kept.
    pub fn patch(&self, entry: &str) -> (patched: String)
        ensures
            patched@ == self.patched(entry@),
    {
        match &self.mode {
            ReplacementMode::Partial { from } => replace_in_words(
                entry,
                from.as_str(),
                self.to.as_str(),
            ),
            ReplacementMode::Full => self.to.clone(),
        }
    }
}

/// A full replacement yields `to`, whatever the value was, the empty value
/// included.
pub proof fn lemma_full_replacement_ignores_the_value(entry: ReplacementEntry, original: Seq<char>)
    requires
        entry.mode is Full,
    ensures
        entry.patched(original) == entry.to@,
{
}

/// A partial replacement in the empty value yields the empty value.
pub proof fn lemma_partial_replacement_of_nothing(from: Seq<char>, to: Seq<char>)
    ensures
        patch_words(Seq::empty(), from, to) == Seq::<char>::empty(),
{
    assert(words(Seq::empty()) =~= Seq::<Seq<char>>::empty());
    assert(replace_words(Seq::empty(), from, to) =~= Seq::<Seq<char>>::empty());
}

/// A partial replacement in a value that holds no word equal to `from`
/// yields the words of the value joined by single spaces: the words are
/// kept, the spacing is not.
pub proof fn lemma_partial_replacement_without_match(
    original: Seq<char>,
    from: Seq<char>,
    to: Seq<char>,
)
    requires
        forall|k: int| 0 <= k < words(original).len() ==> words(original)[k] != from,
    ensures
        patch_words(original, from, to) == join_words(words(original)),
{
    assert(replace_words(words(original), from, to) =~= words(original));
}

/// A partial replacement keeps the number of words: each word of the value
/// gives one word of the result, `to` where it equals `from` and itself
/// otherwise.
pub proof fn lemma_partial_replacement_word_by_word(
    original: Seq<char>,
    from: Seq<char>,
    to: Seq<char>,
    k: int,
)
    requires
        0 <= k < words(original).len(),
    ensures
        replace_words(words(original), from, to).len() == words(original).len(),
        words(original)[k] == from ==> replace_words(words(original), from, to)[k] == to,
        words(original)[k] != from ==> replace_words(words(original), from, to)[k] == words(
            original,
        )[k],
{
}

/// From `i` up to where the word ends there is no whitespace, and what
/// follows the word, if anything, is whitespace.
pub proof fn lemma_word_end_closes_a_word(s: Seq<char>, i: int)
    requires
        0 <= i <= s.len(),
    ensures
        forall|j: int| i <= j < word_end(s, i) ==> !is_whitespace(#[trigger] s[j]),
        word_end(s, i) < s.len() ==> is_whitespace(s[word_end(s, i)]),
    decreases s.len() - i,
{
    if i < s.len() && !is_whitespace(s[i]) {
        lemma_word_end_closes_a_word(s, i + 1);
    }
}

/// No word is empty, and no word holds whitespace.
pub proof fn lemma_words_hold_no_whitespace(s: Seq<char>, i: int, k: int)
    requires
        0 <= i <= s.len(),
        0 <= k < words_from(s, i).len(),
    ensures
        words_from(s, i)[k].len() > 0,
        forall|j: int|
            0 <= j < words_from(s, i)[k].len() ==> !is_whitespace(#[trigger] words_from(s, i)[k][j]),
    decreases s.len() - i,
{
    if i < s.len() {
        if is_whitespace(s[i]) {
            lemma_words_hold_no_whitespace(s, i + 1, k);
        } else {
            let end = word_end(s, i + 1);
            lemma_word_end_bounds(s, i + 1);
            lemma_word_end_closes_a_word(s, i + 1);
            if k == 0 {
                assert(words_from(s, i)[0] == s.subrange(i, end));
                assert forall|j: int| 0 <= j < s.subrange(i, end).len() implies !is_whitespace(
                    #[trigger] s.subrange(i, end)[j],
                ) by {
                    assert(s.subrange(i, end)[j] == s[i + j]);
                }
            } else {
                assert(words_from(s, i)[k] == words_from(s, end)[k - 1]);
                lemma_words_hold_no_whitespace(s, end, k - 1);
            }
        }
    }
}

/// A value without whitespace is a single word, unless it is empty.
pub proof fn lemma_text_without_whitespace_is_one_word(s: Seq<char>)
    requires
        s.len() > 0,
        forall|j: int| 0 <= j < s.len() ==> !is_whitespace(#[trigger] s[j]),
    ensures
        words(s) == seq![s],
{
    lemma_word_runs_to_the_end(s, 1);
    assert(s.subrange(0, s.len() as int) =~= s);
    assert(words_from(s, s.len() as int) =~= Seq::<Seq<char>>::empty());
    assert(words(s) =~= seq![s]);
}

/// Where no whitespace follows, a word runs to the end of the value.
pub proof fn lemma_word_runs_to_the_end(s: Seq<char>, i: int)
    requires
        0 <= i <= s.len(),
        forall|j: int| i <= j < s.len() ==> !is_whitespace(#[trigger] s[j]),
    ensures
        word_end(s, i) == s.len(),
    decreases s.len() - i,
{
    if i < s.len() {
        lemma_word_runs_to_the_end(s, i + 1);
    }
}

/// A value of whitespace only has no words, so that a partial replacement
/// in it yields the empty value.
pub proof fn lemma_whitespace_has_no_words(s: Seq<char>, i: int)
    requires
        0 <= i <= s.len(),
        forall|j: int| i <= j < s.len() ==> is_whitespace(#[trigger] s[j]),
    ensures
        words_from(s, i) == Seq::<Seq<char>>::empty(),
    decreases s.len() - i,
{
    if i < s.len() {
        lemma_whitespace_has_no_words(s, i + 1);
    }
}

/// Joining one more word: the first word stands alone, a later one follows
/// a single space.
pub proof fn lemma_join_push(ws: Seq<Seq<char>>, w: Seq<char>)
    ensures
        join_words(ws.push(w)) == if ws.len() == 0 {
            w
        } else {
            join_words(ws) + seq![' '] + w
        },
{
    assert(ws.push(w).drop_last() =~= ws);
    assert(ws.push(w).last() == w);
}

/// Whether the characters of `text` from `start` up to `end` spell `word`.
fn spells(text: &Vec<char>, start: usize, end: usize, word: &Vec<char>) -> (same: bool)
    requires
        start <= end <= text.len(),
    ensures
        same == (text@.subrange(start as int, end as int) == word@),
{
    if end - start != word.len() {
        return false;
    }
    let mut k: usize = 0;
    while k < word.len()
        invariant
            start <= end <= text.len(),
            end - start == word.len(),
            k <= word.len(),
            forall|m: int| 0 <= m < k ==> text@[start + m] == word@[m],
        decreases word.len() - k,
    {
        if text[start + k] != word[k] {
            assert(text@.subrange(start as int, end as int)[k as int] != word@[k as int]);
            return false;
        }
        k += 1;
    }
    assert(text@.subrange(start as int, end as int) =~= word@);
    true
}

/// Cuts `original` into words, exchanges each word equal to `from` for `to`
/// and joins the words with single spaces.
pub fn replace_in_words(original: &str, from: &str, to: &str) -> (patched: String)
    ensures
        patched@ == patch_words(original@, from@, to@),
{
    let text = chars_of(original);
    let word = chars_of(from);
    let n = text.len();
    let mut out = String::new();
    let mut any = false;
    let mut i: usize = 0;
    let ghost mut done: Seq<Seq<char>> = Seq::empty();
    assert(replace_words(done, from@, to@) =~= Seq::empty());
    while i < n
        invariant
            text@ == original@,
            word@ == from@,
            n == text.len(),
            i <= n,
            any == (done.len() > 0),
            done + words_from(text@, i as int) == words(text@),
            out@ == join_words(replace_words(done, from@, to@)),
        decreases n - i,
    {
        if char_is_whitespace(text[i]) {
            i += 1;
        } else {
            let mut j: usize = i + 1;
            while j < n && !char_is_whitespace(text[j])
                invariant
                    n == text.len(),
                    i < j <= n,
                    word_end(text@, j as int) == word_end(text@, i + 1),
                decreases n - j,
            {
                j += 1;
            }
            let ghost token = text@.subrange(i as int, j as int);
            let ghost before = replace_words(done, from@, to@);
            proof {
                assert(word_end(text@, i + 1) == j);
                assert(words_from(text@, i as int) == seq![token] + words_from(text@, j as int));
                assert(done.push(token) + words_from(text@, j as int) =~= done + words_from(
                    text@,
                    i as int,
                ));
                assert(replace_words(done.push(token), from@, to@) =~= before.push(
                    replace_word(token, from@, to@),
                ));
                lemma_join_push(before, replace_word(token, from@, to@));
            }
            if any {
                push_char(&mut out, ' ');
            }
            if spells(&text, i, j, &word) {
                out.append(to);
            } else {
                let ghost base = out@;
                let mut k: usize = i;
                while k < j
                    invariant
                        n == text.len(),
                        i <= k <= j <= n,
                        out@ == base + text@.subrange(i as int, k as int),
                    decreases j - k,
                {
                    push_char(&mut out, text[k]);
                    assert(text@.subrange(i as int, k + 1) =~= text@.subrange(
                        i as int,
                        k as int,
                    ).push(text@[k as int]));
                    k += 1;
                }
            }
            proof {
                done = done.push(token);
            }
            any = true;
            i = j;
        }
    }
    assert(done =~= words(text@));
    out
}

} // verus!
