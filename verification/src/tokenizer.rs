//! Splitting an input line into whitespace-delimited words.

use vstd::prelude::*;

verus! {

/// The characters that separate words: space, tab and newline.
pub open spec fn is_whitespace(c: char) -> bool {
    c == ' ' || c == '\t' || c == '\n'
}

/// Whether `w` can be a word: it is not empty and holds no whitespace.
pub open spec fn is_word(w: Seq<char>) -> bool {
    w.len() >= 1 && forall|k: int| 0 <= k < w.len() ==> !is_whitespace(#[trigger] w[k])
}

/// The length of the longest prefix of `s` that holds no whitespace.
pub open spec fn word_len(s: Seq<char>) -> nat
    decreases s.len(),
{
    if s.len() == 0 || is_whitespace(s[0]) {
        0
    } else {
        1 + word_len(s.drop_first())
    }
}

/// The words of `s`, in the order in which they occur: the maximal runs of
/// characters that are not whitespace.
pub open spec fn split_words(s: Seq<char>) -> Seq<Seq<char>>
    decreases s.len(),
    via split_words_decreases
{
    if s.len() == 0 {
        Seq::empty()
    } else if is_whitespace(s[0]) {
        split_words(s.drop_first())
    } else {
        seq![s.take(word_len(s) as int)] + split_words(s.skip(word_len(s) as int))
    }
}

#[via_fn]
proof fn split_words_decreases(s: Seq<char>) {
    if s.len() > 0 && !is_whitespace(s[0]) {
        lemma_word_len_bounds(s);
    }
}

/// The contents of a vector of strings, as sequences of characters.
pub open spec fn words_of(v: Seq<String>) -> Seq<Seq<char>> {
    Seq::new(v.len(), |i: int| v[i]@)
}

/// A word is no longer than the text it starts, and not empty where the text
/// starts with a character that is not whitespace.
pub proof fn lemma_word_len_bounds(s: Seq<char>)
    ensures
        word_len(s) <= s.len(),
        s.len() > 0 && !is_whitespace(s[0]) ==> word_len(s) >= 1,
    decreases s.len(),
{
    if s.len() > 0 && !is_whitespace(s[0]) {
        lemma_word_len_bounds(s.drop_first());
    }
}

/// The first `word_len(s)` characters of `s` hold no whitespace, and the
/// character after them, if there is one, is whitespace.
pub proof fn lemma_word_len_is_maximal(s: Seq<char>)
    ensures
        word_len(s) <= s.len(),
        forall|k: int| 0 <= k < word_len(s) ==> !is_whitespace(#[trigger] s[k]),
        word_len(s) < s.len() ==> is_whitespace(s[word_len(s) as int]),
    decreases s.len(),
{
    if s.len() > 0 && !is_whitespace(s[0]) {
        let t = s.drop_first();
        lemma_word_len_is_maximal(t);
        assert forall|k: int| 0 <= k < word_len(s) implies !is_whitespace(#[trigger] s[k]) by {
            if k > 0 {
                assert(s[k] == t[k - 1]);
            }
        }
        if word_len(s) < s.len() {
            assert(s[word_len(s) as int] == t[word_len(t) as int]);
        }
    }
}

/// A run of `n` characters without whitespace that ends the text, or is
/// followed by whitespace, is the first word.
pub proof fn lemma_word_len_of_run(s: Seq<char>, n: nat)
    requires
        n <= s.len(),
        forall|k: int| 0 <= k < n ==> !is_whitespace(#[trigger] s[k]),
        n < s.len() ==> is_whitespace(s[n as int]),
    ensures
        word_len(s) == n,
    decreases n,
{
    if n > 0 {
        let t = s.drop_first();
        assert forall|k: int| 0 <= k < n - 1 implies !is_whitespace(#[trigger] t[k]) by {
            assert(t[k] == s[k + 1]);
        }
        if n < s.len() {
            assert(t[n - 1] == s[n as int]);
        }
        lemma_word_len_of_run(t, (n - 1) as nat);
    }
}

/// The test that a character belongs to a word.
pub open spec fn in_word() -> spec_fn(char) -> bool {
    |c: char| !is_whitespace(c)
}

/// A line that holds nothing but whitespace has no words. The empty line is
/// such a line.
pub proof fn lemma_blank_line_has_no_words(s: Seq<char>)
    requires
        forall|k: int| 0 <= k < s.len() ==> is_whitespace(#[trigger] s[k]),
    ensures
        split_words(s) == Seq::<Seq<char>>::empty(),
    decreases s.len(),
{
    if s.len() > 0 {
        let t = s.drop_first();
        assert forall|k: int| 0 <= k < t.len() implies is_whitespace(#[trigger] t[k]) by {
            assert(t[k] == s[k + 1]);
        }
        lemma_blank_line_has_no_words(t);
    }
}

/// A line with a character that is not whitespace has at least one word.
pub proof fn lemma_other_line_has_words(s: Seq<char>, k: int)
    requires
        0 <= k < s.len(),
        !is_whitespace(s[k]),
    ensures
        split_words(s).len() >= 1,
    decreases s.len(),
{
    if is_whitespace(s[0]) {
        assert(s.drop_first()[k - 1] == s[k]);
        lemma_other_line_has_words(s.drop_first(), k - 1);
    }
}

/// No word is empty, and no word holds whitespace.
pub proof fn lemma_words_hold_no_whitespace(s: Seq<char>)
    ensures
        forall|i: int| 0 <= i < split_words(s).len() ==> is_word(#[trigger] split_words(s)[i]),
    decreases s.len(),
{
    if s.len() == 0 {
        assert(split_words(s).len() == 0);
    } else if is_whitespace(s[0]) {
        lemma_words_hold_no_whitespace(s.drop_first());
        assert(split_words(s) == split_words(s.drop_first()));
    } else {
        let n = word_len(s) as int;
        let rest = split_words(s.skip(n));
        lemma_word_len_bounds(s);
        lemma_word_len_is_maximal(s);
        lemma_words_hold_no_whitespace(s.skip(n));
        assert(split_words(s) == seq![s.take(n)] + rest);
        assert forall|i: int| 0 <= i < split_words(s).len() implies is_word(
            #[trigger] split_words(s)[i],
        ) by {
            if i > 0 {
                assert(split_words(s)[i] == rest[i - 1]);
            } else {
                assert forall|k: int| 0 <= k < n implies !is_whitespace(
                    #[trigger] s.take(n)[k],
                ) by {
                    assert(s.take(n)[k] == s[k]);
                }
            }
        }
    }
}

/// The words, put end to end, are the line without its whitespace: every
/// other character is kept, in its place, and none is added.
pub proof fn lemma_words_keep_the_text(s: Seq<char>)
    ensures
        split_words(s).flatten() == s.filter(in_word()),
    decreases s.len(),
{
    if s.len() == 0 {
    } else if is_whitespace(s[0]) {
        let t = s.drop_first();
        lemma_words_keep_the_text(t);
        assert(s =~= seq![s[0]] + t);
        Seq::filter_distributes_over_add(seq![s[0]], t, in_word());
        Seq::<char>::empty().lemma_filter_push(s[0], in_word());
        reveal(Seq::filter);
        assert(Seq::<char>::empty().push(s[0]) =~= seq![s[0]]);
        assert(seq![s[0]].filter(in_word()) =~= Seq::<char>::empty());
        assert(s.filter(in_word()) =~= t.filter(in_word()));
    } else {
        let n = word_len(s) as int;
        let words = split_words(s);
        lemma_word_len_bounds(s);
        lemma_word_len_is_maximal(s);
        lemma_words_keep_the_text(s.skip(n));
        assert(s =~= s.take(n) + s.skip(n));
        Seq::filter_distributes_over_add(s.take(n), s.skip(n), in_word());
        lemma_filter_keeps_word(s.take(n));
        assert(words.first() == s.take(n));
        assert(words.drop_first() =~= split_words(s.skip(n)));
    }
}

/// A text without whitespace is kept whole.
proof fn lemma_filter_keeps_word(w: Seq<char>)
    requires
        forall|k: int| 0 <= k < w.len() ==> !is_whitespace(#[trigger] w[k]),
    ensures
        w.filter(in_word()) == w,
    decreases w.len(),
{
    reveal(Seq::filter);
    if w.len() > 0 {
        let init = w.drop_last();
        assert forall|k: int| 0 <= k < init.len() implies !is_whitespace(#[trigger] init[k]) by {
            assert(init[k] == w[k]);
        }
        lemma_filter_keeps_word(init);
        assert(!is_whitespace(w[w.len() - 1]));
        assert(w.filter(in_word()) == init.filter(in_word()).push(w.last()));
        assert(init.push(w.last()) =~= w);
    }
}

/// A word, then whitespace, then more text: the words are that word and
/// those of the text after it.
pub proof fn lemma_split_after_word(w: Seq<char>, c: char, rest: Seq<char>)
    requires
        is_word(w),
        is_whitespace(c),
    ensures
        split_words(w + seq![c] + rest) == seq![w] + split_words(rest),
{
    let s = w + seq![c] + rest;
    assert(s[0] == w[0]);
    assert forall|k: int| 0 <= k < w.len() implies !is_whitespace(#[trigger] s[k]) by {
        assert(s[k] == w[k]);
    }
    assert(s[w.len() as int] == c);
    lemma_word_len_of_run(s, w.len());
    assert(s.take(w.len() as int) =~= w);
    let t = s.skip(w.len() as int);
    assert(t =~= seq![c] + rest);
    assert(t.drop_first() =~= rest);
    assert(split_words(t) == split_words(rest));
    assert(split_words(s) == seq![s.take(w.len() as int)] + split_words(t));
}

/// A word that ends the line is the line's only word.
pub proof fn lemma_split_last_word(w: Seq<char>)
    requires
        is_word(w),
    ensures
        split_words(w) == seq![w],
{
    lemma_word_len_of_run(w, w.len());
    assert(w.take(w.len() as int) =~= w);
    assert(w.skip(w.len() as int) =~= Seq::<char>::empty());
    assert(split_words(Seq::<char>::empty()) == Seq::<Seq<char>>::empty());
    assert(seq![w] + Seq::<Seq<char>>::empty() =~= seq![w]);
}

/// Whitespace before the first word changes nothing.
pub proof fn lemma_split_after_whitespace(c: char, rest: Seq<char>)
    requires
        is_whitespace(c),
    ensures
        split_words(seq![c] + rest) == split_words(rest),
{
    let s = seq![c] + rest;
    assert(s.drop_first() =~= rest);
}

/// The line that holds `words` with one space between each two of them.
pub open spec fn join_words(words: Seq<Seq<char>>) -> Seq<char>
    decreases words.len(),
{
    if words.len() == 0 {
        Seq::empty()
    } else if words.len() == 1 {
        words[0]
    } else {
        words[0] + seq![' '] + join_words(words.drop_first())
    }
}

/// Words that are written on a line with a space between them are the words
/// of that line.
pub proof fn lemma_split_of_joined(words: Seq<Seq<char>>)
    requires
        forall|i: int| 0 <= i < words.len() ==> is_word(#[trigger] words[i]),
    ensures
        split_words(join_words(words)) == words,
    decreases words.len(),
{
    if words.len() == 0 {
    } else if words.len() == 1 {
        lemma_split_last_word(words[0]);
        assert(seq![words[0]] =~= words);
    } else {
        let rest = words.drop_first();
        assert forall|i: int| 0 <= i < rest.len() implies is_word(#[trigger] rest[i]) by {
            assert(rest[i] == words[i + 1]);
        }
        lemma_split_of_joined(rest);
        lemma_split_after_word(words[0], ' ', join_words(rest));
        assert(seq![words[0]] + rest =~= words);
    }
}

/// Splitting a line, writing its words with single spaces and splitting
/// again gives the same words.
pub proof fn lemma_split_is_stable(s: Seq<char>)
    ensures
        split_words(join_words(split_words(s))) == split_words(s),
{
    lemma_words_hold_no_whitespace(s);
    lemma_split_of_joined(split_words(s));
}

/// Tells whether `c` separates words.
pub fn is_separator(c: char) -> (b: bool)
    ensures
        b == is_whitespace(c),
{
    c == ' ' || c == '\t' || c == '\n'
}

/// Splits a line into its words. Leading and trailing whitespace is dropped,
/// a run of whitespace separates two words as a single character does, and
/// no character has a special meaning: there is no quoting and no escaping.
pub fn tokenize(input: &str) -> (tokens: Vec<String>)
    ensures
        words_of(tokens@) == split_words(input@),
{
    let n: usize = input.unicode_len();
    let mut tokens: Vec<String> = Vec::new();
    let mut i: usize = 0;
    proof {
        assert(input@.skip(0) =~= input@);
        assert(words_of(tokens@) =~= Seq::<Seq<char>>::empty());
    }
    while i < n
        invariant
            n == input@.len(),
            i <= n,
            split_words(input@) == words_of(tokens@) + split_words(input@.skip(i as int)),
        decreases n - i,
    {
        let ghost rest = input@.skip(i as int);
        let c: char = input.get_char(i);
        if is_separator(c) {
            proof {
                assert(rest.drop_first() =~= input@.skip(i + 1));
            }
            i = i + 1;
        } else {
            let start: usize = i;
            let mut end: usize = i + 1;
            while end < n && !is_separator(input.get_char(end))
                invariant
                    n == input@.len(),
                    start < end <= n,
                    forall|k: int| start <= k < end ==> !is_whitespace(#[trigger] input@[k]),
                decreases n - end,
            {
                end = end + 1;
            }
            let word: String = input.substring_char(start, end).to_owned();
            proof {
                let len = (end - start) as nat;
                lemma_word_len_of_run(rest, len);
                assert(rest.take(len as int) =~= input@.subrange(start as int, end as int));
                assert(rest.skip(len as int) =~= input@.skip(end as int));
                assert(words_of(tokens@.push(word)) =~= words_of(tokens@) + seq![word@]);
            }
            tokens.push(word);
            i = end;
        }
    }
    proof {
        assert(input@.skip(n as int) =~= Seq::<char>::empty());
    }
    tokens
}

} // verus!
