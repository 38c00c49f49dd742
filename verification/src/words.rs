//! Splitting a line of text into words at white space, and joining words
//! with single blanks.

use vstd::prelude::*;
use vstd::string::{StrSliceExecFns, StringExecFns};

verus! {

/// Whether `c` is white space, that is, one of the characters that Unicode
/// classes as `White_Space`.
pub open spec fn is_space(c: char) -> bool {
    ||| '\u{9}' <= c <= '\u{d}'
    ||| c == ' '
    ||| c == '\u{85}'
    ||| c == '\u{a0}'
    ||| c == '\u{1680}'
    ||| '\u{2000}' <= c <= '\u{200a}'
    ||| c == '\u{2028}'
    ||| c == '\u{2029}'
    ||| c == '\u{202f}'
    ||| c == '\u{205f}'
    ||| c == '\u{3000}'
}

/// Tests whether `c` is white space.
pub fn is_whitespace(c: char) -> (space: bool)
    ensures
        space == is_space(c),
{
    ('\u{9}' <= c && c <= '\u{d}') || c == ' ' || c == '\u{85}' || c == '\u{a0}' || c
        == '\u{1680}' || ('\u{2000}' <= c && c <= '\u{200a}') || c == '\u{2028}' || c
        == '\u{2029}' || c == '\u{202f}' || c == '\u{205f}' || c == '\u{3000}'
}

/// The number of characters at the front of `s` before its first white
/// space, or all of them if it holds none.
pub open spec fn word_len(s: Seq<char>) -> nat
    decreases s.len(),
{
    if s.len() == 0 || is_space(s[0]) {
        0
    } else {
        1 + word_len(s.drop_first())
    }
}

/// The words of `s`: its maximal runs of characters that are not white
/// space, in the order in which they stand.
pub open spec fn words(s: Seq<char>) -> Seq<Seq<char>>
    decreases s.len(),
    via words_decreases
{
    if s.len() == 0 {
        Seq::empty()
    } else if is_space(s[0]) {
        words(s.drop_first())
    } else {
        seq![s.take(word_len(s) as int)] + words(s.skip(word_len(s) as int))
    }
}

#[via_fn]
proof fn words_decreases(s: Seq<char>) {
    lemma_word_len_bounds(s);
}

/// A word is no longer than the text it starts, and not empty where the
/// text starts with something other than white space.
proof fn lemma_word_len_bounds(s: Seq<char>)
    ensures
        word_len(s) <= s.len(),
        s.len() > 0 && !is_space(s[0]) ==> word_len(s) >= 1,
    decreases s.len(),
{
    if s.len() > 0 && !is_space(s[0]) {
        lemma_word_len_bounds(s.drop_first());
    }
}

/// A run of `n` characters that are not white space, at the front of `s`
/// and followed by white space or by the end of `s`, is the first word.
proof fn lemma_word_len_of_run(s: Seq<char>, n: nat)
    requires
        n <= s.len(),
        forall|k: int| 0 <= k < n ==> !is_space(#[trigger] s[k]),
        n == s.len() || is_space(s[n as int]),
    ensures
        word_len(s) == n,
    decreases n,
{
    if n > 0 {
        let rest = s.drop_first();
        assert forall|k: int| 0 <= k < n - 1 implies !is_space(#[trigger] rest[k]) by {
            assert(rest[k] == s[k + 1]);
        }
        lemma_word_len_of_run(rest, (n - 1) as nat);
    }
}

/// The words `ws` written one after another with a single blank between
/// neighbours.
pub open spec fn join(ws: Seq<Seq<char>>) -> Seq<char>
    decreases ws.len(),
{
    if ws.len() == 0 {
        Seq::empty()
    } else if ws.len() == 1 {
        ws[0]
    } else {
        join(ws.drop_last()) + seq![' '] + ws.last()
    }
}

/// The texts of the string slices in `slices`, in order.
pub open spec fn texts(slices: Seq<&str>) -> Seq<Seq<char>> {
    slices.map_values(|s: &str| s@)
}

/// The characters of `s`, in order.
pub fn chars_of(s: &str) -> (chars: Vec<char>)
    ensures
        chars@ == s@,
{
    let mut chars: Vec<char> = Vec::new();
    for c in it: s.chars()
        invariant
            it.seq() == s@,
            chars@ == it.seq().take(it.index()),
    {
        chars.push(c);
    }
    chars
}

/// Splits `line` into its words.
pub fn split_words<'a>(line: &'a str) -> (found: Vec<&'a str>)
    ensures
        texts(found@) == words(line@),
{
    let chars = chars_of(line);
    let n = chars.len();
    let mut found: Vec<&'a str> = Vec::new();
    let mut i: usize = 0;
    assert(line@.skip(0) =~= line@);
    assert(texts(found@) + words(line@.skip(0)) =~= words(line@));
    while i < n
        invariant
            i <= n,
            n == chars.len(),
            chars@ == line@,
            texts(found@) + words(line@.skip(i as int)) == words(line@),
        decreases n - i,
    {
        let ghost rest = line@.skip(i as int);
        if is_whitespace(chars[i]) {
            assert(rest.drop_first() =~= line@.skip(i + 1));
            i += 1;
        } else {
            let start = i;
            while i < n && !is_whitespace(chars[i])
                invariant
                    start <= i <= n,
                    n == chars.len(),
                    forall|k: int| start <= k < i ==> !is_space(#[trigger] chars[k]),
                decreases n - i,
            {
                i += 1;
            }
            let word = line.substring_char(start, i);
            let ghost before = found@;
            found.push(word);
            proof {
                lemma_word_len_of_run(rest, (i - start) as nat);
                assert(rest.take(i - start) =~= word@);
                assert(rest.skip(i - start) =~= line@.skip(i as int));
                assert(texts(before.push(word)) =~= texts(before).push(word@));
                assert(texts(found@) + words(line@.skip(i as int)) =~= texts(before) + words(
                    rest,
                ));
            }
        }
    }
    assert(line@.skip(n as int) =~= Seq::<char>::empty());
    assert(texts(found@) + words(line@.skip(n as int)) =~= texts(found@));
    found
}

/// Joins the words of `parts` from index `from` onwards with single blanks.
pub fn join_words(parts: &Vec<&str>, from: usize) -> (joined: String)
    requires
        from <= parts.len(),
    ensures
        joined@ == join(texts(parts@).skip(from as int)),
{
    let mut joined = String::new();
    let mut i = from;
    let ghost tail = texts(parts@).skip(from as int);
    assert(tail.take(0) =~= Seq::<Seq<char>>::empty());
    while i < parts.len()
        invariant
            from <= i <= parts.len(),
            tail == texts(parts@).skip(from as int),
            joined@ == join(tail.take(i - from)),
        decreases parts.len() - i,
    {
        if i > from {
            proof {
                reveal_strlit(" ");
            }
            joined.append(" ");
        }
        joined.append(parts[i]);
        proof {
            let sofar = tail.take(i - from + 1);
            assert(sofar.drop_last() =~= tail.take(i - from));
            assert(sofar.last() == parts@[i as int]@);
            assert(joined@ =~= join(sofar));
        }
        i += 1;
    }
    assert(tail.take(parts.len() - from) =~= tail);
    joined
}

} // verus!
