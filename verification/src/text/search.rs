//! Finding and replacing a pattern inside a text.

use vstd::prelude::*;
use crate::text::chars::{append_chars, from_chars, to_chars};

verus! {

/// `pat` occurs in `s` at position `i`.
pub open spec fn matches_at(s: Seq<char>, pat: Seq<char>, i: int) -> bool {
    &&& 0 <= i
    &&& i + pat.len() <= s.len()
    &&& s.subrange(i, i + pat.len()) == pat
}

/// `pat` occurs somewhere in `s`.
pub open spec fn contains(s: Seq<char>, pat: Seq<char>) -> bool {
    exists|i: int| matches_at(s, pat, i)
}

/// `s` with every occurrence of `from` replaced by `to`. Occurrences are
/// taken from left to right and do not overlap. An empty `from` occurs
/// before every character and at the end.
pub open spec fn replaced(s: Seq<char>, from: Seq<char>, to: Seq<char>) -> Seq<char>
    decreases s.len(),
{
    if from.len() == 0 {
        if s.len() == 0 {
            to
        } else {
            to + seq![s[0]] + replaced(s.skip(1), from, to)
        }
    } else if matches_at(s, from, 0) {
        to + replaced(s.skip(from.len() as int), from, to)
    } else if s.len() == 0 {
        s
    } else {
        seq![s[0]] + replaced(s.skip(1), from, to)
    }
}

/// A match in the rest of `s` from `i` on is a match in `s`, `i` further.
pub proof fn lemma_matches_at_skip(s: Seq<char>, pat: Seq<char>, i: int, k: int)
    requires
        0 <= i <= s.len(),
    ensures
        matches_at(s.skip(i), pat, k) == (k >= 0 && matches_at(s, pat, i + k)),
{
    if 0 <= k && i + k + pat.len() <= s.len() {
        assert(s.skip(i).subrange(k, k + pat.len()) =~= s.subrange(i + k, i + k + pat.len()));
    }
}

/// A text in which `from` does not occur stays as it is.
pub proof fn lemma_replaced_without_match(s: Seq<char>, from: Seq<char>, to: Seq<char>)
    requires
        from.len() > 0,
        !contains(s, from),
    ensures
        replaced(s, from, to) == s,
    decreases s.len(),
{
    assert(!matches_at(s, from, 0));
    if s.len() > 0 {
        assert forall|k: int| !matches_at(s.skip(1), from, k) by {
            lemma_matches_at_skip(s, from, 1, k);
            assert(!matches_at(s, from, 1 + k));
        }
        lemma_replaced_without_match(s.skip(1), from, to);
        assert(seq![s[0]] + s.skip(1) =~= s);
    }
}

/// Replacing one character goes character by character: the first
/// character gives way to the replacement or stays, and the rest follows
/// in the same way.
pub proof fn lemma_replaced_char(s: Seq<char>, c: char, to: Seq<char>)
    requires
        s.len() > 0,
    ensures
        replaced(s, seq![c], to) == (if s[0] == c {
            to
        } else {
            seq![s[0]]
        }) + replaced(s.skip(1), seq![c], to),
{
    if s[0] == c {
        assert(s.subrange(0, 1) =~= seq![c]);
        assert(matches_at(s, seq![c], 0));
    } else {
        assert(s.subrange(0, 1)[0] == s[0]);
        assert(!matches_at(s, seq![c], 0));
    }
}

/// Replacing one character in two texts, one after the other, is replacing
/// it in each.
pub proof fn lemma_replaced_char_concat(a: Seq<char>, b: Seq<char>, c: char, to: Seq<char>)
    ensures
        replaced(a + b, seq![c], to) == replaced(a, seq![c], to) + replaced(b, seq![c], to),
    decreases a.len(),
{
    if a.len() == 0 {
        assert(a + b =~= b);
        assert(replaced(a, seq![c], to) =~= Seq::<char>::empty());
    } else {
        lemma_replaced_char(a, c, to);
        lemma_replaced_char(a + b, c, to);
        assert((a + b).skip(1) =~= a.skip(1) + b);
        lemma_replaced_char_concat(a.skip(1), b, c, to);
        let head = if a[0] == c {
            to
        } else {
            seq![a[0]]
        };
        assert(head + (replaced(a.skip(1), seq![c], to) + replaced(b, seq![c], to)) =~= (head
            + replaced(a.skip(1), seq![c], to)) + replaced(b, seq![c], to));
    }
}

/// Whether `pat` occurs in `s` at position `i`.
pub fn match_at(s: &Vec<char>, pat: &Vec<char>, i: usize) -> (r: bool)
    ensures
        r == matches_at(s@, pat@, i as int),
{
    if i > s.len() || pat.len() > s.len() - i {
        return false;
    }
    let mut j: usize = 0;
    while j < pat.len()
        invariant
            j <= pat.len(),
            i + pat.len() <= s.len(),
            forall|k: int| 0 <= k < j ==> s@[i + k] == pat@[k],
        decreases pat.len() - j,
    {
        if s[i + j] != pat[j] {
            assert(s@.subrange(i as int, i + pat@.len())[j as int] == s@[i + j]);
            return false;
        }
        j += 1;
    }
    assert(s@.subrange(i as int, i + pat@.len()) =~= pat@);
    true
}

/// Whether `pat` occurs somewhere in `s`.
pub fn contains_chars(s: &Vec<char>, pat: &Vec<char>) -> (r: bool)
    ensures
        r == contains(s@, pat@),
{
    let mut i: usize = 0;
    while i < s.len()
        invariant
            i <= s.len(),
            forall|k: int| 0 <= k < i ==> !matches_at(s@, pat@, k),
        decreases s.len() - i,
    {
        if match_at(s, pat, i) {
            return true;
        }
        i += 1;
    }
    match_at(s, pat, i)
}

/// Whether the string `pat` occurs somewhere in the string `s`.
pub fn contains_text(s: &str, pat: &str) -> (r: bool)
    ensures
        r == contains(s@, pat@),
{
    let sv = to_chars(s);
    let pv = to_chars(pat);
    contains_chars(&sv, &pv)
}

/// `s` with every occurrence of `from` replaced by `to`.
pub fn replace_chars(s: &Vec<char>, from: &Vec<char>, to: &Vec<char>) -> (r: Vec<char>)
    ensures
        r@ == replaced(s@, from@, to@),
{
    let mut out: Vec<char> = Vec::new();
    let mut i: usize = 0;
    assert(s@.skip(0) == s@);
    while i < s.len()
        invariant
            i <= s.len(),
            out@ + replaced(s@.skip(i as int), from@, to@) == replaced(s@, from@, to@),
        decreases s.len() - i,
    {
        let ghost rest = s@.skip(i as int);
        proof {
            lemma_matches_at_skip(s@, from@, i as int, 0);
            assert(rest[0] == s@[i as int]);
        }
        if from.len() == 0 {
            append_chars(&mut out, to);
            out.push(s[i]);
            assert(rest.skip(1) == s@.skip(i + 1));
            i += 1;
        } else if match_at(s, from, i) {
            append_chars(&mut out, to);
            assert(rest.skip(from@.len() as int) == s@.skip(i + from@.len()));
            i += from.len();
        } else {
            out.push(s[i]);
            assert(rest.skip(1) == s@.skip(i + 1));
            i += 1;
        }
    }
    assert(s@.skip(i as int).len() == 0);
    if from.len() == 0 {
        append_chars(&mut out, to);
    }
    out
}

/// The string `s` with every occurrence of `from` replaced by `to`.
pub fn replace_text(s: &str, from: &str, to: &str) -> (r: String)
    ensures
        r@ == replaced(s@, from@, to@),
{
    let sv = to_chars(s);
    let fv = to_chars(from);
    let tv = to_chars(to);
    let out = replace_chars(&sv, &fv, &tv);
    from_chars(&out)
}

} // verus!
