//! Small operations on text that the conflict decoder is built from.

use vstd::prelude::*;

verus! {

/// Holds of every character but `c`.
pub open spec fn other_than(c: char) -> spec_fn(char) -> bool {
    |x: char| x != c
}

/// `s` with every occurrence of `c` taken out.
pub open spec fn without_char(s: Seq<char>, c: char) -> Seq<char> {
    s.filter(other_than(c))
}

/// What stands before and after the first `sep` in `s`, if `s` holds one.
pub open spec fn split_once(s: Seq<char>, sep: char) -> Option<(Seq<char>, Seq<char>)> {
    match s.index_of_first(sep) {
        Some(i) => Some((s.take(i), s.skip(i + 1))),
        None => None,
    }
}

/// A position that holds `c` with no `c` before it is the first one.
pub proof fn lemma_first_occurrence(s: Seq<char>, c: char, i: int)
    requires
        0 <= i < s.len(),
        s[i] == c,
        forall|j: int| 0 <= j < i ==> s[j] != c,
    ensures
        s.index_of_first(c) == Some(i),
{
    s.index_of_first_ensures(c);
}

/// Copies `s`, leaving out every `c`.
pub fn remove_char(s: &str, c: char) -> (r: String)
    ensures
        r@ == without_char(s@, c),
{
    let n = s.unicode_len();
    let mut out = String::new();
    let mut i: usize = 0;
    while i < n
        invariant
            n == s@.len(),
            i <= n,
            out@ == without_char(s@.take(i as int), c),
        decreases n - i,
    {
        let ch = s.get_char(i);
        proof {
            assert(s@.take(i + 1) == s@.take(i as int).push(ch));
            s@.take(i as int).lemma_filter_push(ch, other_than(c));
        }
        if ch != c {
            let piece = s.substring_char(i, i + 1);
            out.append(piece);
        }
        i += 1;
    }
    assert(s@.take(n as int) == s@);
    out
}

/// Splits `s` at its first `sep`: the text before it, which holds no `sep`,
/// and the text after it. `None` when `s` has no `sep`.
pub fn split_at_first<'a>(s: &'a str, sep: char) -> (r: Option<(&'a str, &'a str)>)
    ensures
        match r {
            Some((head, tail)) => split_once(s@, sep) == Some((head@, tail@)) && s@ == head@
                + seq![sep] + tail@ && !head@.contains(sep),
            None => split_once(s@, sep) is None && !s@.contains(sep),
        },
{
    let n = s.unicode_len();
    let mut i: usize = 0;
    while i < n
        invariant
            n == s@.len(),
            i <= n,
            forall|j: int| 0 <= j < i ==> s@[j] != sep,
        decreases n - i,
    {
        if s.get_char(i) == sep {
            proof {
                lemma_first_occurrence(s@, sep, i as int);
            }
            let head = s.substring_char(0, i);
            let tail = s.substring_char(i + 1, n);
            return Some((head, tail));
        }
        i += 1;
    }
    proof {
        s@.index_of_first_ensures(sep);
    }
    None
}

} // verus!
