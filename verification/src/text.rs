//! Words of a line of text and equality of texts.

use vstd::prelude::*;
use vstd::std_specs::iter::IteratorSpec;

verus! {

/// The number of characters of `s` before the first `stop`; its whole length
/// where `stop` does not occur.
pub open spec fn head_len(s: Seq<char>, stop: char) -> nat
    decreases s.len(),
{
    if s.len() == 0 || s[0] == stop {
        0
    } else {
        1 + head_len(s.drop_first(), stop)
    }
}

/// The characters of `s` before the first `stop`.
pub open spec fn head(s: Seq<char>, stop: char) -> Seq<char> {
    s.take(head_len(s, stop) as int)
}

/// What follows the first `stop` in `s`; `None` where `stop` does not occur.
pub open spec fn tail(s: Seq<char>, stop: char) -> Option<Seq<char>> {
    if head_len(s, stop) < s.len() {
        Some(s.skip(head_len(s, stop) as int + 1))
    } else {
        None
    }
}

/// The characters of `s` before its first space.
pub open spec fn first_word(s: Seq<char>) -> Seq<char> {
    head(s, ' ')
}

/// The word between the first space of `s` and the next one; `None` where
/// `s` has no space. It is empty where the first space ends `s` or another
/// space follows it directly.
pub open spec fn second_word(s: Seq<char>) -> Option<Seq<char>> {
    match tail(s, ' ') {
        Some(rest) => Some(head(rest, ' ')),
        None => None,
    }
}

/// `head_len(s, stop)` is the one position that has no `stop` before it and
/// is either a `stop` or the end.
pub proof fn lemma_head_len_is(s: Seq<char>, stop: char, n: int)
    requires
        0 <= n <= s.len(),
        forall|j: int| 0 <= j < n ==> s[j] != stop,
        n < s.len() ==> s[n] == stop,
    ensures
        head_len(s, stop) == n,
    decreases s.len(),
{
    if n > 0 {
        let rest = s.drop_first();
        assert forall|j: int| 0 <= j < n - 1 implies rest[j] != stop by {
            assert(rest[j] == s[j + 1]);
        }
        lemma_head_len_is(rest, stop, n - 1);
    }
}

/// The head holds no `stop`, and it ends at a `stop` or at the end.
pub proof fn lemma_head_len(s: Seq<char>, stop: char)
    ensures
        head_len(s, stop) <= s.len(),
        forall|j: int| 0 <= j < head_len(s, stop) ==> s[j] != stop,
        head_len(s, stop) < s.len() ==> s[head_len(s, stop) as int] == stop,
    decreases s.len(),
{
    if s.len() == 0 || s[0] == stop {
    } else {
        let rest = s.drop_first();
        lemma_head_len(rest, stop);
        assert forall|j: int| 0 <= j < head_len(s, stop) implies s[j] != stop by {
            if j > 0 {
                assert(rest[j - 1] == s[j]);
            }
        }
    }
}

/// Cutting a text loses nothing: the head, the stop and the tail make up the
/// text again, and without a stop the head is the whole text.
pub proof fn lemma_cut_rejoins(s: Seq<char>, stop: char)
    ensures
        match tail(s, stop) {
            Some(rest) => head(s, stop) + seq![stop] + rest == s,
            None => head(s, stop) == s,
        },
{
    lemma_head_len(s, stop);
    match tail(s, stop) {
        Some(rest) => {
            assert(head(s, stop) + seq![stop] + rest =~= s);
        },
        None => {
            assert(head(s, stop) =~= s);
        },
    }
}

/// Whether two texts hold the same characters.
pub fn same_text(a: &str, b: &str) -> (same: bool)
    ensures
        same == (a@ == b@),
{
    a.to_owned() == b.to_owned()
}

/// Counts the characters of `s` before the first `stop`.
pub fn head_length(s: &str, stop: char) -> (n: usize)
    ensures
        n == head_len(s@, stop),
{
    let total = s.unicode_len();
    let mut rest = s.chars();
    let mut n: usize = 0;
    loop
        invariant
            total == s@.len(),
            n <= total,
            rest.remaining() == s@.skip(n as int),
            forall|j: int| 0 <= j < n ==> s@[j] != stop,
        decreases total - n,
    {
        match rest.next() {
            Some(c) => {
                assert(s@.skip(n as int)[0] == s@[n as int]);
                if c == stop {
                    proof {
                        lemma_head_len_is(s@, stop, n as int);
                    }
                    return n;
                }
                assert(s@.skip(n as int).drop_first() =~= s@.skip(n as int + 1));
                n = n + 1;
            },
            None => {
                proof {
                    lemma_head_len_is(s@, stop, n as int);
                }
                return n;
            },
        }
    }
}

/// Cuts `s` at the first `stop`: what stands before it, and what follows it
/// where it occurs.
pub fn split_once<'a>(s: &'a str, stop: char) -> (parts: (&'a str, Option<&'a str>))
    ensures
        parts.0@ == head(s@, stop),
        match parts.1 {
            Some(rest) => tail(s@, stop) == Some(rest@),
            None => tail(s@, stop).is_none(),
        },
{
    let total = s.unicode_len();
    let n = head_length(s, stop);
    proof {
        lemma_head_len(s@, stop);
    }
    let before = s.substring_char(0, n);
    if n < total {
        let after = s.substring_char(n + 1, total);
        (before, Some(after))
    } else {
        (before, None)
    }
}

} // verus!
