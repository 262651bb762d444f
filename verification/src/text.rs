//! Character-level helpers on strings: Unicode white space, blank texts,
//! comparison, and stripping of a trailing run of one character.

use vstd::prelude::*;
use vstd::std_specs::iter::IteratorSpec;

verus! {

/// The code points that Unicode classes as `White_Space`.
pub open spec fn is_white_space(c: char) -> bool {
    let n = c as u32;
    ||| 0x09 <= n <= 0x0d
    ||| n == 0x20
    ||| n == 0x85
    ||| n == 0xa0
    ||| n == 0x1680
    ||| 0x2000 <= n <= 0x200a
    ||| n == 0x2028
    ||| n == 0x2029
    ||| n == 0x202f
    ||| n == 0x205f
    ||| n == 0x3000
}

/// `s` without its leading and trailing white space.
pub open spec fn trimmed(s: Seq<char>) -> Seq<char>
    decreases s.len(),
{
    if s.len() == 0 {
        s
    } else if is_white_space(s.first()) {
        trimmed(s.drop_first())
    } else if is_white_space(s.last()) {
        trimmed(s.drop_last())
    } else {
        s
    }
}

/// A text that trimming leaves empty.
pub open spec fn is_blank(s: Seq<char>) -> bool {
    trimmed(s).len() == 0
}

/// Whether Unicode classes `c` as `White_Space`.
pub fn is_white_space_char(c: char) -> (r: bool)
    ensures
        r == is_white_space(c),
{
    let n: u32 = c as u32;
    (0x09 <= n && n <= 0x0d) || n == 0x20 || n == 0x85 || n == 0xa0 || n == 0x1680 || (0x2000 <= n
        && n <= 0x200a) || n == 0x2028 || n == 0x2029 || n == 0x202f || n == 0x205f || n == 0x3000
}

/// Trimming leaves nothing exactly when every character is white space.
pub proof fn lemma_blank_iff_all_white_space(s: Seq<char>)
    ensures
        is_blank(s) <==> (forall|i: int| 0 <= i < s.len() ==> is_white_space(#[trigger] s[i])),
    decreases s.len(),
{
    if s.len() == 0 {
    } else if is_white_space(s.first()) {
        let rest = s.drop_first();
        lemma_blank_iff_all_white_space(rest);
        if is_blank(rest) {
            assert forall|i: int| 0 <= i < s.len() implies is_white_space(#[trigger] s[i]) by {
                if i > 0 {
                    assert(s[i] == rest[i - 1]);
                }
            }
        } else {
            let j = choose|j: int| 0 <= j < rest.len() && !is_white_space(#[trigger] rest[j]);
            assert(rest[j] == s[j + 1]);
        }
    } else if is_white_space(s.last()) {
        let rest = s.drop_last();
        lemma_blank_iff_all_white_space(rest);
        assert(rest[0] == s[0]);
    } else {
        assert(s[0] == s.first());
    }
}

/// Whether `s` is empty once its surrounding white space is removed.
pub fn is_blank_text(s: &str) -> (r: bool)
    ensures
        r == is_blank(s@),
{
    let mut chars = s.chars();
    for c in it: chars
        invariant
            it.seq() == s@,
            forall|i: int| 0 <= i < it.index() ==> is_white_space(#[trigger] s@[i]),
    {
        if !is_white_space_char(c) {
            proof {
                lemma_blank_iff_all_white_space(s@);
            }
            return false;
        }
    }
    proof {
        lemma_blank_iff_all_white_space(s@);
    }
    true
}


/// Whether two texts hold the same characters.
pub fn same_text(a: &str, b: &str) -> (r: bool)
    ensures
        r == (a@ == b@),
{
    let mut rest = b.chars();
    for c in it: a.chars()
        invariant
            it.seq() == a@,
            rest.remaining() == b@.skip(it.index()),
            it.index() <= b@.len(),
            a@.take(it.index()) == b@.take(it.index()),
    {
        let ghost k = it.index();
        match rest.next() {
            Some(d) => {
                if c != d {
                    assert(a@[k] != b@[k]);
                    return false;
                }
                assert(a@.take(k + 1) == a@.take(k).push(a@[k]));
                assert(b@.take(k + 1) == b@.take(k).push(b@[k]));
            },
            None => {
                assert(b@.len() == k);
                return false;
            },
        }
    }
    assert(a@.take(a@.len() as int) == a@);
    match rest.next() {
        Some(_) => false,
        None => {
            assert(b@.take(b@.len() as int) == b@);
            true
        },
    }
}

/// `s` without the run of `c` at its end.
pub open spec fn without_trailing(s: Seq<char>, c: char) -> Seq<char>
    decreases s.len(),
{
    if s.len() > 0 && s.last() == c {
        without_trailing(s.drop_last(), c)
    } else {
        s
    }
}

/// The part of `s` before the run of `c` at its end.
pub fn strip_trailing<'a>(s: &'a str, c: char) -> (r: &'a str)
    ensures
        r@ == without_trailing(s@, c),
{
    let len: usize = s.unicode_len();
    let mut seen: usize = 0;
    let mut keep: usize = 0;
    for d in it: s.chars()
        invariant
            it.seq() == s@,
            len == s@.len(),
            seen == it.index(),
            keep <= seen <= len,
            s@.take(keep as int) == without_trailing(s@.take(seen as int), c),
    {
        let ghost before = s@.take(seen as int);
        assert(s@.take(seen + 1) == before.push(d));
        assert(before.push(d).drop_last() == before);
        seen = seen + 1;
        if d != c {
            keep = seen;
        }
    }
    assert(s@.take(len as int) == s@);
    s.substring_char(0, keep)
}

} // verus!
