//! Text helpers: comparing string slices and trimming white space.

use vstd::prelude::*;

verus! {

/// Whether `c` is white space in the sense of Unicode, as `char::is_whitespace`
/// reports it.
pub uninterp spec fn white_space(c: char) -> bool;

/// Calls `char::is_whitespace`. Trusted: the result is the answer that
/// `white_space` names.
#[verifier::external_body]
fn is_white_space(c: char) -> (result: bool)
    ensures
        result == white_space(c),
{
    c.is_whitespace()
}

/// `s` without its leading white space.
pub open spec fn trim_start(s: Seq<char>) -> Seq<char>
    decreases s.len(),
{
    if s.len() > 0 && white_space(s.first()) {
        trim_start(s.drop_first())
    } else {
        s
    }
}

/// `s` without its trailing white space.
pub open spec fn trim_end(s: Seq<char>) -> Seq<char>
    decreases s.len(),
{
    if s.len() > 0 && white_space(s.last()) {
        trim_end(s.drop_last())
    } else {
        s
    }
}

/// `s` without its leading and trailing white space.
pub open spec fn trimmed(s: Seq<char>) -> Seq<char> {
    trim_end(trim_start(s))
}

/// The texts that a run of strings holds, one by one.
pub open spec fn texts(strings: Seq<String>) -> Seq<Seq<char>> {
    Seq::new(strings.len(), |i: int| strings[i]@)
}

/// Whether two string slices hold the same characters.
pub fn same_text(a: &str, b: &str) -> (result: bool)
    ensures
        result == (a@ == b@),
{
    let left = String::from_str(a);
    let right = String::from_str(b);
    left == right
}

/// Where the trimmed start of `s` begins: all before it is white space, and
/// what stands there, if anything, is not.
pub proof fn lemma_trim_start(s: Seq<char>) -> (i: int)
    ensures
        0 <= i <= s.len(),
        trim_start(s) == s.subrange(i, s.len() as int),
        forall|k: int| 0 <= k < i ==> white_space(#[trigger] s[k]),
        i < s.len() ==> !white_space(s[i]),
    decreases s.len(),
{
    if s.len() > 0 && white_space(s.first()) {
        let rest = s.drop_first();
        let inner = lemma_trim_start(rest);
        assert(rest.subrange(inner, rest.len() as int) =~= s.subrange(inner + 1, s.len() as int));
        assert forall|k: int| 0 <= k < inner + 1 implies white_space(#[trigger] s[k]) by {
            if k > 0 {
                assert(s[k] == rest[k - 1]);
            }
        }
        if inner + 1 < s.len() {
            assert(s[inner + 1] == rest[inner]);
        }
        inner + 1
    } else {
        assert(s.subrange(0, s.len() as int) =~= s);
        0
    }
}

/// Where the trimmed end of `s` stops: all from there on is white space, and
/// what stands just before, if anything, is not.
pub proof fn lemma_trim_end(s: Seq<char>) -> (j: int)
    ensures
        0 <= j <= s.len(),
        trim_end(s) == s.subrange(0, j),
        forall|k: int| j <= k < s.len() ==> white_space(#[trigger] s[k]),
        j > 0 ==> !white_space(s[j - 1]),
    decreases s.len(),
{
    if s.len() > 0 && white_space(s.last()) {
        let rest = s.drop_last();
        let inner = lemma_trim_end(rest);
        assert(rest.subrange(0, inner) =~= s.subrange(0, inner));
        assert forall|k: int| inner <= k < s.len() implies white_space(#[trigger] s[k]) by {
            if k < s.len() - 1 {
                assert(s[k] == rest[k]);
            }
        }
        if inner > 0 {
            assert(s[inner - 1] == rest[inner - 1]);
        }
        inner
    } else {
        assert(s.subrange(0, s.len() as int) =~= s);
        s.len() as int
    }
}

/// The trimmed text is a piece of the text with nothing but white space
/// before and after it; it neither begins nor ends with white space; and
/// trimming it again changes nothing.
pub proof fn lemma_trimmed(s: Seq<char>)
    ensures
        exists|i: int, j: int|
            {
                &&& 0 <= i <= j <= s.len()
                &&& #[trigger] s.subrange(i, j) == trimmed(s)
                &&& forall|k: int| 0 <= k < i ==> white_space(#[trigger] s[k])
                &&& forall|k: int| j <= k < s.len() ==> white_space(#[trigger] s[k])
            },
        trimmed(s).len() > 0 ==> !white_space(trimmed(s).first()) && !white_space(trimmed(s).last()),
        trimmed(trimmed(s)) == trimmed(s),
{
    let i = lemma_trim_start(s);
    let front = s.subrange(i, s.len() as int);
    let width = lemma_trim_end(front);
    let j = i + width;
    let kept = s.subrange(i, j);
    assert(front.subrange(0, width) =~= kept);
    assert forall|k: int| j <= k < s.len() implies white_space(#[trigger] s[k]) by {
        assert(s[k] == front[k - i]);
    }
    if kept.len() > 0 {
        assert(kept.first() == s[i]);
        assert(kept.last() == front[width - 1]);
    }
    assert(trim_start(kept) == kept);
    assert(trim_end(kept) == kept);
}

/// A copy of `s` without its leading and trailing white space.
pub fn trim(s: &str) -> (result: String)
    ensures
        result@ == trimmed(s@),
{
    let n: usize = s.unicode_len();
    let mut i: usize = 0;
    let mut found: bool = false;
    while i < n && !found
        invariant
            i <= n,
            n == s@.len(),
            forall|k: int| 0 <= k < i ==> white_space(#[trigger] s@[k]),
            found ==> i < n && !white_space(s@[i as int]),
        decreases n - i + if found { 0int } else { 1int },
    {
        if is_white_space(s.get_char(i)) {
            i = i + 1;
        } else {
            found = true;
        }
    }
    let mut j: usize = n;
    let mut closed: bool = false;
    while j > i && !closed
        invariant
            i <= j <= n,
            n == s@.len(),
            forall|k: int| j <= k < n ==> white_space(#[trigger] s@[k]),
            closed ==> j > i && !white_space(s@[j - 1]),
        decreases j + if closed { 0int } else { 1int },
    {
        if is_white_space(s.get_char(j - 1)) {
            j = j - 1;
        } else {
            closed = true;
        }
    }
    proof {
        let start = lemma_trim_start(s@);
        assert(start == i) by {
            if start < i {
                assert(white_space(s@[start]));
            } else if i < start {
                assert(white_space(s@[i as int]));
            }
        }
        let front = s@.subrange(i as int, n as int);
        let width = lemma_trim_end(front);
        assert(width == j - i) by {
            if width < j - i {
                assert(front[j - i - 1] == s@[j - 1]);
                assert(white_space(front[j - i - 1]));
            } else if j - i < width {
                assert(front[width - 1] == s@[i + width - 1]);
                assert(white_space(s@[i + width - 1]));
            }
        }
        assert(front.subrange(0, width) =~= s@.subrange(i as int, j as int));
    }
    String::from_str(s.substring_char(i, j))
}

} // verus!
