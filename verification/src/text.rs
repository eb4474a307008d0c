//! Small verified helpers for working with strings as sequences of
//! characters.

use vstd::prelude::*;
use vstd::string::StrSliceExecFns;
use vstd::string::StringExecFns;

verus! {

/// Character-by-character equality test of two string slices.
pub fn eq_str(a: &str, b: &str) -> (r: bool)
    ensures
        r == (a@ == b@),
{
    let na = a.unicode_len();
    let nb = b.unicode_len();
    if na != nb {
        return false;
    }
    let mut i: usize = 0;
    while i < na
        invariant
            0 <= i <= na,
            na == a@.len(),
            nb == b@.len(),
            na == nb,
            forall|j: int| 0 <= j < i ==> a@[j] == b@[j],
        decreases na - i,
    {
        if a.get_char(i) != b.get_char(i) {
            return false;
        }
        i += 1;
    }
    proof {
        assert(a@ =~= b@);
    }
    true
}

/// The characters before the first occurrence of `c`, or the whole
/// sequence when `c` does not occur.
pub open spec fn spec_prefix_before(s: Seq<char>, c: char) -> Seq<char>
    decreases s.len(),
{
    if s.len() == 0 {
        Seq::<char>::empty()
    } else if s[0] == c {
        Seq::<char>::empty()
    } else {
        seq![s[0]] + spec_prefix_before(s.subrange(1, s.len() as int), c)
    }
}

proof fn lemma_prefix_before_is_prefix(s: Seq<char>, c: char, i: int)
    requires
        0 <= i <= s.len(),
        forall|j: int| 0 <= j < i ==> s[j] != c,
        i == s.len() || s[i] == c,
    ensures
        spec_prefix_before(s, c) == s.subrange(0, i),
    decreases i,
{
    if i == 0 {
        assert(spec_prefix_before(s, c) =~= s.subrange(0, 0));
    } else {
        let tail = s.subrange(1, s.len() as int);
        lemma_prefix_before_is_prefix(tail, c, i - 1);
        assert(spec_prefix_before(s, c) =~= s.subrange(0, i));
    }
}

/// Returns the characters of `s` before the first occurrence of `c`, or
/// all of `s` when `c` does not occur.
pub fn prefix_before(s: &str, c: char) -> (p: String)
    ensures
        p@ == spec_prefix_before(s@, c),
{
    let n = s.unicode_len();
    let mut i: usize = 0;
    while i < n
        invariant
            0 <= i <= n,
            n == s@.len(),
            forall|j: int| 0 <= j < i ==> s@[j] != c,
        decreases n - i,
    {
        if s.get_char(i) == c {
            proof {
                lemma_prefix_before_is_prefix(s@, c, i as int);
            }
            return String::from_str(s.substring_char(0, i));
        }
        i += 1;
    }
    proof {
        lemma_prefix_before_is_prefix(s@, c, n as int);
        assert(s@.subrange(0, n as int) =~= s@);
    }
    s.to_owned()
}

/// The whitespace characters that trimming removes.
pub open spec fn is_space(c: char) -> bool {
    c == ' ' || c == '\t' || c == '\r' || c == '\n'
}

/// The sequence with every trailing whitespace character removed.
pub open spec fn spec_trim_end(s: Seq<char>) -> Seq<char>
    decreases s.len(),
{
    if s.len() > 0 && is_space(s[s.len() - 1]) {
        spec_trim_end(s.drop_last())
    } else {
        s
    }
}

/// The sequence with every leading whitespace character removed.
pub open spec fn spec_trim_start(s: Seq<char>) -> Seq<char>
    decreases s.len(),
{
    if s.len() > 0 && is_space(s[0]) {
        spec_trim_start(s.subrange(1, s.len() as int))
    } else {
        s
    }
}

/// The sequence with leading and trailing whitespace removed.
pub open spec fn spec_trim(s: Seq<char>) -> Seq<char> {
    spec_trim_start(spec_trim_end(s))
}

proof fn lemma_trim_start_at(s: Seq<char>, i: int)
    requires
        0 <= i <= s.len(),
        forall|j: int| 0 <= j < i ==> is_space(s[j]),
        i == s.len() || !is_space(s[i]),
    ensures
        spec_trim_start(s) == s.subrange(i, s.len() as int),
    decreases i,
{
    if i == 0 {
        assert(spec_trim_start(s) =~= s.subrange(0, s.len() as int));
    } else {
        let tail = s.subrange(1, s.len() as int);
        lemma_trim_start_at(tail, i - 1);
        assert(spec_trim_start(s) =~= s.subrange(i, s.len() as int));
    }
}

fn is_space_char(c: char) -> (b: bool)
    ensures
        b == is_space(c),
{
    c == ' ' || c == '\t' || c == '\r' || c == '\n'
}

/// Removes leading and trailing whitespace from a string.
pub fn trim(s: &str) -> (t: String)
    ensures
        t@ == spec_trim(s@),
{
    let n = s.unicode_len();
    proof {
        assert(s@.subrange(0, n as int) =~= s@);
    }
    let mut end: usize = n;
    while end > 0 && is_space_char(s.get_char(end - 1))
        invariant
            0 <= end <= n,
            n == s@.len(),
            spec_trim_end(s@.subrange(0, end as int)) == spec_trim_end(s@),
        decreases end,
    {
        proof {
            let cur = s@.subrange(0, end as int);
            assert(cur.drop_last() =~= s@.subrange(0, end - 1));
        }
        end = end - 1;
    }
    proof {
        let cur = s@.subrange(0, end as int);
        assert(spec_trim_end(cur) == cur);
    }
    let mut start: usize = 0;
    while start < end && is_space_char(s.get_char(start))
        invariant
            0 <= start <= end <= n,
            n == s@.len(),
            forall|j: int| 0 <= j < start ==> is_space(s@[j]),
        decreases end - start,
    {
        start += 1;
    }
    proof {
        let trimmed = s@.subrange(0, end as int);
        lemma_trim_start_at(trimmed, start as int);
        assert(trimmed.subrange(start as int, end as int) =~= s@.subrange(
            start as int,
            end as int,
        ));
    }
    String::from_str(s.substring_char(start, end))
}

} // verus!
