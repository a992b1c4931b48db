//! Small text utilities over `str` and `String`, stated over their character
//! sequences.
use vstd::prelude::*;
use vstd::string::StrSliceExecFns;
use vstd::string::StringExecFns;

verus! {

/// `p` is a prefix of `s`.
pub open spec fn spec_has_prefix(s: Seq<char>, p: Seq<char>) -> bool {
    p.len() <= s.len() && s.subrange(0, p.len() as int) == p
}

/// `p` occurs in `s` starting at position `i`.
pub open spec fn spec_occurs_at(s: Seq<char>, p: Seq<char>, i: int) -> bool {
    0 <= i && i + p.len() <= s.len() && s.subrange(i, i + p.len()) == p
}

/// `p` occurs somewhere in `s`.
pub open spec fn spec_contains(s: Seq<char>, p: Seq<char>) -> bool {
    exists|i: int| spec_occurs_at(s, p, i)
}

/// Whether `p` occurs in `s` at position `i`.
fn occurs_at(s: &str, s_len: usize, p: &str, p_len: usize, i: usize) -> (r: bool)
    requires
        s_len == s@.len(),
        p_len == p@.len(),
        i + p_len <= s_len,
    ensures
        r == spec_occurs_at(s@, p@, i as int),
{
    let mut k: usize = 0;
    while k < p_len
        invariant
            k <= p_len,
            s_len == s@.len(),
            p_len == p@.len(),
            i + p_len <= s_len,
            forall|j: int| 0 <= j < k ==> s@[i + j] == p@[j],
        decreases p_len - k,
    {
        if s.get_char(i + k) != p.get_char(k) {
            proof {
                assert(s@.subrange(i as int, i + p_len)[k as int] != p@[k as int]);
            }
            return false;
        }
        k = k + 1;
    }
    proof {
        assert(s@.subrange(i as int, i + p_len) =~= p@);
    }
    true
}

/// Whether `s` starts with `p`.
pub fn has_prefix(s: &str, p: &str) -> (r: bool)
    ensures
        r == spec_has_prefix(s@, p@),
{
    let s_len = s.unicode_len();
    let p_len = p.unicode_len();
    if p_len > s_len {
        return false;
    }
    occurs_at(s, s_len, p, p_len, 0)
}

/// Whether `p` occurs in `s`.
pub fn contains_text(s: &str, p: &str) -> (r: bool)
    ensures
        r == spec_contains(s@, p@),
{
    let s_len = s.unicode_len();
    let p_len = p.unicode_len();
    if p_len > s_len {
        proof {
            assert forall|i: int| !spec_occurs_at(s@, p@, i) by {}
        }
        return false;
    }
    let last = s_len - p_len;
    let mut i: usize = 0;
    while i <= last
        invariant
            s_len == s@.len(),
            p_len == p@.len(),
            last + p_len == s_len,
            forall|j: int| 0 <= j < i ==> !spec_occurs_at(s@, p@, j),
        decreases last + 1 - i,
    {
        if occurs_at(s, s_len, p, p_len, i) {
            return true;
        }
        if i == last {
            proof {
                assert forall|j: int| !spec_occurs_at(s@, p@, j) by {
                    if 0 <= j && j + p@.len() <= s@.len() {
                        assert(j <= last);
                    }
                }
            }
            return false;
        }
        i = i + 1;
    }
    false
}

/// A `String` holding the characters of `s`.
pub fn owned(s: &str) -> (r: String)
    ensures
        r@ == s@,
{
    String::from_str(s)
}

/// Appends `other` to `s`.
pub fn push_text(s: &mut String, other: &str)
    ensures
        final(s)@ == old(s)@ + other@,
{
    s.append(other)
}


/// Whether `a` and `b` hold the same characters.
pub fn text_equals(a: &str, b: &str) -> (r: bool)
    ensures
        r == (a@ == b@),
{
    let a_len = a.unicode_len();
    let b_len = b.unicode_len();
    if a_len != b_len {
        return false;
    }
    let r = occurs_at(a, a_len, b, b_len, 0);
    proof {
        assert(a@.subrange(0, b_len as int) =~= a@);
    }
    r
}

} // verus!
