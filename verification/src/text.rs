//! Plain-string machinery for tag names: the lexicographic order used to rank
//! tags, the release-candidate marker test, and version normalization.

use vstd::prelude::*;

verus! {

/// `a` is at most `b` in plain lexicographic order over character scalar
/// values.
///
/// This is deliberately not a semantic-version comparison: "10.0.0" sorts
/// below "9.0.0" here. Tag ranking uses this plain string order on purpose,
/// and a semantic-version-aware order would change which tag wins.
pub open spec fn seq_lex_le(a: Seq<char>, b: Seq<char>) -> bool
    decreases a.len(),
{
    if a.len() == 0 {
        true
    } else if b.len() == 0 {
        false
    } else if a[0] == b[0] {
        seq_lex_le(a.drop_first(), b.drop_first())
    } else {
        (a[0] as int) < (b[0] as int)
    }
}

/// The order is total: any two strings compare one way or the other.
pub proof fn lemma_lex_le_total(a: Seq<char>, b: Seq<char>)
    ensures
        seq_lex_le(a, b) || seq_lex_le(b, a),
    decreases a.len(),
{
    if a.len() == 0 || b.len() == 0 {
    } else if a[0] == b[0] {
        lemma_lex_le_total(a.drop_first(), b.drop_first());
    } else {
        assert((a[0] as int) != (b[0] as int));
    }
}

/// The order is transitive.
pub proof fn lemma_lex_le_trans(a: Seq<char>, b: Seq<char>, c: Seq<char>)
    requires
        seq_lex_le(a, b),
        seq_lex_le(b, c),
    ensures
        seq_lex_le(a, c),
    decreases a.len(),
{
    if a.len() == 0 || b.len() == 0 || c.len() == 0 {
    } else if a[0] == b[0] && b[0] == c[0] {
        lemma_lex_le_trans(a.drop_first(), b.drop_first(), c.drop_first());
    }
}

/// Decides `seq_lex_le(a@, b@)` on real strings.
pub fn str_lex_le(a: &str, b: &str) -> (r: bool)
    ensures
        r == seq_lex_le(a@, b@),
    decreases a@.len(),
{
    let la = a.unicode_len();
    let lb = b.unicode_len();
    if la == 0 {
        true
    } else if lb == 0 {
        false
    } else {
        let ca = a.get_char(0);
        let cb = b.get_char(0);
        if ca == cb {
            let a_rest = a.substring_char(1, la);
            let b_rest = b.substring_char(1, lb);
            proof {
                assert(a_rest@ =~= a@.drop_first());
                assert(b_rest@ =~= b@.drop_first());
            }
            str_lex_le(a_rest, b_rest)
        } else {
            ca < cb
        }
    }
}

/// The characters at positions `i` and `i + 1` of `s` spell the
/// release-candidate marker.
pub open spec fn rc_at(s: Seq<char>, i: int) -> bool {
    &&& 0 <= i
    &&& i + 1 < s.len()
    &&& s[i] == 'r'
    &&& s[i + 1] == 'c'
}

/// The tag name contains the substring "rc" (case-sensitive) somewhere.
///
/// This is a crude marker test, not a semantic-version pre-release check: a
/// stable name that merely happens to contain "rc" (say "v1.0.0-arch") counts
/// as a pre-release too. That known limitation is kept on purpose.
pub open spec fn spec_is_prerelease(s: Seq<char>) -> bool {
    exists|i: int| #[trigger] rc_at(s, i)
}

/// Decides `spec_is_prerelease(name@)`: whether the tag name carries the
/// release-candidate marker.
pub fn is_prerelease(name: &str) -> (r: bool)
    ensures
        r == spec_is_prerelease(name@),
{
    let n = name.unicode_len();
    if n < 2 {
        return false;
    }
    let mut i: usize = 0;
    while i < n - 1
        invariant
            n == name@.len(),
            2 <= n,
            i <= n - 1,
            forall|j: int| 0 <= j < i ==> !rc_at(name@, j),
        decreases n - 1 - i,
    {
        if name.get_char(i) == 'r' && name.get_char(i + 1) == 'c' {
            proof {
                assert(rc_at(name@, i as int));
            }
            return true;
        }
        i = i + 1;
    }
    false
}

/// The tag name with one leading 'v' removed, if it has one.
pub open spec fn strip_leading_v(s: Seq<char>) -> Seq<char> {
    if s.len() > 0 && s[0] == 'v' {
        s.drop_first()
    } else {
        s
    }
}

/// Normalizes a tag name into a bare version string by stripping a leading
/// 'v', as in "v13.9.1" becoming "13.9.1".
pub fn strip_v(name: &str) -> (r: String)
    ensures
        r@ == strip_leading_v(name@),
{
    let n = name.unicode_len();
    if n > 0 && name.get_char(0) == 'v' {
        let rest = name.substring_char(1, n);
        proof {
            assert(rest@ =~= name@.drop_first());
        }
        rest.to_owned()
    } else {
        name.to_owned()
    }
}

} // verus!
