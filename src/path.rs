//! User storage paths and user ids as text.
use vstd::prelude::*;
use vstd::string::{StrSliceExecFns, StringExecFns};

verus! {

/// A path is rooted when it starts with the root marker `/`.
pub open spec fn rooted(p: Seq<char>) -> bool {
    p.len() > 0 && p[0] == '/'
}

/// `p` joined onto `prefix`: a rooted `p` replaces the prefix, an empty prefix
/// leaves `p` as it is, and otherwise one separator stands between the two.
pub open spec fn joined(prefix: Seq<char>, p: Seq<char>) -> Seq<char> {
    if rooted(p) || prefix.len() == 0 {
        p
    } else if prefix.last() == '/' {
        prefix + p
    } else {
        prefix + seq!['/'] + p
    }
}

/// Joins `p` onto `prefix` as a path.
pub fn join_path(prefix: &str, p: &str) -> (r: String)
    ensures
        r@ == joined(prefix@, p@),
{
    if p.unicode_len() > 0 && p.get_char(0) == '/' {
        return String::from_str(p);
    }
    let m = prefix.unicode_len();
    if m == 0 {
        return String::from_str(p);
    }
    let mut r = String::from_str(prefix);
    if prefix.get_char(m - 1) != '/' {
        proof {
            reveal_strlit("/");
        }
        r.append("/");
    }
    r.append(p);
    r
}

/// Whether `p` starts with the root marker.
pub fn has_root(p: &str) -> (r: bool)
    ensures
        r == rooted(p@),
{
    p.unicode_len() > 0 && p.get_char(0) == '/'
}

/// A decimal digit.
pub open spec fn is_digit(c: char) -> bool {
    '0' <= c && c <= '9'
}

/// The number that a string of decimal digits denotes.
pub open spec fn digits_value(s: Seq<char>) -> int
    decreases s.len(),
{
    if s.len() == 0 {
        0
    } else {
        digits_value(s.drop_last()) * 10 + ((s.last() as u32) as int - 48)
    }
}

/// The user id that `s` spells: a non-empty run of decimal digits whose value
/// fits in 64 bits.
pub open spec fn user_id_of(s: Seq<char>) -> Option<u64> {
    if s.len() > 0 && (forall|i: int| 0 <= i < s.len() ==> is_digit(#[trigger] s[i]))
        && digits_value(s) <= u64::MAX {
        Some(digits_value(s) as u64)
    } else {
        None
    }
}

proof fn lemma_digits_value_grows(s: Seq<char>, k: int)
    requires
        0 <= k <= s.len(),
        forall|i: int| 0 <= i < s.len() ==> is_digit(#[trigger] s[i]),
    ensures
        0 <= digits_value(s.take(k)) <= digits_value(s),
    decreases s.len(),
{
    if s.len() > 0 {
        let t = s.drop_last();
        assert(is_digit(s[s.len() - 1]));
        assert forall|i: int| 0 <= i < t.len() implies is_digit(#[trigger] t[i]) by {
            assert(t[i] == s[i]);
        }
        if k == s.len() {
            assert(s.take(k) =~= s);
            lemma_digits_value_grows(t, k - 1);
            assert(t.take(k - 1) =~= t);
        } else {
            assert(s.take(k) =~= t.take(k));
            lemma_digits_value_grows(t, k);
        }
        let v = digits_value(t);
        assert(v <= v * 10) by (nonlinear_arith)
            requires
                v >= 0,
        ;
    } else {
        assert(s.take(k) =~= s);
    }
}

/// Reads a user id written in decimal.
pub fn parse_user_id(s: &str) -> (r: Option<u64>)
    ensures
        r == user_id_of(s@),
{
    let n = s.unicode_len();
    if n == 0 {
        return None;
    }
    let mut acc: u64 = 0;
    let mut i: usize = 0;
    while i < n
        invariant
            n == s@.len(),
            i <= n,
            acc == digits_value(s@.take(i as int)),
            forall|j: int| 0 <= j < i ==> is_digit(#[trigger] s@[j]),
        decreases n - i,
    {
        let c = s.get_char(i);
        if !('0' <= c && c <= '9') {
            return None;
        }
        let d: u64 = (c as u32 - 48) as u64;
        let ghost next = s@.take(i + 1);
        proof {
            assert(next.drop_last() =~= s@.take(i as int));
            assert(next.last() == c);
        }
        if acc > (u64::MAX - d) / 10 {
            proof {
                assert(acc * 10 + d > u64::MAX) by (nonlinear_arith)
                    requires
                        acc > (u64::MAX - d) / 10,
                        d <= 9,
                ;
                if forall|j: int| 0 <= j < s@.len() ==> is_digit(#[trigger] s@[j]) {
                    lemma_digits_value_grows(s@, i + 1);
                }
            }
            return None;
        }
        proof {
            assert(acc * 10 + d <= u64::MAX) by (nonlinear_arith)
                requires
                    acc <= (u64::MAX - d) / 10,
                    d <= 9,
            ;
        }
        acc = acc * 10 + d;
        i = i + 1;
    }
    proof {
        assert(s@.take(n as int) =~= s@);
    }
    Some(acc)
}

} // verus!
