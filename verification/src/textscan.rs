//! Verified text scanning: substring search, suffix tests and strict
//! decimal parsing over `Seq<char>` views.

use vstd::prelude::*;

verus! {

/// `pat` occurs in `s` starting at position `i`.
pub open spec fn match_at(s: Seq<char>, pat: Seq<char>, i: int) -> bool {
    &&& 0 <= i
    &&& i + pat.len() <= s.len()
    &&& s.subrange(i, i + pat.len()) == pat
}

/// `pat` occurs somewhere in `s`.
pub open spec fn contains_pat(s: Seq<char>, pat: Seq<char>) -> bool {
    exists|i: int| match_at(s, pat, i)
}

/// The leftmost position at which `pat` occurs in `s`; meaningful only
/// when `contains_pat(s, pat)` holds.
pub open spec fn first_match(s: Seq<char>, pat: Seq<char>) -> int {
    choose|i: int|
        match_at(s, pat, i) && (forall|j: int| 0 <= j < i ==> !match_at(s, pat, j))
}

/// The part of `s` strictly before the leftmost occurrence of `pat`.
pub open spec fn head_before(s: Seq<char>, pat: Seq<char>) -> Seq<char> {
    s.subrange(0, first_match(s, pat))
}

/// The part of `s` strictly after the leftmost occurrence of `pat`.
pub open spec fn tail_after(s: Seq<char>, pat: Seq<char>) -> Seq<char> {
    s.subrange(first_match(s, pat) + pat.len(), s.len() as int)
}

/// `s` ends with `pat`.
pub open spec fn ends_with(s: Seq<char>, pat: Seq<char>) -> bool {
    &&& pat.len() <= s.len()
    &&& s.subrange(s.len() - pat.len(), s.len() as int) == pat
}

/// A position that matches, with no match anywhere to its left, is the
/// leftmost match.
pub proof fn lemma_first_match_is(s: Seq<char>, pat: Seq<char>, i: int)
    requires
        match_at(s, pat, i),
        forall|j: int| 0 <= j < i ==> !match_at(s, pat, j),
    ensures
        first_match(s, pat) == i,
{
    let k = choose|k: int|
        match_at(s, pat, k) && (forall|j: int| 0 <= j < k ==> !match_at(s, pat, j));
    assert(match_at(s, pat, k) && (forall|j: int| 0 <= j < k ==> !match_at(s, pat, j)));
    if k < i {
        assert(!match_at(s, pat, k));
    }
    if i < k {
        assert(!match_at(s, pat, i));
    }
}

/// Some match has no match anywhere to its left.
proof fn lemma_exists_leftmost(s: Seq<char>, pat: Seq<char>, i: int)
    requires
        match_at(s, pat, i),
    ensures
        exists|k: int|
            match_at(s, pat, k) && (forall|j: int| 0 <= j < k ==> !match_at(s, pat, j)),
    decreases i,
{
    if exists|j: int| 0 <= j < i && match_at(s, pat, j) {
        let j = choose|j: int| 0 <= j < i && match_at(s, pat, j);
        lemma_exists_leftmost(s, pat, j);
    } else {
        assert(match_at(s, pat, i) && (forall|j: int| 0 <= j < i ==> !match_at(s, pat, j)));
    }
}

/// When `pat` occurs at all, `first_match` is a genuine leftmost
/// occurrence.
pub proof fn lemma_first_match_props(s: Seq<char>, pat: Seq<char>)
    requires
        contains_pat(s, pat),
    ensures
        match_at(s, pat, first_match(s, pat)),
        forall|j: int| 0 <= j < first_match(s, pat) ==> !match_at(s, pat, j),
{
    let i = choose|i: int| match_at(s, pat, i);
    lemma_exists_leftmost(s, pat, i);
}

/// Whether `pat` matches `s` at position `i`, by comparing characters.
fn check_match_at(s: &str, pat: &str, i: usize, m: usize) -> (r: bool)
    requires
        m == pat@.len(),
        i + m <= s@.len(),
        i + m <= usize::MAX,
    ensures
        r == match_at(s@, pat@, i as int),
{
    let mut j: usize = 0;
    while j < m
        invariant
            0 <= j <= m,
            m == pat@.len(),
            i + m <= s@.len(),
            i + m <= usize::MAX,
            forall|k: int| 0 <= k < j ==> s@[i + k] == pat@[k],
        decreases m - j,
    {
        let cs = s.get_char(i + j);
        let cp = pat.get_char(j);
        if cs != cp {
            proof {
                if match_at(s@, pat@, i as int) {
                    assert(s@.subrange(i as int, i + m)[j as int] == pat@[j as int]);
                }
            }
            return false;
        }
        j = j + 1;
    }
    proof {
        assert(s@.subrange(i as int, i + m) =~= pat@);
    }
    true
}

/// The leftmost occurrence of `pat` in `s`, or `None` when `pat` does
/// not occur.
pub fn find_pat(s: &str, pat: &str) -> (r: Option<usize>)
    ensures
        match r {
            Some(i) => {
                &&& match_at(s@, pat@, i as int)
                &&& first_match(s@, pat@) == i as int
                &&& contains_pat(s@, pat@)
            },
            None => !contains_pat(s@, pat@),
        },
{
    let n = s.unicode_len();
    let m = pat.unicode_len();
    if m > n {
        proof {
            assert forall|i: int| !match_at(s@, pat@, i) by {}
        }
        return None;
    }
    let limit = n - m;
    let mut i: usize = 0;
    loop
        invariant
            0 <= i <= limit,
            limit == n - m,
            m <= n,
            n == s@.len(),
            m == pat@.len(),
            forall|j: int| 0 <= j < i ==> !match_at(s@, pat@, j),
        decreases limit - i,
    {
        if check_match_at(s, pat, i, m) {
            proof {
                lemma_first_match_is(s@, pat@, i as int);
            }
            return Some(i);
        }
        if i == limit {
            proof {
                assert forall|j: int| !match_at(s@, pat@, j) by {
                    if j > limit {
                        assert(j + pat@.len() > s@.len());
                    }
                }
            }
            return None;
        }
        i = i + 1;
    }
}

/// Whether `s` ends with `pat`.
pub fn ends_with_pat(s: &str, pat: &str) -> (r: bool)
    ensures
        r == ends_with(s@, pat@),
{
    let n = s.unicode_len();
    let m = pat.unicode_len();
    if m > n {
        return false;
    }
    let r = check_match_at(s, pat, n - m, m);
    proof {
        if r {
            assert(s@.subrange(n - m, n as int) == pat@);
        }
    }
    r
}

/// Splits `s` around the leftmost occurrence of `pat`, copying the head
/// and the tail out; `None` when `pat` does not occur.
#[verifier::rlimit(50)]
pub fn split_at_first(s: &str, pat: &str) -> (r: Option<(String, String)>)
    ensures
        match r {
            Some(ht) => {
                &&& contains_pat(s@, pat@)
                &&& ht.0@ == head_before(s@, pat@)
                &&& ht.1@ == tail_after(s@, pat@)
            },
            None => !contains_pat(s@, pat@),
        },
{
    let n = s.unicode_len();
    let m = pat.unicode_len();
    match find_pat(s, pat) {
        None => None,
        Some(i) => {
            proof {
                assert(i + m <= n);
            }
            let head = s.substring_char(0, i).to_owned();
            let tail = s.substring_char(i + m, n).to_owned();
            proof {
                assert(head@ == head_before(s@, pat@));
                assert(tail@ == tail_after(s@, pat@));
            }
            Some((head, tail))
        },
    }
}

/// `c` occurs somewhere in `s`.
pub open spec fn contains_char(s: Seq<char>, c: char) -> bool {
    exists|i: int| 0 <= i < s.len() && s[i] == c
}

/// The rightmost position of `c` in `s`; meaningful only when
/// `contains_char(s, c)` holds.
pub open spec fn last_index_of(s: Seq<char>, c: char) -> int {
    choose|i: int|
        0 <= i < s.len() && s[i] == c && (forall|j: int| i < j < s.len() ==> s[j] != c)
}

/// A position holding `c`, with no `c` anywhere to its right, is the
/// rightmost occurrence.
pub proof fn lemma_last_index_is(s: Seq<char>, c: char, i: int)
    requires
        0 <= i < s.len(),
        s[i] == c,
        forall|j: int| i < j < s.len() ==> s[j] != c,
    ensures
        last_index_of(s, c) == i,
{
    let k = choose|k: int|
        0 <= k < s.len() && s[k] == c && (forall|j: int| k < j < s.len() ==> s[j] != c);
    assert(0 <= k < s.len() && s[k] == c && (forall|j: int| k < j < s.len() ==> s[j] != c));
    if k < i {
        assert(s[i] != c);
    }
    if i < k {
        assert(s[k] != c);
    }
}

/// The rightmost occurrence of the character `c` in `s`, or `None`
/// when `c` does not occur.
pub fn rfind_char(s: &str, c: char) -> (r: Option<usize>)
    ensures
        match r {
            Some(i) => {
                &&& i < s@.len()
                &&& s@[i as int] == c
                &&& last_index_of(s@, c) == i as int
                &&& contains_char(s@, c)
            },
            None => !contains_char(s@, c),
        },
{
    let n = s.unicode_len();
    let mut i: usize = n;
    while i > 0
        invariant
            0 <= i <= n,
            n == s@.len(),
            forall|j: int| i <= j < n ==> s@[j] != c,
        decreases i,
    {
        i = i - 1;
        let ci = s.get_char(i);
        if ci == c {
            proof {
                lemma_last_index_is(s@, c, i as int);
            }
            return Some(i);
        }
    }
    None
}

/// Whether `pat` occurs somewhere in `s`.
pub fn contains_pat_exec(s: &str, pat: &str) -> (r: bool)
    ensures
        r == contains_pat(s@, pat@),
{
    find_pat(s, pat).is_some()
}

/// `s` holds `anchor` somewhere, ends with `suffix`, and the suffix
/// lies wholly after the leftmost occurrence of the anchor.
pub open spec fn matches_anchored_suffix(s: Seq<char>, anchor: Seq<char>, suffix: Seq<char>) -> bool {
    &&& contains_pat(s, anchor)
    &&& ends_with(s, suffix)
    &&& first_match(s, anchor) + anchor.len() + suffix.len() <= s.len()
}

/// Whether `s` matches a template made of an anchor and a closing
/// suffix.
#[verifier::rlimit(50)]
pub fn check_anchored_suffix(s: &str, anchor: &str, suffix: &str) -> (r: bool)
    ensures
        r == matches_anchored_suffix(s@, anchor@, suffix@),
{
    match find_pat(s, anchor) {
        None => false,
        Some(i) => {
            if !ends_with_pat(s, suffix) {
                false
            } else {
                let n = s.unicode_len();
                let a = anchor.unicode_len();
                let sl = suffix.unicode_len();
                sl <= n - (i + a)
            }
        },
    }
}

/// `c` is an ASCII decimal digit.
pub open spec fn is_digit_char(c: char) -> bool {
    48 <= c as int && c as int <= 57
}

/// Every character of `s` is an ASCII decimal digit.
pub open spec fn all_digits(s: Seq<char>) -> bool {
    forall|i: int| 0 <= i < s.len() ==> is_digit_char(s[i])
}

/// The numeric value of one digit character.
pub open spec fn digit_val(c: char) -> int {
    c as int - 48
}

/// The value of `s` read as a big-endian decimal numeral.
pub open spec fn digits_value(s: Seq<char>) -> int
    decreases s.len(),
{
    if s.len() == 0 {
        0
    } else {
        digits_value(s.drop_last()) * 10 + digit_val(s.last())
    }
}

/// `s` is a well-formed numeral whose value fits in a `u64`: the strict
/// integer grammar used for quantities and coin amounts.
pub open spec fn parses_as_u64(s: Seq<char>) -> bool {
    &&& s.len() > 0
    &&& all_digits(s)
    &&& digits_value(s) <= u64::MAX
}

pub proof fn lemma_digits_value_nonneg(s: Seq<char>)
    requires
        all_digits(s),
    ensures
        digits_value(s) >= 0,
    decreases s.len(),
{
    if s.len() > 0 {
        assert(all_digits(s.drop_last()));
        lemma_digits_value_nonneg(s.drop_last());
    }
}

/// Extending a numeral to the right never decreases its value.
pub proof fn lemma_digits_prefix_le(s: Seq<char>, i: int)
    requires
        all_digits(s),
        0 <= i <= s.len(),
    ensures
        digits_value(s.take(i)) <= digits_value(s),
    decreases s.len() - i,
{
    if i < s.len() {
        let t = s.take(i + 1);
        assert(t.drop_last() =~= s.take(i));
        assert(all_digits(s.take(i)));
        lemma_digits_value_nonneg(s.take(i));
        assert(digits_value(t) == digits_value(s.take(i)) * 10 + digit_val(t.last()));
        assert(digits_value(s.take(i)) * 10 >= digits_value(s.take(i)));
        lemma_digits_prefix_le(s, i + 1);
    } else {
        assert(s.take(i) =~= s);
    }
}

/// Strict decimal parse: succeeds exactly on nonempty all-digit strings
/// whose value fits in a `u64`, and then returns that value.
pub fn parse_u64(s: &str) -> (r: Option<u64>)
    ensures
        match r {
            Some(v) => parses_as_u64(s@) && v == digits_value(s@),
            None => !parses_as_u64(s@),
        },
{
    let n = s.unicode_len();
    if n == 0 {
        return None;
    }
    let mut acc: u64 = 0;
    let mut i: usize = 0;
    while i < n
        invariant
            0 <= i <= n,
            n == s@.len(),
            all_digits(s@.take(i as int)),
            acc == digits_value(s@.take(i as int)),
        decreases n - i,
    {
        let c = s.get_char(i);
        let code = c as u32;
        if code < 48 || code > 57 {
            proof {
                assert(!is_digit_char(s@[i as int]));
            }
            return None;
        }
        let d: u64 = ((code - 48) as u64);
        proof {
            assert(s@.take(i + 1).drop_last() =~= s@.take(i as int));
            assert(all_digits(s@.take(i + 1)));
        }
        if acc > (u64::MAX - d) / 10 {
            proof {
                lemma_digits_value_nonneg(s@.take(i as int));
                vstd::arithmetic::div_mod::lemma_fundamental_div_mod(
                    (u64::MAX - d) as int,
                    10,
                );
                assert(digits_value(s@.take(i + 1)) > u64::MAX);
                if all_digits(s@) {
                    lemma_digits_prefix_le(s@, i + 1);
                }
            }
            return None;
        }
        proof {
            vstd::arithmetic::div_mod::lemma_fundamental_div_mod((u64::MAX - d) as int, 10);
        }
        acc = acc * 10 + d;
        i = i + 1;
    }
    proof {
        assert(s@.take(n as int) =~= s@);
    }
    Some(acc)
}

} // verus!
