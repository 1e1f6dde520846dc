//! Small string-building helpers: thin trusted shims over `std`'s
//! string operations, and a verified decimal renderer.

use vstd::prelude::*;

verus! {

/// Relies on `String::push_str`: appends the given slice to the end of
/// the string.
#[verifier::external_body]
pub fn push_str(s: &mut String, t: &str)
    ensures
        final(s)@ == old(s)@ + t@,
{
    s.push_str(t)
}

/// Relies on `String::push`: appends the given character to the end of
/// the string.
#[verifier::external_body]
pub fn push_char(s: &mut String, c: char)
    ensures
        final(s)@ == old(s)@.push(c),
{
    s.push(c)
}

/// Relies on `PartialEq` for `str`: two slices compare equal exactly
/// when they hold the same text.
#[verifier::external_body]
pub fn str_eq(a: &str, b: &str) -> (r: bool)
    ensures
        r == (a@ == b@),
{
    a == b
}

/// A space becomes an underscore; every other character stays.
pub open spec fn underscore_char(c: char) -> char {
    if c == ' ' { '_' } else { c }
}

/// `s` with each space replaced by an underscore.
pub open spec fn underscored(s: Seq<char>) -> Seq<char>
    decreases s.len(),
{
    if s.len() == 0 {
        Seq::empty()
    } else {
        underscored(s.drop_last()).push(underscore_char(s.last()))
    }
}

/// Replaces each space of `s` by an underscore.
pub fn to_underscored(s: &str) -> (r: String)
    ensures
        r@ == underscored(s@),
{
    let n = s.unicode_len();
    let mut r = String::new();
    let mut i: usize = 0;
    while i < n
        invariant
            0 <= i <= n,
            n == s@.len(),
            r@ == underscored(s@.take(i as int)),
        decreases n - i,
    {
        let c = s.get_char(i);
        proof {
            assert(s@.take(i + 1).drop_last() =~= s@.take(i as int));
            assert(s@.take(i + 1).last() == s@[i as int]);
        }
        if c == ' ' {
            push_char(&mut r, '_');
        } else {
            push_char(&mut r, c);
        }
        i = i + 1;
    }
    proof {
        assert(s@.take(n as int) =~= s@);
    }
    r
}

/// The digit character for one decimal digit value.
pub open spec fn digit_char(d: int) -> char {
    if d == 0 { '0' }
    else if d == 1 { '1' }
    else if d == 2 { '2' }
    else if d == 3 { '3' }
    else if d == 4 { '4' }
    else if d == 5 { '5' }
    else if d == 6 { '6' }
    else if d == 7 { '7' }
    else if d == 8 { '8' }
    else { '9' }
}

/// The decimal numeral of `v`, most significant digit first, with no
/// leading zeros.
pub open spec fn dec_seq(v: nat) -> Seq<char>
    decreases v,
{
    if v < 10 {
        seq![digit_char(v as int)]
    } else {
        dec_seq(v / 10) + seq![digit_char((v % 10) as int)]
    }
}

pub fn digit_char_exec(d: u64) -> (c: char)
    requires
        d < 10,
    ensures
        c == digit_char(d as int),
{
    if d == 0 { '0' }
    else if d == 1 { '1' }
    else if d == 2 { '2' }
    else if d == 3 { '3' }
    else if d == 4 { '4' }
    else if d == 5 { '5' }
    else if d == 6 { '6' }
    else if d == 7 { '7' }
    else if d == 8 { '8' }
    else { '9' }
}

/// Renders `v` as its decimal numeral.
pub fn u64_to_string(v: u64) -> (r: String)
    ensures
        r@ == dec_seq(v as nat),
{
    if v == 0 {
        let mut r = String::new();
        push_char(&mut r, '0');
        proof {
            assert(r@ =~= dec_seq(0));
        }
        return r;
    }
    let mut digits: Vec<char> = Vec::new();
    let mut x: u64 = v;
    while x > 0
        invariant
            x > 0 ==> dec_seq(v as nat) == dec_seq(x as nat) + digits@.reverse(),
            x == 0 ==> dec_seq(v as nat) == digits@.reverse(),
        decreases x,
    {
        let d = x % 10;
        let x2 = x / 10;
        proof {
            vstd::arithmetic::div_mod::lemma_fundamental_div_mod(x as int, 10);
            if x >= 10 {
                assert(dec_seq(x as nat) == dec_seq((x as nat) / 10) + seq![
                    digit_char((x as nat % 10) as int),
                ]);
            }
            assert((digits@.push(digit_char(d as int))).reverse() =~= seq![
                digit_char(d as int),
            ] + digits@.reverse());
        }
        digits.push(digit_char_exec(d));
        x = x2;
    }
    let mut r = String::new();
    let mut i: usize = digits.len();
    while i > 0
        invariant
            0 <= i <= digits@.len(),
            r@ =~= digits@.skip(i as int).reverse(),
        decreases i,
    {
        proof {
            assert(digits@.skip(i - 1) =~= seq![digits@[i - 1]] + digits@.skip(i as int));
            assert(digits@.skip(i - 1).reverse() =~= digits@.skip(i as int).reverse().push(
                digits@[i - 1],
            ));
        }
        i = i - 1;
        let c = digits[i];
        push_char(&mut r, c);
    }
    proof {
        assert(digits@.skip(0) =~= digits@);
    }
    r
}

} // verus!
