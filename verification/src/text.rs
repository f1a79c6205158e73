//! Decimal digits and small text helpers shared by the address check,
//! the prompt grammar and the status messages.

use vstd::prelude::*;

verus! {

/// An ASCII decimal digit.
pub open spec fn is_digit(c: char) -> bool {
    '0' <= c && c <= '9'
}

/// The numeric value of an ASCII decimal digit.
pub open spec fn digit_val(c: char) -> nat {
    (c as nat - '0' as nat) as nat
}

/// Every character of `s` is an ASCII decimal digit.
pub open spec fn all_digits(s: Seq<char>) -> bool {
    forall|i: int| 0 <= i < s.len() ==> is_digit(s[i])
}

/// The value of a run of decimal digits, most significant first.
/// Leading zeros are allowed and do not change the value.
pub open spec fn dec_value(s: Seq<char>) -> nat
    decreases s.len(),
{
    if s.len() == 0 {
        0
    } else {
        dec_value(s.drop_last()) * 10 + digit_val(s.last())
    }
}

/// The shortest decimal spelling of `n`, most significant digit first.
pub open spec fn dec_digits_of(n: nat) -> Seq<char>
    decreases n,
{
    if n < 10 {
        seq![digit_char(n)]
    } else {
        dec_digits_of(n / 10).push(digit_char(n % 10))
    }
}

/// The digit character for a value below ten.
pub open spec fn digit_char(n: nat) -> char {
    (('0' as nat + n % 10) as u32) as char
}

/// Relies on std's `String::push`: it appends exactly one character at
/// the end of the string and changes nothing else.
pub assume_specification[ String::push ](s: &mut String, ch: char)
    ensures
        final(s)@ == old(s)@.push(ch),
;

/// Whether `c` is an ASCII decimal digit.
pub fn digit_check(c: char) -> (r: bool)
    ensures
        r == is_digit(c),
{
    '0' <= c && c <= '9'
}

/// What `usize` parsing makes of a token: an optional `+` sign, then at
/// least one digit, and a value that fits the machine word.
pub open spec fn parse_usize_spec(s: Seq<char>) -> Option<usize> {
    let d = if s.len() > 0 && s[0] == '+' {
        s.subrange(1, s.len() as int)
    } else {
        s
    };
    if d.len() >= 1 && all_digits(d) && dec_value(d) <= usize::MAX {
        Some(dec_value(d) as usize)
    } else {
        None
    }
}

/// The value of a digit run never shrinks when more digits follow.
proof fn lemma_dec_value_prefix(d: Seq<char>, m: int)
    requires
        0 <= m <= d.len(),
    ensures
        dec_value(d.subrange(0, m)) <= dec_value(d),
    decreases d.len() - m,
{
    if m < d.len() {
        assert(d.subrange(0, m + 1).drop_last() =~= d.subrange(0, m));
        assert(d.subrange(0, m + 1).last() == d[m]);
        lemma_dec_value_prefix(d, m + 1);
    } else {
        assert(d.subrange(0, m) =~= d);
    }
}

/// The numeric value of an ASCII decimal digit, as a machine word.
fn digit_value(c: char) -> (r: usize)
    requires
        is_digit(c),
    ensures
        r == digit_val(c),
        r < 10,
{
    (c as u32 - '0' as u32) as usize
}

/// Reads a `usize` from a token the way `del`/`rm` expect one: an
/// optional `+` sign, then decimal digits.  Returns `None` on anything
/// else, and on values too large for the machine word.
pub fn parse_usize(v: &[char]) -> (r: Option<usize>)
    ensures
        r == parse_usize_spec(v@),
{
    let start: usize = if v.len() > 0 && v[0] == '+' {
        1
    } else {
        0
    };
    let ghost d = v@.subrange(start as int, v@.len() as int);
    proof {
        if start == 0 {
            assert(d =~= v@);
        }
    }
    if start == v.len() {
        return None;
    }
    let mut acc: usize = 0;
    let mut i: usize = start;
    while i < v.len()
        invariant
            start <= i <= v@.len(),
            start == (if v@.len() > 0 && v@[0] == '+' {
                1usize
            } else {
                0usize
            }),
            d == v@.subrange(start as int, v@.len() as int),
            start == 0 ==> d == v@,
            all_digits(d.subrange(0, i - start)),
            acc == dec_value(d.subrange(0, i - start)),
        decreases v@.len() - i,
    {
        proof {
            assert(d.subrange(0, i + 1 - start).drop_last() =~= d.subrange(0, i - start));
            assert(d.subrange(0, i + 1 - start).last() == v@[i as int]);
        }
        if !digit_check(v[i]) {
            proof {
                assert(d[i - start] == v@[i as int]);
                assert(!all_digits(d));
            }
            return None;
        }
        let dv = digit_value(v[i]);
        let acc10 = match acc.checked_mul(10) {
            Some(a) => a,
            None => {
                proof {
                    assert(dec_value(d.subrange(0, i + 1 - start)) == acc * 10 + digit_val(
                        v@[i as int],
                    ));
                    lemma_dec_value_prefix(d, i + 1 - start);
                    assert(dec_value(d) > usize::MAX);
                }
                return None;
            },
        };
        acc = match acc10.checked_add(dv) {
            Some(a) => a,
            None => {
                proof {
                    assert(dec_value(d.subrange(0, i + 1 - start)) == acc * 10 + digit_val(
                        v@[i as int],
                    ));
                    lemma_dec_value_prefix(d, i + 1 - start);
                    assert(dec_value(d) > usize::MAX);
                }
                return None;
            },
        };
        i = i + 1;
    }
    proof {
        assert(d.subrange(0, i - start) =~= d);
    }
    Some(acc)
}

/// The digit character for a value below ten, as a machine character.
fn digit_char_exec(dv: usize) -> (r: char)
    requires
        dv < 10,
    ensures
        r == digit_char(dv as nat),
{
    (48u8 + dv as u8) as char
}

/// Spells `n` in decimal, most significant digit first, no sign and no
/// leading zeros.
pub fn usize_to_string(n: usize) -> (r: String)
    ensures
        r@ == dec_digits_of(n as nat),
{
    let mut digits: Vec<char> = Vec::new();
    let mut m: usize = n;
    while m >= 10
        invariant
            dec_digits_of(n as nat) =~= dec_digits_of(m as nat) + digits@.reverse(),
        decreases m,
    {
        let ghost pre = digits@;
        digits.push(digit_char_exec(m % 10));
        proof {
            assert(digits@.reverse() =~= seq![digit_char((m % 10) as nat)] + pre.reverse());
            assert(dec_digits_of((m / 10) as nat).push(digit_char((m % 10) as nat))
                + pre.reverse() =~= dec_digits_of((m / 10) as nat) + digits@.reverse());
        }
        m = m / 10;
    }
    let ghost pre = digits@;
    digits.push(digit_char_exec(m));
    proof {
        assert(digits@.reverse() =~= seq![digit_char(m as nat)] + pre.reverse());
        assert(dec_digits_of(m as nat) =~= seq![digit_char(m as nat)]);
    }
    let mut s = String::new();
    let mut i: usize = digits.len();
    while i > 0
        invariant
            i <= digits@.len(),
            s@ =~= digits@.reverse().take(digits@.len() - i),
        decreases i,
    {
        i = i - 1;
        s.push(digits[i]);
        proof {
            assert(s@ =~= digits@.reverse().take(digits@.len() - i));
        }
    }
    proof {
        assert(digits@.reverse().take(digits@.len() as int) =~= digits@.reverse());
        assert(s@ =~= dec_digits_of(n as nat));
    }
    s
}

/// Compares a run of characters with a string, character by character.
pub fn chars_eq_str(v: &[char], s: &str) -> (r: bool)
    ensures
        r == (v@ == s@),
{
    let n = s.unicode_len();
    if v.len() != n {
        return false;
    }
    let mut i: usize = 0;
    while i < n
        invariant
            i <= n,
            n == s@.len(),
            v@.len() == n,
            forall|k: int| 0 <= k < i ==> v@[k] == s@[k],
        decreases n - i,
    {
        if s.get_char(i) != v[i] {
            return false;
        }
        i = i + 1;
    }
    proof {
        assert(v@ =~= s@);
    }
    true
}

/// Copies a run of characters into an owned string.
pub fn chars_to_string(v: &[char]) -> (r: String)
    ensures
        r@ == v@,
{
    let mut s = String::new();
    let mut i: usize = 0;
    while i < v.len()
        invariant
            i <= v@.len(),
            s@ == v@.subrange(0, i as int),
        decreases v@.len() - i,
    {
        s.push(v[i]);
        i = i + 1;
        proof {
            assert(s@ =~= v@.subrange(0, i as int));
        }
    }
    proof {
        assert(s@ =~= v@);
    }
    s
}

} // verus!
