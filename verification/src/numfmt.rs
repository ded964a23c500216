//! Decimal text for unsigned integers: rendering a `u64` as its decimal
//! digit string, and parsing a digit string as a `u32` with the same
//! acceptance rules as the standard library's string-to-integer parse
//! (an optional leading `+`, then one or more decimal digits, value in
//! range).

use vstd::prelude::*;
use vstd::string::StrSliceExecFns;
use vstd::string::StringExecFns;

verus! {

/// The decimal digit character for a value below ten.
pub open spec fn digit_char(d: nat) -> char {
    if d == 0 {
        '0'
    } else if d == 1 {
        '1'
    } else if d == 2 {
        '2'
    } else if d == 3 {
        '3'
    } else if d == 4 {
        '4'
    } else if d == 5 {
        '5'
    } else if d == 6 {
        '6'
    } else if d == 7 {
        '7'
    } else if d == 8 {
        '8'
    } else {
        '9'
    }
}

/// The decimal digit string of `n`, without sign or leading zeros
/// (`0` itself is the single digit `0`).
pub open spec fn dec_digits(n: nat) -> Seq<char>
    decreases n,
{
    if n < 10 {
        seq![digit_char(n)]
    } else {
        dec_digits(n / 10).push(digit_char(n % 10))
    }
}

/// Renders `n` in decimal, exactly as the standard formatter prints an
/// unsigned integer.
pub fn u64_to_string(n: u64) -> (r: String)
    ensures
        r@ == dec_digits(n as nat),
    decreases n,
{
    let digits = "0123456789";
    proof {
        reveal_strlit("0123456789");
        assert(digits@ =~= seq!['0', '1', '2', '3', '4', '5', '6', '7', '8', '9']);
    }
    if n < 10 {
        let d = digits.substring_ascii(n as usize, n as usize + 1);
        proof {
            assert(d@ =~= seq![digit_char(n as nat)]);
        }
        d.to_owned()
    } else {
        proof {
            assert(n / 10 < n) by (nonlinear_arith)
                requires
                    n >= 10,
            ;
        }
        let mut s = u64_to_string(n / 10);
        let m = (n % 10) as usize;
        let d = digits.substring_ascii(m, m + 1);
        proof {
            assert(d@ =~= seq![digit_char((n % 10) as nat)]);
        }
        s.append(d);
        proof {
            assert(s@ =~= dec_digits(n as nat));
        }
        s
    }
}

/// Whether `c` is a decimal digit.
pub open spec fn is_digit(c: char) -> bool {
    48 <= c as u32 && c as u32 <= 57
}

/// The value of a decimal digit character.
pub open spec fn digit_val(c: char) -> nat {
    (c as u32 - 48) as nat
}

/// Whether every character of `s` is a decimal digit.
pub open spec fn all_digits(s: Seq<char>) -> bool {
    forall|i: int| 0 <= i < s.len() ==> is_digit(s[i])
}

/// The number denoted by a string of decimal digits (most significant
/// first); the empty string denotes zero.
pub open spec fn digits_val(s: Seq<char>) -> nat
    decreases s.len(),
{
    if s.len() == 0 {
        0nat
    } else {
        digits_val(s.drop_last()) * 10 + digit_val(s.last())
    }
}

/// `s` with one leading `+` removed, if it has one.
pub open spec fn strip_plus(s: Seq<char>) -> Seq<char> {
    if s.len() > 0 && s[0] == '+' {
        s.drop_first()
    } else {
        s
    }
}

/// Whether `s` is accepted by the standard string-to-`u32` parse: an
/// optional leading `+`, then at least one decimal digit, and a value
/// that fits in 32 bits.
pub open spec fn parses_as_u32(s: Seq<char>) -> bool {
    let t = strip_plus(s);
    t.len() > 0 && all_digits(t) && digits_val(t) <= u32::MAX
}

/// The number such a string denotes.
pub open spec fn u32_numeral_val(s: Seq<char>) -> nat {
    digits_val(strip_plus(s))
}

proof fn lemma_digits_val_prefix_le(s: Seq<char>, n: int)
    requires
        0 <= n <= s.len(),
    ensures
        digits_val(s.subrange(0, n)) <= digits_val(s),
    decreases s.len() - n,
{
    if n == s.len() {
        assert(s.subrange(0, n) =~= s);
    } else {
        let p = s.subrange(0, n);
        let q = s.subrange(0, n + 1);
        assert(q.drop_last() =~= p);
        assert(digits_val(q) == digits_val(p) * 10 + digit_val(q.last()));
        lemma_digits_val_prefix_le(s, n + 1);
    }
}

/// Parses a decimal numeral as a `u32`, succeeding on exactly the strings
/// the standard parse accepts and returning the same value.
pub fn parse_u32(s: &str) -> (r: Option<u32>)
    ensures
        r is Some <==> parses_as_u32(s@),
        r is Some ==> r->0 as nat == u32_numeral_val(s@),
{
    let len = s.unicode_len();
    let start: usize = if len > 0 && s.get_char(0) == '+' {
        1
    } else {
        0
    };
    let ghost t = strip_plus(s@);
    proof {
        assert(t =~= s@.subrange(start as int, len as int));
    }
    if start >= len {
        return None;
    }
    let mut acc: u32 = 0;
    let mut k: usize = start;
    while k < len
        invariant
            start <= k <= len,
            len == s@.len(),
            start == 1 ==> len > 0 && s@[0] == '+',
            start == 0 ==> len == 0 || s@[0] != '+',
            t == strip_plus(s@),
            t == s@.subrange(start as int, len as int),
            all_digits(t.subrange(0, k - start)),
            acc as nat == digits_val(t.subrange(0, k - start)),
        decreases len - k,
    {
        let c = s.get_char(k);
        let u = c as u32;
        proof {
            assert(t[k - start] == s@[k as int]);
        }
        if u < 48 || u > 57 {
            proof {
                assert(!is_digit(t[k - start]));
                assert(!all_digits(t));
                assert(!parses_as_u32(s@));
            }
            return None;
        }
        let d = u - 48;
        let wide: u64 = acc as u64 * 10 + d as u64;
        proof {
            let p = t.subrange(0, k - start);
            let q = t.subrange(0, k - start + 1);
            assert(q.drop_last() =~= p);
            assert(q.last() == t[k - start]);
            assert(digits_val(q) == wide as nat);
            assert(all_digits(q));
        }
        if wide > 0xffff_ffff {
            proof {
                lemma_digits_val_prefix_le(t, k - start + 1);
                assert(digits_val(t.subrange(0, k - start + 1)) <= digits_val(t));
                assert(digits_val(t) > u32::MAX);
                assert(!parses_as_u32(s@));
            }
            return None;
        }
        acc = wide as u32;
        k += 1;
    }
    proof {
        assert(t.subrange(0, len - start) =~= t);
        assert(parses_as_u32(s@));
    }
    Some(acc)
}

} // verus!
