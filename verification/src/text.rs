//! Small verified text helpers: exact string equality and parsing of
//! unsigned numbers in decimal or hexadecimal notation.

use vstd::prelude::*;

verus! {

/// The digit value of `c`: `0`–`9` for the decimal digits, `10`–`15` for the
/// hexadecimal letters in either case, and `16` for everything else, so that
/// `c` is a digit of radix `r` exactly when `char_digit(c) < r`.
pub open spec fn char_digit(c: char) -> nat {
    if '0' <= c && c <= '9' {
        ((c as int) - ('0' as int)) as nat
    } else if 'a' <= c && c <= 'f' {
        ((c as int) - ('a' as int) + 10) as nat
    } else if 'A' <= c && c <= 'F' {
        ((c as int) - ('A' as int) + 10) as nat
    } else {
        16
    }
}

/// Every character of `s` is a digit of radix `radix`.
pub open spec fn all_digits(s: Seq<char>, radix: nat) -> bool {
    forall|i: int| 0 <= i < s.len() ==> char_digit(s[i]) < radix
}

/// The number that `s` denotes in radix `radix`, most significant digit
/// first (meaningful when `all_digits(s, radix)` holds).
pub open spec fn radix_value(s: Seq<char>, radix: nat) -> nat
    decreases s.len(),
{
    if s.len() == 0 {
        0
    } else {
        radix_value(s.drop_last(), radix) * radix + char_digit(s.last())
    }
}

/// A longer digit string never denotes a smaller number.
proof fn lemma_radix_value_grows(s: Seq<char>, i: int, j: int, radix: nat)
    requires
        0 <= i <= j <= s.len(),
        radix >= 1,
    ensures
        radix_value(s.subrange(0, j), radix) >= radix_value(s.subrange(0, i), radix),
    decreases j - i,
{
    if i < j {
        lemma_radix_value_grows(s, i, j - 1, radix);
        let prefix = s.subrange(0, j);
        assert(prefix.drop_last() =~= s.subrange(0, j - 1));
        assert(radix_value(s.subrange(0, j), radix) == radix_value(s.subrange(0, j - 1), radix)
            * radix + char_digit(s[j - 1]));
        let v = radix_value(s.subrange(0, j - 1), radix);
        assert(v * radix >= v) by (nonlinear_arith)
            requires
                radix >= 1,
                v >= 0,
        ;
    }
}

/// Exact character-for-character equality of two string slices.
pub fn str_eq(a: &str, b: &str) -> (equal: bool)
    ensures
        equal == (a@ == b@),
{
    let len_a = a.unicode_len();
    let len_b = b.unicode_len();
    if len_a != len_b {
        return false;
    }
    let mut i: usize = 0;
    while i < len_a
        invariant
            len_a == a@.len(),
            len_a == b@.len(),
            i <= len_a,
            forall|k: int| 0 <= k < i ==> a@[k] == b@[k],
        decreases len_a - i,
    {
        if a.get_char(i) != b.get_char(i) {
            return false;
        }
        i += 1;
    }
    proof {
        assert(a@ =~= b@);
    }
    true
}

/// The digit value of `c`, as `char_digit` gives it.
pub fn digit_of_char(c: char) -> (digit: u32)
    ensures
        digit == char_digit(c),
{
    if '0' <= c && c <= '9' {
        (c as u32) - ('0' as u32)
    } else if 'a' <= c && c <= 'f' {
        (c as u32) - ('a' as u32) + 10
    } else if 'A' <= c && c <= 'F' {
        (c as u32) - ('A' as u32) + 10
    } else {
        16
    }
}

/// Parse `s` from character position `start` to its end as an unsigned
/// number in radix `radix`.  Succeeds exactly when at least one character
/// follows `start`, every one of them is a digit of the radix, and the
/// denoted number fits the machine; the parsed value is then that number.
pub fn parse_unsigned(s: &str, start: usize, radix: u32) -> (parsed: Option<usize>)
    requires
        2 <= radix <= 16,
    ensures
        parsed is Some <==> start < s@.len() && all_digits(s@.skip(start as int), radix as nat)
            && radix_value(s@.skip(start as int), radix as nat) <= usize::MAX,
        parsed matches Some(value) ==> value == radix_value(
            s@.skip(start as int),
            radix as nat,
        ),
    {
        let ghost t = s@.skip(start as int);
        let len = s.unicode_len();
        if start >= len {
            return None;
        }
        let mut value: usize = 0;
        let mut i: usize = start;
        while i < len
            invariant
                2 <= radix <= 16,
                start <= i <= len,
                len == s@.len(),
                t == s@.skip(start as int),
                all_digits(t.subrange(0, i - start), radix as nat),
                value == radix_value(t.subrange(0, i - start), radix as nat),
            decreases len - i,
        {
            let c = s.get_char(i);
            let d = digit_of_char(c);
            proof {
                assert(t.subrange(0, i + 1 - start).drop_last() =~= t.subrange(0, i - start));
                assert(t.subrange(0, i + 1 - start).last() == s@[i as int]);
            }
            if d >= radix {
                return None;
            }
            if value > (usize::MAX - d as usize) / (radix as usize) {
                // The digits read so far already denote a number too large
                // for the machine; more digits can only make it larger.
                proof {
                    assert((value as int) * (radix as int) + (d as int) > usize::MAX as int)
                        by (nonlinear_arith)
                        requires
                            (value as int) > ((usize::MAX as int) - (d as int)) / (radix as int),
                            2 <= radix <= 16,
                            d < radix,
                    ;
                    lemma_radix_value_grows(t, i + 1 - start, t.len() as int, radix as nat);
                    assert(t.subrange(0, t.len() as int) =~= t);
                }
                return None;
            }
            proof {
                assert((value as int) * (radix as int) + (d as int) <= usize::MAX as int)
                    by (nonlinear_arith)
                    requires
                        (value as int) <= ((usize::MAX as int) - (d as int)) / (radix as int),
                        2 <= radix <= 16,
                        d < radix,
                ;
            }
            value = value * (radix as usize) + (d as usize);
            i += 1;
        }
        proof {
            assert(t.subrange(0, t.len() as int) =~= t);
        }
        Some(value)
    }

} // verus!
