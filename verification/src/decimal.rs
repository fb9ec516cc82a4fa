//! Decimal numerals: reading a run of digits as a number and writing a number
//! in its shortest decimal form.

use vstd::prelude::*;

verus! {

/// Whether `c` is one of the ten ASCII digits.
pub open spec fn is_digit(c: char) -> bool {
    '0' <= c <= '9'
}

/// Whether `s` holds ASCII digits only.
pub open spec fn all_digits(s: Seq<char>) -> bool {
    forall|i: int| 0 <= i < s.len() ==> is_digit(#[trigger] s[i])
}

/// The number that the digit `c` stands for.
pub open spec fn digit_value(c: char) -> nat {
    (c as u32 - '0' as u32) as nat
}

/// The digit that stands for `d`, for `d` below ten.
pub open spec fn digit_char(d: nat) -> char {
    (d + '0' as u32) as char
}

/// The number that the digits `s` spell, most significant digit first; 0 for
/// the empty sequence.
pub open spec fn number(s: Seq<char>) -> nat
    decreases s.len(),
{
    if s.len() == 0 {
        0
    } else {
        number(s.drop_last()) * 10 + digit_value(s.last())
    }
}

/// The shortest decimal numeral of `n`.
pub open spec fn decimal(n: nat) -> Seq<char>
    decreases n,
{
    if n < 10 {
        seq![digit_char(n)]
    } else {
        decimal(n / 10).push(digit_char(n % 10))
    }
}

/// A numeral's value only grows as more digits are read.
pub proof fn lemma_number_grows(s: Seq<char>, i: int, j: int)
    requires
        0 <= i <= j <= s.len(),
    ensures
        number(s.take(i)) <= number(s.take(j)),
    decreases j - i,
{
    if i < j {
        lemma_number_grows(s, i, j - 1);
        assert(s.take(j).drop_last() =~= s.take(j - 1));
    }
}

/// Reading back what `decimal` wrote gives the number again, and `decimal`
/// writes digits only.
pub proof fn law_decimal_reads_back(n: nat)
    ensures
        all_digits(decimal(n)),
        number(decimal(n)) == n,
        decimal(n).len() >= 1,
    decreases n,
{
    if n < 10 {
        let s = decimal(n);
        assert(s.drop_last() =~= Seq::<char>::empty());
        assert(number(s.drop_last()) == 0);
    } else {
        law_decimal_reads_back(n / 10);
        let s = decimal(n);
        assert(s.drop_last() =~= decimal(n / 10));
    }
}

/// The digit that stands for `d`.
pub fn digit_of(d: u64) -> (c: char)
    requires
        d < 10,
    ensures
        c == digit_char(d as nat),
{
    if d == 0 {
        '0'
    } else if d == 1 {
        '1'
    } else if d == 2 {
        '2'
    } else if d == 3 {
        '3'
    } else if d == 4 {
        '4'
    } else if d == 5 {
        '5'
    } else if d == 6 {
        '6'
    } else if d == 7 {
        '7'
    } else if d == 8 {
        '8'
    } else {
        '9'
    }
}

/// The shortest decimal numeral of `n`.
pub fn decimal_of(n: u64) -> (out: Vec<char>)
    ensures
        out@ == decimal(n as nat),
    decreases n,
{
    if n < 10 {
        let mut out: Vec<char> = Vec::new();
        out.push(digit_of(n));
        assert(out@ =~= seq![digit_char(n as nat)]);
        out
    } else {
        let mut out = decimal_of(n / 10);
        out.push(digit_of(n % 10));
        out
    }
}

/// Reads the characters of `s` from `from` up to `to` as a decimal numeral.
/// The result is `None` when that range is empty, holds anything but ASCII
/// digits, or spells a number above `u32::MAX`.
pub fn parse_number(s: &Vec<char>, from: usize, to: usize) -> (out: Option<u32>)
    requires
        from <= to <= s.len(),
    ensures
        out == readable(s@.subrange(from as int, to as int)),
{
    let ghost d = s@.subrange(from as int, to as int);
    if from == to {
        return None;
    }
    let mut acc: u64 = 0;
    let mut i: usize = from;
    while i < to
        invariant
            from <= i <= to <= s.len(),
            d == s@.subrange(from as int, to as int),
            all_digits(d.take(i - from)),
            acc == number(d.take(i - from)),
            acc <= u32::MAX,
        decreases to - i,
    {
        let c = s[i];
        let ghost k = i - from;
        proof {
            assert(d[k] == c);
            assert(d.take(k + 1).drop_last() =~= d.take(k));
            assert(d.take(k + 1).last() == c);
        }
        if c < '0' || c > '9' {
            return None;
        }
        let v: u64 = c as u64 - '0' as u64;
        acc = acc * 10 + v;
        proof {
            assert forall|j: int| 0 <= j < k + 1 implies is_digit(#[trigger] d.take(k + 1)[j]) by {
                if j < k {
                    assert(d.take(k)[j] == d.take(k + 1)[j]);
                }
            }
        }
        if acc > 0xffff_ffff {
            proof {
                lemma_number_grows(d, k + 1, d.len() as int);
                assert(d.take(d.len() as int) =~= d);
            }
            return None;
        }
        i += 1;
    }
    proof {
        assert(d.take(d.len() as int) =~= d);
    }
    Some(acc as u32)
}

/// The number that `s` spells when it is a numeral that fits `u32`.
pub open spec fn readable(s: Seq<char>) -> Option<u32> {
    if s.len() > 0 && all_digits(s) && number(s) <= u32::MAX {
        Some(number(s) as u32)
    } else {
        None
    }
}

} // verus!
