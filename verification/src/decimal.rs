//! Reading integers written in decimal, the way std's integer parsing
//! reads them: an optional sign, then one or more ASCII digits, nothing else.

use vstd::prelude::*;
use vstd::string::*;

verus! {

pub open spec fn is_digit(c: char) -> bool {
    '0' <= c && c <= '9'
}

pub open spec fn digit_value(c: char) -> int {
    c as int - '0' as int
}

pub open spec fn all_digits(s: Seq<char>) -> bool {
    forall|i: int| 0 <= i < s.len() ==> is_digit(#[trigger] s[i])
}

/// The number that a string of digits writes in base ten.
pub open spec fn digits_value(s: Seq<char>) -> int
    decreases s.len(),
{
    if s.len() == 0 {
        0
    } else {
        digits_value(s.drop_last()) * 10 + digit_value(s.last())
    }
}

/// One or more digits, or a sign followed by one or more digits.
pub open spec fn signed_decimal(s: Seq<char>) -> Option<int> {
    if s.len() > 0 && (s[0] == '+' || s[0] == '-') {
        let digits = s.drop_first();
        if digits.len() > 0 && all_digits(digits) {
            Some(
                if s[0] == '-' {
                    -digits_value(digits)
                } else {
                    digits_value(digits)
                },
            )
        } else {
            None
        }
    } else if s.len() > 0 && all_digits(s) {
        Some(digits_value(s))
    } else {
        None
    }
}

/// One or more digits, optionally after a `+`.
pub open spec fn unsigned_decimal(s: Seq<char>) -> Option<int> {
    if s.len() > 0 && s[0] == '-' {
        None
    } else {
        signed_decimal(s)
    }
}

/// What `s.parse::<i64>()` gives: the value, if `s` writes one that fits.
pub open spec fn i64_from_decimal(s: Seq<char>) -> Option<i64> {
    match signed_decimal(s) {
        Some(v) => if i64::MIN <= v <= i64::MAX {
            Some(v as i64)
        } else {
            None
        },
        None => None,
    }
}

/// What `s.parse::<u64>()` gives: the value, if `s` writes one that fits.
pub open spec fn u64_from_decimal(s: Seq<char>) -> Option<u64> {
    match unsigned_decimal(s) {
        Some(v) => if 0 <= v <= u64::MAX {
            Some(v as u64)
        } else {
            None
        },
        None => None,
    }
}

proof fn lemma_digits_value_nonneg(s: Seq<char>)
    requires
        all_digits(s),
    ensures
        digits_value(s) >= 0,
    decreases s.len(),
{
    if s.len() > 0 {
        assert(is_digit(s[s.len() - 1]));
        lemma_digits_value_nonneg(s.drop_last());
    }
}

/// A longer run of digits never writes a smaller number.
proof fn lemma_digits_value_grows(s: Seq<char>, i: int, j: int)
    requires
        all_digits(s),
        0 <= i <= j <= s.len(),
    ensures
        digits_value(s.take(i)) <= digits_value(s.take(j)),
    decreases j - i,
{
    if i < j {
        lemma_digits_value_grows(s, i, j - 1);
        let t = s.take(j);
        assert(t.drop_last() =~= s.take(j - 1));
        assert(is_digit(s[j - 1]));
        lemma_digits_value_nonneg(s.take(j - 1));
    }
}

/// The magnitude written by the digits of `s` from `start` on, if it is at
/// most `bound`.
fn digits_up_to(s: &str, start: usize, bound: u64) -> (r: Option<u64>)
    requires
        start <= s@.len(),
    ensures
        r is Some <==> all_digits(s@.skip(start as int)) && digits_value(s@.skip(start as int))
            <= bound,
        r matches Some(v) ==> v == digits_value(s@.skip(start as int)),
{
    let n = s.unicode_len();
    let ghost d = s@.skip(start as int);
    let mut acc: u64 = 0;
    let mut i: usize = start;
    while i < n
        invariant
            n == s@.len(),
            start <= i <= n,
            d == s@.skip(start as int),
            all_digits(d.take(i - start)),
            acc == digits_value(d.take(i - start)),
            acc <= bound,
        decreases n - i,
    {
        let c = s.get_char(i);
        let ghost k = i - start;
        assert(d[k] == c);
        if !('0' <= c && c <= '9') {
            assert(!all_digits(d));
            return None;
        }
        assert(d.take(k + 1).drop_last() =~= d.take(k));
        assert(all_digits(d.take(k + 1)));
        let digit: u64 = (c as u32 - '0' as u32) as u64;
        if digit > bound || acc > (bound - digit) / 10 {
            assert(digits_value(d.take(k + 1)) > bound) by (nonlinear_arith)
                requires
                    digits_value(d.take(k + 1)) == acc * 10 + digit,
                    digit > bound || acc > (bound - digit) / 10,
                    digit <= 9,
                    acc >= 0,
            ;
            proof {
                if all_digits(d) {
                    lemma_digits_value_grows(d, k + 1, d.len() as int);
                    assert(d.take(d.len() as int) =~= d);
                }
            }
            return None;
        }
        assert(acc * 10 + digit <= bound) by (nonlinear_arith)
            requires
                digit <= bound,
                acc <= (bound - digit) / 10,
                acc >= 0,
        ;
        acc = acc * 10 + digit;
        i = i + 1;
    }
    assert(d.take(n - start) =~= d);
    Some(acc)
}

/// A single ASCII digit reads as its value, signed and unsigned.
pub proof fn single_digit_reads(c: char)
    requires
        '0' <= c <= '9',
    ensures
        i64_from_decimal(seq![c]) == Some((c as int - '0' as int) as i64),
        u64_from_decimal(seq![c]) == Some((c as int - '0' as int) as u64),
{
    let s = seq![c];
    assert(s.drop_last() =~= Seq::<char>::empty());
    assert(digits_value(s.drop_last()) == 0);
    assert(s.last() == c);
    assert(digits_value(s) == c as int - '0' as int);
    assert(s[0] == c);
    assert(all_digits(s));
}

/// Writing one more digit after a run of digits, of any length, multiplies
/// what it reads as by ten and adds the digit; the result reads as nothing
/// once it no longer fits.
pub proof fn appending_a_digit(s: Seq<char>, c: char)
    requires
        s.len() > 0,
        forall|i: int| 0 <= i < s.len() ==> '0' <= #[trigger] s[i] <= '9',
        '0' <= c <= '9',
    ensures
        ({
            let d = c as int - '0' as int;
            &&& i64_from_decimal(s) matches Some(v) ==> i64_from_decimal(s.push(c)) == (if 10 * v
                + d <= i64::MAX {
                Some((10 * v + d) as i64)
            } else {
                None::<i64>
            })
            &&& u64_from_decimal(s) matches Some(v) ==> u64_from_decimal(s.push(c)) == (if 10 * v
                + d <= u64::MAX {
                Some((10 * v + d) as u64)
            } else {
                None::<u64>
            })
        }),
{
    let t = s.push(c);
    assert(t.drop_last() =~= s);
    assert(all_digits(s));
    assert(all_digits(t)) by {
        assert forall|i: int| 0 <= i < t.len() implies is_digit(#[trigger] t[i]) by {
            if i < s.len() {
                assert(t[i] == s[i]);
            }
        }
    }
    assert(t[0] == s[0]);
    lemma_digits_value_nonneg(s);
}

/// A run of digits reads, after a `-`, as the negation of what it reads as
/// alone, and after a `+` as the same number.
pub proof fn signs_before_digits(s: Seq<char>)
    requires
        s.len() > 0,
        forall|i: int| 0 <= i < s.len() ==> '0' <= #[trigger] s[i] <= '9',
    ensures
        i64_from_decimal(s) matches Some(v) ==> i64_from_decimal(seq!['-'] + s) == Some(-v as i64)
            && i64_from_decimal(seq!['+'] + s) == Some(v),
        u64_from_decimal(s) matches Some(v) ==> u64_from_decimal(seq!['+'] + s) == Some(v)
            && u64_from_decimal(seq!['-'] + s) is None,
{
    assert((seq!['-'] + s).drop_first() =~= s);
    assert((seq!['+'] + s).drop_first() =~= s);
    assert(all_digits(s));
    assert((seq!['-'] + s)[0] == '-');
    assert((seq!['+'] + s)[0] == '+');
    lemma_digits_value_nonneg(s);
}

/// What reads as no number: the empty string, a lone sign, any string with
/// a character that is neither an ASCII digit nor a sign in front, and, as an
/// unsigned number, anything after a `-`.
pub proof fn non_numbers_read_as_nothing(s: Seq<char>, i: int)
    ensures
        i64_from_decimal(Seq::empty()) is None,
        u64_from_decimal(Seq::empty()) is None,
        i64_from_decimal(seq!['-']) is None && i64_from_decimal(seq!['+']) is None,
        u64_from_decimal(seq!['-']) is None && u64_from_decimal(seq!['+']) is None,
        0 <= i < s.len() && !('0' <= s[i] <= '9') && !(i == 0 && (s[0] == '+' || s[0] == '-'))
            ==> i64_from_decimal(s) is None && u64_from_decimal(s) is None,
        s.len() > 0 && s[0] == '-' ==> u64_from_decimal(s) is None,
{
    assert(seq!['-'].drop_first() =~= Seq::<char>::empty());
    assert(seq!['+'].drop_first() =~= Seq::<char>::empty());
    if 0 <= i < s.len() && !('0' <= s[i] <= '9') && !(i == 0 && (s[0] == '+' || s[0] == '-')) {
        assert(!all_digits(s));
        if s[0] == '+' || s[0] == '-' {
            assert(s.drop_first()[i - 1] == s[i]);
            assert(!all_digits(s.drop_first()));
        }
    }
}

/// A string that reads as an unsigned number small enough for `i64` reads as
/// the same signed number. (The converse fails: `-0` reads as the signed 0
/// and not as an unsigned number.)
pub proof fn unsigned_reads_as_signed(s: Seq<char>)
    requires
        u64_from_decimal(s) matches Some(v) && v <= i64::MAX,
    ensures
        i64_from_decimal(s) == Some(u64_from_decimal(s)->0 as i64),
{
}

/// Reads `s` as `s.parse::<i64>()` does.
pub fn parse_i64(s: &str) -> (r: Option<i64>)
    ensures
        r == i64_from_decimal(s@),
{
    let n = s.unicode_len();
    if n == 0 {
        return None;
    }
    let first = s.get_char(0);
    if first == '+' || first == '-' {
        if n == 1 {
            return None;
        }
        let negative = first == '-';
        let bound: u64 = if negative {
            0x8000_0000_0000_0000
        } else {
            0x7fff_ffff_ffff_ffff
        };
        assert(s@.skip(1) =~= s@.drop_first());
        match digits_up_to(s, 1, bound) {
            Some(m) => {
                if negative {
                    if m == 0x8000_0000_0000_0000 {
                        Some(i64::MIN)
                    } else {
                        Some(-(m as i64))
                    }
                } else {
                    Some(m as i64)
                }
            },
            None => None,
        }
    } else {
        assert(s@.skip(0) =~= s@);
        match digits_up_to(s, 0, 0x7fff_ffff_ffff_ffff) {
            Some(m) => Some(m as i64),
            None => {
                proof {
                    if all_digits(s@) {
                        lemma_digits_value_nonneg(s@);
                    }
                }
                None
            },
        }
    }
}

/// Reads `s` as `s.parse::<u64>()` does.
pub fn parse_u64(s: &str) -> (r: Option<u64>)
    ensures
        r == u64_from_decimal(s@),
{
    let n = s.unicode_len();
    if n == 0 {
        return None;
    }
    let first = s.get_char(0);
    if first == '-' {
        return None;
    }
    if first == '+' {
        if n == 1 {
            return None;
        }
        assert(s@.skip(1) =~= s@.drop_first());
        let r = digits_up_to(s, 1, u64::MAX);
        proof {
            if all_digits(s@.drop_first()) {
                lemma_digits_value_nonneg(s@.drop_first());
            }
        }
        r
    } else {
        assert(s@.skip(0) =~= s@);
        let r = digits_up_to(s, 0, u64::MAX);
        proof {
            if all_digits(s@) {
                lemma_digits_value_nonneg(s@);
            }
        }
        r
    }
}

} // verus!
