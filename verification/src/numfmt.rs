//! Decimal rendering and parsing of the integer quantities the core works
//! with: plain decimal strings, zero-padded fields and two-decimal
//! fixed-point magnitudes (values held in hundredths of a unit).
use vstd::prelude::*;

verus! {

/// The decimal digit character for a value in `0 ..= 9`.
pub open spec fn digit_char(d: int) -> char {
    if d == 0 {
        '0'
    } else if d == 1 {
        '1'
    } else if d == 2 {
        '2'
    } else if d == 3 {
        '3'
    } else if d == 4 {
        '4'
    } else if d == 5 {
        '5'
    } else if d == 6 {
        '6'
    } else if d == 7 {
        '7'
    } else if d == 8 {
        '8'
    } else {
        '9'
    }
}

/// Decimal rendering of a non-negative value, most significant digit first,
/// without leading zeros (except for the value zero itself).
pub open spec fn dec_str(n: nat) -> Seq<char>
    decreases n,
{
    if n < 10 {
        seq![digit_char(n as int)]
    } else {
        dec_str(n / 10) + seq![digit_char((n % 10) as int)]
    }
}

/// Decimal rendering of a signed value: a minus sign ahead of the magnitude.
pub open spec fn int_str(v: int) -> Seq<char> {
    if v < 0 {
        seq!['-'] + dec_str((-v) as nat)
    } else {
        dec_str(v as nat)
    }
}

/// Two-digit zero-padded rendering of a value in `0 ..= 99`.
pub open spec fn pad2_str(n: nat) -> Seq<char> {
    seq![digit_char(n as int / 10), digit_char(n as int % 10)]
}

/// Four-digit zero-padded rendering of a value in `0 ..= 9999`.
pub open spec fn pad4_str(n: nat) -> Seq<char> {
    seq![
        digit_char(n as int / 1000),
        digit_char(n as int / 100 % 10),
        digit_char(n as int / 10 % 10),
        digit_char(n as int % 10),
    ]
}

/// Fixed-point rendering with exactly two fractional digits of a value held
/// in hundredths: the integer part, a dot, then the two-digit fraction.
pub open spec fn centi_str(v: int) -> Seq<char> {
    if v < 0 {
        seq!['-'] + dec_str(((-v) / 100) as nat) + seq!['.'] + pad2_str(((-v) % 100) as nat)
    } else {
        dec_str((v / 100) as nat) + seq!['.'] + pad2_str((v % 100) as nat)
    }
}

/// A one-character string for each decimal digit.
fn digit_str(d: u64) -> (r: &'static str)
    requires
        d < 10,
    ensures
        r@ == seq![digit_char(d as int)],
{
    proof {
        reveal_strlit("0");
        reveal_strlit("1");
        reveal_strlit("2");
        reveal_strlit("3");
        reveal_strlit("4");
        reveal_strlit("5");
        reveal_strlit("6");
        reveal_strlit("7");
        reveal_strlit("8");
        reveal_strlit("9");
    }
    match d {
        0 => "0",
        1 => "1",
        2 => "2",
        3 => "3",
        4 => "4",
        5 => "5",
        6 => "6",
        7 => "7",
        8 => "8",
        _ => "9",
    }
}

/// Decimal rendering of a non-negative value.
pub fn u64_dec(n: u64) -> (s: String)
    ensures
        s@ == dec_str(n as nat),
    decreases n,
{
    if n < 10 {
        digit_str(n).to_owned()
    } else {
        let mut s = u64_dec(n / 10);
        s.append(digit_str(n % 10));
        s
    }
}

/// Decimal rendering of a signed value.
pub fn i64_dec(v: i64) -> (s: String)
    requires
        v > i64::MIN,
    ensures
        s@ == int_str(v as int),
{
    if v < 0 {
        let mut s = "-".to_owned();
        proof {
            reveal_strlit("-");
            assert("-"@ =~= seq!['-']);
        }
        s.append(u64_dec((-v) as u64).as_str());
        proof {
            assert(s@ =~= int_str(v as int));
        }
        s
    } else {
        let s = u64_dec(v as u64);
        s
    }
}

/// Two-digit zero-padded rendering.
pub fn u64_pad2(n: u64) -> (s: String)
    requires
        n < 100,
    ensures
        s@ == pad2_str(n as nat),
{
    let mut s = digit_str(n / 10).to_owned();
    s.append(digit_str(n % 10));
    proof {
        assert(s@ =~= pad2_str(n as nat));
    }
    s
}

/// Four-digit zero-padded rendering.
pub fn u64_pad4(n: u64) -> (s: String)
    requires
        n < 10000,
    ensures
        s@ == pad4_str(n as nat),
{
    let mut s = digit_str(n / 1000).to_owned();
    s.append(digit_str(n / 100 % 10));
    s.append(digit_str(n / 10 % 10));
    s.append(digit_str(n % 10));
    proof {
        assert(s@ =~= pad4_str(n as nat));
    }
    s
}

/// Fixed-point rendering with exactly two fractional digits of a quantity
/// held in hundredths of its unit.
pub fn format_centi(v: i64) -> (s: String)
    requires
        v > i64::MIN,
    ensures
        s@ == centi_str(v as int),
{
    proof {
        reveal_strlit("-");
        reveal_strlit(".");
        assert("-"@ =~= seq!['-']);
        assert("."@ =~= seq!['.']);
    }
    if v < 0 {
        let m = (-v) as u64;
        let mut s = "-".to_owned();
        s.append(u64_dec(m / 100).as_str());
        s.append(".");
        s.append(u64_pad2(m % 100).as_str());
        proof {
            assert(s@ =~= centi_str(v as int));
        }
        s
    } else {
        let m = v as u64;
        let mut s = u64_dec(m / 100);
        s.append(".");
        s.append(u64_pad2(m % 100).as_str());
        proof {
            assert(s@ =~= centi_str(v as int));
        }
        s
    }
}

/// A decimal rendering is never empty and opens with a digit character.
pub proof fn lemma_dec_str_first(n: nat)
    ensures
        dec_str(n).len() >= 1,
        exists|d: int| 0 <= d < 10 && dec_str(n)[0] == digit_char(d),
    decreases n,
{
    if n < 10 {
        assert(dec_str(n)[0] == digit_char(n as int));
    } else {
        lemma_dec_str_first(n / 10);
        assert(dec_str(n)[0] == dec_str(n / 10)[0]);
    }
}

/// A decimal digit character.
pub open spec fn is_digit(c: char) -> bool {
    48 <= c as int <= 57
}

/// The value of a decimal digit character.
pub open spec fn digit_val(c: char) -> int {
    c as int - 48
}

/// The value of a sequence of decimal digit characters, most significant
/// first.
pub open spec fn digits_val(s: Seq<char>) -> int
    decreases s.len(),
{
    if s.len() == 0 {
        0
    } else {
        digits_val(s.drop_last()) * 10 + digit_val(s.last())
    }
}

/// Every character of the sequence is a decimal digit.
pub open spec fn all_digits(s: Seq<char>) -> bool {
    forall|i: int| 0 <= i < s.len() ==> is_digit(#[trigger] s[i])
}

/// An optionally signed decimal literal denotes a negated magnitude.
pub open spec fn literal_neg(s: Seq<char>) -> bool {
    s.len() > 0 && s[0] == '-'
}

/// The digit characters of an optionally signed decimal literal.
pub open spec fn literal_digits(s: Seq<char>) -> Seq<char> {
    if s.len() > 0 && (s[0] == '+' || s[0] == '-') {
        s.drop_first()
    } else {
        s
    }
}

/// The text is a decimal literal that `i64` holds: an optional sign, one
/// or more digits, and a magnitude within range.
pub open spec fn is_i64_literal(s: Seq<char>) -> bool {
    &&& literal_digits(s).len() > 0
    &&& all_digits(literal_digits(s))
    &&& if literal_neg(s) {
        digits_val(literal_digits(s)) <= 0x8000_0000_0000_0000
    } else {
        digits_val(literal_digits(s)) <= 0x7fff_ffff_ffff_ffff
    }
}

/// The value of a decimal literal.
pub open spec fn i64_literal_val(s: Seq<char>) -> int {
    if literal_neg(s) {
        -digits_val(literal_digits(s))
    } else {
        digits_val(literal_digits(s))
    }
}

/// A sequence of digits has a non-negative value.
pub proof fn lemma_digits_val_nonneg(s: Seq<char>)
    requires
        all_digits(s),
    ensures
        digits_val(s) >= 0,
    decreases s.len(),
{
    if s.len() > 0 {
        assert(all_digits(s.drop_last())) by {
            assert(forall|i: int|
                0 <= i < s.drop_last().len() ==> #[trigger] s.drop_last()[i] == s[i]);
        }
        lemma_digits_val_nonneg(s.drop_last());
    }
}

/// Extending a digit sequence never lowers its value.
pub proof fn lemma_digits_val_monotone(s: Seq<char>, m: int)
    requires
        all_digits(s),
        0 <= m <= s.len(),
    ensures
        digits_val(s.take(m)) <= digits_val(s),
    decreases s.len() - m,
{
    if m < s.len() {
        lemma_digits_val_monotone(s, m + 1);
        assert(s.take(m + 1).drop_last() =~= s.take(m));
        assert(all_digits(s.take(m))) by {
            assert(forall|i: int| 0 <= i < m ==> #[trigger] s.take(m)[i] == s[i]);
        }
        lemma_digits_val_nonneg(s.take(m));
        assert(digits_val(s.take(m + 1)) == digits_val(s.take(m)) * 10 + digit_val(s[m]));
        assert(is_digit(s[m]));
        assert(digits_val(s.take(m)) <= digits_val(s.take(m)) * 10 + digit_val(s[m]))
            by (nonlinear_arith)
            requires
                digits_val(s.take(m)) >= 0,
                digit_val(s[m]) >= 0,
        ;
    } else {
        assert(s.take(m) =~= s);
    }
}

/// Parses an optionally signed decimal integer, exactly as far as `i64`
/// can hold it: the result exists precisely when the text is a sign
/// followed by one or more digits whose magnitude fits.
pub fn parse_i64(s: &str) -> (r: Option<i64>)
    ensures
        r is Some <==> is_i64_literal(s@),
        r matches Some(v) ==> v as int == i64_literal_val(s@),
{
    let len = s.unicode_len();
    let mut start: usize = 0;
    let mut neg = false;
    if len > 0 {
        let c0 = s.get_char(0);
        if c0 == '+' || c0 == '-' {
            neg = c0 == '-';
            start = 1;
        }
    }
    let ghost ds = literal_digits(s@);
    proof {
        assert(literal_neg(s@) == neg);
        assert(ds =~= s@.skip(start as int));
    }
    if start >= len {
        return None;
    }
    let bound: u64 = if neg {
        0x8000_0000_0000_0000
    } else {
        0x7fff_ffff_ffff_ffff
    };
    let mut acc: u64 = 0;
    let mut i: usize = start;
    while i < len
        invariant
            start <= i <= len,
            len == s@.len(),
            start <= 1,
            ds == s@.skip(start as int),
            ds == literal_digits(s@),
            neg == literal_neg(s@),
            bound == if neg {
                0x8000_0000_0000_0000u64
            } else {
                0x7fff_ffff_ffff_ffffu64
            },
            acc <= bound,
            all_digits(ds.take(i - start)),
            acc == digits_val(ds.take(i - start)),
        decreases len - i,
    {
        let c = s.get_char(i);
        let cu = c as u32;
        let ghost k = i - start;
        proof {
            assert(ds[k as int] == s@[i as int]);
            assert(ds.take(k + 1).drop_last() =~= ds.take(k as int));
            assert(ds.take(k + 1).last() == ds[k as int]);
        }
        if cu < 48 || cu > 57 {
            proof {
                assert(!is_digit(ds[k as int]));
                assert(!all_digits(ds));
            }
            return None;
        }
        let d = (cu - 48) as u64;
        if acc > (bound - d) / 10 {
            proof {
                assert(acc * 10 + d > bound) by (nonlinear_arith)
                    requires
                        acc > (bound - d) / 10,
                        d <= bound,
                        acc >= 0,
                        bound >= 0,
                ;
                if is_i64_literal(s@) {
                    lemma_digits_val_monotone(ds, k + 1);
                    assert(digits_val(ds.take(k + 1)) == acc * 10 + d);
                    assert(digits_val(ds) > bound);
                }
            }
            return None;
        }
        proof {
            assert(acc * 10 + d <= bound) by (nonlinear_arith)
                requires
                    acc <= (bound - d) / 10,
                    d <= bound,
                    acc >= 0,
                    bound >= 0,
            ;
        }
        acc = acc * 10 + d;
        proof {
            assert(all_digits(ds.take(k + 1))) by {
                assert(forall|l: int|
                    0 <= l < k ==> #[trigger] ds.take(k + 1)[l] == ds.take(k as int)[l]);
            }
        }
        i += 1;
    }
    proof {
        assert(ds.take((len - start) as int) =~= ds);
        assert(is_i64_literal(s@));
    }
    if neg {
        if acc == 0x8000_0000_0000_0000 {
            Some(i64::MIN)
        } else {
            Some(-(acc as i64))
        }
    } else {
        Some(acc as i64)
    }
}

} // verus!
