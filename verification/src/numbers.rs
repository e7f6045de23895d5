//! Decimal text of 32-bit integers: how one is written (`Display`) and
//! read (`str::parse::<i32>`).

use vstd::prelude::*;
use vstd::string::*;
use crate::digest::hex_digit;

verus! {

/// The decimal digits of `n`, most significant first, without leading
/// zeros (a single `0` for zero).
pub open spec fn digits_of(n: nat) -> Seq<char>
    decreases n,
{
    if n < 10 {
        seq![hex_digit(n as int)]
    } else {
        digits_of(n / 10) + seq![hex_digit((n % 10) as int)]
    }
}

/// The decimal text of `i`, with a `-` when it is negative.
pub open spec fn decimal(i: int) -> Seq<char> {
    if i < 0 {
        seq!['-'] + digits_of((-i) as nat)
    } else {
        digits_of(i as nat)
    }
}

/// Why a text is not the decimal text of an `i32`.
#[derive(Debug, Clone, Copy, PartialEq, Eq, Structural)]
pub enum ParseIntError {
    /// The text is empty.
    Empty,
    /// A character that is not a digit, or a sign with nothing after it.
    InvalidDigit,
    /// The number is above `i32::MAX`.
    PosOverflow,
    /// The number is below `i32::MIN`.
    NegOverflow,
}

impl ParseIntError {
    /// The text of the error, as the user sees it.
    pub open spec fn message_spec(&self) -> Seq<char> {
        match self {
            ParseIntError::Empty => "cannot parse integer from empty string"@,
            ParseIntError::InvalidDigit => "invalid digit found in string"@,
            ParseIntError::PosOverflow => "number too large to fit in target type"@,
            ParseIntError::NegOverflow => "number too small to fit in target type"@,
        }
    }

    /// The text of the error, as the user sees it.
    pub fn message(&self) -> (r: String)
        ensures
            r@ == self.message_spec(),
    {
        match self {
            ParseIntError::Empty => String::from_str("cannot parse integer from empty string"),
            ParseIntError::InvalidDigit => String::from_str("invalid digit found in string"),
            ParseIntError::PosOverflow => String::from_str("number too large to fit in target type"),
            ParseIntError::NegOverflow => String::from_str("number too small to fit in target type"),
        }
    }
}

/// Whether `c` is an ASCII decimal digit.
pub open spec fn is_digit(c: char) -> bool {
    '0' <= c && c <= '9'
}

/// Reads the digits `s` left to right onto `acc`, adding each digit for a
/// positive number and subtracting it for a negative one; the first
/// character that is not a digit, or the first step that leaves the range
/// of `i32`, is the error.
pub open spec fn scan_digits(s: Seq<char>, acc: int, positive: bool) -> Result<int, ParseIntError>
    decreases s.len(),
{
    if s.len() == 0 {
        Ok(acc)
    } else if !is_digit(s[0]) {
        Err(ParseIntError::InvalidDigit)
    } else {
        let d = (s[0] as u32) - 48;
        let next = if positive {
            acc * 10 + d
        } else {
            acc * 10 - d
        };
        if next > i32::MAX {
            Err(ParseIntError::PosOverflow)
        } else if next < i32::MIN {
            Err(ParseIntError::NegOverflow)
        } else {
            scan_digits(s.drop_first(), next, positive)
        }
    }
}

/// What `str::parse::<i32>` gives for `s`: an optional `+` or `-` and then
/// decimal digits, read left to right.
pub open spec fn parse_i32_spec(s: Seq<char>) -> Result<int, ParseIntError> {
    if s.len() == 0 {
        Err(ParseIntError::Empty)
    } else if (s[0] == '+' || s[0] == '-') && s.len() == 1 {
        Err(ParseIntError::InvalidDigit)
    } else if s[0] == '+' {
        scan_digits(s.drop_first(), 0, true)
    } else if s[0] == '-' {
        scan_digits(s.drop_first(), 0, false)
    } else {
        scan_digits(s, 0, true)
    }
}

/// Reads the decimal text of an `i32` as `str::parse::<i32>` does.
pub fn parse_i32(s: &str) -> (r: Result<i32, ParseIntError>)
    ensures
        match parse_i32_spec(s@) {
            Ok(v) => r == Ok::<i32, ParseIntError>(v as i32) && i32::MIN <= v <= i32::MAX,
            Err(e) => r == Err::<i32, ParseIntError>(e),
        },
{
    let n = s.unicode_len();
    if n == 0 {
        return Err(ParseIntError::Empty);
    }
    let first = s.get_char(0);
    if (first == '+' || first == '-') && n == 1 {
        return Err(ParseIntError::InvalidDigit);
    }
    let positive = first != '-';
    let start: usize = if first == '+' || first == '-' {
        1
    } else {
        0
    };
    let ghost digits = s@.skip(start as int);
    assert(start == 1 ==> digits =~= s@.drop_first());
    assert(start == 0 ==> digits =~= s@);
    assert(parse_i32_spec(s@) == scan_digits(digits, 0, positive));
    let mut acc: i32 = 0;
    let mut i: usize = start;
    assert(digits.skip(0) =~= digits);
    while i < n
        invariant
            n == s@.len(),
            start <= i <= n,
            digits == s@.skip(start as int),
            parse_i32_spec(s@) == scan_digits(digits, 0, positive),
            scan_digits(digits, 0, positive) == scan_digits(
                s@.skip(i as int),
                acc as int,
                positive,
            ),
        decreases n - i,
    {
        let c = s.get_char(i);
        let ghost rest = s@.skip(i as int);
        assert(rest[0] == c);
        assert(rest.drop_first() =~= s@.skip(i + 1));
        if !('0' <= c && c <= '9') {
            return Err(ParseIntError::InvalidDigit);
        }
        let d = (c as u32 - 48) as i32;
        let wide: i64 = if positive {
            acc as i64 * 10 + d as i64
        } else {
            acc as i64 * 10 - d as i64
        };
        if wide > i32::MAX as i64 {
            return Err(ParseIntError::PosOverflow);
        }
        if wide < i32::MIN as i64 {
            return Err(ParseIntError::NegOverflow);
        }
        acc = wide as i32;
        i = i + 1;
    }
    assert(s@.skip(n as int).len() == 0);
    Ok(acc)
}

proof fn lemma_digits_shape(n: nat)
    ensures
        digits_of(n).len() >= 1,
        forall|i: int| 0 <= i < digits_of(n).len() ==> is_digit(#[trigger] digits_of(n)[i]),
    decreases n,
{
    reveal_strlit("0123456789abcdef");
    if n >= 10 {
        lemma_digits_shape(n / 10);
        let p = digits_of(n / 10);
        assert forall|i: int| 0 <= i < digits_of(n).len() implies is_digit(
            #[trigger] digits_of(n)[i],
        ) by {
            if i < p.len() {
                assert(digits_of(n)[i] == p[i]);
            }
        }
    }
}

/// The decimal text of `v` (`i32`'s `Display`).
pub fn i32_to_string(v: i32) -> (r: String)
    ensures
        r@ == decimal(v as int),
{
    let table = "0123456789abcdef";
    proof {
        reveal_strlit("0123456789abcdef");
        reveal_strlit("-");
    }
    if v == 0 {
        proof {
            reveal_strlit("0");
            assert(digits_of(0) =~= seq![hex_digit(0)]);
        }
        return String::from_str("0");
    }
    let neg = v < 0;
    let mut m: u64 = if neg {
        (-(v as i64)) as u64
    } else {
        v as u64
    };
    let ghost total = m as nat;
    // Collect the digits least significant first.
    let mut rev: Vec<usize> = Vec::new();
    assert(value_rev(rev@) == 0 && pow10(0) == 1);
    while m > 0
        invariant
            table@ == "0123456789abcdef"@,
            total > 0,
            total == m * pow10(rev@.len()) + value_rev(rev@),
            forall|k: int| 0 <= k < rev@.len() ==> #[trigger] rev@[k] < 10,
            rev@.len() == 0 ==> m == total,
            rev@.len() > 0 && m > 0 ==> digits_of(total) == digits_of(m as nat) + digits_rev(rev@),
            rev@.len() > 0 && m == 0 ==> digits_of(total) == digits_rev(rev@),
        decreases m,
    {
        let d = (m % 10) as usize;
        proof {
            lemma_digits_step(m as nat, rev@, total);
        }
        rev.push(d);
        m = m / 10;
    }
    let mut r = if neg {
        String::from_str("-")
    } else {
        String::new()
    };
    let ghost head = r@;
    let mut k: usize = rev.len();
    assert(digits_rev(rev@).len() == rev@.len()) by {
        lemma_digits_rev_len(rev@);
    }
    while k > 0
        invariant
            table@ == "0123456789abcdef"@,
            table@.len() == 16,
            k <= rev@.len(),
            forall|t: int| 0 <= t < rev@.len() ==> #[trigger] rev@[t] < 10,
            r@ == head + digits_rev(rev@).take(rev@.len() - k),
            digits_rev(rev@).len() == rev@.len(),
        decreases k,
    {
        let d = rev[k - 1];
        r.append(table.substring_char(d, d + 1));
        proof {
            assert(table@.subrange(d as int, d + 1) =~= seq![hex_digit(d as int)]);
            lemma_digits_rev_index(rev@, (rev@.len() - k) as int);
            assert(digits_rev(rev@).take(rev@.len() - k + 1) =~= digits_rev(rev@).take(
                rev@.len() - k,
            ).push(hex_digit(d as int)));
        }
        k = k - 1;
    }
    assert(digits_rev(rev@).take(rev@.len() as int) =~= digits_rev(rev@));
    assert(neg ==> total == -(v as int));
    assert(!neg ==> total == v as int);
    r
}

/// `10` to the power `e`.
pub open spec fn pow10(e: nat) -> nat
    decreases e,
{
    if e == 0 {
        1
    } else {
        10 * pow10((e - 1) as nat)
    }
}

/// The number whose digits, least significant first, are `rev`.
pub open spec fn value_rev(rev: Seq<usize>) -> nat
    decreases rev.len(),
{
    if rev.len() == 0 {
        0
    } else {
        (value_rev(rev.drop_last()) + rev.last() * pow10((rev.len() - 1) as nat)) as nat
    }
}

/// The digits `rev` (least significant first) written most significant
/// first.
pub open spec fn digits_rev(rev: Seq<usize>) -> Seq<char>
    decreases rev.len(),
{
    if rev.len() == 0 {
        Seq::empty()
    } else {
        seq![hex_digit(rev.last() as int)] + digits_rev(rev.drop_last())
    }
}

proof fn lemma_digits_rev_len(rev: Seq<usize>)
    ensures
        digits_rev(rev).len() == rev.len(),
    decreases rev.len(),
{
    if rev.len() > 0 {
        lemma_digits_rev_len(rev.drop_last());
    }
}

proof fn lemma_digits_rev_index(rev: Seq<usize>, j: int)
    requires
        0 <= j < rev.len(),
    ensures
        digits_rev(rev)[j] == hex_digit(rev[rev.len() - 1 - j] as int),
    decreases rev.len(),
{
    lemma_digits_rev_len(rev.drop_last());
    if j > 0 {
        lemma_digits_rev_index(rev.drop_last(), j - 1);
    }
}

proof fn lemma_digits_rev_push(rev: Seq<usize>, d: usize)
    ensures
        digits_rev(rev.push(d)) == seq![hex_digit(d as int)] + digits_rev(rev),
{
    assert(rev.push(d).drop_last() =~= rev);
}

proof fn lemma_value_rev_push(rev: Seq<usize>, d: usize)
    ensures
        value_rev(rev.push(d)) == value_rev(rev) + d * pow10(rev.len()),
{
    assert(rev.push(d).drop_last() =~= rev);
}

proof fn lemma_digits_step(m: nat, rev: Seq<usize>, total: nat)
    requires
        m > 0,
        total == m * pow10(rev.len()) + value_rev(rev),
        rev.len() == 0 ==> m == total,
        rev.len() > 0 ==> digits_of(total) == digits_of(m) + digits_rev(rev),
    ensures
        total == (m / 10) * pow10(rev.push((m % 10) as usize).len()) + value_rev(
            rev.push((m % 10) as usize),
        ),
        m / 10 > 0 ==> digits_of(total) == digits_of(m / 10) + digits_rev(
            rev.push((m % 10) as usize),
        ),
        m / 10 == 0 ==> digits_of(total) == digits_rev(rev.push((m % 10) as usize)),
{
    let d = (m % 10) as usize;
    lemma_value_rev_push(rev, d);
    lemma_digits_rev_push(rev, d);
    let p = pow10(rev.len());
    assert(pow10(rev.len() + 1) == 10 * p);
    assert(m * p == (m / 10) * (10 * p) + d * p) by (nonlinear_arith)
        requires
            d == m % 10,
    ;
    let empty_rev: Seq<usize> = Seq::empty();
    if rev.len() == 0 {
        assert(digits_rev(rev) =~= Seq::<char>::empty());
    }
    if m / 10 > 0 {
        assert(digits_of(m) == digits_of(m / 10) + seq![hex_digit(d as int)]);
        assert(digits_of(m) + digits_rev(rev) =~= digits_of(m / 10) + (seq![hex_digit(d as int)]
            + digits_rev(rev)));
    } else {
        assert(m < 10);
        assert(digits_of(m) == seq![hex_digit(m as int)]);
        assert(d == m);
    }
}

} // verus!

verus! {

proof fn lemma_hex_digit_decimal(d: int)
    requires
        0 <= d < 10,
    ensures
        is_digit(hex_digit(d)),
        (hex_digit(d) as u32) - 48 == d,
        hex_digit(d) != '-' && hex_digit(d) != '+',
{
    reveal_strlit("0123456789abcdef");
    let s = "0123456789abcdef"@;
    if d == 0 { assert(s[0] == '0'); }
    else if d == 1 { assert(s[1] == '1'); }
    else if d == 2 { assert(s[2] == '2'); }
    else if d == 3 { assert(s[3] == '3'); }
    else if d == 4 { assert(s[4] == '4'); }
    else if d == 5 { assert(s[5] == '5'); }
    else if d == 6 { assert(s[6] == '6'); }
    else if d == 7 { assert(s[7] == '7'); }
    else if d == 8 { assert(s[8] == '8'); }
    else { assert(s[9] == '9'); }
}

proof fn lemma_scan_append(a: Seq<char>, b: Seq<char>, acc: int, positive: bool)
    requires
        scan_digits(a, acc, positive) is Ok,
    ensures
        scan_digits(a + b, acc, positive) == scan_digits(
            b,
            scan_digits(a, acc, positive)->Ok_0,
            positive,
        ),
    decreases a.len(),
{
    if a.len() == 0 {
        assert(a + b =~= b);
    } else {
        let d = (a[0] as u32) - 48;
        let next = if positive {
            acc * 10 + d
        } else {
            acc * 10 - d
        };
        assert((a + b)[0] == a[0]);
        assert((a + b).drop_first() =~= a.drop_first() + b);
        lemma_scan_append(a.drop_first(), b, next, positive);
    }
}

proof fn lemma_scan_digits_of(n: nat, positive: bool)
    requires
        positive ==> n <= i32::MAX,
        !positive ==> n <= 0x8000_0000,
    ensures
        scan_digits(digits_of(n), 0, positive) == Ok::<int, ParseIntError>(
            if positive {
                n as int
            } else {
                -(n as int)
            },
        ),
    decreases n,
{
    if n < 10 {
        lemma_hex_digit_decimal(n as int);
        let s = digits_of(n);
        assert(s.drop_first() =~= Seq::<char>::empty());
        let v: int = if positive { n as int } else { -(n as int) };
        assert(scan_digits(s.drop_first(), v, positive) == Ok::<int, ParseIntError>(v));
    } else {
        let q = n / 10;
        let d = n % 10;
        lemma_scan_digits_of(q, positive);
        lemma_hex_digit_decimal(d as int);
        let tail = seq![hex_digit(d as int)];
        lemma_scan_append(digits_of(q), tail, 0, positive);
        assert(tail.drop_first() =~= Seq::<char>::empty());
        assert(n == q * 10 + d);
        assert(digits_of(n) == digits_of(q) + tail);
        let sq: int = if positive { q as int } else { -(q as int) };
        let next: int = if positive { sq * 10 + d } else { sq * 10 - d };
        assert(next == if positive { n as int } else { -(n as int) });
        assert(tail[0] == hex_digit(d as int));
        assert(scan_digits(tail, sq, positive) == scan_digits(tail.drop_first(), next, positive));
        assert(scan_digits(tail.drop_first(), next, positive) == Ok::<int, ParseIntError>(next));
    }
}

/// Reading back the decimal text of an `i32` gives the number: the
/// identifiers written into template addresses parse to themselves.
pub proof fn law_decimal_reads_back(v: i32)
    ensures
        parse_i32_spec(decimal(v as int)) == Ok::<int, ParseIntError>(v as int),
{
    if v < 0 {
        let m = (-(v as int)) as nat;
        lemma_scan_digits_of(m, false);
        lemma_digits_shape(m);
        let s = decimal(v as int);
        assert(s.drop_first() =~= digits_of(m));
        assert(s[0] == '-');
    } else {
        let m = v as nat;
        lemma_scan_digits_of(m, true);
        lemma_digits_shape(m);
        let s = digits_of(m);
        if m < 10 {
            lemma_hex_digit_decimal(m as int);
        } else {
            assert(s[0] == digits_of(m / 10)[0]);
            lemma_digits_first(m / 10);
        }
    }
}

proof fn lemma_digits_first(n: nat)
    ensures
        digits_of(n)[0] != '-' && digits_of(n)[0] != '+',
    decreases n,
{
    lemma_digits_shape(n);
    if n < 10 {
        lemma_hex_digit_decimal(n as int);
    } else {
        assert(digits_of(n)[0] == digits_of(n / 10)[0]);
        lemma_digits_first(n / 10);
    }
}

} // verus!
