//! Decimal numbers in text.
use crate::text::chars;
use vstd::prelude::*;

verus! {

/// Whether `c` is an ASCII digit.
pub open spec fn is_digit(c: char) -> bool {
    '0' <= c <= '9'
}

/// The number that an ASCII digit stands for.
pub open spec fn digit_value(c: char) -> int {
    c as int - '0' as int
}

/// A non-empty run of ASCII digits.
pub open spec fn all_digits(s: Seq<char>) -> bool {
    s.len() > 0 && forall|i: int| 0 <= i < s.len() ==> is_digit(#[trigger] s[i])
}

/// The number that a run of digits stands for, most significant first.
pub open spec fn digits_value(s: Seq<char>) -> int
    decreases s.len(),
{
    if s.len() == 0 {
        0
    } else {
        digits_value(s.drop_last()) * 10 + digit_value(s.last())
    }
}

/// The number that an unsigned decimal text stands for: digits, after an
/// optional `+`.
pub open spec fn unsigned_value(s: Seq<char>) -> Option<int> {
    let digits = if s.len() > 0 && s[0] == '+' { s.skip(1) } else { s };
    if all_digits(digits) {
        Some(digits_value(digits))
    } else {
        None
    }
}

/// The number that a signed decimal text stands for: digits, after an optional
/// `+` or `-`.
pub open spec fn signed_value(s: Seq<char>) -> Option<int> {
    if s.len() > 0 && s[0] == '-' {
        if all_digits(s.skip(1)) {
            Some(-digits_value(s.skip(1)))
        } else {
            None
        }
    } else {
        unsigned_value(s)
    }
}

/// A number if it lies within the bounds.
pub open spec fn within(v: Option<int>, low: int, high: int) -> Option<int> {
    match v {
        Some(n) => if low <= n <= high {
            Some(n)
        } else {
            None
        },
        None => None,
    }
}

/// The digit for a number below ten.
pub open spec fn digit_char(d: int) -> char {
    (d + 48) as char
}

/// The decimal text of a natural number, without leading zeros.
pub open spec fn decimal(n: nat) -> Seq<char>
    decreases n,
{
    if n < 10 {
        seq![digit_char(n as int)]
    } else {
        decimal(n / 10).push(digit_char((n % 10) as int))
    }
}

/// The decimal text of an integer.
pub open spec fn signed_decimal(n: int) -> Seq<char> {
    if n < 0 {
        seq!['-'] + decimal((-n) as nat)
    } else {
        decimal(n as nat)
    }
}

proof fn lemma_prefix_value(s: Seq<char>, i: int)
    requires
        0 <= i <= s.len(),
        forall|j: int| 0 <= j < s.len() ==> is_digit(#[trigger] s[j]),
    ensures
        0 <= digits_value(s.take(i)) <= digits_value(s),
    decreases s.len(),
{
    if i == s.len() {
        assert(s.take(i) =~= s);
        if s.len() > 0 {
            lemma_prefix_value(s.drop_last(), s.len() - 1);
            assert(s.drop_last().take(s.len() - 1) =~= s.drop_last());
            assert(is_digit(s[s.len() - 1]));
        }
    } else {
        lemma_prefix_value(s.drop_last(), i);
        assert(s.drop_last().take(i) =~= s.take(i));
        assert(is_digit(s[s.len() - 1]));
    }
}

/// The value of the digits `from..`, if all of them are digits, there is one,
/// and the value does not pass `u64::MAX`.
fn parse_digits(v: &Vec<char>, from: usize) -> (r: Option<u64>)
    requires
        from <= v@.len(),
    ensures
        match r {
            Some(n) => all_digits(v@.skip(from as int)) && digits_value(v@.skip(from as int)) == n,
            None => all_digits(v@.skip(from as int)) ==> digits_value(v@.skip(from as int))
                > u64::MAX,
        },
{
    let ghost s = v@.skip(from as int);
    if from == v.len() {
        return None;
    }
    let mut acc: u64 = 0;
    assert(s.take(0) =~= Seq::<char>::empty());
    for i in from..v.len()
        invariant
            s == v@.skip(from as int),
            from <= v@.len(),
            forall|j: int| 0 <= j < i - from ==> is_digit(#[trigger] s[j]),
            acc == digits_value(s.take(i - from)),
    {
        let c = v[i];
        assert(s[i - from] == c);
        if c < '0' || '9' < c {
            assert(!is_digit(s[i - from]));
            return None;
        }
        let d: u64 = (c as u32 - '0' as u32) as u64;
        proof {
            assert(s.take(i - from + 1).drop_last() =~= s.take(i - from));
            assert(digits_value(s.take(i - from + 1)) == acc * 10 + d);
            if all_digits(s) {
                lemma_prefix_value(s, i - from + 1);
            }
        }
        if acc > (u64::MAX - d) / 10 {
            assert(acc * 10 + d > u64::MAX) by (nonlinear_arith)
                requires
                    acc > (u64::MAX - d) / 10,
                    d <= 9,
            ;
            return None;
        }
        assert(acc * 10 + d <= u64::MAX) by (nonlinear_arith)
            requires
                acc <= (u64::MAX - d) / 10,
                d <= 9,
        ;
        acc = acc * 10 + d;
    }
    assert(s.take(v@.len() - from) =~= s);
    Some(acc)
}

/// Parses an unsigned decimal number.
pub fn parse_u64(s: &str) -> (r: Option<u64>)
    ensures
        match r {
            Some(n) => within(unsigned_value(s@), 0, u64::MAX as int) == Some(n as int),
            None => within(unsigned_value(s@), 0, u64::MAX as int) is None,
        },
{
    let v = chars(s);
    if v.len() > 0 && v[0] == '+' {
        parse_digits(&v, 1)
    } else {
        assert(v@.skip(0) =~= v@);
        parse_digits(&v, 0)
    }
}

proof fn lemma_value_nonnegative(s: Seq<char>)
    requires
        all_digits(s),
    ensures
        digits_value(s) >= 0,
{
    lemma_prefix_value(s, s.len() as int);
    assert(s.take(s.len() as int) =~= s);
}

/// An unsigned decimal text never stands for a negative number.
pub proof fn lemma_unsigned_nonnegative(s: Seq<char>)
    ensures
        unsigned_value(s) matches Some(n) ==> n >= 0,
{
    let digits = if s.len() > 0 && s[0] == '+' { s.skip(1) } else { s };
    if all_digits(digits) {
        lemma_value_nonnegative(digits);
    }
}

/// Parses an unsigned decimal number of at most `high`.
pub fn parse_up_to(s: &str, high: u64) -> (r: Option<u64>)
    ensures
        match r {
            Some(n) => within(unsigned_value(s@), 0, high as int) == Some(n as int),
            None => within(unsigned_value(s@), 0, high as int) is None,
        },
{
    match parse_u64(s) {
        Some(n) => if n <= high {
            Some(n)
        } else {
            None
        },
        None => {
            proof {
                lemma_unsigned_nonnegative(s@);
            }
            None
        },
    }
}

/// Parses a signed decimal number.
pub fn parse_i64(s: &str) -> (r: Option<i64>)
    ensures
        match r {
            Some(n) => within(signed_value(s@), i64::MIN as int, i64::MAX as int) == Some(n as int),
            None => within(signed_value(s@), i64::MIN as int, i64::MAX as int) is None,
        },
{
    let v = chars(s);
    if v.len() > 0 && v[0] == '-' {
        let m = parse_digits(&v, 1);
        match m {
            Some(n) => if n <= 9223372036854775807u64 {
                Some(-(n as i64))
            } else if n == 9223372036854775808u64 {
                Some(i64::MIN)
            } else {
                None
            },
            None => None,
        }
    } else {
        match parse_u64(s) {
            Some(n) => if n <= 9223372036854775807u64 {
                Some(n as i64)
            } else {
                None
            },
            None => {
                proof {
                    lemma_unsigned_nonnegative(s@);
                }
                None
            },
        }
    }
}

/// The decimal text of `n`.
pub fn show_u64(n: u64) -> (r: String)
    ensures
        r@ == decimal(n as nat),
    decreases n,
{
    let d: u8 = (n % 10) as u8;
    let c = (48u8 + d) as char;
    assert(c == digit_char((n % 10) as int));
    if n < 10 {
        let mut out = String::new();
        out.push(c);
        assert(out@ =~= seq![c]);
        out
    } else {
        let mut out = show_u64(n / 10);
        out.push(c);
        out
    }
}

/// The decimal text of `n`.
pub fn show_i64(n: i64) -> (r: String)
    ensures
        r@ == signed_decimal(n as int),
{
    if n == i64::MIN {
        let mut out = String::new();
        out.push('-');
        assert(out@ =~= seq!['-']);
        out.append(&show_u64(9223372036854775808u64));
        out
    } else if n < 0 {
        let mut out = String::new();
        out.push('-');
        assert(out@ =~= seq!['-']);
        out.append(&show_u64((-n) as u64));
        out
    } else {
        show_u64(n as u64)
    }
}

/// The decimal text of a number is made of digits and stands for that number.
pub proof fn decimal_reads_back(n: nat)
    ensures
        all_digits(decimal(n)),
        digits_value(decimal(n)) == n,
        unsigned_value(decimal(n)) == Some(n as int),
        signed_value(decimal(n)) == Some(n as int),
    decreases n,
{
    let s = decimal(n);
    if n < 10 {
        assert(s.drop_last() =~= Seq::<char>::empty());
        assert(digits_value(s.drop_last()) == 0);
        assert(is_digit(s[0]));
    } else {
        decimal_reads_back(n / 10);
        let h = decimal(n / 10);
        assert(s.drop_last() =~= h);
        assert(is_digit(s.last()));
        assert forall|i: int| 0 <= i < s.len() implies is_digit(#[trigger] s[i]) by {
            if i < h.len() {
                assert(is_digit(h[i]));
            }
        }
    }
    assert(is_digit(s[0]));
}

/// The decimal text of a signed number stands for that number.
pub proof fn signed_decimal_reads_back(n: int)
    ensures
        signed_value(signed_decimal(n)) == Some(n),
{
    if n < 0 {
        decimal_reads_back((-n) as nat);
        assert(signed_decimal(n).skip(1) =~= decimal((-n) as nat));
    } else {
        decimal_reads_back(n as nat);
    }
}

} // verus!
