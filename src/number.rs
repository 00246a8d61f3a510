//! Decimal numbers as text: reading an unsigned machine integer from ASCII
//! bytes, and writing one out.
use vstd::prelude::*;

verus! {

/// Why a run of bytes is not an unsigned machine integer.
#[derive(Debug, Clone, Copy, PartialEq, Eq, Structural)]
pub enum NumberError {
    /// Nothing to read.
    Empty,
    /// A byte that is not a decimal digit where one is needed.
    InvalidDigit,
    /// The digits name a value above `usize::MAX`.
    TooLarge,
}

impl NumberError {
    /// The sentence that describes the failure.
    pub open spec fn message(self) -> Seq<char> {
        match self {
            NumberError::Empty => "cannot parse integer from empty string"@,
            NumberError::InvalidDigit => "invalid digit found in string"@,
            NumberError::TooLarge => "number too large to fit in target type"@,
        }
    }

    /// The sentence that describes the failure.
    pub fn text(&self) -> (r: String)
        ensures
            r@ == self.message(),
    {
        match self {
            NumberError::Empty => String::from_str("cannot parse integer from empty string"),
            NumberError::InvalidDigit => String::from_str("invalid digit found in string"),
            NumberError::TooLarge => String::from_str("number too large to fit in target type"),
        }
    }
}

/// An ASCII decimal digit.
pub open spec fn is_digit(b: u8) -> bool {
    48 <= b <= 57
}

/// Reads `d` left to right as decimal digits, stopping at the first byte that
/// is not a digit or at the first digit that takes the value past `usize::MAX`.
pub open spec fn scan_digits(d: Seq<u8>) -> Result<nat, NumberError>
    decreases d.len(),
{
    if d.len() == 0 {
        Ok(0)
    } else {
        match scan_digits(d.drop_last()) {
            Err(e) => Err(e),
            Ok(v) => if !is_digit(d.last()) {
                Err(NumberError::InvalidDigit)
            } else if v * 10 + (d.last() - 48) > usize::MAX {
                Err(NumberError::TooLarge)
            } else {
                Ok(v * 10 + (d.last() - 48) as nat)
            },
        }
    }
}

/// What reading `s` as an unsigned machine integer gives: an optional leading
/// `+` and then one or more decimal digits, of value at most `usize::MAX`.
pub open spec fn decimal_parse(s: Seq<u8>) -> Result<nat, NumberError> {
    if s.len() == 0 {
        Err(NumberError::Empty)
    } else if s[0] == 43 {
        if s.len() == 1 {
            Err(NumberError::InvalidDigit)
        } else {
            scan_digits(s.drop_first())
        }
    } else {
        scan_digits(s)
    }
}

/// The value of a run of decimal digits.
pub open spec fn digits_value(d: Seq<u8>) -> nat
    decreases d.len(),
{
    if d.len() == 0 {
        0
    } else {
        digits_value(d.drop_last()) * 10 + (d.last() - 48) as nat
    }
}

/// `s` without its leading `+`, if it has one.
pub open spec fn unsigned_part(s: Seq<u8>) -> Seq<u8> {
    if s.len() > 0 && s[0] == 43 {
        s.drop_first()
    } else {
        s
    }
}

/// A byte string reads as a number exactly when, after an optional leading
/// `+`, it is a non-empty run of decimal digits whose value is at most
/// `usize::MAX`; the number read is then that value.
pub proof fn lemma_decimal_parse_accepts(s: Seq<u8>)
    ensures
        decimal_parse(s) is Ok <==> {
            &&& unsigned_part(s).len() > 0
            &&& forall|i: int| 0 <= i < unsigned_part(s).len() ==> is_digit(#[trigger] unsigned_part(s)[i])
            &&& digits_value(unsigned_part(s)) <= usize::MAX
        },
        decimal_parse(s) is Ok ==> decimal_parse(s) == Ok::<nat, NumberError>(digits_value(unsigned_part(s))),
{
    if s.len() > 0 {
        lemma_scan_accepts(unsigned_part(s));
    }
}

/// Reading a run of bytes succeeds exactly when all of them are digits and
/// their value fits, and it gives that value.
proof fn lemma_scan_accepts(d: Seq<u8>)
    ensures
        scan_digits(d) is Ok <==> {
            &&& forall|i: int| 0 <= i < d.len() ==> is_digit(#[trigger] d[i])
            &&& digits_value(d) <= usize::MAX
        },
        scan_digits(d) is Ok ==> scan_digits(d) == Ok::<nat, NumberError>(digits_value(d)),
    decreases d.len(),
{
    if d.len() > 0 {
        let p = d.drop_last();
        lemma_scan_accepts(p);
        if forall|i: int| 0 <= i < d.len() ==> is_digit(#[trigger] d[i]) {
            assert forall|i: int| 0 <= i < p.len() implies is_digit(#[trigger] p[i]) by {
                assert(p[i] == d[i]);
            }
        }
        if !(forall|i: int| 0 <= i < p.len() ==> is_digit(#[trigger] p[i])) {
            let k = choose|i: int| 0 <= i < p.len() && !is_digit(#[trigger] p[i]);
            assert(d[k] == p[k]);
        }
        if forall|i: int| 0 <= i < p.len() ==> is_digit(#[trigger] p[i]) {
            if is_digit(d.last()) {
                assert forall|i: int| 0 <= i < d.len() implies is_digit(#[trigger] d[i]) by {
                    if i < p.len() {
                        assert(p[i] == d[i]);
                    }
                }
            }
        }
    }
}

/// Reads `s` as an unsigned machine integer in decimal.
pub fn parse_decimal(s: &[u8]) -> (r: Result<usize, NumberError>)
    ensures
        r matches Ok(v) ==> decimal_parse(s@) == Ok::<nat, NumberError>(v as nat),
        r matches Err(e) ==> decimal_parse(s@) == Err::<nat, NumberError>(e),
{
    if s.len() == 0 {
        return Err(NumberError::Empty);
    }
    let start: usize = if s[0] == 43 { 1 } else { 0 };
    if start == 1 && s.len() == 1 {
        return Err(NumberError::InvalidDigit);
    }
    let ghost digits = s@.subrange(start as int, s@.len() as int);
    assert(start == 1 ==> digits =~= s@.drop_first());
    assert(start == 0 ==> digits =~= s@);
    let mut v: usize = 0;
    let mut i: usize = start;
    while i < s.len()
        invariant
            start <= i <= s@.len(),
            digits == s@.subrange(start as int, s@.len() as int),
            decimal_parse(s@) == scan_digits(digits),
            scan_digits(s@.subrange(start as int, i as int)) == Ok::<nat, NumberError>(v as nat),
        decreases s.len() - i,
    {
        let ghost prev = s@.subrange(start as int, i as int);
        let ghost next = s@.subrange(start as int, i + 1);
        assert(next.drop_last() =~= prev);
        assert(next.last() == s@[i as int]);
        let b = s[i];
        if b < 48 || b > 57 {
            proof {
                assert(scan_digits(next) == Err::<nat, NumberError>(NumberError::InvalidDigit));
                assert(digits.take((i + 1 - start) as int) =~= next);
                lemma_scan_keeps_error(digits, (i - start) as nat);
            }
            return Err(NumberError::InvalidDigit);
        }
        let d: usize = (b - 48) as usize;
        let scaled = v.checked_mul(10);
        let sum = match scaled {
            Some(m) => m.checked_add(d),
            None => None,
        };
        match sum {
            Some(n) => {
                assert(scan_digits(next) == Ok::<nat, NumberError>(n as nat));
                v = n;
            },
            None => {
                proof {
                    assert(scan_digits(next) == Err::<nat, NumberError>(NumberError::TooLarge));
                    assert(digits.take((i + 1 - start) as int) =~= next);
                    lemma_scan_keeps_error(digits, (i - start) as nat);
                }
                return Err(NumberError::TooLarge);
            },
        }
        i = i + 1;
    }
    assert(s@.subrange(start as int, i as int) =~= digits);
    Ok(v)
}

/// Once reading a prefix of `d` has failed, reading all of `d` fails the same way.
proof fn lemma_scan_keeps_error(d: Seq<u8>, k: nat)
    requires
        k < d.len(),
        scan_digits(d.take(k + 1 as int)) is Err,
    ensures
        scan_digits(d) == scan_digits(d.take(k + 1 as int)),
    decreases d.len() - k,
{
    if k + 1 == d.len() {
        assert(d.take(k + 1 as int) =~= d);
    } else {
        assert(d.drop_last().take(k + 1 as int) =~= d.take(k + 1 as int));
        lemma_scan_keeps_error(d.drop_last(), k);
    }
}

/// The character of a decimal digit.
pub open spec fn digit_char(d: nat) -> char {
    if d == 0 { '0' }
    else if d == 1 { '1' }
    else if d == 2 { '2' }
    else if d == 3 { '3' }
    else if d == 4 { '4' }
    else if d == 5 { '5' }
    else if d == 6 { '6' }
    else if d == 7 { '7' }
    else if d == 8 { '8' }
    else { '9' }
}

/// `n` written in decimal, without sign or leading zeros.
pub open spec fn decimal_text(n: nat) -> Seq<char>
    decreases n,
{
    if n < 10 {
        seq![digit_char(n)]
    } else {
        decimal_text(n / 10).push(digit_char(n % 10))
    }
}

/// Relies on std's `ToString` for `usize`, through its `Display`: the value in
/// decimal digits, without sign or leading zeros.
#[verifier::external_body]
pub(crate) fn usize_text(n: usize) -> (r: String)
    ensures
        r@ == decimal_text(n as nat),
{
    n.to_string()
}

} // verus!
