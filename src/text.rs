//! Character-level helpers shared by the parser and the serializer.
use vstd::prelude::*;

verus! {

/// Relies on std's `ParseIntError`, the error of `u32::from_str_radix`.
#[verifier::external_type_specification]
#[verifier::external_body]
pub struct ExParseIntError(std::num::ParseIntError);

/// An ASCII decimal digit.
pub open spec fn is_digit(c: char) -> bool {
    '0' <= c && c <= '9'
}

/// The value of one decimal digit.
pub open spec fn digit_value(c: char) -> nat {
    (c as nat - '0' as nat) as nat
}

/// The value of a run of decimal digits, most significant first.
pub open spec fn digits_value(s: Seq<char>) -> nat
    decreases s.len(),
{
    if s.len() == 0 {
        0
    } else {
        digits_value(s.drop_last()) * 10 + digit_value(s.last())
    }
}

/// The character of a digit below ten.
pub open spec fn digit_char(d: nat) -> char {
    (('0' as nat) + d) as char
}

/// The decimal text of a natural number, without leading zeros.
pub open spec fn decimal_text(n: nat) -> Seq<char>
    decreases n,
{
    if n < 10 {
        seq![digit_char(n)]
    } else {
        decimal_text(n / 10).push(digit_char(n % 10))
    }
}

/// Decimal text is a non-empty run of digits that reads back as its number.
pub proof fn lemma_decimal_text(n: nat)
    ensures
        decimal_text(n).len() >= 1,
        forall|i: int| 0 <= i < decimal_text(n).len() ==> is_digit(#[trigger] decimal_text(n)[i]),
        digits_value(decimal_text(n)) == n,
    decreases n,
{
    assert(digit_value(digit_char(n % 10)) == n % 10);
    if n >= 10 {
        lemma_decimal_text(n / 10);
        let t = decimal_text(n);
        assert(t.drop_last() =~= decimal_text(n / 10));
        assert(t.last() == digit_char(n % 10));
        assert((n / 10) * 10 + n % 10 == n);
        assert(digits_value(t) == digits_value(t.drop_last()) * 10 + digit_value(t.last()));
    } else {
        let t = decimal_text(n);
        assert(t.drop_last() =~= Seq::<char>::empty());
        assert(digits_value(Seq::<char>::empty()) == 0);
        assert(digits_value(t) == digits_value(t.drop_last()) * 10 + digit_value(t.last()));
    }
}

/// Relies on `str::chars`: the characters of `s`, in order.
#[verifier::external_body]
pub(crate) fn chars_of(s: &str) -> (r: Vec<char>)
    ensures
        r@ == s@,
{
    s.chars().collect()
}

/// Relies on collecting characters into a `String`: the characters
/// `cs[from..to]`, in order.
#[verifier::external_body]
pub(crate) fn string_of(cs: &Vec<char>, from: usize, to: usize) -> (r: String)
    requires
        from <= to <= cs@.len(),
    ensures
        r@ == cs@.subrange(from as int, to as int),
{
    cs[from..to].iter().collect()
}

/// Relies on `u32::from_str_radix` in base ten: on a run of ASCII digits it
/// succeeds exactly when the run is non-empty and its value fits in a `u32`,
/// and then returns that value.
#[verifier::external_body]
pub(crate) fn parse_decimal_u32(digits: &str) -> (r: Result<u32, std::num::ParseIntError>)
    requires
        forall|i: int| 0 <= i < digits@.len() ==> is_digit(#[trigger] digits@[i]),
    ensures
        r is Ok <==> (digits@.len() > 0 && digits_value(digits@) <= u32::MAX),
        r matches Ok(v) ==> v as nat == digits_value(digits@),
{
    u32::from_str_radix(digits, 10)
}

/// Appends the decimal text of `n` to `out`.
pub fn push_decimal(out: &mut Vec<char>, n: u32)
    ensures
        final(out)@ == old(out)@ + decimal_text(n as nat),
    decreases n,
{
    if n >= 10 {
        push_decimal(out, n / 10);
    }
    let d: u32 = n % 10;
    proof {
        assert(d < 10);
    }
    out.push(('0' as u8 + d as u8) as char);
    assert(out@ =~= old(out)@ + decimal_text(n as nat));
}

} // verus!
