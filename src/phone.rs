//! A parsed phone number, held as the plain values that the wire formats use.
use vstd::prelude::*;

use crate::decimal::{decimal, decimal_spec, is_digit, parse_decimal, lemma_decimal_digits, lemma_decimal_round_trip};

verus! {

/// A phone number split into its country calling code and its national
/// significant number. Some countries' national numbers begin with zeros
/// that are part of the number; `leading_zeros` counts them.
#[derive(Clone, Copy, Debug, PartialEq, Eq, Structural)]
pub struct PhoneNumber {
    pub country_code: u16,
    pub national_number: u64,
    pub leading_zeros: u8,
}

/// `n` copies of the digit zero.
pub open spec fn zeros_spec(n: nat) -> Seq<char> {
    Seq::new(n, |i: int| '0')
}

impl PhoneNumber {
    /// The national significant number as written: its leading zeros, then
    /// the rest of its digits.
    pub open spec fn national_spec(self) -> Seq<char> {
        zeros_spec(self.leading_zeros as nat) + decimal_spec(self.national_number as nat)
    }

    /// The country calling code in decimal.
    pub open spec fn code_spec(self) -> Seq<char> {
        decimal_spec(self.country_code as nat)
    }

    /// The E.164 form: a plus sign, the calling code, the national number.
    pub open spec fn e164_spec(self) -> Seq<char> {
        seq!['+'] + self.code_spec() + self.national_spec()
    }

    pub fn new(country_code: u16, national_number: u64, leading_zeros: u8) -> (r: PhoneNumber)
        ensures
            r.country_code == country_code,
            r.national_number == national_number,
            r.leading_zeros == leading_zeros,
    {
        PhoneNumber { country_code, national_number, leading_zeros }
    }

    /// The national significant number, leading zeros included.
    pub fn national(&self) -> (r: String)
        ensures
            r@ == self.national_spec(),
    {
        let mut s = String::new();
        let mut i: u8 = 0;
        while i < self.leading_zeros
            invariant
                i <= self.leading_zeros,
                s@ == zeros_spec(i as nat),
            decreases self.leading_zeros - i,
        {
            proof {
                reveal_strlit("0");
            }
            s.append("0");
            i = i + 1;
            assert(s@ =~= zeros_spec(i as nat));
        }
        let digits = decimal(self.national_number);
        s.append(digits.as_str());
        s
    }

    /// The country calling code in decimal.
    pub fn code(&self) -> (r: String)
        ensures
            r@ == self.code_spec(),
    {
        decimal(self.country_code as u64)
    }

    /// The number in E.164 form, such as `+15005550006`.
    pub fn e164(&self) -> (r: String)
        ensures
            r@ == self.e164_spec(),
    {
        let code = self.code();
        let national = self.national();
        proof {
            reveal_strlit("+");
        }
        let s = String::from_str("+");
        let s = s.concat(code.as_str());
        let s = s.concat(national.as_str());
        s
    }
}

/// Leading zeros do not change the number that a string of digits denotes.
pub proof fn lemma_parse_leading_zeros(k: nat, s: Seq<char>)
    ensures
        parse_decimal(zeros_spec(k) + s) == parse_decimal(s),
    decreases s.len(),
{
    if s.len() == 0 {
        lemma_parse_zeros(k);
        assert(zeros_spec(k) + s =~= zeros_spec(k));
    } else {
        lemma_parse_leading_zeros(k, s.drop_last());
        assert((zeros_spec(k) + s).drop_last() =~= zeros_spec(k) + s.drop_last());
    }
}

/// A string of zeros denotes zero.
pub proof fn lemma_parse_zeros(k: nat)
    ensures
        parse_decimal(zeros_spec(k)) == 0,
    decreases k,
{
    if k > 0 {
        lemma_parse_zeros((k - 1) as nat);
        assert(zeros_spec(k).drop_last() =~= zeros_spec((k - 1) as nat));
    }
}

/// Writing a phone number out and reading its parts back gives the same
/// calling code and national number; both parts are strings of digits.
pub proof fn lemma_number_parts_round_trip(p: PhoneNumber)
    ensures
        parse_decimal(p.code_spec()) == p.country_code,
        parse_decimal(p.national_spec()) == p.national_number,
        forall|i: int| 0 <= i < p.code_spec().len() ==> is_digit(#[trigger] p.code_spec()[i]),
        forall|i: int| 0 <= i < p.national_spec().len() ==> is_digit(#[trigger] p.national_spec()[i]),
{
    lemma_decimal_round_trip(p.country_code as nat);
    lemma_decimal_round_trip(p.national_number as nat);
    lemma_parse_leading_zeros(p.leading_zeros as nat, decimal_spec(p.national_number as nat));
    lemma_decimal_digits(p.country_code as nat);
    lemma_decimal_digits(p.national_number as nat);
    let z = zeros_spec(p.leading_zeros as nat);
    let d = decimal_spec(p.national_number as nat);
    assert forall|i: int| 0 <= i < p.national_spec().len() implies is_digit(#[trigger] p.national_spec()[i]) by {
        if i >= z.len() {
            assert(p.national_spec()[i] == d[i - z.len()]);
        }
    }
}

/// The E.164 form of a number is a plus sign, then the calling code's digits,
/// then the national number's digits; the two parts read back as the
/// number's calling code and national number.
pub proof fn lemma_e164_parts(p: PhoneNumber)
    ensures
        p.e164_spec().len() == 1 + p.code_spec().len() + p.national_spec().len(),
        p.e164_spec()[0] == '+',
        p.e164_spec().subrange(1, 1 + p.code_spec().len() as int) == p.code_spec(),
        p.e164_spec().subrange(1 + p.code_spec().len() as int, p.e164_spec().len() as int) == p.national_spec(),
        parse_decimal(p.e164_spec().subrange(1, 1 + p.code_spec().len() as int)) == p.country_code,
        parse_decimal(p.e164_spec().subrange(1 + p.code_spec().len() as int, p.e164_spec().len() as int)) == p.national_number,
{
    lemma_number_parts_round_trip(p);
    let e = p.e164_spec();
    let c = p.code_spec();
    assert(e.subrange(1, 1 + c.len() as int) =~= c);
    assert(e.subrange(1 + c.len() as int, e.len() as int) =~= p.national_spec());
}

} // verus!
