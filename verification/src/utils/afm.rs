//! Checksum validation of the Greek tax identification number (AFM).

use vstd::prelude::*;
use vstd::string::*;
use vstd::utf8::is_ascii_chars;

verus! {

/// Number of characters in a well-formed AFM.
pub const AFM_LENGTH: usize = 9;

/// Whether `c` is one of the ASCII digits `0` to `9`.
pub open spec fn is_digit(c: char) -> bool {
    '0' <= c <= '9'
}

/// Numeric value of the ASCII digit `c`.
pub open spec fn digit_value(c: char) -> int {
    c as int - '0' as int
}

/// Whether every character of `s` is an ASCII digit.
pub open spec fn all_digits(s: Seq<char>) -> bool {
    forall|i: int| 0 <= i < s.len() ==> is_digit(#[trigger] s[i])
}

/// Weight of the digit at position `i` (counted from the left, starting at
/// zero): two raised to the power `8 - i`.
pub open spec fn weight(i: int) -> int
    recommends
        0 <= i < 8,
{
    if i == 0 {
        256
    } else if i == 1 {
        128
    } else if i == 2 {
        64
    } else if i == 3 {
        32
    } else if i == 4 {
        16
    } else if i == 5 {
        8
    } else if i == 6 {
        4
    } else {
        2
    }
}

/// Weighted sum of the first `n` digits of `s`.
pub open spec fn weighted_sum(s: Seq<char>, n: int) -> int
    decreases n,
{
    if n <= 0 {
        0
    } else {
        weighted_sum(s, n - 1) + digit_value(s[n - 1]) * weight(n - 1)
    }
}

/// The check digit that the first eight digits of `s` call for.
pub open spec fn expected_check_digit(s: Seq<char>) -> int {
    (weighted_sum(s, 8) % 11) % 10
}

/// A valid AFM is nine ASCII digits whose ninth digit equals the weighted
/// checksum of the first eight.
pub open spec fn is_valid_afm(s: Seq<char>) -> bool {
    &&& s.len() == 9
    &&& all_digits(s)
    &&& digit_value(s[8]) == expected_check_digit(s)
}

/// The weighted sum of the first `n` digits depends on those digits only.
pub proof fn lemma_weighted_sum_of_prefix(a: Seq<char>, b: Seq<char>, n: int)
    requires
        0 <= n <= a.len(),
        n <= b.len(),
        forall|i: int| 0 <= i < n ==> a[i] == b[i],
    ensures
        weighted_sum(a, n) == weighted_sum(b, n),
    decreases n,
{
    if n > 0 {
        lemma_weighted_sum_of_prefix(a, b, n - 1);
    }
}

/// A string that is not nine characters long, or that holds a character
/// other than an ASCII digit, is no valid AFM.
pub proof fn lemma_malformed_afm_fails(s: Seq<char>)
    requires
        s.len() != 9 || !all_digits(s),
    ensures
        !is_valid_afm(s),
{
}

/// Nine digits whose ninth is not the check digit of the first eight are no
/// valid AFM.
pub proof fn lemma_wrong_check_digit_fails(s: Seq<char>)
    requires
        s.len() == 9,
        all_digits(s),
        digit_value(s[8]) != expected_check_digit(s),
    ensures
        !is_valid_afm(s),
{
}

/// Eight leading digits admit one check digit: of two strings of nine digits
/// that agree on the first eight and differ in the ninth, at most one is a
/// valid AFM.
pub proof fn lemma_check_digit_is_unique(a: Seq<char>, b: Seq<char>)
    requires
        a.len() == 9,
        b.len() == 9,
        forall|i: int| 0 <= i < 8 ==> a[i] == b[i],
        a[8] != b[8],
    ensures
        !(is_valid_afm(a) && is_valid_afm(b)),
{
    lemma_weighted_sum_of_prefix(a, b, 8);
}

/// Decides whether `afm` is a valid AFM.
pub fn validate_afm(afm: &str) -> (valid: bool)
    ensures
        valid == is_valid_afm(afm@),
{
    if !afm.is_ascii() {
        proof {
            // Some character lies outside ASCII, so it cannot be a digit.
            let i = choose|i: int| 0 <= i < afm@.len() && !('\0' <= #[trigger] afm@[i] <= '\u{7f}');
            assert(!is_digit(afm@[i]));
        }
        return false;
    }
    let bytes = afm.as_bytes();
    proof {
        is_ascii_spec_bytes(afm);
    }
    if bytes.len() != AFM_LENGTH {
        return false;
    }
    let mut sum: u32 = 0;
    let mut i: usize = 0;
    while i < 8
        invariant
            0 <= i <= 8,
            bytes@.len() == 9,
            afm@.len() == 9,
            is_ascii_chars(afm@),
            forall|k: int| 0 <= k < 9 ==> bytes@[k] == (#[trigger] afm@[k]) as u8,
            forall|k: int| 0 <= k < i ==> is_digit(#[trigger] afm@[k]),
            sum == weighted_sum(afm@, i as int),
            sum <= 2304 * i,
        decreases 8 - i,
    {
        let b: u8 = bytes[i];
        if b < 48 || b > 57 {
            assert(!is_digit(afm@[i as int]));
            return false;
        }
        let digit: u32 = (b - 48) as u32;
        let w: u32 = 256u32 >> (i as u32);
        assert(w == weight(i as int)) by {
            let k = i as u32;
            assert(k < 8 ==> (256u32 >> k) == if k == 0 {
                256u32
            } else if k == 1 {
                128u32
            } else if k == 2 {
                64u32
            } else if k == 3 {
                32u32
            } else if k == 4 {
                16u32
            } else if k == 5 {
                8u32
            } else if k == 6 {
                4u32
            } else {
                2u32
            }) by (bit_vector);
        }
        assert(digit * w <= 2304) by (nonlinear_arith)
            requires
                digit <= 9,
                w <= 256,
        ;
        sum = sum + digit * w;
        i = i + 1;
    }
    let last: u8 = bytes[8];
    if last < 48 || last > 57 {
        return false;
    }
    assert(all_digits(afm@)) by {
        assert forall|k: int| 0 <= k < afm@.len() implies is_digit(#[trigger] afm@[k]) by {}
    }
    let check_digit: u32 = (sum % 11) % 10;
    check_digit == (last - 48) as u32
}

} // verus!
