use vstd::prelude::*;
use crate::text::{decimal, decimal_text, is_digit, lemma_decimal_digits, lemma_decimal_six};

verus! {

pub const OTP_LOW: u32 = 100000;

pub const OTP_HIGH: u32 = 999999;

/// Relies on rand's Rng::gen_range on the thread-local generator: a value of the inclusive
/// range `low..=high`, which must not be empty.
#[verifier::external_body]
fn random_between(low: u32, high: u32) -> (r: u32)
    requires
        low <= high,
    ensures
        low <= r <= high,
{
    rand::Rng::gen_range(&mut rand::thread_rng(), low..=high)
}

/// `s` is a verification code: six digits that render a number of [100000, 999999].
pub open spec fn is_verification_code(s: Seq<char>) -> bool {
    &&& s.len() == 6
    &&& forall|i: int| 0 <= i < s.len() ==> is_digit(#[trigger] s[i])
    &&& exists|n: nat| OTP_LOW <= n <= OTP_HIGH && s == decimal(n)
}

/// Draws a fresh six-digit verification code.
pub fn generateOtp() -> (r: String)
    ensures
        is_verification_code(r@),
{
    let n = random_between(OTP_LOW, OTP_HIGH);
    let code = decimal_text(n as u64);
    proof {
        lemma_decimal_six(n as nat);
        lemma_decimal_digits(n as nat);
    }
    code
}

} // verus!
