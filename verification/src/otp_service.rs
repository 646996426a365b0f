//! One-time codes: a six-digit code drawn at random behind a trusted
//! wrapper, rendered by verified code, and the verification decision on a
//! stored entry. Storing, expiring and deleting entries is the store's work
//! outside the library.

use vstd::prelude::*;

use crate::models::OtpEntry;
use crate::text::{
    dec_seq, dec_value_of, is_dec_digit, lemma_dec_seq_value, push_dec_digits, replace_all,
    replace_text,
};

verus! {

/// Relies on rand::Rng::gen_range on the thread-local generator: a value
/// drawn from the half-open range [100000, 999999); nothing else is assumed
/// of which value comes out.
#[verifier::external_body]
fn random_otp_value() -> (r: u32)
    ensures
        100000 <= r < 999999,
{
    rand::Rng::gen_range(&mut rand::thread_rng(), 100000..999999)
}

/// Draws a fresh six-digit code for `email` and builds the entry to store
/// beside it, stamped `created_at` (unix milliseconds) for the store's
/// expiry index.
pub fn generate_otp(email: &str, id: u128, created_at: u64) -> (r: (String, OtpEntry))
    ensures
        r.0@.len() == 6,
        forall|i: int| 0 <= i < 6 ==> is_dec_digit(#[trigger] r.0@[i]),
        100000 <= dec_value_of(r.0@) < 999999,
        r.1.id == id,
        r.1.email@ == email@,
        r.1.otp@ == r.0@,
        r.1.created_at == created_at,
{
    let v = random_otp_value();
    let mut otp = String::new();
    push_dec_digits(&mut otp, v as u64, 6);
    proof {
        assert(otp@ =~= dec_seq(v as int, 6));
        lemma_dec_seq_value(v as int, 6);
        assert(crate::text::pow10(6) == 1000000) by {
            reveal_with_fuel(crate::text::pow10, 7);
        }
        vstd::arithmetic::div_mod::lemma_small_mod(v as nat, 1000000);
    }
    let entry = OtpEntry { id, email: email.to_owned(), otp: otp.clone(), created_at };
    (otp, entry)
}

/// Fills the one-time-code email template: every `{{OTP_CODE}}` marker in
/// the template becomes the code.
pub fn render_otp_email(template: &str, otp: &str) -> (r: String)
    ensures
        r@ == replace_text(template@, "{{OTP_CODE}}"@, otp@),
{
    replace_all(template, "{{OTP_CODE}}", otp)
}

/// The verification decision on a stored entry: the code checks out exactly
/// when an entry was found and it pairs this email with this code. The
/// caller deletes the entry after a successful check.
pub fn verify_otp(stored: Option<&OtpEntry>, email: &String, otp: &String) -> (r: bool)
    ensures
        r == match stored {
            Some(e) => e.email@ == email@ && e.otp@ == otp@,
            None => false,
        },
{
    match stored {
        Some(e) => e.email == *email && e.otp == *otp,
        None => false,
    }
}

} // verus!
