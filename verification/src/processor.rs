//! What this library takes from the processor's client crate and from std
//! without proof.
//!
//! Each function here makes one call whose behaviour Verus does not read. Its
//! contract is believed; the doc comment says what it claims.

use crate::customer_id::{is_customer_id, parsed_customer_id};
use std::str::FromStr;
use vstd::prelude::*;

verus! {

/// A delivery address in the processor's own shape. The library never looks
/// inside one: it hands a caller's address on to the payment intent untouched.
#[verifier::external_type_specification]
#[verifier::external_body]
pub struct ExCreatePaymentIntentShipping(stripe::CreatePaymentIntentShipping);

/// The processor's error, as its client reports it. A lookup hands it on
/// without reading it.
#[verifier::external_type_specification]
#[verifier::external_body]
pub struct ExStripeError(stripe::StripeError);

/// An outcome that holds strings, read as an outcome that holds their text.
pub open spec fn as_text(outcome: Result<String, String>) -> Result<Seq<char>, Seq<char>> {
    match outcome {
        Ok(value) => Ok(value@),
        Err(message) => Err(message@),
    }
}

/// The lowercase form of `text`, as `str::to_lowercase` computes it.
pub uninterp spec fn lowercased(text: Seq<char>) -> Seq<char>;

/// What `stripe::Currency::from_str` makes of `code`: the currency it found,
/// as that currency prints, or the message of its refusal.
pub uninterp spec fn parsed_currency(code: Seq<char>) -> Result<Seq<char>, Seq<char>>;

/// Calls `stripe::CustomerId::from_str` on a text that begins with `cus_`,
/// and gives the id or the error back as text.
///
/// Claimed of it: on such a text the client accepts, and the id prints as the
/// text it was parsed from, which is what [`parsed_customer_id`] gives for
/// it. Other texts are left out: on them the client first writes a line to
/// standard error, and panics if that write fails.
#[verifier::external_body]
pub(crate) fn parse_customer_id(text: &str) -> (parsed: Result<String, String>)
    requires
        is_customer_id(text@),
    ensures
        as_text(parsed) == parsed_customer_id(text@),
{
    match stripe::CustomerId::from_str(text) {
        Ok(id) => Ok(id.to_string()),
        Err(refusal) => Err(refusal.to_string()),
    }
}

/// Calls `stripe::Currency::from_str`, and gives the currency or the error
/// back as text.
///
/// Claimed of it: the outcome depends on `code` alone. It is named
/// [`parsed_currency`]; nothing is said of which codes are known.
#[verifier::external_body]
pub(crate) fn parse_currency(code: &str) -> (parsed: Result<String, String>)
    ensures
        as_text(parsed) == parsed_currency(code@),
{
    match stripe::Currency::from_str(code) {
        Ok(currency) => Ok(currency.to_string()),
        Err(refusal) => Err(refusal.to_string()),
    }
}

/// Calls `str::to_lowercase`.
///
/// Claimed of it: the outcome depends on `text` alone. It is named
/// [`lowercased`].
#[verifier::external_body]
pub(crate) fn to_lowercase(text: &str) -> (lower: String)
    ensures
        lower@ == lowercased(text@),
{
    text.to_lowercase()
}

/// Calls `clone` on a delivery address.
///
/// Claimed of it: the copy is the same address.
#[verifier::external_body]
pub(crate) fn clone_shipping(
    shipping: &stripe::CreatePaymentIntentShipping,
) -> (copy: stripe::CreatePaymentIntentShipping)
    ensures
        copy == *shipping,
{
    shipping.clone()
}

} // verus!
