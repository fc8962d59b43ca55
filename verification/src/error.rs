//! The single error that the payment operations report.

use vstd::prelude::*;

verus! {

/// Why a payment operation stopped. There is one kind of failure, and it
/// carries a message meant for a person.
#[derive(Clone, Debug, PartialEq, Eq)]
pub enum StripePaymentError {
    General(String),
}

impl View for StripePaymentError {
    type V = Seq<char>;

    /// The message, as text.
    open spec fn view(&self) -> Seq<char> {
        match self {
            StripePaymentError::General(message) => message@,
        }
    }
}

/// How an operation, or one stage of it, ended: what it produced, or the
/// message of its error.
pub open spec fn outcome_view<T: View>(outcome: Result<T, StripePaymentError>) -> Result<
    T::V,
    Seq<char>,
> {
    match outcome {
        Ok(value) => Ok(value@),
        Err(error) => Err(error@),
    }
}

impl StripePaymentError {
    /// An error that carries `message` unchanged.
    pub fn from_general(message: String) -> (error: Self)
        ensures
            error@ == message@,
            error == StripePaymentError::General(message),
    {
        StripePaymentError::General(message)
    }

    /// The message that the error carries.
    pub fn message(&self) -> (text: &str)
        ensures
            text@ == self@,
    {
        match self {
            StripePaymentError::General(message) => message.as_str(),
        }
    }
}

} // verus!
