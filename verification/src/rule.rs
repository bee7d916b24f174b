//! The rule: a capability, its implementation for text, and the entry point.

use vstd::prelude::*;

use crate::error::Error;
use crate::invalid_card::{Describe, InvalidCard, Reason};
use crate::validation::{card_verdict, is_digit_text, validate_number};

verus! {

/// A value that can be read as text.
pub trait AsText {
    /// The text that `as_text` returns. An implementation states it; where
    /// none does, nothing is known of the text.
    open spec fn text(&self) -> Seq<char> {
        arbitrary()
    }

    /// This value as a string slice.
    fn as_text(&self) -> (text: &str)
        ensures
            text@ == self.text(),
    ;
}

impl AsText for String {
    open spec fn text(&self) -> Seq<char> {
        self@
    }

    fn as_text(&self) -> (text: &str) {
        self.as_str()
    }
}

impl<'a> AsText for &'a str {
    open spec fn text(&self) -> Seq<char> {
        self@
    }

    fn as_text(&self) -> (text: &str) {
        *self
    }
}

/// A value that can be validated as a payment card number.
///
/// Validation reads the value and changes nothing: its outcome is a function
/// of the value alone.
pub trait CreditCard {
    /// What a failed validation reports.
    type Error: Describe;

    /// The outcome that `validate_credit_card` returns for this value. An
    /// implementation states it; where none does, nothing is known of the
    /// outcome.
    open spec fn card_outcome(&self) -> Result<(), Self::Error> {
        arbitrary()
    }

    /// Validates this value.
    fn validate_credit_card(&self) -> (outcome: Result<(), Self::Error>)
        ensures
            outcome == self.card_outcome(),
    ;
}

/// The outcome of validating a text.
///
/// A text that is not made of decimal digits has an invalid format. On
/// digits the outcome is what `card-validate` makes of them.
pub open spec fn text_outcome(text: Seq<char>) -> Result<(), InvalidCard> {
    if !is_digit_text(text) {
        Err(InvalidCard(Reason::InvalidFormat))
    } else {
        match card_verdict(text) {
            Ok(_) => Ok(()),
            Err(reason) => Err(InvalidCard(reason)),
        }
    }
}

impl<T: AsText> CreditCard for T {
    type Error = InvalidCard;

    open spec fn card_outcome(&self) -> Result<(), InvalidCard> {
        text_outcome(self.text())
    }

    fn validate_credit_card(&self) -> (outcome: Result<(), InvalidCard>) {
        match validate_number(self.as_text()) {
            Ok(()) => Ok(()),
            Err(reason) => Err(InvalidCard::from(reason)),
        }
    }
}

/// The words that stand before the reason in every message of this rule.
pub open spec fn context_prefix() -> Seq<char> {
    "not a valid credit card number: "@
}

/// What the rule reports for a given outcome: nothing where the value
/// passed, else the message.
pub open spec fn normalized<E: Describe>(outcome: Result<(), E>) -> Result<(), Seq<char>> {
    match outcome {
        Ok(_) => Ok(()),
        Err(error) => Err(context_prefix() + error.description()),
    }
}

/// A report as plain values: nothing, or the message of its error.
pub open spec fn report_view(report: Result<(), Error>) -> Result<(), Seq<char>> {
    match report {
        Ok(_) => Ok(()),
        Err(error) => Err(error@),
    }
}

/// Turns the outcome of a validation into the rule's report.
///
/// A pass stays a pass. A failure becomes one [`Error`] whose message is the
/// context prefix followed by the description of the failure.
pub fn normalize<E: Describe>(outcome: Result<(), E>) -> (report: Result<(), Error>)
    ensures
        report_view(report) == normalized(outcome),
{
    match outcome {
        Ok(()) => Ok(()),
        Err(error) => {
            let reason = error.describe();
            let message = String::from_str("not a valid credit card number: ").concat(
                reason.as_str(),
            );
            Err(Error::new(message))
        },
    }
}

/// Validates `v` as a payment card number. The rule takes no configuration.
///
/// The report passes exactly where the value's own validation passes, and a
/// failure is reported as the context prefix followed by the words of its
/// error.
pub fn apply<T: CreditCard>(v: &T, _config: ()) -> (report: Result<(), Error>)
    ensures
        report_view(report) == normalized(v.card_outcome()),
        report is Ok <==> v.card_outcome() is Ok,
{
    normalize(v.validate_credit_card())
}

} // verus!
