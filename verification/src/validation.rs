//! The validation of a card number, which the `card-validate` crate performs.

use card_validate::{Validate, ValidateError};
use vstd::prelude::*;

use crate::invalid_card::Reason;

verus! {

/// Whether `text` is made of decimal digits, at least one and nothing else.
pub open spec fn is_digit_text(text: Seq<char>) -> bool {
    &&& text.len() > 0
    &&& forall|i: int| 0 <= i < text.len() ==> '0' <= #[trigger] text[i] <= '9'
}

/// What `card_validate::Validate::from` returns for `text`: `Ok` where it
/// recognises a card, else the reason it gives. The card that it recognises
/// is not part of the verdict.
pub uninterp spec fn card_verdict(text: Seq<char>) -> Result<(), Reason>;

/// Calls `card_validate::Validate::from` on `text` and drops the card that
/// it recognises.
///
/// Not proved, but read from the source of `card-validate`: the result
/// depends on the text alone; and `InvalidFormat` comes back exactly where
/// the text does not match `^[0-9]+$`, which is tested before anything else
/// and is the only place where that reason is given. A reason that has no
/// variant in [`Reason`] comes back as `Unclassified`.
#[verifier::external_body]
pub(crate) fn validate_number(text: &str) -> (verdict: Result<(), Reason>)
    ensures
        verdict == card_verdict(text@),
        (verdict matches Err(Reason::InvalidFormat)) <==> !is_digit_text(text@),
{
    match Validate::from(text) {
        Ok(_) => Ok(()),
        Err(ValidateError::InvalidFormat) => Err(Reason::InvalidFormat),
        Err(ValidateError::InvalidLength) => Err(Reason::InvalidLength),
        Err(ValidateError::InvalidLuhn) => Err(Reason::InvalidLuhn),
        Err(ValidateError::UnknownType) => Err(Reason::UnknownType),
        Err(_) => Err(Reason::Unclassified),
    }
}

} // verus!
