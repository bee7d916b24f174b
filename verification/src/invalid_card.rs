//! Why a text was turned down, and the words for it.

use vstd::prelude::*;
use vstd::std_specs::convert::FromSpecImpl;

verus! {

/// An error that can be put into words.
///
/// The words are a function of the value: `describe` returns the same text
/// for the same value every time.
pub trait Describe {
    /// The text that `describe` returns. An implementation states it; where
    /// none does, nothing is known of the text.
    open spec fn description(&self) -> Seq<char> {
        arbitrary()
    }

    /// This error as a sentence fragment, without context.
    fn describe(&self) -> (text: String)
        ensures
            text@ == self.description(),
    ;
}

/// The reasons for which a text is not a card number.
#[derive(Clone, Copy, Debug, PartialEq, Eq, Structural)]
pub enum Reason {
    /// The text is empty or holds something other than decimal digits.
    InvalidFormat,
    /// The number of digits is not one that the card's network issues.
    InvalidLength,
    /// The digits do not add up under the Luhn checksum.
    InvalidLuhn,
    /// The leading digits belong to no known network.
    UnknownType,
    /// A reason that `card-validate` reports and this library has no word for.
    Unclassified,
}

impl Reason {
    /// The fixed wording of each reason.
    pub open spec fn wording(self) -> Seq<char> {
        match self {
            Reason::InvalidFormat => "invalid format"@,
            Reason::InvalidLength => "invalid length"@,
            Reason::InvalidLuhn => "invalid luhn"@,
            Reason::UnknownType => "unknown type"@,
            Reason::Unclassified => "unknown error"@,
        }
    }

    /// The fixed wording of this reason.
    pub fn as_str(self) -> (text: &'static str)
        ensures
            text@ == self.wording(),
    {
        match self {
            Reason::InvalidFormat => "invalid format",
            Reason::InvalidLength => "invalid length",
            Reason::InvalidLuhn => "invalid luhn",
            Reason::UnknownType => "unknown type",
            Reason::Unclassified => "unknown error",
        }
    }
}

/// The error of validating a text: one reason, nothing else.
#[derive(Clone, Copy, Debug, PartialEq, Eq, Structural)]
pub struct InvalidCard(pub Reason);

impl InvalidCard {
    /// The reason this error stands for.
    pub fn reason(&self) -> (reason: Reason)
        ensures
            reason == self.0,
    {
        self.0
    }
}

impl Describe for InvalidCard {
    open spec fn description(&self) -> Seq<char> {
        self.0.wording()
    }

    fn describe(&self) -> (text: String) {
        String::from_str(self.0.as_str())
    }
}

impl From<Reason> for InvalidCard {
    fn from(value: Reason) -> (error: InvalidCard) {
        InvalidCard(value)
    }
}

impl FromSpecImpl<Reason> for InvalidCard {
    open spec fn obeys_from_spec() -> bool {
        true
    }

    open spec fn from_spec(value: Reason) -> InvalidCard {
        InvalidCard(value)
    }
}

} // verus!
