//! Payment card numbers as a validation rule.
//!
//! A value takes part in the rule through the [`CreditCard`] capability. Text
//! has it already: every type that implements [`AsText`] is validated by the
//! `card-validate` crate. [`apply`] runs the capability and reports a failure
//! as one [`Error`] with a fixed wording.

pub mod error;
pub mod invalid_card;
pub mod laws;
pub mod rule;
pub mod validation;

pub use error::Error;
pub use invalid_card::{Describe, InvalidCard, Reason};
pub use rule::{apply, normalize, AsText, CreditCard};
