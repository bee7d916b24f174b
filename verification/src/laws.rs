//! What holds of the rule on every value.

use vstd::prelude::*;

use crate::error::Error;
use crate::invalid_card::Reason;
use crate::rule::{apply, context_prefix, report_view, AsText, CreditCard};
use crate::validation::is_digit_text;

verus! {

/// Applying the rule twice to one value gives the same report twice: both
/// pass, or both fail with the same message.
pub proof fn lemma_apply_repeats<T: CreditCard>(
    v: &T,
    first: Result<(), Error>,
    second: Result<(), Error>,
)
    requires
        call_ensures(apply::<T>, (v, ()), first),
        call_ensures(apply::<T>, (v, ()), second),
    ensures
        report_view(first) == report_view(second),
{
}

/// The rule passes a value exactly where the value's own validation passes
/// it.
pub proof fn lemma_apply_keeps_polarity<T: CreditCard>(
    v: &T,
    outcome: Result<(), T::Error>,
    report: Result<(), Error>,
)
    requires
        call_ensures(T::validate_credit_card, (v,), outcome),
        call_ensures(apply::<T>, (v, ()), report),
    ensures
        report is Ok <==> outcome is Ok,
        report is Err <==> outcome is Err,
{
}

/// A text that is empty, or holds anything but decimal digits, is reported
/// as having an invalid format.
pub proof fn lemma_non_digit_text_has_invalid_format<T: AsText>(v: &T, report: Result<(), Error>)
    requires
        !is_digit_text(v.text()),
        call_ensures(apply::<T>, (v, ()), report),
    ensures
        report_view(report) == Err::<(), Seq<char>>(context_prefix() + "invalid format"@),
{
}

/// A text that fails is reported with the context prefix and the wording of
/// one reason, and nothing else.
pub proof fn lemma_text_report_wording<T: AsText>(v: &T, report: Result<(), Error>)
    requires
        call_ensures(apply::<T>, (v, ()), report),
    ensures
        report matches Err(error) ==> exists|reason: Reason|
            error@ == context_prefix() + #[trigger] reason.wording(),
{
    if let Err(error) = report {
        let reason = v.card_outcome()->Err_0.0;
        assert(error@ == context_prefix() + reason.wording());
    }
}

} // verus!
