//! The typed outcomes of a lifecycle step, and how the driver reports
//! each of them to the operator.

use vstd::prelude::*;

verus! {

/// What a lifecycle step yielded when no error occurred: either the
/// concrete provider supplies no behaviour for the step, or the step
/// succeeded with a payload. Signalling non-implementation this way is
/// not a failure.
#[derive(Clone, Copy, Debug, PartialEq, Eq, Structural)]
pub enum ProviderResult<T> {
    NotImplemented,
    Success(T),
}

/// Statuses a real `run` step could report once providers do real work.
/// No provider produces them yet.
#[derive(Clone, Copy, Debug, PartialEq, Eq, Structural)]
pub enum RunStatus {
    NoBalance,
    LowAmount,
    HighAmount,
}

/// Payload of a successful `init` step. A stub: a real provider would
/// record the prepared state here.
#[derive(Clone, Copy, Debug, PartialEq, Eq, Structural)]
pub struct Init {}

/// Payload of a successful `run` (or `exit`) step. A stub, as `Init` is.
#[derive(Clone, Copy, Debug, PartialEq, Eq, Structural)]
pub struct Run {}

/// The error channel of a lifecycle step. A single variant: the step was
/// invoked but the concrete provider defines no behaviour for it.
#[derive(Clone, Copy, Debug, PartialEq, Eq, Structural)]
pub enum ProviderError {
    NotImplemented,
}

/// The line the driver prints for one lifecycle outcome: `success` for a
/// successful step, `not implemented` both for the inert outcome and for
/// the not-implemented error.
pub open spec fn outcome_text<T>(r: Result<ProviderResult<T>, ProviderError>) -> Seq<char> {
    match r {
        Ok(ProviderResult::Success(_)) => "success"@,
        Ok(ProviderResult::NotImplemented) => "not implemented"@,
        Err(ProviderError::NotImplemented) => "not implemented"@,
    }
}

/// Renders one lifecycle outcome as the operator-visible line.
pub fn describe_outcome<T>(r: &Result<ProviderResult<T>, ProviderError>) -> (s: &'static str)
    ensures
        s@ == outcome_text(*r),
{
    match r {
        Ok(ProviderResult::Success(_)) => "success",
        Ok(ProviderResult::NotImplemented) => "not implemented",
        Err(ProviderError::NotImplemented) => "not implemented",
    }
}

} // verus!
