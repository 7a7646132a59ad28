use vstd::prelude::*;

verus! {

/// Why a deposit or a claim was refused. Every refusal leaves the
/// instance's state exactly as it was.
#[derive(Debug, Clone, Copy, PartialEq, Eq, PartialOrd, Ord, Hash, Structural)]
pub enum CustomError {
    /// The deposit named more claimants than an instance accepts.
    TooManyClaimants,
    /// The instance has already consumed its single allowed deposit.
    AlreadyInitialized,
    /// The record's time bound does not hold at the current time.
    TimePredicateNotFulfilled,
    /// The caller is not among the record's claimants.
    ClaimantNotAllowed,
    /// No escrow record is present: either nothing was ever deposited,
    /// or the escrow was already settled.
    NoActiveBalance,
}

/// The stable numeric code of each error, for programmatic dispatch.
pub open spec fn error_code(e: CustomError) -> u32 {
    match e {
        CustomError::TooManyClaimants => 1u32,
        CustomError::AlreadyInitialized => 2u32,
        CustomError::TimePredicateNotFulfilled => 3u32,
        CustomError::ClaimantNotAllowed => 4u32,
        CustomError::NoActiveBalance => 5u32,
    }
}

impl CustomError {
    /// The stable numeric code of this error.
    pub fn code(&self) -> (c: u32)
        ensures
            c == error_code(*self),
    {
        match *self {
            CustomError::TooManyClaimants => 1,
            CustomError::AlreadyInitialized => 2,
            CustomError::TimePredicateNotFulfilled => 3,
            CustomError::ClaimantNotAllowed => 4,
            CustomError::NoActiveBalance => 5,
        }
    }
}

} // verus!
