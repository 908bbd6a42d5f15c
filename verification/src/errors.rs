use vstd::prelude::*;

verus! {

/// Every way an operation of the state machine can reject a call.
///
/// Each rejection aborts the whole call: an operation that returns one of
/// these has changed nothing.
#[derive(Clone, Copy, Debug, PartialEq, Eq, Structural)]
pub enum PingPongError {
    /// The caller already holds an active lock and may not deposit again.
    AlreadyPinged,
    /// The caller holds no active lock, so there is nothing to act on.
    NoPingFound,
    /// The attached payment is not the accepted asset.
    InvalidPaymentToken,
    /// The attached payment is not exactly the required deposit amount.
    IncorrectPingAmount,
    /// The lock has not yet elapsed.
    CannotPongBeforeDeadline,
    /// A lock duration of zero was supplied.
    DurationCannotBeZero,
    /// A deposit amount of zero was supplied.
    PingAmountCannotBeZero,
    /// An owner-only operation was called by another identity.
    OnlyOwnerCanPerformThisAction,
    /// The lifecycle gate is closed: the mechanism is paused.
    ContractPaused,
    /// A lock extension of zero seconds was supplied.
    InvalidExtensionAmount,
}

impl PingPongError {
    /// The numeric code under which each rejection is reported at the
    /// host boundary.
    pub open spec fn spec_code(self) -> u64 {
        match self {
            PingPongError::AlreadyPinged => 0,
            PingPongError::NoPingFound => 1,
            PingPongError::InvalidPaymentToken => 2,
            PingPongError::IncorrectPingAmount => 3,
            PingPongError::CannotPongBeforeDeadline => 4,
            PingPongError::DurationCannotBeZero => 5,
            PingPongError::PingAmountCannotBeZero => 6,
            PingPongError::OnlyOwnerCanPerformThisAction => 7,
            PingPongError::ContractPaused => 8,
            PingPongError::InvalidExtensionAmount => 9,
        }
    }

    /// Numeric code of this rejection.
    #[verifier::when_used_as_spec(spec_code)]
    pub fn code(self) -> (c: u64)
        ensures
            c == self.spec_code(),
    {
        match self {
            PingPongError::AlreadyPinged => 0,
            PingPongError::NoPingFound => 1,
            PingPongError::InvalidPaymentToken => 2,
            PingPongError::IncorrectPingAmount => 3,
            PingPongError::CannotPongBeforeDeadline => 4,
            PingPongError::DurationCannotBeZero => 5,
            PingPongError::PingAmountCannotBeZero => 6,
            PingPongError::OnlyOwnerCanPerformThisAction => 7,
            PingPongError::ContractPaused => 8,
            PingPongError::InvalidExtensionAmount => 9,
        }
    }
}

} // verus!
