//! The error taxonomy: caller-visible, non-retryable validation and
//! invariant failures. Every failure aborts its whole operation; the engine
//! performs no internal recovery.

use vstd::prelude::*;

verus! {

/// Why an operation was refused. The host rolls the transaction back in
/// full on any of these; a caller sees either a completed operation with
/// its event, or exactly one of these reasons.
#[derive(Clone, Copy, PartialEq, Eq, Structural, Debug)]
pub enum ErrorCode {
    /// Configuration invariant violated at initialization:
    /// the requested platform fee exceeds the maximum.
    FeeTooHigh,
    /// Registration identity invariant violated: a user may not be its own
    /// referrer.
    CannotReferSelf,
    /// Write-once invariant violated: the user's referrer is already set.
    ReferralAlreadySet,
    /// The swap's gross output fell short of the caller's minimum.
    SlippageTooHigh,
    /// A checked arithmetic step overflowed or underflowed; the operation
    /// aborts rather than wrap or clamp.
    ArithmeticOverflow,
}

impl ErrorCode {
    /// A human-readable description, for hosts that surface failures as text.
    pub fn message(&self) -> String {
        match self {
            ErrorCode::FeeTooHigh => "Fee cannot exceed 1% (100 bps)".to_string(),
            ErrorCode::CannotReferSelf => "Cannot refer yourself".to_string(),
            ErrorCode::ReferralAlreadySet => "Referral already set for this user".to_string(),
            ErrorCode::SlippageTooHigh => "Slippage tolerance exceeded".to_string(),
            ErrorCode::ArithmeticOverflow => "Arithmetic overflow".to_string(),
        }
    }
}

} // verus!
