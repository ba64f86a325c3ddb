use vstd::prelude::*;

verus! {

/// Why a call was rejected. Every failure is terminal for the call and
/// leaves the oracle state unchanged.
#[derive(Clone, Copy, Debug, PartialEq, Eq, Structural)]
pub enum OracleError {
    /// The caller lacks the role required for the attempted operation.
    Unauthorized,
    /// The payload is not an even-length string of hexadecimal digits.
    InvalidPayload,
    /// A condition-gated release was attempted at or after the maturity deadline.
    AlreadyMatured,
    /// A maturity-gated release was attempted before the maturity deadline.
    NotYetMatured,
    /// The reported value does not exceed the threshold.
    ConditionNotMet,
}

impl OracleError {
    /// A human-readable reason for the rejection.
    pub fn message(&self) -> (m: &'static str)
        ensures
            m@ == self.spec_message(),
    {
        match self {
            OracleError::Unauthorized => "caller is not authorized for this operation",
            OracleError::InvalidPayload => "payload is not valid hex",
            OracleError::AlreadyMatured => "contract is matured",
            OracleError::NotYetMatured => "contract is not yet matured",
            OracleError::ConditionNotMet => "temperature is below the cutoff",
        }
    }

    pub open spec fn spec_message(&self) -> Seq<char> {
        match self {
            OracleError::Unauthorized => "caller is not authorized for this operation"@,
            OracleError::InvalidPayload => "payload is not valid hex"@,
            OracleError::AlreadyMatured => "contract is matured"@,
            OracleError::NotYetMatured => "contract is not yet matured"@,
            OracleError::ConditionNotMet => "temperature is below the cutoff"@,
        }
    }
}

} // verus!
