use vstd::prelude::*;

verus! {

/// The kinds of failure the node and wallet operations report.
#[derive(Debug, Clone, Copy, PartialEq, Eq, Structural)]
pub enum SystemErrorType {
    InvalidTransaction,
    InvalidAmount,
    InsufficientBalance,
    InvalidInput,
    InvalidState,
    OperationDisabled,
    StorageError,
    NodeSuspended,
    CooldownPeriod,
    InsufficientCharge,
    BatteryError,
    NotFound,
    LimitReached,
    LowBattery,
    ResourceLimitReached,
    NetworkError,
    SerializationError,
    ConsistencyError,
    DistributionError,
    VerificationError,
    TooManySyncs,
}

/// A failure: its kind and a message for people.
#[derive(Debug, Clone)]
pub struct SystemError {
    pub error_type: SystemErrorType,
    pub message: String,
}

impl SystemError {
    /// An error of the given kind with the given message.
    pub fn new(error_type: SystemErrorType, message: &str) -> (r: Self)
        ensures
            r.error_type == error_type,
            r.message@ == message@,
    {
        SystemError { error_type, message: message.to_owned() }
    }
}

} // verus!
