use vstd::prelude::*;

verus! {

/// Errors specific to the version-control engine.
#[derive(Debug, Clone, Copy, PartialEq, Eq, Structural)]
pub enum VeriflowError {
    InvalidInstruction,
    NotAuthorized,
    AlreadyInitialized,
    InvalidWorkspaceState,
    InvalidVersion,
    InvalidHash,
    PRNotApproved,
    InvalidPRState,
}

/// The numeric code of each engine error, in declaration order.
pub open spec fn error_code(e: VeriflowError) -> u32 {
    match e {
        VeriflowError::InvalidInstruction => 0,
        VeriflowError::NotAuthorized => 1,
        VeriflowError::AlreadyInitialized => 2,
        VeriflowError::InvalidWorkspaceState => 3,
        VeriflowError::InvalidVersion => 4,
        VeriflowError::InvalidHash => 5,
        VeriflowError::PRNotApproved => 6,
        VeriflowError::InvalidPRState => 7,
    }
}

impl VeriflowError {
    /// The code under which the host reports this error.
    pub fn code(&self) -> (r: u32)
        ensures
            r == error_code(*self),
    {
        match self {
            VeriflowError::InvalidInstruction => 0,
            VeriflowError::NotAuthorized => 1,
            VeriflowError::AlreadyInitialized => 2,
            VeriflowError::InvalidWorkspaceState => 3,
            VeriflowError::InvalidVersion => 4,
            VeriflowError::InvalidHash => 5,
            VeriflowError::PRNotApproved => 6,
            VeriflowError::InvalidPRState => 7,
        }
    }
}

/// Every way an operation can fail: an engine error, or one of the generic
/// failures of the host's account model.
#[derive(Debug, Clone, Copy, PartialEq, Eq, Structural)]
pub enum ProcessError {
    /// An engine error, reported under its code.
    Custom(VeriflowError),
    /// A role that must sign the operation did not.
    MissingRequiredSignature,
    /// A supplied address differs from the one derived from its identifiers.
    InvalidSeeds,
    /// Fewer accounts were supplied than the operation has roles.
    NotEnoughAccountKeys,
    /// A supplied account does not hold the record kind its role requires.
    InvalidAccountData,
    /// The storage for a new record is already occupied.
    AccountAlreadyInitialized,
    /// A new record does not fit the fixed size of its kind.
    AccountDataTooSmall,
}

impl From<VeriflowError> for ProcessError {
    fn from(e: VeriflowError) -> (r: ProcessError) {
        ProcessError::Custom(e)
    }
}

impl vstd::std_specs::convert::FromSpecImpl<VeriflowError> for ProcessError {
    open spec fn obeys_from_spec() -> bool {
        true
    }

    open spec fn from_spec(e: VeriflowError) -> ProcessError {
        ProcessError::Custom(e)
    }
}

} // verus!
