use vstd::prelude::*;

verus! {

/// The class of a failure, independent of the operation that reported it.
#[derive(Clone, Copy, Debug, PartialEq, Eq, Structural)]
pub enum ErrorKind {
    /// The caller's identity or role does not allow the operation.
    Authorization,
    /// Malformed input.
    Validation,
    /// The record is in a state that does not allow the operation.
    StateConflict,
    /// A bounded resource is exhausted.
    Capacity,
    /// A time-ordered input is out of order or too old.
    Staleness,
}

/// Failures of configuration and user registration.
#[derive(Clone, Copy, Debug, PartialEq, Eq, Structural)]
pub enum CustomError {
    Unauthorized,
    InvalidRole,
    NotApproved,
    AlreadyInitialized,
    AlreadyRegistered,
    AlreadyApproved,
    InvalidWallet,
}

impl CustomError {
    pub open spec fn kind_spec(self) -> ErrorKind {
        match self {
            CustomError::Unauthorized => ErrorKind::Authorization,
            CustomError::InvalidRole => ErrorKind::Validation,
            CustomError::NotApproved => ErrorKind::Authorization,
            CustomError::AlreadyInitialized => ErrorKind::StateConflict,
            CustomError::AlreadyRegistered => ErrorKind::StateConflict,
            CustomError::AlreadyApproved => ErrorKind::StateConflict,
            CustomError::InvalidWallet => ErrorKind::Validation,
        }
    }

    /// The class of this failure.
    pub fn kind(&self) -> (r: ErrorKind)
        ensures
            r == self.kind_spec(),
    {
        match self {
            CustomError::Unauthorized => ErrorKind::Authorization,
            CustomError::InvalidRole => ErrorKind::Validation,
            CustomError::NotApproved => ErrorKind::Authorization,
            CustomError::AlreadyInitialized => ErrorKind::StateConflict,
            CustomError::AlreadyRegistered => ErrorKind::StateConflict,
            CustomError::AlreadyApproved => ErrorKind::StateConflict,
            CustomError::InvalidWallet => ErrorKind::Validation,
        }
    }

    /// The message shown for this failure.
    pub fn message(&self) -> (r: &'static str) {
        match self {
            CustomError::Unauthorized => "Unauthorized access",
            CustomError::InvalidRole => "Invalid role for this action",
            CustomError::NotApproved => "User not approved",
            CustomError::AlreadyInitialized => "Account already initialized",
            CustomError::AlreadyRegistered => "User already registered",
            CustomError::AlreadyApproved => "User already approved",
            CustomError::InvalidWallet => "Invalid wallet address",
        }
    }
}

/// Failures of batch, telemetry and certification operations.
#[derive(Clone, Copy, Debug, PartialEq, Eq, Structural)]
pub enum SupplyChainError {
    InvalidRole,
    UserNotApproved,
    WalletMismatch,
    InvalidProductionDate,
    InvalidBatchId,
    InvalidMetadataCid,
    InvalidMetadataHash,
    NotCurrentOwner,
    BatchNotCompliant,
    InvalidDetailsHash,
    InvalidDetailsCid,
    InvalidHandoverRole,
    InvalidRoleTransition,
    TooManyEvents,
    UnauthorizedOracle,
    InvalidTimestamp,
    InvalidTemperatureRange,
    StaleIoTData,
    InvalidCertificationType,
    BatchAlreadyRecalled,
    EmptyReason,
}

impl SupplyChainError {
    pub open spec fn kind_spec(self) -> ErrorKind {
        match self {
            SupplyChainError::InvalidRole => ErrorKind::Authorization,
            SupplyChainError::UserNotApproved => ErrorKind::Authorization,
            SupplyChainError::WalletMismatch => ErrorKind::Authorization,
            SupplyChainError::UnauthorizedOracle => ErrorKind::Authorization,
            SupplyChainError::NotCurrentOwner => ErrorKind::StateConflict,
            SupplyChainError::BatchNotCompliant => ErrorKind::StateConflict,
            SupplyChainError::InvalidHandoverRole => ErrorKind::StateConflict,
            SupplyChainError::InvalidRoleTransition => ErrorKind::StateConflict,
            SupplyChainError::BatchAlreadyRecalled => ErrorKind::StateConflict,
            SupplyChainError::TooManyEvents => ErrorKind::Capacity,
            SupplyChainError::InvalidTimestamp => ErrorKind::Staleness,
            SupplyChainError::StaleIoTData => ErrorKind::Staleness,
            _ => ErrorKind::Validation,
        }
    }

    /// The class of this failure.
    pub fn kind(&self) -> (r: ErrorKind)
        ensures
            r == self.kind_spec(),
    {
        match self {
            SupplyChainError::InvalidRole => ErrorKind::Authorization,
            SupplyChainError::UserNotApproved => ErrorKind::Authorization,
            SupplyChainError::WalletMismatch => ErrorKind::Authorization,
            SupplyChainError::UnauthorizedOracle => ErrorKind::Authorization,
            SupplyChainError::NotCurrentOwner => ErrorKind::StateConflict,
            SupplyChainError::BatchNotCompliant => ErrorKind::StateConflict,
            SupplyChainError::InvalidHandoverRole => ErrorKind::StateConflict,
            SupplyChainError::InvalidRoleTransition => ErrorKind::StateConflict,
            SupplyChainError::BatchAlreadyRecalled => ErrorKind::StateConflict,
            SupplyChainError::TooManyEvents => ErrorKind::Capacity,
            SupplyChainError::InvalidTimestamp => ErrorKind::Staleness,
            SupplyChainError::StaleIoTData => ErrorKind::Staleness,
            _ => ErrorKind::Validation,
        }
    }

    /// The message shown for this failure.
    pub fn message(&self) -> (r: &'static str) {
        match self {
            SupplyChainError::InvalidRole => "Invalid role for this operation",
            SupplyChainError::UserNotApproved => "User is not approved",
            SupplyChainError::WalletMismatch => "Wallet address does not match user profile",
            SupplyChainError::InvalidProductionDate => "Invalid production date",
            SupplyChainError::InvalidBatchId => "Invalid batch ID",
            SupplyChainError::InvalidMetadataCid => "Invalid metadata CID",
            SupplyChainError::InvalidMetadataHash => "Invalid metadata hash",
            SupplyChainError::NotCurrentOwner => "User is not the current owner of the batch",
            SupplyChainError::BatchNotCompliant => "Batch is not compliant for handover",
            SupplyChainError::InvalidDetailsHash => "Invalid details hash",
            SupplyChainError::InvalidDetailsCid => "Invalid details CID",
            SupplyChainError::InvalidHandoverRole => "Invalid role for handover",
            SupplyChainError::InvalidRoleTransition => "Invalid role transition",
            SupplyChainError::TooManyEvents => "Too many events in batch",
            SupplyChainError::UnauthorizedOracle => "Oracle is not authorized for this operation",
            SupplyChainError::InvalidTimestamp => "Invalid timestamp - must be greater than previous",
            SupplyChainError::InvalidTemperatureRange => "Invalid temperature range - min_temp must be <= max_temp",
            SupplyChainError::StaleIoTData => "IoT data is too old for compliance check",
            SupplyChainError::InvalidCertificationType => "Invalid certification type",
            SupplyChainError::BatchAlreadyRecalled => "Batch is already recalled",
            SupplyChainError::EmptyReason => "Reason cannot be empty",
        }
    }
}

} // verus!
