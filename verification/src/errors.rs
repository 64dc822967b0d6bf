//! The reasons for which an operation is rejected.

use vstd::prelude::*;

verus! {

/// Why an operation on the asset registry was rejected.
#[derive(Clone, Copy, Debug, PartialEq, Eq, Structural)]
pub enum ErrorCode {
    RegistryPaused,
    MetadataUriTooLong,
    AssetInactive,
    ExceedsMaxSupply,
    InsufficientBalance,
    InvalidCrossChainOperation,
    Unauthorized,
    /// The record to be created exists already.
    AlreadyInitialized,
    /// The record handed in is not the one that the asset id names.
    AssetMismatch,
    /// A counter has reached the largest value it can hold.
    ArithmeticOverflow,
}

/// Why an operation on the identity registry was rejected.
#[derive(Clone, Copy, Debug, PartialEq, Eq, Structural)]
pub enum IdentityError {
    UnauthorizedIssuer,
    RegistryPaused,
    InvalidDID,
    PassportInactive,
    InvalidChain,
    InvalidAddress,
    Unauthorized,
    /// The record to be created exists already.
    AlreadyInitialized,
    MetadataUriTooLong,
    InvalidCredential,
    /// A bounded list of the record is full.
    CapacityExceeded,
    /// A counter or a date has left the range of its type.
    ArithmeticOverflow,
}

impl ErrorCode {
    pub open spec fn text(self) -> Seq<char> {
        match self {
            ErrorCode::RegistryPaused => "Registry is currently paused"@,
            ErrorCode::MetadataUriTooLong => "Metadata URI is too long (max 200 characters)"@,
            ErrorCode::AssetInactive => "Asset is not active"@,
            ErrorCode::ExceedsMaxSupply => "Amount exceeds maximum supply"@,
            ErrorCode::InsufficientBalance => "Insufficient balance"@,
            ErrorCode::InvalidCrossChainOperation => "Invalid cross-chain operation"@,
            ErrorCode::Unauthorized => "Unauthorized access"@,
            ErrorCode::AlreadyInitialized => "Record is already initialized"@,
            ErrorCode::AssetMismatch => "Record does not belong to the asset id"@,
            ErrorCode::ArithmeticOverflow => "Counter overflow"@,
        }
    }

    /// The message that goes with the error.
    pub fn message(&self) -> (s: &'static str)
        ensures
            s@ == self.text(),
    {
        match self {
            ErrorCode::RegistryPaused => "Registry is currently paused",
            ErrorCode::MetadataUriTooLong => "Metadata URI is too long (max 200 characters)",
            ErrorCode::AssetInactive => "Asset is not active",
            ErrorCode::ExceedsMaxSupply => "Amount exceeds maximum supply",
            ErrorCode::InsufficientBalance => "Insufficient balance",
            ErrorCode::InvalidCrossChainOperation => "Invalid cross-chain operation",
            ErrorCode::Unauthorized => "Unauthorized access",
            ErrorCode::AlreadyInitialized => "Record is already initialized",
            ErrorCode::AssetMismatch => "Record does not belong to the asset id",
            ErrorCode::ArithmeticOverflow => "Counter overflow",
        }
    }
}

impl IdentityError {
    pub open spec fn text(self) -> Seq<char> {
        match self {
            IdentityError::UnauthorizedIssuer => "Unauthorized issuer"@,
            IdentityError::RegistryPaused => "Registry is paused"@,
            IdentityError::InvalidDID => "Invalid DID"@,
            IdentityError::PassportInactive => "Passport is inactive"@,
            IdentityError::InvalidChain => "Invalid chain"@,
            IdentityError::InvalidAddress => "Invalid address"@,
            IdentityError::Unauthorized => "Unauthorized"@,
            IdentityError::AlreadyInitialized => "Record is already initialized"@,
            IdentityError::MetadataUriTooLong => "Metadata URI is too long"@,
            IdentityError::InvalidCredential => "Invalid credential"@,
            IdentityError::CapacityExceeded => "List is full"@,
            IdentityError::ArithmeticOverflow => "Arithmetic overflow"@,
        }
    }

    /// The message that goes with the error.
    pub fn message(&self) -> (s: &'static str)
        ensures
            s@ == self.text(),
    {
        match self {
            IdentityError::UnauthorizedIssuer => "Unauthorized issuer",
            IdentityError::RegistryPaused => "Registry is paused",
            IdentityError::InvalidDID => "Invalid DID",
            IdentityError::PassportInactive => "Passport is inactive",
            IdentityError::InvalidChain => "Invalid chain",
            IdentityError::InvalidAddress => "Invalid address",
            IdentityError::Unauthorized => "Unauthorized",
            IdentityError::AlreadyInitialized => "Record is already initialized",
            IdentityError::MetadataUriTooLong => "Metadata URI is too long",
            IdentityError::InvalidCredential => "Invalid credential",
            IdentityError::CapacityExceeded => "List is full",
            IdentityError::ArithmeticOverflow => "Arithmetic overflow",
        }
    }
}

} // verus!
