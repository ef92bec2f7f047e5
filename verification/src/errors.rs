use vstd::prelude::*;

verus! {

/// Errors raised by the job-platform operations, including the escrow core
/// shared by scout offers and contact requests.
#[derive(Clone, Copy, Debug, PartialEq, Eq, Structural)]
pub enum JobPlatformError {
    TooManySkills,
    BioTooLong,
    TitleTooLong,
    DescriptionTooLong,
    InvalidSalaryRange,
    InvalidDeadline,
    JobNotActive,
    JobExpired,
    CoverLetterTooLong,
    ProfileNotPublic,
    MessageTooLong,
    IncentiveTooLow,
    ScoutOfferNotPending,
    ScoutOfferExpired,
    ScoutOfferNotExpired,
    OfferAlreadyExists,
    InsufficientFunds,
    BalanceOverflow,
    TimestampOverflow,
    AddressDerivationFailed,
    AddressMismatch,
    NotAuthorized,
    OfferNotFound,
    ApplicationCountOverflow,
}

/// Errors raised by the profile-manager's profile operations.
#[derive(Clone, Copy, Debug, PartialEq, Eq, Structural)]
pub enum ProfileManagerError {
    TooManySkills,
    BioTooLong,
    InvalidHandle,
    InvalidResponseTime,
    AddressDerivationFailed,
}

/// The four kinds of failure a caller can see: a bad input, a record in the
/// wrong lifecycle state, a deadline violation, or a caller that is not the
/// required party (or supplied a forged reference).
#[derive(Clone, Copy, Debug, PartialEq, Eq, Structural)]
pub enum ErrorClass {
    Validation,
    State,
    Temporal,
    Authorization,
}

/// Classifies each error so a client can tell "fix your input" from
/// "wrong state", "try later / too late" and "wrong caller".
pub open spec fn class_of(e: JobPlatformError) -> ErrorClass {
    match e {
        JobPlatformError::TooManySkills => ErrorClass::Validation,
        JobPlatformError::BioTooLong => ErrorClass::Validation,
        JobPlatformError::TitleTooLong => ErrorClass::Validation,
        JobPlatformError::DescriptionTooLong => ErrorClass::Validation,
        JobPlatformError::InvalidSalaryRange => ErrorClass::Validation,
        JobPlatformError::InvalidDeadline => ErrorClass::Validation,
        JobPlatformError::JobNotActive => ErrorClass::State,
        JobPlatformError::JobExpired => ErrorClass::Temporal,
        JobPlatformError::CoverLetterTooLong => ErrorClass::Validation,
        JobPlatformError::ProfileNotPublic => ErrorClass::State,
        JobPlatformError::MessageTooLong => ErrorClass::Validation,
        JobPlatformError::IncentiveTooLow => ErrorClass::Validation,
        JobPlatformError::ScoutOfferNotPending => ErrorClass::State,
        JobPlatformError::ScoutOfferExpired => ErrorClass::Temporal,
        JobPlatformError::ScoutOfferNotExpired => ErrorClass::Temporal,
        JobPlatformError::OfferAlreadyExists => ErrorClass::State,
        JobPlatformError::InsufficientFunds => ErrorClass::Validation,
        JobPlatformError::BalanceOverflow => ErrorClass::Validation,
        JobPlatformError::TimestampOverflow => ErrorClass::Validation,
        JobPlatformError::AddressDerivationFailed => ErrorClass::Authorization,
        JobPlatformError::AddressMismatch => ErrorClass::Authorization,
        JobPlatformError::NotAuthorized => ErrorClass::Authorization,
        JobPlatformError::OfferNotFound => ErrorClass::Authorization,
        JobPlatformError::ApplicationCountOverflow => ErrorClass::Validation,
    }
}

/// Executable view of [`class_of`].
pub fn error_class(e: JobPlatformError) -> (r: ErrorClass)
    ensures
        r == class_of(e),
{
    match e {
        JobPlatformError::TooManySkills => ErrorClass::Validation,
        JobPlatformError::BioTooLong => ErrorClass::Validation,
        JobPlatformError::TitleTooLong => ErrorClass::Validation,
        JobPlatformError::DescriptionTooLong => ErrorClass::Validation,
        JobPlatformError::InvalidSalaryRange => ErrorClass::Validation,
        JobPlatformError::InvalidDeadline => ErrorClass::Validation,
        JobPlatformError::JobNotActive => ErrorClass::State,
        JobPlatformError::JobExpired => ErrorClass::Temporal,
        JobPlatformError::CoverLetterTooLong => ErrorClass::Validation,
        JobPlatformError::ProfileNotPublic => ErrorClass::State,
        JobPlatformError::MessageTooLong => ErrorClass::Validation,
        JobPlatformError::IncentiveTooLow => ErrorClass::Validation,
        JobPlatformError::ScoutOfferNotPending => ErrorClass::State,
        JobPlatformError::ScoutOfferExpired => ErrorClass::Temporal,
        JobPlatformError::ScoutOfferNotExpired => ErrorClass::Temporal,
        JobPlatformError::OfferAlreadyExists => ErrorClass::State,
        JobPlatformError::InsufficientFunds => ErrorClass::Validation,
        JobPlatformError::BalanceOverflow => ErrorClass::Validation,
        JobPlatformError::TimestampOverflow => ErrorClass::Validation,
        JobPlatformError::AddressDerivationFailed => ErrorClass::Authorization,
        JobPlatformError::AddressMismatch => ErrorClass::Authorization,
        JobPlatformError::NotAuthorized => ErrorClass::Authorization,
        JobPlatformError::OfferNotFound => ErrorClass::Authorization,
        JobPlatformError::ApplicationCountOverflow => ErrorClass::Validation,
    }
}

} // verus!
