//! The error every contract of the ledger reports.
use vstd::prelude::*;

verus! {

/// Why a contract call was refused.
#[derive(Copy, Clone, Debug, PartialEq, Eq, PartialOrd, Ord)]
pub enum CarbonError {
    ProjectNotFound,
    ProjectNotVerified,
    ProjectSuspended,
    InsufficientCredits,
    AlreadyRetired,
    SerialNumberConflict,
    UnauthorizedVerifier,
    UnauthorizedOracle,
    InvalidVintageYear,
    ListingNotFound,
    InsufficientLiquidity,
    PriceNotSet,
    MonitoringDataStale,
    DoubleCountingDetected,
    RetirementIrreversible,
    ZeroAmountNotAllowed,
    ProjectAlreadyExists,
    InvalidSerialRange,
}

/// The number under which each error is published to contract callers.
pub open spec fn error_code(e: CarbonError) -> u32 {
    match e {
        CarbonError::ProjectNotFound => 1,
        CarbonError::ProjectNotVerified => 2,
        CarbonError::ProjectSuspended => 3,
        CarbonError::InsufficientCredits => 4,
        CarbonError::AlreadyRetired => 5,
        CarbonError::SerialNumberConflict => 6,
        CarbonError::UnauthorizedVerifier => 7,
        CarbonError::UnauthorizedOracle => 8,
        CarbonError::InvalidVintageYear => 9,
        CarbonError::ListingNotFound => 10,
        CarbonError::InsufficientLiquidity => 11,
        CarbonError::PriceNotSet => 12,
        CarbonError::MonitoringDataStale => 13,
        CarbonError::DoubleCountingDetected => 14,
        CarbonError::RetirementIrreversible => 15,
        CarbonError::ZeroAmountNotAllowed => 16,
        CarbonError::ProjectAlreadyExists => 17,
        CarbonError::InvalidSerialRange => 18,
    }
}

/// The error published under `code`, if any.
pub open spec fn error_of_code(code: u32) -> Option<CarbonError> {
    if code == 1 {
        Some(CarbonError::ProjectNotFound)
    } else if code == 2 {
        Some(CarbonError::ProjectNotVerified)
    } else if code == 3 {
        Some(CarbonError::ProjectSuspended)
    } else if code == 4 {
        Some(CarbonError::InsufficientCredits)
    } else if code == 5 {
        Some(CarbonError::AlreadyRetired)
    } else if code == 6 {
        Some(CarbonError::SerialNumberConflict)
    } else if code == 7 {
        Some(CarbonError::UnauthorizedVerifier)
    } else if code == 8 {
        Some(CarbonError::UnauthorizedOracle)
    } else if code == 9 {
        Some(CarbonError::InvalidVintageYear)
    } else if code == 10 {
        Some(CarbonError::ListingNotFound)
    } else if code == 11 {
        Some(CarbonError::InsufficientLiquidity)
    } else if code == 12 {
        Some(CarbonError::PriceNotSet)
    } else if code == 13 {
        Some(CarbonError::MonitoringDataStale)
    } else if code == 14 {
        Some(CarbonError::DoubleCountingDetected)
    } else if code == 15 {
        Some(CarbonError::RetirementIrreversible)
    } else if code == 16 {
        Some(CarbonError::ZeroAmountNotAllowed)
    } else if code == 17 {
        Some(CarbonError::ProjectAlreadyExists)
    } else if code == 18 {
        Some(CarbonError::InvalidSerialRange)
    } else {
        None
    }
}

impl CarbonError {
    /// The contract error number of this error.
    pub fn code(self) -> (c: u32)
        ensures
            c == error_code(self),
    {
        match self {
            CarbonError::ProjectNotFound => 1,
            CarbonError::ProjectNotVerified => 2,
            CarbonError::ProjectSuspended => 3,
            CarbonError::InsufficientCredits => 4,
            CarbonError::AlreadyRetired => 5,
            CarbonError::SerialNumberConflict => 6,
            CarbonError::UnauthorizedVerifier => 7,
            CarbonError::UnauthorizedOracle => 8,
            CarbonError::InvalidVintageYear => 9,
            CarbonError::ListingNotFound => 10,
            CarbonError::InsufficientLiquidity => 11,
            CarbonError::PriceNotSet => 12,
            CarbonError::MonitoringDataStale => 13,
            CarbonError::DoubleCountingDetected => 14,
            CarbonError::RetirementIrreversible => 15,
            CarbonError::ZeroAmountNotAllowed => 16,
            CarbonError::ProjectAlreadyExists => 17,
            CarbonError::InvalidSerialRange => 18,
        }
    }

    /// The error with contract error number `code`, if there is one.
    pub fn from_code(code: u32) -> (r: Option<CarbonError>)
        ensures
            r == error_of_code(code),
    {
        if code == 1 {
            Some(CarbonError::ProjectNotFound)
        } else if code == 2 {
            Some(CarbonError::ProjectNotVerified)
        } else if code == 3 {
            Some(CarbonError::ProjectSuspended)
        } else if code == 4 {
            Some(CarbonError::InsufficientCredits)
        } else if code == 5 {
            Some(CarbonError::AlreadyRetired)
        } else if code == 6 {
            Some(CarbonError::SerialNumberConflict)
        } else if code == 7 {
            Some(CarbonError::UnauthorizedVerifier)
        } else if code == 8 {
            Some(CarbonError::UnauthorizedOracle)
        } else if code == 9 {
            Some(CarbonError::InvalidVintageYear)
        } else if code == 10 {
            Some(CarbonError::ListingNotFound)
        } else if code == 11 {
            Some(CarbonError::InsufficientLiquidity)
        } else if code == 12 {
            Some(CarbonError::PriceNotSet)
        } else if code == 13 {
            Some(CarbonError::MonitoringDataStale)
        } else if code == 14 {
            Some(CarbonError::DoubleCountingDetected)
        } else if code == 15 {
            Some(CarbonError::RetirementIrreversible)
        } else if code == 16 {
            Some(CarbonError::ZeroAmountNotAllowed)
        } else if code == 17 {
            Some(CarbonError::ProjectAlreadyExists)
        } else if code == 18 {
            Some(CarbonError::InvalidSerialRange)
        } else {
            None
        }
    }
}

/// Decoding the published number of an error gives the error back.
pub proof fn lemma_error_code_round_trip(e: CarbonError)
    ensures
        error_of_code(error_code(e)) == Some(e),
{
}

} // verus!
