//! The failures that an operation of the marketplace can report.

use vstd::prelude::*;

verus! {

/// The broad class of a failure.
#[derive(Clone, Copy, Debug, PartialEq, Eq, Structural)]
pub enum ErrorKind {
    /// The request itself is malformed; nothing was looked at beyond it.
    Validation,
    /// A record is in a state that does not admit the operation.
    State,
    /// A counter or an amount would leave its integer range.
    Arithmetic,
    /// The host could not move the funds.
    Transfer,
}

/// Every failure of the marketplace. An operation that fails changes nothing.
#[derive(Clone, Copy, Debug, PartialEq, Eq, Structural)]
pub enum MarketplaceError {
    DisplayNameTooLong,
    BioTooLong,
    LocationTooLong,
    TitleTooLong,
    DescriptionTooLong,
    URITooLong,
    InvalidPrice,
    ListingNotActive,
    ListingAlreadySold,
    PurchaseAlreadyCompleted,
    PurchaseDisputed,
    PurchaseNotCompleted,
    InvalidRating,
    CommentTooLong,
    AttestationTooLong,
    InvalidFeeRate,
    ArithmeticOverflow,
    TransferFailed,
    /// A profile handed in is not that of the party it should stand for.
    ProfileMismatch,
}

impl MarketplaceError {
    /// The class that each failure belongs to.
    pub open spec fn spec_kind(self) -> ErrorKind {
        match self {
            MarketplaceError::DisplayNameTooLong
            | MarketplaceError::BioTooLong
            | MarketplaceError::LocationTooLong
            | MarketplaceError::TitleTooLong
            | MarketplaceError::DescriptionTooLong
            | MarketplaceError::URITooLong
            | MarketplaceError::CommentTooLong
            | MarketplaceError::AttestationTooLong
            | MarketplaceError::InvalidPrice
            | MarketplaceError::InvalidRating
            | MarketplaceError::InvalidFeeRate
            | MarketplaceError::ProfileMismatch => ErrorKind::Validation,
            MarketplaceError::ListingNotActive
            | MarketplaceError::ListingAlreadySold
            | MarketplaceError::PurchaseAlreadyCompleted
            | MarketplaceError::PurchaseDisputed
            | MarketplaceError::PurchaseNotCompleted => ErrorKind::State,
            MarketplaceError::ArithmeticOverflow => ErrorKind::Arithmetic,
            MarketplaceError::TransferFailed => ErrorKind::Transfer,
        }
    }

    /// True of the failures that say a text field is longer than its limit.
    pub open spec fn spec_is_field_too_long(self) -> bool {
        self == MarketplaceError::DisplayNameTooLong
            || self == MarketplaceError::BioTooLong
            || self == MarketplaceError::LocationTooLong
            || self == MarketplaceError::TitleTooLong
            || self == MarketplaceError::DescriptionTooLong
            || self == MarketplaceError::URITooLong
            || self == MarketplaceError::CommentTooLong
            || self == MarketplaceError::AttestationTooLong
    }

    /// The text shown to a person for each failure.
    pub open spec fn spec_message(self) -> Seq<char> {
        match self {
            MarketplaceError::DisplayNameTooLong => "Display name is too long"@,
            MarketplaceError::BioTooLong => "Bio is too long"@,
            MarketplaceError::LocationTooLong => "Location is too long"@,
            MarketplaceError::TitleTooLong => "Title is too long"@,
            MarketplaceError::DescriptionTooLong => "Description is too long"@,
            MarketplaceError::URITooLong => "URI is too long"@,
            MarketplaceError::InvalidPrice => "Invalid price"@,
            MarketplaceError::ListingNotActive => "Listing is not active"@,
            MarketplaceError::ListingAlreadySold => "Listing is already sold"@,
            MarketplaceError::PurchaseAlreadyCompleted => "Purchase is already completed"@,
            MarketplaceError::PurchaseDisputed => "Purchase is disputed"@,
            MarketplaceError::PurchaseNotCompleted => "Purchase is not completed"@,
            MarketplaceError::InvalidRating => "Invalid rating"@,
            MarketplaceError::CommentTooLong => "Comment is too long"@,
            MarketplaceError::AttestationTooLong => "Attestation is too long"@,
            MarketplaceError::InvalidFeeRate => "Fee rate exceeds 10000 basis points"@,
            MarketplaceError::ArithmeticOverflow => "Arithmetic overflow"@,
            MarketplaceError::TransferFailed => "Funds could not be transferred"@,
            MarketplaceError::ProfileMismatch => "Profile does not belong to the party"@,
        }
    }

    /// Classifies the failure.
    pub fn kind(self) -> (k: ErrorKind)
        ensures
            k == self.spec_kind(),
    {
        match self {
            MarketplaceError::DisplayNameTooLong
            | MarketplaceError::BioTooLong
            | MarketplaceError::LocationTooLong
            | MarketplaceError::TitleTooLong
            | MarketplaceError::DescriptionTooLong
            | MarketplaceError::URITooLong
            | MarketplaceError::CommentTooLong
            | MarketplaceError::AttestationTooLong
            | MarketplaceError::InvalidPrice
            | MarketplaceError::InvalidRating
            | MarketplaceError::InvalidFeeRate
            | MarketplaceError::ProfileMismatch => ErrorKind::Validation,
            MarketplaceError::ListingNotActive
            | MarketplaceError::ListingAlreadySold
            | MarketplaceError::PurchaseAlreadyCompleted
            | MarketplaceError::PurchaseDisputed
            | MarketplaceError::PurchaseNotCompleted => ErrorKind::State,
            MarketplaceError::ArithmeticOverflow => ErrorKind::Arithmetic,
            MarketplaceError::TransferFailed => ErrorKind::Transfer,
        }
    }

    /// Tells whether the failure reports a text field over its limit.
    pub fn is_field_too_long(self) -> (b: bool)
        ensures
            b == self.spec_is_field_too_long(),
    {
        match self {
            MarketplaceError::DisplayNameTooLong
            | MarketplaceError::BioTooLong
            | MarketplaceError::LocationTooLong
            | MarketplaceError::TitleTooLong
            | MarketplaceError::DescriptionTooLong
            | MarketplaceError::URITooLong
            | MarketplaceError::CommentTooLong
            | MarketplaceError::AttestationTooLong => true,
            _ => false,
        }
    }

    /// The text shown to a person for this failure.
    pub fn message(self) -> (m: &'static str)
        ensures
            m@ == self.spec_message(),
    {
        match self {
            MarketplaceError::DisplayNameTooLong => "Display name is too long",
            MarketplaceError::BioTooLong => "Bio is too long",
            MarketplaceError::LocationTooLong => "Location is too long",
            MarketplaceError::TitleTooLong => "Title is too long",
            MarketplaceError::DescriptionTooLong => "Description is too long",
            MarketplaceError::URITooLong => "URI is too long",
            MarketplaceError::InvalidPrice => "Invalid price",
            MarketplaceError::ListingNotActive => "Listing is not active",
            MarketplaceError::ListingAlreadySold => "Listing is already sold",
            MarketplaceError::PurchaseAlreadyCompleted => "Purchase is already completed",
            MarketplaceError::PurchaseDisputed => "Purchase is disputed",
            MarketplaceError::PurchaseNotCompleted => "Purchase is not completed",
            MarketplaceError::InvalidRating => "Invalid rating",
            MarketplaceError::CommentTooLong => "Comment is too long",
            MarketplaceError::AttestationTooLong => "Attestation is too long",
            MarketplaceError::InvalidFeeRate => "Fee rate exceeds 10000 basis points",
            MarketplaceError::ArithmeticOverflow => "Arithmetic overflow",
            MarketplaceError::TransferFailed => "Funds could not be transferred",
            MarketplaceError::ProfileMismatch => "Profile does not belong to the party",
        }
    }
}

} // verus!
