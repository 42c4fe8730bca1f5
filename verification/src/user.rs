//! User profiles: who a user is, what they have traded, and how they are
//! rated.

use vstd::prelude::*;
use vstd::string::StrSliceExecFns;
use crate::error::MarketplaceError;
use crate::identity::Identity;
use crate::registry::Marketplace;
use crate::reputation::{
    consistent_reputation,
    next_score,
    running_mean_step,
    valid_rating,
    MAX_RATING,
    MIN_RATING,
};

verus! {

/// The most characters a display name can have.
pub const MAX_DISPLAY_NAME_LEN: usize = 50;

/// The most characters a bio can have.
pub const MAX_BIO_LEN: usize = 500;

/// The most characters a location can have.
pub const MAX_LOCATION_LEN: usize = 100;

/// The most characters a verification attestation can have.
pub const MAX_ATTESTATION_LEN: usize = 200;

/// The profile of one user.
#[derive(Clone, Debug, PartialEq, Eq)]
pub struct UserAccount {
    pub authority: Identity,
    pub display_name: String,
    pub bio: String,
    pub location: String,
    /// The running mean of the ratings received, rounded down.
    pub reputation_score: u16,
    pub total_reviews: u32,
    pub total_sales: u32,
    pub total_purchases: u32,
    pub is_verified: bool,
    pub verification_attestation: Option<String>,
    pub created_at: i64,
    pub bump: u8,
}

/// What registering a user yields: the new profile together with the
/// marketplace that has counted it, or the reason for refusing. The text
/// fields are checked in the order display name, bio, location.
pub open spec fn registration(
    marketplace: Marketplace,
    authority: Identity,
    display_name: String,
    bio: String,
    location: String,
    now: i64,
    bump: u8,
) -> Result<(UserAccount, Marketplace), MarketplaceError> {
    if display_name@.len() > MAX_DISPLAY_NAME_LEN {
        Err(MarketplaceError::DisplayNameTooLong)
    } else if bio@.len() > MAX_BIO_LEN {
        Err(MarketplaceError::BioTooLong)
    } else if location@.len() > MAX_LOCATION_LEN {
        Err(MarketplaceError::LocationTooLong)
    } else if marketplace.total_users == u64::MAX {
        Err(MarketplaceError::ArithmeticOverflow)
    } else {
        Ok(
            (
                UserAccount {
                    authority,
                    display_name,
                    bio,
                    location,
                    reputation_score: 0,
                    total_reviews: 0,
                    total_sales: 0,
                    total_purchases: 0,
                    is_verified: false,
                    verification_attestation: None,
                    created_at: now,
                    bump,
                },
                Marketplace {
                    total_users: (marketplace.total_users + 1) as u64,
                    ..marketplace
                },
            ),
        )
    }
}

impl UserAccount {
    /// The text fields are within their limits, a profile is verified exactly
    /// when it holds an attestation, and score and review count agree.
    pub open spec fn well_formed(self) -> bool {
        &&& self.display_name@.len() <= MAX_DISPLAY_NAME_LEN
        &&& self.bio@.len() <= MAX_BIO_LEN
        &&& self.location@.len() <= MAX_LOCATION_LEN
        &&& self.is_verified == self.verification_attestation.is_some()
        &&& self.verification_attestation matches Some(text) ==> text@.len()
            <= MAX_ATTESTATION_LEN
        &&& consistent_reputation(self.reputation_score, self.total_reviews)
    }

    /// The profile after one more sale.
    pub open spec fn with_sale(self) -> Result<UserAccount, MarketplaceError> {
        if self.total_sales == u32::MAX {
            Err(MarketplaceError::ArithmeticOverflow)
        } else {
            Ok(UserAccount { total_sales: (self.total_sales + 1) as u32, ..self })
        }
    }

    /// The profile after one more purchase.
    pub open spec fn with_purchase(self) -> Result<UserAccount, MarketplaceError> {
        if self.total_purchases == u32::MAX {
            Err(MarketplaceError::ArithmeticOverflow)
        } else {
            Ok(UserAccount { total_purchases: (self.total_purchases + 1) as u32, ..self })
        }
    }

    /// The profile after a review that rates it `rating`: the score becomes
    /// the running mean and the review is counted. A rating outside the scale
    /// is refused first, a full counter second.
    pub open spec fn with_review(self, rating: u8) -> Result<UserAccount, MarketplaceError> {
        if !valid_rating(rating) {
            Err(MarketplaceError::InvalidRating)
        } else if self.total_reviews == u32::MAX {
            Err(MarketplaceError::ArithmeticOverflow)
        } else {
            Ok(
                UserAccount {
                    reputation_score: running_mean_step(
                        self.reputation_score as int,
                        self.total_reviews as int,
                        rating as int,
                    ) as u16,
                    total_reviews: (self.total_reviews + 1) as u32,
                    ..self
                },
            )
        }
    }

    /// Counts one more sale. Fails, changing nothing, when the counter is at
    /// its maximum.
    pub fn record_sale(&mut self) -> (r: Result<(), MarketplaceError>)
        ensures
            match old(self).with_sale() {
                Ok(next) => r is Ok && *final(self) == next,
                Err(e) => r == Err::<(), MarketplaceError>(e) && *final(self) == *old(self),
            },
            old(self).well_formed() ==> final(self).well_formed(),
    {
        match self.total_sales.checked_add(1) {
            Some(n) => {
                self.total_sales = n;
                Ok(())
            },
            None => Err(MarketplaceError::ArithmeticOverflow),
        }
    }

    /// Counts one more purchase. Fails, changing nothing, when the counter is
    /// at its maximum.
    pub fn record_purchase(&mut self) -> (r: Result<(), MarketplaceError>)
        ensures
            match old(self).with_purchase() {
                Ok(next) => r is Ok && *final(self) == next,
                Err(e) => r == Err::<(), MarketplaceError>(e) && *final(self) == *old(self),
            },
            old(self).well_formed() ==> final(self).well_formed(),
    {
        match self.total_purchases.checked_add(1) {
            Some(n) => {
                self.total_purchases = n;
                Ok(())
            },
            None => Err(MarketplaceError::ArithmeticOverflow),
        }
    }

    /// Folds one rating into the reputation: the score becomes
    /// `floor((score * total_reviews + rating) / (total_reviews + 1))` and the
    /// review is counted. Fails, changing nothing, on a rating outside 1 to 5
    /// or when the review counter is at its maximum.
    pub fn apply_review(&mut self, rating: u8) -> (r: Result<(), MarketplaceError>)
        ensures
            match old(self).with_review(rating) {
                Ok(next) => r is Ok && *final(self) == next,
                Err(e) => r == Err::<(), MarketplaceError>(e) && *final(self) == *old(self),
            },
            old(self).well_formed() ==> final(self).well_formed(),
    {
        if rating < MIN_RATING || rating > MAX_RATING {
            return Err(MarketplaceError::InvalidRating);
        }
        match self.total_reviews.checked_add(1) {
            Some(n) => {
                self.reputation_score = next_score(self.reputation_score, self.total_reviews, rating);
                self.total_reviews = n;
                Ok(())
            },
            None => Err(MarketplaceError::ArithmeticOverflow),
        }
    }
}

/// Registers a user: checks the text fields against their limits, builds the
/// profile with empty counters, no reputation and no verification, and counts
/// the user in the marketplace. On any failure the marketplace is unchanged.
pub fn create_user_account(
    marketplace: &mut Marketplace,
    authority: Identity,
    display_name: String,
    bio: String,
    location: String,
    now: i64,
    bump: u8,
) -> (r: Result<UserAccount, MarketplaceError>)
    ensures
        match registration(*old(marketplace), authority, display_name, bio, location, now, bump) {
            Ok((user, market)) => r == Ok::<UserAccount, MarketplaceError>(user)
                && *final(marketplace) == market,
            Err(e) => r == Err::<UserAccount, MarketplaceError>(e) && *final(marketplace)
                == *old(marketplace),
        },
        r matches Ok(user) ==> user.well_formed(),
        old(marketplace).well_formed() ==> final(marketplace).well_formed(),
{
    if display_name.as_str().unicode_len() > MAX_DISPLAY_NAME_LEN {
        return Err(MarketplaceError::DisplayNameTooLong);
    }
    if bio.as_str().unicode_len() > MAX_BIO_LEN {
        return Err(MarketplaceError::BioTooLong);
    }
    if location.as_str().unicode_len() > MAX_LOCATION_LEN {
        return Err(MarketplaceError::LocationTooLong);
    }
    match marketplace.record_new_user() {
        Ok(()) => {},
        Err(e) => {
            return Err(e);
        },
    }
    Ok(
        UserAccount {
            authority,
            display_name,
            bio,
            location,
            reputation_score: 0,
            total_reviews: 0,
            total_sales: 0,
            total_purchases: 0,
            is_verified: false,
            verification_attestation: None,
            created_at: now,
            bump,
        },
    )
}

/// Marks a profile as verified and stores the attestation, replacing an
/// earlier one. An attestation of more than `MAX_ATTESTATION_LEN` characters
/// is refused and the profile stays as it was.
pub fn update_verification(user_account: &mut UserAccount, attestation: String) -> (r: Result<
    (),
    MarketplaceError,
>)
    ensures
        attestation@.len() <= MAX_ATTESTATION_LEN ==> r is Ok && *final(user_account) == (
        UserAccount {
            is_verified: true,
            verification_attestation: Some(attestation),
            ..*old(user_account)
        }),
        attestation@.len() > MAX_ATTESTATION_LEN ==> r == Err::<(), MarketplaceError>(
            MarketplaceError::AttestationTooLong,
        ) && *final(user_account) == *old(user_account),
        old(user_account).well_formed() ==> final(user_account).well_formed(),
{
    if attestation.as_str().unicode_len() > MAX_ATTESTATION_LEN {
        return Err(MarketplaceError::AttestationTooLong);
    }
    user_account.is_verified = true;
    user_account.verification_attestation = Some(attestation);
    Ok(())
}

} // verus!
