//! Reviews: the ratings that the two sides of a completed purchase give each
//! other, and what they do to a reputation.

use vstd::prelude::*;
use vstd::string::StrSliceExecFns;
use crate::error::MarketplaceError;
use crate::identity::Identity;
use crate::reputation::{
    least_rating,
    lemma_running_mean_at_least_least,
    lemma_running_mean_at_most_batch,
    lemma_running_mean_in_scale,
    rating_sum,
    running_mean,
    valid_rating,
    valid_ratings,
    MAX_RATING,
    MIN_RATING,
};
use crate::trade::Purchase;
use crate::user::UserAccount;

verus! {

/// The most characters a review's comment can have.
pub const MAX_COMMENT_LEN: usize = 500;

/// One side's rating of the other after a purchase.
#[derive(Clone, Debug, PartialEq, Eq)]
pub struct Review {
    pub reviewer: Identity,
    pub reviewee: Identity,
    pub purchase: Identity,
    /// From 1 to 5.
    pub rating: u8,
    pub comment: String,
    /// True where the seller is the one being rated.
    pub is_seller_review: bool,
    pub created_at: i64,
    pub bump: u8,
}

/// Who a review of `purchase` rates: its seller or its buyer.
pub open spec fn reviewee_of(purchase: Purchase, is_seller_review: bool) -> Identity {
    if is_seller_review {
        purchase.seller
    } else {
        purchase.buyer
    }
}

/// What leaving a review yields: the review together with the rated profile
/// after the rating was folded into its reputation, or the reason for
/// refusing. The grounds, in order: the rating is off the scale; the comment
/// is too long; the purchase has not completed; the profile is not that of
/// the party being rated; the profile's review counter is full.
pub open spec fn review_outcome(
    purchase: Purchase,
    reviewee_account: UserAccount,
    reviewer: Identity,
    purchase_key: Identity,
    rating: u8,
    comment: String,
    is_seller_review: bool,
    now: i64,
    bump: u8,
) -> Result<(Review, UserAccount), MarketplaceError> {
    if !valid_rating(rating) {
        Err(MarketplaceError::InvalidRating)
    } else if comment@.len() > MAX_COMMENT_LEN {
        Err(MarketplaceError::CommentTooLong)
    } else if !purchase.is_completed {
        Err(MarketplaceError::PurchaseNotCompleted)
    } else if reviewee_account.authority != reviewee_of(purchase, is_seller_review) {
        Err(MarketplaceError::ProfileMismatch)
    } else {
        match reviewee_account.with_review(rating) {
            Err(e) => Err(e),
            Ok(rated) => Ok(
                (
                    Review {
                        reviewer,
                        reviewee: reviewee_of(purchase, is_seller_review),
                        purchase: purchase_key,
                        rating,
                        comment,
                        is_seller_review,
                        created_at: now,
                        bump,
                    },
                    rated,
                ),
            ),
        }
    }
}

/// The profile after it received `ratings` in this order, or the first
/// refusal on the way.
pub open spec fn after_reviews(account: UserAccount, ratings: Seq<u8>) -> Result<
    UserAccount,
    MarketplaceError,
>
    decreases ratings.len(),
{
    if ratings.len() == 0 {
        Ok(account)
    } else {
        match after_reviews(account, ratings.drop_last()) {
            Ok(rated) => rated.with_review(ratings.last()),
            Err(e) => Err(e),
        }
    }
}

impl Review {
    /// The rating is on the scale and the comment within its limit.
    pub open spec fn well_formed(self) -> bool {
        &&& valid_rating(self.rating)
        &&& self.comment@.len() <= MAX_COMMENT_LEN
    }
}

/// Leaves a review on a completed purchase. The review rates the purchase's
/// seller where `is_seller_review` is set and its buyer otherwise, and
/// `reviewee_account` must be that party's profile: the rating is folded into
/// its running mean and counted. A profile of anyone else is refused. On any
/// failure no review is made and the profile stays as it was.
pub fn leave_review(
    purchase: &Purchase,
    reviewee_account: &mut UserAccount,
    reviewer: Identity,
    purchase_key: Identity,
    rating: u8,
    comment: String,
    is_seller_review: bool,
    now: i64,
    bump: u8,
) -> (r: Result<Review, MarketplaceError>)
    ensures
        match review_outcome(
            *purchase,
            *old(reviewee_account),
            reviewer,
            purchase_key,
            rating,
            comment,
            is_seller_review,
            now,
            bump,
        ) {
            Ok((review, rated)) => r == Ok::<Review, MarketplaceError>(review)
                && *final(reviewee_account) == rated,
            Err(e) => r == Err::<Review, MarketplaceError>(e) && *final(reviewee_account)
                == *old(reviewee_account),
        },
        r matches Ok(review) ==> review.well_formed() && review.reviewee == reviewee_of(
            *purchase,
            is_seller_review,
        ) && old(reviewee_account).authority == review.reviewee,
        old(reviewee_account).well_formed() ==> final(reviewee_account).well_formed(),
{
    if rating < MIN_RATING || rating > MAX_RATING {
        return Err(MarketplaceError::InvalidRating);
    }
    if comment.as_str().unicode_len() > MAX_COMMENT_LEN {
        return Err(MarketplaceError::CommentTooLong);
    }
    if !purchase.is_completed {
        return Err(MarketplaceError::PurchaseNotCompleted);
    }
    let reviewee = if is_seller_review {
        purchase.seller
    } else {
        purchase.buyer
    };
    if !reviewee_account.authority.same_as(&reviewee) {
        return Err(MarketplaceError::ProfileMismatch);
    }
    match reviewee_account.apply_review(rating) {
        Ok(()) => {},
        Err(e) => {
            return Err(e);
        },
    }
    Ok(
        Review {
            reviewer,
            reviewee,
            purchase: purchase_key,
            rating,
            comment,
            is_seller_review,
            created_at: now,
            bump,
        },
    )
}

/// No review before completion. On a purchase that has not completed every
/// attempt to review fails, so no review is made and no reputation changes;
/// where the rating is on the scale and the comment within its limit, the
/// failure is that the purchase is not completed.
pub proof fn lemma_no_review_before_completion(
    purchase: Purchase,
    reviewee_account: UserAccount,
    reviewer: Identity,
    purchase_key: Identity,
    rating: u8,
    comment: String,
    is_seller_review: bool,
    now: i64,
    bump: u8,
)
    requires
        !purchase.is_completed,
    ensures
        review_outcome(
            purchase,
            reviewee_account,
            reviewer,
            purchase_key,
            rating,
            comment,
            is_seller_review,
            now,
            bump,
        ) is Err,
        valid_rating(rating) && comment@.len() <= MAX_COMMENT_LEN ==> review_outcome(
            purchase,
            reviewee_account,
            reviewer,
            purchase_key,
            rating,
            comment,
            is_seller_review,
            now,
            bump,
        ) == Err::<(Review, UserAccount), MarketplaceError>(
            MarketplaceError::PurchaseNotCompleted,
        ),
{
}

/// A profile without reviews that receives the valid ratings `ratings`, one
/// after the other, ends with their running mean as its score and their
/// number as its count, and is otherwise as it was. That score is on the
/// rating scale, at least the least rating and at most the mean of all
/// ratings taken at once.
pub proof fn lemma_reviews_accumulate(account: UserAccount, ratings: Seq<u8>)
    requires
        account.total_reviews == 0,
        valid_ratings(ratings),
        0 < ratings.len() <= u32::MAX,
    ensures
        after_reviews(account, ratings) == Ok::<UserAccount, MarketplaceError>(
            (UserAccount {
                reputation_score: running_mean(ratings) as u16,
                total_reviews: ratings.len() as u32,
                ..account
            }),
        ),
        MIN_RATING <= running_mean(ratings) <= MAX_RATING,
        least_rating(ratings) <= running_mean(ratings) <= rating_sum(ratings) / (
        ratings.len() as int),
    decreases ratings.len(),
{
    let prefix = ratings.drop_last();
    lemma_running_mean_in_scale(ratings);
    lemma_running_mean_at_least_least(ratings);
    lemma_running_mean_at_most_batch(ratings);
    if prefix.len() > 0 {
        lemma_reviews_accumulate(account, prefix);
    } else {
        assert(after_reviews(account, prefix) == Ok::<UserAccount, MarketplaceError>(account));
        assert(running_mean(prefix) == 0);
        assert(account.reputation_score * 0 == 0);
    }
}

} // verus!
