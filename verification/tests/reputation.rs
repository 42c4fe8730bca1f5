use marketplace::error::{ErrorKind, MarketplaceError};
use marketplace::identity::Identity;
use marketplace::registry::initialize_marketplace;
use marketplace::reputation::next_score;
use marketplace::user::{create_user_account, UserAccount};

fn fresh() -> UserAccount {
    let mut m = initialize_marketplace(Identity::new([0; 32]), 0, 0).unwrap();
    create_user_account(&mut m, Identity::new([1; 32]), "u".into(), String::new(), String::new(), 0, 0)
        .unwrap()
}

fn score_after(ratings: &[u8]) -> (u16, u32) {
    let mut u = fresh();
    for r in ratings {
        assert_eq!(u.apply_review(*r), Ok(()));
    }
    (u.reputation_score, u.total_reviews)
}

fn batch_mean(ratings: &[u8]) -> u16 {
    let sum: u64 = ratings.iter().map(|r| *r as u64).sum();
    (sum / ratings.len() as u64) as u16
}

#[test]
fn next_score_exact_values() {
    assert_eq!(next_score(0, 0, 4), 4);
    assert_eq!(next_score(4, 1, 5), 4);
    assert_eq!(next_score(1, 1, 5), 3);
    assert_eq!(next_score(3, 2, 5), 3);
    assert_eq!(next_score(3, 3, 5), 3);
    assert_eq!(next_score(5, 4, 1), 4);
    assert_eq!(next_score(5, 99, 1), 4);
    assert_eq!(next_score(2, 9, 3), 2);
    assert_eq!(next_score(u16::MAX, u32::MAX, 255), 65534);
    assert_eq!(next_score(u16::MAX, u32::MAX - 1, 255), 65534);
    assert_eq!(next_score(7, 0, 3), 3);
}

#[test]
fn one_review_scores_its_rating() {
    for r in 1..=5u8 {
        assert_eq!(score_after(&[r]), (r as u16, 1));
    }
}

#[test]
fn two_reviews_score_their_batch_mean() {
    for a in 1..=5u8 {
        for b in 1..=5u8 {
            assert_eq!(score_after(&[a, b]), (batch_mean(&[a, b]), 2));
        }
    }
}

#[test]
fn uniform_reviews_score_the_rating() {
    for r in 1..=5u8 {
        for n in [1usize, 2, 5, 100] {
            let ratings = vec![r; n];
            assert_eq!(score_after(&ratings), (r as u16, n as u32));
            assert_eq!(batch_mean(&ratings), r as u16);
        }
    }
}

#[test]
fn running_score_never_exceeds_the_batch_mean() {
    let mut seed: u32 = 12345;
    for n in [1usize, 2, 5, 100] {
        for _ in 0..50 {
            let mut ratings = Vec::new();
            for _ in 0..n {
                seed = seed.wrapping_mul(1103515245).wrapping_add(12345);
                ratings.push(((seed >> 16) % 5) as u8 + 1);
            }
            let (score, count) = score_after(&ratings);
            assert_eq!(count, n as u32);
            assert!(score >= 1 && score <= 5);
            assert!(score <= batch_mean(&ratings));
            assert!(score >= *ratings.iter().min().unwrap() as u16);
        }
    }
}

#[test]
fn dropped_fractions_stay_dropped() {
    assert_eq!(score_after(&[1, 5, 5, 5]), (3, 4));
    assert_eq!(batch_mean(&[1, 5, 5, 5]), 4);
    assert_eq!(score_after(&[5, 5, 5, 1]), (4, 4));
}

#[test]
fn apply_review_refuses_ratings_off_the_scale() {
    let mut u = fresh();
    let before = u.clone();
    assert_eq!(u.apply_review(0), Err(MarketplaceError::InvalidRating));
    assert_eq!(u.apply_review(6), Err(MarketplaceError::InvalidRating));
    assert_eq!(u, before);
    u.total_reviews = u32::MAX;
    assert_eq!(u.apply_review(3), Err(MarketplaceError::ArithmeticOverflow));
    assert_eq!(u.apply_review(0), Err(MarketplaceError::InvalidRating));
    assert_eq!(u.total_reviews, u32::MAX);
}

#[test]
fn sales_and_purchases_count() {
    let mut u = fresh();
    assert_eq!(u.record_sale(), Ok(()));
    assert_eq!(u.record_sale(), Ok(()));
    assert_eq!(u.record_purchase(), Ok(()));
    assert_eq!((u.total_sales, u.total_purchases), (2, 1));
    u.total_sales = u32::MAX;
    u.total_purchases = u32::MAX;
    let before = u.clone();
    assert_eq!(u.record_sale(), Err(MarketplaceError::ArithmeticOverflow));
    assert_eq!(u.record_purchase(), Err(MarketplaceError::ArithmeticOverflow));
    assert_eq!(u, before);
}

#[test]
fn error_kinds() {
    for e in [
        MarketplaceError::DisplayNameTooLong,
        MarketplaceError::BioTooLong,
        MarketplaceError::LocationTooLong,
        MarketplaceError::TitleTooLong,
        MarketplaceError::DescriptionTooLong,
        MarketplaceError::URITooLong,
        MarketplaceError::CommentTooLong,
        MarketplaceError::AttestationTooLong,
    ] {
        assert_eq!(e.kind(), ErrorKind::Validation);
        assert!(e.is_field_too_long());
    }
    for e in [MarketplaceError::InvalidPrice, MarketplaceError::InvalidRating, MarketplaceError::InvalidFeeRate] {
        assert_eq!(e.kind(), ErrorKind::Validation);
        assert!(!e.is_field_too_long());
    }
    for e in [
        MarketplaceError::ListingNotActive,
        MarketplaceError::ListingAlreadySold,
        MarketplaceError::PurchaseAlreadyCompleted,
        MarketplaceError::PurchaseDisputed,
        MarketplaceError::PurchaseNotCompleted,
    ] {
        assert_eq!(e.kind(), ErrorKind::State);
        assert!(!e.is_field_too_long());
    }
    assert_eq!(MarketplaceError::ProfileMismatch.kind(), ErrorKind::Validation);
    assert!(!MarketplaceError::ProfileMismatch.is_field_too_long());
    assert_eq!(MarketplaceError::ArithmeticOverflow.kind(), ErrorKind::Arithmetic);
    assert_eq!(MarketplaceError::TransferFailed.kind(), ErrorKind::Transfer);
}

#[test]
fn error_messages() {
    assert_eq!(MarketplaceError::DisplayNameTooLong.message(), "Display name is too long");
    assert_eq!(MarketplaceError::BioTooLong.message(), "Bio is too long");
    assert_eq!(MarketplaceError::LocationTooLong.message(), "Location is too long");
    assert_eq!(MarketplaceError::TitleTooLong.message(), "Title is too long");
    assert_eq!(MarketplaceError::DescriptionTooLong.message(), "Description is too long");
    assert_eq!(MarketplaceError::URITooLong.message(), "URI is too long");
    assert_eq!(MarketplaceError::InvalidPrice.message(), "Invalid price");
    assert_eq!(MarketplaceError::ListingNotActive.message(), "Listing is not active");
    assert_eq!(MarketplaceError::ListingAlreadySold.message(), "Listing is already sold");
    assert_eq!(
        MarketplaceError::PurchaseAlreadyCompleted.message(),
        "Purchase is already completed"
    );
    assert_eq!(MarketplaceError::PurchaseDisputed.message(), "Purchase is disputed");
    assert_eq!(MarketplaceError::PurchaseNotCompleted.message(), "Purchase is not completed");
    assert_eq!(MarketplaceError::InvalidRating.message(), "Invalid rating");
    assert_eq!(MarketplaceError::CommentTooLong.message(), "Comment is too long");
    assert_eq!(MarketplaceError::AttestationTooLong.message(), "Attestation is too long");
    assert_eq!(
        MarketplaceError::ProfileMismatch.message(),
        "Profile does not belong to the party"
    );
}

#[test]
fn identity_keeps_its_bytes() {
    let mut bytes = [0u8; 32];
    bytes[0] = 1;
    bytes[31] = 9;
    assert_eq!(Identity::new(bytes).to_bytes(), bytes);
    assert_ne!(Identity::new(bytes), Identity::new([0; 32]));
}

#[test]
fn each_step_lies_between_the_old_score_and_the_new_rating() {
    for score in 1..=5u16 {
        for count in [1u32, 2, 3, 10, 1000, u32::MAX - 1] {
            for rating in 1..=5u8 {
                let next = next_score(score, count, rating);
                let lo = score.min(rating as u16);
                let hi = score.max(rating as u16);
                assert!(lo <= next && next <= hi);
            }
        }
    }
    assert_eq!(score_after(&[1, 2, 3]), (1, 3));
    assert_eq!(batch_mean(&[1, 2, 3]), 2);
    assert_eq!(score_after(&[5, 4, 3]), (3, 3));
}

#[test]
fn identities_compare_byte_for_byte() {
    let a = Identity::new([7; 32]);
    let mut bytes = [7u8; 32];
    assert!(a.same_as(&Identity::new(bytes)));
    bytes[31] = 8;
    assert!(!a.same_as(&Identity::new(bytes)));
    bytes[31] = 7;
    bytes[0] = 0;
    assert!(!a.same_as(&Identity::new(bytes)));
    bytes[0] = 7;
    bytes[16] = 9;
    assert!(!a.same_as(&Identity::new(bytes)));
}
