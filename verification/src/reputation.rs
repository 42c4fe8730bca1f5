//! The running mean behind a user's reputation.
//!
//! A profile keeps one score and one count. Each new rating replaces the
//! score by the mean of all ratings so far, rebuilt from the stored score and
//! rounded down. The rounding is part of what the score means: once a
//! fraction has been dropped it stays dropped, so the score can fall below the
//! mean taken over all ratings at once, and never rises above it.

use vstd::prelude::*;

verus! {

/// The lowest rating a review can give.
pub const MIN_RATING: u8 = 1;

/// The highest rating a review can give.
pub const MAX_RATING: u8 = 5;

/// Whether `rating` is one that a review can give.
pub open spec fn valid_rating(rating: u8) -> bool {
    MIN_RATING <= rating <= MAX_RATING
}

/// The score after one more rating: the mean of `count` ratings at `score`
/// and the new one, rounded down.
pub open spec fn running_mean_step(score: int, count: int, rating: int) -> int {
    (score * count + rating) / (count + 1)
}

/// The score of a profile that received `ratings` in this order, starting
/// from nothing.
pub open spec fn running_mean(ratings: Seq<u8>) -> int
    decreases ratings.len(),
{
    if ratings.len() == 0 {
        0
    } else {
        running_mean_step(
            running_mean(ratings.drop_last()),
            ratings.len() - 1,
            ratings.last() as int,
        )
    }
}

/// The sum of `ratings`.
pub open spec fn rating_sum(ratings: Seq<u8>) -> int
    decreases ratings.len(),
{
    if ratings.len() == 0 {
        0
    } else {
        rating_sum(ratings.drop_last()) + ratings.last()
    }
}

/// The least of `ratings`; 0 where there are none.
pub open spec fn least_rating(ratings: Seq<u8>) -> int
    decreases ratings.len(),
{
    if ratings.len() == 0 {
        0
    } else if ratings.len() == 1 {
        ratings.last() as int
    } else if least_rating(ratings.drop_last()) <= ratings.last() {
        least_rating(ratings.drop_last())
    } else {
        ratings.last() as int
    }
}

/// What the rounding has taken from the score so far: the sum of the ratings
/// less the score times their number.
pub open spec fn dropped(ratings: Seq<u8>) -> int {
    rating_sum(ratings) - running_mean(ratings) * ratings.len()
}

/// Every rating in `ratings` is one that a review can give.
pub open spec fn valid_ratings(ratings: Seq<u8>) -> bool {
    forall|i: int| 0 <= i < ratings.len() ==> valid_rating(#[trigger] ratings[i])
}

/// Whether a score and a count can stand together in a profile: no score
/// without a review, and with reviews a score within the rating scale.
pub open spec fn consistent_reputation(score: u16, count: u32) -> bool {
    if count == 0 {
        score == 0
    } else {
        MIN_RATING <= score <= MAX_RATING
    }
}

/// One step of the mean stays between the smaller and the larger of the old
/// score and the new rating.
pub proof fn lemma_step_bounds(score: int, count: int, rating: int, lo: int, hi: int)
    requires
        count >= 0,
        lo <= rating <= hi,
        count > 0 ==> lo <= score <= hi,
    ensures
        lo <= running_mean_step(score, count, rating) <= hi,
        running_mean_step(score, count, rating) * (count + 1) <= score * count + rating,
{
    let total = score * count + rating;
    let n = count + 1;
    assert(lo * n <= total <= hi * n) by (nonlinear_arith)
        requires
            count >= 0,
            lo <= rating <= hi,
            count > 0 ==> lo <= score <= hi,
            total == score * count + rating,
            n == count + 1,
    ;
    assert(lo <= total / n <= hi && (total / n) * n <= total) by (nonlinear_arith)
        requires
            n > 0,
            lo * n <= total <= hi * n,
    ;
}

/// `least_rating` is one of the ratings and no rating is below it.
pub proof fn lemma_least_rating_is_least(ratings: Seq<u8>)
    requires
        ratings.len() > 0,
    ensures
        forall|i: int| 0 <= i < ratings.len() ==> least_rating(ratings) <= #[trigger] ratings[i],
        exists|i: int| 0 <= i < ratings.len() && least_rating(ratings) == #[trigger] ratings[i],
    decreases ratings.len(),
{
    let prefix = ratings.drop_last();
    let last = ratings.len() - 1;
    if prefix.len() > 0 {
        lemma_least_rating_is_least(prefix);
        let k = choose|i: int| 0 <= i < prefix.len() && least_rating(prefix) == #[trigger] prefix[i];
        assert(prefix[k] == ratings[k]);
        assert forall|i: int| 0 <= i < ratings.len() implies least_rating(ratings)
            <= #[trigger] ratings[i] by {
            if i < last {
                assert(prefix[i] == ratings[i]);
            }
        }
        if least_rating(prefix) <= ratings.last() {
            assert(least_rating(ratings) == ratings[k]);
        } else {
            assert(least_rating(ratings) == ratings[last]);
        }
    } else {
        assert(least_rating(ratings) == ratings[last]);
    }
}

/// The running score is never below the least rating received.
pub proof fn lemma_running_mean_at_least_least(ratings: Seq<u8>)
    requires
        ratings.len() > 0,
    ensures
        least_rating(ratings) <= running_mean(ratings),
    decreases ratings.len(),
{
    let prefix = ratings.drop_last();
    let score = running_mean(prefix);
    let rating = ratings.last() as int;
    if prefix.len() > 0 {
        lemma_running_mean_at_least_least(prefix);
    }
    let hi: int = if score >= rating {
        score
    } else {
        rating
    };
    lemma_step_bounds(score, prefix.len() as int, rating, least_rating(ratings), hi);
}

/// From the second rating on, each new score lies between the score before
/// it and the new rating.
pub proof fn lemma_running_mean_between_last_two(ratings: Seq<u8>)
    requires
        ratings.len() > 1,
    ensures
        running_mean(ratings.drop_last()) <= ratings.last() ==> running_mean(
            ratings.drop_last(),
        ) <= running_mean(ratings) <= ratings.last(),
        running_mean(ratings.drop_last()) >= ratings.last() ==> ratings.last() <= running_mean(
            ratings,
        ) <= running_mean(ratings.drop_last()),
{
    let prefix = ratings.drop_last();
    let score = running_mean(prefix);
    let rating = ratings.last() as int;
    let hi: int = if score >= rating {
        score
    } else {
        rating
    };
    let lo: int = if score <= rating {
        score
    } else {
        rating
    };
    lemma_step_bounds(score, prefix.len() as int, rating, lo, hi);
}

/// The score of a profile with at least one valid rating lies within the
/// rating scale.
pub proof fn lemma_running_mean_in_scale(ratings: Seq<u8>)
    requires
        valid_ratings(ratings),
        ratings.len() > 0,
    ensures
        MIN_RATING <= running_mean(ratings) <= MAX_RATING,
    decreases ratings.len(),
{
    let prefix = ratings.drop_last();
    if prefix.len() > 0 {
        lemma_running_mean_in_scale(prefix);
    }
    lemma_step_bounds(
        running_mean(prefix),
        prefix.len() as int,
        ratings.last() as int,
        MIN_RATING as int,
        MAX_RATING as int,
    );
}

/// The running score never exceeds the mean of all ratings taken at once:
/// `running_mean(r) * n <= sum(r)`, hence `running_mean(r) <= sum(r) / n`.
pub proof fn lemma_running_mean_at_most_batch(ratings: Seq<u8>)
    requires
        valid_ratings(ratings),
    ensures
        running_mean(ratings) * ratings.len() <= rating_sum(ratings),
        ratings.len() > 0 ==> running_mean(ratings) <= rating_sum(ratings) / (
        ratings.len() as int),
    decreases ratings.len(),
{
    if ratings.len() > 0 {
        let prefix = ratings.drop_last();
        let n = ratings.len() as int;
        let s = running_mean(prefix);
        let r = ratings.last() as int;
        lemma_running_mean_at_most_batch(prefix);
        if prefix.len() > 0 {
            lemma_running_mean_in_scale(prefix);
        }
        lemma_step_bounds(s, n - 1, r, MIN_RATING as int, MAX_RATING as int);
        let m = running_mean(ratings);
        let total = rating_sum(ratings);
        assert(m * n <= total);
        assert(m <= total / n) by (nonlinear_arith)
            requires
                n > 0,
                m * n <= total,
        ;
    }
}

/// The running score equals the batch mean `floor(sum(r) / n)` exactly when
/// what the rounding has dropped so far is less than the number of ratings.
pub proof fn lemma_running_mean_is_batch_mean(ratings: Seq<u8>)
    requires
        valid_ratings(ratings),
        ratings.len() > 0,
    ensures
        dropped(ratings) >= 0,
        running_mean(ratings) == rating_sum(ratings) / (ratings.len() as int) <==> dropped(
            ratings,
        ) < ratings.len(),
{
    lemma_running_mean_at_most_batch(ratings);
    let n = ratings.len() as int;
    let m = running_mean(ratings);
    let total = rating_sum(ratings);
    assert(total / n == m <==> total - m * n < n) by (nonlinear_arith)
        requires
            n > 0,
            m * n <= total,
    ;
}

/// The running score equals the batch mean whenever nothing had been dropped
/// before the last rating, that is whenever the score before it, times the
/// number of earlier ratings, is their sum.
pub proof fn lemma_running_mean_exact_after_exact_prefix(ratings: Seq<u8>)
    requires
        ratings.len() > 0,
        running_mean(ratings.drop_last()) * (ratings.len() - 1) == rating_sum(
            ratings.drop_last(),
        ),
    ensures
        running_mean(ratings) == rating_sum(ratings) / (ratings.len() as int),
{
}

/// A profile whose ratings are all the same `rating` scores exactly that
/// rating, which is also the batch mean.
pub proof fn lemma_running_mean_uniform(ratings: Seq<u8>, rating: u8)
    requires
        ratings.len() > 0,
        forall|i: int| 0 <= i < ratings.len() ==> ratings[i] == rating,
    ensures
        running_mean(ratings) == rating,
        rating_sum(ratings) == rating * ratings.len(),
        running_mean(ratings) == rating_sum(ratings) / (ratings.len() as int),
    decreases ratings.len(),
{
    let prefix = ratings.drop_last();
    let n = ratings.len() as int;
    let r = rating as int;
    if prefix.len() > 0 {
        lemma_running_mean_uniform(prefix, rating);
    }
    assert(running_mean(prefix) * (n - 1) == r * (n - 1)) by (nonlinear_arith)
        requires
            n - 1 > 0 ==> running_mean(prefix) == r,
            n >= 1,
    ;
    assert(rating_sum(prefix) == r * (n - 1)) by (nonlinear_arith)
        requires
            n - 1 > 0 ==> rating_sum(prefix) == r * (n - 1),
            n - 1 == 0 ==> rating_sum(prefix) == 0,
            n >= 1,
    ;
    assert(r * (n - 1) + r == r * n && (r * n) / n == r) by (nonlinear_arith)
        requires
            n > 0,
    ;
}

/// Computes the score after one more rating from the stored score and count.
pub fn next_score(score: u16, count: u32, rating: u8) -> (next: u16)
    ensures
        next == running_mean_step(score as int, count as int, rating as int),
        count == 0 ==> next == rating,
        count > 0 && score <= rating ==> score <= next <= rating,
        count > 0 && score >= rating ==> rating <= next <= score,
        valid_rating(rating) && consistent_reputation(score, count) ==> MIN_RATING <= next
            <= MAX_RATING,
{
    assert(score * count <= 0xffff * 0xffff_ffff) by (nonlinear_arith)
        requires
            score <= 0xffff,
            count <= 0xffff_ffff,
    ;
    let weighted: u64 = (score as u64) * (count as u64);
    let total: u64 = weighted + (rating as u64);
    let reviews: u64 = (count as u64) + 1;
    let mean: u64 = total / reviews;
    proof {
        let hi: int = if score as int >= rating as int {
            score as int
        } else {
            rating as int
        };
        let lo: int = if score as int <= rating as int {
            score as int
        } else {
            rating as int
        };
        lemma_step_bounds(score as int, count as int, rating as int, lo, hi);
        if valid_rating(rating) && consistent_reputation(score, count) {
            lemma_step_bounds(
                score as int,
                count as int,
                rating as int,
                MIN_RATING as int,
                MAX_RATING as int,
            );
        }
    }
    mean as u16
}

} // verus!
