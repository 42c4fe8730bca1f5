//! Purchases: how a listing sells, how the price is split between the seller
//! and the marketplace, and how a purchase completes.
//!
//! The host moves the funds. A sale therefore runs in three steps that the
//! host treats as one atomic unit: `quote_purchase` decides whether the sale
//! may go ahead and how much goes where, the host makes the two transfers,
//! and `purchase_item` records the sale. The two functions refuse on the same
//! grounds, so a sale that was quoted and paid is always recorded.

use vstd::prelude::*;
use crate::error::MarketplaceError;
use crate::identity::Identity;
use crate::listing::Listing;
use crate::registry::{Marketplace, BASIS_POINTS, MAX_FEE_RATE};
use crate::user::UserAccount;

verus! {

/// How a price is divided: `fee` goes to the marketplace, `seller_amount` to
/// the seller.
#[derive(Clone, Copy, Debug, PartialEq, Eq, Structural)]
pub struct FeeSplit {
    pub fee: u64,
    pub seller_amount: u64,
}

/// The record of one sale.
#[derive(Clone, Debug, PartialEq, Eq)]
pub struct Purchase {
    pub buyer: Identity,
    pub seller: Identity,
    pub listing: Identity,
    pub price: u64,
    pub fee: u64,
    pub purchased_at: i64,
    pub completed_at: Option<i64>,
    pub is_completed: bool,
    pub is_disputed: bool,
    pub bump: u8,
}

/// Everything that a recorded sale leaves behind.
pub struct Sale {
    pub purchase: Purchase,
    pub listing: Listing,
    pub seller_account: UserAccount,
    pub buyer_account: UserAccount,
    pub marketplace: Marketplace,
}

/// The fee on `price` at `fee_rate` basis points, rounded down.
pub open spec fn fee_due(price: u64, fee_rate: u16) -> int {
    (price * fee_rate) / (BASIS_POINTS as int)
}

/// The split of `price` at `fee_rate`, or why there is none: a rate above
/// `MAX_FEE_RATE` is invalid, and a product of price and rate that does not
/// fit 64 bits is an overflow.
pub open spec fn fee_split(price: u64, fee_rate: u16) -> Result<FeeSplit, MarketplaceError> {
    if fee_rate > MAX_FEE_RATE {
        Err(MarketplaceError::InvalidFeeRate)
    } else if price * fee_rate > u64::MAX {
        Err(MarketplaceError::ArithmeticOverflow)
    } else {
        Ok(
            FeeSplit {
                fee: fee_due(price, fee_rate) as u64,
                seller_amount: (price - fee_due(price, fee_rate)) as u64,
            },
        )
    }
}

/// Whether the sale of `listing` to `buyer` may go ahead, and at what split.
/// The grounds for refusing, in order: the listing is inactive; it has sold;
/// `seller_account` is not the profile of the listing's seller, or
/// `buyer_account` not that of the buyer; the fee cannot be computed; a
/// counter of the seller, the buyer or the marketplace would overflow.
pub open spec fn sale_quote(
    marketplace: Marketplace,
    listing: Listing,
    seller_account: UserAccount,
    buyer_account: UserAccount,
    buyer: Identity,
) -> Result<FeeSplit, MarketplaceError> {
    if !listing.is_active {
        Err(MarketplaceError::ListingNotActive)
    } else if listing.is_sold {
        Err(MarketplaceError::ListingAlreadySold)
    } else if seller_account.authority != listing.seller || buyer_account.authority != buyer {
        Err(MarketplaceError::ProfileMismatch)
    } else if fee_split(listing.price, marketplace.fee_rate) is Err {
        fee_split(listing.price, marketplace.fee_rate)
    } else if seller_account.total_sales == u32::MAX || buyer_account.total_purchases
        == u32::MAX || marketplace.total_volume + listing.price > u64::MAX {
        Err(MarketplaceError::ArithmeticOverflow)
    } else {
        fee_split(listing.price, marketplace.fee_rate)
    }
}

/// What recording the sale of `listing` to `buyer` yields. A sale that
/// `sale_quote` refuses is refused here for the same reason; one whose funds
/// did not move fails as a transfer. Otherwise the purchase is created open
/// (neither completed nor disputed), the listing is sold to the buyer, the
/// seller has one more sale, the buyer one more purchase, and the
/// marketplace's volume has grown by the price.
pub open spec fn sale(
    marketplace: Marketplace,
    listing: Listing,
    seller_account: UserAccount,
    buyer_account: UserAccount,
    buyer: Identity,
    listing_key: Identity,
    funds_moved: bool,
    now: i64,
    bump: u8,
) -> Result<Sale, MarketplaceError> {
    match sale_quote(marketplace, listing, seller_account, buyer_account, buyer) {
        Err(e) => Err(e),
        Ok(split) => if !funds_moved {
            Err(MarketplaceError::TransferFailed)
        } else {
            Ok(
                Sale {
                    purchase: Purchase {
                        buyer,
                        seller: listing.seller,
                        listing: listing_key,
                        price: listing.price,
                        fee: split.fee,
                        purchased_at: now,
                        completed_at: None,
                        is_completed: false,
                        is_disputed: false,
                        bump,
                    },
                    listing: Listing { is_sold: true, buyer: Some(buyer), ..listing },
                    seller_account: UserAccount {
                        total_sales: (seller_account.total_sales + 1) as u32,
                        ..seller_account
                    },
                    buyer_account: UserAccount {
                        total_purchases: (buyer_account.total_purchases + 1) as u32,
                        ..buyer_account
                    },
                    marketplace: Marketplace {
                        total_volume: (marketplace.total_volume + listing.price) as u64,
                        ..marketplace
                    },
                },
            )
        },
    }
}

impl Purchase {
    /// Completed and disputed exclude each other, a purchase carries a
    /// completion time exactly when it is completed, and the fee is part of
    /// the price.
    pub open spec fn well_formed(self) -> bool {
        &&& !(self.is_completed && self.is_disputed)
        &&& self.is_completed == self.completed_at.is_some()
        &&& self.fee <= self.price
    }

    /// What goes to the seller: the price less the fee.
    pub open spec fn spec_seller_amount(self) -> int {
        self.price - self.fee
    }

    /// The purchase after completion at `now`, or why it cannot complete: it
    /// already has, or it is disputed.
    pub open spec fn completed(self, now: i64) -> Result<Purchase, MarketplaceError> {
        if self.is_completed {
            Err(MarketplaceError::PurchaseAlreadyCompleted)
        } else if self.is_disputed {
            Err(MarketplaceError::PurchaseDisputed)
        } else {
            Ok(Purchase { is_completed: true, completed_at: Some(now), ..self })
        }
    }

    /// What went to the seller: the price less the fee.
    pub fn seller_amount(&self) -> (amount: u64)
        requires
            self.well_formed(),
        ensures
            amount == self.spec_seller_amount(),
            amount + self.fee == self.price,
    {
        self.price - self.fee
    }
}

/// The split of any price at a valid rate whose product fits 64 bits is
/// exact: the fee is `floor(price * fee_rate / 10000)`, it does not exceed the
/// price, and fee and seller amount add up to the price.
pub proof fn lemma_fee_split_conserves(price: u64, fee_rate: u16)
    requires
        fee_rate <= MAX_FEE_RATE,
        price * fee_rate <= u64::MAX,
    ensures
        fee_split(price, fee_rate) is Ok,
        fee_split(price, fee_rate).unwrap().fee == (price * fee_rate) / 10000,
        0 <= fee_due(price, fee_rate) <= price,
        fee_split(price, fee_rate).unwrap().seller_amount == price - (price * fee_rate) / 10000,
        fee_split(price, fee_rate).unwrap().seller_amount + fee_split(
            price,
            fee_rate,
        ).unwrap().fee == price,
{
    let p = price as int;
    let r = fee_rate as int;
    assert(0 <= (p * r) / 10000 <= p) by (nonlinear_arith)
        requires
            0 <= p,
            0 <= r <= 10000,
    ;
}

/// At a rate of zero the marketplace takes nothing and the seller gets the
/// whole price.
pub proof fn lemma_zero_rate_takes_nothing(price: u64)
    ensures
        fee_split(price, 0) == Ok::<FeeSplit, MarketplaceError>(
            (FeeSplit { fee: 0, seller_amount: price }),
        ),
{
    assert(price * 0 == 0);
}

/// Divides `price` between the marketplace and the seller at `fee_rate` basis
/// points. The product of price and rate is formed in 64 bits; where it does
/// not fit, the call fails instead of wrapping.
pub fn compute_fee_split(price: u64, fee_rate: u16) -> (r: Result<FeeSplit, MarketplaceError>)
    ensures
        r == fee_split(price, fee_rate),
        r matches Ok(split) ==> split.fee == (price * fee_rate) / 10000 && split.fee
            + split.seller_amount == price,
{
    if fee_rate > MAX_FEE_RATE {
        return Err(MarketplaceError::InvalidFeeRate);
    }
    match price.checked_mul(fee_rate as u64) {
        None => Err(MarketplaceError::ArithmeticOverflow),
        Some(product) => {
            proof {
                lemma_fee_split_conserves(price, fee_rate);
            }
            let fee: u64 = product / BASIS_POINTS;
            Ok(FeeSplit { fee, seller_amount: price - fee })
        },
    }
}

/// Decides whether `listing` may be sold to `buyer` now and how its price is
/// split. The host calls this before it moves any funds; on a refusal it
/// moves none.
pub fn quote_purchase(
    marketplace: &Marketplace,
    listing: &Listing,
    seller_account: &UserAccount,
    buyer_account: &UserAccount,
    buyer: Identity,
) -> (r: Result<FeeSplit, MarketplaceError>)
    ensures
        r == sale_quote(*marketplace, *listing, *seller_account, *buyer_account, buyer),
        r matches Ok(split) ==> split.fee + split.seller_amount == listing.price,
        r is Ok ==> seller_account.authority == listing.seller && buyer_account.authority
            == buyer,
{
    if !listing.is_active {
        return Err(MarketplaceError::ListingNotActive);
    }
    if listing.is_sold {
        return Err(MarketplaceError::ListingAlreadySold);
    }
    if !seller_account.authority.same_as(&listing.seller) || !buyer_account.authority.same_as(
        &buyer,
    ) {
        return Err(MarketplaceError::ProfileMismatch);
    }
    let split = match compute_fee_split(listing.price, marketplace.fee_rate) {
        Ok(split) => split,
        Err(e) => {
            return Err(e);
        },
    };
    if seller_account.total_sales == u32::MAX || buyer_account.total_purchases == u32::MAX
        || marketplace.total_volume > u64::MAX - listing.price {
        return Err(MarketplaceError::ArithmeticOverflow);
    }
    Ok(split)
}

/// Records the sale of `listing` to `buyer`, after the host has moved the
/// funds that `quote_purchase` named; `funds_moved` says whether both
/// transfers went through. `seller_account` must be the profile of the
/// listing's seller and `buyer_account` that of `buyer`: the sale is counted
/// on these two and on no other profile. On success the new purchase is returned and the
/// listing, both profiles and the marketplace are updated together; on any
/// failure all four stay as they were.
pub fn purchase_item(
    marketplace: &mut Marketplace,
    listing: &mut Listing,
    seller_account: &mut UserAccount,
    buyer_account: &mut UserAccount,
    buyer: Identity,
    listing_key: Identity,
    funds_moved: bool,
    now: i64,
    bump: u8,
) -> (r: Result<Purchase, MarketplaceError>)
    ensures
        match sale(
            *old(marketplace),
            *old(listing),
            *old(seller_account),
            *old(buyer_account),
            buyer,
            listing_key,
            funds_moved,
            now,
            bump,
        ) {
            Ok(done) => {
                &&& r == Ok::<Purchase, MarketplaceError>(done.purchase)
                &&& *final(listing) == done.listing
                &&& *final(seller_account) == done.seller_account
                &&& *final(buyer_account) == done.buyer_account
                &&& *final(marketplace) == done.marketplace
            },
            Err(e) => {
                &&& r == Err::<Purchase, MarketplaceError>(e)
                &&& *final(listing) == *old(listing)
                &&& *final(seller_account) == *old(seller_account)
                &&& *final(buyer_account) == *old(buyer_account)
                &&& *final(marketplace) == *old(marketplace)
            },
        },
        r matches Ok(purchase) ==> purchase.well_formed() && purchase.fee == fee_due(
            old(listing).price,
            old(marketplace).fee_rate,
        ),
        r is Ok ==> old(seller_account).authority == old(listing).seller && old(
            buyer_account,
        ).authority == buyer,
        old(listing).well_formed() ==> final(listing).well_formed(),
        old(seller_account).well_formed() ==> final(seller_account).well_formed(),
        old(buyer_account).well_formed() ==> final(buyer_account).well_formed(),
        old(marketplace).well_formed() ==> final(marketplace).well_formed(),
{
    let split = match quote_purchase(marketplace, listing, seller_account, buyer_account, buyer) {
        Ok(split) => split,
        Err(e) => {
            return Err(e);
        },
    };
    if !funds_moved {
        return Err(MarketplaceError::TransferFailed);
    }
    let purchase = Purchase {
        buyer,
        seller: listing.seller,
        listing: listing_key,
        price: listing.price,
        fee: split.fee,
        purchased_at: now,
        completed_at: None,
        is_completed: false,
        is_disputed: false,
        bump,
    };
    listing.is_sold = true;
    listing.buyer = Some(buyer);
    seller_account.total_sales = seller_account.total_sales + 1;
    buyer_account.total_purchases = buyer_account.total_purchases + 1;
    marketplace.total_volume = marketplace.total_volume + listing.price;
    Ok(purchase)
}

/// Completes a purchase at `now`, which opens it to reviews. A purchase that
/// is already completed, or disputed, is refused and stays as it was.
pub fn complete_purchase(purchase: &mut Purchase, now: i64) -> (r: Result<(), MarketplaceError>)
    ensures
        match old(purchase).completed(now) {
            Ok(next) => r is Ok && *final(purchase) == next,
            Err(e) => r == Err::<(), MarketplaceError>(e) && *final(purchase) == *old(purchase),
        },
        old(purchase).well_formed() ==> final(purchase).well_formed(),
{
    if purchase.is_completed {
        return Err(MarketplaceError::PurchaseAlreadyCompleted);
    }
    if purchase.is_disputed {
        return Err(MarketplaceError::PurchaseDisputed);
    }
    purchase.is_completed = true;
    purchase.completed_at = Some(now);
    Ok(())
}

/// A listing sells at most once. After a recorded sale, every further attempt
/// on the listing it left behind is refused as already sold, whoever buys,
/// whatever the other records hold and whether or not funds moved; the quote
/// is refused likewise, so the host is never told to move funds for it.
pub proof fn lemma_sold_listing_never_sells_again(
    first: Sale,
    marketplace: Marketplace,
    listing: Listing,
    seller_account: UserAccount,
    buyer_account: UserAccount,
    buyer: Identity,
    listing_key: Identity,
    now: i64,
    bump: u8,
    later_marketplace: Marketplace,
    later_seller_account: UserAccount,
    later_buyer_account: UserAccount,
    later_buyer: Identity,
    later_funds_moved: bool,
    later_now: i64,
    later_bump: u8,
)
    requires
        sale(
            marketplace,
            listing,
            seller_account,
            buyer_account,
            buyer,
            listing_key,
            true,
            now,
            bump,
        ) == Ok::<Sale, MarketplaceError>(first),
    ensures
        first.listing.is_sold,
        first.listing.buyer == Some(buyer),
        sale_quote(
            later_marketplace,
            first.listing,
            later_seller_account,
            later_buyer_account,
            later_buyer,
        ) == Err::<FeeSplit, MarketplaceError>(MarketplaceError::ListingAlreadySold),
        sale(
            later_marketplace,
            first.listing,
            later_seller_account,
            later_buyer_account,
            later_buyer,
            listing_key,
            later_funds_moved,
            later_now,
            later_bump,
        ) == Err::<Sale, MarketplaceError>(MarketplaceError::ListingAlreadySold),
{
}

/// Any well-formed listing that is sold refuses a sale as already sold.
pub proof fn lemma_sold_listing_refuses(
    marketplace: Marketplace,
    listing: Listing,
    seller_account: UserAccount,
    buyer_account: UserAccount,
    buyer: Identity,
)
    requires
        listing.well_formed(),
        listing.is_sold,
    ensures
        sale_quote(marketplace, listing, seller_account, buyer_account, buyer) == Err::<
            FeeSplit,
            MarketplaceError,
        >(MarketplaceError::ListingAlreadySold),
{
}

/// A purchase completes once. After a successful completion every further
/// attempt is refused as already completed, and, as every refusal does,
/// leaves the purchase as the first completion made it.
pub proof fn lemma_completes_once(purchase: Purchase, first: i64, second: i64)
    requires
        purchase.completed(first) is Ok,
    ensures
        purchase.completed(first).unwrap().is_completed,
        purchase.completed(first).unwrap().completed_at == Some(first),
        purchase.completed(first).unwrap().completed(second) == Err::<
            Purchase,
            MarketplaceError,
        >(MarketplaceError::PurchaseAlreadyCompleted),
{
}

} // verus!
