//! The marketplace's own record: who runs it, what it charges, and how much
//! has passed through it.

use vstd::prelude::*;
use crate::error::MarketplaceError;
use crate::identity::Identity;

verus! {

/// The number of basis points in the whole: a fee rate of 10000 takes all.
pub const BASIS_POINTS: u64 = 10000;

/// The highest fee rate that a marketplace can be set up with.
pub const MAX_FEE_RATE: u16 = 10000;

/// The single global record of a marketplace.
#[derive(Clone, Debug, PartialEq, Eq)]
pub struct Marketplace {
    pub authority: Identity,
    /// In basis points: 100 is one percent.
    pub fee_rate: u16,
    pub total_listings: u64,
    pub total_users: u64,
    pub total_volume: u64,
    pub bump: u8,
}

impl Marketplace {
    /// A marketplace never charges more than the whole price.
    pub open spec fn well_formed(self) -> bool {
        self.fee_rate <= MAX_FEE_RATE
    }

    /// The record as it stands right after set-up.
    pub open spec fn fresh(authority: Identity, fee_rate: u16, bump: u8) -> Marketplace {
        Marketplace {
            authority,
            fee_rate,
            total_listings: 0,
            total_users: 0,
            total_volume: 0,
            bump,
        }
    }

    /// Counts one more user. Fails, changing nothing, when the counter is at
    /// its maximum.
    pub fn record_new_user(&mut self) -> (r: Result<(), MarketplaceError>)
        ensures
            old(self).total_users < u64::MAX ==> r is Ok && *final(self) == (Marketplace {
                total_users: (old(self).total_users + 1) as u64,
                ..*old(self)
            }),
            old(self).total_users == u64::MAX ==> r == Err::<(), MarketplaceError>(
                MarketplaceError::ArithmeticOverflow,
            ) && *final(self) == *old(self),
            old(self).well_formed() ==> final(self).well_formed(),
    {
        match self.total_users.checked_add(1) {
            Some(n) => {
                self.total_users = n;
                Ok(())
            },
            None => Err(MarketplaceError::ArithmeticOverflow),
        }
    }

    /// Counts one more listing. Fails, changing nothing, when the counter is
    /// at its maximum.
    pub fn record_new_listing(&mut self) -> (r: Result<(), MarketplaceError>)
        ensures
            old(self).total_listings < u64::MAX ==> r is Ok && *final(self) == (Marketplace {
                total_listings: (old(self).total_listings + 1) as u64,
                ..*old(self)
            }),
            old(self).total_listings == u64::MAX ==> r == Err::<(), MarketplaceError>(
                MarketplaceError::ArithmeticOverflow,
            ) && *final(self) == *old(self),
            old(self).well_formed() ==> final(self).well_formed(),
    {
        match self.total_listings.checked_add(1) {
            Some(n) => {
                self.total_listings = n;
                Ok(())
            },
            None => Err(MarketplaceError::ArithmeticOverflow),
        }
    }

    /// Adds `amount` to the volume traded. Fails, changing nothing, when the
    /// sum does not fit the counter.
    pub fn record_volume(&mut self, amount: u64) -> (r: Result<(), MarketplaceError>)
        ensures
            old(self).total_volume + amount <= u64::MAX ==> r is Ok && *final(self) == (
            Marketplace {
                total_volume: (old(self).total_volume + amount) as u64,
                ..*old(self)
            }),
            old(self).total_volume + amount > u64::MAX ==> r == Err::<(), MarketplaceError>(
                MarketplaceError::ArithmeticOverflow,
            ) && *final(self) == *old(self),
            old(self).well_formed() ==> final(self).well_formed(),
    {
        match self.total_volume.checked_add(amount) {
            Some(n) => {
                self.total_volume = n;
                Ok(())
            },
            None => Err(MarketplaceError::ArithmeticOverflow),
        }
    }
}

/// Sets up a marketplace run by `authority` that charges `fee_rate` basis
/// points on every sale, with all counters at zero. A rate above
/// `MAX_FEE_RATE` is refused.
pub fn initialize_marketplace(authority: Identity, fee_rate: u16, bump: u8) -> (r: Result<
    Marketplace,
    MarketplaceError,
>)
    ensures
        fee_rate <= MAX_FEE_RATE ==> r == Ok::<Marketplace, MarketplaceError>(
            Marketplace::fresh(authority, fee_rate, bump),
        ),
        fee_rate > MAX_FEE_RATE ==> r == Err::<Marketplace, MarketplaceError>(
            MarketplaceError::InvalidFeeRate,
        ),
        r matches Ok(m) ==> m.well_formed(),
{
    if fee_rate > MAX_FEE_RATE {
        return Err(MarketplaceError::InvalidFeeRate);
    }
    Ok(
        Marketplace {
            authority,
            fee_rate,
            total_listings: 0,
            total_users: 0,
            total_volume: 0,
            bump,
        },
    )
}

} // verus!
