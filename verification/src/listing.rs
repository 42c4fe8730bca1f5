//! Listings: the offers that sellers put up, and their status before sale.

use vstd::prelude::*;
use vstd::string::StrSliceExecFns;
use crate::error::MarketplaceError;
use crate::identity::Identity;
use crate::registry::Marketplace;

verus! {

/// The most characters a title can have.
pub const MAX_TITLE_LEN: usize = 100;

/// The most characters a description can have.
pub const MAX_DESCRIPTION_LEN: usize = 2000;

/// The most characters either URI of a listing can have.
pub const MAX_URI_LEN: usize = 200;

/// What kind of thing is on offer.
#[derive(Clone, Copy, Debug, PartialEq, Eq, Structural)]
pub enum Category {
    Electronics,
    Clothing,
    Home,
    Sports,
    Books,
    Automotive,
    Art,
    Music,
    Gaming,
    Other,
}

/// The state that the thing on offer is in.
#[derive(Clone, Copy, Debug, PartialEq, Eq, Structural)]
pub enum Condition {
    New,
    LikeNew,
    Good,
    Fair,
    Poor,
}

/// One offer of one seller.
#[derive(Clone, Debug, PartialEq, Eq)]
pub struct Listing {
    pub seller: Identity,
    pub buyer: Option<Identity>,
    pub title: String,
    pub description: String,
    pub category: Category,
    /// In the smallest unit of the currency.
    pub price: u64,
    pub condition: Condition,
    pub images_uri: String,
    pub metadata_uri: String,
    pub is_active: bool,
    pub is_sold: bool,
    pub created_at: i64,
    pub bump: u8,
}

/// What the seller says of an offer.
#[derive(Clone, Debug, PartialEq, Eq)]
pub struct ListingDetails {
    pub title: String,
    pub description: String,
    pub category: Category,
    pub price: u64,
    pub condition: Condition,
    pub images_uri: String,
    pub metadata_uri: String,
}

impl ListingDetails {
    /// The first fault found in the details, looking at the title, the
    /// description, the images URI, the metadata URI and the price in this
    /// order; `None` when they are in order.
    pub open spec fn fault(self) -> Option<MarketplaceError> {
        if self.title@.len() > MAX_TITLE_LEN {
            Some(MarketplaceError::TitleTooLong)
        } else if self.description@.len() > MAX_DESCRIPTION_LEN {
            Some(MarketplaceError::DescriptionTooLong)
        } else if self.images_uri@.len() > MAX_URI_LEN {
            Some(MarketplaceError::URITooLong)
        } else if self.metadata_uri@.len() > MAX_URI_LEN {
            Some(MarketplaceError::URITooLong)
        } else if self.price == 0 {
            Some(MarketplaceError::InvalidPrice)
        } else {
            None
        }
    }

    /// Finds the first fault in the details, if there is one.
    pub fn validate(&self) -> (r: Result<(), MarketplaceError>)
        ensures
            match self.fault() {
                Some(e) => r == Err::<(), MarketplaceError>(e),
                None => r is Ok,
            },
    {
        if self.title.as_str().unicode_len() > MAX_TITLE_LEN {
            return Err(MarketplaceError::TitleTooLong);
        }
        if self.description.as_str().unicode_len() > MAX_DESCRIPTION_LEN {
            return Err(MarketplaceError::DescriptionTooLong);
        }
        if self.images_uri.as_str().unicode_len() > MAX_URI_LEN {
            return Err(MarketplaceError::URITooLong);
        }
        if self.metadata_uri.as_str().unicode_len() > MAX_URI_LEN {
            return Err(MarketplaceError::URITooLong);
        }
        if self.price == 0 {
            return Err(MarketplaceError::InvalidPrice);
        }
        Ok(())
    }
}

/// What putting up an offer yields: the new listing, active and unsold,
/// together with the marketplace that has counted it, or the reason for
/// refusing.
pub open spec fn listing_creation(
    marketplace: Marketplace,
    seller: Identity,
    details: ListingDetails,
    now: i64,
    bump: u8,
) -> Result<(Listing, Marketplace), MarketplaceError> {
    if let Some(e) = details.fault() {
        Err(e)
    } else if marketplace.total_listings == u64::MAX {
        Err(MarketplaceError::ArithmeticOverflow)
    } else {
        Ok(
            (
                Listing {
                    seller,
                    buyer: None,
                    title: details.title,
                    description: details.description,
                    category: details.category,
                    price: details.price,
                    condition: details.condition,
                    images_uri: details.images_uri,
                    metadata_uri: details.metadata_uri,
                    is_active: true,
                    is_sold: false,
                    created_at: now,
                    bump,
                },
                Marketplace {
                    total_listings: (marketplace.total_listings + 1) as u64,
                    ..marketplace
                },
            ),
        )
    }
}

impl Listing {
    /// The text fields are within their limits, the price is positive, a
    /// listing names a buyer exactly when it has sold, and a sold listing is
    /// still marked active, as it was when it sold.
    pub open spec fn well_formed(self) -> bool {
        &&& self.title@.len() <= MAX_TITLE_LEN
        &&& self.description@.len() <= MAX_DESCRIPTION_LEN
        &&& self.images_uri@.len() <= MAX_URI_LEN
        &&& self.metadata_uri@.len() <= MAX_URI_LEN
        &&& self.price > 0
        &&& self.is_sold == self.buyer.is_some()
        &&& self.is_sold ==> self.is_active
    }
}

/// Puts up an offer: checks the text fields against their limits and the
/// price for being positive, builds the listing as active and unsold with no
/// buyer, and counts it in the marketplace. On any failure the marketplace is
/// unchanged.
pub fn create_listing(
    marketplace: &mut Marketplace,
    seller: Identity,
    title: String,
    description: String,
    category: Category,
    price: u64,
    condition: Condition,
    images_uri: String,
    metadata_uri: String,
    now: i64,
    bump: u8,
) -> (r: Result<Listing, MarketplaceError>)
    ensures
        match listing_creation(
            *old(marketplace),
            seller,
            (ListingDetails {
                title,
                description,
                category,
                price,
                condition,
                images_uri,
                metadata_uri,
            }),
            now,
            bump,
        ) {
            Ok((listing, market)) => r == Ok::<Listing, MarketplaceError>(listing)
                && *final(marketplace) == market,
            Err(e) => r == Err::<Listing, MarketplaceError>(e) && *final(marketplace)
                == *old(marketplace),
        },
        r matches Ok(listing) ==> listing.well_formed(),
        old(marketplace).well_formed() ==> final(marketplace).well_formed(),
{
    let details = ListingDetails {
        title,
        description,
        category,
        price,
        condition,
        images_uri,
        metadata_uri,
    };
    match details.validate() {
        Ok(()) => {},
        Err(e) => {
            return Err(e);
        },
    }
    match marketplace.record_new_listing() {
        Ok(()) => {},
        Err(e) => {
            return Err(e);
        },
    }
    Ok(
        Listing {
            seller,
            buyer: None,
            title: details.title,
            description: details.description,
            category: details.category,
            price: details.price,
            condition: details.condition,
            images_uri: details.images_uri,
            metadata_uri: details.metadata_uri,
            is_active: true,
            is_sold: false,
            created_at: now,
            bump,
        },
    )
}

/// Activates or deactivates a listing that has not sold. A sold listing is
/// frozen: the call fails and the listing stays as it was.
pub fn update_listing_status(listing: &mut Listing, is_active: bool) -> (r: Result<
    (),
    MarketplaceError,
>)
    ensures
        !old(listing).is_sold ==> r is Ok && *final(listing) == (Listing {
            is_active,
            ..*old(listing)
        }),
        old(listing).is_sold ==> r == Err::<(), MarketplaceError>(
            MarketplaceError::ListingAlreadySold,
        ) && *final(listing) == *old(listing),
        old(listing).well_formed() ==> final(listing).well_formed(),
{
    if listing.is_sold {
        return Err(MarketplaceError::ListingAlreadySold);
    }
    listing.is_active = is_active;
    Ok(())
}

} // verus!
