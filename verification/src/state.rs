//! The records that the marketplace keeps.

use vstd::prelude::*;
use crate::pubkey::Pubkey;

verus! {

/// The most characters that a listing's name may have.
pub const MAX_NAME_LEN: usize = 50;

/// The most characters that a listing's description may have.
pub const MAX_DESCRIPTION_LEN: usize = 500;

/// The most characters that a listing's endpoint may have.
pub const MAX_ENDPOINT_LEN: usize = 200;

/// The most capabilities that a listing may name.
pub const MAX_CAPABILITIES: usize = 10;

/// The most characters that one capability may have.
pub const MAX_CAPABILITY_LEN: usize = 50;

/// The most characters that a review's comment may have.
pub const MAX_COMMENT_LEN: usize = 500;

/// The fee of a new marketplace, in basis points: 2.5%.
pub const DEFAULT_FEE_BASIS_POINTS: u16 = 250;

/// The number of basis points in the whole: 10000 basis points are 100%.
pub const BASIS_POINTS: u16 = 10000;

/// The longest monthly hire, in months.
pub const MAX_DURATION_MONTHS: u8 = 12;

/// The length of a month of hire in seconds: 30 days.
pub const SECONDS_PER_MONTH: i64 = 2592000;

/// The lowest rating of a review.
pub const MIN_RATING: u8 = 1;

/// The highest rating of a review.
pub const MAX_RATING: u8 = 5;

/// The marketplace's configuration. There is one per marketplace.
#[derive(Clone, Copy, Debug, PartialEq, Eq)]
pub struct Marketplace {
    /// Who owns the marketplace and collects its fees.
    pub authority: Pubkey,
    /// How many listings have been registered. It only grows.
    pub npc_count: u64,
    /// The fee taken from each released payment, in basis points.
    pub fee_percent: u16,
}

impl Marketplace {
    /// The fee is at most the whole payment.
    pub open spec fn wf(&self) -> bool {
        self.fee_percent <= BASIS_POINTS
    }
}

/// What kind of character a listing offers.
#[derive(Clone, Copy, Debug, PartialEq, Eq, Structural, Hash)]
pub enum NpcType {
    QuestGiver,
    Shopkeeper,
    Enemy,
    Companion,
    StoryTeller,
    Custom,
}

/// How a hire is paid for.
#[derive(Clone, Copy, Debug, PartialEq, Eq, Structural, Hash)]
pub enum HireType {
    /// One payment of the listing's price per interaction.
    PerInteraction,
    /// The listing's monthly price for each of 1 to 12 months.
    Monthly,
}

/// A listing: a character that its creator offers for hire.
#[derive(Clone, Debug, PartialEq, Eq)]
pub struct Npc {
    /// Who registered the listing and is paid for its hires.
    pub creator: Pubkey,
    pub name: String,
    pub description: String,
    pub npc_type: NpcType,
    /// The price of a hire per interaction; 0 if none is offered.
    pub price_per_interaction: u64,
    /// The price of one month of hire; 0 if none is offered.
    pub monthly_price: u64,
    /// Where the character is reached.
    pub api_endpoint: String,
    pub capabilities: Vec<String>,
    /// Whether the listing accepts hires.
    pub is_active: bool,
    /// How many hires of the listing have been released.
    pub total_hires: u64,
    /// The sum of the ratings of all reviews of the listing.
    pub rating_sum: u32,
    /// The number of reviews of the listing.
    pub rating_count: u32,
    /// When the listing was registered, in seconds.
    pub created_at: i64,
}

impl Npc {
    /// The texts of the listing are within their bounds.
    pub open spec fn wf(&self) -> bool {
        &&& self.name@.len() <= MAX_NAME_LEN
        &&& self.description@.len() <= MAX_DESCRIPTION_LEN
        &&& self.api_endpoint@.len() <= MAX_ENDPOINT_LEN
        &&& capabilities_within_bounds(self.capabilities@)
    }

    /// The listing can be hired in at least one way.
    pub open spec fn is_priced(&self) -> bool {
        self.price_per_interaction > 0 || self.monthly_price > 0
    }
}

/// There are at most 10 capabilities, each of at most 50 characters.
pub open spec fn capabilities_within_bounds(capabilities: Seq<String>) -> bool {
    &&& capabilities.len() <= MAX_CAPABILITIES
    &&& forall|i: int|
        0 <= i < capabilities.len() ==> (#[trigger] capabilities[i])@.len() <= MAX_CAPABILITY_LEN
}

/// A hire: a developer's engagement of a listing, paid into escrow.
#[derive(Clone, Copy, Debug, PartialEq, Eq)]
pub struct Hire {
    /// Who hired the listing and paid.
    pub developer: Pubkey,
    /// The listing that was hired.
    pub npc: Pubkey,
    /// The listing's creator at the time of the hire.
    pub creator: Pubkey,
    pub hire_type: HireType,
    /// What the developer paid into escrow.
    pub amount: u64,
    /// The account that holds the payment until it is released.
    pub escrow_token_account: Pubkey,
    /// Whether the payment is still held in escrow.
    pub is_active: bool,
    /// When the hire was made, in seconds.
    pub created_at: i64,
    /// When a monthly hire ends, in seconds; none for a hire per interaction.
    pub expires_at: Option<i64>,
}

impl Hire {
    /// The hire's amount is positive, and it ends if and only if it is
    /// monthly: then 1 to 12 months of 30 days after it was made.
    pub open spec fn wf(&self) -> bool {
        &&& self.amount > 0
        &&& match self.hire_type {
            HireType::PerInteraction => self.expires_at is None,
            HireType::Monthly => {
                &&& self.expires_at matches Some(end)
                &&& (end - self.created_at) % (SECONDS_PER_MONTH as int) == 0
                &&& 1 <= (end - self.created_at) / (SECONDS_PER_MONTH as int)
                    <= MAX_DURATION_MONTHS
            },
        }
    }
}

/// A review of a listing by the developer of a released hire.
#[derive(Clone, Debug, PartialEq, Eq)]
pub struct Review {
    /// Who wrote the review.
    pub reviewer: Pubkey,
    /// The listing that is reviewed.
    pub npc: Pubkey,
    /// The hire that the review is about. A hire has at most one review.
    pub hire: Pubkey,
    /// The rating, from 1 to 5.
    pub rating: u8,
    pub comment: String,
    /// When the review was submitted, in seconds.
    pub created_at: i64,
}

impl Review {
    /// The rating is one of 1 to 5 and the comment is within its bound.
    pub open spec fn wf(&self) -> bool {
        &&& MIN_RATING <= self.rating <= MAX_RATING
        &&& self.comment@.len() <= MAX_COMMENT_LEN
    }
}

} // verus!
