//! A verified escrow and settlement engine for a marketplace of hireable
//! non-player characters.
//!
//! A creator registers a listing, a developer hires it and pays into an
//! escrow holding, the holding is split between the creator and the
//! marketplace exactly once, and a review may follow the release. Every
//! operation works on plain records and returns the token movements that
//! the caller has to carry out on the ledger.

pub mod catalog;
pub mod error;
pub mod escrow;
pub mod laws;
pub mod pubkey;
pub mod rating;
pub mod registry;
pub mod state;

pub use catalog::{register_npc, update_npc, NpcRegistered, RegisterNpc, UpdateNpc};
pub use error::NpcForgeError;
pub use escrow::{
    hire_npc, release_payment, HireNpc, HireOutcome, NpcHired, PaymentReleased, ReleaseOutcome,
    ReleasePayment, TokenAccount, TokenTransfer,
};
pub use pubkey::Pubkey;
pub use rating::{submit_review, ReviewSubmitted, SubmitReview};
pub use registry::{initialize_marketplace, InitializeMarketplace};
pub use state::{Hire, HireType, Marketplace, Npc, NpcType, Review};
