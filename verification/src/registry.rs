//! The registry: the marketplace's configuration, created once.

use vstd::prelude::*;
use crate::error::NpcForgeError;
use crate::pubkey::Pubkey;
use crate::state::{Marketplace, DEFAULT_FEE_BASIS_POINTS};

verus! {

/// What the creation of the marketplace works on: the place of its
/// configuration, and its owner.
#[derive(Clone, Copy, Debug, PartialEq, Eq)]
pub struct InitializeMarketplace {
    /// The place of the configuration: none until it is created.
    pub marketplace: Option<Marketplace>,
    /// Who will own the marketplace.
    pub authority: Pubkey,
}

/// Why the creation is refused, if it is: the marketplace exists already.
pub open spec fn initialize_marketplace_error(ctx: InitializeMarketplace) -> Option<
    NpcForgeError,
> {
    if ctx.marketplace is Some {
        Some(NpcForgeError::AlreadyExists)
    } else {
        None
    }
}

/// The configuration of a new marketplace owned by `authority`: no
/// listings, and a fee of 250 basis points.
pub open spec fn new_marketplace(authority: Pubkey) -> Marketplace {
    Marketplace { authority, npc_count: 0, fee_percent: DEFAULT_FEE_BASIS_POINTS }
}

/// Creates the marketplace.
///
/// If it exists already the creation is refused, and nothing changes.
/// Otherwise the configuration is put in its place: owned by the
/// context's authority, with no listings and the default fee.
pub fn initialize_marketplace(ctx: &mut InitializeMarketplace) -> (result: Result<
    (),
    NpcForgeError,
>)
    ensures
        match result {
            Ok(_) => {
                &&& initialize_marketplace_error(*old(ctx)) is None
                &&& *final(ctx) == (InitializeMarketplace {
                    marketplace: Some(new_marketplace(old(ctx).authority)),
                    ..*old(ctx)
                })
            },
            Err(error) => {
                &&& initialize_marketplace_error(*old(ctx)) == Some(error)
                &&& *final(ctx) == *old(ctx)
            },
        },
{
    if ctx.marketplace.is_some() {
        return Err(NpcForgeError::AlreadyExists);
    }
    ctx.marketplace = Some(
        Marketplace {
            authority: ctx.authority,
            npc_count: 0,
            fee_percent: DEFAULT_FEE_BASIS_POINTS,
        },
    );
    Ok(())
}

} // verus!
