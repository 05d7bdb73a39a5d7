//! The catalog: creators register listings and change their prices.

use vstd::prelude::*;
use vstd::string::*;
use crate::error::NpcForgeError;
use crate::pubkey::Pubkey;
use crate::state::{
    capabilities_within_bounds, Marketplace, Npc, NpcType, MAX_CAPABILITIES, MAX_CAPABILITY_LEN,
    MAX_DESCRIPTION_LEN, MAX_ENDPOINT_LEN, MAX_NAME_LEN,
};

verus! {

/// The notice that a listing was registered.
#[derive(Clone, Debug, PartialEq, Eq)]
pub struct NpcRegistered {
    pub npc_id: Pubkey,
    pub creator: Pubkey,
    pub name: String,
}

/// What a registration works on: the marketplace, the place of the new
/// listing, and its creator.
#[derive(Clone, Debug, PartialEq, Eq)]
pub struct RegisterNpc {
    /// The marketplace that counts its listings.
    pub marketplace: Marketplace,
    /// The address of the new listing.
    pub npc_key: Pubkey,
    /// The place of the listing at `npc_key`: none until it is registered.
    pub npc: Option<Npc>,
    /// Who registers the listing.
    pub creator: Pubkey,
}

/// What an update works on: the listing and the caller.
#[derive(Clone, Debug, PartialEq, Eq)]
pub struct UpdateNpc {
    /// The listing to change.
    pub npc: Npc,
    /// Who asks for the change.
    pub creator: Pubkey,
}

/// Why a list of capabilities is refused, if it is: there are more than
/// 10, or else one of them has more than 50 characters.
pub open spec fn capabilities_error(capabilities: Seq<String>) -> Option<NpcForgeError> {
    if capabilities.len() > MAX_CAPABILITIES {
        Some(NpcForgeError::TooManyCapabilities)
    } else if !capabilities_within_bounds(capabilities) {
        Some(NpcForgeError::CapabilityTooLong)
    } else {
        None
    }
}

/// Checks the number and the lengths of a listing's capabilities.
pub fn check_capabilities(capabilities: &Vec<String>) -> (result: Result<(), NpcForgeError>)
    ensures
        match result {
            Ok(_) => capabilities_error(capabilities@) is None,
            Err(error) => capabilities_error(capabilities@) == Some(error),
        },
{
    if capabilities.len() > MAX_CAPABILITIES {
        return Err(NpcForgeError::TooManyCapabilities);
    }
    let mut i: usize = 0;
    while i < capabilities.len()
        invariant
            i <= capabilities.len() <= MAX_CAPABILITIES,
            forall|j: int| 0 <= j < i ==> (#[trigger] capabilities@[j])@.len() <= MAX_CAPABILITY_LEN,
        decreases capabilities.len() - i,
    {
        if capabilities[i].as_str().unicode_len() > MAX_CAPABILITY_LEN {
            return Err(NpcForgeError::CapabilityTooLong);
        }
        i += 1;
    }
    Ok(())
}

/// Why a registration is refused, if it is. The first reason that applies
/// counts: the listing exists already; the name, the description or the
/// endpoint is too long; both prices are zero; there are too many
/// capabilities, or one is too long; the marketplace's count of listings
/// cannot grow.
pub open spec fn register_npc_error(
    ctx: RegisterNpc,
    name: String,
    description: String,
    price_per_interaction: u64,
    monthly_price: u64,
    api_endpoint: String,
    capabilities: Vec<String>,
) -> Option<NpcForgeError> {
    if ctx.npc is Some {
        Some(NpcForgeError::AlreadyExists)
    } else if name@.len() > MAX_NAME_LEN {
        Some(NpcForgeError::NameTooLong)
    } else if description@.len() > MAX_DESCRIPTION_LEN {
        Some(NpcForgeError::DescriptionTooLong)
    } else if api_endpoint@.len() > MAX_ENDPOINT_LEN {
        Some(NpcForgeError::EndpointTooLong)
    } else if price_per_interaction == 0 && monthly_price == 0 {
        Some(NpcForgeError::InvalidPrice)
    } else if capabilities_error(capabilities@) is Some {
        capabilities_error(capabilities@)
    } else if ctx.marketplace.npc_count == u64::MAX {
        Some(NpcForgeError::ArithmeticOverflow)
    } else {
        None
    }
}

/// The record of a listing registered at `now`: active, with no hires and
/// no reviews yet.
pub open spec fn new_npc(
    creator: Pubkey,
    name: String,
    description: String,
    npc_type: NpcType,
    price_per_interaction: u64,
    monthly_price: u64,
    api_endpoint: String,
    capabilities: Vec<String>,
    now: i64,
) -> Npc {
    Npc {
        creator,
        name,
        description,
        npc_type,
        price_per_interaction,
        monthly_price,
        api_endpoint,
        capabilities,
        is_active: true,
        total_hires: 0,
        rating_sum: 0,
        rating_count: 0,
        created_at: now,
    }
}

/// What an accepted registration leaves behind: the listing `npc` is in
/// its place and the marketplace counts one more listing.
pub open spec fn registered(ctx: RegisterNpc, npc: Npc) -> RegisterNpc {
    RegisterNpc {
        marketplace: Marketplace {
            npc_count: (ctx.marketplace.npc_count + 1) as u64,
            ..ctx.marketplace
        },
        npc: Some(npc),
        ..ctx
    }
}

/// Says whether a registration would be accepted, and why not if not.
/// It changes nothing.
pub fn check_registration(
    ctx: &RegisterNpc,
    name: &String,
    description: &String,
    price_per_interaction: u64,
    monthly_price: u64,
    api_endpoint: &String,
    capabilities: &Vec<String>,
) -> (result: Result<(), NpcForgeError>)
    ensures
        match result {
            Ok(_) => register_npc_error(
                *ctx,
                *name,
                *description,
                price_per_interaction,
                monthly_price,
                *api_endpoint,
                *capabilities,
            ) is None,
            Err(error) => register_npc_error(
                *ctx,
                *name,
                *description,
                price_per_interaction,
                monthly_price,
                *api_endpoint,
                *capabilities,
            ) == Some(error),
        },
{
    if ctx.npc.is_some() {
        return Err(NpcForgeError::AlreadyExists);
    }
    if name.as_str().unicode_len() > MAX_NAME_LEN {
        return Err(NpcForgeError::NameTooLong);
    }
    if description.as_str().unicode_len() > MAX_DESCRIPTION_LEN {
        return Err(NpcForgeError::DescriptionTooLong);
    }
    if api_endpoint.as_str().unicode_len() > MAX_ENDPOINT_LEN {
        return Err(NpcForgeError::EndpointTooLong);
    }
    if price_per_interaction == 0 && monthly_price == 0 {
        return Err(NpcForgeError::InvalidPrice);
    }
    match check_capabilities(capabilities) {
        Ok(_) => {},
        Err(error) => {
            return Err(error);
        },
    }
    if ctx.marketplace.npc_count == u64::MAX {
        return Err(NpcForgeError::ArithmeticOverflow);
    }
    Ok(())
}

/// Registers a listing at the time `now`, in seconds.
///
/// The registration is refused as `register_npc_error` says, and then
/// nothing changes. Otherwise the new listing is put in its place, active
/// and with all its counts at zero, and the marketplace counts one more
/// listing. The notice names the listing's address, its creator and its
/// name.
pub fn register_npc(
    ctx: &mut RegisterNpc,
    name: String,
    description: String,
    npc_type: NpcType,
    price_per_interaction: u64,
    monthly_price: u64,
    api_endpoint: String,
    capabilities: Vec<String>,
    now: i64,
) -> (result: Result<NpcRegistered, NpcForgeError>)
    ensures
        match result {
            Ok(event) => {
                &&& register_npc_error(
                    *old(ctx),
                    name,
                    description,
                    price_per_interaction,
                    monthly_price,
                    api_endpoint,
                    capabilities,
                ) is None
                &&& *final(ctx) == registered(
                    *old(ctx),
                    new_npc(
                        old(ctx).creator,
                        name,
                        description,
                        npc_type,
                        price_per_interaction,
                        monthly_price,
                        api_endpoint,
                        capabilities,
                        now,
                    ),
                )
                &&& event == (NpcRegistered {
                    npc_id: old(ctx).npc_key,
                    creator: old(ctx).creator,
                    name,
                })
            },
            Err(error) => {
                &&& register_npc_error(
                    *old(ctx),
                    name,
                    description,
                    price_per_interaction,
                    monthly_price,
                    api_endpoint,
                    capabilities,
                ) == Some(error)
                &&& *final(ctx) == *old(ctx)
            },
        },
{
    match check_registration(
        ctx,
        &name,
        &description,
        price_per_interaction,
        monthly_price,
        &api_endpoint,
        &capabilities,
    ) {
        Ok(_) => {},
        Err(error) => {
            return Err(error);
        },
    }
    let event = NpcRegistered { npc_id: ctx.npc_key, creator: ctx.creator, name: name.clone() };
    ctx.npc = Some(
        Npc {
            creator: ctx.creator,
            name,
            description,
            npc_type,
            price_per_interaction,
            monthly_price,
            api_endpoint,
            capabilities,
            is_active: true,
            total_hires: 0,
            rating_sum: 0,
            rating_count: 0,
            created_at: now,
        },
    );
    ctx.marketplace.npc_count = ctx.marketplace.npc_count + 1;
    Ok(event)
}

/// Why an update is refused, if it is: the caller is not the listing's
/// creator.
pub open spec fn update_npc_error(ctx: UpdateNpc) -> Option<NpcForgeError> {
    if ctx.creator != ctx.npc.creator {
        Some(NpcForgeError::Unauthorized)
    } else {
        None
    }
}

/// What an accepted update leaves behind: each of the two prices and the
/// active flag has its new value where one was given, and is as before
/// where none was. Nothing else has changed.
pub open spec fn updated(
    ctx: UpdateNpc,
    price_per_interaction: Option<u64>,
    monthly_price: Option<u64>,
    is_active: Option<bool>,
) -> UpdateNpc {
    UpdateNpc {
        npc: Npc {
            price_per_interaction: match price_per_interaction {
                Some(price) => price,
                None => ctx.npc.price_per_interaction,
            },
            monthly_price: match monthly_price {
                Some(price) => price,
                None => ctx.npc.monthly_price,
            },
            is_active: match is_active {
                Some(active) => active,
                None => ctx.npc.is_active,
            },
            ..ctx.npc
        },
        ..ctx
    }
}

/// Changes the prices of a listing, or whether it accepts hires.
///
/// A caller who is not the listing's creator is refused, and then nothing
/// changes. Otherwise each value that is given replaces the listing's, and
/// the others stay. The new prices are not checked: both may be zero.
pub fn update_npc(
    ctx: &mut UpdateNpc,
    price_per_interaction: Option<u64>,
    monthly_price: Option<u64>,
    is_active: Option<bool>,
) -> (result: Result<(), NpcForgeError>)
    ensures
        match result {
            Ok(_) => {
                &&& update_npc_error(*old(ctx)) is None
                &&& *final(ctx) == updated(
                    *old(ctx),
                    price_per_interaction,
                    monthly_price,
                    is_active,
                )
            },
            Err(error) => {
                &&& update_npc_error(*old(ctx)) == Some(error)
                &&& *final(ctx) == *old(ctx)
            },
        },
{
    if ctx.creator != ctx.npc.creator {
        return Err(NpcForgeError::Unauthorized);
    }
    if let Some(price) = price_per_interaction {
        ctx.npc.price_per_interaction = price;
    }
    if let Some(price) = monthly_price {
        ctx.npc.monthly_price = price;
    }
    if let Some(active) = is_active {
        ctx.npc.is_active = active;
    }
    Ok(())
}

} // verus!
