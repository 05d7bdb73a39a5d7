//! The escrow engine: a hire pays into an escrow holding, and a release
//! splits the holding between the creator and the marketplace, once.
//!
//! Neither operation moves tokens. Each returns the transfers that the
//! caller has to make on the ledger, together with the new records. A
//! caller commits the records only if the ledger made every transfer.

use vstd::prelude::*;
use crate::error::NpcForgeError;
use crate::pubkey::Pubkey;
use crate::state::{
    Hire, HireType, Marketplace, Npc, BASIS_POINTS, MAX_DURATION_MONTHS, SECONDS_PER_MONTH,
};

verus! {

/// An instruction to the ledger: move `amount` tokens from the account
/// `from` to the account `to`, on the word of `authority`.
#[derive(Clone, Copy, Debug, PartialEq, Eq)]
pub struct TokenTransfer {
    pub from: Pubkey,
    pub to: Pubkey,
    pub authority: Pubkey,
    pub amount: u64,
}

/// A token account as the ledger describes it.
#[derive(Clone, Copy, Debug, PartialEq, Eq)]
pub struct TokenAccount {
    /// The account's address.
    pub key: Pubkey,
    /// Who owns the tokens in the account.
    pub owner: Pubkey,
}

/// The notice that a listing was hired.
#[derive(Clone, Copy, Debug, PartialEq, Eq)]
pub struct NpcHired {
    pub hire_id: Pubkey,
    pub npc_id: Pubkey,
    pub developer: Pubkey,
    pub amount: u64,
}

/// The notice that a hire's payment was released.
#[derive(Clone, Copy, Debug, PartialEq, Eq)]
pub struct PaymentReleased {
    pub hire_id: Pubkey,
    pub creator: Pubkey,
    /// What the creator received.
    pub amount: u64,
    /// What the marketplace kept.
    pub fee: u64,
}

/// The fee on `amount` at `fee_percent` basis points, rounded down.
pub open spec fn fee_of(amount: u64, fee_percent: u16) -> int {
    (amount * fee_percent) / (BASIS_POINTS as int)
}

/// What is left of `amount` for the creator once the fee is taken.
pub open spec fn creator_share(amount: u64, fee_percent: u16) -> int {
    amount - fee_of(amount, fee_percent)
}

/// A fee of at most 100% is at most the amount it is taken from.
pub proof fn fee_within_amount(amount: u64, fee_percent: u16)
    requires
        fee_percent <= BASIS_POINTS,
    ensures
        0 <= fee_of(amount, fee_percent) <= amount,
        0 <= creator_share(amount, fee_percent) <= amount,
{
    assert(0 <= amount * fee_percent <= amount * 10000) by (nonlinear_arith)
        requires
            0 <= fee_percent <= 10000,
            0 <= amount,
    ;
}

/// Splits `amount` into the creator's share and the marketplace's fee, in
/// this order. The fee is `amount * fee_percent / 10000`, rounded down;
/// the creator gets the rest, so that nothing is lost. There is no split
/// where the fee is above the amount, which takes a fee above 100%.
pub fn split_payment(amount: u64, fee_percent: u16) -> (parts: Option<(u64, u64)>)
    ensures
        match parts {
            Some((share, fee)) => {
                &&& fee == fee_of(amount, fee_percent)
                &&& share == creator_share(amount, fee_percent)
                &&& share + fee == amount
            },
            None => fee_of(amount, fee_percent) > amount,
        },
{
    assert(0 <= amount * fee_percent <= 0xffff_ffff_ffff_ffff * 0xffff) by (nonlinear_arith)
        requires
            0 <= amount <= 0xffff_ffff_ffff_ffff,
            0 <= fee_percent <= 0xffff,
    ;
    let product: u128 = (amount as u128) * (fee_percent as u128);
    let fee: u128 = product / (BASIS_POINTS as u128);
    if fee > amount as u128 {
        None
    } else {
        let fee: u64 = fee as u64;
        Some((amount - fee, fee))
    }
}

/// The bytes of the word "escrow", which begin the seeds of a hire's
/// settlement authority.
pub open spec fn escrow_seed_prefix() -> Seq<u8> {
    seq![101u8, 115u8, 99u8, 114u8, 111u8, 119u8]
}

/// The seeds of the authority over the escrow holding of the hire at
/// `hire_key`: the word "escrow", the hire's address, and the bump.
pub open spec fn escrow_signer_seeds_spec(hire_key: Pubkey, bump: u8) -> Seq<Seq<u8>> {
    seq![escrow_seed_prefix(), hire_key@, seq![bump]]
}

/// Builds the seeds that sign for the escrow holding of the hire at
/// `hire_key`. They hold the hire's address, so they sign for no other hire.
pub fn escrow_signer_seeds(hire_key: &Pubkey, bump: u8) -> (seeds: Vec<Vec<u8>>)
    ensures
        seeds.deep_view() == escrow_signer_seeds_spec(*hire_key, bump),
{
    let mut prefix: Vec<u8> = Vec::new();
    prefix.push(101u8);
    prefix.push(115u8);
    prefix.push(99u8);
    prefix.push(114u8);
    prefix.push(111u8);
    prefix.push(119u8);
    let mut key: Vec<u8> = Vec::new();
    let mut i: usize = 0;
    while i < 32
        invariant
            i <= 32,
            key@ == hire_key@.subrange(0, i as int),
        decreases 32 - i,
    {
        key.push(hire_key.bytes[i]);
        i += 1;
    }
    let mut last: Vec<u8> = Vec::new();
    last.push(bump);
    let mut seeds: Vec<Vec<u8>> = Vec::new();
    seeds.push(prefix);
    seeds.push(key);
    seeds.push(last);
    proof {
        let want = escrow_signer_seeds_spec(*hire_key, bump);
        assert(seeds@[0].deep_view() =~= want[0]);
        assert(seeds@[1].deep_view() =~= want[1]);
        assert(seeds@[2].deep_view() =~= want[2]);
        assert(seeds.deep_view() =~= want);
    }
    seeds
}

/// What a hire works on: the listing, the place of the new hire record,
/// and the accounts that take part in the payment.
#[derive(Clone, Debug, PartialEq, Eq)]
pub struct HireNpc {
    /// The listing's address.
    pub npc_key: Pubkey,
    /// The listing to hire.
    pub npc: Npc,
    /// The address of the new hire record.
    pub hire_key: Pubkey,
    /// The place of the hire record at `hire_key`: none until the hire is
    /// made.
    pub hire: Option<Hire>,
    /// Who hires, and signs for the payment.
    pub developer: Pubkey,
    /// The account that will hold the payment in escrow.
    pub escrow_token_account: Pubkey,
    /// The developer's account, from which the payment comes.
    pub developer_token_account: Pubkey,
}

/// What a successful hire asks of its caller.
#[derive(Clone, Copy, Debug, PartialEq, Eq)]
pub struct HireOutcome {
    /// The payment into escrow that the ledger has to make.
    pub deposit: TokenTransfer,
    /// The notice to send.
    pub event: NpcHired,
}

/// A hire per interaction needs no duration and ignores one; a monthly
/// hire lasts 1 to 12 months.
pub open spec fn valid_duration(hire_type: HireType, duration_months: Option<u8>) -> bool {
    hire_type is Monthly ==> (duration_months matches Some(months) && 1 <= months
        <= MAX_DURATION_MONTHS)
}

/// The price of a hire: the listing's price per interaction, or its
/// monthly price for each month. A monthly hire without a duration costs
/// nothing.
pub open spec fn hire_amount(npc: Npc, hire_type: HireType, duration_months: Option<u8>) -> int {
    match hire_type {
        HireType::PerInteraction => npc.price_per_interaction as int,
        HireType::Monthly => match duration_months {
            Some(months) => npc.monthly_price * months,
            None => 0,
        },
    }
}

/// When a hire made at `now` ends: a monthly hire 30 days after `now`
/// for each month, a hire per interaction never.
pub open spec fn hire_expiry(hire_type: HireType, duration_months: Option<u8>, now: i64) -> Option<
    int,
> {
    match hire_type {
        HireType::PerInteraction => None,
        HireType::Monthly => match duration_months {
            Some(months) => Some(now + months * SECONDS_PER_MONTH),
            None => None,
        },
    }
}

/// Whether the amount and the end of a hire made at `now` can be held in
/// the record's fields.
pub open spec fn hire_fits(
    npc: Npc,
    hire_type: HireType,
    duration_months: Option<u8>,
    now: i64,
) -> bool {
    &&& hire_amount(npc, hire_type, duration_months) <= u64::MAX
    &&& hire_expiry(hire_type, duration_months, now) matches Some(end) ==> end <= i64::MAX
}

/// Why a hire at the time `now` is refused, if it is. The first reason
/// that applies counts: the hire record exists already; the listing is
/// not active; a monthly hire has no duration of 1 to 12 months; the
/// amount is zero; the amount or the end does not fit in its field.
pub open spec fn hire_npc_error(
    ctx: HireNpc,
    hire_type: HireType,
    duration_months: Option<u8>,
    now: i64,
) -> Option<NpcForgeError> {
    if ctx.hire is Some {
        Some(NpcForgeError::AlreadyExists)
    } else if !ctx.npc.is_active {
        Some(NpcForgeError::NpcNotActive)
    } else if !valid_duration(hire_type, duration_months) {
        Some(NpcForgeError::InvalidDuration)
    } else if hire_amount(ctx.npc, hire_type, duration_months) == 0 {
        Some(NpcForgeError::InvalidPrice)
    } else if !hire_fits(ctx.npc, hire_type, duration_months, now) {
        Some(NpcForgeError::ArithmeticOverflow)
    } else {
        None
    }
}

/// The record of a hire made at `now`.
pub open spec fn new_hire(
    ctx: HireNpc,
    hire_type: HireType,
    duration_months: Option<u8>,
    now: i64,
) -> Hire {
    Hire {
        developer: ctx.developer,
        npc: ctx.npc_key,
        creator: ctx.npc.creator,
        hire_type,
        amount: hire_amount(ctx.npc, hire_type, duration_months) as u64,
        escrow_token_account: ctx.escrow_token_account,
        is_active: true,
        created_at: now,
        expires_at: match hire_expiry(hire_type, duration_months, now) {
            Some(end) => Some(end as i64),
            None => None,
        },
    }
}

/// What an accepted hire leaves behind: the hire record is in its place,
/// and nothing else has changed.
pub open spec fn hired(
    ctx: HireNpc,
    hire_type: HireType,
    duration_months: Option<u8>,
    now: i64,
) -> HireNpc {
    HireNpc { hire: Some(new_hire(ctx, hire_type, duration_months, now)), ..ctx }
}

/// What an accepted hire asks of its caller: to move the amount from the
/// developer's account into escrow, and to send the notice.
pub open spec fn hire_outcome(
    ctx: HireNpc,
    hire_type: HireType,
    duration_months: Option<u8>,
) -> HireOutcome {
    let amount = hire_amount(ctx.npc, hire_type, duration_months) as u64;
    HireOutcome {
        deposit: TokenTransfer {
            from: ctx.developer_token_account,
            to: ctx.escrow_token_account,
            authority: ctx.developer,
            amount,
        },
        event: NpcHired {
            hire_id: ctx.hire_key,
            npc_id: ctx.npc_key,
            developer: ctx.developer,
            amount,
        },
    }
}

/// Hires the listing at the time `now`, in seconds.
///
/// The hire is refused as `hire_npc_error` says, and then nothing changes.
/// Otherwise the new record is put in its place: active, with the amount
/// that the listing's prices and the kind of hire give, and, for a monthly
/// hire, its end. The outcome names the payment into escrow.
pub fn hire_npc(
    ctx: &mut HireNpc,
    hire_type: HireType,
    duration_months: Option<u8>,
    now: i64,
) -> (result: Result<HireOutcome, NpcForgeError>)
    ensures
        match result {
            Ok(outcome) => {
                &&& hire_npc_error(*old(ctx), hire_type, duration_months, now) is None
                &&& *final(ctx) == hired(*old(ctx), hire_type, duration_months, now)
                &&& outcome == hire_outcome(*old(ctx), hire_type, duration_months)
            },
            Err(error) => {
                &&& hire_npc_error(*old(ctx), hire_type, duration_months, now) == Some(error)
                &&& *final(ctx) == *old(ctx)
            },
        },
{
    if ctx.hire.is_some() {
        return Err(NpcForgeError::AlreadyExists);
    }
    if !ctx.npc.is_active {
        return Err(NpcForgeError::NpcNotActive);
    }
    let (amount, expires_at): (u64, Option<i64>) = match hire_type {
        HireType::PerInteraction => {
            if ctx.npc.price_per_interaction == 0 {
                return Err(NpcForgeError::InvalidPrice);
            }
            (ctx.npc.price_per_interaction, None)
        },
        HireType::Monthly => {
            let months: u8 = match duration_months {
                Some(months) => months,
                None => {
                    return Err(NpcForgeError::InvalidDuration);
                },
            };
            if months == 0 || months > MAX_DURATION_MONTHS {
                return Err(NpcForgeError::InvalidDuration);
            }
            if ctx.npc.monthly_price == 0 {
                return Err(NpcForgeError::InvalidPrice);
            }
            assert(ctx.npc.monthly_price * months > 0) by (nonlinear_arith)
                requires
                    ctx.npc.monthly_price > 0,
                    months > 0,
            ;
            let amount: u64 = match ctx.npc.monthly_price.checked_mul(months as u64) {
                Some(amount) => amount,
                None => {
                    return Err(NpcForgeError::ArithmeticOverflow);
                },
            };
            let length: i64 = (months as i64) * SECONDS_PER_MONTH;
            let end: i64 = match now.checked_add(length) {
                Some(end) => end,
                None => {
                    return Err(NpcForgeError::ArithmeticOverflow);
                },
            };
            (amount, Some(end))
        },
    };
    ctx.hire = Some(
        Hire {
            developer: ctx.developer,
            npc: ctx.npc_key,
            creator: ctx.npc.creator,
            hire_type,
            amount,
            escrow_token_account: ctx.escrow_token_account,
            is_active: true,
            created_at: now,
            expires_at,
        },
    );
    Ok(
        HireOutcome {
            deposit: TokenTransfer {
                from: ctx.developer_token_account,
                to: ctx.escrow_token_account,
                authority: ctx.developer,
                amount,
            },
            event: NpcHired {
                hire_id: ctx.hire_key,
                npc_id: ctx.npc_key,
                developer: ctx.developer,
                amount,
            },
        },
    )
}

/// What a release works on: the hire, its listing, the marketplace, and
/// the accounts that take part in the settlement.
#[derive(Clone, Debug, PartialEq, Eq)]
pub struct ReleasePayment {
    /// The hire's address.
    pub hire_key: Pubkey,
    /// The hire whose payment is released.
    pub hire: Hire,
    /// The listing's address. It has to be the one that the hire names.
    pub npc_key: Pubkey,
    /// The listing that was hired: the record at `npc_key`.
    pub npc: Npc,
    /// The marketplace, whose fee applies.
    pub marketplace: Marketplace,
    /// The account to pay out of. It has to be the one that holds the
    /// hire's payment.
    pub escrow_token_account: Pubkey,
    /// The account that receives the creator's share. It has to belong to
    /// the hire's creator.
    pub creator_token_account: TokenAccount,
    /// The account that receives the fee. It has to belong to the
    /// marketplace's owner.
    pub fee_token_account: TokenAccount,
    /// The authority over the hire's escrow holding.
    pub escrow_authority: Pubkey,
    /// The bump that ends the seeds of that authority.
    pub escrow_authority_bump: u8,
}

/// What a successful release asks of its caller. The ledger has to make
/// both transfers or neither.
#[derive(Clone, Debug, PartialEq, Eq)]
pub struct ReleaseOutcome {
    /// The creator's share, out of the hire's escrow holding.
    pub payout: TokenTransfer,
    /// The marketplace's fee, out of the same holding; none if the fee is
    /// zero.
    pub fee: Option<TokenTransfer>,
    /// The seeds that sign both transfers for the escrow authority.
    pub signer_seeds: Vec<Vec<u8>>,
    /// The notice to send.
    pub event: PaymentReleased,
}

/// Why a release is refused, if it is. The first reason that applies
/// counts: the hire's payment has been released already; the escrow
/// account handed in is not the one that holds the hire's payment; the
/// listing handed in is not the one that the hire names; the account for the
/// creator's share does not belong to the hire's creator; the account for
/// the fee does not belong to the marketplace's owner; the fee is above
/// the amount, or the listing's count of hires cannot grow.
pub open spec fn release_payment_error(ctx: ReleasePayment) -> Option<NpcForgeError> {
    if !ctx.hire.is_active {
        Some(NpcForgeError::HireNotActive)
    } else if ctx.escrow_token_account != ctx.hire.escrow_token_account {
        Some(NpcForgeError::EscrowAccountMismatch)
    } else if ctx.npc_key != ctx.hire.npc {
        Some(NpcForgeError::NpcMismatch)
    } else if ctx.creator_token_account.owner != ctx.hire.creator {
        Some(NpcForgeError::CreatorAccountMismatch)
    } else if ctx.fee_token_account.owner != ctx.marketplace.authority {
        Some(NpcForgeError::FeeAccountMismatch)
    } else if fee_of(ctx.hire.amount, ctx.marketplace.fee_percent) > ctx.hire.amount
        || ctx.npc.total_hires == u64::MAX {
        Some(NpcForgeError::ArithmeticOverflow)
    } else {
        None
    }
}

/// What an accepted release leaves behind: the hire is no longer active,
/// the listing counts one more hire, and nothing else has changed.
pub open spec fn released(ctx: ReleasePayment) -> ReleasePayment {
    ReleasePayment {
        hire: Hire { is_active: false, ..ctx.hire },
        npc: Npc { total_hires: (ctx.npc.total_hires + 1) as u64, ..ctx.npc },
        ..ctx
    }
}

/// The transfer of the creator's share that an accepted release asks for.
pub open spec fn release_payout(ctx: ReleasePayment) -> TokenTransfer {
    TokenTransfer {
        from: ctx.hire.escrow_token_account,
        to: ctx.creator_token_account.key,
        authority: ctx.escrow_authority,
        amount: creator_share(ctx.hire.amount, ctx.marketplace.fee_percent) as u64,
    }
}

/// The transfer of the fee that an accepted release asks for, if the fee
/// is not zero.
pub open spec fn release_fee(ctx: ReleasePayment) -> Option<TokenTransfer> {
    if fee_of(ctx.hire.amount, ctx.marketplace.fee_percent) > 0 {
        Some(
            TokenTransfer {
                from: ctx.hire.escrow_token_account,
                to: ctx.fee_token_account.key,
                authority: ctx.escrow_authority,
                amount: fee_of(ctx.hire.amount, ctx.marketplace.fee_percent) as u64,
            },
        )
    } else {
        None
    }
}

/// The notice of an accepted release.
pub open spec fn release_event(ctx: ReleasePayment) -> PaymentReleased {
    PaymentReleased {
        hire_id: ctx.hire_key,
        creator: ctx.hire.creator,
        amount: creator_share(ctx.hire.amount, ctx.marketplace.fee_percent) as u64,
        fee: fee_of(ctx.hire.amount, ctx.marketplace.fee_percent) as u64,
    }
}

/// Releases the payment of a hire.
///
/// The release is refused as `release_payment_error` says, and then
/// nothing changes and no transfer is asked for. Otherwise the amount is
/// split into the marketplace's fee, `amount * fee_percent / 10000`
/// rounded down, and the creator's share, which is the rest; the hire
/// stops being active and its listing counts one more hire. The outcome
/// names the transfer of the creator's share into an account of the
/// hire's creator, that of the fee into an account of the marketplace's
/// owner unless the fee is zero, the seeds that sign for this hire's
/// escrow holding, and the notice.
pub fn release_payment(ctx: &mut ReleasePayment) -> (result: Result<ReleaseOutcome, NpcForgeError>)
    ensures
        match result {
            Ok(outcome) => {
                &&& release_payment_error(*old(ctx)) is None
                &&& *final(ctx) == released(*old(ctx))
                &&& outcome.payout == release_payout(*old(ctx))
                &&& outcome.fee == release_fee(*old(ctx))
                &&& outcome.signer_seeds.deep_view() == escrow_signer_seeds_spec(
                    old(ctx).hire_key,
                    old(ctx).escrow_authority_bump,
                )
                &&& outcome.event == release_event(*old(ctx))
                &&& outcome.event.amount + outcome.event.fee == old(ctx).hire.amount
            },
            Err(error) => {
                &&& release_payment_error(*old(ctx)) == Some(error)
                &&& *final(ctx) == *old(ctx)
            },
        },
{
    if !ctx.hire.is_active {
        return Err(NpcForgeError::HireNotActive);
    }
    if ctx.escrow_token_account != ctx.hire.escrow_token_account {
        return Err(NpcForgeError::EscrowAccountMismatch);
    }
    if ctx.npc_key != ctx.hire.npc {
        return Err(NpcForgeError::NpcMismatch);
    }
    if ctx.creator_token_account.owner != ctx.hire.creator {
        return Err(NpcForgeError::CreatorAccountMismatch);
    }
    if ctx.fee_token_account.owner != ctx.marketplace.authority {
        return Err(NpcForgeError::FeeAccountMismatch);
    }
    let (creator_amount, fee): (u64, u64) = match split_payment(
        ctx.hire.amount,
        ctx.marketplace.fee_percent,
    ) {
        Some(parts) => parts,
        None => {
            return Err(NpcForgeError::ArithmeticOverflow);
        },
    };
    if ctx.npc.total_hires == u64::MAX {
        return Err(NpcForgeError::ArithmeticOverflow);
    }
    let payout = TokenTransfer {
        from: ctx.hire.escrow_token_account,
        to: ctx.creator_token_account.key,
        authority: ctx.escrow_authority,
        amount: creator_amount,
    };
    let fee_transfer: Option<TokenTransfer> = if fee > 0 {
        Some(
            TokenTransfer {
                from: ctx.hire.escrow_token_account,
                to: ctx.fee_token_account.key,
                authority: ctx.escrow_authority,
                amount: fee,
            },
        )
    } else {
        None
    };
    let signer_seeds = escrow_signer_seeds(&ctx.hire_key, ctx.escrow_authority_bump);
    let event = PaymentReleased {
        hire_id: ctx.hire_key,
        creator: ctx.hire.creator,
        amount: creator_amount,
        fee,
    };
    ctx.hire.is_active = false;
    ctx.npc.total_hires = ctx.npc.total_hires + 1;
    Ok(ReleaseOutcome { payout, fee: fee_transfer, signer_seeds, event })
}

} // verus!
