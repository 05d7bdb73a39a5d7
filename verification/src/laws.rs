//! What holds of the marketplace whatever its users do.
//!
//! Each law is stated over the functions that the contracts of the
//! operations use: for an operation `op`, `op_error` says whether and why
//! it is refused, and a second function gives what it leaves behind.

use vstd::prelude::*;
use crate::catalog::{
    new_npc, register_npc_error, registered, update_npc_error, updated, RegisterNpc, UpdateNpc,
};
use crate::error::NpcForgeError;
use crate::escrow::{
    creator_share, escrow_signer_seeds_spec, fee_of, fee_within_amount, hire_fits,
    hire_npc_error, hire_outcome, hired, new_hire, release_event, release_fee,
    release_payment_error, release_payout, released, HireNpc, ReleasePayment,
};
use crate::pubkey::{pubkey_view_injective, Pubkey};
use crate::rating::{reviewed, submit_review_error, SubmitReview};
use crate::registry::new_marketplace;
use crate::state::{HireType, NpcType, BASIS_POINTS, MAX_COMMENT_LEN, MAX_RATING, MIN_RATING};

verus! {

/// A new marketplace takes a fee of at most the whole payment.
pub proof fn new_marketplace_is_well_formed(authority: Pubkey)
    ensures
        new_marketplace(authority).wf(),
        new_marketplace(authority).npc_count == 0,
{
}

/// Every listing that a registration accepts has a price above zero,
/// per interaction or per month, keeps both prices as they were given, and
/// has texts within their bounds. The marketplace counts one more listing
/// and is otherwise as before.
pub proof fn registered_listing_is_priced(
    ctx: RegisterNpc,
    name: String,
    description: String,
    npc_type: NpcType,
    price_per_interaction: u64,
    monthly_price: u64,
    api_endpoint: String,
    capabilities: Vec<String>,
    now: i64,
)
    requires
        register_npc_error(
            ctx,
            name,
            description,
            price_per_interaction,
            monthly_price,
            api_endpoint,
            capabilities,
        ) is None,
    ensures
        ({
            let npc = new_npc(
                ctx.creator,
                name,
                description,
                npc_type,
                price_per_interaction,
                monthly_price,
                api_endpoint,
                capabilities,
                now,
            );
            let after = registered(ctx, npc);
            &&& price_per_interaction > 0 || monthly_price > 0
            &&& npc.is_priced()
            &&& npc.price_per_interaction == price_per_interaction
            &&& npc.monthly_price == monthly_price
            &&& npc.wf()
            &&& after.npc == Some(npc)
            &&& after.marketplace.npc_count == ctx.marketplace.npc_count + 1
            &&& after.marketplace.fee_percent == ctx.marketplace.fee_percent
            &&& after.marketplace.authority == ctx.marketplace.authority
            &&& ctx.marketplace.wf() ==> after.marketplace.wf()
        }),
{
}

/// Only its creator changes a listing: an update is accepted if and only
/// if the caller is the listing's creator.
pub proof fn only_the_creator_updates(ctx: UpdateNpc)
    ensures
        update_npc_error(ctx) is None <==> ctx.creator == ctx.npc.creator,
        update_npc_error(ctx) is Some ==> update_npc_error(ctx) == Some(
            NpcForgeError::Unauthorized,
        ),
{
}

/// An update keeps a listing's texts, counts and creator. After it the
/// listing is priced if and only if one of the two prices that it leaves,
/// the new one where one was given and the old one where none was, is
/// above zero: an update that gives no price keeps a priced listing priced.
pub proof fn update_keeps_the_listing(
    ctx: UpdateNpc,
    price_per_interaction: Option<u64>,
    monthly_price: Option<u64>,
    is_active: Option<bool>,
)
    ensures
        ({
            let after = updated(ctx, price_per_interaction, monthly_price, is_active).npc;
            &&& ctx.npc.wf() ==> after.wf()
            &&& after.creator == ctx.npc.creator
            &&& after.total_hires == ctx.npc.total_hires
            &&& after.rating_sum == ctx.npc.rating_sum
            &&& after.rating_count == ctx.npc.rating_count
            &&& after.is_priced() <==> ((match price_per_interaction {
                Some(price) => price,
                None => ctx.npc.price_per_interaction,
            }) > 0 || (match monthly_price {
                Some(price) => price,
                None => ctx.npc.monthly_price,
            }) > 0)
            &&& (price_per_interaction is None && monthly_price is None && ctx.npc.is_priced())
                ==> after.is_priced()
        }),
{
}

/// A hire is accepted whenever its place is free, the listing is active,
/// a monthly hire lasts 1 to 12 months, and the amount is above zero and
/// fits, with the end, in the record.
pub proof fn hire_is_owed(ctx: HireNpc, hire_type: HireType, duration_months: Option<u8>, now: i64)
    requires
        ctx.hire is None,
        ctx.npc.is_active,
        hire_type is Monthly ==> duration_months is Some && 1 <= duration_months->Some_0 <= 12,
        hire_type is PerInteraction ==> ctx.npc.price_per_interaction > 0,
        hire_type is Monthly ==> ctx.npc.monthly_price > 0,
        hire_fits(ctx.npc, hire_type, duration_months, now),
    ensures
        hire_npc_error(ctx, hire_type, duration_months, now) is None,
{
    if hire_type is Monthly {
        let months = duration_months->Some_0;
        assert(ctx.npc.monthly_price * months > 0) by (nonlinear_arith)
            requires
                ctx.npc.monthly_price > 0,
                months > 0,
        ;
    }
}

/// The amount of every accepted hire is the one that the listing's prices
/// and the kind of hire give at that time, taken over all integers, and it
/// is above zero: the price per interaction, or the monthly price for each
/// month. The new hire is active and well formed, the listing is as
/// before, and the payment asked for is that amount, into the hire's
/// escrow account.
pub proof fn hire_amount_is_determined(
    ctx: HireNpc,
    hire_type: HireType,
    duration_months: Option<u8>,
    now: i64,
)
    requires
        hire_npc_error(ctx, hire_type, duration_months, now) is None,
    ensures
        ({
            let hire = new_hire(ctx, hire_type, duration_months, now);
            &&& hire.amount > 0
            &&& hire_type is PerInteraction ==> hire.amount == ctx.npc.price_per_interaction
            &&& hire_type is Monthly ==> hire.amount == ctx.npc.monthly_price
                * duration_months->Some_0
            &&& hire_type is PerInteraction ==> hire.expires_at is None
            &&& hire_type is Monthly ==> hire.expires_at == Some(
                (now + duration_months->Some_0 * 2592000) as i64,
            ) && now + duration_months->Some_0 * 2592000 <= i64::MAX
            &&& hire.is_active
            &&& hire.wf()
            &&& hire.creator == ctx.npc.creator
            &&& hire.npc == ctx.npc_key
            &&& hired(ctx, hire_type, duration_months, now).hire == Some(hire)
            &&& hired(ctx, hire_type, duration_months, now).npc == ctx.npc
            &&& hire_outcome(ctx, hire_type, duration_months).deposit.amount == hire.amount
            &&& hire_outcome(ctx, hire_type, duration_months).deposit.to
                == hire.escrow_token_account
        }),
{
}

/// The fee and the creator's share add up to the amount, and neither is
/// below zero: a release loses nothing and makes nothing.
pub proof fn fee_split_is_exact(amount: u64, fee_percent: u16)
    requires
        fee_percent <= BASIS_POINTS,
    ensures
        fee_of(amount, fee_percent) + creator_share(amount, fee_percent) == amount,
        fee_of(amount, fee_percent) == (amount * fee_percent) / 10000,
        0 <= fee_of(amount, fee_percent) <= amount,
        0 <= creator_share(amount, fee_percent) <= amount,
{
    fee_within_amount(amount, fee_percent);
}

/// A release is accepted whenever the hire is active, the escrow account
/// and the listing handed in are the hire's, the receiving accounts belong
/// to the hire's creator and to the marketplace's owner, the fee is at
/// most 100%, and the listing's count of hires can grow.
pub proof fn release_is_owed(ctx: ReleasePayment)
    requires
        ctx.hire.is_active,
        ctx.escrow_token_account == ctx.hire.escrow_token_account,
        ctx.npc_key == ctx.hire.npc,
        ctx.creator_token_account.owner == ctx.hire.creator,
        ctx.fee_token_account.owner == ctx.marketplace.authority,
        ctx.marketplace.wf(),
        ctx.npc.total_hires < u64::MAX,
    ensures
        release_payment_error(ctx) is None,
{
    fee_within_amount(ctx.hire.amount, ctx.marketplace.fee_percent);
}

/// An accepted release pays the right parties: the creator's share goes
/// into an account of the hire's creator, the fee into an account of the
/// marketplace's owner, both come out of the hire's escrow holding and of
/// no other account, and the listing that counts the hire is the one that
/// the hire names.
pub proof fn release_pays_the_right_parties(ctx: ReleasePayment)
    requires
        release_payment_error(ctx) is None,
    ensures
        ({
            let payout = release_payout(ctx);
            &&& payout.from == ctx.hire.escrow_token_account
            &&& payout.from == ctx.escrow_token_account
            &&& payout.to == ctx.creator_token_account.key
            &&& ctx.creator_token_account.owner == ctx.hire.creator
            &&& release_fee(ctx) matches Some(fee) ==> {
                &&& fee.from == ctx.hire.escrow_token_account
                &&& fee.to == ctx.fee_token_account.key
                &&& fee.authority == payout.authority
            }
            &&& ctx.fee_token_account.owner == ctx.marketplace.authority
            &&& ctx.npc_key == ctx.hire.npc
            &&& released(ctx).npc_key == ctx.hire.npc
            &&& released(ctx).npc.total_hires == ctx.npc.total_hires + 1
            &&& release_event(ctx).creator == ctx.hire.creator
        }),
{
}

/// The transfers that an accepted release asks for empty the hire's
/// escrow holding of exactly the hire's amount: together they carry the
/// amount, the fee is `amount * fee_percent / 10000` rounded down over all
/// integers, and the creator's share is the rest.
pub proof fn release_disburses_the_amount(ctx: ReleasePayment)
    requires
        release_payment_error(ctx) is None,
    ensures
        ({
            let payout = release_payout(ctx);
            let fee_amount: int = match release_fee(ctx) {
                Some(fee) => fee.amount as int,
                None => 0,
            };
            &&& fee_amount == (ctx.hire.amount * ctx.marketplace.fee_percent) / 10000
            &&& payout.amount == ctx.hire.amount - fee_amount
            &&& payout.amount + fee_amount == ctx.hire.amount
            &&& release_event(ctx).amount == payout.amount
            &&& release_event(ctx).fee == fee_amount
        }),
{
    assert(0 <= ctx.hire.amount * ctx.marketplace.fee_percent) by (nonlinear_arith)
        requires
            0 <= ctx.hire.amount,
            0 <= ctx.marketplace.fee_percent,
    ;
}

/// A release happens once: it takes an active hire to one that is not
/// active, and a second release of that hire is refused because the hire
/// is not active.
pub proof fn release_happens_once(ctx: ReleasePayment)
    requires
        release_payment_error(ctx) is None,
    ensures
        ctx.hire.is_active,
        !released(ctx).hire.is_active,
        release_payment_error(released(ctx)) == Some(NpcForgeError::HireNotActive),
{
}

/// A released hire stays released: no release of it is accepted, a review
/// leaves the hire as it is, and what a release leaves behind is never an
/// active hire.
pub proof fn released_is_terminal(
    release: ReleasePayment,
    review: SubmitReview,
    rating: u8,
    comment: String,
    now: i64,
)
    ensures
        !release.hire.is_active ==> release_payment_error(release) == Some(
            NpcForgeError::HireNotActive,
        ),
        !released(release).hire.is_active,
        reviewed(review, rating, comment, now).hire == review.hire,
{
}

/// An accepted release changes nothing of the hire but its active flag,
/// and nothing of the listing but its count of hires, which grows by one.
pub proof fn release_keeps_the_records(ctx: ReleasePayment)
    requires
        release_payment_error(ctx) is None,
    ensures
        ({
            let after = released(ctx);
            &&& after.hire.amount == ctx.hire.amount
            &&& after.hire.developer == ctx.hire.developer
            &&& after.hire.creator == ctx.hire.creator
            &&& after.hire.npc == ctx.hire.npc
            &&& after.hire.escrow_token_account == ctx.hire.escrow_token_account
            &&& after.hire.created_at == ctx.hire.created_at
            &&& after.hire.expires_at == ctx.hire.expires_at
            &&& ctx.hire.wf() ==> after.hire.wf()
            &&& after.npc.total_hires == ctx.npc.total_hires + 1
            &&& after.npc.rating_sum == ctx.npc.rating_sum
            &&& after.npc.rating_count == ctx.npc.rating_count
            &&& after.npc.price_per_interaction == ctx.npc.price_per_interaction
            &&& after.npc.monthly_price == ctx.npc.monthly_price
            &&& after.npc.is_active == ctx.npc.is_active
            &&& after.npc.creator == ctx.npc.creator
            &&& ctx.npc.wf() ==> after.npc.wf()
            &&& after.marketplace == ctx.marketplace
        }),
{
}

/// A review is accepted whenever the hire has no review yet, the listing
/// handed in is the one that the hire names, the rating is one of 1 to 5,
/// the comment has at most 500 characters, the hire's payment has been
/// released, and the listing's totals can grow by the review.
pub proof fn review_is_owed(ctx: SubmitReview, rating: u8, comment: String)
    requires
        ctx.review is None,
        ctx.npc_key == ctx.hire.npc,
        MIN_RATING <= rating <= MAX_RATING,
        comment@.len() <= MAX_COMMENT_LEN,
        !ctx.hire.is_active,
        ctx.npc.rating_sum + rating <= u32::MAX,
        ctx.npc.rating_count < u32::MAX,
    ensures
        submit_review_error(ctx, rating, comment) is None,
{
}

/// A review is accepted only of a hire that is no longer active. An
/// accepted review is well formed, makes the listing's number of reviews
/// grow by one and its sum of ratings by the rating, changes nothing else
/// of the listing, and leaves the hire as it was.
pub proof fn review_needs_release(ctx: SubmitReview, rating: u8, comment: String, now: i64)
    requires
        submit_review_error(ctx, rating, comment) is None,
    ensures
        ({
            let after = reviewed(ctx, rating, comment, now);
            &&& !ctx.hire.is_active
            &&& MIN_RATING <= rating <= MAX_RATING
            &&& after.npc.rating_count == ctx.npc.rating_count + 1
            &&& after.npc.rating_sum == ctx.npc.rating_sum + rating
            &&& after.npc.total_hires == ctx.npc.total_hires
            &&& after.npc.price_per_interaction == ctx.npc.price_per_interaction
            &&& after.npc.monthly_price == ctx.npc.monthly_price
            &&& after.npc.is_active == ctx.npc.is_active
            &&& after.npc.creator == ctx.npc.creator
            &&& ctx.npc.wf() ==> after.npc.wf()
            &&& after.hire == ctx.hire
            &&& after.review matches Some(review) && review.wf() && review.hire == ctx.hire_key
                && review.rating == rating
        }),
{
}

/// An accepted review raises the totals of the listing that the hire
/// names, and of no other: the listing whose totals grow stands at the
/// address that the hire holds, and the review that is stored names that
/// same address.
pub proof fn review_credits_the_hired_listing(
    ctx: SubmitReview,
    rating: u8,
    comment: String,
    now: i64,
)
    requires
        submit_review_error(ctx, rating, comment) is None,
    ensures
        ({
            let after = reviewed(ctx, rating, comment, now);
            &&& ctx.npc_key == ctx.hire.npc
            &&& after.npc_key == ctx.hire.npc
            &&& after.review matches Some(review) && review.npc == after.npc_key
            &&& after.npc.rating_sum == ctx.npc.rating_sum + rating
            &&& after.npc.rating_count == ctx.npc.rating_count + 1
        }),
{
}

/// A review that comes with a listing other than the one that the hire
/// names is refused; where nothing else is at fault, for that reason.
pub proof fn review_of_another_listing_is_refused(ctx: SubmitReview, rating: u8, comment: String)
    requires
        ctx.npc_key != ctx.hire.npc,
    ensures
        submit_review_error(ctx, rating, comment) is Some,
        (ctx.review is None && MIN_RATING <= rating <= MAX_RATING && comment@.len()
            <= MAX_COMMENT_LEN && !ctx.hire.is_active) ==> submit_review_error(
            ctx,
            rating,
            comment,
        ) == Some(NpcForgeError::NpcMismatch),
{
}

/// A review of a hire that has none is refused for its rating exactly if
/// the rating is not one of 1 to 5, and, with a rating in order, for its
/// comment exactly if the comment has more than 500 characters, whatever
/// listing and whatever hire come with it.
pub proof fn review_names_what_is_wrong(ctx: SubmitReview, rating: u8, comment: String)
    requires
        ctx.review is None,
    ensures
        submit_review_error(ctx, rating, comment) == Some(NpcForgeError::InvalidRating) <==> !(
        MIN_RATING <= rating <= MAX_RATING),
        submit_review_error(ctx, rating, comment) == Some(NpcForgeError::CommentTooLong) <==> (
        MIN_RATING <= rating <= MAX_RATING && comment@.len() > MAX_COMMENT_LEN),
        submit_review_error(ctx, rating, comment) == Some(NpcForgeError::HireStillActive) <==> (
        MIN_RATING <= rating <= MAX_RATING && comment@.len() <= MAX_COMMENT_LEN
            && ctx.hire.is_active),
{
}

/// While a hire is active every review of it is refused; with a rating
/// and a comment in order, and no review yet, because the hire is still
/// active.
pub proof fn active_hire_takes_no_review(ctx: SubmitReview, rating: u8, comment: String)
    requires
        ctx.hire.is_active,
    ensures
        submit_review_error(ctx, rating, comment) is Some,
        (ctx.review is None && MIN_RATING <= rating <= MAX_RATING && comment@.len()
            <= MAX_COMMENT_LEN) ==> submit_review_error(ctx, rating, comment) == Some(
            NpcForgeError::HireStillActive,
        ),
{
}

/// A hire has at most one review: once a review is accepted, every
/// further review of that hire is refused because one exists.
pub proof fn second_review_is_refused(
    ctx: SubmitReview,
    rating: u8,
    comment: String,
    now: i64,
    next_rating: u8,
    next_comment: String,
)
    requires
        submit_review_error(ctx, rating, comment) is None,
    ensures
        submit_review_error(reviewed(ctx, rating, comment, now), next_rating, next_comment)
            == Some(NpcForgeError::AlreadyExists),
{
}

/// The path of a hire: as made it is active, so that a release of it is
/// not refused for its state and a review of it is; once released it can
/// be reviewed and cannot be released again.
pub proof fn hire_is_released_then_reviewed(
    ctx: HireNpc,
    hire_type: HireType,
    duration_months: Option<u8>,
    now: i64,
    release: ReleasePayment,
    review: SubmitReview,
    rating: u8,
    comment: String,
)
    requires
        hire_npc_error(ctx, hire_type, duration_months, now) is None,
        release.hire == new_hire(ctx, hire_type, duration_months, now),
        review.review is None,
        review.npc_key == ctx.npc_key,
        MIN_RATING <= rating <= MAX_RATING,
        comment@.len() <= MAX_COMMENT_LEN,
        review.npc.rating_sum + rating <= u32::MAX,
        review.npc.rating_count < u32::MAX,
    ensures
        release_payment_error(release) != Some(NpcForgeError::HireNotActive),
        review.hire == release.hire ==> submit_review_error(review, rating, comment) == Some(
            NpcForgeError::HireStillActive,
        ),
        review.hire == released(release).hire ==> submit_review_error(review, rating, comment)
            is None,
        release_payment_error(released(release)) == Some(NpcForgeError::HireNotActive),
{
}

/// The seeds that sign for a hire's escrow holding sign for no other
/// hire's: equal seeds belong to the same hire.
pub proof fn signer_seeds_name_one_hire(first: Pubkey, first_bump: u8, second: Pubkey, second_bump: u8)
    requires
        escrow_signer_seeds_spec(first, first_bump) == escrow_signer_seeds_spec(
            second,
            second_bump,
        ),
    ensures
        first == second,
        first_bump == second_bump,
{
    let a = escrow_signer_seeds_spec(first, first_bump);
    let b = escrow_signer_seeds_spec(second, second_bump);
    assert(a[1] == first@);
    assert(b[1] == second@);
    assert(a[2][0] == first_bump);
    assert(b[2][0] == second_bump);
    pubkey_view_injective(first, second);
}

} // verus!
