//! The rating aggregator: a released hire may be reviewed once, and each
//! review adds to the totals of its listing.

use vstd::prelude::*;
use vstd::string::*;
use crate::error::NpcForgeError;
use crate::pubkey::Pubkey;
use crate::state::{Hire, Npc, Review, MAX_COMMENT_LEN, MAX_RATING, MIN_RATING};

verus! {

/// The notice that a review was submitted.
#[derive(Clone, Copy, Debug, PartialEq, Eq)]
pub struct ReviewSubmitted {
    pub review_id: Pubkey,
    pub npc_id: Pubkey,
    pub reviewer: Pubkey,
    pub rating: u8,
}

/// What a review works on: the listing, the hire, the place of the hire's
/// review, and its author.
#[derive(Clone, Debug, PartialEq, Eq)]
pub struct SubmitReview {
    /// The listing's address. It has to be the one that the hire names.
    pub npc_key: Pubkey,
    /// The listing that is reviewed: the record at `npc_key`.
    pub npc: Npc,
    /// The hire's address.
    pub hire_key: Pubkey,
    /// The hire that the review is about.
    pub hire: Hire,
    /// The address of the hire's review.
    pub review_key: Pubkey,
    /// The place of the hire's one review: none until it is submitted.
    pub review: Option<Review>,
    /// Who writes the review.
    pub reviewer: Pubkey,
}

/// Why a review is refused, if it is. The first reason that applies
/// counts: the hire has a review already; the rating is not one of 1 to 5;
/// the comment has more than 500 characters; the hire's payment has not
/// been released; the listing handed in is not the one that the hire
/// names; the listing's totals cannot grow by the review.
pub open spec fn submit_review_error(ctx: SubmitReview, rating: u8, comment: String) -> Option<
    NpcForgeError,
> {
    if ctx.review is Some {
        Some(NpcForgeError::AlreadyExists)
    } else if !(MIN_RATING <= rating <= MAX_RATING) {
        Some(NpcForgeError::InvalidRating)
    } else if comment@.len() > MAX_COMMENT_LEN {
        Some(NpcForgeError::CommentTooLong)
    } else if ctx.hire.is_active {
        Some(NpcForgeError::HireStillActive)
    } else if ctx.npc_key != ctx.hire.npc {
        Some(NpcForgeError::NpcMismatch)
    } else if ctx.npc.rating_sum + rating > u32::MAX || ctx.npc.rating_count == u32::MAX {
        Some(NpcForgeError::ArithmeticOverflow)
    } else {
        None
    }
}

/// What an accepted review leaves behind: the review is in its place, the
/// listing's sum of ratings has grown by the rating and its number of
/// reviews by one. Nothing else has changed.
pub open spec fn reviewed(ctx: SubmitReview, rating: u8, comment: String, now: i64) -> SubmitReview {
    SubmitReview {
        npc: Npc {
            rating_sum: (ctx.npc.rating_sum + rating) as u32,
            rating_count: (ctx.npc.rating_count + 1) as u32,
            ..ctx.npc
        },
        review: Some(
            Review {
                reviewer: ctx.reviewer,
                npc: ctx.hire.npc,
                hire: ctx.hire_key,
                rating,
                comment,
                created_at: now,
            },
        ),
        ..ctx
    }
}

/// Says whether a review would be accepted, and why not if not. It
/// changes nothing.
pub fn check_review(ctx: &SubmitReview, rating: u8, comment: &String) -> (result: Result<
    (),
    NpcForgeError,
>)
    ensures
        match result {
            Ok(_) => submit_review_error(*ctx, rating, *comment) is None,
            Err(error) => submit_review_error(*ctx, rating, *comment) == Some(error),
        },
{
    if ctx.review.is_some() {
        return Err(NpcForgeError::AlreadyExists);
    }
    if rating < MIN_RATING || rating > MAX_RATING {
        return Err(NpcForgeError::InvalidRating);
    }
    if comment.as_str().unicode_len() > MAX_COMMENT_LEN {
        return Err(NpcForgeError::CommentTooLong);
    }
    if ctx.hire.is_active {
        return Err(NpcForgeError::HireStillActive);
    }
    if ctx.npc_key != ctx.hire.npc {
        return Err(NpcForgeError::NpcMismatch);
    }
    if ctx.npc.rating_sum > u32::MAX - (rating as u32) || ctx.npc.rating_count == u32::MAX {
        return Err(NpcForgeError::ArithmeticOverflow);
    }
    Ok(())
}

/// Submits the review of a hire at the time `now`, in seconds.
///
/// The review is refused as `submit_review_error` says, and then nothing
/// changes. Otherwise the review is put in its place, and the sum of
/// ratings of the listing that the hire names grows by `rating` and its
/// number of reviews by one.
pub fn submit_review(ctx: &mut SubmitReview, rating: u8, comment: String, now: i64) -> (result:
    Result<ReviewSubmitted, NpcForgeError>)
    ensures
        match result {
            Ok(event) => {
                &&& submit_review_error(*old(ctx), rating, comment) is None
                &&& *final(ctx) == reviewed(*old(ctx), rating, comment, now)
                &&& event == (ReviewSubmitted {
                    review_id: old(ctx).review_key,
                    npc_id: old(ctx).npc_key,
                    reviewer: old(ctx).reviewer,
                    rating,
                })
            },
            Err(error) => {
                &&& submit_review_error(*old(ctx), rating, comment) == Some(error)
                &&& *final(ctx) == *old(ctx)
            },
        },
{
    match check_review(ctx, rating, &comment) {
        Ok(_) => {},
        Err(error) => {
            return Err(error);
        },
    }
    ctx.review = Some(
        Review {
            reviewer: ctx.reviewer,
            npc: ctx.hire.npc,
            hire: ctx.hire_key,
            rating,
            comment,
            created_at: now,
        },
    );
    ctx.npc.rating_sum = ctx.npc.rating_sum + (rating as u32);
    ctx.npc.rating_count = ctx.npc.rating_count + 1;
    Ok(
        ReviewSubmitted {
            review_id: ctx.review_key,
            npc_id: ctx.npc_key,
            reviewer: ctx.reviewer,
            rating,
        },
    )
}

} // verus!
