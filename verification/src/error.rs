//! The reasons for which an operation is refused.

use vstd::prelude::*;

verus! {

/// Why an operation was refused. A refused operation changes nothing.
#[derive(Clone, Copy, Debug, PartialEq, Eq, Structural, Hash)]
pub enum NpcForgeError {
    /// The listing's name has more than 50 characters.
    NameTooLong,
    /// The listing's description has more than 500 characters.
    DescriptionTooLong,
    /// The listing's endpoint has more than 200 characters.
    EndpointTooLong,
    /// Both prices of a new listing are zero, or the amount of a hire is zero.
    InvalidPrice,
    /// The listing does not accept hires.
    NpcNotActive,
    /// The hire's escrow has been released already.
    HireNotActive,
    /// The hire's escrow has not been released yet.
    HireStillActive,
    /// The rating is not one of 1 to 5.
    InvalidRating,
    /// The review's comment has more than 500 characters.
    CommentTooLong,
    /// A monthly hire has no duration, or one that is not 1 to 12 months.
    InvalidDuration,
    /// The listing has more than 10 capabilities.
    TooManyCapabilities,
    /// One of the listing's capabilities has more than 50 characters.
    CapabilityTooLong,
    /// The record to create exists already.
    AlreadyExists,
    /// The caller is not the listing's creator.
    Unauthorized,
    /// The listing handed in is not the one that the hire names.
    NpcMismatch,
    /// The escrow account handed in is not the one that holds the hire's
    /// payment.
    EscrowAccountMismatch,
    /// The account to pay the creator's share into does not belong to the
    /// hire's creator.
    CreatorAccountMismatch,
    /// The account to pay the fee into does not belong to the marketplace's
    /// owner.
    FeeAccountMismatch,
    /// A count, an amount or a time would no longer fit in its field.
    ArithmeticOverflow,
}

impl NpcForgeError {
    /// The text that describes each error.
    pub open spec fn message_text(self) -> Seq<char> {
        match self {
            NpcForgeError::NameTooLong => "Name too long (max 50 characters)"@,
            NpcForgeError::DescriptionTooLong => "Description too long (max 500 characters)"@,
            NpcForgeError::EndpointTooLong => "API endpoint too long (max 200 characters)"@,
            NpcForgeError::InvalidPrice => "Invalid price - must be greater than 0"@,
            NpcForgeError::NpcNotActive => "NPC is not active"@,
            NpcForgeError::HireNotActive => "Hire is not active"@,
            NpcForgeError::HireStillActive => "Hire is still active"@,
            NpcForgeError::InvalidRating => "Invalid rating - must be 1-5"@,
            NpcForgeError::CommentTooLong => "Comment too long (max 500 characters)"@,
            NpcForgeError::InvalidDuration => "Invalid duration - must be 1-12 months"@,
            NpcForgeError::TooManyCapabilities => "Too many capabilities (max 10)"@,
            NpcForgeError::CapabilityTooLong => "Capability too long (max 50 characters)"@,
            NpcForgeError::AlreadyExists => "Record already exists"@,
            NpcForgeError::Unauthorized => "Caller is not the creator"@,
            NpcForgeError::NpcMismatch => "NPC is not the one that was hired"@,
            NpcForgeError::EscrowAccountMismatch => "Escrow account is not the one of the hire"@,
            NpcForgeError::CreatorAccountMismatch => "Creator account does not belong to the creator"@,
            NpcForgeError::FeeAccountMismatch => "Fee account does not belong to the marketplace"@,
            NpcForgeError::ArithmeticOverflow => "Arithmetic overflow"@,
        }
    }

    /// A description of the error for people to read.
    pub fn message(&self) -> (text: &'static str)
        ensures
            text@ == self.message_text(),
    {
        match self {
            NpcForgeError::NameTooLong => "Name too long (max 50 characters)",
            NpcForgeError::DescriptionTooLong => "Description too long (max 500 characters)",
            NpcForgeError::EndpointTooLong => "API endpoint too long (max 200 characters)",
            NpcForgeError::InvalidPrice => "Invalid price - must be greater than 0",
            NpcForgeError::NpcNotActive => "NPC is not active",
            NpcForgeError::HireNotActive => "Hire is not active",
            NpcForgeError::HireStillActive => "Hire is still active",
            NpcForgeError::InvalidRating => "Invalid rating - must be 1-5",
            NpcForgeError::CommentTooLong => "Comment too long (max 500 characters)",
            NpcForgeError::InvalidDuration => "Invalid duration - must be 1-12 months",
            NpcForgeError::TooManyCapabilities => "Too many capabilities (max 10)",
            NpcForgeError::CapabilityTooLong => "Capability too long (max 50 characters)",
            NpcForgeError::AlreadyExists => "Record already exists",
            NpcForgeError::Unauthorized => "Caller is not the creator",
            NpcForgeError::NpcMismatch => "NPC is not the one that was hired",
            NpcForgeError::EscrowAccountMismatch => "Escrow account is not the one of the hire",
            NpcForgeError::CreatorAccountMismatch => "Creator account does not belong to the creator",
            NpcForgeError::FeeAccountMismatch => "Fee account does not belong to the marketplace",
            NpcForgeError::ArithmeticOverflow => "Arithmetic overflow",
        }
    }
}

} // verus!
