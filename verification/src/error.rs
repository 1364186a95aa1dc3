//! The typed failures of the engine. Every operation returns one of these
//! synchronously; none is transient, and a failing operation leaves all the
//! records it touched unchanged.

use vstd::prelude::*;

verus! {

#[derive(Clone, Copy, Debug, PartialEq, Eq, Structural)]
pub enum CaterpillarError {
    /// No profile exists for the acting identity.
    UserProfileNotFound,
    /// Blog post creation failed for a reason the storage layer reported.
    BlogPostCreationFailed,
    /// The username is too long.
    UsernameTooLong,
    /// The username is empty.
    UsernameEmpty,
    /// The username holds a character that is not alphanumeric, `_` or `-`.
    InvalidUsernameFormat,
    /// The bio is too long.
    BioTooLong,
    /// The title is too long.
    TitleTooLong,
    /// The title is empty.
    TitleEmpty,
    /// The content is too long.
    ContentTooLong,
    /// The content is empty.
    ContentEmpty,
    /// The URL is too long.
    UrlTooLong,
    /// The URL does not start with `http://` or `https://`.
    InvalidUrlFormat,
    /// The category is too long.
    CategoryTooLong,
    /// The category is empty.
    CategoryEmpty,
    /// The keywords are too long.
    KeywordsTooLong,
    /// The daily cap is reached or the minimum inter-post spacing is not met.
    RateLimitExceeded,
    /// The owner's profile is banned.
    UserBanned,
    /// The caller is not the owner (or voter) of the record it edits.
    InsufficientPermissions,
    /// The post is locked.
    PostLocked,
    /// The NFT collection address is invalid.
    InvalidNFTCollectionAddress,
    /// An NFT collection address was supplied empty or whitespace-only where
    /// a non-empty one is required.
    NFTCollectionAddressNull,
    /// The profile username exceeds the bulk-edit limit.
    UserNameTooLong,
    /// The profile bio exceeds the bulk-edit limit.
    UserBioTooLong,
    /// A tally decrement would take a counter below zero.
    ArithmeticUnderflow,
    /// The operation is not allowed.
    OperationNotAllowed,
}

} // verus!
