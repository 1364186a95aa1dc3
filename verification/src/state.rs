//! The records of the store and the deterministic keys that address them.
//!
//! An [`Address`] stands for an identity of the hosting environment (an
//! account key); the engine only ever compares addresses for equality, so it
//! carries them as opaque numeric identifiers. A [`PostKey`] is the
//! deterministic key of a blog post: the owner together with the owner's
//! post count at creation time. Any party can recompute it without a lookup,
//! so there is at most one record per key.

use vstd::prelude::*;

verus! {

/// An identity of the hosting environment, opaque to the engine.
#[derive(Clone, Copy, Debug, Hash, PartialEq, Eq, Structural)]
pub struct Address {
    pub id: u64,
}

/// The deterministic key of a blog post: the owner identity and the owner's
/// post count at creation time.
#[derive(Clone, Copy, Debug, Hash, PartialEq, Eq, Structural)]
pub struct PostKey {
    pub owner: Address,
    pub seq: u32,
}

/// One profile per owner identity. `post_count` only increases, and
/// `is_banned` gates all content creation.
#[derive(Clone, Debug)]
pub struct UserProfile {
    pub owner: Address,
    pub avatar: String,
    pub username: String,
    pub walletaddress: String,
    pub twitterlink: String,
    pub externallink: String,
    pub bio: String,
    pub post_count: u32,
    pub reputation_score: i32,
    pub is_banned: bool,
    pub created_at: i64,
}

/// The per-owner fixed-window post-frequency guard, consulted before every
/// post creation.
#[derive(Clone, Copy, Debug)]
pub struct RateLimit {
    pub user: Address,
    pub last_post_time: i64,
    pub post_count_24h: u32,
    pub last_reset_time: i64,
}

/// A blog post, keyed by (owner, sequence number). The owner is immutable
/// after creation; `ntotalcollecter` only increases through the collector
/// registry, and `upvote`/`downvote` are mutated only by the voting ledger
/// or the explicit edit operations.
#[derive(Clone, Debug)]
pub struct BlogPost {
    pub owner: Address,
    pub coverimage: String,
    pub title: String,
    pub content: String,
    pub category: String,
    pub upvote: u32,
    pub downvote: u32,
    pub keywords: String,
    pub walletaddress: String,
    pub status: u8,
    pub nftcollectionaddress: String,
    pub ntotalcollecter: u8,
    pub created_at: i64,
    pub last_edited_at: i64,
    pub is_locked: bool,
}

/// An attribution record, keyed by (post key, index), where the index is the
/// post's `ntotalcollecter` at creation time.
#[derive(Clone, Debug)]
pub struct CollectorInfo {
    pub blog_post: PostKey,
    pub collector: Address,
    pub avatar: String,
    pub username: String,
    pub _id: String,
    pub walletaddress: String,
    pub nft_mint_address: String,
    pub created_at: i64,
}

/// One vote per (post key, voter identity). The status is 0 (none),
/// 1 (up) or 2 (down).
#[derive(Clone, Copy, Debug)]
pub struct VoteInfo {
    pub blog_post: PostKey,
    pub voter: Address,
    pub status: u8,
    pub created_at: i64,
    pub last_updated_at: i64,
}

/// The moderation verdict on a post, present only if moderation has
/// occurred; the content-creation path never touches it.
#[derive(Clone, Debug)]
pub struct ModerationStatus {
    pub post: PostKey,
    pub status: u8,
    pub moderator: Option<Address>,
    pub reason: String,
    pub timestamp: i64,
}

} // verus!
