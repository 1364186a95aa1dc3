//! Field-size limits, rate-limiting parameters, and status codes shared by
//! the whole engine.

use vstd::prelude::*;

verus! {

// Content limits (all in bytes of the UTF-8 encoding).
pub const MAX_USERNAME_LENGTH: usize = 50;

pub const MAX_BIO_LENGTH: usize = 500;

pub const MAX_TITLE_LENGTH: usize = 200;

pub const MAX_CONTENT_LENGTH: usize = 10000;

pub const MAX_KEYWORDS_LENGTH: usize = 200;

pub const MAX_CATEGORY_LENGTH: usize = 50;

pub const MAX_URL_LENGTH: usize = 200;

// Looser limits used by the profile bulk edit.
pub const MAX_PROFILE_USERNAME_LENGTH: usize = 256;

pub const MAX_PROFILE_BIO_LENGTH: usize = 1024;

// Rate limiting.
pub const MAX_POSTS_PER_DAY: u32 = 10;

/// Minimum spacing between two posts of one owner, in seconds.
pub const MIN_TIME_BETWEEN_POSTS: i64 = 3600;

/// Length of the rolling rate window, in seconds.
pub const RATE_WINDOW_SECONDS: i64 = 86400;

// Reputation.
pub const INITIAL_REPUTATION_SCORE: i32 = 0;

pub const REPUTATION_THRESHOLD_FOR_MODERATION: i32 = 100;

// Status flags of a blog post.
pub const STATUS_PENDING: u8 = 0;

pub const STATUS_ACTIVE: u8 = 1;

pub const STATUS_REJECTED: u8 = 2;

pub const STATUS_LOCKED: u8 = 3;

// Status codes of a vote.
pub const VOTE_NONE: u8 = 0;

pub const VOTE_UP: u8 = 1;

pub const VOTE_DOWN: u8 = 2;

} // verus!
