//! The identity store: one [`UserProfile`] per owner identity.
//!
//! Creation initializes every text field to empty and the counters to their
//! starting values; the storage layer, not this engine, rejects a second
//! creation at the same key. The bulk edit overwrites all five editable
//! fields unconditionally — a caller that wants to keep a field must
//! resupply its previous value.

use vstd::prelude::*;

use crate::constant::{
    INITIAL_REPUTATION_SCORE, MAX_PROFILE_BIO_LENGTH, MAX_PROFILE_USERNAME_LENGTH,
};
use crate::error::CaterpillarError;
use crate::state::{Address, UserProfile};
use crate::text::byte_len;

verus! {

/// The records and identities a profile creation touches: the fresh profile
/// slot the storage layer reserved for the author's key, and the author.
pub struct CreateUserProfile {
    pub user_profile: UserProfile,
    pub author: Address,
}

/// The records and identities a profile edit touches.
pub struct EditUserProfile {
    pub user_profile: UserProfile,
    pub owner: Address,
}

/// The outcome of the bulk profile edit for a caller `owner` acting on
/// `profile`: the caller must own the profile, a non-empty username is
/// capped at 256 bytes, and a non-empty bio at 1024 bytes.
pub open spec fn edit_profile_check(
    profile: UserProfile,
    owner: Address,
    username: Seq<char>,
    bio: Seq<char>,
) -> Result<(), CaterpillarError> {
    if profile.owner != owner {
        Err(CaterpillarError::InsufficientPermissions)
    } else if byte_len(username) > MAX_PROFILE_USERNAME_LENGTH {
        Err(CaterpillarError::UserNameTooLong)
    } else if byte_len(bio) > MAX_PROFILE_BIO_LENGTH {
        Err(CaterpillarError::UserBioTooLong)
    } else {
        Ok(())
    }
}

/// Initializes the author's profile: every text field empty but the wallet
/// address, no posts, the starting reputation, not banned, created at `now`.
/// Uniqueness per owner is the storage layer's create-if-absent guarantee.
pub fn create_user_profile(
    ctx: &mut CreateUserProfile,
    walletaddress: String,
    now: i64,
) -> (r: Result<(), CaterpillarError>)
    ensures
        r == Ok::<(), CaterpillarError>(()),
        final(ctx).author == old(ctx).author,
        final(ctx).user_profile.owner == old(ctx).author,
        final(ctx).user_profile.avatar@.len() == 0,
        final(ctx).user_profile.username@.len() == 0,
        final(ctx).user_profile.walletaddress@ == walletaddress@,
        final(ctx).user_profile.twitterlink@.len() == 0,
        final(ctx).user_profile.externallink@.len() == 0,
        final(ctx).user_profile.bio@.len() == 0,
        final(ctx).user_profile.post_count == 0,
        final(ctx).user_profile.reputation_score == INITIAL_REPUTATION_SCORE,
        final(ctx).user_profile.is_banned == false,
        final(ctx).user_profile.created_at == now,
{
    let user_profile = &mut ctx.user_profile;
    user_profile.avatar = String::new();
    user_profile.username = String::new();
    user_profile.walletaddress = walletaddress;
    user_profile.twitterlink = String::new();
    user_profile.externallink = String::new();
    user_profile.bio = String::new();
    user_profile.owner = ctx.author;
    user_profile.post_count = 0;
    user_profile.reputation_score = INITIAL_REPUTATION_SCORE;
    user_profile.is_banned = false;
    user_profile.created_at = now;
    Ok(())
}

/// Overwrites the five editable profile fields with the supplied values —
/// full overwrite, no merge. Only the profile owner may edit; an over-long
/// username or bio is rejected and the profile is left unchanged.
pub fn edit_user_profile(
    ctx: &mut EditUserProfile,
    avatar: String,
    username: String,
    twitterlink: String,
    externallink: String,
    bio: String,
) -> (r: Result<(), CaterpillarError>)
    ensures
        r == edit_profile_check(old(ctx).user_profile, old(ctx).owner, username@, bio@),
        final(ctx).owner == old(ctx).owner,
        r is Err ==> final(ctx).user_profile == old(ctx).user_profile,
        r is Ok ==> final(ctx).user_profile == (UserProfile {
            avatar,
            username,
            twitterlink,
            externallink,
            bio,
            ..old(ctx).user_profile
        }),
{
    if ctx.owner != ctx.user_profile.owner {
        return Err(CaterpillarError::InsufficientPermissions);
    }
    if username.as_str().as_bytes().len() > MAX_PROFILE_USERNAME_LENGTH {
        return Err(CaterpillarError::UserNameTooLong);
    }
    if bio.as_str().as_bytes().len() > MAX_PROFILE_BIO_LENGTH {
        return Err(CaterpillarError::UserBioTooLong);
    }
    let user_profile = &mut ctx.user_profile;
    user_profile.avatar = avatar;
    user_profile.username = username;
    user_profile.twitterlink = twitterlink;
    user_profile.externallink = externallink;
    user_profile.bio = bio;
    Ok(())
}

} // verus!
