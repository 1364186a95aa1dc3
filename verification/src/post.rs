//! The content store: creation and edit of [`BlogPost`] records.
//!
//! Post creation is the only operation that consults the rate limiter. It
//! checks, in order: that the acting identity owns the profile, that the
//! owner is not banned, the field validations (title, content, category,
//! keywords, cover URL), and the rate window; the first failure is returned
//! and nothing is changed. On success the post is written at the
//! deterministic key (owner, owner's post count), the profile's post count
//! and the rate window advance, and the creation event is handed back for
//! the host's event sink.

use vstd::prelude::*;

use crate::constant::{MIN_TIME_BETWEEN_POSTS, RATE_WINDOW_SECONDS, STATUS_PENDING};
use crate::error::CaterpillarError;
use crate::rate_limit::{
    check_rate_limit, clock_consistent, lemma_daily_cap_blocks, lemma_minimum_spacing_blocks,
    lemma_window_rollover_resets, rate_limit_commit, rate_limit_ok, run_rate_checks,
};
use crate::state::{Address, BlogPost, PostKey, RateLimit, UserProfile};
use crate::text::{blank, is_blank};
use crate::validation::{
    category_check, content_check, keywords_check, title_check, url_check, validate_category,
    validate_content, validate_keywords, validate_title, validate_url,
};

verus! {

/// The records and identities a post creation touches: the fresh post slot
/// the storage layer reserved at (owner, post count), the owner, and the
/// owner's profile and rate-limit records.
pub struct CreateBlogPost {
    pub blog_post: BlogPost,
    pub owner: Address,
    pub user_profile: UserProfile,
    pub rate_limit: RateLimit,
}

/// The event emitted on post creation, handed to the host's event sink —
/// fire and forget, not required for correctness of state.
#[derive(Clone, Debug)]
pub struct BlogPostCreated {
    pub owner: Address,
    pub post_id: PostKey,
    pub title: String,
    pub timestamp: i64,
}

/// The records and identities the bulk post edit touches.
pub struct EditBlogPost {
    pub blog_post: BlogPost,
    pub owner: Address,
}

/// The record the NFT-collection-address setter touches. This setter is the
/// one post edit without an ownership check — an asymmetry kept from the
/// operation set's design.
pub struct EditBlogNftCollectionAddress {
    pub blog_post: BlogPost,
}

/// The records and identities the collector-count setter touches.
pub struct EditBlogNTotalCollecter {
    pub blog_post: BlogPost,
    pub owner: Address,
}

/// The records and identities the upvote setter touches.
pub struct EditBlogUpvote {
    pub blog_post: BlogPost,
    pub owner: Address,
}

/// The records and identities the downvote setter touches.
pub struct EditBlogDownvote {
    pub blog_post: BlogPost,
    pub owner: Address,
}

/// The outcome of a post creation attempt: the first failing check, in the
/// order ownership, ban, title, content, category, keywords, cover URL,
/// rate window; `Ok` when all pass.
pub open spec fn create_post_check(
    profile: UserProfile,
    rl: RateLimit,
    owner: Address,
    coverimage: Seq<char>,
    title: Seq<char>,
    content: Seq<char>,
    category: Seq<char>,
    keywords: Seq<char>,
    now: i64,
) -> Result<(), CaterpillarError> {
    if profile.owner != owner {
        Err(CaterpillarError::InsufficientPermissions)
    } else if profile.is_banned {
        Err(CaterpillarError::UserBanned)
    } else if title_check(title) is Err {
        title_check(title)
    } else if content_check(content) is Err {
        content_check(content)
    } else if category_check(category) is Err {
        category_check(category)
    } else if keywords_check(keywords) is Err {
        keywords_check(keywords)
    } else if url_check(coverimage) is Err {
        url_check(coverimage)
    } else if !rate_limit_ok(rl, now) {
        Err(CaterpillarError::RateLimitExceeded)
    } else {
        Ok(())
    }
}

/// Creates a blog post at the deterministic key (owner, owner's post
/// count). A banned owner is rejected before any validation or rate check;
/// the first failing check is returned and every record is left unchanged.
/// On success the post starts pending, unlocked, with empty NFT linkage and
/// zero tallies; the profile's post count and the rate window advance, and
/// the creation event is returned for the host's event sink.
pub fn create_blog_post(
    ctx: &mut CreateBlogPost,
    coverimage: String,
    title: String,
    content: String,
    category: String,
    keywords: String,
    walletaddress: String,
    now: i64,
) -> (r: Result<BlogPostCreated, CaterpillarError>)
    requires
        clock_consistent(old(ctx).rate_limit, now),
        old(ctx).user_profile.post_count < u32::MAX,
    ensures
        ({
            let chk = create_post_check(
                old(ctx).user_profile,
                old(ctx).rate_limit,
                old(ctx).owner,
                coverimage@,
                title@,
                content@,
                category@,
                keywords@,
                now,
            );
            &&& (r is Ok <==> chk is Ok)
            &&& r is Err ==> r->Err_0 == chk->Err_0 && *final(ctx) == *old(ctx)
            &&& r is Ok ==> {
                &&& final(ctx).owner == old(ctx).owner
                &&& final(ctx).user_profile == (UserProfile {
                    post_count: (old(ctx).user_profile.post_count + 1) as u32,
                    ..old(ctx).user_profile
                })
                &&& final(ctx).rate_limit == rate_limit_commit(old(ctx).rate_limit, now)
                &&& final(ctx).blog_post.owner == old(ctx).owner
                &&& final(ctx).blog_post.coverimage@ == coverimage@
                &&& final(ctx).blog_post.title@ == title@
                &&& final(ctx).blog_post.content@ == content@
                &&& final(ctx).blog_post.category@ == category@
                &&& final(ctx).blog_post.keywords@ == keywords@
                &&& final(ctx).blog_post.walletaddress@ == walletaddress@
                &&& final(ctx).blog_post.status == STATUS_PENDING
                &&& final(ctx).blog_post.nftcollectionaddress@.len() == 0
                &&& final(ctx).blog_post.ntotalcollecter == 0
                &&& final(ctx).blog_post.upvote == 0
                &&& final(ctx).blog_post.downvote == 0
                &&& final(ctx).blog_post.created_at == now
                &&& final(ctx).blog_post.last_edited_at == now
                &&& final(ctx).blog_post.is_locked == false
                &&& r->Ok_0.owner == old(ctx).owner
                &&& r->Ok_0.post_id == (PostKey {
                    owner: old(ctx).owner,
                    seq: old(ctx).user_profile.post_count,
                })
                &&& r->Ok_0.title@ == title@
                &&& r->Ok_0.timestamp == now
            }
        }),
{
    if ctx.owner != ctx.user_profile.owner {
        return Err(CaterpillarError::InsufficientPermissions);
    }
    if ctx.user_profile.is_banned {
        return Err(CaterpillarError::UserBanned);
    }
    if let Err(e) = validate_title(title.as_str()) {
        return Err(e);
    }
    if let Err(e) = validate_content(content.as_str()) {
        return Err(e);
    }
    if let Err(e) = validate_category(category.as_str()) {
        return Err(e);
    }
    if let Err(e) = validate_keywords(keywords.as_str()) {
        return Err(e);
    }
    if let Err(e) = validate_url(coverimage.as_str()) {
        return Err(e);
    }
    if let Err(e) = check_rate_limit(&mut ctx.rate_limit, now) {
        return Err(e);
    }
    let seq_number = ctx.user_profile.post_count;
    let blog_post = &mut ctx.blog_post;
    blog_post.owner = ctx.owner;
    blog_post.title = title.clone();
    blog_post.content = content;
    blog_post.category = category;
    blog_post.created_at = now;
    blog_post.last_edited_at = now;
    blog_post.coverimage = coverimage;
    blog_post.keywords = keywords;
    blog_post.walletaddress = walletaddress;
    blog_post.status = STATUS_PENDING;
    blog_post.nftcollectionaddress = String::new();
    blog_post.ntotalcollecter = 0;
    blog_post.upvote = 0;
    blog_post.downvote = 0;
    blog_post.is_locked = false;
    ctx.user_profile.post_count = seq_number + 1;
    Ok(
        BlogPostCreated {
            owner: ctx.owner,
            post_id: PostKey { owner: ctx.owner, seq: seq_number },
            title,
            timestamp: now,
        },
    )
}

/// The outcome of the bulk post edit: the caller must own the post and the
/// new NFT collection address must not be empty or whitespace-only.
pub open spec fn edit_post_check(
    post: BlogPost,
    owner: Address,
    nftcollectionaddress: Seq<char>,
) -> Result<(), CaterpillarError> {
    if post.owner != owner {
        Err(CaterpillarError::InsufficientPermissions)
    } else if blank(nftcollectionaddress) {
        Err(CaterpillarError::NFTCollectionAddressNull)
    } else {
        Ok(())
    }
}

/// The privileged bulk-correction path: overwrites the NFT collection
/// address, the collector count and both vote tallies unconditionally,
/// bypassing normal tally derivation. Owner-only; a blank address is
/// rejected and the post is left unchanged.
pub fn edit_blog_post(
    ctx: &mut EditBlogPost,
    nftcollectionaddress: String,
    ntotalcollecter: u8,
    upvote: u32,
    downvote: u32,
) -> (r: Result<(), CaterpillarError>)
    ensures
        r == edit_post_check(old(ctx).blog_post, old(ctx).owner, nftcollectionaddress@),
        final(ctx).owner == old(ctx).owner,
        r is Err ==> final(ctx).blog_post == old(ctx).blog_post,
        r is Ok ==> final(ctx).blog_post == (BlogPost {
            nftcollectionaddress,
            ntotalcollecter,
            upvote,
            downvote,
            ..old(ctx).blog_post
        }),
{
    if ctx.owner != ctx.blog_post.owner {
        return Err(CaterpillarError::InsufficientPermissions);
    }
    if is_blank(nftcollectionaddress.as_str()) {
        return Err(CaterpillarError::NFTCollectionAddressNull);
    }
    let blog_post = &mut ctx.blog_post;
    blog_post.nftcollectionaddress = nftcollectionaddress;
    blog_post.ntotalcollecter = ntotalcollecter;
    blog_post.upvote = upvote;
    blog_post.downvote = downvote;
    Ok(())
}

/// Sets the NFT collection address alone. A blank address is rejected;
/// no ownership check guards this setter (the asymmetry noted on the
/// context struct).
pub fn edit_blog_nftcollectionaddress(
    ctx: &mut EditBlogNftCollectionAddress,
    nftcollectionaddress: String,
) -> (r: Result<(), CaterpillarError>)
    ensures
        blank(nftcollectionaddress@) ==> r == Err::<(), CaterpillarError>(
            CaterpillarError::NFTCollectionAddressNull,
        ) && final(ctx).blog_post == old(ctx).blog_post,
        !blank(nftcollectionaddress@) ==> r == Ok::<(), CaterpillarError>(())
            && final(ctx).blog_post == (BlogPost {
            nftcollectionaddress,
            ..old(ctx).blog_post
        }),
{
    if is_blank(nftcollectionaddress.as_str()) {
        return Err(CaterpillarError::NFTCollectionAddressNull);
    }
    ctx.blog_post.nftcollectionaddress = nftcollectionaddress;
    Ok(())
}

/// Sets the collector count alone; owner-only.
pub fn edit_blog_ntotalcollecter(
    ctx: &mut EditBlogNTotalCollecter,
    ntotalcollecter: u8,
) -> (r: Result<(), CaterpillarError>)
    ensures
        final(ctx).owner == old(ctx).owner,
        old(ctx).owner != old(ctx).blog_post.owner ==> r == Err::<(), CaterpillarError>(
            CaterpillarError::InsufficientPermissions,
        ) && final(ctx).blog_post == old(ctx).blog_post,
        old(ctx).owner == old(ctx).blog_post.owner ==> r == Ok::<(), CaterpillarError>(())
            && final(ctx).blog_post == (BlogPost { ntotalcollecter, ..old(ctx).blog_post }),
{
    if ctx.owner != ctx.blog_post.owner {
        return Err(CaterpillarError::InsufficientPermissions);
    }
    ctx.blog_post.ntotalcollecter = ntotalcollecter;
    Ok(())
}

/// Sets the upvote tally alone; owner-only.
pub fn edit_blog_upvote(ctx: &mut EditBlogUpvote, upvote: u32) -> (r: Result<
    (),
    CaterpillarError,
>)
    ensures
        final(ctx).owner == old(ctx).owner,
        old(ctx).owner != old(ctx).blog_post.owner ==> r == Err::<(), CaterpillarError>(
            CaterpillarError::InsufficientPermissions,
        ) && final(ctx).blog_post == old(ctx).blog_post,
        old(ctx).owner == old(ctx).blog_post.owner ==> r == Ok::<(), CaterpillarError>(())
            && final(ctx).blog_post == (BlogPost { upvote, ..old(ctx).blog_post }),
{
    if ctx.owner != ctx.blog_post.owner {
        return Err(CaterpillarError::InsufficientPermissions);
    }
    ctx.blog_post.upvote = upvote;
    Ok(())
}

/// Sets the downvote tally alone; owner-only.
pub fn edit_blog_downvote(ctx: &mut EditBlogDownvote, downvote: u32) -> (r: Result<
    (),
    CaterpillarError,
>)
    ensures
        final(ctx).owner == old(ctx).owner,
        old(ctx).owner != old(ctx).blog_post.owner ==> r == Err::<(), CaterpillarError>(
            CaterpillarError::InsufficientPermissions,
        ) && final(ctx).blog_post == old(ctx).blog_post,
        old(ctx).owner == old(ctx).blog_post.owner ==> r == Ok::<(), CaterpillarError>(())
            && final(ctx).blog_post == (BlogPost { downvote, ..old(ctx).blog_post }),
{
    if ctx.owner != ctx.blog_post.owner {
        return Err(CaterpillarError::InsufficientPermissions);
    }
    ctx.blog_post.downvote = downvote;
    Ok(())
}

/// A second, otherwise-valid post creation by the same owner within the
/// minimum spacing of a successful one fails with the rate-limit error,
/// whatever the daily count: the first creation recorded its time in the
/// committed rate window.
pub proof fn lemma_second_create_too_soon(
    profile: UserProfile,
    rl: RateLimit,
    owner: Address,
    coverimage1: Seq<char>,
    title1: Seq<char>,
    content1: Seq<char>,
    category1: Seq<char>,
    keywords1: Seq<char>,
    now1: i64,
    coverimage2: Seq<char>,
    title2: Seq<char>,
    content2: Seq<char>,
    category2: Seq<char>,
    keywords2: Seq<char>,
    now2: i64,
)
    requires
        create_post_check(
            profile,
            rl,
            owner,
            coverimage1,
            title1,
            content1,
            category1,
            keywords1,
            now1,
        ) is Ok,
        now2 - now1 < MIN_TIME_BETWEEN_POSTS,
        title_check(title2) is Ok,
        content_check(content2) is Ok,
        category_check(category2) is Ok,
        keywords_check(keywords2) is Ok,
        url_check(coverimage2) is Ok,
    ensures
        create_post_check(
            (UserProfile { post_count: (profile.post_count + 1) as u32, ..profile }),
            rate_limit_commit(rl, now1),
            owner,
            coverimage2,
            title2,
            content2,
            category2,
            keywords2,
            now2,
        ) == Err::<(), CaterpillarError>(CaterpillarError::RateLimitExceeded),
{
    lemma_minimum_spacing_blocks(rl, now1, now2);
}

/// After ten successful creations inside one rate window, an eleventh
/// otherwise-valid creation still inside that window fails with the
/// rate-limit error: the daily cap is reached.
pub proof fn lemma_eleventh_create_blocked(
    profile: UserProfile,
    rl: RateLimit,
    times: Seq<i64>,
    owner: Address,
    coverimage: Seq<char>,
    title: Seq<char>,
    content: Seq<char>,
    category: Seq<char>,
    keywords: Seq<char>,
    now: i64,
)
    requires
        rl.post_count_24h == 0,
        times.len() == crate::constant::MAX_POSTS_PER_DAY,
        run_rate_checks(rl, times) is Some,
        forall|i: int| 0 <= i < times.len() ==> times[i] - rl.last_reset_time
            < RATE_WINDOW_SECONDS,
        now - rl.last_reset_time < RATE_WINDOW_SECONDS,
        profile.owner == owner,
        !profile.is_banned,
        title_check(title) is Ok,
        content_check(content) is Ok,
        category_check(category) is Ok,
        keywords_check(keywords) is Ok,
        url_check(coverimage) is Ok,
    ensures
        create_post_check(
            profile,
            run_rate_checks(rl, times)->Some_0,
            owner,
            coverimage,
            title,
            content,
            category,
            keywords,
            now,
        ) == Err::<(), CaterpillarError>(CaterpillarError::RateLimitExceeded),
{
    lemma_daily_cap_blocks(rl, times, now);
}

/// Once the rate window has rolled over and the minimum spacing has passed,
/// an otherwise-valid creation succeeds again and the committed window
/// restarts with a count of one.
pub proof fn lemma_create_allowed_after_rollover(
    profile: UserProfile,
    rl: RateLimit,
    owner: Address,
    coverimage: Seq<char>,
    title: Seq<char>,
    content: Seq<char>,
    category: Seq<char>,
    keywords: Seq<char>,
    now: i64,
)
    requires
        now - rl.last_reset_time >= RATE_WINDOW_SECONDS,
        now - rl.last_post_time >= MIN_TIME_BETWEEN_POSTS,
        profile.owner == owner,
        !profile.is_banned,
        title_check(title) is Ok,
        content_check(content) is Ok,
        category_check(category) is Ok,
        keywords_check(keywords) is Ok,
        url_check(coverimage) is Ok,
    ensures
        create_post_check(
            profile,
            rl,
            owner,
            coverimage,
            title,
            content,
            category,
            keywords,
            now,
        ) is Ok,
        rate_limit_commit(rl, now).post_count_24h == 1,
{
    lemma_window_rollover_resets(rl, now);
}

} // verus!
