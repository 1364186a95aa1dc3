use caterpillar_contract::error::CaterpillarError;
use caterpillar_contract::post::{
    create_blog_post, edit_blog_downvote, edit_blog_nftcollectionaddress,
    edit_blog_ntotalcollecter, edit_blog_post, edit_blog_upvote, CreateBlogPost,
    EditBlogDownvote, EditBlogNTotalCollecter, EditBlogNftCollectionAddress, EditBlogPost,
    EditBlogUpvote,
};
use caterpillar_contract::state::{Address, BlogPost, PostKey, RateLimit, UserProfile};

fn post_slot(owner: Address) -> BlogPost {
    BlogPost {
        owner,
        coverimage: String::new(),
        title: String::new(),
        content: String::new(),
        category: String::new(),
        upvote: 0,
        downvote: 0,
        keywords: String::new(),
        walletaddress: String::new(),
        status: 0,
        nftcollectionaddress: String::new(),
        ntotalcollecter: 0,
        created_at: 0,
        last_edited_at: 0,
        is_locked: false,
    }
}

fn fresh_profile(owner: Address) -> UserProfile {
    UserProfile {
        owner,
        avatar: String::new(),
        username: String::new(),
        walletaddress: String::new(),
        twitterlink: String::new(),
        externallink: String::new(),
        bio: String::new(),
        post_count: 0,
        reputation_score: 0,
        is_banned: false,
        created_at: 0,
    }
}

fn fresh_rate_limit(owner: Address) -> RateLimit {
    RateLimit { user: owner, last_post_time: 0, post_count_24h: 0, last_reset_time: 0 }
}

fn create_ctx(owner: Address) -> CreateBlogPost {
    CreateBlogPost {
        blog_post: post_slot(owner),
        owner,
        user_profile: fresh_profile(owner),
        rate_limit: fresh_rate_limit(owner),
    }
}

fn create_at(ctx: &mut CreateBlogPost, now: i64) -> Result<PostKey, CaterpillarError> {
    create_blog_post(
        ctx,
        "https://cdn.example/cover.png".to_string(),
        "A title".to_string(),
        "Some content".to_string(),
        "news".to_string(),
        "tag1,tag2".to_string(),
        "wallet-x".to_string(),
        now,
    )
    .map(|event| event.post_id)
}

#[test]
fn create_post_success_initializes_everything() {
    let owner = Address { id: 1 };
    let mut ctx = create_ctx(owner);
    let now = 1_700_000_000;
    let event = create_blog_post(
        &mut ctx,
        "https://cdn.example/cover.png".to_string(),
        "A title".to_string(),
        "Some content".to_string(),
        "news".to_string(),
        "tag1,tag2".to_string(),
        "wallet-x".to_string(),
        now,
    )
    .unwrap();
    assert_eq!(event.owner, owner);
    assert_eq!(event.post_id, PostKey { owner, seq: 0 });
    assert_eq!(event.title, "A title");
    assert_eq!(event.timestamp, now);
    let post = &ctx.blog_post;
    assert_eq!(post.owner, owner);
    assert_eq!(post.title, "A title");
    assert_eq!(post.content, "Some content");
    assert_eq!(post.category, "news");
    assert_eq!(post.keywords, "tag1,tag2");
    assert_eq!(post.coverimage, "https://cdn.example/cover.png");
    assert_eq!(post.walletaddress, "wallet-x");
    assert_eq!(post.status, 0);
    assert_eq!(post.nftcollectionaddress, "");
    assert_eq!(post.ntotalcollecter, 0);
    assert_eq!(post.upvote, 0);
    assert_eq!(post.downvote, 0);
    assert_eq!(post.created_at, now);
    assert_eq!(post.last_edited_at, now);
    assert!(!post.is_locked);
    assert_eq!(ctx.user_profile.post_count, 1);
    assert_eq!(ctx.rate_limit.last_post_time, now);
    assert_eq!(ctx.rate_limit.post_count_24h, 1);
    assert_eq!(ctx.rate_limit.last_reset_time, now);
}

#[test]
fn banned_owner_fails_before_any_validation() {
    let owner = Address { id: 2 };
    let mut ctx = create_ctx(owner);
    ctx.user_profile.is_banned = true;
    // The title is empty and the rate window is stale: the ban is still the
    // error reported, because it is checked first.
    let r = create_blog_post(
        &mut ctx,
        String::new(),
        String::new(),
        String::new(),
        String::new(),
        String::new(),
        String::new(),
        1_700_000_000,
    );
    assert_eq!(r.unwrap_err(), CaterpillarError::UserBanned);
    assert_eq!(ctx.user_profile.post_count, 0);
    assert_eq!(ctx.rate_limit.post_count_24h, 0);
}

#[test]
fn create_post_validates_fields_in_order() {
    let owner = Address { id: 3 };
    let mut ctx = create_ctx(owner);
    // Both the title and the content are empty: the title error wins.
    let r = create_blog_post(
        &mut ctx,
        String::new(),
        String::new(),
        String::new(),
        "news".to_string(),
        String::new(),
        String::new(),
        1_700_000_000,
    );
    assert_eq!(r.unwrap_err(), CaterpillarError::TitleEmpty);
    let r = create_blog_post(
        &mut ctx,
        "not-a-url".to_string(),
        "A title".to_string(),
        "Some content".to_string(),
        "news".to_string(),
        String::new(),
        String::new(),
        1_700_000_000,
    );
    assert_eq!(r.unwrap_err(), CaterpillarError::InvalidUrlFormat);
    assert_eq!(ctx.user_profile.post_count, 0);
}

#[test]
fn second_post_within_an_hour_is_rejected() {
    let owner = Address { id: 4 };
    let mut ctx = create_ctx(owner);
    let now = 1_700_000_000;
    assert!(create_at(&mut ctx, now).is_ok());
    // 3599 seconds later: minimum spacing not met.
    let r = create_at(&mut ctx, now + 3599);
    assert_eq!(r.unwrap_err(), CaterpillarError::RateLimitExceeded);
    assert_eq!(ctx.user_profile.post_count, 1);
    assert_eq!(ctx.rate_limit.post_count_24h, 1);
    // Exactly 3600 seconds later: allowed again.
    let r = create_at(&mut ctx, now + 3600);
    assert_eq!(r.unwrap(), PostKey { owner, seq: 1 });
    assert_eq!(ctx.user_profile.post_count, 2);
}

#[test]
fn eleventh_post_in_a_day_is_rejected_and_rollover_resets() {
    let owner = Address { id: 5 };
    let mut ctx = create_ctx(owner);
    let start = 1_700_000_000;
    for k in 0i64..10 {
        let r = create_at(&mut ctx, start + 3600 * k);
        assert_eq!(r.unwrap(), PostKey { owner, seq: k as u32 });
    }
    assert_eq!(ctx.rate_limit.post_count_24h, 10);
    // Eleventh call, spacing satisfied but still inside the first window.
    let r = create_at(&mut ctx, start + 3600 * 10);
    assert_eq!(r.unwrap_err(), CaterpillarError::RateLimitExceeded);
    // Once the window has rolled over the count restarts at one.
    let rollover = ctx.rate_limit.last_reset_time + 86400;
    let r = create_at(&mut ctx, rollover);
    assert_eq!(r.unwrap(), PostKey { owner, seq: 10 });
    assert_eq!(ctx.rate_limit.post_count_24h, 1);
    assert_eq!(ctx.rate_limit.last_reset_time, rollover);
}

#[test]
fn bulk_edit_requires_ownership_and_nonblank_address() {
    let owner = Address { id: 6 };
    let mut edit = EditBlogPost { blog_post: post_slot(owner), owner: Address { id: 7 } };
    let r = edit_blog_post(&mut edit, "coll".to_string(), 3, 4, 5);
    assert_eq!(r, Err(CaterpillarError::InsufficientPermissions));
    let mut edit = EditBlogPost { blog_post: post_slot(owner), owner };
    let r = edit_blog_post(&mut edit, "  \t ".to_string(), 3, 4, 5);
    assert_eq!(r, Err(CaterpillarError::NFTCollectionAddressNull));
    assert_eq!(edit.blog_post.upvote, 0);
    let r = edit_blog_post(&mut edit, "coll".to_string(), 3, 4, 5);
    assert_eq!(r, Ok(()));
    assert_eq!(edit.blog_post.nftcollectionaddress, "coll");
    assert_eq!(edit.blog_post.ntotalcollecter, 3);
    assert_eq!(edit.blog_post.upvote, 4);
    assert_eq!(edit.blog_post.downvote, 5);
}

#[test]
fn nft_address_setter_rejects_blank_and_skips_ownership() {
    let owner = Address { id: 8 };
    let mut edit = EditBlogNftCollectionAddress { blog_post: post_slot(owner) };
    let r = edit_blog_nftcollectionaddress(&mut edit, String::new());
    assert_eq!(r, Err(CaterpillarError::NFTCollectionAddressNull));
    let r = edit_blog_nftcollectionaddress(&mut edit, "   ".to_string());
    assert_eq!(r, Err(CaterpillarError::NFTCollectionAddressNull));
    let r = edit_blog_nftcollectionaddress(&mut edit, "collection".to_string());
    assert_eq!(r, Ok(()));
    assert_eq!(edit.blog_post.nftcollectionaddress, "collection");
}

#[test]
fn single_field_setters_require_ownership() {
    let owner = Address { id: 9 };
    let other = Address { id: 10 };

    let mut edit = EditBlogNTotalCollecter { blog_post: post_slot(owner), owner: other };
    assert_eq!(
        edit_blog_ntotalcollecter(&mut edit, 7),
        Err(CaterpillarError::InsufficientPermissions)
    );
    let mut edit = EditBlogNTotalCollecter { blog_post: post_slot(owner), owner };
    assert_eq!(edit_blog_ntotalcollecter(&mut edit, 7), Ok(()));
    assert_eq!(edit.blog_post.ntotalcollecter, 7);

    let mut edit = EditBlogUpvote { blog_post: post_slot(owner), owner: other };
    assert_eq!(edit_blog_upvote(&mut edit, 11), Err(CaterpillarError::InsufficientPermissions));
    let mut edit = EditBlogUpvote { blog_post: post_slot(owner), owner };
    assert_eq!(edit_blog_upvote(&mut edit, 11), Ok(()));
    assert_eq!(edit.blog_post.upvote, 11);

    let mut edit = EditBlogDownvote { blog_post: post_slot(owner), owner: other };
    assert_eq!(edit_blog_downvote(&mut edit, 12), Err(CaterpillarError::InsufficientPermissions));
    let mut edit = EditBlogDownvote { blog_post: post_slot(owner), owner };
    assert_eq!(edit_blog_downvote(&mut edit, 12), Ok(()));
    assert_eq!(edit.blog_post.downvote, 12);
}
