use caterpillar_contract::collector::{add_collector, AddCollector};
use caterpillar_contract::state::{Address, BlogPost, CollectorInfo, PostKey};

fn collected_post(owner: Address) -> BlogPost {
    BlogPost {
        owner,
        coverimage: String::new(),
        title: String::new(),
        content: String::new(),
        category: String::new(),
        upvote: 0,
        downvote: 0,
        keywords: String::new(),
        walletaddress: String::new(),
        status: 0,
        nftcollectionaddress: String::new(),
        ntotalcollecter: 0,
        created_at: 0,
        last_edited_at: 0,
        is_locked: false,
    }
}

fn collector_slot() -> CollectorInfo {
    CollectorInfo {
        blog_post: PostKey { owner: Address { id: 0 }, seq: 0 },
        collector: Address { id: 0 },
        avatar: String::new(),
        username: String::new(),
        _id: String::new(),
        walletaddress: String::new(),
        nft_mint_address: String::new(),
        created_at: 0,
    }
}

#[test]
fn serialized_collectors_get_gap_free_indices() {
    let owner = Address { id: 1 };
    let post_key = PostKey { owner, seq: 0 };
    let mut post = collected_post(owner);
    let mut indices = Vec::new();
    for k in 0u64..3 {
        let mut ctx = AddCollector {
            post_account: post,
            collector_info: collector_slot(),
            collector: Address { id: 100 + k },
            post_key,
        };
        let index = add_collector(
            &mut ctx,
            format!("collector-{}", k),
            "ipfs://avatar".to_string(),
            "wallet-c".to_string(),
            "mint-1".to_string(),
            900 + k as i64,
        )
        .unwrap();
        indices.push(index);
        post = ctx.post_account;
    }
    assert_eq!(indices, vec![0, 1, 2]);
    assert_eq!(post.ntotalcollecter, 3);
}

#[test]
fn add_collector_fills_the_attribution_record() {
    let owner = Address { id: 2 };
    let post_key = PostKey { owner, seq: 4 };
    let collector = Address { id: 50 };
    let mut ctx = AddCollector {
        post_account: collected_post(owner),
        collector_info: collector_slot(),
        collector,
        post_key,
    };
    let index = add_collector(
        &mut ctx,
        "carol".to_string(),
        "ipfs://carol".to_string(),
        "wallet-carol".to_string(),
        "mint-42".to_string(),
        1234,
    )
    .unwrap();
    assert_eq!(index, 0);
    let info = &ctx.collector_info;
    assert_eq!(info.blog_post, post_key);
    assert_eq!(info.collector, collector);
    assert_eq!(info.username, "carol");
    assert_eq!(info.avatar, "ipfs://carol");
    assert_eq!(info.walletaddress, "wallet-carol");
    assert_eq!(info.nft_mint_address, "mint-42");
    assert_eq!(info.created_at, 1234);
    assert_eq!(ctx.post_account.ntotalcollecter, 1);
}
