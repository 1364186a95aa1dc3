//! The collector registry: per-(post, index) attribution records.
//!
//! Each [`CollectorInfo`] is keyed by the post and the post's collector
//! counter at call time, and the counter then advances — so the counter is
//! a per-post sequence generator. The law at the end of this module shows
//! that serialized calls assign distinct, gap-free indices: the hosting
//! environment's per-key mutual exclusion (§ the concurrency contract of
//! the record store) is what makes concurrent calls serialize.

use vstd::prelude::*;

use crate::error::CaterpillarError;
use crate::state::{Address, BlogPost, CollectorInfo, PostKey};

verus! {

/// The records and identities a collector registration touches: the
/// collected post, the fresh attribution slot the storage layer reserved at
/// (post key, collector counter), the collector, and the post's
/// deterministic key.
pub struct AddCollector {
    pub post_account: BlogPost,
    pub collector_info: CollectorInfo,
    pub collector: Address,
    pub post_key: PostKey,
}

/// One collector registration as a relation between the post before, the
/// post after, and the index the new record was keyed with: the index is
/// the counter read at call time, the counter advances by one, and nothing
/// else of the post changes.
pub open spec fn collector_step(post: BlogPost, post_after: BlogPost, index: u8) -> bool {
    index == post.ntotalcollecter && post_after == (BlogPost {
        ntotalcollecter: (post.ntotalcollecter + 1) as u8,
        ..post
    })
}

/// Fills the attribution record at (post key, collector counter) and then
/// advances the post's collector counter; the assigned index — the counter
/// read at call time — is returned so the host can key the record.
/// Uniqueness per key is the storage layer's create-if-absent guarantee.
pub fn add_collector(
    ctx: &mut AddCollector,
    username: String,
    avatar: String,
    walletaddress: String,
    nft_mint_address: String,
    now: i64,
) -> (r: Result<u8, CaterpillarError>)
    requires
        old(ctx).post_account.ntotalcollecter < u8::MAX,
    ensures
        r == Ok::<u8, CaterpillarError>(old(ctx).post_account.ntotalcollecter),
        final(ctx).collector == old(ctx).collector,
        final(ctx).post_key == old(ctx).post_key,
        final(ctx).collector_info == (CollectorInfo {
            blog_post: old(ctx).post_key,
            collector: old(ctx).collector,
            avatar,
            username,
            _id: old(ctx).collector_info._id,
            walletaddress,
            nft_mint_address,
            created_at: now,
        }),
        collector_step(old(ctx).post_account, final(ctx).post_account, r->Ok_0),
{
    let index = ctx.post_account.ntotalcollecter;
    let collector_info = &mut ctx.collector_info;
    collector_info.blog_post = ctx.post_key;
    collector_info.collector = ctx.collector;
    collector_info.username = username;
    collector_info.avatar = avatar;
    collector_info.walletaddress = walletaddress;
    collector_info.nft_mint_address = nft_mint_address;
    collector_info.created_at = now;
    ctx.post_account.ntotalcollecter = index + 1;
    Ok(index)
}

/// The counter grows by one per step along a serialized run of collector
/// registrations.
proof fn lemma_collector_counter(posts: Seq<BlogPost>, indices: Seq<u8>, k: int)
    requires
        posts.len() == indices.len() + 1,
        0 <= k < posts.len(),
        forall|i: int| 0 <= i < indices.len() ==> collector_step(posts[i], posts[i + 1], indices[i]),
    ensures
        posts[k].ntotalcollecter == posts[0].ntotalcollecter + k || posts[0].ntotalcollecter + k
            > u8::MAX,
    decreases k,
{
    if k > 0 {
        lemma_collector_counter(posts, indices, k - 1);
        assert(collector_step(posts[k - 1], posts[k], indices[k - 1]));
    }
}

/// Serialized collector registrations assign distinct, gap-free indices:
/// a run of N registrations against a post whose counter starts at zero
/// keys its records with exactly the indices 0 to N-1, in order, and
/// leaves the counter at N.
pub proof fn lemma_collector_indices_gap_free(posts: Seq<BlogPost>, indices: Seq<u8>)
    requires
        posts.len() == indices.len() + 1,
        posts[0].ntotalcollecter == 0,
        indices.len() <= u8::MAX,
        forall|i: int| 0 <= i < indices.len() ==> collector_step(posts[i], posts[i + 1], indices[i]),
    ensures
        forall|i: int| 0 <= i < indices.len() ==> indices[i] == i,
        posts.last().ntotalcollecter == indices.len(),
{
    assert forall|i: int| 0 <= i < indices.len() implies indices[i] == i by {
        lemma_collector_counter(posts, indices, i);
    }
    lemma_collector_counter(posts, indices, posts.len() - 1);
}

} // verus!
