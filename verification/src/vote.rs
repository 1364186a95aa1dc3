//! The voting ledger: one [`VoteInfo`] per (post, voter), with the
//! aggregate upvote/downvote counters maintained on the post.
//!
//! `add_vote` records a fresh vote and counts it; `edit_vote` overwrites
//! the status and shifts the tallies unconditionally, assuming the voter is
//! switching between an upvote and a downvote. That assumption is a
//! documented fragility of the operation set: the tallies stay consistent
//! with the recorded votes only while every edit strictly alternates
//! between the two non-zero statuses, which is exactly what the laws at the
//! end of this module prove. A decrement that would take a counter below
//! zero is rejected as an arithmetic error rather than allowed to wrap.

use vstd::prelude::*;

use crate::constant::{VOTE_DOWN, VOTE_NONE, VOTE_UP};
use crate::error::CaterpillarError;
use crate::state::{Address, BlogPost, PostKey, VoteInfo};

verus! {

/// The records and identities a vote creation touches: the voted post, the
/// fresh vote slot the storage layer reserved at (post key, voter), the
/// voter, and the post's deterministic key.
pub struct AddVote {
    pub post_account: BlogPost,
    pub vote_info: VoteInfo,
    pub voter: Address,
    pub post_key: PostKey,
}

/// The records and identities a vote edit touches.
pub struct EditVote {
    pub post_account: BlogPost,
    pub vote_info: VoteInfo,
    pub voter: Address,
}

/// The post after a fresh vote of the given status is counted: an upvote
/// or downvote raises its tally by one, any other status changes nothing.
pub open spec fn add_vote_tallies(post: BlogPost, status: u8) -> BlogPost {
    if status == VOTE_UP {
        BlogPost { upvote: (post.upvote + 1) as u32, ..post }
    } else if status == VOTE_DOWN {
        BlogPost { downvote: (post.downvote + 1) as u32, ..post }
    } else {
        post
    }
}

/// The outcome of a vote edit: the caller must be the recorded voter, and
/// the unconditional tally shift must not take a counter below zero.
pub open spec fn edit_vote_check(
    post: BlogPost,
    vote: VoteInfo,
    voter: Address,
    status: u8,
) -> Result<(), CaterpillarError> {
    if vote.voter != voter {
        Err(CaterpillarError::InsufficientPermissions)
    } else if status == VOTE_UP && post.downvote == 0 {
        Err(CaterpillarError::ArithmeticUnderflow)
    } else if status == VOTE_DOWN && post.upvote == 0 {
        Err(CaterpillarError::ArithmeticUnderflow)
    } else {
        Ok(())
    }
}

/// The post after a vote edit's unconditional tally shift: an upvote takes
/// one from the downvotes, a downvote takes one from the upvotes, any
/// other status changes nothing.
pub open spec fn edit_vote_tallies(post: BlogPost, status: u8) -> BlogPost {
    if status == VOTE_UP {
        BlogPost {
            upvote: (post.upvote + 1) as u32,
            downvote: (post.downvote - 1) as u32,
            ..post
        }
    } else if status == VOTE_DOWN {
        BlogPost {
            upvote: (post.upvote - 1) as u32,
            downvote: (post.downvote + 1) as u32,
            ..post
        }
    } else {
        post
    }
}

/// Records a fresh vote at (post key, voter) — uniqueness per key is the
/// storage layer's create-if-absent guarantee — and counts it on the post:
/// status 1 raises the upvotes, status 2 the downvotes, any other status
/// is recorded with no tally effect.
pub fn add_vote(ctx: &mut AddVote, status: u8, now: i64) -> (r: Result<(), CaterpillarError>)
    requires
        status == VOTE_UP ==> old(ctx).post_account.upvote < u32::MAX,
        status == VOTE_DOWN ==> old(ctx).post_account.downvote < u32::MAX,
    ensures
        r == Ok::<(), CaterpillarError>(()),
        final(ctx).voter == old(ctx).voter,
        final(ctx).post_key == old(ctx).post_key,
        final(ctx).vote_info == (VoteInfo {
            blog_post: old(ctx).post_key,
            voter: old(ctx).voter,
            status,
            created_at: now,
            last_updated_at: old(ctx).vote_info.last_updated_at,
        }),
        final(ctx).post_account == add_vote_tallies(old(ctx).post_account, status),
{
    let vote_info = &mut ctx.vote_info;
    vote_info.blog_post = ctx.post_key;
    vote_info.voter = ctx.voter;
    vote_info.created_at = now;
    vote_info.status = status;
    if status == VOTE_UP {
        ctx.post_account.upvote = ctx.post_account.upvote + 1;
    }
    if status == VOTE_DOWN {
        ctx.post_account.downvote = ctx.post_account.downvote + 1;
    }
    Ok(())
}

/// Overwrites the vote's status and shifts the post's tallies
/// unconditionally: status 1 moves one vote from the downvotes to the
/// upvotes, status 2 the reverse, any other status only records. Only the
/// recorded voter may edit; a shift that would take a counter below zero
/// is rejected and both records are left unchanged.
pub fn edit_vote(ctx: &mut EditVote, status: u8) -> (r: Result<(), CaterpillarError>)
    requires
        status == VOTE_UP ==> old(ctx).post_account.upvote < u32::MAX,
        status == VOTE_DOWN ==> old(ctx).post_account.downvote < u32::MAX,
    ensures
        r == edit_vote_check(old(ctx).post_account, old(ctx).vote_info, old(ctx).voter, status),
        final(ctx).voter == old(ctx).voter,
        r is Err ==> final(ctx).post_account == old(ctx).post_account && final(ctx).vote_info
            == old(ctx).vote_info,
        r is Ok ==> final(ctx).vote_info == (VoteInfo { status, ..old(ctx).vote_info })
            && final(ctx).post_account == edit_vote_tallies(old(ctx).post_account, status),
{
    if ctx.voter != ctx.vote_info.voter {
        return Err(CaterpillarError::InsufficientPermissions);
    }
    if status == VOTE_UP && ctx.post_account.downvote == 0 {
        return Err(CaterpillarError::ArithmeticUnderflow);
    }
    if status == VOTE_DOWN && ctx.post_account.upvote == 0 {
        return Err(CaterpillarError::ArithmeticUnderflow);
    }
    ctx.vote_info.status = status;
    if status == VOTE_UP {
        ctx.post_account.downvote = ctx.post_account.downvote - 1;
        ctx.post_account.upvote = ctx.post_account.upvote + 1;
    }
    if status == VOTE_DOWN {
        ctx.post_account.downvote = ctx.post_account.downvote + 1;
        ctx.post_account.upvote = ctx.post_account.upvote - 1;
    }
    Ok(())
}

/// How many of the recorded vote statuses equal `v`.
pub open spec fn count_eq(votes: Seq<u8>, v: u8) -> nat
    decreases votes.len(),
{
    if votes.len() == 0 {
        0
    } else {
        count_eq(votes.drop_last(), v) + if votes.last() == v {
            1nat
        } else {
            0nat
        }
    }
}

/// How many of the recorded vote statuses are non-zero.
pub open spec fn count_nonzero(votes: Seq<u8>) -> nat
    decreases votes.len(),
{
    if votes.len() == 0 {
        0
    } else {
        count_nonzero(votes.drop_last()) + if votes.last() != VOTE_NONE {
            1nat
        } else {
            0nat
        }
    }
}

/// Whether the post's tallies agree with the recorded votes: the upvote
/// counter counts the votes of status 1 and the downvote counter those of
/// status 2.
pub open spec fn tally_consistent(post: BlogPost, votes: Seq<u8>) -> bool {
    post.upvote == count_eq(votes, VOTE_UP) && post.downvote == count_eq(votes, VOTE_DOWN)
}

/// Appending a status adds one to exactly the matching count.
pub proof fn lemma_count_eq_push(votes: Seq<u8>, v: u8, w: u8)
    ensures
        count_eq(votes.push(v), w) == count_eq(votes, w) + if v == w {
            1nat
        } else {
            0nat
        },
{
    assert(votes.push(v).drop_last() =~= votes);
}

/// Overwriting one status moves one count from the old status to the new.
pub proof fn lemma_count_eq_update(votes: Seq<u8>, i: int, v: u8, w: u8)
    requires
        0 <= i < votes.len(),
    ensures
        count_eq(votes.update(i, v), w) + (if votes[i] == w {
            1nat
        } else {
            0nat
        }) == count_eq(votes, w) + (if v == w {
            1nat
        } else {
            0nat
        }),
    decreases votes.len(),
{
    if i == votes.len() - 1 {
        assert(votes.update(i, v).drop_last() =~= votes.drop_last());
    } else {
        assert(votes.update(i, v).drop_last() =~= votes.drop_last().update(i, v));
        lemma_count_eq_update(votes.drop_last(), i, v, w);
    }
}

/// One recorded occurrence gives a positive count.
pub proof fn lemma_count_eq_pos(votes: Seq<u8>, i: int)
    requires
        0 <= i < votes.len(),
    ensures
        count_eq(votes, votes[i]) >= 1,
    decreases votes.len(),
{
    if i < votes.len() - 1 {
        lemma_count_eq_pos(votes.drop_last(), i);
    }
}

/// While every status is 0, 1 or 2, the non-zero votes split exactly into
/// the upvotes and the downvotes.
pub proof fn lemma_count_nonzero_parts(votes: Seq<u8>)
    requires
        forall|i: int| 0 <= i < votes.len() ==> votes[i] <= VOTE_DOWN,
    ensures
        count_nonzero(votes) == count_eq(votes, VOTE_UP) + count_eq(votes, VOTE_DOWN),
    decreases votes.len(),
{
    if votes.len() > 0 {
        assert(forall|i: int| 0 <= i < votes.drop_last().len() ==> votes.drop_last()[i]
            <= VOTE_DOWN);
        lemma_count_nonzero_parts(votes.drop_last());
    }
}

/// Recording a fresh vote keeps the tallies consistent: the new status is
/// appended to the ledger and exactly the matching counter moves.
pub proof fn lemma_add_vote_preserves_tally(post: BlogPost, votes: Seq<u8>, status: u8)
    requires
        tally_consistent(post, votes),
        status == VOTE_UP ==> post.upvote < u32::MAX,
        status == VOTE_DOWN ==> post.downvote < u32::MAX,
    ensures
        tally_consistent(add_vote_tallies(post, status), votes.push(status)),
{
    lemma_count_eq_push(votes, status, VOTE_UP);
    lemma_count_eq_push(votes, status, VOTE_DOWN);
}

/// A strictly alternating vote edit keeps the tallies consistent, and the
/// decremented counter was positive, so the shift cannot underflow. This
/// is the documented fragile invariant of the ledger: it holds only while
/// each edit switches a recorded up-vote to a down-vote or the reverse.
pub proof fn lemma_edit_vote_preserves_tally(post: BlogPost, votes: Seq<u8>, i: int, status: u8)
    requires
        tally_consistent(post, votes),
        0 <= i < votes.len(),
        (votes[i] == VOTE_UP && status == VOTE_DOWN) || (votes[i] == VOTE_DOWN && status
            == VOTE_UP),
        status == VOTE_UP ==> post.upvote < u32::MAX,
        status == VOTE_DOWN ==> post.downvote < u32::MAX,
    ensures
        status == VOTE_UP ==> post.downvote >= 1,
        status == VOTE_DOWN ==> post.upvote >= 1,
        tally_consistent(edit_vote_tallies(post, status), votes.update(i, status)),
{
    lemma_count_eq_pos(votes, i);
    lemma_count_eq_update(votes, i, status, VOTE_UP);
    lemma_count_eq_update(votes, i, status, VOTE_DOWN);
}

/// While the tallies are consistent with a ledger whose statuses are all
/// 0, 1 or 2, the sum of the post's upvote and downvote counters equals
/// the number of recorded votes with non-zero status.
pub proof fn lemma_tally_sum(post: BlogPost, votes: Seq<u8>)
    requires
        tally_consistent(post, votes),
        forall|i: int| 0 <= i < votes.len() ==> votes[i] <= VOTE_DOWN,
    ensures
        post.upvote + post.downvote == count_nonzero(votes),
{
    lemma_count_nonzero_parts(votes);
}

} // verus!
