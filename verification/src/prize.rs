use vstd::prelude::*;

use crate::error::ErrorCode;
use crate::percent::lemma_elem_le_table_sum;
use crate::proposal::{Proposal, ProposalKind, ProposalStatus};
use crate::team::{contains_player, index_of_player, PlayerId, Team};

verus! {

/// The exact payout for one table entry: the floor of
/// `pool * entry / 100`.
pub open spec fn share_of(pool: int, entry: int) -> int {
    pool * entry / 100
}

/// The law of payouts: a share computed from a table entry of at most 100
/// percent is never negative and never exceeds the pool it is drawn from.
pub proof fn lemma_share_within_pool(pool: int, entry: int)
    requires
        0 <= pool,
        0 <= entry <= 100,
    ensures
        0 <= share_of(pool, entry) <= pool,
{
    assert(pool * entry <= pool * 100) by (nonlinear_arith)
        requires
            0 <= pool,
            entry <= 100,
    ;
    assert(pool * entry >= 0) by (nonlinear_arith)
        requires
            0 <= pool,
            0 <= entry,
    ;
    assert(pool * 100 / 100 == pool);
}

/// A member converts their percentage share of an accepted prize
/// distribution into an exact payout from the caller-supplied pool amount,
/// exactly once. The function computes the payout and records the claim; the
/// surrounding environment moves the two balances by the returned amount in
/// the same indivisible step.
///
/// A pool over `u64::MAX / 100` is refused as `InvalidPool`: the payout
/// product would not fit. The one precondition beyond well-formedness is
/// that the table of an accepted distribution is as long as the roster it
/// was voted over.
pub fn claim_the_prize(team: &Team, proposal: &mut Proposal, caller: PlayerId, pool_amount: u64)
    -> (r: Result<u64, ErrorCode>)
    requires
        team.wf(),
        old(proposal).wf(),
        old(proposal).kind is PrizeDistribution && old(proposal).status is Accepted ==> old(
            proposal,
        ).prize_table@.len() == team.players@.len(),
    ensures
        final(proposal).wf(),
        ({
            let pre = *old(proposal);
            let post = *final(proposal);
            if !(pre.kind is PrizeDistribution && pre.status is Accepted) {
                r == Err::<u64, ErrorCode>(ErrorCode::ProposalInvalid) && post == pre
            } else if pool_amount == 0 || pool_amount > u64::MAX / 100 {
                r == Err::<u64, ErrorCode>(ErrorCode::InvalidPool) && post == pre
            } else if !team.players@.contains(caller) {
                r == Err::<u64, ErrorCode>(ErrorCode::NotAMember) && post == pre
            } else if pre.claimed_players@.contains(caller) {
                r == Err::<u64, ErrorCode>(ErrorCode::AlreadyClaimed) && post == pre
            } else {
                &&& (forall|i: int|
                    0 <= i < team.players@.len() && team.players@[i] == caller ==> r == Ok::<
                        u64,
                        ErrorCode,
                    >(share_of(pool_amount as int, pre.prize_table@[i] as int) as u64))
                &&& post.claimed_players@ == pre.claimed_players@.push(caller)
                &&& post.title == pre.title
                &&& post.kind == pre.kind
                &&& post.tournament_name == pre.tournament_name
                &&& post.prize_table == pre.prize_table
                &&& post.vote_yes == pre.vote_yes
                &&& post.vote_no == pre.vote_no
                &&& post.status == pre.status
                &&& post.voted_players == pre.voted_players
            }
        }),
{
    if !(matches!(proposal.kind, ProposalKind::PrizeDistribution) && matches!(
        proposal.status,
        ProposalStatus::Accepted,
    )) {
        return Err(ErrorCode::ProposalInvalid);
    }
    if pool_amount == 0 || pool_amount > u64::MAX / 100 {
        return Err(ErrorCode::InvalidPool);
    }
    if !contains_player(&team.players, caller) {
        return Err(ErrorCode::NotAMember);
    }
    if contains_player(&proposal.claimed_players, caller) {
        return Err(ErrorCode::AlreadyClaimed);
    }
    let idx = index_of_player(&team.players, caller);
    let entry = proposal.prize_table[idx];
    proof {
        lemma_elem_le_table_sum(proposal.prize_table@, idx as int);
        assert(entry <= 100);
        assert(pool_amount * entry <= pool_amount * 100) by (nonlinear_arith)
            requires
                entry <= 100,
                pool_amount >= 0,
        ;
        assert(pool_amount * 100 <= (u64::MAX / 100) * 100);
    }
    let share = pool_amount * (entry as u64) / 100;
    proposal.claimed_players.push(caller);
    Ok(share)
}

} // verus!
