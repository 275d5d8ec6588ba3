use vstd::prelude::*;

use crate::error::ErrorCode;
use crate::percent::copy_table;
use crate::proposal::{Proposal, ProposalKind, ProposalStatus};
use crate::team::{contains_name, contains_player, has_name, unchanged_but_outcome, PlayerId, Team};

verus! {

/// The string reads "yes", in any mix of upper and lower case.
pub open spec fn is_yes_vote(s: Seq<char>) -> bool {
    &&& s.len() == 3
    &&& (s[0] == 'y' || s[0] == 'Y')
    &&& (s[1] == 'e' || s[1] == 'E')
    &&& (s[2] == 's' || s[2] == 'S')
}

/// The string reads "no", in any mix of upper and lower case.
pub open spec fn is_no_vote(s: Seq<char>) -> bool {
    &&& s.len() == 2
    &&& (s[0] == 'n' || s[0] == 'N')
    &&& (s[1] == 'o' || s[1] == 'O')
}

/// The outcome a full tally resolves to: strict majority decides, and a tie
/// is a draw.
pub open spec fn resolved_status(yes: int, no: int) -> ProposalStatus {
    if yes > no {
        ProposalStatus::Accepted
    } else if yes < no {
        ProposalStatus::Rejected
    } else {
        ProposalStatus::Draw
    }
}

/// The law of resolution: a full tally resolves a proposal to one of the
/// three terminal outcomes, never back to `Active`, and strict majority
/// decides — more yes than no accepts, more no than yes rejects, and a tie
/// is a draw.
pub proof fn lemma_majority_resolution(yes: int, no: int)
    ensures
        !(resolved_status(yes, no) is Active),
        yes > no ==> resolved_status(yes, no) is Accepted,
        yes < no ==> resolved_status(yes, no) is Rejected,
        yes == no ==> resolved_status(yes, no) is Draw,
{
}

/// Reads a vote string: `Some(true)` for "yes", `Some(false)` for "no",
/// case-insensitively, `None` for anything else.
fn read_choice(vote: &str) -> (r: Option<bool>)
    ensures
        is_yes_vote(vote@) ==> r == Some(true),
        is_no_vote(vote@) ==> r == Some(false),
        !is_yes_vote(vote@) && !is_no_vote(vote@) ==> r == None::<bool>,
{
    let n = vote.unicode_len();
    if n == 3 {
        let c0 = vote.get_char(0);
        let c1 = vote.get_char(1);
        let c2 = vote.get_char(2);
        if (c0 == 'y' || c0 == 'Y') && (c1 == 'e' || c1 == 'E') && (c2 == 's' || c2 == 'S') {
            Some(true)
        } else {
            None
        }
    } else if n == 2 {
        let c0 = vote.get_char(0);
        let c1 = vote.get_char(1);
        if (c0 == 'n' || c0 == 'N') && (c1 == 'o' || c1 == 'O') {
            Some(false)
        } else {
            None
        }
    } else {
        None
    }
}

/// A current member casts one yes/no vote. The vote that completes the tally
/// — one distinct voter per current member — resolves the proposal in the
/// same step, by strict majority, and an acceptance applies the proposal's
/// effect to the team: a tournament selection registers the tournament
/// (never twice), a prize distribution installs its table. A resolved
/// proposal never takes another vote.
pub fn give_vote(team: &mut Team, proposal: &mut Proposal, caller: PlayerId, vote: &str) -> (r:
    Result<(), ErrorCode>)
    requires
        old(team).wf(),
        old(proposal).wf(),
    ensures
        final(team).wf(),
        final(proposal).wf(),
        ({
            let pre_t = *old(team);
            let post_t = *final(team);
            let pre_p = *old(proposal);
            let post_p = *final(proposal);
            if !(pre_p.status is Active) {
                r == Err::<(), ErrorCode>(ErrorCode::ProposalClosed) && post_t == pre_t && post_p
                    == pre_p
            } else if !pre_t.players@.contains(caller) {
                r == Err::<(), ErrorCode>(ErrorCode::NotAMember) && post_t == pre_t && post_p
                    == pre_p
            } else if pre_p.voted_players@.contains(caller) {
                r == Err::<(), ErrorCode>(ErrorCode::AlreadyVoted) && post_t == pre_t && post_p
                    == pre_p
            } else if !is_yes_vote(vote@) && !is_no_vote(vote@) {
                r == Err::<(), ErrorCode>(ErrorCode::InvalidChoice) && post_t == pre_t && post_p
                    == pre_p
            } else {
                &&& r == Ok::<(), ErrorCode>(())
                &&& post_p.voted_players@ == pre_p.voted_players@.push(caller)
                &&& post_p.vote_yes == pre_p.vote_yes + (if is_yes_vote(vote@) {
                    1int
                } else {
                    0int
                })
                &&& post_p.vote_no == pre_p.vote_no + (if is_yes_vote(vote@) {
                    0int
                } else {
                    1int
                })
                &&& post_p.title == pre_p.title
                &&& post_p.kind == pre_p.kind
                &&& post_p.tournament_name == pre_p.tournament_name
                &&& post_p.prize_table == pre_p.prize_table
                &&& post_p.claimed_players == pre_p.claimed_players
                &&& (if pre_p.voted_players@.len() + 1 == pre_t.players@.len() {
                    &&& post_p.status == resolved_status(
                        post_p.vote_yes as int,
                        post_p.vote_no as int,
                    )
                    &&& (if post_p.status is Accepted {
                        if pre_p.kind is TournamentSelection {
                            &&& post_t.prize_distribution == pre_t.prize_distribution
                            &&& (if has_name(pre_t.tournaments@, pre_p.tournament_name@) {
                                post_t == pre_t
                            } else {
                                post_t.tournaments@ == pre_t.tournaments@.push(
                                    pre_p.tournament_name,
                                ) && unchanged_but_outcome(pre_t, post_t)
                            })
                        } else {
                            &&& post_t.prize_distribution@ == pre_p.prize_table@
                            &&& post_t.tournaments == pre_t.tournaments
                            &&& unchanged_but_outcome(pre_t, post_t)
                        }
                    } else {
                        post_t == pre_t
                    })
                } else {
                    post_p.status is Active && post_t == pre_t
                })
            }
        }),
{
    if !matches!(proposal.status, ProposalStatus::Active) {
        return Err(ErrorCode::ProposalClosed);
    }
    if !contains_player(&team.players, caller) {
        return Err(ErrorCode::NotAMember);
    }
    if contains_player(&proposal.voted_players, caller) {
        return Err(ErrorCode::AlreadyVoted);
    }
    let voted_yes = match read_choice(vote) {
        Some(b) => b,
        None => {
            return Err(ErrorCode::InvalidChoice);
        },
    };
    proposal.voted_players.push(caller);
    let n_voted = proposal.voted_players.len();
    if voted_yes {
        proposal.vote_yes = proposal.vote_yes + 1;
    } else {
        proposal.vote_no = proposal.vote_no + 1;
    }
    if n_voted == team.players.len() {
        if proposal.vote_yes > proposal.vote_no {
            proposal.status = ProposalStatus::Accepted;
            match proposal.kind {
                ProposalKind::TournamentSelection => {
                    if !contains_name(&team.tournaments, &proposal.tournament_name) {
                        let ghost pre_names = team.tournaments@;
                        team.tournaments.push(proposal.tournament_name.clone());
                        proof {
                            assert forall|i: int, j: int|
                                0 <= i < j < team.tournaments@.len() implies team.tournaments@[i]@
                                != team.tournaments@[j]@ by {
                                if j < pre_names.len() {
                                    assert(team.tournaments@[i]@ == pre_names[i]@);
                                    assert(team.tournaments@[j]@ == pre_names[j]@);
                                } else {
                                    assert(team.tournaments@[j]@ == old(
                                        proposal,
                                    ).tournament_name@);
                                    assert(team.tournaments@[i]@ == pre_names[i]@);
                                }
                            }
                        }
                    }
                },
                ProposalKind::PrizeDistribution => {
                    team.prize_distribution = copy_table(&proposal.prize_table);
                },
            }
        } else if proposal.vote_yes < proposal.vote_no {
            proposal.status = ProposalStatus::Rejected;
        } else {
            proposal.status = ProposalStatus::Draw;
        }
    }
    Ok(())
}

} // verus!
