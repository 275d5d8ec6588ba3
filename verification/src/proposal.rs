use vstd::prelude::*;

use crate::error::ErrorCode;
use crate::percent::{sum_table, table_sum};
use crate::team::{contains_name, has_name, PlayerId, Team};

verus! {

/// The closed set of proposal topics a captain may put to a vote.
#[derive(Clone, Copy, Debug, PartialEq, Eq, Structural)]
pub enum ProposalKind {
    /// Register the named tournament with the team on acceptance.
    TournamentSelection,
    /// Adopt a percentage prize table over the current roster on acceptance.
    PrizeDistribution,
}

/// Lifecycle of a proposal: it starts `Active` and is resolved exactly once
/// into one of the three terminal outcomes.
#[derive(Clone, Copy, Debug, PartialEq, Eq, Structural)]
pub enum ProposalStatus {
    Active,
    Accepted,
    Rejected,
    Draw,
}

/// A single-round yes/no referendum owned by a team's captain.
#[derive(Debug)]
pub struct Proposal {
    /// Unique title; doubles as the store key.
    pub title: String,
    /// Which of the two closed topics this proposal carries.
    pub kind: ProposalKind,
    /// Non-empty tournament name; for a prize distribution it names a
    /// tournament already registered with the team.
    pub tournament_name: String,
    /// Percentage share per roster position; present exactly for prize
    /// distributions, where it sums to 100.
    pub prize_table: Vec<u32>,
    /// Count of yes votes cast so far.
    pub vote_yes: u64,
    /// Count of no votes cast so far.
    pub vote_no: u64,
    /// Current lifecycle state.
    pub status: ProposalStatus,
    /// Identities that have voted; grows monotonically, never re-admits one.
    pub voted_players: Vec<PlayerId>,
    /// Identities that have claimed their prize share; meaningful only for an
    /// accepted prize distribution.
    pub claimed_players: Vec<PlayerId>,
}

impl Proposal {
    /// Well-formedness: creation establishes this and voting and claiming
    /// preserve it.
    pub open spec fn wf(self) -> bool {
        &&& self.vote_yes + self.vote_no == self.voted_players@.len()
        &&& self.voted_players@.no_duplicates()
        &&& self.claimed_players@.no_duplicates()
        &&& self.tournament_name@.len() >= 1
        &&& (self.kind is TournamentSelection ==> self.prize_table@.len() == 0)
        &&& (self.kind is PrizeDistribution ==> self.prize_table@.len() >= 1 && table_sum(
            self.prize_table@,
        ) == 100)
        &&& (!(self.status is Accepted && self.kind is PrizeDistribution)
            ==> self.claimed_players@.len() == 0)
    }
}

/// The first precondition a proposal request violates against this team,
/// checked in order: only the captain proposes; the tournament name is
/// non-empty; a prize distribution targets a registered tournament and
/// carries a table with one entry per current member summing to exactly 100.
pub open spec fn proposal_error(
    team: Team,
    caller: PlayerId,
    kind: ProposalKind,
    tournament_name: Seq<char>,
    prize_table: Seq<u32>,
) -> Option<ErrorCode> {
    if caller != team.team_captain {
        Some(ErrorCode::NotCaptain)
    } else if tournament_name.len() == 0 {
        Some(ErrorCode::InvalidTournamentName)
    } else if kind is PrizeDistribution && !has_name(team.tournaments@, tournament_name) {
        Some(ErrorCode::InvalidTournamentName)
    } else if kind is PrizeDistribution && (prize_table.len() == 0 || prize_table.len()
        != team.players@.len() || table_sum(prize_table) != 100) {
        Some(ErrorCode::InvalidPrizeTable)
    } else {
        None
    }
}

/// How a freshly created proposal reads: the requested title, kind and
/// tournament name, the requested table exactly for a prize distribution and
/// no table otherwise, an empty tally, and `Active` status.
pub open spec fn fresh_proposal(
    p: Proposal,
    title: Seq<char>,
    kind: ProposalKind,
    tournament_name: Seq<char>,
    prize_table: Seq<u32>,
) -> bool {
    &&& p.title@ == title
    &&& p.kind == kind
    &&& p.tournament_name@ == tournament_name
    &&& (kind is TournamentSelection ==> p.prize_table@.len() == 0)
    &&& (kind is PrizeDistribution ==> p.prize_table@ == prize_table)
    &&& p.vote_yes == 0
    &&& p.vote_no == 0
    &&& p.status is Active
    &&& p.voted_players@.len() == 0
    &&& p.claimed_players@.len() == 0
}

/// The captain opens a referendum against the team. A tournament selection
/// needs a non-empty tournament name; a prize distribution additionally needs
/// that tournament registered with the team, and a table with one entry per
/// current member summing to exactly 100.
pub fn create_proposal(
    team: &Team,
    caller: PlayerId,
    title: String,
    kind: ProposalKind,
    tournament_name: String,
    prize_table: Vec<u32>,
) -> (r: Result<Proposal, ErrorCode>)
    requires
        team.wf(),
    ensures
        match proposal_error(*team, caller, kind, tournament_name@, prize_table@) {
            Some(e) => r == Err::<Proposal, ErrorCode>(e),
            None => match r {
                Ok(p) => p.wf() && fresh_proposal(p, title@, kind, tournament_name@, prize_table@),
                Err(_) => false,
            },
        },
{
    if caller != team.team_captain {
        return Err(ErrorCode::NotCaptain);
    }
    if tournament_name.as_str().unicode_len() == 0 {
        return Err(ErrorCode::InvalidTournamentName);
    }
    match kind {
        ProposalKind::TournamentSelection => {
            Ok(
                Proposal {
                    title,
                    kind,
                    tournament_name,
                    prize_table: Vec::new(),
                    vote_yes: 0,
                    vote_no: 0,
                    status: ProposalStatus::Active,
                    voted_players: Vec::new(),
                    claimed_players: Vec::new(),
                },
            )
        },
        ProposalKind::PrizeDistribution => {
            if !contains_name(&team.tournaments, &tournament_name) {
                return Err(ErrorCode::InvalidTournamentName);
            }
            if prize_table.len() == 0 || prize_table.len() != team.players.len() {
                return Err(ErrorCode::InvalidPrizeTable);
            }
            let total = sum_table(&prize_table);
            if total != 100 {
                return Err(ErrorCode::InvalidPrizeTable);
            }
            Ok(
                Proposal {
                    title,
                    kind,
                    tournament_name,
                    prize_table,
                    vote_yes: 0,
                    vote_no: 0,
                    status: ProposalStatus::Active,
                    voted_players: Vec::new(),
                    claimed_players: Vec::new(),
                },
            )
        },
    }
}

} // verus!
