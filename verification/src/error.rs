use vstd::prelude::*;

verus! {

/// Every governance operation fails with one of these typed codes; a failing
/// operation leaves all entities unmodified.
#[derive(Clone, Copy, Debug, PartialEq, Eq, Structural)]
pub enum ErrorCode {
    /// A team with this name already exists in the store.
    DuplicateTeam,
    /// A team's player capacity must be at least 1.
    InvalidCapacity,
    /// The caller is not the team's captain.
    NotCaptain,
    /// The capacity bound blocks this membership operation.
    TeamFull,
    /// The target player is already on the roster.
    AlreadyMember,
    /// The caller was never invited to the team.
    NotInvited,
    /// The player in question is not on the roster.
    NotAMember,
    /// The sole remaining member cannot leave: a team's roster is never
    /// empty.
    SoleMember,
    /// The proposed new captain already holds the role.
    AlreadyCaptain,
    /// A proposal with this title already exists in the store.
    DuplicateProposal,
    /// The tournament name is empty, or not registered with the team.
    InvalidTournamentName,
    /// The prize table is empty, has the wrong length, or does not sum to 100.
    InvalidPrizeTable,
    /// The proposal has already been resolved.
    ProposalClosed,
    /// The caller has already voted on this proposal.
    AlreadyVoted,
    /// The vote is neither "yes" nor "no" (case-insensitive).
    InvalidChoice,
    /// The proposal is not an accepted prize distribution.
    ProposalInvalid,
    /// The prize pool amount is zero, or too large for an exact payout.
    InvalidPool,
    /// The caller has already claimed their share.
    AlreadyClaimed,
}

} // verus!
