use team_dao_voting::error::ErrorCode;
use team_dao_voting::proposal::{create_proposal, Proposal, ProposalKind, ProposalStatus};
use team_dao_voting::team::{create_team, invite_player, join_the_team, Team};
use team_dao_voting::voting::give_vote;

fn team_of(capacity: u32, members: &[u64]) -> Team {
    let mut team = create_team("alpha".to_string(), capacity, members[0]).unwrap();
    for m in &members[1..] {
        invite_player(&mut team, members[0], *m).unwrap();
        join_the_team(&mut team, *m).unwrap();
    }
    team
}

fn selection_proposal(team: &Team) -> Proposal {
    create_proposal(
        team,
        team.team_captain,
        "pick".to_string(),
        ProposalKind::TournamentSelection,
        "champs".to_string(),
        Vec::new(),
    )
    .unwrap()
}

#[test]
fn two_yes_one_no_is_accepted() {
    let mut team = team_of(3, &[1, 2, 3]);
    let mut p = selection_proposal(&team);
    give_vote(&mut team, &mut p, 1, "yes").unwrap();
    give_vote(&mut team, &mut p, 2, "yes").unwrap();
    give_vote(&mut team, &mut p, 3, "no").unwrap();
    assert_eq!(p.vote_yes, 2);
    assert_eq!(p.vote_no, 1);
    assert_eq!(p.status, ProposalStatus::Accepted);
}

#[test]
fn one_yes_two_no_is_rejected() {
    let mut team = team_of(3, &[1, 2, 3]);
    let mut p = selection_proposal(&team);
    give_vote(&mut team, &mut p, 1, "yes").unwrap();
    give_vote(&mut team, &mut p, 2, "no").unwrap();
    give_vote(&mut team, &mut p, 3, "no").unwrap();
    assert_eq!(p.status, ProposalStatus::Rejected);
    assert!(team.tournaments.is_empty());
}

#[test]
fn yes_no_yes_is_accepted() {
    let mut team = team_of(3, &[1, 2, 3]);
    let mut p = selection_proposal(&team);
    give_vote(&mut team, &mut p, 1, "yes").unwrap();
    give_vote(&mut team, &mut p, 2, "no").unwrap();
    give_vote(&mut team, &mut p, 3, "yes").unwrap();
    assert_eq!(p.status, ProposalStatus::Accepted);
}

#[test]
fn tie_is_a_draw() {
    let mut team = team_of(4, &[1, 2, 3, 4]);
    let mut p = selection_proposal(&team);
    give_vote(&mut team, &mut p, 1, "yes").unwrap();
    give_vote(&mut team, &mut p, 2, "yes").unwrap();
    give_vote(&mut team, &mut p, 3, "no").unwrap();
    give_vote(&mut team, &mut p, 4, "no").unwrap();
    assert_eq!(p.status, ProposalStatus::Draw);
    assert!(team.tournaments.is_empty());
}

#[test]
fn votes_are_read_case_insensitively() {
    let mut team = team_of(3, &[1, 2, 3]);
    let mut p = selection_proposal(&team);
    give_vote(&mut team, &mut p, 1, "YES").unwrap();
    give_vote(&mut team, &mut p, 2, "yEs").unwrap();
    give_vote(&mut team, &mut p, 3, "No").unwrap();
    assert_eq!(p.vote_yes, 2);
    assert_eq!(p.vote_no, 1);
    assert_eq!(p.status, ProposalStatus::Accepted);
}

#[test]
fn invalid_choice_is_rejected_without_effect() {
    let mut team = team_of(3, &[1, 2]);
    let mut p = selection_proposal(&team);
    assert_eq!(give_vote(&mut team, &mut p, 1, "maybe").unwrap_err(), ErrorCode::InvalidChoice);
    assert_eq!(give_vote(&mut team, &mut p, 1, "").unwrap_err(), ErrorCode::InvalidChoice);
    assert_eq!(p.vote_yes, 0);
    assert_eq!(p.vote_no, 0);
    assert!(p.voted_players.is_empty());
}

#[test]
fn non_member_cannot_vote() {
    let mut team = team_of(3, &[1, 2]);
    let mut p = selection_proposal(&team);
    assert_eq!(give_vote(&mut team, &mut p, 9, "yes").unwrap_err(), ErrorCode::NotAMember);
}

#[test]
fn member_cannot_vote_twice() {
    let mut team = team_of(3, &[1, 2]);
    let mut p = selection_proposal(&team);
    give_vote(&mut team, &mut p, 1, "yes").unwrap();
    assert_eq!(give_vote(&mut team, &mut p, 1, "no").unwrap_err(), ErrorCode::AlreadyVoted);
    assert_eq!(p.vote_yes, 1);
    assert_eq!(p.vote_no, 0);
}

#[test]
fn resolution_waits_for_the_last_member() {
    let mut team = team_of(3, &[1, 2, 3]);
    let mut p = selection_proposal(&team);
    give_vote(&mut team, &mut p, 1, "yes").unwrap();
    assert_eq!(p.status, ProposalStatus::Active);
    give_vote(&mut team, &mut p, 2, "yes").unwrap();
    assert_eq!(p.status, ProposalStatus::Active);
    assert!(team.tournaments.is_empty());
    give_vote(&mut team, &mut p, 3, "no").unwrap();
    assert_eq!(p.status, ProposalStatus::Accepted);
    assert_eq!(team.tournaments, vec!["champs".to_string()]);
}

#[test]
fn resolved_proposal_takes_no_more_votes() {
    let mut team = team_of(1, &[1]);
    let mut p = selection_proposal(&team);
    give_vote(&mut team, &mut p, 1, "yes").unwrap();
    assert_eq!(p.status, ProposalStatus::Accepted);
    assert_eq!(give_vote(&mut team, &mut p, 1, "no").unwrap_err(), ErrorCode::ProposalClosed);
    assert_eq!(p.vote_yes, 1);
    assert_eq!(p.vote_no, 0);
    assert_eq!(p.status, ProposalStatus::Accepted);
}

#[test]
fn departure_lowers_the_required_voter_count() {
    let mut team = team_of(3, &[1, 2, 3]);
    let mut p = selection_proposal(&team);
    give_vote(&mut team, &mut p, 1, "yes").unwrap();
    assert_eq!(p.status, ProposalStatus::Active);
    // A member who never voted leaves: the tally is now measured against
    // the live roster of two.
    team_dao_voting::team::leave_the_team(&mut team, 3).unwrap();
    give_vote(&mut team, &mut p, 2, "yes").unwrap();
    assert_eq!(p.status, ProposalStatus::Accepted);
}

#[test]
fn accepted_selection_registers_tournament_once() {
    let mut team = team_of(1, &[1]);
    let mut p = selection_proposal(&team);
    give_vote(&mut team, &mut p, 1, "yes").unwrap();
    assert_eq!(team.tournaments, vec!["champs".to_string()]);
    // A second accepted selection of the same tournament does not register
    // it twice.
    let mut q = create_proposal(
        &team,
        1,
        "pick2".to_string(),
        ProposalKind::TournamentSelection,
        "champs".to_string(),
        Vec::new(),
    )
    .unwrap();
    give_vote(&mut team, &mut q, 1, "yes").unwrap();
    assert_eq!(q.status, ProposalStatus::Accepted);
    assert_eq!(team.tournaments, vec!["champs".to_string()]);
}

#[test]
fn accepted_distribution_installs_prize_table() {
    let mut team = team_of(2, &[1, 2]);
    let mut p = selection_proposal(&team);
    give_vote(&mut team, &mut p, 1, "yes").unwrap();
    give_vote(&mut team, &mut p, 2, "yes").unwrap();
    let mut d = create_proposal(
        &team,
        1,
        "split".to_string(),
        ProposalKind::PrizeDistribution,
        "champs".to_string(),
        vec![70, 30],
    )
    .unwrap();
    give_vote(&mut team, &mut d, 1, "yes").unwrap();
    give_vote(&mut team, &mut d, 2, "yes").unwrap();
    assert_eq!(d.status, ProposalStatus::Accepted);
    assert_eq!(team.prize_distribution, vec![70, 30]);
}

#[test]
fn rejected_distribution_leaves_team_untouched() {
    let mut team = team_of(2, &[1, 2]);
    let mut p = selection_proposal(&team);
    give_vote(&mut team, &mut p, 1, "yes").unwrap();
    give_vote(&mut team, &mut p, 2, "yes").unwrap();
    let mut d = create_proposal(
        &team,
        1,
        "split".to_string(),
        ProposalKind::PrizeDistribution,
        "champs".to_string(),
        vec![70, 30],
    )
    .unwrap();
    give_vote(&mut team, &mut d, 1, "no").unwrap();
    give_vote(&mut team, &mut d, 2, "no").unwrap();
    assert_eq!(d.status, ProposalStatus::Rejected);
    assert!(team.prize_distribution.is_empty());
}
