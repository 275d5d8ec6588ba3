use team_dao_voting::error::ErrorCode;
use team_dao_voting::proposal::{create_proposal, ProposalKind, ProposalStatus};
use team_dao_voting::team::{create_team, invite_player, join_the_team, Team};
use team_dao_voting::voting::give_vote;

fn team_of(capacity: u32, members: &[u64]) -> Team {
    let mut team = create_team("alpha".to_string(), capacity, members[0]).unwrap();
    for m in &members[1..] {
        invite_player(&mut team, members[0], *m).unwrap();
        join_the_team(&mut team, *m).unwrap();
    }
    team
}

/// A team whose members have voted the tournament "champs" in.
fn team_with_tournament(capacity: u32, members: &[u64]) -> Team {
    let mut team = team_of(capacity, members);
    let mut p = create_proposal(
        &team,
        members[0],
        "pick".to_string(),
        ProposalKind::TournamentSelection,
        "champs".to_string(),
        Vec::new(),
    )
    .unwrap();
    for m in members {
        give_vote(&mut team, &mut p, *m, "yes").unwrap();
    }
    assert_eq!(team.tournaments, vec!["champs".to_string()]);
    team
}

#[test]
fn tournament_selection_initializes_fields() {
    let team = team_of(3, &[1, 2]);
    let p = create_proposal(
        &team,
        1,
        "t1".to_string(),
        ProposalKind::TournamentSelection,
        "champs".to_string(),
        Vec::new(),
    )
    .unwrap();
    assert_eq!(p.title, "t1");
    assert_eq!(p.kind, ProposalKind::TournamentSelection);
    assert_eq!(p.tournament_name, "champs");
    assert!(p.prize_table.is_empty());
    assert_eq!(p.vote_yes, 0);
    assert_eq!(p.vote_no, 0);
    assert_eq!(p.status, ProposalStatus::Active);
    assert!(p.voted_players.is_empty());
    assert!(p.claimed_players.is_empty());
}

#[test]
fn create_proposal_requires_captain() {
    let team = team_of(3, &[1, 2]);
    let r = create_proposal(
        &team,
        2,
        "t1".to_string(),
        ProposalKind::TournamentSelection,
        "champs".to_string(),
        Vec::new(),
    );
    assert_eq!(r.unwrap_err(), ErrorCode::NotCaptain);
}

#[test]
fn create_proposal_rejects_empty_tournament_name() {
    let team = team_of(3, &[1]);
    let r = create_proposal(
        &team,
        1,
        "t1".to_string(),
        ProposalKind::TournamentSelection,
        "".to_string(),
        Vec::new(),
    );
    assert_eq!(r.unwrap_err(), ErrorCode::InvalidTournamentName);
    let r = create_proposal(
        &team,
        1,
        "t1".to_string(),
        ProposalKind::PrizeDistribution,
        "".to_string(),
        vec![100],
    );
    assert_eq!(r.unwrap_err(), ErrorCode::InvalidTournamentName);
}

#[test]
fn prize_distribution_requires_registered_tournament() {
    let team = team_of(3, &[1, 2]);
    let r = create_proposal(
        &team,
        1,
        "t1".to_string(),
        ProposalKind::PrizeDistribution,
        "champs".to_string(),
        vec![60, 40],
    );
    assert_eq!(r.unwrap_err(), ErrorCode::InvalidTournamentName);
}

#[test]
fn prize_distribution_rejects_empty_table() {
    let team = team_with_tournament(3, &[1, 2]);
    let r = create_proposal(
        &team,
        1,
        "t1".to_string(),
        ProposalKind::PrizeDistribution,
        "champs".to_string(),
        Vec::new(),
    );
    assert_eq!(r.unwrap_err(), ErrorCode::InvalidPrizeTable);
}

#[test]
fn prize_distribution_rejects_wrong_table_length() {
    let team = team_with_tournament(3, &[1, 2]);
    let r = create_proposal(
        &team,
        1,
        "t1".to_string(),
        ProposalKind::PrizeDistribution,
        "champs".to_string(),
        vec![50, 30, 20],
    );
    assert_eq!(r.unwrap_err(), ErrorCode::InvalidPrizeTable);
}

#[test]
fn prize_distribution_rejects_table_not_summing_to_100() {
    let team = team_with_tournament(3, &[1, 2]);
    let r = create_proposal(
        &team,
        1,
        "t1".to_string(),
        ProposalKind::PrizeDistribution,
        "champs".to_string(),
        vec![60, 41],
    );
    assert_eq!(r.unwrap_err(), ErrorCode::InvalidPrizeTable);
}

#[test]
fn prize_distribution_accepts_exact_table() {
    let team = team_with_tournament(3, &[1, 2]);
    let p = create_proposal(
        &team,
        1,
        "t1".to_string(),
        ProposalKind::PrizeDistribution,
        "champs".to_string(),
        vec![60, 40],
    )
    .unwrap();
    assert_eq!(p.kind, ProposalKind::PrizeDistribution);
    assert_eq!(p.prize_table, vec![60, 40]);
    assert_eq!(p.status, ProposalStatus::Active);
}
