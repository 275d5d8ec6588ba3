use vstd::prelude::*;

use crate::error::ErrorCode;

verus! {

/// A member identity, pre-verified by the caller's environment; the library
/// only ever compares identities for equality.
pub type PlayerId = u64;

/// True when some entry of `s` reads as the name `x`.
pub open spec fn has_name(s: Seq<String>, x: Seq<char>) -> bool {
    exists|i: int| 0 <= i < s.len() && s[i]@ == x
}

/// True when no two entries of `s` read as the same name.
pub open spec fn distinct_names(s: Seq<String>) -> bool {
    forall|i: int, j: int| 0 <= i < j < s.len() ==> s[i]@ != s[j]@
}

/// Linear scan for a name among a roster of names.
pub fn contains_name(v: &Vec<String>, x: &String) -> (r: bool)
    ensures
        r == has_name(v@, x@),
{
    let mut i: usize = 0;
    while i < v.len()
        invariant
            i <= v@.len(),
            forall|k: int| 0 <= k < i ==> v@[k]@ != x@,
        decreases v@.len() - i,
    {
        if v[i] == *x {
            return true;
        }
        i = i + 1;
    }
    false
}

/// Linear scan for a player among a roster of identities.
pub fn contains_player(v: &Vec<PlayerId>, p: PlayerId) -> (r: bool)
    ensures
        r == v@.contains(p),
{
    let mut i: usize = 0;
    while i < v.len()
        invariant
            i <= v@.len(),
            forall|k: int| 0 <= k < i ==> v@[k] != p,
        decreases v@.len() - i,
    {
        if v[i] == p {
            return true;
        }
        i = i + 1;
    }
    false
}

/// Position of a player known to be on the roster: the first index holding
/// the player's identity.
pub fn index_of_player(v: &Vec<PlayerId>, p: PlayerId) -> (idx: usize)
    requires
        v@.contains(p),
    ensures
        idx < v@.len(),
        v@[idx as int] == p,
        forall|k: int| 0 <= k < idx ==> v@[k] != p,
{
    let mut i: usize = 0;
    while i < v.len()
        invariant
            i <= v@.len(),
            v@.contains(p),
            forall|k: int| 0 <= k < i ==> v@[k] != p,
        decreases v@.len() - i,
    {
        if v[i] == p {
            return i;
        }
        i = i + 1;
    }
    proof {
        let w = choose|k: int| 0 <= k < v@.len() && v@[k] == p;
        assert(false);
    }
    0
}

/// A named group with a capacity-bounded roster of members and one captain.
#[derive(Debug)]
pub struct Team {
    /// Unique, immutable team name; doubles as the store key.
    pub name: String,
    /// Maximum member count, fixed at creation, at least 1.
    pub player_capacity: u32,
    /// Ordered roster of members, without duplicates, within capacity.
    pub players: Vec<PlayerId>,
    /// The one member who may invite, create proposals, and hand the role on.
    pub team_captain: PlayerId,
    /// Identities invited but not yet joined; never pruned, so stale or
    /// repeated entries are tolerated.
    pub invited_players: Vec<PlayerId>,
    /// Distinct tournament names the team has been voted into.
    pub tournaments: Vec<String>,
    /// Percentage share per roster position once a prize distribution is
    /// accepted; empty until then, and sums to 100 when present.
    pub prize_distribution: Vec<u32>,
}

impl Team {
    /// Well-formedness: every membership and governance operation preserves
    /// this, so the roster is never empty, never outgrows its capacity, and
    /// never repeats a member.
    pub open spec fn wf(self) -> bool {
        &&& self.player_capacity >= 1
        &&& 1 <= self.players@.len() <= self.player_capacity
        &&& self.players@.no_duplicates()
        &&& distinct_names(self.tournaments@)
        &&& (self.prize_distribution@.len() > 0 ==> crate::percent::table_sum(
            self.prize_distribution@,
        ) == 100)
    }
}

/// The law of the roster: a well-formed team — and every membership
/// operation ends in one — is never empty, never carries more members than
/// its capacity, and never repeats a member.
pub proof fn lemma_roster_within_capacity(t: Team)
    requires
        t.wf(),
    ensures
        1 <= t.players@.len() <= t.player_capacity,
        t.players@.no_duplicates(),
{
}

/// The two teams agree on every field except possibly the invite list.
pub open spec fn unchanged_but_invited(pre: Team, post: Team) -> bool {
    &&& post.name == pre.name
    &&& post.player_capacity == pre.player_capacity
    &&& post.players == pre.players
    &&& post.team_captain == pre.team_captain
    &&& post.tournaments == pre.tournaments
    &&& post.prize_distribution == pre.prize_distribution
}

/// The two teams agree on every field except possibly the roster.
pub open spec fn unchanged_but_players(pre: Team, post: Team) -> bool {
    &&& post.name == pre.name
    &&& post.player_capacity == pre.player_capacity
    &&& post.team_captain == pre.team_captain
    &&& post.invited_players == pre.invited_players
    &&& post.tournaments == pre.tournaments
    &&& post.prize_distribution == pre.prize_distribution
}

/// The two teams agree on every field except possibly the captaincy.
pub open spec fn unchanged_but_captain(pre: Team, post: Team) -> bool {
    &&& post.name == pre.name
    &&& post.player_capacity == pre.player_capacity
    &&& post.players == pre.players
    &&& post.invited_players == pre.invited_players
    &&& post.tournaments == pre.tournaments
    &&& post.prize_distribution == pre.prize_distribution
}

/// The two teams agree on every field except possibly the tournament roster
/// and the accepted prize table: the only fields a resolved proposal may
/// touch.
pub open spec fn unchanged_but_outcome(pre: Team, post: Team) -> bool {
    &&& post.name == pre.name
    &&& post.player_capacity == pre.player_capacity
    &&& post.players == pre.players
    &&& post.team_captain == pre.team_captain
    &&& post.invited_players == pre.invited_players
}

/// Creates a team: the creator becomes captain and sole roster member, and
/// every other list starts empty.
pub fn create_team(name: String, player_capacity: u32, creator: PlayerId) -> (r: Result<
    Team,
    ErrorCode,
>)
    ensures
        player_capacity == 0 ==> r == Err::<Team, ErrorCode>(ErrorCode::InvalidCapacity),
        player_capacity >= 1 ==> (match r {
            Ok(t) => {
                &&& t.wf()
                &&& t.name == name
                &&& t.player_capacity == player_capacity
                &&& t.players@ == seq![creator]
                &&& t.team_captain == creator
                &&& t.invited_players@.len() == 0
                &&& t.tournaments@.len() == 0
                &&& t.prize_distribution@.len() == 0
            },
            Err(_) => false,
        }),
{
    if player_capacity == 0 {
        return Err(ErrorCode::InvalidCapacity);
    }
    let mut players: Vec<PlayerId> = Vec::new();
    players.push(creator);
    let t = Team {
        name,
        player_capacity,
        players,
        team_captain: creator,
        invited_players: Vec::new(),
        tournaments: Vec::new(),
        prize_distribution: Vec::new(),
    };
    proof {
        assert(t.players@ =~= seq![creator]);
    }
    Ok(t)
}

/// The captain invites a player. The capacity check deliberately bounds the
/// invite list itself, and repeated invitations of a player who has not yet
/// joined are tolerated.
pub fn invite_player(team: &mut Team, caller: PlayerId, target: PlayerId) -> (r: Result<
    (),
    ErrorCode,
>)
    requires
        old(team).wf(),
    ensures
        final(team).wf(),
        ({
            let pre = *old(team);
            let post = *final(team);
            if caller != pre.team_captain {
                r == Err::<(), ErrorCode>(ErrorCode::NotCaptain) && post == pre
            } else if pre.invited_players@.len() >= pre.player_capacity {
                r == Err::<(), ErrorCode>(ErrorCode::TeamFull) && post == pre
            } else if pre.players@.contains(target) {
                r == Err::<(), ErrorCode>(ErrorCode::AlreadyMember) && post == pre
            } else {
                r == Ok::<(), ErrorCode>(()) && post.invited_players@
                    == pre.invited_players@.push(target) && unchanged_but_invited(pre, post)
            }
        }),
{
    if caller != team.team_captain {
        return Err(ErrorCode::NotCaptain);
    }
    if team.invited_players.len() >= team.player_capacity as usize {
        return Err(ErrorCode::TeamFull);
    }
    if contains_player(&team.players, target) {
        return Err(ErrorCode::AlreadyMember);
    }
    team.invited_players.push(target);
    Ok(())
}

/// An invited player joins the roster. Joining does not prune the invite
/// list, but a player already on the roster cannot join a second time, so
/// the roster never repeats an identity.
pub fn join_the_team(team: &mut Team, caller: PlayerId) -> (r: Result<(), ErrorCode>)
    requires
        old(team).wf(),
    ensures
        final(team).wf(),
        ({
            let pre = *old(team);
            let post = *final(team);
            if pre.players@.len() >= pre.player_capacity {
                r == Err::<(), ErrorCode>(ErrorCode::TeamFull) && post == pre
            } else if !pre.invited_players@.contains(caller) {
                r == Err::<(), ErrorCode>(ErrorCode::NotInvited) && post == pre
            } else if pre.players@.contains(caller) {
                r == Err::<(), ErrorCode>(ErrorCode::AlreadyMember) && post == pre
            } else {
                r == Ok::<(), ErrorCode>(()) && post.players@ == pre.players@.push(caller)
                    && unchanged_but_players(pre, post)
            }
        }),
{
    if team.players.len() >= team.player_capacity as usize {
        return Err(ErrorCode::TeamFull);
    }
    if !contains_player(&team.invited_players, caller) {
        return Err(ErrorCode::NotInvited);
    }
    if contains_player(&team.players, caller) {
        return Err(ErrorCode::AlreadyMember);
    }
    team.players.push(caller);
    Ok(())
}

/// A member leaves the roster — except the sole remaining member, whose
/// departure would empty it: a team's roster is never empty. The captaincy
/// is left untouched even when the captain departs, and in-flight proposals
/// are not adjusted.
pub fn leave_the_team(team: &mut Team, caller: PlayerId) -> (r: Result<(), ErrorCode>)
    requires
        old(team).wf(),
    ensures
        final(team).wf(),
        ({
            let pre = *old(team);
            let post = *final(team);
            if !pre.players@.contains(caller) {
                r == Err::<(), ErrorCode>(ErrorCode::NotAMember) && post == pre
            } else if pre.players@.len() == 1 {
                r == Err::<(), ErrorCode>(ErrorCode::SoleMember) && post == pre
            } else {
                r == Ok::<(), ErrorCode>(()) && (exists|i: int|
                    0 <= i < pre.players@.len() && pre.players@[i] == caller && post.players@
                        == pre.players@.remove(i)) && !post.players@.contains(caller)
                    && unchanged_but_players(pre, post)
            }
        }),
{
    if !contains_player(&team.players, caller) {
        return Err(ErrorCode::NotAMember);
    }
    if team.players.len() == 1 {
        return Err(ErrorCode::SoleMember);
    }
    let idx = index_of_player(&team.players, caller);
    let ghost pre = *team;
    team.players.remove(idx);
    proof {
        let s = pre.players@;
        s.remove_ensures(idx as int);
        assert(team.players@ == s.remove(idx as int));
        assert(s[idx as int] == caller);
        assert forall|k: int| 0 <= k < s.remove(idx as int).len() implies s.remove(idx as int)[k]
            != caller by {
            if k < idx {
                assert(s.remove(idx as int)[k] == s[k]);
            } else {
                assert(s.remove(idx as int)[k] == s[k + 1]);
                assert(s[k + 1] != s[idx as int]);
            }
        }
        assert forall|a: int, b: int|
            0 <= a < b < s.remove(idx as int).len() implies s.remove(idx as int)[a] != s.remove(
            idx as int,
        )[b] by {
            let oa = if a < idx {
                a
            } else {
                a + 1
            };
            let ob = if b < idx {
                b
            } else {
                b + 1
            };
            assert(s.remove(idx as int)[a] == s[oa]);
            assert(s.remove(idx as int)[b] == s[ob]);
            assert(s[oa] != s[ob]);
        }
        assert(team.players@.no_duplicates());
        assert(!team.players@.contains(caller));
    }
    Ok(())
}

/// The captain hands the role to another current member.
pub fn transfer_ownership(team: &mut Team, caller: PlayerId, new_captain: PlayerId) -> (r: Result<
    (),
    ErrorCode,
>)
    requires
        old(team).wf(),
    ensures
        final(team).wf(),
        ({
            let pre = *old(team);
            let post = *final(team);
            if caller != pre.team_captain {
                r == Err::<(), ErrorCode>(ErrorCode::NotCaptain) && post == pre
            } else if new_captain == pre.team_captain {
                r == Err::<(), ErrorCode>(ErrorCode::AlreadyCaptain) && post == pre
            } else if !pre.players@.contains(new_captain) {
                r == Err::<(), ErrorCode>(ErrorCode::NotAMember) && post == pre
            } else {
                r == Ok::<(), ErrorCode>(()) && post.team_captain == new_captain
                    && unchanged_but_captain(pre, post)
            }
        }),
{
    if caller != team.team_captain {
        return Err(ErrorCode::NotCaptain);
    }
    if new_captain == team.team_captain {
        return Err(ErrorCode::AlreadyCaptain);
    }
    if !contains_player(&team.players, new_captain) {
        return Err(ErrorCode::NotAMember);
    }
    team.team_captain = new_captain;
    Ok(())
}

} // verus!
