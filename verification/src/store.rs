use vstd::prelude::*;

use crate::error::ErrorCode;
use crate::proposal::{
    create_proposal as new_proposal, fresh_proposal, proposal_error, Proposal, ProposalKind,
};
use crate::team::{create_team as new_team, PlayerId, Team};

verus! {

/// An in-memory keyed store for the governance entities: one team per name,
/// one proposal per title, with "already exists" signaling on creation.
pub struct EntityStore {
    /// Teams, keyed by their unique names.
    pub teams: Vec<Team>,
    /// Proposals, keyed by their unique titles.
    pub proposals: Vec<Proposal>,
}

impl EntityStore {
    /// Some stored team carries the name `name`.
    pub open spec fn has_team(self, name: Seq<char>) -> bool {
        exists|i: int| 0 <= i < self.teams@.len() && self.teams@[i].name@ == name
    }

    /// Some stored proposal carries the title `title`.
    pub open spec fn has_proposal(self, title: Seq<char>) -> bool {
        exists|i: int| 0 <= i < self.proposals@.len() && self.proposals@[i].title@ == title
    }

    /// Index of the stored team carrying the name `name`; with unique keys
    /// and a name that is present, the one such index.
    pub open spec fn spec_team_index(self, name: Seq<char>) -> int {
        choose|i: int| 0 <= i < self.teams@.len() && self.teams@[i].name@ == name
    }

    /// The stored team carrying the name `name`.
    pub open spec fn team_named(self, name: Seq<char>) -> Team {
        self.teams@[self.spec_team_index(name)]
    }

    /// Keys are unique and every stored entity is well-formed.
    pub open spec fn wf(self) -> bool {
        &&& forall|i: int, j: int|
            0 <= i < j < self.teams@.len() ==> self.teams@[i].name@ != self.teams@[j].name@
        &&& forall|i: int|
            0 <= i < self.teams@.len() ==> (#[trigger] self.teams@[i]).wf()
        &&& forall|i: int, j: int|
            0 <= i < j < self.proposals@.len() ==> self.proposals@[i].title@
                != self.proposals@[j].title@
        &&& forall|i: int|
            0 <= i < self.proposals@.len() ==> (#[trigger] self.proposals@[i]).wf()
    }

    /// An empty store.
    pub fn new() -> (s: EntityStore)
        ensures
            s.wf(),
            s.teams@.len() == 0,
            s.proposals@.len() == 0,
    {
        EntityStore { teams: Vec::new(), proposals: Vec::new() }
    }

    /// Whether a team of this name is stored.
    pub fn contains_team(&self, name: &String) -> (r: bool)
        ensures
            r == self.has_team(name@),
    {
        let mut i: usize = 0;
        while i < self.teams.len()
            invariant
                i <= self.teams@.len(),
                forall|k: int| 0 <= k < i ==> self.teams@[k].name@ != name@,
            decreases self.teams@.len() - i,
        {
            if self.teams[i].name == *name {
                return true;
            }
            i = i + 1;
        }
        false
    }

    /// Whether a proposal of this title is stored.
    pub fn contains_proposal(&self, title: &String) -> (r: bool)
        ensures
            r == self.has_proposal(title@),
    {
        let mut i: usize = 0;
        while i < self.proposals.len()
            invariant
                i <= self.proposals@.len(),
                forall|k: int| 0 <= k < i ==> self.proposals@[k].title@ != title@,
            decreases self.proposals@.len() - i,
        {
            if self.proposals[i].title == *title {
                return true;
            }
            i = i + 1;
        }
        false
    }

    /// Creates and stores a team under a fresh name: the name must not be
    /// taken and the capacity must be at least 1.
    pub fn create_team(&mut self, name: String, player_capacity: u32, creator: PlayerId) -> (r:
        Result<(), ErrorCode>)
        requires
            old(self).wf(),
        ensures
            final(self).wf(),
            ({
                let pre = *old(self);
                let post = *final(self);
                if pre.has_team(name@) {
                    r == Err::<(), ErrorCode>(ErrorCode::DuplicateTeam) && post == pre
                } else if player_capacity == 0 {
                    r == Err::<(), ErrorCode>(ErrorCode::InvalidCapacity) && post == pre
                } else {
                    &&& r == Ok::<(), ErrorCode>(())
                    &&& post.proposals == pre.proposals
                    &&& post.teams@.len() == pre.teams@.len() + 1
                    &&& (forall|i: int|
                        0 <= i < pre.teams@.len() ==> post.teams@[i] == pre.teams@[i])
                    &&& ({
                        let t = post.teams@.last();
                        &&& t.wf()
                        &&& t.name == name
                        &&& t.player_capacity == player_capacity
                        &&& t.players@ == seq![creator]
                        &&& t.team_captain == creator
                        &&& t.invited_players@.len() == 0
                        &&& t.tournaments@.len() == 0
                        &&& t.prize_distribution@.len() == 0
                    })
                }
            }),
    {
        if self.contains_team(&name) {
            return Err(ErrorCode::DuplicateTeam);
        }
        let ghost pre = *self;
        match new_team(name, player_capacity, creator) {
            Ok(t) => {
                self.teams.push(t);
                proof {
                    assert forall|i: int, j: int|
                        0 <= i < j < self.teams@.len() implies self.teams@[i].name@
                        != self.teams@[j].name@ by {
                        if j < pre.teams@.len() {
                            assert(self.teams@[i] == pre.teams@[i]);
                            assert(self.teams@[j] == pre.teams@[j]);
                        } else {
                            assert(self.teams@[i] == pre.teams@[i]);
                        }
                    }
                }
                Ok(())
            },
            Err(e) => Err(e),
        }
    }

    /// Stores a proposal under a fresh title; the title must not be taken.
    pub fn add_proposal(&mut self, p: Proposal) -> (r: Result<(), ErrorCode>)
        requires
            old(self).wf(),
            p.wf(),
        ensures
            final(self).wf(),
            ({
                let pre = *old(self);
                let post = *final(self);
                if pre.has_proposal(p.title@) {
                    r == Err::<(), ErrorCode>(ErrorCode::DuplicateProposal) && post == pre
                } else {
                    &&& r == Ok::<(), ErrorCode>(())
                    &&& post.teams == pre.teams
                    &&& post.proposals@ == pre.proposals@.push(p)
                }
            }),
    {
        if self.contains_proposal(&p.title) {
            return Err(ErrorCode::DuplicateProposal);
        }
        let ghost pre = *self;
        self.proposals.push(p);
        proof {
            assert forall|i: int, j: int|
                0 <= i < j < self.proposals@.len() implies self.proposals@[i].title@
                != self.proposals@[j].title@ by {
                if j < pre.proposals@.len() {
                    assert(self.proposals@[i] == pre.proposals@[i]);
                    assert(self.proposals@[j] == pre.proposals@[j]);
                } else {
                    assert(self.proposals@[i] == pre.proposals@[i]);
                }
            }
        }
        Ok(())
    }

    /// Position of the stored team carrying a name known to be present.
    fn team_index(&self, name: &String) -> (idx: usize)
        requires
            self.wf(),
            self.has_team(name@),
        ensures
            idx < self.teams@.len(),
            self.teams@[idx as int].name@ == name@,
            idx as int == self.spec_team_index(name@),
    {
        let mut i: usize = 0;
        while i < self.teams.len()
            invariant
                self.wf(),
                self.has_team(name@),
                i <= self.teams@.len(),
                forall|k: int| 0 <= k < i ==> self.teams@[k].name@ != name@,
            decreases self.teams@.len() - i,
        {
            if self.teams[i].name == *name {
                proof {
                    let j = self.spec_team_index(name@);
                    assert(0 <= j < self.teams@.len() && self.teams@[j].name@ == name@);
                }
                return i;
            }
            i = i + 1;
        }
        proof {
            let w = choose|k: int| 0 <= k < self.teams@.len() && self.teams@[k].name@ == name@;
            assert(false);
        }
        0
    }

    /// The full proposal-creation operation against a stored team: a fresh
    /// title comes first, then the captaincy and per-kind validation, and a
    /// valid proposal is stored under its title.
    pub fn create_proposal(
        &mut self,
        team_name: &String,
        caller: PlayerId,
        title: String,
        kind: ProposalKind,
        tournament_name: String,
        prize_table: Vec<u32>,
    ) -> (r: Result<(), ErrorCode>)
        requires
            old(self).wf(),
            old(self).has_team(team_name@),
        ensures
            final(self).wf(),
            ({
                let pre = *old(self);
                let post = *final(self);
                if pre.has_proposal(title@) {
                    r == Err::<(), ErrorCode>(ErrorCode::DuplicateProposal) && post == pre
                } else {
                    match proposal_error(
                        pre.team_named(team_name@),
                        caller,
                        kind,
                        tournament_name@,
                        prize_table@,
                    ) {
                        Some(e) => r == Err::<(), ErrorCode>(e) && post == pre,
                        None => {
                            &&& r == Ok::<(), ErrorCode>(())
                            &&& post.teams == pre.teams
                            &&& post.proposals@.len() == pre.proposals@.len() + 1
                            &&& (forall|i: int|
                                0 <= i < pre.proposals@.len() ==> post.proposals@[i]
                                    == pre.proposals@[i])
                            &&& post.proposals@.last().wf()
                            &&& fresh_proposal(
                                post.proposals@.last(),
                                title@,
                                kind,
                                tournament_name@,
                                prize_table@,
                            )
                        },
                    }
                }
            }),
    {
        if self.contains_proposal(&title) {
            return Err(ErrorCode::DuplicateProposal);
        }
        let ti = self.team_index(team_name);
        let p = match new_proposal(&self.teams[ti], caller, title, kind, tournament_name,
            prize_table) {
            Ok(p) => p,
            Err(e) => {
                return Err(e);
            },
        };
        match self.add_proposal(p) {
            Ok(u) => Ok(u),
            Err(_) => {
                proof {
                    assert(false);
                }
                Err(ErrorCode::DuplicateProposal)
            },
        }
    }

    /// Removes and hands out the team of this name, for a read-modify-write
    /// round trip that ends with `put_team`.
    pub fn take_team(&mut self, name: &String) -> (r: Option<Team>)
        requires
            old(self).wf(),
        ensures
            final(self).wf(),
            ({
                let pre = *old(self);
                let post = *final(self);
                match r {
                    Some(t) => {
                        &&& t.name@ == name@
                        &&& t.wf()
                        &&& pre.has_team(name@)
                        &&& post.proposals == pre.proposals
                        &&& (exists|i: int|
                            0 <= i < pre.teams@.len() && pre.teams@[i] == t && post.teams@
                                == pre.teams@.remove(i))
                        &&& !post.has_team(name@)
                    },
                    None => !pre.has_team(name@) && post == pre,
                }
            }),
    {
        if !self.contains_team(name) {
            return None;
        }
        let ti = self.team_index(name);
        let ghost pre = *self;
        let ghost idx = ti as int;
        let t = self.teams.remove(ti);
        proof {
            let s = pre.teams@;
            s.remove_ensures(idx);
            assert forall|a: int, b: int|
                0 <= a < b < self.teams@.len() implies self.teams@[a].name@
                != self.teams@[b].name@ by {
                let oa = if a < idx {
                    a
                } else {
                    a + 1
                };
                let ob = if b < idx {
                    b
                } else {
                    b + 1
                };
                assert(self.teams@[a] == s[oa]);
                assert(self.teams@[b] == s[ob]);
            }
            assert forall|k: int| 0 <= k < self.teams@.len() implies self.teams@[k].name@
                != name@ by {
                let ok = if k < idx {
                    k
                } else {
                    k + 1
                };
                assert(self.teams@[k] == s[ok]);
                assert(s[idx].name@ == name@);
            }
            assert forall|k: int| 0 <= k < self.teams@.len() implies (#[trigger] self.teams@[k]).wf() by {
                let ok = if k < idx {
                    k
                } else {
                    k + 1
                };
                assert(self.teams@[k] == s[ok]);
            }
        }
        Some(t)
    }

    /// Stores a team back under its name; the name must not be taken.
    pub fn put_team(&mut self, t: Team) -> (r: Result<(), ErrorCode>)
        requires
            old(self).wf(),
            t.wf(),
        ensures
            final(self).wf(),
            ({
                let pre = *old(self);
                let post = *final(self);
                if pre.has_team(t.name@) {
                    r == Err::<(), ErrorCode>(ErrorCode::DuplicateTeam) && post == pre
                } else {
                    &&& r == Ok::<(), ErrorCode>(())
                    &&& post.proposals == pre.proposals
                    &&& post.teams@ == pre.teams@.push(t)
                }
            }),
    {
        if self.contains_team(&t.name) {
            return Err(ErrorCode::DuplicateTeam);
        }
        let ghost pre = *self;
        self.teams.push(t);
        proof {
            assert forall|i: int, j: int|
                0 <= i < j < self.teams@.len() implies self.teams@[i].name@
                != self.teams@[j].name@ by {
                if j < pre.teams@.len() {
                    assert(self.teams@[i] == pre.teams@[i]);
                    assert(self.teams@[j] == pre.teams@[j]);
                } else {
                    assert(self.teams@[i] == pre.teams@[i]);
                }
            }
        }
        Ok(())
    }

    /// Removes and hands out the proposal of this title, for a
    /// read-modify-write round trip that ends with `add_proposal`.
    pub fn take_proposal(&mut self, title: &String) -> (r: Option<Proposal>)
        requires
            old(self).wf(),
        ensures
            final(self).wf(),
            ({
                let pre = *old(self);
                let post = *final(self);
                match r {
                    Some(p) => {
                        &&& p.title@ == title@
                        &&& p.wf()
                        &&& pre.has_proposal(title@)
                        &&& post.teams == pre.teams
                        &&& (exists|i: int|
                            0 <= i < pre.proposals@.len() && pre.proposals@[i] == p
                                && post.proposals@ == pre.proposals@.remove(i))
                        &&& !post.has_proposal(title@)
                    },
                    None => !pre.has_proposal(title@) && post == pre,
                }
            }),
    {
        let mut i: usize = 0;
        while i < self.proposals.len()
            invariant
                old(self).wf(),
                *self == *old(self),
                i <= self.proposals@.len(),
                forall|k: int| 0 <= k < i ==> self.proposals@[k].title@ != title@,
            decreases self.proposals@.len() - i,
        {
            if self.proposals[i].title == *title {
                let ghost pre = *self;
                let ghost idx = i as int;
                let p = self.proposals.remove(i);
                proof {
                    let s = pre.proposals@;
                    s.remove_ensures(idx);
                    assert forall|a: int, b: int|
                        0 <= a < b < self.proposals@.len() implies self.proposals@[a].title@
                        != self.proposals@[b].title@ by {
                        let oa = if a < idx {
                            a
                        } else {
                            a + 1
                        };
                        let ob = if b < idx {
                            b
                        } else {
                            b + 1
                        };
                        assert(self.proposals@[a] == s[oa]);
                        assert(self.proposals@[b] == s[ob]);
                    }
                    assert forall|k: int| 0 <= k < self.proposals@.len() implies self.proposals@[k].title@ != title@ by {
                        let ok = if k < idx {
                            k
                        } else {
                            k + 1
                        };
                        assert(self.proposals@[k] == s[ok]);
                        assert(s[idx].title@ == title@);
                    }
                    assert forall|k: int|
                        0 <= k < self.proposals@.len() implies (#[trigger] self.proposals@[k]).wf() by {
                        let ok = if k < idx {
                            k
                        } else {
                            k + 1
                        };
                        assert(self.proposals@[k] == s[ok]);
                    }
                }
                return Some(p);
            }
            i = i + 1;
        }
        None
    }

    /// Looks a team up by name.
    pub fn get_team(&self, name: &String) -> (r: Option<&Team>)
        requires
            self.wf(),
        ensures
            match r {
                Some(t) => t.name@ == name@ && self.teams@.contains(*t) && t.wf(),
                None => !self.has_team(name@),
            },
    {
        let mut i: usize = 0;
        while i < self.teams.len()
            invariant
                i <= self.teams@.len(),
                forall|k: int| 0 <= k < i ==> self.teams@[k].name@ != name@,
                self.wf(),
            decreases self.teams@.len() - i,
        {
            if self.teams[i].name == *name {
                return Some(&self.teams[i]);
            }
            i = i + 1;
        }
        None
    }

    /// Looks a proposal up by title.
    pub fn get_proposal(&self, title: &String) -> (r: Option<&Proposal>)
        requires
            self.wf(),
        ensures
            match r {
                Some(p) => p.title@ == title@ && self.proposals@.contains(*p) && p.wf(),
                None => !self.has_proposal(title@),
            },
    {
        let mut i: usize = 0;
        while i < self.proposals.len()
            invariant
                i <= self.proposals@.len(),
                forall|k: int| 0 <= k < i ==> self.proposals@[k].title@ != title@,
                self.wf(),
            decreases self.proposals@.len() - i,
        {
            if self.proposals[i].title == *title {
                return Some(&self.proposals[i]);
            }
            i = i + 1;
        }
        None
    }
}

} // verus!
