//! In-memory model of the persistent store. The real service keeps
//! these collections in an external database reached over the network;
//! the core only issues the semantic operations modelled here: insert,
//! point query, predicate query, point update and predicate delete.

use vstd::prelude::*;

use crate::filter::candidate_ok;
use crate::profile::{Like, Location, PhotoId, Profile, ProfileV, ViewRecord};
use crate::profile::HearingLevel;
use crate::user::{MyUserId, User};

verus! {

/// Whether some profile in `s` belongs to `id`.
pub open spec fn has_profile(s: Seq<ProfileV>, id: MyUserId) -> bool {
    exists|i: int| 0 <= i < s.len() && s[i].id == id
}

/// Index of the profile belonging to `id`; meaningful only under the
/// store invariant, which makes it unique.
pub open spec fn profile_idx(s: Seq<ProfileV>, id: MyUserId) -> int {
    choose|i: int| 0 <= i < s.len() && s[i].id == id
}

/// Whether some user record in `s` belongs to `id`.
pub open spec fn has_user(s: Seq<User>, id: MyUserId) -> bool {
    exists|i: int| 0 <= i < s.len() && s[i].id == id
}

/// Index of the user record belonging to `id`; meaningful only under
/// the store invariant, which makes it unique.
pub open spec fn user_idx(s: Seq<User>, id: MyUserId) -> int {
    choose|i: int| 0 <= i < s.len() && s[i].id == id
}

/// The user record of `id` in `db` (meaningful when present).
pub open spec fn user_of(db: Database, id: MyUserId) -> User {
    db.spec_users()[user_idx(db.spec_users(), id)]
}

/// Whether a like from `from` toward `to` is present.
pub open spec fn has_like(s: Seq<Like>, from: MyUserId, to: MyUserId) -> bool {
    exists|i: int| 0 <= i < s.len() && s[i].from == from && s[i].to == to
}

/// Whether any like directed at `to` is present.
pub open spec fn has_like_to(s: Seq<Like>, to: MyUserId) -> bool {
    exists|i: int| 0 <= i < s.len() && s[i].to == to
}

/// The first like from `from` toward `to` was deleted, or nothing
/// changed because none was present.
pub open spec fn like_removed(
    likes0: Seq<Like>,
    likes1: Seq<Like>,
    from: MyUserId,
    to: MyUserId,
) -> bool {
    if has_like(likes0, from, to) {
        exists|i: int|
            0 <= i < likes0.len() && likes0[i].from == from && likes0[i].to == to && likes1
                == likes0.remove(i)
    } else {
        likes1 == likes0
    }
}

/// Performs all store operations over in-process collections.
pub struct Database {
    users: Vec<User>,
    profiles: Vec<Profile>,
    likes: Vec<Like>,
    views: Vec<ViewRecord>,
}

impl Database {
    pub closed spec fn spec_users(&self) -> Seq<User> {
        self.users@
    }

    pub closed spec fn spec_profiles(&self) -> Seq<ProfileV> {
        self.profiles@.map_values(|p: Profile| p@)
    }

    pub closed spec fn spec_likes(&self) -> Seq<Like> {
        self.likes@
    }

    pub closed spec fn spec_views(&self) -> Seq<ViewRecord> {
        self.views@
    }

    /// Store invariant: one user record and one profile per identity.
    pub open spec fn wf(&self) -> bool {
        &&& forall|i: int, j: int|
            0 <= i < j < self.spec_profiles().len() ==> self.spec_profiles()[i].id
                != self.spec_profiles()[j].id
        &&& forall|i: int, j: int|
            0 <= i < j < self.spec_users().len() ==> self.spec_users()[i].id
                != self.spec_users()[j].id
    }

    pub fn new() -> (r: Database)
        ensures
            r.wf(),
            r.spec_users() == Seq::<User>::empty(),
            r.spec_profiles() == Seq::<ProfileV>::empty(),
            r.spec_likes() == Seq::<Like>::empty(),
            r.spec_views() == Seq::<ViewRecord>::empty(),
    {
        let r = Database { users: Vec::new(), profiles: Vec::new(), likes: Vec::new(), views: Vec::new() };
        proof {
            assert(r.spec_profiles() =~= Seq::<ProfileV>::empty());
        }
        r
    }

    /// Creates the record of a user. The caller checks beforehand that
    /// none exists, as the store holds one record per identity.
    pub fn add_user(&mut self, user: User)
        requires
            old(self).wf(),
            !has_user(old(self).spec_users(), user.id),
        ensures
            final(self).wf(),
            final(self).spec_users() == old(self).spec_users().push(user),
            final(self).spec_profiles() == old(self).spec_profiles(),
            final(self).spec_likes() == old(self).spec_likes(),
            final(self).spec_views() == old(self).spec_views(),
    {
        self.users.push(user);
    }

    /// Creates the record of a profile; the caller guarantees that the
    /// identity holds none yet.
    pub fn add_profile(&mut self, profile: Profile)
        requires
            old(self).wf(),
            !has_profile(old(self).spec_profiles(), profile.id),
        ensures
            final(self).wf(),
            final(self).spec_profiles() == old(self).spec_profiles().push(profile@),
            final(self).spec_users() == old(self).spec_users(),
            final(self).spec_likes() == old(self).spec_likes(),
            final(self).spec_views() == old(self).spec_views(),
    {
        let ghost before = self.profiles@;
        self.profiles.push(profile);
        proof {
            assert(self.spec_profiles() =~= old(self).spec_profiles().push(profile@));
        }
    }

    /// The profile of `id`, if any.
    pub fn get_profile(&self, id: MyUserId) -> (r: Option<Profile>)
        requires
            self.wf(),
        ensures
            match r {
                Some(p) => has_profile(self.spec_profiles(), id) && p@ == self.spec_profiles()[
                    profile_idx(self.spec_profiles(), id)
                ] && p.id == id,
                None => !has_profile(self.spec_profiles(), id),
            },
    {
        match self.profile_position(id) {
            Some(i) => {
                let p = self.profiles[i].clone();
                proof {
                    let k = profile_idx(self.spec_profiles(), id);
                    assert(self.spec_profiles()[k].id == id);
                    assert(k == i as int);
                }
                Some(p)
            },
            None => None,
        }
    }

    /// The user record of `id`, if any.
    pub fn get_user(&self, id: MyUserId) -> (r: Option<User>)
        requires
            self.wf(),
        ensures
            match r {
                Some(u) => has_user(self.spec_users(), id) && u == user_of(*self, id) && u.id
                    == id,
                None => !has_user(self.spec_users(), id),
            },
    {
        let mut i: usize = 0;
        while i < self.users.len()
            invariant
                self.wf(),
                i <= self.users@.len(),
                forall|j: int| 0 <= j < i ==> self.users@[j].id != id,
            decreases self.users@.len() - i,
        {
            if self.users[i].id == id {
                let u = self.users[i].clone();
                proof {
                    assert(self.spec_users()[i as int] == u);
                    let k = user_idx(self.spec_users(), id);
                    assert(self.spec_users()[k].id == id);
                    assert(k == i as int);
                }
                return Some(u);
            }
            i = i + 1;
        }
        None
    }

    /// Predicate query over profiles: some profile satisfying the full
    /// candidate filter for `viewer`, or none when no profile does.
    /// This model returns the first match in insertion order; the store
    /// may return any single satisfying candidate.
    pub fn filter_profile(&self, viewer: &Profile, viewed: &Vec<ViewRecord>) -> (r: Option<
        Profile,
    >)
        ensures
            match r {
                Some(c) => exists|i: int|
                    0 <= i < self.spec_profiles().len() && self.spec_profiles()[i] == c@
                        && candidate_ok(viewer@, viewed@, #[trigger] self.spec_profiles()[i]),
                None => forall|i: int|
                    0 <= i < self.spec_profiles().len() ==> !candidate_ok(
                        viewer@,
                        viewed@,
                        #[trigger] self.spec_profiles()[i],
                    ),
            },
    {
        let mut i: usize = 0;
        while i < self.profiles.len()
            invariant
                i <= self.profiles@.len(),
                forall|j: int|
                    0 <= j < i ==> !candidate_ok(viewer@, viewed@, #[trigger] self.spec_profiles()[j]),
            decreases self.profiles@.len() - i,
        {
            if viewer.search_filter(viewed, &self.profiles[i]) {
                let c = self.profiles[i].clone();
                proof {
                    assert(self.spec_profiles()[i as int] == self.profiles@[i as int]@);
                }
                return Some(c);
            }
            i = i + 1;
        }
        None
    }

    fn profile_position(&self, id: MyUserId) -> (r: Option<usize>)
        ensures
            match r {
                Some(i) => i < self.spec_profiles().len() && self.spec_profiles()[i as int].id
                    == id,
                None => !has_profile(self.spec_profiles(), id),
            },
    {
        let mut i: usize = 0;
        while i < self.profiles.len()
            invariant
                i <= self.profiles@.len(),
                forall|j: int| 0 <= j < i ==> self.spec_profiles()[j].id != id,
            decreases self.profiles@.len() - i,
        {
            if self.profiles[i].id == id {
                return Some(i);
            }
            i = i + 1;
        }
        None
    }

    /// Point update of one profile field; no profile, no change.
    /// The remaining `set_` operations all follow this shape.
    pub fn set_profile_name(&mut self, id: MyUserId, v: String)
        requires
            old(self).wf(),
        ensures
            final(self).wf(),
            set_profile_outcome(
                old(self).spec_profiles(),
                final(self).spec_profiles(),
                id,
                |p: ProfileV, q: ProfileV| q == (ProfileV { name: v, ..p }),
            ),
            final(self).spec_users() == old(self).spec_users(),
            final(self).spec_likes() == old(self).spec_likes(),
            final(self).spec_views() == old(self).spec_views(),
    {
        match self.profile_position(id) {
            Some(i) => {
                let ghost before = self.spec_profiles();
                let mut p = self.profiles.remove(i);
                p.name = v;
                self.profiles.insert(i, p);
                proof {
                    lemma_point_update(before, self.spec_profiles(), id, i as int);
                }
            },
            None => {},
        }
    }

    pub fn set_profile_age(&mut self, id: MyUserId, v: i64)
        requires
            old(self).wf(),
        ensures
            final(self).wf(),
            set_profile_outcome(
                old(self).spec_profiles(),
                final(self).spec_profiles(),
                id,
                |p: ProfileV, q: ProfileV| q == (ProfileV { age: v, ..p }),
            ),
            final(self).spec_users() == old(self).spec_users(),
            final(self).spec_likes() == old(self).spec_likes(),
            final(self).spec_views() == old(self).spec_views(),
    {
        match self.profile_position(id) {
            Some(i) => {
                let ghost before = self.spec_profiles();
                let mut p = self.profiles.remove(i);
                p.age = v;
                self.profiles.insert(i, p);
                proof {
                    lemma_point_update(before, self.spec_profiles(), id, i as int);
                }
            },
            None => {},
        }
    }

    pub fn set_profile_location(&mut self, id: MyUserId, v: Location)
        requires
            old(self).wf(),
        ensures
            final(self).wf(),
            set_profile_outcome(
                old(self).spec_profiles(),
                final(self).spec_profiles(),
                id,
                |p: ProfileV, q: ProfileV| q == (ProfileV { location: v, ..p }),
            ),
            final(self).spec_users() == old(self).spec_users(),
            final(self).spec_likes() == old(self).spec_likes(),
            final(self).spec_views() == old(self).spec_views(),
    {
        match self.profile_position(id) {
            Some(i) => {
                let ghost before = self.spec_profiles();
                let mut p = self.profiles.remove(i);
                p.location = v;
                self.profiles.insert(i, p);
                proof {
                    lemma_point_update(before, self.spec_profiles(), id, i as int);
                }
            },
            None => {},
        }
    }

    pub fn set_profile_hearing_level(&mut self, id: MyUserId, v: HearingLevel)
        requires
            old(self).wf(),
        ensures
            final(self).wf(),
            set_profile_outcome(
                old(self).spec_profiles(),
                final(self).spec_profiles(),
                id,
                |p: ProfileV, q: ProfileV| q == (ProfileV { hearing_level: v, ..p }),
            ),
            final(self).spec_users() == old(self).spec_users(),
            final(self).spec_likes() == old(self).spec_likes(),
            final(self).spec_views() == old(self).spec_views(),
    {
        match self.profile_position(id) {
            Some(i) => {
                let ghost before = self.spec_profiles();
                let mut p = self.profiles.remove(i);
                p.hearing_level = v;
                self.profiles.insert(i, p);
                proof {
                    lemma_point_update(before, self.spec_profiles(), id, i as int);
                }
            },
            None => {},
        }
    }

    pub fn set_profile_description(&mut self, id: MyUserId, v: Option<String>)
        requires
            old(self).wf(),
        ensures
            final(self).wf(),
            set_profile_outcome(
                old(self).spec_profiles(),
                final(self).spec_profiles(),
                id,
                |p: ProfileV, q: ProfileV| q == (ProfileV { description: v, ..p }),
            ),
            final(self).spec_users() == old(self).spec_users(),
            final(self).spec_likes() == old(self).spec_likes(),
            final(self).spec_views() == old(self).spec_views(),
    {
        match self.profile_position(id) {
            Some(i) => {
                let ghost before = self.spec_profiles();
                let mut p = self.profiles.remove(i);
                p.description = v;
                self.profiles.insert(i, p);
                proof {
                    lemma_point_update(before, self.spec_profiles(), id, i as int);
                }
            },
            None => {},
        }
    }

    pub fn set_profile_picture(&mut self, id: MyUserId, pics: Vec<PhotoId>)
        requires
            old(self).wf(),
        ensures
            final(self).wf(),
            set_profile_outcome(
                old(self).spec_profiles(),
                final(self).spec_profiles(),
                id,
                |p: ProfileV, q: ProfileV| q == (ProfileV { photos: pics@, ..p }),
            ),
            final(self).spec_users() == old(self).spec_users(),
            final(self).spec_likes() == old(self).spec_likes(),
            final(self).spec_views() == old(self).spec_views(),
    {
        match self.profile_position(id) {
            Some(i) => {
                let ghost before = self.spec_profiles();
                let mut p = self.profiles.remove(i);
                p.photos = pics;
                self.profiles.insert(i, p);
                proof {
                    lemma_point_update(before, self.spec_profiles(), id, i as int);
                }
            },
            None => {},
        }
    }

    pub fn add_like(&mut self, like: Like)
        requires
            old(self).wf(),
        ensures
            final(self).wf(),
            final(self).spec_likes() == old(self).spec_likes().push(like),
            final(self).spec_users() == old(self).spec_users(),
            final(self).spec_profiles() == old(self).spec_profiles(),
            final(self).spec_views() == old(self).spec_views(),
    {
        self.likes.push(like);
    }

    pub fn add_view(&mut self, view: ViewRecord)
        requires
            old(self).wf(),
        ensures
            final(self).wf(),
            final(self).spec_views() == old(self).spec_views().push(view),
            final(self).spec_users() == old(self).spec_users(),
            final(self).spec_profiles() == old(self).spec_profiles(),
            final(self).spec_likes() == old(self).spec_likes(),
    {
        self.views.push(view);
    }

    /// The most recent unconsumed like directed at `user_id`: its
    /// timestamp is no older than any other like toward `user_id`.
    pub fn get_like_to_user(&self, user_id: MyUserId) -> (r: Option<Like>)
        ensures
            match r {
                Some(l) => self.spec_likes().contains(l) && l.to == user_id && forall|j: int|
                    0 <= j < self.spec_likes().len() && self.spec_likes()[j].to == user_id
                        ==> self.spec_likes()[j].timestamp <= l.timestamp,
                None => !has_like_to(self.spec_likes(), user_id),
            },
    {
        let mut best: Option<usize> = None;
        let mut i: usize = 0;
        while i < self.likes.len()
            invariant
                i <= self.likes@.len(),
                match best {
                    Some(b) => b < i && self.likes@[b as int].to == user_id && forall|j: int|
                        0 <= j < i && self.likes@[j].to == user_id ==> self.likes@[j].timestamp
                            <= self.likes@[b as int].timestamp,
                    None => forall|j: int| 0 <= j < i ==> self.likes@[j].to != user_id,
                },
            decreases self.likes@.len() - i,
        {
            if self.likes[i].to == user_id {
                match best {
                    Some(b) => {
                        if self.likes[i].timestamp > self.likes[b].timestamp {
                            best = Some(i);
                        }
                    },
                    None => {
                        best = Some(i);
                    },
                }
            }
            i = i + 1;
        }
        match best {
            Some(b) => {
                let l = self.likes[b].clone();
                proof {
                    assert(self.spec_likes()[b as int] == l);
                }
                Some(l)
            },
            None => None,
        }
    }

    /// The like from `from` toward `to`, if one is present.
    pub fn find_like(&self, from: MyUserId, to: MyUserId) -> (r: Option<Like>)
        ensures
            match r {
                Some(l) => self.spec_likes().contains(l) && l.from == from && l.to == to,
                None => !has_like(self.spec_likes(), from, to),
            },
    {
        let mut i: usize = 0;
        while i < self.likes.len()
            invariant
                i <= self.likes@.len(),
                forall|j: int|
                    0 <= j < i ==> !(self.likes@[j].from == from && self.likes@[j].to == to),
            decreases self.likes@.len() - i,
        {
            if self.likes[i].from == from && self.likes[i].to == to {
                let l = self.likes[i].clone();
                proof {
                    assert(self.spec_likes()[i as int] == l);
                }
                return Some(l);
            }
            i = i + 1;
        }
        None
    }

    /// Predicate delete of at most one like: removes the first like
    /// from `from` toward `to`, and does nothing — raising no error —
    /// when none is present, so a raced double delete is harmless.
    pub fn remove_like(&mut self, from: MyUserId, to: MyUserId)
        requires
            old(self).wf(),
        ensures
            final(self).wf(),
            like_removed(old(self).spec_likes(), final(self).spec_likes(), from, to),
            final(self).spec_users() == old(self).spec_users(),
            final(self).spec_profiles() == old(self).spec_profiles(),
            final(self).spec_views() == old(self).spec_views(),
    {
        let mut i: usize = 0;
        while i < self.likes.len()
            invariant
                old(self).wf(),
                i <= self.likes@.len(),
                self.likes@ == old(self).likes@,
                self.users@ == old(self).users@,
                self.profiles@ == old(self).profiles@,
                self.views@ == old(self).views@,
                forall|j: int|
                    0 <= j < i ==> !(self.likes@[j].from == from && self.likes@[j].to == to),
            decreases self.likes@.len() - i,
        {
            if self.likes[i].from == from && self.likes[i].to == to {
                self.likes.remove(i);
                proof {
                    assert(self.spec_profiles() == old(self).spec_profiles());
                    assert(self.spec_users() == old(self).spec_users());
                }
                return ;
            }
            i = i + 1;
        }
    }

    /// Every view the viewer has recorded, in insertion order.
    pub fn get_user_views(&self, user_id: MyUserId) -> (r: Vec<ViewRecord>)
        ensures
            r@ == self.spec_views().filter(|v: ViewRecord| v.from == user_id),
    {
        let ghost pred = |v: ViewRecord| v.from == user_id;
        let mut out: Vec<ViewRecord> = Vec::new();
        let mut i: usize = 0;
        proof {
            assert(self.spec_views().subrange(0, 0) =~= Seq::<ViewRecord>::empty());
            reveal(Seq::filter);
        }
        while i < self.views.len()
            invariant
                i <= self.views@.len(),
                out@ == self.spec_views().subrange(0, i as int).filter(
                    |v: ViewRecord| v.from == user_id,
                ),
            decreases self.views@.len() - i,
        {
            proof {
                reveal(Seq::filter);
                let prefix = self.spec_views().subrange(0, i + 1);
                assert(prefix.drop_last() =~= self.spec_views().subrange(0, i as int));
                assert(prefix.last() == self.spec_views()[i as int]);
            }
            if self.views[i].from == user_id {
                out.push(self.views[i]);
            }
            i = i + 1;
        }
        proof {
            assert(self.spec_views().subrange(0, self.views@.len() as int) =~= self.spec_views());
        }
        out
    }
}

/// No collection of the store changed between the two states.
pub open spec fn store_unchanged(db0: Database, db1: Database) -> bool {
    &&& db1.spec_users() == db0.spec_users()
    &&& db1.spec_profiles() == db0.spec_profiles()
    &&& db1.spec_likes() == db0.spec_likes()
    &&& db1.spec_views() == db0.spec_views()
}

/// Outcome of a point update over the profiles collection: unchanged
/// when the identity has no profile, otherwise exactly the identified
/// profile rewritten as `change` says.
pub open spec fn set_profile_outcome(
    before: Seq<ProfileV>,
    after: Seq<ProfileV>,
    id: MyUserId,
    change: spec_fn(ProfileV, ProfileV) -> bool,
) -> bool {
    if has_profile(before, id) {
        exists|i: int|
            0 <= i < before.len() && before[i].id == id && change(before[i], #[trigger] after[i])
                && after =~= before.update(i, after[i])
    } else {
        after == before
    }
}

/// A point-update outcome survives weakening of the per-profile change
/// predicate.
pub proof fn lemma_outcome_weaken(
    before: Seq<ProfileV>,
    after: Seq<ProfileV>,
    id: MyUserId,
    a: spec_fn(ProfileV, ProfileV) -> bool,
    b: spec_fn(ProfileV, ProfileV) -> bool,
)
    requires
        set_profile_outcome(before, after, id, a),
        forall|p: ProfileV, q: ProfileV| #[trigger] a(p, q) ==> #[trigger] b(p, q),
    ensures
        set_profile_outcome(before, after, id, b),
{
    if has_profile(before, id) {
        let i = choose|i: int|
            0 <= i < before.len() && before[i].id == id && a(before[i], #[trigger] after[i])
                && after =~= before.update(i, after[i]);
        assert(b(before[i], after[i]));
    }
}

proof fn lemma_point_update(before: Seq<ProfileV>, after: Seq<ProfileV>, id: MyUserId, i: int)
    requires
        0 <= i < before.len(),
        before[i].id == id,
        after.len() == before.len(),
        forall|j: int| 0 <= j < before.len() && j != i ==> after[j] == before[j],
    ensures
        after =~= before.update(i, after[i]),
{
}

} // verus!
