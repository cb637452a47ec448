//! The bidirectional compatibility filter: the predicate a candidate
//! must satisfy to be suggested to a viewer, and the laws it obeys.

use vstd::prelude::*;

use crate::profile::{HearingLevel, Profile, ProfileV, SearchOptions, SearchOptionsV, ViewRecord};
use crate::user::MyUserId;

verus! {

/// One direction of the reciprocal test: whether the stated preferences
/// accept a profile. An absent preference imposes no constraint.
pub open spec fn prefs_accept(prefs: SearchOptionsV, p: ProfileV) -> bool {
    &&& match prefs.age {
        Some(f) => f.lowest <= p.age <= f.greatest,
        None => true,
    }
    &&& match prefs.sex {
        Some(sx) => p.sex == sx,
        None => true,
    }
    &&& match prefs.hearing_level {
        Some(hs) => hs.contains(p.hearing_level),
        None => true,
    }
}

/// Mutual consent: each party's preferences accept the other.
pub open spec fn mutually_compatible(a: ProfileV, b: ProfileV) -> bool {
    prefs_accept(a.settings.search_options, b) && prefs_accept(b.settings.search_options, a)
}

/// Whether the view history already holds a reaction toward `id`.
pub open spec fn already_viewed(views: Seq<ViewRecord>, id: MyUserId) -> bool {
    exists|i: int| 0 <= i < views.len() && views[i].to == id
}

/// The full filter predicate: a candidate is suggested to a viewer only
/// if it is another, visible profile in the same location bucket, never
/// reacted to before, and mutually compatible with the viewer.
pub open spec fn candidate_ok(viewer: ProfileV, views: Seq<ViewRecord>, c: ProfileV) -> bool {
    &&& c.id != viewer.id
    &&& c.settings.show_up_in_search
    &&& c.location.actual@ == viewer.location.actual@
    &&& !already_viewed(views, c.id)
    &&& mutually_compatible(viewer, c)
}

fn hearing_level_listed(hs: &Vec<HearingLevel>, h: HearingLevel) -> (r: bool)
    ensures
        r == hs@.contains(h),
{
    let mut i: usize = 0;
    while i < hs.len()
        invariant
            i <= hs@.len(),
            forall|j: int| 0 <= j < i ==> hs@[j] != h,
        decreases hs@.len() - i,
    {
        if hs[i] == h {
            return true;
        }
        i = i + 1;
    }
    false
}

/// Executable form of [`prefs_accept`].
pub fn prefs_accept_exec(prefs: &SearchOptions, p: &Profile) -> (r: bool)
    ensures
        r == prefs_accept(prefs@, p@),
{
    let age_ok = match &prefs.age {
        Some(f) => f.lowest <= p.age && p.age <= f.greatest,
        None => true,
    };
    let sex_ok = match &prefs.sex {
        Some(sx) => p.sex == *sx,
        None => true,
    };
    let hearing_ok = match &prefs.hearing_level {
        Some(hs) => hearing_level_listed(hs, p.hearing_level),
        None => true,
    };
    age_ok && sex_ok && hearing_ok
}

fn viewed_before(views: &Vec<ViewRecord>, id: MyUserId) -> (r: bool)
    ensures
        r == already_viewed(views@, id),
{
    let mut i: usize = 0;
    while i < views.len()
        invariant
            i <= views@.len(),
            forall|j: int| 0 <= j < i ==> views@[j].to != id,
        decreases views@.len() - i,
    {
        if views[i].to == id {
            return true;
        }
        i = i + 1;
    }
    false
}

impl Profile {
    /// The search filter this profile issues over its view history:
    /// decides whether `candidate` may be suggested to `self`.
    pub fn search_filter(&self, viewed_profiles: &Vec<ViewRecord>, candidate: &Profile) -> (r:
        bool)
        ensures
            r == candidate_ok(self@, viewed_profiles@, candidate@),
    {
        if candidate.id == self.id {
            return false;
        }
        if !candidate.settings.show_up_in_search {
            return false;
        }
        if !crate::strutil::str_eq(candidate.location.actual.as_str(), self.location.actual.as_str()) {
            return false;
        }
        if viewed_before(viewed_profiles, candidate.id) {
            return false;
        }
        prefs_accept_exec(&self.settings.search_options, candidate) && prefs_accept_exec(
            &candidate.settings.search_options,
            self,
        )
    }
}

/// Mutual-consent symmetry: the reciprocal-preference test does not
/// depend on which party is cast as the viewer.
pub proof fn lemma_mutual_consent_symmetric(a: ProfileV, b: ProfileV)
    ensures
        mutually_compatible(a, b) == mutually_compatible(b, a),
{
}

/// Exclusion monotonicity: once a view of a candidate exists, the
/// filter never accepts that candidate again for that viewer — however
/// the view history grows and however either profile is edited later.
pub proof fn lemma_exclusion_monotonic(
    viewer: ProfileV,
    views: Seq<ViewRecord>,
    later: Seq<ViewRecord>,
    c: ProfileV,
)
    requires
        already_viewed(views, c.id),
    ensures
        !candidate_ok(viewer, views + later, c),
{
    let i = choose|i: int| 0 <= i < views.len() && views[i].to == c.id;
    assert((views + later)[i].to == c.id);
}

} // verus!
