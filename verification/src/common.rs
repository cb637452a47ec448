//! Shared pieces of the like/match protocol: the match test, the two
//! next-candidate queries and the completion of profile creation.

use vstd::prelude::*;

use crate::actions::{Action, Markup, Notice};
use crate::database::{has_like, has_like_to, has_profile, has_user, profile_idx, Database};
use crate::filter::candidate_ok;
use crate::profile::{built_from, Like, Profile, ProfileBuilder, ProfileV, ViewRecord};
use crate::user::{MyUserId, User};

verus! {

/// Whether a like in the reverse direction already exists, making the
/// pending action a mutual match.
#[derive(Debug, Clone, Copy, PartialEq, Eq, Structural)]
pub enum CheckForMatchResult {
    Match,
    DontMatch,
}

impl Default for CheckForMatchResult {
    fn default() -> (r: Self)
        ensures
            r == CheckForMatchResult::DontMatch,
    {
        CheckForMatchResult::DontMatch
    }
}

/// Match iff a like from `from` toward `to` is already recorded. Run
/// before the reciprocal like is written, to tell a fresh mutual pair
/// from a one-sided like.
pub fn check_for_match(db: &Database, from: MyUserId, to: MyUserId) -> (r: CheckForMatchResult)
    ensures
        r == CheckForMatchResult::Match <==> has_like(db.spec_likes(), from, to),
{
    match db.find_like(from, to) {
        Some(_) => CheckForMatchResult::Match,
        None => CheckForMatchResult::DontMatch,
    }
}

/// The profile record of `user_id` in `db` (meaningful when present).
pub open spec fn viewer_profile(db: Database, user_id: MyUserId) -> ProfileV {
    db.spec_profiles()[profile_idx(db.spec_profiles(), user_id)]
}

/// The view history `user_id` has recorded.
pub open spec fn own_views(db: Database, user_id: MyUserId) -> Seq<ViewRecord> {
    db.spec_views().filter(|v: ViewRecord| v.from == user_id)
}

/// Whether `c` may be suggested to `user_id` given the state of `db`.
pub open spec fn suggestion_ok(db: Database, user_id: MyUserId, c: ProfileV) -> bool {
    candidate_ok(viewer_profile(db, user_id), own_views(db, user_id), c)
}

/// Exclusion monotonicity at the store: once any view from the viewer
/// toward an identity is recorded, no profile under that identity can
/// satisfy the suggestion predicate for that viewer again.
pub proof fn lemma_suggestion_excludes_viewed(
    db: Database,
    user_id: MyUserId,
    c: ProfileV,
    i: int,
)
    requires
        0 <= i < db.spec_views().len(),
        db.spec_views()[i].from == user_id,
        db.spec_views()[i].to == c.id,
    ensures
        !suggestion_ok(db, user_id, c),
{
    let pred = |v: ViewRecord| v.from == user_id;
    db.spec_views().lemma_filter_contains(pred, i);
    let views = own_views(db, user_id);
    let j = choose|j: int| 0 <= j < views.len() && views[j] == db.spec_views()[i];
    assert(crate::filter::already_viewed(views, c.id));
}

/// Next unseen, mutually compatible candidate for `user_id`, or none.
pub fn next_suggestion(db: &Database, user_id: MyUserId) -> (r: Option<Profile>)
    requires
        db.wf(),
        has_profile(db.spec_profiles(), user_id),
    ensures
        match r {
            Some(c) => db.spec_profiles().contains(c@) && suggestion_ok(*db, user_id, c@),
            None => forall|i: int|
                0 <= i < db.spec_profiles().len() ==> !suggestion_ok(
                    *db,
                    user_id,
                    #[trigger] db.spec_profiles()[i],
                ),
        },
{
    let user_profile = match db.get_profile(user_id) {
        Some(p) => p,
        None => {
            proof {
                assert(false);
            }
            unreached()
        },
    };
    let viewed_profiles = db.get_user_views(user_id);
    let r = db.filter_profile(&user_profile, &viewed_profiles);
    proof {
        assert(user_profile@ == viewer_profile(*db, user_id));
        assert(viewed_profiles@ == own_views(*db, user_id));
    }
    r
}

/// No liker can be presented to `user_id`: either no like directed at
/// them is stored at all, or a pending like's sender has no profile,
/// which blocks the queue.
pub open spec fn no_liker_to_show(db: Database, user_id: MyUserId) -> bool {
    ||| !has_like_to(db.spec_likes(), user_id)
    ||| exists|l: Like|
        #![auto]
        db.spec_likes().contains(l) && l.to == user_id && !has_profile(
            db.spec_profiles(),
            l.from,
        )
}

/// The like the most recent unconsumed liker of `user_id` left, paired
/// with that liker's profile. `None` when nobody's like is pending or
/// the liker has no profile.
pub fn next_profile_who_have_liked(db: &Database, user_id: MyUserId) -> (r: Option<Profile>)
    requires
        db.wf(),
    ensures
        match r {
            Some(p) => exists|l: Like|
                #![auto]
                db.spec_likes().contains(l) && l.to == user_id && has_profile(
                    db.spec_profiles(),
                    l.from,
                ) && p@ == viewer_profile(*db, l.from) && p.id == l.from,
            None => no_liker_to_show(*db, user_id),
        },
{
    let like = match db.get_like_to_user(user_id) {
        Some(l) => l,
        None => {
            return None;
        },
    };
    db.get_profile(like.from)
}

/// Materializes a finished builder: records the user (once) and the
/// profile, then announces the result and renders the new profile.
pub fn finish_profile_creation(db: &mut Database, user: &User, profile_builder: ProfileBuilder)
    -> (acts: Vec<Action>)
    requires
        old(db).wf(),
        !has_profile(old(db).spec_profiles(), profile_builder.id),
        user.id == profile_builder.id,
    ensures
        final(db).wf(),
        exists|p: ProfileV|
            built_from(profile_builder@, p) && p.id == profile_builder.id
                && final(db).spec_profiles() == old(db).spec_profiles().push(p),
        has_user(old(db).spec_users(), user.id) ==> final(db).spec_users() == old(db).spec_users(),
        !has_user(old(db).spec_users(), user.id) ==> final(db).spec_users() == old(
            db).spec_users().push(*user),
        final(db).spec_likes() == old(db).spec_likes(),
        final(db).spec_views() == old(db).spec_views(),
        acts@.len() == 2,
        (acts@[0] matches Action::SendNotice { to, notice: Notice::ProfileReady, markup: Markup::MenuKeyboard }
            && to == profile_builder.id),
        (acts@[1] matches Action::SendProfile { to, profile, markup: Markup::Bare } && to
            == profile_builder.id && built_from(profile_builder@, profile@)),
{
    let ghost builder_view = profile_builder@;
    let owner = profile_builder.id;
    let profile = profile_builder.build();

    if db.get_user(user.id).is_none() {
        db.add_user(user.clone());
    }
    db.add_profile(profile.clone());

    let mut acts: Vec<Action> = Vec::new();
    acts.push(
        Action::SendNotice { to: owner, notice: Notice::ProfileReady, markup: Markup::MenuKeyboard },
    );
    acts.push(Action::SendProfile { to: owner, profile, markup: Markup::Bare });
    acts
}

} // verus!
