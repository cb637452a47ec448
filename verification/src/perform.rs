//! The performers behind the browsing, liked-me and edit flows: each
//! decides what the store gains or loses and which messages go out,
//! and hands the next dialogue state back to the caller.

use vstd::prelude::*;

use crate::actions::{Action, Markup, Notice};
use crate::callback::{CallbackQuery, ProfileField};
use crate::common;
use crate::database::{
    has_like, has_profile, has_user, set_profile_outcome, user_of, Database,
};
use crate::profile::{HearingLevel, Like, ProfileV, ViewRecord};
use crate::state::{is_notice_to, SearchData, State};
use crate::user::MyUserId;

verus! {

/// The two-sided introduction: a link to the liker's handle for the
/// viewer; the mutual-like announcement, the viewer's profile and a
/// link to the viewer's handle for the liker. Exactly one introduction
/// goes to each party.
pub open spec fn intro_acts(
    db: Database,
    user_id: MyUserId,
    cand: MyUserId,
    own: ProfileV,
    a: Seq<Action>,
) -> bool {
    &&& a.len() == 4
    &&& (a[0] matches Action::SendNotice {
        to,
        notice: Notice::IntroLink { username },
        markup: Markup::Bare,
    } && to == user_id && username == user_of(db, cand).username)
    &&& is_notice_to(a[1], cand, Notice::MutualLike, Markup::Bare)
    &&& (a[2] matches Action::SendProfile { to, profile, markup: Markup::Bare } && to == cand
        && profile@ == own)
    &&& (a[3] matches Action::SendNotice {
        to,
        notice: Notice::IntroLink { username },
        markup: Markup::Bare,
    } && to == cand && username == user_of(db, user_id).username)
}

/// The like (if any) that `data.profile_id` left for `user_id`, turned
/// into a two-sided introduction. Checks the like again at the moment
/// of use: when a race already consumed it, the offer has expired and
/// no introduction goes out. Deleting the like stays with the caller.
pub fn match_likes(db: &Database, user_id: MyUserId, data: &SearchData) -> (r: (bool, Vec<Action>))
    requires
        db.wf(),
        has_like(db.spec_likes(), data.profile_id, user_id) ==> has_user(
            db.spec_users(),
            user_id,
        ) && has_user(db.spec_users(), data.profile_id),
    ensures
        r.0 == has_like(db.spec_likes(), data.profile_id, user_id),
        r.0 ==> intro_acts(*db, user_id, data.profile_id, data.user_profile@, r.1@),
        !r.0 ==> r.1@.len() == 1 && is_notice_to(
            r.1@[0],
            user_id,
            Notice::LikeExpired,
            Markup::MenuKeyboard,
        ),
{
    if db.find_like(data.profile_id, user_id).is_none() {
        let mut acts: Vec<Action> = Vec::new();
        acts.push(
            Action::SendNotice {
                to: user_id,
                notice: Notice::LikeExpired,
                markup: Markup::MenuKeyboard,
            },
        );
        return (false, acts);
    }

    let first_liked_user = match db.get_user(data.profile_id) {
        Some(u) => u,
        None => {
            proof {
                assert(false);
            }
            unreached()
        },
    };
    let dialogue_user = match db.get_user(user_id) {
        Some(u) => u,
        None => {
            proof {
                assert(false);
            }
            unreached()
        },
    };

    let mut acts: Vec<Action> = Vec::new();
    acts.push(
        Action::SendNotice {
            to: user_id,
            notice: Notice::IntroLink { username: first_liked_user.username },
            markup: Markup::Bare,
        },
    );
    acts.push(
        Action::SendNotice {
            to: data.profile_id,
            notice: Notice::MutualLike,
            markup: Markup::Bare,
        },
    );
    acts.push(
        Action::SendProfile {
            to: data.profile_id,
            profile: data.user_profile.clone(),
            markup: Markup::Bare,
        },
    );
    acts.push(
        Action::SendNotice {
            to: data.profile_id,
            notice: Notice::IntroLink { username: dialogue_user.username },
            markup: Markup::Bare,
        },
    );
    (true, acts)
}

/// Records the like and the view, and tells the candidate — best
/// effort; the transport may drop the notice without harm.
pub fn like_profile(db: &mut Database, user_id: MyUserId, data: &SearchData, now: i64) -> (acts:
    Vec<Action>)
    requires
        old(db).wf(),
    ensures
        final(db).wf(),
        final(db).spec_likes() == old(db).spec_likes().push(
            (Like { from: user_id, to: data.profile_id, timestamp: now, message: None }),
        ),
        final(db).spec_views() == old(db).spec_views().push(
            (ViewRecord { from: user_id, to: data.profile_id, timestamp: now, liked: true }),
        ),
        final(db).spec_users() == old(db).spec_users(),
        final(db).spec_profiles() == old(db).spec_profiles(),
        acts@.len() == 1,
        is_notice_to(acts@[0], data.profile_id, Notice::SomeoneLikedYou, Markup::Bare),
{
    db.add_like(Like::new(user_id, data.profile_id, None, now));
    db.add_view(ViewRecord::new(user_id, data.profile_id, true, now));
    let mut acts: Vec<Action> = Vec::new();
    acts.push(
        Action::SendNotice {
            to: data.profile_id,
            notice: Notice::SomeoneLikedYou,
            markup: Markup::Bare,
        },
    );
    acts
}

/// Records only the skip.
pub fn dislike_profile(db: &mut Database, user_id: MyUserId, data: &SearchData, now: i64)
    requires
        old(db).wf(),
    ensures
        final(db).wf(),
        final(db).spec_views() == old(db).spec_views().push(
            (ViewRecord { from: user_id, to: data.profile_id, timestamp: now, liked: false }),
        ),
        final(db).spec_likes() == old(db).spec_likes(),
        final(db).spec_users() == old(db).spec_users(),
        final(db).spec_profiles() == old(db).spec_profiles(),
{
    db.add_view(ViewRecord::new(user_id, data.profile_id, false, now));
}

/// What showing the next candidate amounts to: either the browsing
/// state points at a fresh suggestion that satisfies the filter and
/// the single action renders it, or no profile satisfies the filter,
/// the single action says so and the conversation is back at idle.
pub open spec fn suggestion_outcome(
    db: Database,
    user_id: MyUserId,
    own: ProfileV,
    ns: State,
    a: Seq<Action>,
) -> bool {
    ||| (ns matches State::LookingAtProfiles { data: d2 } && d2.user_profile@ == own && a.len()
        == 1 && (a[0] matches Action::SendProfile { to, profile, markup: Markup::Bare } && to
        == user_id && db.spec_profiles().contains(profile@) && common::suggestion_ok(
        db,
        user_id,
        profile@,
    ) && d2.profile_id == profile@.id))
    ||| (ns is Idle && a.len() == 1 && is_notice_to(
        a[0],
        user_id,
        Notice::NoSuggestion,
        Markup::MenuKeyboard,
    ) && forall|i: int|
        0 <= i < db.spec_profiles().len() ==> !common::suggestion_ok(
            db,
            user_id,
            #[trigger] db.spec_profiles()[i],
        ))
}

/// Shows the next candidate, or falls back to the idle menu when the
/// suggestions have run out.
pub fn send_new_suggestion(db: &Database, user_id: MyUserId, data: SearchData) -> (r: (
    State,
    Vec<Action>,
))
    requires
        db.wf(),
        has_profile(db.spec_profiles(), user_id),
    ensures
        suggestion_outcome(*db, user_id, data.user_profile@, r.0, r.1@),
{
    match common::next_suggestion(db, user_id) {
        Some(new_suggestion) => {
            let profile_id = new_suggestion.id;
            let mut acts: Vec<Action> = Vec::new();
            acts.push(
                Action::SendProfile { to: user_id, profile: new_suggestion, markup: Markup::Bare },
            );
            (
                State::LookingAtProfiles {
                    data: SearchData { user_profile: data.user_profile, profile_id },
                },
                acts,
            )
        },
        None => {
            let mut acts: Vec<Action> = Vec::new();
            acts.push(
                Action::SendNotice {
                    to: user_id,
                    notice: Notice::NoSuggestion,
                    markup: Markup::MenuKeyboard,
                },
            );
            (State::Idle, acts)
        },
    }
}

/// What showing the next pending liker amounts to: either the
/// liked-me state points at a liker's profile and the single action
/// renders it, or no liker is left to present, the first action
/// announces the switch to plain browsing and the rest is a suggestion
/// outcome. The fallback arm holds only of an exhausted queue, so a
/// pending liker with a profile is never skipped.
pub open spec fn liked_queue_outcome(
    db: Database,
    user_id: MyUserId,
    own: ProfileV,
    ns: State,
    a: Seq<Action>,
) -> bool {
    ||| (ns matches State::LookingAtProfilesWhoHaveLiked { data: d2 } && d2.user_profile@ == own
        && a.len() == 1 && (a[0] matches Action::SendProfile { to, profile, markup: Markup::Bare }
        && to == user_id && db.spec_profiles().contains(profile@) && d2.profile_id == profile@.id
        && exists|l: Like| #![auto]
        db.spec_likes().contains(l) && l.to == user_id && l.from == profile@.id))
    ||| (common::no_liker_to_show(db, user_id) && a.len() >= 1 && is_notice_to(
        a[0],
        user_id,
        Notice::LikesOverNowSearch,
        Markup::Bare,
    ) && suggestion_outcome(db, user_id, own, ns, a.skip(1)))
}

/// Shows the profile behind the next pending like, or switches over to
/// plain browsing when the likes have run out.
pub fn give_new_liked_profile(db: &Database, user_id: MyUserId, data: SearchData) -> (r: (
    State,
    Vec<Action>,
))
    requires
        db.wf(),
        has_profile(db.spec_profiles(), user_id),
    ensures
        liked_queue_outcome(*db, user_id, data.user_profile@, r.0, r.1@),
{
    match common::next_profile_who_have_liked(db, user_id) {
        Some(liked_profile) => {
            let profile_id = liked_profile.id;
            let mut acts: Vec<Action> = Vec::new();
            acts.push(
                Action::SendProfile { to: user_id, profile: liked_profile, markup: Markup::Bare },
            );
            (
                State::LookingAtProfilesWhoHaveLiked {
                    data: SearchData { user_profile: data.user_profile, profile_id },
                },
                acts,
            )
        },
        None => {
            let (next_state, mut rest) = send_new_suggestion(db, user_id, data);
            let ghost rest0 = rest@;
            let mut acts: Vec<Action> = Vec::new();
            acts.push(
                Action::SendNotice {
                    to: user_id,
                    notice: Notice::LikesOverNowSearch,
                    markup: Markup::Bare,
                },
            );
            acts.append(&mut rest);
            proof {
                assert(acts@.skip(1) =~= rest0);
            }
            (next_state, acts)
        },
    }
}

/// What beginning to browse amounts to: either the mode announcement
/// and a first satisfying candidate, with the state entered; or the
/// report that nothing satisfies the filter, the conversation idle.
pub open spec fn browse_start_outcome(
    db: Database,
    user_id: MyUserId,
    ns: State,
    a: Seq<Action>,
) -> bool {
    ||| (ns matches State::LookingAtProfiles { data } && data.user_profile@
        == common::viewer_profile(db, user_id) && a.len() == 2 && is_notice_to(
        a[0],
        user_id,
        Notice::WatchingProfiles,
        Markup::BrowsingKeyboard,
    ) && (a[1] matches Action::SendProfile { to, profile, markup: Markup::Bare } && to == user_id
        && db.spec_profiles().contains(profile@) && common::suggestion_ok(db, user_id, profile@)
        && data.profile_id == profile@.id))
    ||| (ns is Idle && a.len() == 1 && is_notice_to(
        a[0],
        user_id,
        Notice::NoSuggestion,
        Markup::MenuKeyboard,
    ) && forall|i: int|
        0 <= i < db.spec_profiles().len() ==> !common::suggestion_ok(
            db,
            user_id,
            #[trigger] db.spec_profiles()[i],
        ))
}

/// Begins browsing: announces the mode, enters the browsing state and
/// shows the first candidate; with no candidate, reports and stays put.
pub fn start_looking_at_profiles(db: &Database, user_id: MyUserId) -> (r: (State, Vec<Action>))
    requires
        db.wf(),
        has_profile(db.spec_profiles(), user_id),
    ensures
        browse_start_outcome(*db, user_id, r.0, r.1@),
{
    let suggestion = match common::next_suggestion(db, user_id) {
        Some(profile) => profile,
        None => {
            let mut acts: Vec<Action> = Vec::new();
            acts.push(
                Action::SendNotice {
                    to: user_id,
                    notice: Notice::NoSuggestion,
                    markup: Markup::MenuKeyboard,
                },
            );
            return (State::Idle, acts);
        },
    };

    let user_profile = match db.get_profile(user_id) {
        Some(p) => p,
        None => {
            proof {
                assert(false);
            }
            unreached()
        },
    };

    let profile_id = suggestion.id;
    let mut acts: Vec<Action> = Vec::new();
    acts.push(
        Action::SendNotice {
            to: user_id,
            notice: Notice::WatchingProfiles,
            markup: Markup::BrowsingKeyboard,
        },
    );
    acts.push(Action::SendProfile { to: user_id, profile: suggestion, markup: Markup::Bare });
    (State::LookingAtProfiles { data: SearchData { user_profile, profile_id } }, acts)
}

/// What beginning the liked-me review amounts to: either the mode
/// announcement and the profile of a pending liker, with the state
/// entered; or the report that nobody's like is pending — which may
/// stand only when no liker is left to present.
pub open spec fn likes_start_outcome(
    db: Database,
    user_id: MyUserId,
    ns: State,
    a: Seq<Action>,
) -> bool {
    ||| (ns matches State::LookingAtProfilesWhoHaveLiked { data } && data.user_profile@
        == common::viewer_profile(db, user_id) && a.len() == 2 && is_notice_to(
        a[0],
        user_id,
        Notice::WatchingLikes,
        Markup::BrowsingKeyboard,
    ) && (a[1] matches Action::SendProfile { to, profile, markup: Markup::Bare } && to == user_id
        && db.spec_profiles().contains(profile@) && data.profile_id == profile@.id && exists|
        l: Like,
    | #![auto]
        db.spec_likes().contains(l) && l.to == user_id && l.from == profile@.id))
    ||| (common::no_liker_to_show(db, user_id) && ns is Idle && a.len() == 1 && is_notice_to(
        a[0],
        user_id,
        Notice::NobodyLikedYet,
        Markup::Bare,
    ))
}

/// Begins the liked-me review: announces the mode, enters its state
/// and shows the first pending liker; with none, reports and stays.
pub fn start_looking_at_likes(db: &Database, user_id: MyUserId) -> (r: (State, Vec<Action>))
    requires
        db.wf(),
        has_profile(db.spec_profiles(), user_id),
    ensures
        likes_start_outcome(*db, user_id, r.0, r.1@),
{
    let profile_who_have_liked = match common::next_profile_who_have_liked(db, user_id) {
        Some(profile) => profile,
        None => {
            let mut acts: Vec<Action> = Vec::new();
            acts.push(
                Action::SendNotice {
                    to: user_id,
                    notice: Notice::NobodyLikedYet,
                    markup: Markup::Bare,
                },
            );
            return (State::Idle, acts);
        },
    };

    let user_profile = match db.get_profile(user_id) {
        Some(p) => p,
        None => {
            proof {
                assert(false);
            }
            unreached()
        },
    };

    let profile_id = profile_who_have_liked.id;
    let mut acts: Vec<Action> = Vec::new();
    acts.push(
        Action::SendNotice {
            to: user_id,
            notice: Notice::WatchingLikes,
            markup: Markup::BrowsingKeyboard,
        },
    );
    acts.push(
        Action::SendProfile { to: user_id, profile: profile_who_have_liked, markup: Markup::Bare },
    );
    (State::LookingAtProfilesWhoHaveLiked { data: SearchData { user_profile, profile_id } }, acts)
}

/// Resets the conversation to the idle menu.
pub fn enter_menu(user_id: MyUserId) -> (r: (State, Vec<Action>))
    ensures
        r.0 is Idle,
        r.1@.len() == 1,
        is_notice_to(r.1@[0], user_id, Notice::Menu, Markup::MenuKeyboard),
{
    let mut acts: Vec<Action> = Vec::new();
    acts.push(
        Action::SendNotice { to: user_id, notice: Notice::Menu, markup: Markup::MenuKeyboard },
    );
    (State::Idle, acts)
}

/// Writes the chosen hearing level and folds the edit dialog back onto
/// its anchor message.
pub fn set_hearing_level(db: &mut Database, q: &CallbackQuery, hearing_level: HearingLevel) -> (
    acts: Vec<Action>)
    requires
        old(db).wf(),
        q.message_id is Some,
    ensures
        final(db).wf(),
        set_profile_outcome(
            old(db).spec_profiles(),
            final(db).spec_profiles(),
            q.from,
            |p: ProfileV, p2: ProfileV| p2 == (ProfileV { hearing_level: hearing_level, ..p }),
        ),
        final(db).spec_users() == old(db).spec_users(),
        final(db).spec_likes() == old(db).spec_likes(),
        final(db).spec_views() == old(db).spec_views(),
        acts@.len() == 2,
        (acts@[0] matches Action::EditMessageText { user, message_id, notice: Notice::ProfileEditMode }
            && user == q.from && Some(message_id) == q.message_id),
        (acts@[1] matches Action::EditMessageMarkup { user, message_id, markup: Markup::EditProfileInline }
            && user == q.from && Some(message_id) == q.message_id),
{
    let message_id = match q.message_id {
        Some(m) => m,
        None => {
            proof {
                assert(false);
            }
            unreached()
        },
    };
    db.set_profile_hearing_level(q.from, hearing_level);
    let mut acts: Vec<Action> = Vec::new();
    acts.push(
        Action::EditMessageText { user: q.from, message_id, notice: Notice::ProfileEditMode },
    );
    acts.push(
        Action::EditMessageMarkup { user: q.from, message_id, markup: Markup::EditProfileInline },
    );
    acts
}

/// Clears the description and folds the edit dialog back onto its
/// anchor message.
pub fn leave_empty_description(db: &mut Database, q: &CallbackQuery) -> (acts: Vec<Action>)
    requires
        old(db).wf(),
        q.message_id is Some,
    ensures
        final(db).wf(),
        set_profile_outcome(
            old(db).spec_profiles(),
            final(db).spec_profiles(),
            q.from,
            |p: ProfileV, p2: ProfileV| p2 == (ProfileV { description: None, ..p }),
        ),
        final(db).spec_users() == old(db).spec_users(),
        final(db).spec_likes() == old(db).spec_likes(),
        final(db).spec_views() == old(db).spec_views(),
        acts@.len() == 2,
        (acts@[0] matches Action::EditMessageText { user, message_id, notice: Notice::ProfileEditMode }
            && user == q.from && Some(message_id) == q.message_id),
        (acts@[1] matches Action::EditMessageMarkup { user, message_id, markup: Markup::EditProfileInline }
            && user == q.from && Some(message_id) == q.message_id),
{
    let message_id = match q.message_id {
        Some(m) => m,
        None => {
            proof {
                assert(false);
            }
            unreached()
        },
    };
    db.set_profile_description(q.from, None);
    let mut acts: Vec<Action> = Vec::new();
    acts.push(
        Action::EditMessageText { user: q.from, message_id, notice: Notice::ProfileEditMode },
    );
    acts.push(
        Action::EditMessageMarkup { user: q.from, message_id, markup: Markup::EditProfileInline },
    );
    acts
}

/// Closes the edit dialog: removes its two messages, re-renders the
/// profile with the edit affordance, and resets the conversation.
pub fn finish_editing_profile(db: &Database, q: &CallbackQuery) -> (r: (State, Vec<Action>))
    requires
        db.wf(),
        has_profile(db.spec_profiles(), q.from),
        q.message_id matches Some(m) && m > i32::MIN,
    ensures
        r.0 is Idle,
        r.1@.len() == 4,
        (r.1@[0] matches Action::DeleteMessage { user, message_id } && user == q.from && Some(
            message_id,
        ) == q.message_id),
        (r.1@[1] matches Action::DeleteMessage { user, message_id } && user == q.from
            && message_id + 1 == q.message_id.unwrap()),
        is_notice_to(r.1@[2], q.from, Notice::NewProfile, Markup::Bare),
        (r.1@[3] matches Action::SendProfile { to, profile, markup: Markup::EnterEditInline }
            && to == q.from && profile@ == common::viewer_profile(*db, q.from)),
{
    let message_id = match q.message_id {
        Some(m) => m,
        None => {
            proof {
                assert(false);
            }
            unreached()
        },
    };
    let profile = match db.get_profile(q.from) {
        Some(p) => p,
        None => {
            proof {
                assert(false);
            }
            unreached()
        },
    };
    let mut acts: Vec<Action> = Vec::new();
    acts.push(Action::DeleteMessage { user: q.from, message_id });
    acts.push(Action::DeleteMessage { user: q.from, message_id: message_id - 1 });
    acts.push(Action::SendNotice { to: q.from, notice: Notice::NewProfile, markup: Markup::Bare });
    acts.push(
        Action::SendProfile { to: q.from, profile, markup: Markup::EnterEditInline },
    );
    (State::Idle, acts)
}

/// Opens the edit dialog: clears the pressed button's markup and sends
/// the edit-mode anchor message with the field-selection keyboard.
pub fn enter_profile_editing_mode(q: &CallbackQuery) -> (acts: Vec<Action>)
    requires
        q.message_id is Some,
    ensures
        acts@.len() == 2,
        (acts@[0] matches Action::EditMessageMarkup { user, message_id, markup: Markup::Bare }
            && user == q.from && Some(message_id) == q.message_id),
        is_notice_to(acts@[1], q.from, Notice::ProfileEditMode, Markup::EditProfileInline),
{
    let message_id = match q.message_id {
        Some(m) => m,
        None => {
            proof {
                assert(false);
            }
            unreached()
        },
    };
    let mut acts: Vec<Action> = Vec::new();
    acts.push(Action::EditMessageMarkup { user: q.from, message_id, markup: Markup::Bare });
    acts.push(
        Action::SendNotice {
            to: q.from,
            notice: Notice::ProfileEditMode,
            markup: Markup::EditProfileInline,
        },
    );
    acts
}

/// Whether a like connects the two identities, in either direction.
pub open spec fn involves(l: Like, a: MyUserId, b: MyUserId) -> bool {
    (l.from == a && l.to == b) || (l.from == b && l.to == a)
}

/// Match exactly-once: when the store holds exactly one like between a
/// pair and a mutual match consumes it, no like involving the pair
/// remains — zero, not two, since the reciprocal like is never
/// written. (That each party is introduced exactly once is what
/// [`intro_acts`] itself states.)
pub proof fn lemma_match_exactly_once(
    likes0: Seq<Like>,
    likes1: Seq<Like>,
    a: MyUserId,
    b: MyUserId,
)
    requires
        has_like(likes0, a, b),
        forall|j: int|
            0 <= j < likes0.len() && involves(#[trigger] likes0[j], a, b) ==> likes0[j].from == a
                && likes0[j].to == b,
        forall|i: int, j: int|
            0 <= i < j < likes0.len() ==> !(involves(#[trigger] likes0[i], a, b) && involves(
                #[trigger] likes0[j],
                a,
                b,
            )),
        crate::database::like_removed(likes0, likes1, a, b),
    ensures
        forall|j: int| 0 <= j < likes1.len() ==> !involves(#[trigger] likes1[j], a, b),
{
    let i = choose|i: int|
        0 <= i < likes0.len() && likes0[i].from == a && likes0[i].to == b && likes1
            == likes0.remove(i);
    assert forall|j: int| 0 <= j < likes1.len() implies !involves(likes1[j], a, b) by {
        if j < i {
            assert(likes1[j] == likes0[j]);
        } else {
            assert(likes1[j] == likes0[j + 1]);
        }
    }
}

/// Stale-like idempotence: once the only like between the pair has
/// been consumed, none is left, so a raced second delete changes
/// nothing — and a repeated match attempt finds no like and therefore
/// sends no second introduction, only the expired-offer notice.
pub proof fn lemma_stale_like_idempotent(
    likes0: Seq<Like>,
    likes1: Seq<Like>,
    likes2: Seq<Like>,
    from: MyUserId,
    to: MyUserId,
)
    requires
        forall|i: int, j: int|
            0 <= i < j < likes0.len() ==> !((#[trigger] likes0[i]).from == from && likes0[i].to
                == to && (#[trigger] likes0[j]).from == from && likes0[j].to == to),
        crate::database::like_removed(likes0, likes1, from, to),
        crate::database::like_removed(likes1, likes2, from, to),
    ensures
        has_like(likes0, from, to) ==> !has_like(likes1, from, to),
        likes2 == likes1,
{
    if has_like(likes0, from, to) {
        let i = choose|i: int|
            0 <= i < likes0.len() && likes0[i].from == from && likes0[i].to == to && likes1
                == likes0.remove(i);
        if has_like(likes1, from, to) {
            let j = choose|j: int|
                0 <= j < likes1.len() && likes1[j].from == from && likes1[j].to == to;
            if j < i {
                assert(likes1[j] == likes0[j]);
            } else {
                assert(likes1[j] == likes0[j + 1]);
            }
            assert(false);
        }
    }
}

/// The prompt asking for a new value of each editable field.
pub open spec fn edit_prompt(f: ProfileField) -> Notice {
    match f {
        ProfileField::Name => Notice::AskNewName,
        ProfileField::Age => Notice::AskNewAge,
        ProfileField::City => Notice::AskNewCity,
        ProfileField::HearingLevel => Notice::AskNewHearingLevel,
        ProfileField::Description => Notice::AskNewDescription,
        ProfileField::Photo => Notice::AskNewPhoto,
    }
}

/// Prepares one field edit: rewrites the anchor message into the
/// field's prompt and moves the dialogue into the editing state. The
/// hearing level is edited through its inline buttons instead, so for
/// it the dialogue state stays as it is (`None`).
pub fn set_profile_editing_handler(
    db: &Database,
    q: &CallbackQuery,
    profile_field: ProfileField,
) -> (r: (Option<State>, Vec<Action>))
    requires
        db.wf(),
        q.message_id is Some,
        profile_field is HearingLevel ==> has_profile(db.spec_profiles(), q.from),
    ensures
        if profile_field is HearingLevel {
            &&& r.0 is None
            &&& r.1@.len() == 2
            &&& (r.1@[0] matches Action::EditMessageText { user, message_id, notice: Notice::AskNewHearingLevel }
                && user == q.from && Some(message_id) == q.message_id)
            &&& (r.1@[1] matches Action::EditMessageMarkup { user, message_id, markup } && user
                == q.from && Some(message_id) == q.message_id && markup == (Markup::SetHearingInline {
                sex: common::viewer_profile(*db, q.from).sex,
            }))
        } else {
            &&& (r.0 matches Some(s) && (s matches State::EditingProfile { profile_field: f, origin }
                && f == profile_field && origin.user_id == q.from && Some(origin.message_id)
                == q.message_id))
            &&& r.1@.len() == (if profile_field is Description {
                2int
            } else {
                1int
            })
            &&& (r.1@[0] matches Action::EditMessageText { user, message_id, notice } && user
                == q.from && Some(message_id) == q.message_id && notice == edit_prompt(
                profile_field,
            ))
            &&& profile_field is Description ==> (r.1@[1] matches Action::EditMessageMarkup {
                user,
                message_id,
                markup: Markup::LeaveEmptyInline,
            } && user == q.from && Some(message_id) == q.message_id)
        },
{
    let message_id = match q.message_id {
        Some(m) => m,
        None => {
            proof {
                assert(false);
            }
            unreached()
        },
    };
    let origin = crate::state::EditOrigin { user_id: q.from, message_id };
    match profile_field {
        ProfileField::HearingLevel => {
            let profile = match db.get_profile(q.from) {
                Some(p) => p,
                None => {
                    proof {
                        assert(false);
                    }
                    unreached()
                },
            };
            let mut acts: Vec<Action> = Vec::new();
            acts.push(
                Action::EditMessageText {
                    user: q.from,
                    message_id,
                    notice: Notice::AskNewHearingLevel,
                },
            );
            acts.push(
                Action::EditMessageMarkup {
                    user: q.from,
                    message_id,
                    markup: Markup::SetHearingInline { sex: profile.sex },
                },
            );
            (None, acts)
        },
        ProfileField::Description => {
            let mut acts: Vec<Action> = Vec::new();
            acts.push(
                Action::EditMessageText {
                    user: q.from,
                    message_id,
                    notice: Notice::AskNewDescription,
                },
            );
            acts.push(
                Action::EditMessageMarkup {
                    user: q.from,
                    message_id,
                    markup: Markup::LeaveEmptyInline,
                },
            );
            (
                Some(State::EditingProfile { profile_field: ProfileField::Description, origin }),
                acts,
            )
        },
        field => {
            let notice = match field {
                ProfileField::Name => Notice::AskNewName,
                ProfileField::Age => Notice::AskNewAge,
                ProfileField::City => Notice::AskNewCity,
                ProfileField::Photo => Notice::AskNewPhoto,
                _ => {
                    proof {
                        assert(false);
                    }
                    unreached()
                },
            };
            let mut acts: Vec<Action> = Vec::new();
            acts.push(Action::EditMessageText { user: q.from, message_id, notice });
            (Some(State::EditingProfile { profile_field: field, origin }), acts)
        },
    }
}

} // verus!
