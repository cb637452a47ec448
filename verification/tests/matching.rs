//! The like/match protocol: mutual matches, one-sided likes, the
//! liked-me queue and the behaviour under a raced deletion.

use deafbot::actions::{Action, MessageEvent, Notice};
use deafbot::common::{check_for_match, CheckForMatchResult};
use deafbot::database::Database;
use deafbot::perform::match_likes;
use deafbot::profile::{HearingLevel, Like, Location, PhotoId, Profile, Sex};
use deafbot::state::{act_on_profile, look_at_likes, SearchData, State};
use deafbot::text;
use deafbot::user::{MyUserId, User};

fn profile(id: u64, sex: Sex) -> Profile {
    let mut b = Profile::builder(MyUserId(id));
    b.name = Some(format!("user-{}", id));
    b.age = Some(30);
    b.sex = Some(sex);
    b.hearing_level = Some(HearingLevel::Hearing);
    b.location = Some(Location::new(String::from("Berlin"), String::from("Berlin")));
    b.photos = vec![PhotoId(format!("photo-{}", id))];
    b.build()
}

fn account(id: u64, username: &str) -> User {
    User::new(
        MyUserId(id),
        String::from("First"),
        None,
        String::from(username),
        None,
        1_000,
    )
}

fn pair_likes(db: &Database, a: u64, b: u64) -> usize {
    let mut n = 0;
    if db.find_like(MyUserId(a), MyUserId(b)).is_some() {
        n += 1;
    }
    if db.find_like(MyUserId(b), MyUserId(a)).is_some() {
        n += 1;
    }
    n
}

fn intros_to(acts: &[Action], id: u64) -> usize {
    acts.iter()
        .filter(|a| {
            matches!(
                a,
                Action::SendNotice {
                    to,
                    notice: Notice::IntroLink { .. },
                    ..
                } if *to == MyUserId(id)
            )
        })
        .count()
}

#[test]
fn check_for_match_is_exact() {
    let mut db = Database::new();
    assert!(matches!(
        check_for_match(&db, MyUserId(1), MyUserId(2)),
        CheckForMatchResult::DontMatch
    ));
    db.add_like(Like::new(MyUserId(1), MyUserId(2), None, 5));
    assert!(matches!(
        check_for_match(&db, MyUserId(1), MyUserId(2)),
        CheckForMatchResult::Match
    ));
    // direction matters
    assert!(matches!(
        check_for_match(&db, MyUserId(2), MyUserId(1)),
        CheckForMatchResult::DontMatch
    ));
}

/// A likes B; when B likes A back, the stored like is consumed —
/// zero rows involving the pair remain, not two — and each party is
/// introduced exactly once.
#[test]
fn mutual_match_consumes_the_like_exactly_once() {
    let mut db = Database::new();
    let a = profile(1, Sex::Male);
    let b = profile(2, Sex::Female);
    db.add_user(account(1, "alice"));
    db.add_user(account(2, "bob"));
    db.add_profile(a.clone());
    db.add_profile(b.clone());
    db.add_like(Like::new(MyUserId(1), MyUserId(2), None, 5));
    assert_eq!(pair_likes(&db, 1, 2), 1);

    // B is browsing and is shown A
    let data = SearchData {
        user_profile: b,
        profile_id: MyUserId(1),
    };
    let (state, acts) = act_on_profile(
        &mut db,
        MyUserId(2),
        data,
        MessageEvent::Text(String::from(text::LIKE)),
        20,
    );

    assert_eq!(pair_likes(&db, 1, 2), 0, "the consumed like must not linger");
    assert_eq!(intros_to(&acts, 1), 1, "A is introduced exactly once");
    assert_eq!(intros_to(&acts, 2), 1, "B is introduced exactly once");
    // no view was written for B, so browsing carries on with a suggestion
    match state {
        State::LookingAtProfiles { data } => assert_eq!(data.profile_id, MyUserId(1)),
        other => panic!("expected browsing to continue, got {:?}", other),
    }
}

/// Without a reciprocal like, liking only records the like and the
/// view and notifies the candidate.
#[test]
fn one_sided_like_is_recorded() {
    let mut db = Database::new();
    let a = profile(1, Sex::Male);
    let b = profile(2, Sex::Female);
    db.add_profile(a.clone());
    db.add_profile(b);
    let data = SearchData {
        user_profile: a,
        profile_id: MyUserId(2),
    };
    let (_, acts) = act_on_profile(
        &mut db,
        MyUserId(1),
        data,
        MessageEvent::Text(String::from(text::LIKE)),
        30,
    );
    assert!(db.find_like(MyUserId(1), MyUserId(2)).is_some());
    assert_eq!(intros_to(&acts, 1), 0);
    assert_eq!(intros_to(&acts, 2), 0);
    assert!(acts
        .iter()
        .any(|x| matches!(x, Action::SendNotice { notice: Notice::SomeoneLikedYou, .. })));
}

/// Scenario: B reviews the liked-me queue, likes A back; the like is
/// deleted, both are introduced, and with no further pending like the
/// conversation falls back to browsing.
#[test]
fn liked_me_review_matches_back() {
    let mut db = Database::new();
    let a = profile(1, Sex::Male);
    let b = profile(2, Sex::Female);
    db.add_user(account(1, "alice"));
    db.add_user(account(2, "bob"));
    db.add_profile(a);
    db.add_profile(b.clone());
    db.add_like(Like::new(MyUserId(1), MyUserId(2), None, 5));

    let data = SearchData {
        user_profile: b,
        profile_id: MyUserId(1),
    };
    let (state, acts) = look_at_likes(
        &mut db,
        MyUserId(2),
        data,
        MessageEvent::Text(String::from(text::LIKE)),
        40,
    );

    assert!(db.find_like(MyUserId(1), MyUserId(2)).is_none());
    assert_eq!(intros_to(&acts, 1), 1);
    assert_eq!(intros_to(&acts, 2), 1);
    assert!(acts
        .iter()
        .any(|x| matches!(x, Action::SendNotice { notice: Notice::LikesOverNowSearch, .. })));
    // A's profile is excluded by no view here, so browsing may resume on it
    match state {
        State::LookingAtProfiles { .. } | State::Idle => {}
        other => panic!("expected a fall-back to browsing, got {:?}", other),
    }
}

/// A raced deletion: the like disappeared between being shown and the
/// reaction. No error, no introduction, only the expired-offer notice;
/// a second delete is as harmless as the first.
#[test]
fn stale_like_is_idempotent() {
    let mut db = Database::new();
    let a = profile(1, Sex::Male);
    let b = profile(2, Sex::Female);
    db.add_user(account(1, "alice"));
    db.add_user(account(2, "bob"));
    db.add_profile(a);
    db.add_profile(b.clone());
    db.add_like(Like::new(MyUserId(1), MyUserId(2), None, 5));

    // the race: the like is consumed elsewhere before the reaction
    db.remove_like(MyUserId(1), MyUserId(2));
    // a second delete of the same like must do nothing and not fail
    db.remove_like(MyUserId(1), MyUserId(2));

    let data = SearchData {
        user_profile: b.clone(),
        profile_id: MyUserId(1),
    };
    let (matched, acts) = match_likes(&db, MyUserId(2), &data);
    assert!(!matched);
    assert_eq!(intros_to(&acts, 1), 0, "no introduction after the race");
    assert_eq!(intros_to(&acts, 2), 0);
    assert!(matches!(
        acts[0],
        Action::SendNotice {
            notice: Notice::LikeExpired,
            ..
        }
    ));

    // reacting through the queue handler likewise degrades quietly
    let data = SearchData {
        user_profile: b,
        profile_id: MyUserId(1),
    };
    let (_, acts) = look_at_likes(
        &mut db,
        MyUserId(2),
        data,
        MessageEvent::Text(String::from(text::LIKE)),
        50,
    );
    assert_eq!(intros_to(&acts, 1), 0);
    assert_eq!(intros_to(&acts, 2), 0);
    assert!(acts
        .iter()
        .any(|x| matches!(x, Action::SendNotice { notice: Notice::LikeExpired, .. })));
}

/// The liked-me queue serves the most recent pending like first.
#[test]
fn most_recent_like_first() {
    let mut db = Database::new();
    db.add_like(Like::new(MyUserId(1), MyUserId(9), None, 10));
    db.add_like(Like::new(MyUserId(2), MyUserId(9), None, 30));
    db.add_like(Like::new(MyUserId(3), MyUserId(9), None, 20));
    let l = db.get_like_to_user(MyUserId(9)).expect("likes are pending");
    assert_eq!(l.from, MyUserId(2));
    assert_eq!(l.timestamp, 30);
}

/// With a second like still pending, reacting to the first advances
/// the review to the next liker instead of falling back to browsing.
#[test]
fn liked_me_queue_advances() {
    let mut db = Database::new();
    let liker_old = profile(1, Sex::Male);
    let liker_new = profile(3, Sex::Male);
    let viewer = profile(2, Sex::Female);
    db.add_profile(liker_old);
    db.add_profile(liker_new);
    db.add_profile(viewer.clone());
    db.add_like(Like::new(MyUserId(1), MyUserId(2), None, 10));
    db.add_like(Like::new(MyUserId(3), MyUserId(2), None, 30));

    // the review serves the most recent like first
    let shown = deafbot::common::next_profile_who_have_liked(&db, MyUserId(2))
        .expect("a liker is pending");
    assert_eq!(shown.id, MyUserId(3));

    let data = SearchData {
        user_profile: viewer,
        profile_id: MyUserId(3),
    };
    let (state, acts) = look_at_likes(
        &mut db,
        MyUserId(2),
        data,
        MessageEvent::Text(String::from(text::DISLIKE)),
        40,
    );
    assert!(db.find_like(MyUserId(3), MyUserId(2)).is_none());
    assert!(db.find_like(MyUserId(1), MyUserId(2)).is_some());
    match state {
        State::LookingAtProfilesWhoHaveLiked { data } => {
            assert_eq!(data.profile_id, MyUserId(1))
        }
        other => panic!("expected the next pending liker shown, got {:?}", other),
    }
    assert!(acts
        .iter()
        .any(|x| matches!(x, Action::SendProfile { to, .. } if *to == MyUserId(2))));
    assert!(!acts
        .iter()
        .any(|x| matches!(x, Action::SendNotice { notice: Notice::LikesOverNowSearch, .. })));
}

/// A dislike in the queue deletes the like without a match and records
/// the skip.
#[test]
fn liked_me_review_dislike_consumes() {
    let mut db = Database::new();
    let a = profile(1, Sex::Male);
    let b = profile(2, Sex::Female);
    db.add_profile(a);
    db.add_profile(b.clone());
    db.add_like(Like::new(MyUserId(1), MyUserId(2), None, 5));

    let data = SearchData {
        user_profile: b,
        profile_id: MyUserId(1),
    };
    let (_, acts) = look_at_likes(
        &mut db,
        MyUserId(2),
        data,
        MessageEvent::Text(String::from(text::DISLIKE)),
        60,
    );
    assert!(db.find_like(MyUserId(1), MyUserId(2)).is_none());
    assert_eq!(intros_to(&acts, 1), 0);
    let views = db.get_user_views(MyUserId(2));
    assert_eq!(views.len(), 1);
    assert!(!views[0].liked);
}
