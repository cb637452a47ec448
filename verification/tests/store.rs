//! The in-memory store model: point queries, point updates and the
//! predicate delete.

use deafbot::database::Database;
use deafbot::profile::{HearingLevel, Like, Location, PhotoId, Profile, Sex, ViewRecord};
use deafbot::user::{MyUserId, User};

fn profile(id: u64) -> Profile {
    let mut b = Profile::builder(MyUserId(id));
    b.name = Some(format!("user-{}", id));
    b.age = Some(30);
    b.sex = Some(Sex::Male);
    b.hearing_level = Some(HearingLevel::Hearing);
    b.location = Some(Location::new(String::from("Berlin"), String::from("Berlin")));
    b.photos = vec![PhotoId(format!("photo-{}", id))];
    b.build()
}

#[test]
fn profile_point_queries() {
    let mut db = Database::new();
    assert!(db.get_profile(MyUserId(1)).is_none());
    db.add_profile(profile(1));
    db.add_profile(profile(2));
    let p = db.get_profile(MyUserId(2)).expect("stored profile is found");
    assert_eq!(p.name, "user-2");
    assert!(db.get_profile(MyUserId(3)).is_none());
}

#[test]
fn profile_point_updates() {
    let mut db = Database::new();
    db.add_profile(profile(1));
    db.set_profile_name(MyUserId(1), String::from("renamed"));
    db.set_profile_age(MyUserId(1), 41);
    db.set_profile_hearing_level(MyUserId(1), HearingLevel::CompletelyDeaf);
    db.set_profile_location(
        MyUserId(1),
        Location::new(String::from("Hamburg"), String::from("Hamburg")),
    );
    db.set_profile_description(MyUserId(1), Some(String::from("text")));
    db.set_profile_picture(MyUserId(1), vec![PhotoId(String::from("new-photo"))]);

    let p = db.get_profile(MyUserId(1)).unwrap();
    assert_eq!(p.name, "renamed");
    assert_eq!(p.age, 41);
    assert!(matches!(p.hearing_level, HearingLevel::CompletelyDeaf));
    assert_eq!(p.location.actual, "Hamburg");
    assert_eq!(p.description.as_deref(), Some("text"));
    assert_eq!(p.photos, vec![PhotoId(String::from("new-photo"))]);

    // an update addressed to nobody changes nothing
    db.set_profile_age(MyUserId(9), 99);
    assert_eq!(db.get_profile(MyUserId(1)).unwrap().age, 41);
}

#[test]
fn user_records() {
    let mut db = Database::new();
    assert!(db.get_user(MyUserId(1)).is_none());
    db.add_user(User::new(
        MyUserId(1),
        String::from("First"),
        Some(String::from("Last")),
        String::from("handle"),
        Some(String::from("ru")),
        2_000,
    ));
    let u = db.get_user(MyUserId(1)).expect("stored user is found");
    assert_eq!(u.username, "handle");
    assert_eq!(u.join_date, 2_000 + 10_800_000);
}

#[test]
fn remove_like_deletes_at_most_one() {
    let mut db = Database::new();
    db.add_like(Like::new(MyUserId(1), MyUserId(2), None, 5));
    db.add_like(Like::new(MyUserId(1), MyUserId(2), Some(String::from("hi")), 6));
    db.remove_like(MyUserId(1), MyUserId(2));
    // one of the two remains; delete-one touches a single record
    assert!(db.find_like(MyUserId(1), MyUserId(2)).is_some());
    db.remove_like(MyUserId(1), MyUserId(2));
    assert!(db.find_like(MyUserId(1), MyUserId(2)).is_none());
    // deleting with nothing left neither fails nor changes anything
    db.remove_like(MyUserId(1), MyUserId(2));
    assert!(db.find_like(MyUserId(1), MyUserId(2)).is_none());
}

#[test]
fn views_are_filtered_by_viewer() {
    let mut db = Database::new();
    db.add_view(ViewRecord::new(MyUserId(1), MyUserId(2), true, 1));
    db.add_view(ViewRecord::new(MyUserId(3), MyUserId(2), false, 2));
    db.add_view(ViewRecord::new(MyUserId(1), MyUserId(4), false, 3));
    let views = db.get_user_views(MyUserId(1));
    assert_eq!(views.len(), 2);
    assert_eq!(views[0].to, MyUserId(2));
    assert!(views[0].liked);
    assert_eq!(views[1].to, MyUserId(4));
    assert!(!views[1].liked);
    assert!(db.get_user_views(MyUserId(9)).is_empty());
}
