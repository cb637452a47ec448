//! The mutual-consent candidate filter and its exclusion behaviour.

use deafbot::database::Database;
use deafbot::profile::{AgeFilter, HearingLevel, Location, PhotoId, Profile, Sex, ViewRecord};
use deafbot::user::MyUserId;

fn profile(id: u64, age: i64, sex: Sex, city: &str) -> Profile {
    let mut b = Profile::builder(MyUserId(id));
    b.name = Some(format!("user-{}", id));
    b.age = Some(age);
    b.sex = Some(sex);
    b.hearing_level = Some(HearingLevel::Hearing);
    b.location = Some(Location::new(String::from(city), String::from(city)));
    b.photos = vec![PhotoId(format!("photo-{}", id))];
    b.build()
}

#[test]
fn basic_criteria() {
    let viewer = profile(1, 30, Sex::Male, "Berlin");
    let same_city = profile(2, 25, Sex::Female, "Berlin");
    let other_city = profile(3, 25, Sex::Female, "Hamburg");
    let views: Vec<ViewRecord> = Vec::new();

    assert!(viewer.search_filter(&views, &same_city));
    assert!(!viewer.search_filter(&views, &other_city));
    // never the viewer's own profile
    assert!(!viewer.search_filter(&views, &viewer));

    let mut hidden = profile(4, 25, Sex::Female, "Berlin");
    hidden.settings.show_up_in_search = false;
    assert!(!viewer.search_filter(&views, &hidden));
}

/// Both boundary ages of a declared range are accepted, and one step
/// outside each is not.
#[test]
fn age_range_boundaries() {
    let mut viewer = profile(1, 30, Sex::Male, "Berlin");
    viewer.settings.search_options.age = Some(AgeFilter { lowest: 20, greatest: 25 });
    let views: Vec<ViewRecord> = Vec::new();

    for (age, expected) in [(19, false), (20, true), (25, true), (26, false)] {
        let candidate = profile(2, age, Sex::Female, "Berlin");
        assert_eq!(
            viewer.search_filter(&views, &candidate),
            expected,
            "candidate aged {} against range 20..=25",
            age
        );
    }
}

/// Mutual consent: a candidate whose preferences reject the viewer is
/// excluded, and swapping the roles excludes the pair the same way.
#[test]
fn mutual_consent_symmetry() {
    let viewer = profile(1, 30, Sex::Male, "Berlin");
    // the candidate accepts only women, so the male viewer fails her test
    let mut candidate = profile(2, 28, Sex::Female, "Berlin");
    candidate.settings.search_options.sex = Some(Sex::Female);
    let views: Vec<ViewRecord> = Vec::new();

    assert!(!viewer.search_filter(&views, &candidate));
    assert!(!candidate.search_filter(&views, &viewer));

    // with a compatible preference, both directions open up
    candidate.settings.search_options.sex = Some(Sex::Male);
    assert!(viewer.search_filter(&views, &candidate));
    assert!(candidate.search_filter(&views, &viewer));
}

/// A declared hearing-level set must contain the other party's level.
#[test]
fn hearing_level_preference() {
    let mut viewer = profile(1, 30, Sex::Male, "Berlin");
    viewer.settings.search_options.hearing_level =
        Some(vec![HearingLevel::CompletelyDeaf, HearingLevel::HearingImpaired]);
    let views: Vec<ViewRecord> = Vec::new();

    let hearing = profile(2, 28, Sex::Female, "Berlin");
    assert!(!viewer.search_filter(&views, &hearing));

    let mut deaf = profile(3, 28, Sex::Female, "Berlin");
    deaf.hearing_level = HearingLevel::CompletelyDeaf;
    assert!(viewer.search_filter(&views, &deaf));
}

/// Exclusion is permanent: once a view exists — liked or skipped — the
/// candidate never comes back, whatever either profile looks like now.
#[test]
fn exclusion_monotonicity() {
    let mut db = Database::new();
    let viewer = profile(1, 30, Sex::Male, "Berlin");
    let candidate = profile(2, 28, Sex::Female, "Berlin");
    db.add_profile(viewer.clone());
    db.add_profile(candidate.clone());

    let views = db.get_user_views(MyUserId(1));
    assert!(db.filter_profile(&viewer, &views).is_some());

    // a skip excludes as firmly as a like
    db.add_view(ViewRecord::new(MyUserId(1), MyUserId(2), false, 10));
    let views = db.get_user_views(MyUserId(1));
    assert!(db.filter_profile(&viewer, &views).is_none());

    // later edits to the candidate change nothing about the exclusion
    db.set_profile_name(MyUserId(2), String::from("renamed"));
    db.set_profile_age(MyUserId(2), 29);
    let views = db.get_user_views(MyUserId(1));
    assert!(db.filter_profile(&viewer, &views).is_none());
}

/// Views recorded by other users exclude nothing for this viewer.
#[test]
fn exclusion_is_per_viewer() {
    let mut db = Database::new();
    let viewer = profile(1, 30, Sex::Male, "Berlin");
    let candidate = profile(2, 28, Sex::Female, "Berlin");
    db.add_profile(viewer.clone());
    db.add_profile(candidate);

    db.add_view(ViewRecord::new(MyUserId(5), MyUserId(2), true, 10));
    let views = db.get_user_views(MyUserId(1));
    assert!(db.filter_profile(&viewer, &views).is_some());
}
