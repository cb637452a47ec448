//! The profile-creation wizard, end to end and step by step.

use deafbot::actions::{Action, Markup, MessageEvent, Notice};
use deafbot::database::Database;
use deafbot::maps::FetchingError;
use deafbot::profile::{
    HearingLevel, Location, PhotoId, Profile, ProfileBuilder, ProfileBuildingState, Sex,
};
use deafbot::state::{build_profile, State};
use deafbot::text;
use deafbot::user::{MyUserId, User};

fn sender(id: u64) -> User {
    User::new(
        MyUserId(id),
        String::from("First"),
        None,
        String::from("handle"),
        None,
        1_000,
    )
}

fn step(
    db: &mut Database,
    user: &User,
    state: State,
    event: MessageEvent,
    lookup: Option<Result<Location, FetchingError>>,
) -> (State, Vec<Action>) {
    match state {
        State::CreatingProfile {
            profile_builder,
            state,
        } => build_profile(db, user, (profile_builder, state), event, lookup),
        other => panic!("wizard left its state unexpectedly: {:?}", other),
    }
}

fn text_event(s: &str) -> MessageEvent {
    MessageEvent::Text(String::from(s))
}

/// The happy path: a user with no profile walks all eight steps and
/// the resulting profile holds every input verbatim.
#[test]
fn happy_path() {
    let mut db = Database::new();
    let user = sender(7);
    let mut state = State::CreatingProfile {
        profile_builder: Profile::builder(MyUserId(7)),
        state: ProfileBuildingState::Name,
    };

    let (s, acts) = step(&mut db, &user, state, text_event("Anna"), None);
    assert!(matches!(
        acts[0],
        Action::SendNotice {
            notice: Notice::AskAge,
            ..
        }
    ));
    state = s;

    let (s, _) = step(&mut db, &user, state, text_event("29"), None);
    state = s;

    let (s, acts) = step(
        &mut db,
        &user,
        state,
        text_event("Berlin"),
        Some(Ok(Location::new(String::from("Berlin"), String::from("Berlin")))),
    );
    assert!(matches!(
        acts[0],
        Action::SendNotice {
            notice: Notice::AskSex,
            markup: Markup::SexKeyboard,
            ..
        }
    ));
    state = s;

    let (s, _) = step(&mut db, &user, state, text_event("Девушка"), None);
    state = s;

    let (s, acts) = step(&mut db, &user, state, text_event("Парня"), None);
    assert!(matches!(
        acts[0],
        Action::SendNotice {
            notice: Notice::AskHearingLevel,
            markup: Markup::HearingKeyboard { sex: Sex::Female },
            ..
        }
    ));
    state = s;

    let (s, _) = step(&mut db, &user, state, text_event("Hearing"), None);
    state = s;

    let (s, _) = step(&mut db, &user, state, text_event(text::LEAVE_EMPTY), None);
    state = s;

    let (s, acts) = step(
        &mut db,
        &user,
        state,
        MessageEvent::Photo(vec![PhotoId(String::from("photo-1"))]),
        None,
    );
    assert!(matches!(s, State::Idle));
    assert_eq!(acts.len(), 2);
    assert!(matches!(
        acts[0],
        Action::SendNotice {
            notice: Notice::ProfileReady,
            markup: Markup::MenuKeyboard,
            ..
        }
    ));

    let profile = db.get_profile(MyUserId(7)).expect("profile was persisted");
    assert_eq!(profile.name, "Anna");
    assert_eq!(profile.age, 29);
    assert_eq!(profile.location.actual, "Berlin");
    assert!(matches!(profile.sex, Sex::Female));
    assert!(matches!(profile.hearing_level, HearingLevel::Hearing));
    assert_eq!(profile.description, None);
    assert_eq!(profile.photos, vec![PhotoId(String::from("photo-1"))]);
    assert!(profile.settings.show_up_in_search);
    assert!(matches!(profile.settings.search_options.sex, Some(Sex::Male)));
    assert!(profile.settings.search_options.age.is_none());

    let account = db.get_user(MyUserId(7)).expect("user was persisted");
    assert_eq!(account.username, "handle");
}

/// A 25-character name is accepted; a 26-character name is rejected
/// with the offending length reported.
#[test]
fn name_boundary() {
    let ok_name: String = "a".repeat(25);
    let too_long: String = "a".repeat(26);

    assert!(deafbot::profile::validate_name(&ok_name).is_ok());
    match deafbot::profile::validate_name(&too_long) {
        Err(deafbot::profile::NameValidationError::TooLong { name, length }) => {
            assert_eq!(name, too_long);
            assert_eq!(length, 26);
        }
        other => panic!("a 26-character name was not rejected: {:?}", other),
    }

    let mut db = Database::new();
    let user = sender(8);
    let state = State::CreatingProfile {
        profile_builder: Profile::builder(MyUserId(8)),
        state: ProfileBuildingState::Name,
    };
    let (s, acts) = step(&mut db, &user, state, text_event(&too_long), None);
    match s {
        State::CreatingProfile { profile_builder, state } => {
            assert!(matches!(state, ProfileBuildingState::Name));
            assert!(profile_builder.name.is_none());
        }
        other => panic!("rejected name moved the wizard: {:?}", other),
    }
    assert!(matches!(
        acts[0],
        Action::SendNotice {
            notice: Notice::NameTooLong { length: 26, .. },
            ..
        }
    ));
}

/// An unknown city keeps the wizard on the location step with nothing
/// stored, echoing the rejected name.
#[test]
fn city_not_found() {
    let mut db = Database::new();
    let user = sender(9);
    let mut builder = Profile::builder(MyUserId(9));
    builder.name = Some(String::from("Anna"));
    builder.age = Some(29);
    let state = State::CreatingProfile {
        profile_builder: builder,
        state: ProfileBuildingState::Location,
    };

    let (s, acts) = step(
        &mut db,
        &user,
        state,
        text_event("Xyzzyplex"),
        Some(Err(FetchingError::CityNotFound {
            name: String::from("Xyzzyplex"),
        })),
    );
    match s {
        State::CreatingProfile { profile_builder, state } => {
            assert!(matches!(state, ProfileBuildingState::Location));
            assert!(profile_builder.location.is_none());
        }
        other => panic!("failed lookup moved the wizard: {:?}", other),
    }
    assert_eq!(acts.len(), 1);
    match &acts[0] {
        Action::SendNotice {
            notice: Notice::CityNotFound { name },
            ..
        } => assert_eq!(name, "Xyzzyplex"),
        other => panic!("expected the unknown city echoed back, got {:?}", other),
    }
}

/// A transient geocoder failure apologizes and stays on the step.
#[test]
fn city_lookup_transient_failure() {
    let mut db = Database::new();
    let user = sender(10);
    let mut builder = Profile::builder(MyUserId(10));
    builder.name = Some(String::from("Anna"));
    builder.age = Some(29);
    let state = State::CreatingProfile {
        profile_builder: builder,
        state: ProfileBuildingState::Location,
    };
    let (s, acts) = step(
        &mut db,
        &user,
        state,
        text_event("Berlin"),
        Some(Err(FetchingError::UnsuccessfulRequest { response_code: 500 })),
    );
    assert!(matches!(
        s,
        State::CreatingProfile {
            state: ProfileBuildingState::Location,
            ..
        }
    ));
    assert!(matches!(
        acts[0],
        Action::SendNotice {
            notice: Notice::TransientFailure,
            ..
        }
    ));
}

/// An unparsable age reports the failure and stays on the step.
#[test]
fn age_must_parse() {
    let mut db = Database::new();
    let user = sender(11);
    let mut builder = Profile::builder(MyUserId(11));
    builder.name = Some(String::from("Anna"));
    let state = State::CreatingProfile {
        profile_builder: builder,
        state: ProfileBuildingState::Age,
    };
    let (s, acts) = step(&mut db, &user, state, text_event("двадцать"), None);
    assert!(matches!(
        s,
        State::CreatingProfile {
            state: ProfileBuildingState::Age,
            ..
        }
    ));
    match &acts[0] {
        Action::SendNotice {
            notice: Notice::AgeNotANumber { reply },
            ..
        } => assert_eq!(reply, "двадцать"),
        other => panic!("expected the parse failure reported, got {:?}", other),
    }
}

/// Unrecognized desired-sex input is silently ignored: same step, no
/// message; the no-preference token stores no constraint and advances.
#[test]
fn meeting_preferences_tokens() {
    let mut db = Database::new();
    let user = sender(12);
    let mut builder = Profile::builder(MyUserId(12));
    builder.name = Some(String::from("Anna"));
    builder.age = Some(29);
    builder.location = Some(Location::new(String::from("Berlin"), String::from("Berlin")));
    builder.sex = Some(Sex::Female);
    let state = State::CreatingProfile {
        profile_builder: builder.clone(),
        state: ProfileBuildingState::MeetingPreferences,
    };

    let (s, acts) = step(&mut db, &user, state, text_event("whatever else"), None);
    assert!(matches!(
        s,
        State::CreatingProfile {
            state: ProfileBuildingState::MeetingPreferences,
            ..
        }
    ));
    assert!(acts.is_empty());

    let state = State::CreatingProfile {
        profile_builder: builder,
        state: ProfileBuildingState::MeetingPreferences,
    };
    let (s, _) = step(&mut db, &user, state, text_event(text::WHATEVER), None);
    match s {
        State::CreatingProfile { profile_builder, state } => {
            assert!(matches!(state, ProfileBuildingState::HearingLevel));
            assert!(profile_builder.want_to_meet.is_none());
        }
        other => panic!("no-preference token did not advance: {:?}", other),
    }
}

/// A skipped builder materializes with the documented defaults.
#[test]
fn builder_defaults() {
    let builder = Profile::builder(MyUserId(13));
    let profile = builder.build();
    assert_eq!(profile.name, "Не указано");
    assert_eq!(profile.age, 0);
    assert!(matches!(profile.sex, Sex::Male));
    assert!(matches!(profile.hearing_level, HearingLevel::CompletelyDeaf));
    assert_eq!(profile.location.actual, "Москва");
    assert!(profile.description.is_none());
    assert!(profile.settings.show_up_in_search);
}

/// The wizard steps advance in their fixed order and stop after the
/// photo step.
#[test]
fn step_order() {
    let mut s = ProfileBuildingState::Name;
    let expected = [
        ProfileBuildingState::Age,
        ProfileBuildingState::Location,
        ProfileBuildingState::Sex,
        ProfileBuildingState::MeetingPreferences,
        ProfileBuildingState::HearingLevel,
        ProfileBuildingState::Description,
        ProfileBuildingState::Photo,
    ];
    for e in expected {
        let n = s.next().expect("an inner step has a successor");
        assert_eq!(n, e);
        s = n;
    }
    assert!(s.next().is_none());
}
