//! The field-edit flow, the button dispatcher and the router.

use deafbot::actions::{Action, Markup, MessageEvent, Notice};
use deafbot::application::{route, RouteDecision};
use deafbot::callback::{handle, CallbackData, CallbackQuery, ProfileField};
use deafbot::commands::{handle_command, handle_user_without_profile, Command};
use deafbot::database::Database;
use deafbot::maps::FetchingError;
use deafbot::profile::{HearingLevel, Location, PhotoId, Profile, Sex};
use deafbot::state::{edit_profile, handle_message, EditOrigin, State};
use deafbot::text;
use deafbot::user::MyUserId;

fn profile(id: u64) -> Profile {
    let mut b = Profile::builder(MyUserId(id));
    b.name = Some(format!("user-{}", id));
    b.age = Some(30);
    b.sex = Some(Sex::Female);
    b.hearing_level = Some(HearingLevel::Hearing);
    b.location = Some(Location::new(String::from("Berlin"), String::from("Berlin")));
    b.photos = vec![PhotoId(format!("photo-{}", id))];
    b.build()
}

fn query(id: u64, message_id: i32, data: &str) -> CallbackQuery {
    CallbackQuery {
        id: String::from("q"),
        from: MyUserId(id),
        message_id: Some(message_id),
        data: Some(String::from(data)),
    }
}

/// A valid name edit writes the field, deletes every message from the
/// reply up to the anchor and rewrites the anchor into the edit menu.
#[test]
fn edit_name_collapses_dialog() {
    let mut db = Database::new();
    db.add_profile(profile(1));
    let origin = EditOrigin { user_id: MyUserId(1), message_id: 107 };
    let (state, acts) = edit_profile(
        &mut db,
        MyUserId(1),
        (ProfileField::Name, origin),
        104,
        MessageEvent::Text(String::from("Maria")),
        None,
    );
    assert!(matches!(state, State::Idle));
    assert_eq!(db.get_profile(MyUserId(1)).unwrap().name, "Maria");
    // deletes 104, 105, 106, then rewrites the anchor 107
    assert_eq!(acts.len(), 5);
    for (k, expected) in [104, 105, 106].iter().enumerate() {
        match acts[k] {
            Action::DeleteMessage { message_id, .. } => assert_eq!(message_id, *expected),
            ref other => panic!("expected a deletion, got {:?}", other),
        }
    }
    assert!(matches!(
        acts[3],
        Action::EditMessageText {
            message_id: 107,
            notice: Notice::ProfileEditMode,
            ..
        }
    ));
    assert!(matches!(
        acts[4],
        Action::EditMessageMarkup {
            message_id: 107,
            markup: Markup::EditProfileInline,
            ..
        }
    ));
}

/// The normal ordering: the reply is newer than the anchor. The reply
/// and everything down to the anchor are deleted, newest first, before
/// the anchor is rewritten.
#[test]
fn edit_reply_newer_than_anchor() {
    let mut db = Database::new();
    db.add_profile(profile(1));
    let origin = EditOrigin { user_id: MyUserId(1), message_id: 107 };
    let (state, acts) = edit_profile(
        &mut db,
        MyUserId(1),
        (ProfileField::Name, origin),
        110,
        MessageEvent::Text(String::from("Maria")),
        None,
    );
    assert!(matches!(state, State::Idle));
    assert_eq!(db.get_profile(MyUserId(1)).unwrap().name, "Maria");
    assert_eq!(acts.len(), 5);
    for (k, expected) in [110, 109, 108].iter().enumerate() {
        match acts[k] {
            Action::DeleteMessage { message_id, .. } => assert_eq!(message_id, *expected),
            ref other => panic!("expected a deletion, got {:?}", other),
        }
    }
    assert!(matches!(
        acts[3],
        Action::EditMessageText {
            message_id: 107,
            notice: Notice::ProfileEditMode,
            ..
        }
    ));
    assert!(matches!(
        acts[4],
        Action::EditMessageMarkup {
            message_id: 107,
            markup: Markup::EditProfileInline,
            ..
        }
    ));
}

/// An over-long name is rejected: nothing written, the flow waits on.
#[test]
fn edit_name_rejects_long_input() {
    let mut db = Database::new();
    db.add_profile(profile(1));
    let origin = EditOrigin { user_id: MyUserId(1), message_id: 107 };
    let long = "x".repeat(26);
    let (state, acts) = edit_profile(
        &mut db,
        MyUserId(1),
        (ProfileField::Name, origin),
        104,
        MessageEvent::Text(long),
        None,
    );
    assert!(matches!(
        state,
        State::EditingProfile { profile_field: ProfileField::Name, .. }
    ));
    assert_eq!(db.get_profile(MyUserId(1)).unwrap().name, "user-1");
    assert!(matches!(
        acts[0],
        Action::SendNotice { notice: Notice::NameTooLong { .. }, .. }
    ));
}

/// An unknown city during an edit re-prompts without touching the
/// stored location.
#[test]
fn edit_city_not_found_stays() {
    let mut db = Database::new();
    db.add_profile(profile(1));
    let origin = EditOrigin { user_id: MyUserId(1), message_id: 107 };
    let (state, acts) = edit_profile(
        &mut db,
        MyUserId(1),
        (ProfileField::City, origin),
        104,
        MessageEvent::Text(String::from("Xyzzyplex")),
        Some(Err(FetchingError::CityNotFound { name: String::from("Xyzzyplex") })),
    );
    assert!(matches!(
        state,
        State::EditingProfile { profile_field: ProfileField::City, .. }
    ));
    assert_eq!(db.get_profile(MyUserId(1)).unwrap().location.actual, "Berlin");
    assert!(matches!(
        acts[0],
        Action::SendNotice { notice: Notice::CityNotFound { .. }, .. }
    ));
}

/// Input of the wrong shape for the field is a no-op.
#[test]
fn edit_wrong_shape_is_noop() {
    let mut db = Database::new();
    db.add_profile(profile(1));
    let origin = EditOrigin { user_id: MyUserId(1), message_id: 107 };
    let (state, acts) = edit_profile(
        &mut db,
        MyUserId(1),
        (ProfileField::Photo, origin),
        104,
        MessageEvent::Text(String::from("not a photo")),
        None,
    );
    assert!(matches!(
        state,
        State::EditingProfile { profile_field: ProfileField::Photo, .. }
    ));
    assert!(acts.is_empty());
}

/// The button dispatcher: selecting a field arms the edit state, the
/// hearing-level buttons write directly, finish re-renders.
#[test]
fn callback_dispatch_flows() {
    let mut db = Database::new();
    db.add_profile(profile(1));

    // select the name field
    let q = query(1, 50, "EPD:Name");
    let (ns, acts) = handle(&mut db, &q).expect("a valid payload decodes");
    match ns {
        Some(State::EditingProfile { profile_field: ProfileField::Name, origin }) => {
            assert_eq!(origin.message_id, 50);
        }
        other => panic!("expected the editing state armed, got {:?}", other),
    }
    assert!(matches!(
        acts[0],
        Action::EditMessageText { notice: Notice::AskNewName, .. }
    ));

    // the hearing-level selector keeps the dialogue state
    let q = query(1, 50, "EPD:HearingLevel");
    let (ns, acts) = handle(&mut db, &q).unwrap();
    assert!(ns.is_none());
    assert!(matches!(
        acts[1],
        Action::EditMessageMarkup {
            markup: Markup::SetHearingInline { sex: Sex::Female },
            ..
        }
    ));

    // a hearing-level button writes the field
    let q = query(1, 50, &CallbackData::SHR { hearing_level: HearingLevel::CompletelyDeaf }.encode());
    let (ns, _) = handle(&mut db, &q).unwrap();
    assert!(ns.is_none());
    assert!(matches!(
        db.get_profile(MyUserId(1)).unwrap().hearing_level,
        HearingLevel::CompletelyDeaf
    ));

    // leave-empty clears the description
    db.set_profile_description(MyUserId(1), Some(String::from("old")));
    let q = query(1, 50, "LED");
    handle(&mut db, &q).unwrap();
    assert!(db.get_profile(MyUserId(1)).unwrap().description.is_none());

    // finish closes the dialog and re-renders the profile
    let q = query(1, 50, "FED");
    let (ns, acts) = handle(&mut db, &q).unwrap();
    assert!(matches!(ns, Some(State::Idle)));
    assert_eq!(acts.len(), 4);
    assert!(matches!(acts[0], Action::DeleteMessage { message_id: 50, .. }));
    assert!(matches!(acts[1], Action::DeleteMessage { message_id: 49, .. }));
    assert!(matches!(
        acts[3],
        Action::SendProfile { markup: Markup::EnterEditInline, .. }
    ));

    // an unknown payload is a decode failure, not a silent drop
    let q = query(1, 50, "NOPE");
    assert!(handle(&mut db, &q).is_err());

    // a press without a payload is ignored
    let q = CallbackQuery { id: String::from("q"), from: MyUserId(1), message_id: Some(50), data: None };
    let (ns, acts) = handle(&mut db, &q).unwrap();
    assert!(ns.is_none() && acts.is_empty());
}

/// The idle menu: a stray browsing token means lost activity.
#[test]
fn idle_lost_activity() {
    let mut db = Database::new();
    db.add_profile(profile(1));
    let (state, acts) = handle_message(
        &db,
        MyUserId(1),
        MessageEvent::Text(String::from(text::LIKE)),
    );
    assert!(matches!(state, State::Idle));
    assert_eq!(acts.len(), 2);
    assert!(matches!(
        acts[0],
        Action::SendNotice { notice: Notice::LostActivity, .. }
    ));
    assert!(matches!(
        acts[1],
        Action::SendNotice { notice: Notice::Menu, .. }
    ));
}

/// The idle menu: the own-profile button renders with the edit button.
#[test]
fn idle_my_profile() {
    let mut db = Database::new();
    db.add_profile(profile(1));
    let (_, acts) = handle_message(
        &db,
        MyUserId(1),
        MessageEvent::Text(String::from(text::MY_PROFILE)),
    );
    assert!(matches!(
        acts[0],
        Action::SendProfile { markup: Markup::EnterEditInline, .. }
    ));
}

/// The commands: start without a profile opens the wizard; with one,
/// it shows the menu.
#[test]
fn start_command() {
    assert_eq!(Command::parse("/start"), Some(Command::Start));
    assert_eq!(Command::parse("start"), None);

    let (state, acts) = handle_user_without_profile(MyUserId(1), Command::Start);
    match state {
        State::CreatingProfile { profile_builder, .. } => {
            assert_eq!(profile_builder.id, MyUserId(1));
            assert!(profile_builder.name.is_none());
        }
        other => panic!("start must open the wizard, got {:?}", other),
    }
    assert!(matches!(
        acts[0],
        Action::SendNotice { notice: Notice::Greeting, .. }
    ));

    let acts = handle_command(MyUserId(1), Command::Start);
    assert!(matches!(
        acts[0],
        Action::SendNotice { notice: Notice::Menu, .. }
    ));
}

/// The router's precedence, first match wins.
#[test]
fn routing_precedence() {
    let idle = State::Idle;
    let wizard = State::CreatingProfile {
        profile_builder: Profile::builder(MyUserId(1)),
        state: deafbot::profile::ProfileBuildingState::Age,
    };

    assert_eq!(route(false, true, true, true, &idle), RouteDecision::RejectNotPrivate);
    assert_eq!(route(true, false, true, true, &idle), RouteDecision::RejectNoUsername);
    assert_eq!(route(true, true, false, true, &idle), RouteDecision::WizardEntry);
    assert_eq!(route(true, true, false, false, &wizard), RouteDecision::BuildProfile);
    assert_eq!(route(true, true, false, false, &idle), RouteDecision::Drop);
    assert_eq!(route(true, true, true, true, &idle), RouteDecision::HandleCommand);
    assert_eq!(route(true, true, true, false, &idle), RouteDecision::HandleMessage);

    let browsing = State::LookingAtProfiles {
        data: deafbot::state::SearchData { user_profile: profile(1), profile_id: MyUserId(2) },
    };
    assert_eq!(route(true, true, true, false, &browsing), RouteDecision::ActOnProfile);
    let likes = State::LookingAtProfilesWhoHaveLiked {
        data: deafbot::state::SearchData { user_profile: profile(1), profile_id: MyUserId(2) },
    };
    assert_eq!(route(true, true, true, false, &likes), RouteDecision::LookAtLikes);
    let editing = State::EditingProfile {
        profile_field: ProfileField::Name,
        origin: EditOrigin { user_id: MyUserId(1), message_id: 1 },
    };
    assert_eq!(route(true, true, true, false, &editing), RouteDecision::LookupEdit);
}
