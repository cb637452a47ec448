//! The per-user dialogue state and the profile-creation wizard: one
//! state value exists per identity, transitions are total replacements,
//! and every handler is a pure decision from state and event to the
//! next state plus the outbound actions to perform.

use vstd::prelude::*;

use crate::actions::{Action, Markup, MessageEvent, Notice};
use crate::callback::ProfileField;
use crate::common;
use crate::database::{
    has_like, has_profile, has_user, lemma_outcome_weaken, like_removed, set_profile_outcome,
    store_unchanged, Database,
};
use crate::perform;
use crate::profile::Like;
use crate::profile::ViewRecord;
use crate::maps::FetchingError;
use crate::profile::{
    built_from, validate_name, Location, NameValidationError, PhotoId, Profile, ProfileBuilder,
    ProfileBuilderV, ProfileBuildingState, ProfileV, Sex, MAX_NAME_LENGTH,
};
use crate::profile::HearingLevel;
use crate::parsing;
use crate::text;
use crate::user::{MyUserId, User};

verus! {

/// Identity of the profile currently shown while browsing, together
/// with a snapshot of the browsing user's own profile.
#[derive(Debug)]
pub struct SearchData {
    pub user_profile: Profile,
    pub profile_id: MyUserId,
}

impl Clone for SearchData {
    fn clone(&self) -> (r: Self)
        ensures
            r.user_profile@ == self.user_profile@,
            r.profile_id == self.profile_id,
    {
        SearchData { user_profile: self.user_profile.clone(), profile_id: self.profile_id }
    }
}

/// The message the edit flow keeps rewriting in place, tracked
/// explicitly so that no arithmetic over message identifiers is needed
/// to find it again.
#[derive(Debug, Clone, Copy, PartialEq, Eq, Structural)]
pub struct EditOrigin {
    pub user_id: MyUserId,
    pub message_id: i32,
}

/// Dialogue state of one identity. Exactly one value exists per
/// identity at any time; handlers replace it wholesale.
#[derive(Debug)]
pub enum State {
    /// Nothing in progress; the idle menu answers.
    Idle,
    CreatingProfile { profile_builder: ProfileBuilder, state: ProfileBuildingState },
    LookingAtProfiles { data: SearchData },
    LookingAtProfilesWhoHaveLiked { data: SearchData },
    EditingProfile { profile_field: ProfileField, origin: EditOrigin },
}

impl Default for State {
    fn default() -> (r: Self)
        ensures
            r is Idle,
    {
        State::Idle
    }
}

pub type CreatingProfileResult = Result<ProfileBuilder, CreatingProfileError>;

/// Why a wizard step rejected its input; the wizard stays on the same
/// step in every case.
#[derive(Debug)]
pub enum CreatingProfileError {
    UnableToParseUserReply { state: ProfileBuildingState, user_reply: String },
    UnableToValidateName { error: NameValidationError },
    UnableToResolveLocation { error: FetchingError },
}

/// What the builder is known to hold upon entering each step: every
/// earlier step has filled its field. (The meeting-preference and
/// description fields may legitimately hold `None`.)
pub open spec fn wizard_inv(b: ProfileBuilderV, s: ProfileBuildingState) -> bool {
    match s {
        ProfileBuildingState::Name => true,
        ProfileBuildingState::Age => b.name is Some,
        ProfileBuildingState::Location => b.name is Some && b.age is Some,
        ProfileBuildingState::Sex => b.name is Some && b.age is Some && b.location is Some,
        ProfileBuildingState::MeetingPreferences => b.name is Some && b.age is Some && b.location
            is Some && b.sex is Some,
        ProfileBuildingState::HearingLevel => b.name is Some && b.age is Some && b.location
            is Some && b.sex is Some,
        ProfileBuildingState::Description => b.name is Some && b.age is Some && b.location is Some
            && b.sex is Some && b.hearing_level is Some,
        ProfileBuildingState::Photo => b.name is Some && b.age is Some && b.location is Some
            && b.sex is Some && b.hearing_level is Some,
    }
}

/// Validates and stores the display name.
pub fn catch_name(profile_builder: ProfileBuilder, text: &str) -> (r: CreatingProfileResult)
    ensures
        match r {
            Ok(b) => text@.len() <= MAX_NAME_LENGTH && b@ == (ProfileBuilderV {
                name: b@.name,
                ..profile_builder@
            }) && (b@.name matches Some(n) && n@ == text@),
            Err(e) => text@.len() > MAX_NAME_LENGTH && (e matches
                CreatingProfileError::UnableToValidateName {
                    error: NameValidationError::TooLong { name, length },
                } && name@ == text@ && length == text@.len()),
        },
{
    match validate_name(text) {
        Err(error) => Err(CreatingProfileError::UnableToValidateName { error }),
        Ok(()) => {
            let mut b = profile_builder;
            b.name = Some(text.to_owned());
            Ok(b)
        },
    }
}

/// Parses and stores the age.
pub fn catch_age(profile_builder: ProfileBuilder, text: &str) -> (r: CreatingProfileResult)
    ensures
        match r {
            Ok(b) => parsing::spec_parse_i64(text@) matches Some(v) && b@ == (ProfileBuilderV {
                age: Some(v),
                ..profile_builder@
            }),
            Err(e) => parsing::spec_parse_i64(text@) is None && (e matches
                CreatingProfileError::UnableToParseUserReply { state, user_reply } && state
                == ProfileBuildingState::Age && user_reply@ == text@),
        },
{
    match parsing::parse_i64(text) {
        Some(age) => {
            let mut b = profile_builder;
            b.age = Some(age);
            Ok(b)
        },
        None => Err(
            CreatingProfileError::UnableToParseUserReply {
                state: ProfileBuildingState::Age,
                user_reply: text.to_owned(),
            },
        ),
    }
}

/// Stores the outcome of the external city lookup.
pub fn catch_location(profile_builder: ProfileBuilder, lookup: Result<Location, FetchingError>)
    -> (r: CreatingProfileResult)
    ensures
        match r {
            Ok(b) => lookup matches Ok(loc) && b@ == (ProfileBuilderV {
                location: Some(loc),
                ..profile_builder@
            }),
            Err(e) => lookup matches Err(fe) && (e matches
                CreatingProfileError::UnableToResolveLocation { error } && error == fe),
        },
{
    match lookup {
        Ok(location) => {
            let mut b = profile_builder;
            b.location = Some(location);
            Ok(b)
        },
        Err(error) => Err(CreatingProfileError::UnableToResolveLocation { error }),
    }
}

/// Parses and stores the sex.
pub fn catch_sex(profile_builder: ProfileBuilder, text: &str) -> (r: CreatingProfileResult)
    ensures
        match r {
            Ok(b) => Sex::spec_from_str(text@) matches Some(sx) && b@ == (ProfileBuilderV {
                sex: Some(sx),
                ..profile_builder@
            }),
            Err(e) => Sex::spec_from_str(text@) is None && (e matches
                CreatingProfileError::UnableToParseUserReply { state, user_reply } && state
                == ProfileBuildingState::Sex && user_reply@ == text@),
        },
{
    match Sex::from_str(text) {
        Ok(sex) => {
            let mut b = profile_builder;
            b.sex = Some(sex);
            Ok(b)
        },
        Err(()) => Err(
            CreatingProfileError::UnableToParseUserReply {
                state: ProfileBuildingState::Sex,
                user_reply: text.to_owned(),
            },
        ),
    }
}

/// The wizard's desired-sex tokens: boy, girl, or no preference.
pub open spec fn spec_meeting_pref(s: Seq<char>) -> Option<Option<Sex>> {
    if s == text::WANT_A_BOY@ {
        Some(Some(Sex::Male))
    } else if s == text::WANT_A_GIRL@ {
        Some(Some(Sex::Female))
    } else if s == text::WHATEVER@ {
        Some(None)
    } else {
        None
    }
}

/// Maps the desired-sex reply; an unrecognized reply is an error so
/// that the wizard stays on the step, silently.
pub fn catch_meeting_preferences(profile_builder: ProfileBuilder, text: &str) -> (r:
    CreatingProfileResult)
    ensures
        match r {
            Ok(b) => spec_meeting_pref(text@) matches Some(w) && b@ == (ProfileBuilderV {
                want_to_meet: w,
                ..profile_builder@
            }),
            Err(e) => spec_meeting_pref(text@) is None && (e matches
                CreatingProfileError::UnableToParseUserReply { state, user_reply } && state
                == ProfileBuildingState::MeetingPreferences && user_reply@ == text@),
        },
{
    let want: Option<Sex> = if crate::strutil::str_eq(text, text::WANT_A_BOY) {
        Some(Sex::Male)
    } else if crate::strutil::str_eq(text, text::WANT_A_GIRL) {
        Some(Sex::Female)
    } else if crate::strutil::str_eq(text, text::WHATEVER) {
        None
    } else {
        return Err(
            CreatingProfileError::UnableToParseUserReply {
                state: ProfileBuildingState::MeetingPreferences,
                user_reply: text.to_owned(),
            },
        );
    };
    let mut b = profile_builder;
    b.want_to_meet = want;
    Ok(b)
}

/// Parses and stores the hearing level.
pub fn catch_hearing_level(profile_builder: ProfileBuilder, text: &str) -> (r:
    CreatingProfileResult)
    ensures
        match r {
            Ok(b) => HearingLevel::spec_from_str(text@) matches Some(h) && b@ == (ProfileBuilderV {
                hearing_level: Some(h),
                ..profile_builder@
            }),
            Err(e) => HearingLevel::spec_from_str(text@) is None && (e matches
                CreatingProfileError::UnableToParseUserReply { state, user_reply } && state
                == ProfileBuildingState::HearingLevel && user_reply@ == text@),
        },
{
    match HearingLevel::from_str(text) {
        Ok(hearing_level) => {
            let mut b = profile_builder;
            b.hearing_level = Some(hearing_level);
            Ok(b)
        },
        Err(()) => Err(
            CreatingProfileError::UnableToParseUserReply {
                state: ProfileBuildingState::HearingLevel,
                user_reply: text.to_owned(),
            },
        ),
    }
}

/// Stores the description, or none on the leave-empty sentinel.
pub fn catch_description(profile_builder: ProfileBuilder, text: &str) -> (r:
    CreatingProfileResult)
    ensures
        r matches Ok(b) && b@ == (ProfileBuilderV { description: b@.description, ..profile_builder@ })
            && (if text@ == text::LEAVE_EMPTY@ {
            b@.description is None
        } else {
            b@.description matches Some(d) && d@ == text@
        }),
{
    let mut b = profile_builder;
    if crate::strutil::str_eq(text, text::LEAVE_EMPTY) {
        b.description = None;
    } else {
        b.description = Some(text.to_owned());
    }
    Ok(b)
}

/// Appends the newest uploaded photo (the largest rendition is last).
pub fn catch_photo(profile_builder: ProfileBuilder, photos: &Vec<PhotoId>) -> (r:
    CreatingProfileResult)
    requires
        photos@.len() > 0,
    ensures
        r matches Ok(b) && b@ == (ProfileBuilderV {
            photos: profile_builder@.photos.push(photos@.last()),
            ..profile_builder@
        }),
{
    let mut b = profile_builder;
    let last = photos[photos.len() - 1].clone();
    b.photos.push(last);
    Ok(b)
}

/// Whether `a` sends `notice` with `markup` to `to`.
pub open spec fn is_notice_to(a: Action, to: MyUserId, notice: Notice, markup: Markup) -> bool {
    a matches Action::SendNotice { to: t, notice: n, markup: m } && t == to && n == notice && m
        == markup
}

/// The wizard continues with builder `b` at step `s`.
pub open spec fn wizard_stays(b: ProfileBuilderV, s: ProfileBuildingState, ns: State) -> bool {
    ns matches State::CreatingProfile { profile_builder, state } && profile_builder@ == b && state
        == s
}

/// Prompt sent upon entering step `s`.
pub open spec fn prompt_notice(s: ProfileBuildingState) -> Notice {
    match s {
        ProfileBuildingState::Name => Notice::Greeting,
        ProfileBuildingState::Age => Notice::AskAge,
        ProfileBuildingState::Location => Notice::AskCity,
        ProfileBuildingState::Sex => Notice::AskSex,
        ProfileBuildingState::MeetingPreferences => Notice::AskWhoToMeet,
        ProfileBuildingState::HearingLevel => Notice::AskHearingLevel,
        ProfileBuildingState::Description => Notice::AskDescription,
        ProfileBuildingState::Photo => Notice::AskPhoto,
    }
}

/// Keyboard offered with the prompt of step `s`, for a builder `b`.
pub open spec fn prompt_markup(s: ProfileBuildingState, b: ProfileBuilderV) -> Markup {
    match s {
        ProfileBuildingState::Name => Markup::Bare,
        ProfileBuildingState::Age => Markup::Bare,
        ProfileBuildingState::Location => Markup::Bare,
        ProfileBuildingState::Sex => Markup::SexKeyboard,
        ProfileBuildingState::MeetingPreferences => Markup::WantToMeetKeyboard,
        ProfileBuildingState::HearingLevel => Markup::HearingKeyboard { sex: b.sex.unwrap() },
        ProfileBuildingState::Description => Markup::LeaveEmptyKeyboard,
        ProfileBuildingState::Photo => Markup::RemoveKeyboard,
    }
}

/// The wizard advanced to step `s2` holding builder `b2`, and the only
/// action is the prompt of `s2`.
pub open spec fn wizard_advanced(
    b2: ProfileBuilderV,
    s2: ProfileBuildingState,
    ns: State,
    acts: Seq<Action>,
    to: MyUserId,
) -> bool {
    &&& wizard_stays(b2, s2, ns)
    &&& acts.len() == 1
    &&& is_notice_to(acts[0], to, prompt_notice(s2), prompt_markup(s2, b2))
}

/// The transition table of the profile-creation wizard, one row per
/// (step, event shape): what the next state is, which actions go out,
/// and how the store changes (only the final photo step writes to it).
pub open spec fn wizard_step_spec(
    db0: Database,
    db1: Database,
    sender: User,
    b: ProfileBuilderV,
    s: ProfileBuildingState,
    event: MessageEvent,
    lookup: Option<Result<Location, FetchingError>>,
    ns: State,
    acts: Seq<Action>,
) -> bool {
    match (s, event) {
        (ProfileBuildingState::Name, MessageEvent::Text(t)) => {
            &&& store_unchanged(db0, db1)
            &&& if t@.len() <= MAX_NAME_LENGTH {
                &&& (ns matches State::CreatingProfile { profile_builder, state } && state
                    == ProfileBuildingState::Age && profile_builder@ == (ProfileBuilderV {
                    name: profile_builder@.name,
                    ..b
                }) && (profile_builder@.name matches Some(n) && n@ == t@))
                &&& acts.len() == 1
                &&& is_notice_to(acts[0], b.id, Notice::AskAge, Markup::Bare)
            } else {
                &&& wizard_stays(b, s, ns)
                &&& acts.len() == 1
                &&& (acts[0] matches Action::SendNotice {
                    to,
                    notice: Notice::NameTooLong { name, length },
                    markup: Markup::Bare,
                } && to == b.id && name@ == t@ && length == t@.len())
            }
        },
        (ProfileBuildingState::Age, MessageEvent::Text(t)) => {
            &&& store_unchanged(db0, db1)
            &&& match parsing::spec_parse_i64(t@) {
                Some(v) => wizard_advanced(
                    (ProfileBuilderV { age: Some(v), ..b }),
                    ProfileBuildingState::Location,
                    ns,
                    acts,
                    b.id,
                ),
                None => {
                    &&& wizard_stays(b, s, ns)
                    &&& acts.len() == 1
                    &&& (acts[0] matches Action::SendNotice {
                        to,
                        notice: Notice::AgeNotANumber { reply },
                        markup: Markup::Bare,
                    } && to == b.id && reply@ == t@)
                },
            }
        },
        (ProfileBuildingState::Location, MessageEvent::Text(t)) => {
            &&& store_unchanged(db0, db1)
            &&& match lookup {
                Some(Ok(loc)) => wizard_advanced(
                    (ProfileBuilderV { location: Some(loc), ..b }),
                    ProfileBuildingState::Sex,
                    ns,
                    acts,
                    b.id,
                ),
                Some(Err(FetchingError::CityNotFound { name })) => {
                    &&& wizard_stays(b, s, ns)
                    &&& acts.len() == 1
                    &&& (acts[0] matches Action::SendNotice {
                        to,
                        notice: Notice::CityNotFound { name: n },
                        markup: Markup::Bare,
                    } && to == b.id && n@ == name@)
                },
                Some(Err(_)) => {
                    &&& wizard_stays(b, s, ns)
                    &&& acts.len() == 1
                    &&& is_notice_to(acts[0], b.id, Notice::TransientFailure, Markup::Bare)
                },
                None => false,
            }
        },
        (ProfileBuildingState::Sex, MessageEvent::Text(t)) => {
            &&& store_unchanged(db0, db1)
            &&& match Sex::spec_from_str(t@) {
                Some(sx) => wizard_advanced(
                    (ProfileBuilderV { sex: Some(sx), ..b }),
                    ProfileBuildingState::MeetingPreferences,
                    ns,
                    acts,
                    b.id,
                ),
                None => wizard_stays(b, s, ns) && acts.len() == 0,
            }
        },
        (ProfileBuildingState::MeetingPreferences, MessageEvent::Text(t)) => {
            &&& store_unchanged(db0, db1)
            &&& match spec_meeting_pref(t@) {
                Some(w) => wizard_advanced(
                    (ProfileBuilderV { want_to_meet: w, ..b }),
                    ProfileBuildingState::HearingLevel,
                    ns,
                    acts,
                    b.id,
                ),
                None => wizard_stays(b, s, ns) && acts.len() == 0,
            }
        },
        (ProfileBuildingState::HearingLevel, MessageEvent::Text(t)) => {
            &&& store_unchanged(db0, db1)
            &&& match HearingLevel::spec_from_str(t@) {
                Some(h) => wizard_advanced(
                    (ProfileBuilderV { hearing_level: Some(h), ..b }),
                    ProfileBuildingState::Description,
                    ns,
                    acts,
                    b.id,
                ),
                None => wizard_stays(b, s, ns) && acts.len() == 0,
            }
        },
        (ProfileBuildingState::Description, MessageEvent::Text(t)) => {
            &&& store_unchanged(db0, db1)
            &&& (ns matches State::CreatingProfile { profile_builder, state } && state
                == ProfileBuildingState::Photo && profile_builder@ == (ProfileBuilderV {
                description: profile_builder@.description,
                ..b
            }) && (if t@ == text::LEAVE_EMPTY@ {
                profile_builder@.description is None
            } else {
                profile_builder@.description matches Some(d) && d@ == t@
            }))
            &&& acts.len() == 1
            &&& is_notice_to(acts[0], b.id, Notice::AskPhoto, Markup::RemoveKeyboard)
        },
        (ProfileBuildingState::Photo, MessageEvent::Photo(ids)) => {
            if ids@.len() > 0 {
                let b2 = (ProfileBuilderV { photos: b.photos.push(ids@.last()), ..b });
                &&& ns is Idle
                &&& exists|p: ProfileV|
                    built_from(b2, p) && p.id == b.id && db1.spec_profiles()
                        == db0.spec_profiles().push(p)
                &&& has_user(db0.spec_users(), sender.id) ==> db1.spec_users()
                    == db0.spec_users()
                &&& !has_user(db0.spec_users(), sender.id) ==> db1.spec_users()
                    == db0.spec_users().push(sender)
                &&& db1.spec_likes() == db0.spec_likes()
                &&& db1.spec_views() == db0.spec_views()
                &&& acts.len() == 2
                &&& is_notice_to(acts[0], b.id, Notice::ProfileReady, Markup::MenuKeyboard)
                &&& (acts[1] matches Action::SendProfile { to, profile, markup: Markup::Bare }
                    && to == b.id && built_from(b2, profile@))
            } else {
                store_unchanged(db0, db1) && wizard_stays(b, s, ns) && acts.len() == 0
            }
        },
        (_, _) => store_unchanged(db0, db1) && wizard_stays(b, s, ns) && acts.len() == 0,
    }
}

/// One step of the profile-creation wizard, as the transition table in
/// [`wizard_step_spec`] prescribes. `lookup` carries the outcome of the
/// external city resolution when (and only when) the location step gets
/// a text reply; the caller performs that lookup.
pub fn build_profile(
    db: &mut Database,
    sender: &User,
    data: (ProfileBuilder, ProfileBuildingState),
    event: MessageEvent,
    lookup: Option<Result<Location, FetchingError>>,
) -> (r: (State, Vec<Action>))
    requires
        old(db).wf(),
        !has_profile(old(db).spec_profiles(), data.0.id),
        sender.id == data.0.id,
        wizard_inv(data.0@, data.1),
        (data.1 is Location && event matches MessageEvent::Text(_)) ==> lookup is Some,
    ensures
        final(db).wf(),
        wizard_step_spec(
            *old(db),
            *final(db),
            *sender,
            data.0@,
            data.1,
            event,
            lookup,
            r.0,
            r.1@,
        ),
        (r.0 matches State::CreatingProfile { profile_builder, state } ==> wizard_inv(
            profile_builder@,
            state,
        )),
{
    let (profile_builder, state) = data;
    let to = profile_builder.id;
    let ghost b0 = profile_builder@;

    match (state, event) {
        (ProfileBuildingState::Name, MessageEvent::Text(t)) => {
            let saved = profile_builder.clone();
            match catch_name(profile_builder, t.as_str()) {
                Ok(b) => {
                    let mut acts: Vec<Action> = Vec::new();
                    acts.push(
                        Action::SendNotice { to, notice: Notice::AskAge, markup: Markup::Bare },
                    );
                    (
                        State::CreatingProfile {
                            profile_builder: b,
                            state: ProfileBuildingState::Age,
                        },
                        acts,
                    )
                },
                Err(e) => {
                    let mut acts: Vec<Action> = Vec::new();
                    match e {
                        CreatingProfileError::UnableToValidateName {
                            error: NameValidationError::TooLong { name, length },
                        } => {
                            acts.push(
                                Action::SendNotice {
                                    to,
                                    notice: Notice::NameTooLong { name, length },
                                    markup: Markup::Bare,
                                },
                            );
                        },
                        _ => {
                            proof {
                                assert(false);
                            }
                        },
                    }
                    (
                        State::CreatingProfile {
                            profile_builder: saved,
                            state: ProfileBuildingState::Name,
                        },
                        acts,
                    )
                },
            }
        },
        (ProfileBuildingState::Age, MessageEvent::Text(t)) => {
            let saved = profile_builder.clone();
            match catch_age(profile_builder, t.as_str()) {
                Ok(b) => {
                    let mut acts: Vec<Action> = Vec::new();
                    acts.push(
                        Action::SendNotice { to, notice: Notice::AskCity, markup: Markup::Bare },
                    );
                    (
                        State::CreatingProfile {
                            profile_builder: b,
                            state: ProfileBuildingState::Location,
                        },
                        acts,
                    )
                },
                Err(_) => {
                    let mut acts: Vec<Action> = Vec::new();
                    acts.push(
                        Action::SendNotice {
                            to,
                            notice: Notice::AgeNotANumber { reply: t.as_str().to_owned() },
                            markup: Markup::Bare,
                        },
                    );
                    (
                        State::CreatingProfile {
                            profile_builder: saved,
                            state: ProfileBuildingState::Age,
                        },
                        acts,
                    )
                },
            }
        },
        (ProfileBuildingState::Location, MessageEvent::Text(_t)) => {
            let saved = profile_builder.clone();
            let lk = match lookup {
                Some(l) => l,
                None => {
                    proof {
                        assert(false);
                    }
                    unreached()
                },
            };
            match catch_location(profile_builder, lk) {
                Ok(b) => {
                    let mut acts: Vec<Action> = Vec::new();
                    acts.push(
                        Action::SendNotice {
                            to,
                            notice: Notice::AskSex,
                            markup: Markup::SexKeyboard,
                        },
                    );
                    (
                        State::CreatingProfile {
                            profile_builder: b,
                            state: ProfileBuildingState::Sex,
                        },
                        acts,
                    )
                },
                Err(e) => {
                    let mut acts: Vec<Action> = Vec::new();
                    match e {
                        CreatingProfileError::UnableToResolveLocation {
                            error: FetchingError::CityNotFound { name },
                        } => {
                            acts.push(
                                Action::SendNotice {
                                    to,
                                    notice: Notice::CityNotFound { name },
                                    markup: Markup::Bare,
                                },
                            );
                        },
                        CreatingProfileError::UnableToResolveLocation { error: _ } => {
                            acts.push(
                                Action::SendNotice {
                                    to,
                                    notice: Notice::TransientFailure,
                                    markup: Markup::Bare,
                                },
                            );
                        },
                        _ => {
                            proof {
                                assert(false);
                            }
                        },
                    }
                    (
                        State::CreatingProfile {
                            profile_builder: saved,
                            state: ProfileBuildingState::Location,
                        },
                        acts,
                    )
                },
            }
        },
        (ProfileBuildingState::Sex, MessageEvent::Text(t)) => {
            let saved = profile_builder.clone();
            match catch_sex(profile_builder, t.as_str()) {
                Ok(b) => {
                    let mut acts: Vec<Action> = Vec::new();
                    acts.push(
                        Action::SendNotice {
                            to,
                            notice: Notice::AskWhoToMeet,
                            markup: Markup::WantToMeetKeyboard,
                        },
                    );
                    (
                        State::CreatingProfile {
                            profile_builder: b,
                            state: ProfileBuildingState::MeetingPreferences,
                        },
                        acts,
                    )
                },
                Err(_) => {
                    (
                        State::CreatingProfile {
                            profile_builder: saved,
                            state: ProfileBuildingState::Sex,
                        },
                        Vec::new(),
                    )
                },
            }
        },
        (ProfileBuildingState::MeetingPreferences, MessageEvent::Text(t)) => {
            let saved = profile_builder.clone();
            match catch_meeting_preferences(profile_builder, t.as_str()) {
                Ok(b) => {
                    let sex = match &b.sex {
                        Some(s) => *s,
                        None => {
                            proof {
                                assert(false);
                            }
                            unreached()
                        },
                    };
                    let mut acts: Vec<Action> = Vec::new();
                    acts.push(
                        Action::SendNotice {
                            to,
                            notice: Notice::AskHearingLevel,
                            markup: Markup::HearingKeyboard { sex },
                        },
                    );
                    (
                        State::CreatingProfile {
                            profile_builder: b,
                            state: ProfileBuildingState::HearingLevel,
                        },
                        acts,
                    )
                },
                Err(_) => {
                    (
                        State::CreatingProfile {
                            profile_builder: saved,
                            state: ProfileBuildingState::MeetingPreferences,
                        },
                        Vec::new(),
                    )
                },
            }
        },
        (ProfileBuildingState::HearingLevel, MessageEvent::Text(t)) => {
            let saved = profile_builder.clone();
            match catch_hearing_level(profile_builder, t.as_str()) {
                Ok(b) => {
                    let mut acts: Vec<Action> = Vec::new();
                    acts.push(
                        Action::SendNotice {
                            to,
                            notice: Notice::AskDescription,
                            markup: Markup::LeaveEmptyKeyboard,
                        },
                    );
                    (
                        State::CreatingProfile {
                            profile_builder: b,
                            state: ProfileBuildingState::Description,
                        },
                        acts,
                    )
                },
                Err(_) => {
                    (
                        State::CreatingProfile {
                            profile_builder: saved,
                            state: ProfileBuildingState::HearingLevel,
                        },
                        Vec::new(),
                    )
                },
            }
        },
        (ProfileBuildingState::Description, MessageEvent::Text(t)) => {
            match catch_description(profile_builder, t.as_str()) {
                Ok(b) => {
                    let mut acts: Vec<Action> = Vec::new();
                    acts.push(
                        Action::SendNotice {
                            to,
                            notice: Notice::AskPhoto,
                            markup: Markup::RemoveKeyboard,
                        },
                    );
                    (
                        State::CreatingProfile {
                            profile_builder: b,
                            state: ProfileBuildingState::Photo,
                        },
                        acts,
                    )
                },
                Err(_) => {
                    proof {
                        assert(false);
                    }
                    unreached()
                },
            }
        },
        (ProfileBuildingState::Photo, MessageEvent::Photo(ids)) => {
            if ids.len() > 0 {
                match catch_photo(profile_builder, &ids) {
                    Ok(b) => {
                        let acts = common::finish_profile_creation(db, sender, b);
                        (State::Idle, acts)
                    },
                    Err(_) => {
                        proof {
                            assert(false);
                        }
                        unreached()
                    },
                }
            } else {
                (
                    State::CreatingProfile {
                        profile_builder,
                        state: ProfileBuildingState::Photo,
                    },
                    Vec::new(),
                )
            }
        },
        (state, _) => {
            (State::CreatingProfile { profile_builder, state }, Vec::new())
        },
    }
}

/// The transition table of the browsing state, one row per recognized
/// token: like runs the match protocol or records a one-sided like,
/// dislike records a skip, menu resets, anything else is a no-op; the
/// first three then advance to the next candidate.
pub open spec fn browse_reaction_spec(
    db0: Database,
    db1: Database,
    user_id: MyUserId,
    data: SearchData,
    event: MessageEvent,
    now: i64,
    ns: State,
    acts: Seq<Action>,
) -> bool {
    let cand = data.profile_id;
    let own = data.user_profile@;
    match event {
        MessageEvent::Text(t) => {
            if t@ == text::LIKE@ {
                if has_like(db0.spec_likes(), cand, user_id) {
                    // mutual interest: consume the like, introduce both
                    &&& like_removed(db0.spec_likes(), db1.spec_likes(), cand, user_id)
                    &&& db1.spec_views() == db0.spec_views()
                    &&& acts.len() == 6
                    &&& is_notice_to(acts[0], user_id, Notice::MutualLike, Markup::Bare)
                    &&& perform::intro_acts(db0, user_id, cand, own, acts.subrange(1, 5))
                    &&& perform::suggestion_outcome(db1, user_id, own, ns, acts.skip(5))
                } else {
                    // one-sided: record the like and the view, notify
                    &&& db1.spec_likes() == db0.spec_likes().push(
                        (Like { from: user_id, to: cand, timestamp: now, message: None }),
                    )
                    &&& db1.spec_views() == db0.spec_views().push(
                        (ViewRecord { from: user_id, to: cand, timestamp: now, liked: true }),
                    )
                    &&& acts.len() == 2
                    &&& is_notice_to(acts[0], cand, Notice::SomeoneLikedYou, Markup::Bare)
                    &&& perform::suggestion_outcome(db1, user_id, own, ns, acts.skip(1))
                }
            } else if t@ == text::DISLIKE@ {
                &&& db1.spec_likes() == db0.spec_likes()
                &&& db1.spec_views() == db0.spec_views().push(
                    (ViewRecord { from: user_id, to: cand, timestamp: now, liked: false }),
                )
                &&& perform::suggestion_outcome(db1, user_id, own, ns, acts)
            } else if t@ == text::MENU@ {
                &&& store_unchanged(db0, db1)
                &&& ns is Idle
                &&& acts.len() == 1
                &&& is_notice_to(acts[0], user_id, Notice::Menu, Markup::MenuKeyboard)
            } else {
                &&& store_unchanged(db0, db1)
                &&& (ns matches State::LookingAtProfiles { data: d2 } && d2.user_profile@ == own
                    && d2.profile_id == cand)
                &&& acts.len() == 0
            }
        },
        _ => {
            &&& store_unchanged(db0, db1)
            &&& (ns matches State::LookingAtProfiles { data: d2 } && d2.user_profile@ == own
                && d2.profile_id == cand)
            &&& acts.len() == 0
        },
    }
}

/// Reaction to the profile currently shown while browsing.
pub fn act_on_profile(
    db: &mut Database,
    user_id: MyUserId,
    data: SearchData,
    event: MessageEvent,
    now: i64,
) -> (r: (State, Vec<Action>))
    requires
        old(db).wf(),
        has_profile(old(db).spec_profiles(), user_id),
        (event matches MessageEvent::Text(t) && t@ == text::LIKE@ && has_like(
            old(db).spec_likes(),
            data.profile_id,
            user_id,
        )) ==> has_user(old(db).spec_users(), user_id) && has_user(
            old(db).spec_users(),
            data.profile_id,
        ),
    ensures
        final(db).wf(),
        final(db).spec_users() == old(db).spec_users(),
        final(db).spec_profiles() == old(db).spec_profiles(),
        browse_reaction_spec(
            *old(db),
            *final(db),
            user_id,
            data,
            event,
            now,
            r.0,
            r.1@,
        ),
{
    match event {
        MessageEvent::Text(t) => {
            if crate::strutil::str_eq(t.as_str(), text::LIKE) {
                match common::check_for_match(db, data.profile_id, user_id) {
                    common::CheckForMatchResult::Match => {
                        let mut acts: Vec<Action> = Vec::new();
                        acts.push(
                            Action::SendNotice {
                                to: user_id,
                                notice: Notice::MutualLike,
                                markup: Markup::Bare,
                            },
                        );
                        let (_matched, mut macts) = perform::match_likes(db, user_id, &data);
                        let ghost m0 = macts@;
                        acts.append(&mut macts);
                        db.remove_like(data.profile_id, user_id);
                        let (ns, mut sacts) = perform::send_new_suggestion(db, user_id, data);
                        let ghost s0 = sacts@;
                        acts.append(&mut sacts);
                        proof {
                            assert(acts@.subrange(1, 5) =~= m0);
                            assert(acts@.skip(5) =~= s0);
                        }
                        (ns, acts)
                    },
                    common::CheckForMatchResult::DontMatch => {
                        let mut acts = perform::like_profile(db, user_id, &data, now);
                        let (ns, mut sacts) = perform::send_new_suggestion(db, user_id, data);
                        let ghost s0 = sacts@;
                        acts.append(&mut sacts);
                        proof {
                            assert(acts@.skip(1) =~= s0);
                        }
                        (ns, acts)
                    },
                }
            } else if crate::strutil::str_eq(t.as_str(), text::DISLIKE) {
                perform::dislike_profile(db, user_id, &data, now);
                perform::send_new_suggestion(db, user_id, data)
            } else if crate::strutil::str_eq(t.as_str(), text::MENU) {
                perform::enter_menu(user_id)
            } else {
                (State::LookingAtProfiles { data }, Vec::new())
            }
        },
        _ => (State::LookingAtProfiles { data }, Vec::new()),
    }
}

/// The transition table of the liked-me review: like introduces both
/// parties (or reports an expired offer after a race), dislike only
/// skips; both consume the pending like exactly once and advance the
/// queue; menu resets, anything else is a no-op.
pub open spec fn liked_reaction_spec(
    db0: Database,
    db1: Database,
    user_id: MyUserId,
    data: SearchData,
    event: MessageEvent,
    now: i64,
    ns: State,
    acts: Seq<Action>,
) -> bool {
    let cand = data.profile_id;
    let own = data.user_profile@;
    match event {
        MessageEvent::Text(t) => {
            if t@ == text::LIKE@ {
                &&& like_removed(db0.spec_likes(), db1.spec_likes(), cand, user_id)
                &&& db1.spec_views() == db0.spec_views()
                &&& if has_like(db0.spec_likes(), cand, user_id) {
                    &&& acts.len() >= 5
                    &&& perform::intro_acts(db0, user_id, cand, own, acts.subrange(0, 4))
                    &&& perform::liked_queue_outcome(db1, user_id, own, ns, acts.skip(4))
                } else {
                    // the offer expired under a race: no introduction
                    &&& acts.len() >= 2
                    &&& is_notice_to(acts[0], user_id, Notice::LikeExpired, Markup::MenuKeyboard)
                    &&& perform::liked_queue_outcome(db1, user_id, own, ns, acts.skip(1))
                }
            } else if t@ == text::DISLIKE@ {
                &&& like_removed(db0.spec_likes(), db1.spec_likes(), cand, user_id)
                &&& db1.spec_views() == db0.spec_views().push(
                    (ViewRecord { from: user_id, to: cand, timestamp: now, liked: false }),
                )
                &&& perform::liked_queue_outcome(db1, user_id, own, ns, acts)
            } else if t@ == text::MENU@ {
                &&& store_unchanged(db0, db1)
                &&& ns is Idle
                &&& acts.len() == 1
                &&& is_notice_to(acts[0], user_id, Notice::Menu, Markup::MenuKeyboard)
            } else {
                &&& store_unchanged(db0, db1)
                &&& (ns matches State::LookingAtProfilesWhoHaveLiked { data: d2 }
                    && d2.user_profile@ == own && d2.profile_id == cand)
                &&& acts.len() == 0
            }
        },
        _ => {
            &&& store_unchanged(db0, db1)
            &&& (ns matches State::LookingAtProfilesWhoHaveLiked { data: d2 } && d2.user_profile@
                == own && d2.profile_id == cand)
            &&& acts.len() == 0
        },
    }
}

/// Reaction to the profile currently shown in the liked-me review.
pub fn look_at_likes(
    db: &mut Database,
    user_id: MyUserId,
    data: SearchData,
    event: MessageEvent,
    now: i64,
) -> (r: (State, Vec<Action>))
    requires
        old(db).wf(),
        has_profile(old(db).spec_profiles(), user_id),
        (event matches MessageEvent::Text(t) && t@ == text::LIKE@ && has_like(
            old(db).spec_likes(),
            data.profile_id,
            user_id,
        )) ==> has_user(old(db).spec_users(), user_id) && has_user(
            old(db).spec_users(),
            data.profile_id,
        ),
    ensures
        final(db).wf(),
        final(db).spec_users() == old(db).spec_users(),
        final(db).spec_profiles() == old(db).spec_profiles(),
        liked_reaction_spec(
            *old(db),
            *final(db),
            user_id,
            data,
            event,
            now,
            r.0,
            r.1@,
        ),
{
    match event {
        MessageEvent::Text(t) => {
            if crate::strutil::str_eq(t.as_str(), text::LIKE) {
                let (matched, mut acts) = perform::match_likes(db, user_id, &data);
                let ghost m0 = acts@;
                db.remove_like(data.profile_id, user_id);
                let (ns, mut lacts) = perform::give_new_liked_profile(db, user_id, data);
                let ghost l0 = lacts@;
                acts.append(&mut lacts);
                proof {
                    if matched {
                        assert(acts@.subrange(0, 4) =~= m0);
                        assert(acts@.skip(4) =~= l0);
                    } else {
                        assert(acts@.skip(1) =~= l0);
                    }
                }
                (ns, acts)
            } else if crate::strutil::str_eq(t.as_str(), text::DISLIKE) {
                perform::dislike_profile(db, user_id, &data, now);
                db.remove_like(data.profile_id, user_id);
                perform::give_new_liked_profile(db, user_id, data)
            } else if crate::strutil::str_eq(t.as_str(), text::MENU) {
                perform::enter_menu(user_id)
            } else {
                (State::LookingAtProfilesWhoHaveLiked { data }, Vec::new())
            }
        },
        _ => (State::LookingAtProfilesWhoHaveLiked { data }, Vec::new()),
    }
}

/// Folding the edit dialog back onto its anchor message: every message
/// strictly between the anchor and the user's reply, the reply itself
/// included, is deleted — newest first when the reply is the newer
/// message, which is the normal ordering — and then the anchor is
/// rewritten into the edit menu.
pub open spec fn collapse_acts(
    user_id: MyUserId,
    msg_id: i32,
    anchor: i32,
    a: Seq<Action>,
) -> bool {
    let n: int = if msg_id > anchor {
        msg_id - anchor
    } else {
        anchor - msg_id
    };
    &&& a.len() == n + 2
    &&& (forall|k: int| #![trigger a[k]]
        0 <= k < n ==> (a[k] matches Action::DeleteMessage { user, message_id } && user == user_id
            && message_id == (if msg_id > anchor {
            msg_id - k
        } else {
            msg_id + k
        })))
    &&& (a[n] matches Action::EditMessageText { user, message_id, notice: Notice::ProfileEditMode }
        && user == user_id && message_id == anchor)
    &&& (a[n + 1] matches Action::EditMessageMarkup { user, message_id, markup: Markup::EditProfileInline }
        && user == user_id && message_id == anchor)
}

fn collapse_dialog(user_id: MyUserId, msg_id: i32, anchor: i32) -> (acts: Vec<Action>)
    ensures
        collapse_acts(user_id, msg_id, anchor, acts@),
{
    let mut acts: Vec<Action> = Vec::new();
    if msg_id > anchor {
        // the reply came after the anchor: delete it and everything in
        // between, newest first
        let mut id = msg_id;
        while id > anchor
            invariant
                anchor <= id <= msg_id,
                acts@.len() == msg_id - id,
                forall|k: int| #![trigger acts@[k]]
                    0 <= k < acts@.len() ==> (acts@[k] matches Action::DeleteMessage {
                        user,
                        message_id,
                    } && user == user_id && message_id == msg_id - k),
            decreases id - anchor,
        {
            acts.push(Action::DeleteMessage { user: user_id, message_id: id });
            id = id - 1;
        }
    } else {
        // the reply predates the anchor: sweep upward from it
        let mut id = msg_id;
        while id < anchor
            invariant
                msg_id <= id <= anchor,
                acts@.len() == id - msg_id,
                forall|k: int| #![trigger acts@[k]]
                    0 <= k < acts@.len() ==> (acts@[k] matches Action::DeleteMessage {
                        user,
                        message_id,
                    } && user == user_id && message_id == msg_id + k),
            decreases anchor - id,
        {
            acts.push(Action::DeleteMessage { user: user_id, message_id: id });
            id = id + 1;
        }
    }
    acts.push(
        Action::EditMessageText {
            user: user_id,
            message_id: anchor,
            notice: Notice::ProfileEditMode,
        },
    );
    acts.push(
        Action::EditMessageMarkup {
            user: user_id,
            message_id: anchor,
            markup: Markup::EditProfileInline,
        },
    );
    acts
}

/// The edit flow keeps waiting for a value of the same field.
pub open spec fn edit_stays(f: ProfileField, origin: EditOrigin, ns: State) -> bool {
    ns matches State::EditingProfile { profile_field, origin: o } && profile_field == f && o
        == origin
}

/// The transition table of the field-edit flow: input of the expected
/// shape is validated and written to the profile, after which the
/// dialog collapses onto its anchor and the conversation resets;
/// rejected input re-prompts and stays; input of the wrong shape is a
/// no-op.
pub open spec fn edit_step_spec(
    db0: Database,
    db1: Database,
    user_id: MyUserId,
    profile_field: ProfileField,
    origin: EditOrigin,
    msg_id: i32,
    event: MessageEvent,
    lookup: Option<Result<Location, FetchingError>>,
    ns: State,
    acts: Seq<Action>,
) -> bool {
    match (profile_field, event) {
        (ProfileField::Name, MessageEvent::Text(t)) => {
            if t@.len() <= MAX_NAME_LENGTH {
                &&& set_profile_outcome(
                    db0.spec_profiles(),
                    db1.spec_profiles(),
                    user_id,
                    |p: ProfileV, q: ProfileV| q == (ProfileV { name: q.name, ..p }) && q.name@
                        == t@,
                )
                &&& ns is Idle
                &&& collapse_acts(user_id, msg_id, origin.message_id, acts)
            } else {
                &&& db1.spec_profiles() == db0.spec_profiles()
                &&& edit_stays(profile_field, origin, ns)
                &&& acts.len() == 1
                &&& (acts[0] matches Action::SendNotice {
                    to,
                    notice: Notice::NameTooLong { name, length },
                    markup: Markup::Bare,
                } && to == user_id && name@ == t@ && length == t@.len())
            }
        },
        (ProfileField::Age, MessageEvent::Text(t)) => {
            match parsing::spec_parse_i64(t@) {
                Some(v) => {
                    &&& set_profile_outcome(
                        db0.spec_profiles(),
                        db1.spec_profiles(),
                        user_id,
                        |p: ProfileV, q: ProfileV| q == (ProfileV { age: v, ..p }),
                    )
                    &&& ns is Idle
                    &&& collapse_acts(user_id, msg_id, origin.message_id, acts)
                },
                None => {
                    &&& db1.spec_profiles() == db0.spec_profiles()
                    &&& edit_stays(profile_field, origin, ns)
                    &&& acts.len() == 1
                    &&& is_notice_to(acts[0], user_id, Notice::AskNewAge, Markup::Bare)
                },
            }
        },
        (ProfileField::City, MessageEvent::Text(t)) => {
            match lookup {
                Some(Ok(loc)) => {
                    &&& set_profile_outcome(
                        db0.spec_profiles(),
                        db1.spec_profiles(),
                        user_id,
                        |p: ProfileV, q: ProfileV| q == (ProfileV { location: loc, ..p }),
                    )
                    &&& ns is Idle
                    &&& collapse_acts(user_id, msg_id, origin.message_id, acts)
                },
                Some(Err(FetchingError::CityNotFound { name })) => {
                    &&& db1.spec_profiles() == db0.spec_profiles()
                    &&& edit_stays(profile_field, origin, ns)
                    &&& acts.len() == 1
                    &&& (acts[0] matches Action::SendNotice {
                        to,
                        notice: Notice::CityNotFound { name: n },
                        markup: Markup::Bare,
                    } && to == user_id && n@ == name@)
                },
                Some(Err(_)) => {
                    &&& db1.spec_profiles() == db0.spec_profiles()
                    &&& edit_stays(profile_field, origin, ns)
                    &&& acts.len() == 1
                    &&& is_notice_to(acts[0], user_id, Notice::TransientFailure, Markup::Bare)
                },
                None => false,
            }
        },
        (ProfileField::Description, MessageEvent::Text(t)) => {
            &&& set_profile_outcome(
                db0.spec_profiles(),
                db1.spec_profiles(),
                user_id,
                |p: ProfileV, q: ProfileV| q == (ProfileV { description: q.description, ..p }) && (
                q.description matches Some(d) && d@ == t@),
            )
            &&& ns is Idle
            &&& collapse_acts(user_id, msg_id, origin.message_id, acts)
        },
        (ProfileField::Photo, MessageEvent::Photo(ids)) => {
            if ids@.len() > 0 {
                &&& set_profile_outcome(
                    db0.spec_profiles(),
                    db1.spec_profiles(),
                    user_id,
                    |p: ProfileV, q: ProfileV| q == (ProfileV { photos: q.photos, ..p })
                        && q.photos.len() == 1 && q.photos[0] == ids@.last(),
                )
                &&& ns is Idle
                &&& collapse_acts(user_id, msg_id, origin.message_id, acts)
            } else {
                &&& db1.spec_profiles() == db0.spec_profiles()
                &&& edit_stays(profile_field, origin, ns)
                &&& acts.len() == 0
            }
        },
        (_, _) => {
            &&& db1.spec_profiles() == db0.spec_profiles()
            &&& edit_stays(profile_field, origin, ns)
            &&& acts.len() == 0
        },
    }
}

/// One step of the field-edit flow, as [`edit_step_spec`] prescribes.
/// `lookup` carries the outcome of the external city resolution when
/// (and only when) the city field gets a text reply.
pub fn edit_profile(
    db: &mut Database,
    user_id: MyUserId,
    data: (ProfileField, EditOrigin),
    msg_id: i32,
    event: MessageEvent,
    lookup: Option<Result<Location, FetchingError>>,
) -> (r: (State, Vec<Action>))
    requires
        old(db).wf(),
        data.1.user_id == user_id,
        (data.0 is City && event matches MessageEvent::Text(_)) ==> lookup is Some,
    ensures
        final(db).wf(),
        final(db).spec_users() == old(db).spec_users(),
        final(db).spec_likes() == old(db).spec_likes(),
        final(db).spec_views() == old(db).spec_views(),
        edit_step_spec(
            *old(db),
            *final(db),
            user_id,
            data.0,
            data.1,
            msg_id,
            event,
            lookup,
            r.0,
            r.1@,
        ),
{
    let (profile_field, origin) = data;
    match (profile_field, event) {
        (ProfileField::Name, MessageEvent::Text(t)) => {
            match validate_name(t.as_str()) {
                Ok(()) => {
                    let v = t.as_str().to_owned();
                    let ghost vv = v;
                    db.set_profile_name(user_id, v);
                    proof {
                        lemma_outcome_weaken(
                            old(db).spec_profiles(),
                            db.spec_profiles(),
                            user_id,
                            |p: ProfileV, q: ProfileV| q == (ProfileV { name: vv, ..p }),
                            |p: ProfileV, q: ProfileV| q == (ProfileV { name: q.name, ..p })
                                && q.name@ == t@,
                        );
                    }
                    (State::Idle, collapse_dialog(user_id, msg_id, origin.message_id))
                },
                Err(NameValidationError::TooLong { name, length }) => {
                    let mut acts: Vec<Action> = Vec::new();
                    acts.push(
                        Action::SendNotice {
                            to: user_id,
                            notice: Notice::NameTooLong { name, length },
                            markup: Markup::Bare,
                        },
                    );
                    (
                        State::EditingProfile {
                            profile_field: ProfileField::Name,
                            origin,
                        },
                        acts,
                    )
                },
            }
        },
        (ProfileField::Age, MessageEvent::Text(t)) => {
            match parsing::parse_i64(t.as_str()) {
                Some(age) => {
                    db.set_profile_age(user_id, age);
                    (State::Idle, collapse_dialog(user_id, msg_id, origin.message_id))
                },
                None => {
                    let mut acts: Vec<Action> = Vec::new();
                    acts.push(
                        Action::SendNotice {
                            to: user_id,
                            notice: Notice::AskNewAge,
                            markup: Markup::Bare,
                        },
                    );
                    (
                        State::EditingProfile {
                            profile_field: ProfileField::Age,
                            origin,
                        },
                        acts,
                    )
                },
            }
        },
        (ProfileField::City, MessageEvent::Text(_t)) => {
            let lk = match lookup {
                Some(l) => l,
                None => {
                    proof {
                        assert(false);
                    }
                    unreached()
                },
            };
            match lk {
                Ok(location) => {
                    db.set_profile_location(user_id, location);
                    (State::Idle, collapse_dialog(user_id, msg_id, origin.message_id))
                },
                Err(FetchingError::CityNotFound { name }) => {
                    let mut acts: Vec<Action> = Vec::new();
                    acts.push(
                        Action::SendNotice {
                            to: user_id,
                            notice: Notice::CityNotFound { name },
                            markup: Markup::Bare,
                        },
                    );
                    (
                        State::EditingProfile {
                            profile_field: ProfileField::City,
                            origin,
                        },
                        acts,
                    )
                },
                Err(_) => {
                    let mut acts: Vec<Action> = Vec::new();
                    acts.push(
                        Action::SendNotice {
                            to: user_id,
                            notice: Notice::TransientFailure,
                            markup: Markup::Bare,
                        },
                    );
                    (
                        State::EditingProfile {
                            profile_field: ProfileField::City,
                            origin,
                        },
                        acts,
                    )
                },
            }
        },
        (ProfileField::Description, MessageEvent::Text(t)) => {
            let v = t.as_str().to_owned();
            let ghost vv = v;
            db.set_profile_description(user_id, Some(v));
            proof {
                lemma_outcome_weaken(
                    old(db).spec_profiles(),
                    db.spec_profiles(),
                    user_id,
                    |p: ProfileV, q: ProfileV| q == (ProfileV { description: Some(vv), ..p }),
                    |p: ProfileV, q: ProfileV| q == (ProfileV { description: q.description, ..p })
                        && (q.description matches Some(d) && d@ == t@),
                );
            }
            (State::Idle, collapse_dialog(user_id, msg_id, origin.message_id))
        },
        (ProfileField::Photo, MessageEvent::Photo(ids)) => {
            if ids.len() > 0 {
                let last = ids[ids.len() - 1].clone();
                let mut pics: Vec<PhotoId> = Vec::new();
                pics.push(last);
                let ghost pv = pics@;
                db.set_profile_picture(user_id, pics);
                proof {
                    lemma_outcome_weaken(
                        old(db).spec_profiles(),
                        db.spec_profiles(),
                        user_id,
                        |p: ProfileV, q: ProfileV| q == (ProfileV { photos: pv, ..p }),
                        |p: ProfileV, q: ProfileV| q == (ProfileV { photos: q.photos, ..p })
                            && q.photos.len() == 1 && q.photos[0] == ids@.last(),
                    );
                }
                (State::Idle, collapse_dialog(user_id, msg_id, origin.message_id))
            } else {
                (
                    State::EditingProfile {
                        profile_field: ProfileField::Photo,
                        origin,
                    },
                    Vec::new(),
                )
            }
        },
        (field, _) => {
            (State::EditingProfile { profile_field: field, origin }, Vec::new())
        },
    }
}

/// Wizard completeness: walking every step with accepted inputs yields
/// a profile whose every required field is set and equal to the input
/// it came from — the name as typed, the parsed age, the resolved
/// location, the chosen sex, hearing level and description, the single
/// uploaded photo, with the profile visible and only the desired-sex
/// search preference set. Each hypothesis is one step's successful
/// outcome exactly as the step functions ensure it.
pub proof fn lemma_wizard_completeness(
    id: MyUserId,
    b0: ProfileBuilderV,
    b1: ProfileBuilderV,
    b2: ProfileBuilderV,
    b3: ProfileBuilderV,
    b4: ProfileBuilderV,
    b5: ProfileBuilderV,
    b6: ProfileBuilderV,
    b7: ProfileBuilderV,
    p: ProfileV,
    name: Seq<char>,
    age: i64,
    loc: Location,
    sx: Sex,
    want: Option<Sex>,
    hl: HearingLevel,
    desc: Option<String>,
    photo: PhotoId,
)
    requires
        b0.id == id,
        b0.photos.len() == 0,
        b0.name is None,
        b0.age is None,
        b0.sex is None,
        b0.want_to_meet is None,
        b0.hearing_level is None,
        b0.location is None,
        b0.description is None,
        b1 == (ProfileBuilderV { name: b1.name, ..b0 }) && (b1.name matches Some(n) && n@ == name),
        b2 == (ProfileBuilderV { age: Some(age), ..b1 }),
        b3 == (ProfileBuilderV { location: Some(loc), ..b2 }),
        b4 == (ProfileBuilderV { sex: Some(sx), ..b3 }),
        b5 == (ProfileBuilderV { want_to_meet: want, ..b4 }),
        b6 == (ProfileBuilderV { hearing_level: Some(hl), ..b5 }),
        b7 == (ProfileBuilderV { description: desc, ..b6 }),
        built_from((ProfileBuilderV { photos: b7.photos.push(photo), ..b7 }), p),
    ensures
        p.id == id,
        p.name@ == name,
        p.age == age,
        p.location == loc,
        p.sex == sx,
        p.hearing_level == hl,
        p.description == desc,
        p.photos.len() == 1 && p.photos[0] == photo,
        p.settings.show_up_in_search,
        p.settings.search_options.only_sex(want),
{
    assert(b7.photos.push(photo)[0] == photo);
}

/// What the idle menu does with a message: the three menu buttons open
/// their flows, a stray browsing token means the previous activity was
/// lost and resets, anything else is a no-op.
pub open spec fn idle_message_spec(
    db: Database,
    user_id: MyUserId,
    event: MessageEvent,
    ns: State,
    acts: Seq<Action>,
) -> bool {
    match event {
        MessageEvent::Text(t) => {
            if t@ == text::WATCH_PROFILES@ {
                perform::browse_start_outcome(db, user_id, ns, acts)
            } else if t@ == text::MY_PROFILE@ {
                &&& ns is Idle
                &&& if has_profile(db.spec_profiles(), user_id) {
                    acts.len() == 1 && (acts[0] matches Action::SendProfile {
                        to,
                        profile,
                        markup: Markup::EnterEditInline,
                    } && to == user_id && profile@ == common::viewer_profile(db, user_id))
                } else {
                    acts.len() == 1 && is_notice_to(acts[0], user_id, Notice::Greeting, Markup::Bare)
                }
            } else if t@ == text::WHO_LIKES_ME@ {
                perform::likes_start_outcome(db, user_id, ns, acts)
            } else if t@ == text::MENU@ || t@ == text::LIKE@ || t@ == text::DISLIKE@ {
                &&& ns is Idle
                &&& acts.len() == 2
                &&& is_notice_to(acts[0], user_id, Notice::LostActivity, Markup::Bare)
                &&& is_notice_to(acts[1], user_id, Notice::Menu, Markup::MenuKeyboard)
            } else {
                ns is Idle && acts.len() == 0
            }
        },
        _ => ns is Idle && acts.len() == 0,
    }
}

/// Handles a message that arrives while nothing is in progress.
pub fn handle_message(db: &Database, user_id: MyUserId, event: MessageEvent) -> (r: (
    State,
    Vec<Action>,
))
    requires
        db.wf(),
        (event matches MessageEvent::Text(t) && (t@ == text::WATCH_PROFILES@ || t@
            == text::WHO_LIKES_ME@)) ==> has_profile(db.spec_profiles(), user_id),
    ensures
        idle_message_spec(*db, user_id, event, r.0, r.1@),
{
    match event {
        MessageEvent::Text(t) => {
            if crate::strutil::str_eq(t.as_str(), text::WATCH_PROFILES) {
                perform::start_looking_at_profiles(db, user_id)
            } else if crate::strutil::str_eq(t.as_str(), text::MY_PROFILE) {
                let mut acts: Vec<Action> = Vec::new();
                match db.get_profile(user_id) {
                    Some(profile) => {
                        acts.push(
                            Action::SendProfile {
                                to: user_id,
                                profile,
                                markup: Markup::EnterEditInline,
                            },
                        );
                    },
                    None => {
                        acts.push(
                            Action::SendNotice {
                                to: user_id,
                                notice: Notice::Greeting,
                                markup: Markup::Bare,
                            },
                        );
                    },
                }
                (State::Idle, acts)
            } else if crate::strutil::str_eq(t.as_str(), text::WHO_LIKES_ME) {
                perform::start_looking_at_likes(db, user_id)
            } else if crate::strutil::str_eq(t.as_str(), text::MENU) || crate::strutil::str_eq(
                t.as_str(),
                text::LIKE,
            ) || crate::strutil::str_eq(t.as_str(), text::DISLIKE) {
                let mut acts: Vec<Action> = Vec::new();
                acts.push(
                    Action::SendNotice {
                        to: user_id,
                        notice: Notice::LostActivity,
                        markup: Markup::Bare,
                    },
                );
                acts.push(
                    Action::SendNotice {
                        to: user_id,
                        notice: Notice::Menu,
                        markup: Markup::MenuKeyboard,
                    },
                );
                (State::Idle, acts)
            } else {
                (State::Idle, Vec::new())
            }
        },
        _ => (State::Idle, Vec::new()),
    }
}

} // verus!
