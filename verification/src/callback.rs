//! The structured-button payload encoding: a compact string of the
//! form `CODE` or `CODE:ARG` over a fixed vocabulary. Only the exact
//! encodings produced here decode; anything else is a decode failure
//! reported by its code segment.

use vstd::prelude::*;

use crate::actions::{Action, Markup, Notice};
use crate::common;
use crate::database::{has_profile, set_profile_outcome, Database};
use crate::error::ParseCallbackDataError;
use crate::perform;
use crate::profile::{HearingLevel, ProfileV};
use crate::state::{is_notice_to, State};
use crate::strutil;
use crate::user::MyUserId;

verus! {

broadcast use vstd::string::group_string_axioms;

/// An editable profile field, as named inside button payloads.
#[derive(Debug, Clone, Copy, PartialEq, Eq, Structural)]
pub enum ProfileField {
    Name,
    Age,
    City,
    HearingLevel,
    Description,
    Photo,
}

impl ProfileField {
    pub open spec fn spec_to_str(self) -> Seq<char> {
        match self {
            ProfileField::Name => "Name"@,
            ProfileField::Age => "Age"@,
            ProfileField::City => "City"@,
            ProfileField::HearingLevel => "HearingLevel"@,
            ProfileField::Description => "Description"@,
            ProfileField::Photo => "Photo"@,
        }
    }

    pub fn to_str(&self) -> (r: &'static str)
        ensures
            r@ == self.spec_to_str(),
    {
        match self {
            ProfileField::Name => "Name",
            ProfileField::Age => "Age",
            ProfileField::City => "City",
            ProfileField::HearingLevel => "HearingLevel",
            ProfileField::Description => "Description",
            ProfileField::Photo => "Photo",
        }
    }

    pub open spec fn spec_from_str(s: Seq<char>) -> Option<ProfileField> {
        if s == "Name"@ {
            Some(ProfileField::Name)
        } else if s == "Age"@ {
            Some(ProfileField::Age)
        } else if s == "City"@ {
            Some(ProfileField::City)
        } else if s == "HearingLevel"@ {
            Some(ProfileField::HearingLevel)
        } else if s == "Description"@ {
            Some(ProfileField::Description)
        } else if s == "Photo"@ {
            Some(ProfileField::Photo)
        } else {
            None
        }
    }

    pub fn from_str(s: &str) -> (r: Result<ProfileField, ()>)
        ensures
            r == match ProfileField::spec_from_str(s@) {
                Some(f) => Result::<ProfileField, ()>::Ok(f),
                None => Result::<ProfileField, ()>::Err(()),
            },
    {
        if strutil::str_eq(s, "Name") {
            Ok(ProfileField::Name)
        } else if strutil::str_eq(s, "Age") {
            Ok(ProfileField::Age)
        } else if strutil::str_eq(s, "City") {
            Ok(ProfileField::City)
        } else if strutil::str_eq(s, "HearingLevel") {
            Ok(ProfileField::HearingLevel)
        } else if strutil::str_eq(s, "Description") {
            Ok(ProfileField::Description)
        } else if strutil::str_eq(s, "Photo") {
            Ok(ProfileField::Photo)
        } else {
            Err(())
        }
    }
}

/// An inbound button press, reduced to what the handlers inspect: who
/// pressed, on which message, and the payload string.
#[derive(Debug)]
pub struct CallbackQuery {
    pub id: String,
    pub from: MyUserId,
    pub message_id: Option<i32>,
    pub data: Option<String>,
}

impl Clone for CallbackQuery {
    fn clone(&self) -> (r: Self)
        ensures
            r.id == self.id,
            r.from == self.from,
            r.message_id == self.message_id,
            r.data == self.data,
    {
        CallbackQuery {
            id: self.id.clone(),
            from: self.from,
            message_id: self.message_id,
            data: match &self.data {
                Some(d) => Some(d.clone()),
                None => None,
            },
        }
    }
}

/// A decoded button payload:
///
/// - `EPEM` — enter profile-edit mode;
/// - `EPD`  — edit one profile field, named by the argument;
/// - `SHR`  — set the hearing level, named by the argument;
/// - `LED`  — leave the description empty;
/// - `FED`  — finish editing.
#[derive(Debug, Clone, Copy, PartialEq, Eq, Structural)]
pub enum CallbackData {
    EPEM,
    EPD { profile_field: ProfileField },
    SHR { hearing_level: HearingLevel },
    LED,
    FED,
}

/// The exact wire form of each payload.
pub open spec fn spec_encode(d: CallbackData) -> Seq<char> {
    match d {
        CallbackData::EPEM => "EPEM"@,
        CallbackData::EPD { profile_field } => match profile_field {
            ProfileField::Name => "EPD:Name"@,
            ProfileField::Age => "EPD:Age"@,
            ProfileField::City => "EPD:City"@,
            ProfileField::HearingLevel => "EPD:HearingLevel"@,
            ProfileField::Description => "EPD:Description"@,
            ProfileField::Photo => "EPD:Photo"@,
        },
        CallbackData::SHR { hearing_level } => match hearing_level {
            HearingLevel::CompletelyDeaf => "SHR:CompletelyDeaf"@,
            HearingLevel::HearingImpaired => "SHR:HearingImpaired"@,
            HearingLevel::Hearing => "SHR:Hearing"@,
        },
        CallbackData::LED => "LED"@,
        CallbackData::FED => "FED"@,
    }
}

/// Payloads that decode, and what they decode to.
pub open spec fn spec_decode(s: Seq<char>) -> Option<CallbackData> {
    if s == "EPEM"@ {
        Some(CallbackData::EPEM)
    } else if s == "EPD:Name"@ {
        Some(CallbackData::EPD { profile_field: ProfileField::Name })
    } else if s == "EPD:Age"@ {
        Some(CallbackData::EPD { profile_field: ProfileField::Age })
    } else if s == "EPD:City"@ {
        Some(CallbackData::EPD { profile_field: ProfileField::City })
    } else if s == "EPD:HearingLevel"@ {
        Some(CallbackData::EPD { profile_field: ProfileField::HearingLevel })
    } else if s == "EPD:Description"@ {
        Some(CallbackData::EPD { profile_field: ProfileField::Description })
    } else if s == "EPD:Photo"@ {
        Some(CallbackData::EPD { profile_field: ProfileField::Photo })
    } else if s == "SHR:CompletelyDeaf"@ {
        Some(CallbackData::SHR { hearing_level: HearingLevel::CompletelyDeaf })
    } else if s == "SHR:HearingImpaired"@ {
        Some(CallbackData::SHR { hearing_level: HearingLevel::HearingImpaired })
    } else if s == "SHR:Hearing"@ {
        Some(CallbackData::SHR { hearing_level: HearingLevel::Hearing })
    } else if s == "LED"@ {
        Some(CallbackData::LED)
    } else if s == "FED"@ {
        Some(CallbackData::FED)
    } else {
        None
    }
}

/// The code segment of a payload: everything before the first `:`, or
/// the whole payload when it has none.
pub open spec fn is_code_prefix(s: Seq<char>, c: Seq<char>) -> bool {
    ||| exists|i: int|
        0 <= i < s.len() && s[i] == ':' && (forall|j: int| 0 <= j < i ==> s[j] != ':') && c
            == s.take(i)
    ||| (c == s && forall|j: int| 0 <= j < s.len() ==> s[j] != ':')
}

impl CallbackData {
    /// The payload string for this value; decoding it yields the value
    /// back (see [`lemma_encode_decode`]).
    pub fn encode(&self) -> (r: String)
        ensures
            r@ == spec_encode(*self),
    {
        let s: &'static str = match self {
            CallbackData::EPEM => "EPEM",
            CallbackData::EPD { profile_field } => match profile_field {
                ProfileField::Name => "EPD:Name",
                ProfileField::Age => "EPD:Age",
                ProfileField::City => "EPD:City",
                ProfileField::HearingLevel => "EPD:HearingLevel",
                ProfileField::Description => "EPD:Description",
                ProfileField::Photo => "EPD:Photo",
            },
            CallbackData::SHR { hearing_level } => match hearing_level {
                HearingLevel::CompletelyDeaf => "SHR:CompletelyDeaf",
                HearingLevel::HearingImpaired => "SHR:HearingImpaired",
                HearingLevel::Hearing => "SHR:Hearing",
            },
            CallbackData::LED => "LED",
            CallbackData::FED => "FED",
        };
        s.to_owned()
    }

    pub fn from_str(s: &str) -> (r: Result<CallbackData, ParseCallbackDataError>)
        ensures
            match r {
                Ok(d) => spec_decode(s@) == Some(d),
                Err(ParseCallbackDataError::UnknownCallbackCode { code }) => spec_decode(s@)
                    is None && is_code_prefix(s@, code@),
            },
    {
        if strutil::str_eq(s, "EPEM") {
            Ok(CallbackData::EPEM)
        } else if strutil::str_eq(s, "EPD:Name") {
            Ok(CallbackData::EPD { profile_field: ProfileField::Name })
        } else if strutil::str_eq(s, "EPD:Age") {
            Ok(CallbackData::EPD { profile_field: ProfileField::Age })
        } else if strutil::str_eq(s, "EPD:City") {
            Ok(CallbackData::EPD { profile_field: ProfileField::City })
        } else if strutil::str_eq(s, "EPD:HearingLevel") {
            Ok(CallbackData::EPD { profile_field: ProfileField::HearingLevel })
        } else if strutil::str_eq(s, "EPD:Description") {
            Ok(CallbackData::EPD { profile_field: ProfileField::Description })
        } else if strutil::str_eq(s, "EPD:Photo") {
            Ok(CallbackData::EPD { profile_field: ProfileField::Photo })
        } else if strutil::str_eq(s, "SHR:CompletelyDeaf") {
            Ok(CallbackData::SHR { hearing_level: HearingLevel::CompletelyDeaf })
        } else if strutil::str_eq(s, "SHR:HearingImpaired") {
            Ok(CallbackData::SHR { hearing_level: HearingLevel::HearingImpaired })
        } else if strutil::str_eq(s, "SHR:Hearing") {
            Ok(CallbackData::SHR { hearing_level: HearingLevel::Hearing })
        } else if strutil::str_eq(s, "LED") {
            Ok(CallbackData::LED)
        } else if strutil::str_eq(s, "FED") {
            Ok(CallbackData::FED)
        } else {
            let code = match strutil::find_char(s, ':') {
                Some(i) => s.substring_char(0, i).to_owned(),
                None => s.to_owned(),
            };
            proof {
                assert(s@.subrange(0, s@.len() as int) =~= s@);
            }
            Err(ParseCallbackDataError::UnknownCallbackCode { code })
        }
    }
}

/// What each decoded payload does: the edit-dialog openers leave the
/// store alone and only rewrite messages; the two value-setters write
/// one profile field; finish closes the dialog and re-renders. A press
/// without a message to anchor on is ignored.
pub open spec fn callback_dispatch(
    db0: Database,
    db1: Database,
    q: CallbackQuery,
    d: CallbackData,
    ns: Option<State>,
    acts: Seq<Action>,
) -> bool {
    if q.message_id is None {
        db1.spec_profiles() == db0.spec_profiles() && ns is None && acts.len() == 0
    } else {
        let mid = q.message_id.unwrap();
        match d {
            CallbackData::EPEM => {
                &&& db1.spec_profiles() == db0.spec_profiles()
                &&& ns is None
                &&& acts.len() == 2
                &&& (acts[0] matches Action::EditMessageMarkup {
                    user,
                    message_id,
                    markup: Markup::Bare,
                } && user == q.from && message_id == mid)
                &&& is_notice_to(acts[1], q.from, Notice::ProfileEditMode, Markup::EditProfileInline)
            },
            CallbackData::EPD { profile_field } => {
                &&& db1.spec_profiles() == db0.spec_profiles()
                &&& if profile_field is HearingLevel {
                    if has_profile(db0.spec_profiles(), q.from) {
                        &&& ns is None
                        &&& acts.len() == 2
                        &&& (acts[0] matches Action::EditMessageText {
                            user,
                            message_id,
                            notice: Notice::AskNewHearingLevel,
                        } && user == q.from && message_id == mid)
                        &&& (acts[1] matches Action::EditMessageMarkup { user, message_id, markup }
                            && user == q.from && message_id == mid && markup
                            == (Markup::SetHearingInline {
                            sex: common::viewer_profile(db0, q.from).sex,
                        }))
                    } else {
                        ns is None && acts.len() == 0
                    }
                } else {
                    &&& (ns matches Some(s) && (s matches State::EditingProfile {
                        profile_field: f,
                        origin,
                    } && f == profile_field && origin.user_id == q.from && origin.message_id
                        == mid))
                    &&& acts.len() == (if profile_field is Description {
                        2int
                    } else {
                        1int
                    })
                    &&& (acts[0] matches Action::EditMessageText { user, message_id, notice }
                        && user == q.from && message_id == mid && notice == perform::edit_prompt(
                        profile_field,
                    ))
                    &&& (profile_field is Description ==> (acts[1] matches
                    Action::EditMessageMarkup { user, message_id, markup: Markup::LeaveEmptyInline }
                        && user == q.from && message_id == mid))
                }
            },
            CallbackData::SHR { hearing_level } => {
                &&& set_profile_outcome(
                    db0.spec_profiles(),
                    db1.spec_profiles(),
                    q.from,
                    |p: ProfileV, p2: ProfileV| p2 == (ProfileV { hearing_level: hearing_level, ..p }),
                )
                &&& ns is None
                &&& acts.len() == 2
                &&& (acts[0] matches Action::EditMessageText {
                    user,
                    message_id,
                    notice: Notice::ProfileEditMode,
                } && user == q.from && message_id == mid)
                &&& (acts[1] matches Action::EditMessageMarkup {
                    user,
                    message_id,
                    markup: Markup::EditProfileInline,
                } && user == q.from && message_id == mid)
            },
            CallbackData::LED => {
                &&& set_profile_outcome(
                    db0.spec_profiles(),
                    db1.spec_profiles(),
                    q.from,
                    |p: ProfileV, p2: ProfileV| p2 == (ProfileV { description: None, ..p }),
                )
                &&& ns is None
                &&& acts.len() == 2
                &&& (acts[0] matches Action::EditMessageText {
                    user,
                    message_id,
                    notice: Notice::ProfileEditMode,
                } && user == q.from && message_id == mid)
                &&& (acts[1] matches Action::EditMessageMarkup {
                    user,
                    message_id,
                    markup: Markup::EditProfileInline,
                } && user == q.from && message_id == mid)
            },
            CallbackData::FED => {
                &&& db1.spec_profiles() == db0.spec_profiles()
                &&& if mid > i32::MIN && has_profile(db0.spec_profiles(), q.from) {
                    &&& (ns matches Some(s) && s is Idle)
                    &&& acts.len() == 4
                    &&& (acts[0] matches Action::DeleteMessage { user, message_id } && user
                        == q.from && message_id == mid)
                    &&& (acts[1] matches Action::DeleteMessage { user, message_id } && user
                        == q.from && message_id == mid - 1)
                    &&& is_notice_to(acts[2], q.from, Notice::NewProfile, Markup::Bare)
                    &&& (acts[3] matches Action::SendProfile {
                        to,
                        profile,
                        markup: Markup::EnterEditInline,
                    } && to == q.from && profile@ == common::viewer_profile(db0, q.from))
                } else {
                    ns is None && acts.len() == 0
                }
            },
        }
    }
}

/// Dispatches one button press. The payload decodes (or the failure is
/// surfaced to the router), then the matching performer runs; `None`
/// as the resulting state leaves the dialogue as it was.
pub fn handle(db: &mut Database, q: &CallbackQuery) -> (r: Result<
    (Option<State>, Vec<Action>),
    ParseCallbackDataError,
>)
    requires
        old(db).wf(),
    ensures
        final(db).wf(),
        final(db).spec_users() == old(db).spec_users(),
        final(db).spec_likes() == old(db).spec_likes(),
        final(db).spec_views() == old(db).spec_views(),
        match q.data {
            None => final(db).spec_profiles() == old(db).spec_profiles() && (r matches Ok(o)
                && o.0 is None && o.1@.len() == 0),
            Some(payload) => match spec_decode(payload@) {
                None => final(db).spec_profiles() == old(db).spec_profiles() && (r matches Err(e)
                    && (e matches ParseCallbackDataError::UnknownCallbackCode { code }
                    && is_code_prefix(payload@, code@))),
                Some(d) => r matches Ok(o) && callback_dispatch(
                    *old(db),
                    *final(db),
                    *q,
                    d,
                    o.0,
                    o.1@,
                ),
            },
        },
{
    let data = match &q.data {
        Some(d) => d,
        None => {
            return Ok((None, Vec::new()));
        },
    };

    let callback_data = match CallbackData::from_str(data.as_str()) {
        Ok(d) => d,
        Err(e) => {
            return Err(e);
        },
    };

    if q.message_id.is_none() {
        return Ok((None, Vec::new()));
    }

    match callback_data {
        CallbackData::EPEM => Ok((None, perform::enter_profile_editing_mode(q))),
        CallbackData::EPD { profile_field } => {
            if matches!(profile_field, ProfileField::HearingLevel) && db.get_profile(
                q.from,
            ).is_none() {
                return Ok((None, Vec::new()));
            }
            Ok(perform::set_profile_editing_handler(db, q, profile_field))
        },
        CallbackData::SHR { hearing_level } => Ok(
            (None, perform::set_hearing_level(db, q, hearing_level)),
        ),
        CallbackData::LED => Ok((None, perform::leave_empty_description(db, q))),
        CallbackData::FED => {
            let mid = match q.message_id {
                Some(m) => m,
                None => {
                    proof {
                        assert(false);
                    }
                    unreached()
                },
            };
            if mid == i32::MIN || db.get_profile(q.from).is_none() {
                return Ok((None, Vec::new()));
            }
            let (ns, acts) = perform::finish_editing_profile(db, q);
            Ok((Some(ns), acts))
        },
    }
}

/// Encoding then decoding any payload yields the payload back.
#[verifier::rlimit(50)]
pub proof fn lemma_encode_decode(d: CallbackData)
    ensures
        spec_decode(spec_encode(d)) == Some(d),
{
    reveal_strlit("EPEM");
    reveal_strlit("EPD:Name");
    reveal_strlit("EPD:Age");
    reveal_strlit("EPD:City");
    reveal_strlit("EPD:HearingLevel");
    reveal_strlit("EPD:Description");
    reveal_strlit("EPD:Photo");
    reveal_strlit("SHR:CompletelyDeaf");
    reveal_strlit("SHR:HearingImpaired");
    reveal_strlit("SHR:Hearing");
    reveal_strlit("LED");
    reveal_strlit("FED");
    // the lengths alone tell almost every pair of encodings apart
    assert("EPEM"@.len() == 4);
    assert("EPD:Name"@.len() == 8);
    assert("EPD:Age"@.len() == 7);
    assert("EPD:City"@.len() == 8);
    assert("EPD:HearingLevel"@.len() == 16);
    assert("EPD:Description"@.len() == 15);
    assert("EPD:Photo"@.len() == 9);
    assert("SHR:CompletelyDeaf"@.len() == 18);
    assert("SHR:HearingImpaired"@.len() == 19);
    assert("SHR:Hearing"@.len() == 11);
    assert("LED"@.len() == 3);
    assert("FED"@.len() == 3);
    // the two same-length pairs differ in one character
    assert("EPD:Name"@[4] == 'N');
    assert("EPD:City"@[4] == 'C');
    assert("LED"@[0] == 'L');
    assert("FED"@[0] == 'F');
    match d {
        CallbackData::EPEM => {
            assert(spec_decode(spec_encode(d)) == Some(d));
        },
        CallbackData::EPD { profile_field } => {
            match profile_field {
                ProfileField::Name => {
                    assert(spec_decode(spec_encode(d)) == Some(d));
                },
                ProfileField::Age => {
                    assert(spec_decode(spec_encode(d)) == Some(d));
                },
                ProfileField::City => {
                    assert(spec_decode(spec_encode(d)) == Some(d));
                },
                ProfileField::HearingLevel => {
                    assert(spec_decode(spec_encode(d)) == Some(d));
                },
                ProfileField::Description => {
                    assert(spec_decode(spec_encode(d)) == Some(d));
                },
                ProfileField::Photo => {
                    assert(spec_decode(spec_encode(d)) == Some(d));
                },
            }
        },
        CallbackData::SHR { hearing_level } => {
            match hearing_level {
                HearingLevel::CompletelyDeaf => {
                    assert(spec_decode(spec_encode(d)) == Some(d));
                },
                HearingLevel::HearingImpaired => {
                    assert(spec_decode(spec_encode(d)) == Some(d));
                },
                HearingLevel::Hearing => {
                    assert(spec_decode(spec_encode(d)) == Some(d));
                },
            }
        },
        CallbackData::LED => {
            assert(spec_decode(spec_encode(d)) == Some(d));
        },
        CallbackData::FED => {
            assert(spec_decode(spec_encode(d)) == Some(d));
        },
    }
}

} // verus!
