//! Outbound effects and inbound events of the dialogue engine. The
//! engine never talks to the transport itself: every handler returns a
//! list of [`Action`] values for the surrounding program to perform,
//! and receives inbound traffic as plain [`MessageEvent`] values.

use vstd::prelude::*;

use crate::profile::{PhotoId, Profile, Sex};
use crate::user::MyUserId;

verus! {

/// Reply-keyboard or inline-keyboard layout attached to a message.
/// Only the shape is decided here; captions are presentation.
#[derive(Debug, Clone, Copy, PartialEq, Eq, Structural)]
pub enum Markup {
    /// No markup attached, or an existing markup cleared.
    Bare,
    /// Search / my profile / who-likes-me.
    MenuKeyboard,
    /// Like / dislike / menu.
    BrowsingKeyboard,
    /// Boy / girl.
    SexKeyboard,
    /// Boy / girl / no preference.
    WantToMeetKeyboard,
    /// The three hearing levels, captions sexed for the user.
    HearingKeyboard { sex: Sex },
    /// Leave-the-description-empty, as a reply keyboard.
    LeaveEmptyKeyboard,
    /// Leave-the-description-empty, as an inline button.
    LeaveEmptyInline,
    /// The three hearing levels as inline buttons, captions sexed.
    SetHearingInline { sex: Sex },
    /// One field-selection button per editable field, plus finish.
    EditProfileInline,
    /// The single enter-edit-mode button under an own profile.
    EnterEditInline,
    /// Remove the reply keyboard.
    RemoveKeyboard,
}

/// Semantic content of an outbound text message; the presentation
/// layer owns the localized wording.
#[derive(Debug)]
pub enum Notice {
    /// First greeting, asking for the name.
    Greeting,
    AskAge,
    AskCity,
    AskSex,
    AskWhoToMeet,
    AskHearingLevel,
    AskDescription,
    AskPhoto,
    /// The rejected name echoed back with its length.
    NameTooLong { name: String, length: usize },
    /// The reply to the age step did not parse as an integer.
    AgeNotANumber { reply: String },
    /// The city name could not be resolved; echoed back.
    CityNotFound { name: String },
    /// A collaborator failed; apologize without detail.
    TransientFailure,
    /// The wizard finished; the profile follows.
    ProfileReady,
    Menu,
    /// Unexpected browsing token while idle: prior activity was lost.
    LostActivity,
    WatchingProfiles,
    WatchingLikes,
    NoSuggestion,
    NobodyLikedYet,
    LikesOverNowSearch,
    /// Best-effort note to a liked candidate.
    SomeoneLikedYou,
    /// Both sides liked each other; an introduction follows.
    MutualLike,
    /// Introduction: a link to the handle of the matched user.
    IntroLink { username: String },
    /// The like reacted to had already been consumed.
    LikeExpired,
    ProfileEditMode,
    AskNewName,
    AskNewAge,
    AskNewCity,
    AskNewHearingLevel,
    AskNewDescription,
    AskNewPhoto,
    /// The freshly edited profile follows.
    NewProfile,
}

/// One outbound operation for the transport layer to perform, in order.
#[derive(Debug)]
pub enum Action {
    SendNotice { to: MyUserId, notice: Notice, markup: Markup },
    /// Send the photos of `profile` with its caption.
    SendProfile { to: MyUserId, profile: Profile, markup: Markup },
    EditMessageText { user: MyUserId, message_id: i32, notice: Notice },
    EditMessageMarkup { user: MyUserId, message_id: i32, markup: Markup },
    DeleteMessage { user: MyUserId, message_id: i32 },
}

/// An inbound message, reduced to what the handlers inspect.
#[derive(Debug)]
pub enum MessageEvent {
    Text(String),
    Photo(Vec<PhotoId>),
    /// Anything else (stickers, shared locations, voice, ...).
    Other,
}

} // verus!
