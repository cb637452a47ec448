//! The router over inbound messages, and the service configuration.

use vstd::prelude::*;

use crate::maps;
use crate::state::State;

verus! {

/// The two credentials the service runs with.
#[derive(Debug)]
pub struct Configuration {
    pub bot_token: String,
    pub yandex_maps_api_key: String,
}

/// Reads the configuration out of its JSON document: both fields must
/// be present as strings. The surrounding program treats `None` as a
/// startup failure.
pub fn parse_configuration_string(string: &str) -> (r: Option<Configuration>) {
    let json = match maps::parse_json(string) {
        Some(v) => v,
        None => {
            return None;
        },
    };
    let bot_token = match maps::json_string_at(&json, "/bot_token") {
        Some(s) => s,
        None => {
            return None;
        },
    };
    let yandex_maps_api_key = match maps::json_string_at(&json, "/yandex_maps_api_key") {
        Some(s) => s,
        None => {
            return None;
        },
    };
    Some(Configuration { bot_token, yandex_maps_api_key })
}

/// Where the router sends an inbound message, in order of precedence.
#[derive(Debug, Clone, Copy, PartialEq, Eq, Structural)]
pub enum RouteDecision {
    /// Not a private one-to-one chat: reject before any handler.
    RejectNotPrivate,
    /// The sender has no public handle: reject before any handler.
    RejectNoUsername,
    /// No profile and a command: enter the creation wizard.
    WizardEntry,
    /// No profile, mid-wizard input: continue building.
    BuildProfile,
    /// No profile and nothing recognizable: ignored.
    Drop,
    /// A command from a sender with a profile.
    HandleCommand,
    /// Free input while idle.
    HandleMessage,
    /// Free input while browsing.
    ActOnProfile,
    /// Free input while reviewing the liked-me queue.
    LookAtLikes,
    /// Free input while a field edit is pending.
    LookupEdit,
}

/// The routing order, first match wins: private chat, public handle,
/// then wizard entry or continuation for senders without a profile,
/// then command or state-directed dispatch for the rest.
pub open spec fn spec_route(
    chat_is_private: bool,
    has_username: bool,
    has_profile: bool,
    is_command: bool,
    state: State,
) -> RouteDecision {
    if !chat_is_private {
        RouteDecision::RejectNotPrivate
    } else if !has_username {
        RouteDecision::RejectNoUsername
    } else if !has_profile {
        if is_command {
            RouteDecision::WizardEntry
        } else if state is CreatingProfile {
            RouteDecision::BuildProfile
        } else {
            RouteDecision::Drop
        }
    } else if is_command {
        RouteDecision::HandleCommand
    } else {
        match state {
            State::Idle => RouteDecision::HandleMessage,
            State::LookingAtProfiles { .. } => RouteDecision::ActOnProfile,
            State::LookingAtProfilesWhoHaveLiked { .. } => RouteDecision::LookAtLikes,
            State::EditingProfile { .. } => RouteDecision::LookupEdit,
            // a leftover wizard state beside an existing profile: ignored
            State::CreatingProfile { .. } => RouteDecision::Drop,
        }
    }
}

/// Routes one inbound message; see [`spec_route`] for the precedence.
pub fn route(
    chat_is_private: bool,
    has_username: bool,
    has_profile: bool,
    is_command: bool,
    state: &State,
) -> (r: RouteDecision)
    ensures
        r == spec_route(chat_is_private, has_username, has_profile, is_command, *state),
{
    if !chat_is_private {
        RouteDecision::RejectNotPrivate
    } else if !has_username {
        RouteDecision::RejectNoUsername
    } else if !has_profile {
        if is_command {
            RouteDecision::WizardEntry
        } else if matches!(state, State::CreatingProfile { .. }) {
            RouteDecision::BuildProfile
        } else {
            RouteDecision::Drop
        }
    } else if is_command {
        RouteDecision::HandleCommand
    } else {
        match state {
            State::Idle => RouteDecision::HandleMessage,
            State::LookingAtProfiles { .. } => RouteDecision::ActOnProfile,
            State::LookingAtProfilesWhoHaveLiked { .. } => RouteDecision::LookAtLikes,
            State::EditingProfile { .. } => RouteDecision::LookupEdit,
            State::CreatingProfile { .. } => RouteDecision::Drop,
        }
    }
}

} // verus!
