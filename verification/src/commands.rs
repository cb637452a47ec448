//! The one slash command the service understands, and its handlers for
//! senders with and without a profile.

use vstd::prelude::*;

use crate::actions::{Action, Markup, Notice};
use crate::profile::Profile;
use crate::state::{is_notice_to, State};
use crate::user::MyUserId;

verus! {

/// The recognized slash commands.
#[derive(Debug, Clone, Copy, PartialEq, Eq, Structural)]
pub enum Command {
    Start,
}

impl Command {
    /// Which command a message text spells, if any.
    pub open spec fn spec_parse(s: Seq<char>) -> Option<Command> {
        if s == "/start"@ {
            Some(Command::Start)
        } else {
            None
        }
    }

    pub fn parse(s: &str) -> (r: Option<Command>)
        ensures
            r == Command::spec_parse(s@),
    {
        if crate::strutil::str_eq(s, "/start") {
            Some(Command::Start)
        } else {
            None
        }
    }
}

/// The start command from a sender with no profile: greet, ask for the
/// name, and open a fresh builder on the first wizard step.
pub fn handle_user_without_profile(user_id: MyUserId, command: Command) -> (r: (
    State,
    Vec<Action>,
))
    ensures
        (r.0 matches State::CreatingProfile { profile_builder, state } && state
            == crate::profile::ProfileBuildingState::Name && profile_builder@.id == user_id
            && profile_builder@.photos.len() == 0 && profile_builder@.name is None
            && profile_builder@.age is None && profile_builder@.sex is None
            && profile_builder@.want_to_meet is None && profile_builder@.hearing_level is None
            && profile_builder@.location is None && profile_builder@.description is None),
        r.1@.len() == 1,
        is_notice_to(r.1@[0], user_id, Notice::Greeting, Markup::Bare),
{
    match command {
        Command::Start => {
            let mut acts: Vec<Action> = Vec::new();
            acts.push(
                Action::SendNotice { to: user_id, notice: Notice::Greeting, markup: Markup::Bare },
            );
            (
                State::CreatingProfile {
                    profile_builder: Profile::builder(user_id),
                    state: crate::profile::ProfileBuildingState::Name,
                },
                acts,
            )
        },
    }
}

/// The start command from a sender who already has a profile: show the
/// menu; the dialogue state stays as it is.
pub fn handle_command(user_id: MyUserId, command: Command) -> (acts: Vec<Action>)
    ensures
        acts@.len() == 1,
        is_notice_to(acts@[0], user_id, Notice::Menu, Markup::MenuKeyboard),
{
    match command {
        Command::Start => {
            let mut acts: Vec<Action> = Vec::new();
            acts.push(
                Action::SendNotice {
                    to: user_id,
                    notice: Notice::Menu,
                    markup: Markup::MenuKeyboard,
                },
            );
            acts
        },
    }
}

} // verus!
