//! The decisions of the application's services: what each does with the events it receives.

pub mod chat;
pub mod nodes;
pub mod connection;
pub mod settings;
pub mod ui;
pub mod radio;
pub mod config;
pub mod traceroute;

use vstd::prelude::*;

use crate::events::{AppEvent, CommandToMeshtastic};
use crate::store::StateAction;

verus! {

/// What a service asks for in answer to one event: changes to the state, events for the other
/// services, and requests to the radio, each in the order they are sent.
pub struct Effects {
    pub actions: Vec<StateAction>,
    pub app_events: Vec<AppEvent>,
    pub commands: Vec<CommandToMeshtastic>,
}

impl Effects {
    /// Nothing to do.
    pub fn none() -> (r: Effects)
        ensures
            r.actions@.len() == 0,
            r.app_events@.len() == 0,
            r.commands@.len() == 0,
    {
        Effects { actions: Vec::new(), app_events: Vec::new(), commands: Vec::new() }
    }

    /// Only changes to the state.
    pub fn of_actions(actions: Vec<StateAction>) -> (r: Effects)
        ensures
            r.actions@ == actions@,
            r.app_events@.len() == 0,
            r.commands@.len() == 0,
    {
        Effects { actions, app_events: Vec::new(), commands: Vec::new() }
    }
}

} // verus!
