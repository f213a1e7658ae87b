use vstd::prelude::*;

use crate::events::AppEvent;
use crate::store::StateAction;

verus! {

/// What the interface service does on an application event: a request for the next or the
/// previous tab switches to it.
pub fn handle_app_event(event: &AppEvent) -> (r: Option<StateAction>)
    ensures
        match *event {
            AppEvent::NextTabRequested => r matches Some(StateAction::TabSwitchToNext),
            AppEvent::PreviousTabRequested => r matches Some(StateAction::TabSwitchToPrevious),
            _ => r is None,
        },
{
    match event {
        AppEvent::NextTabRequested => Some(StateAction::TabSwitchToNext),
        AppEvent::PreviousTabRequested => Some(StateAction::TabSwitchToPrevious),
        _ => None,
    }
}

} // verus!
