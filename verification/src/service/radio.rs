use vstd::prelude::*;

use crate::events::MeshtasticEvent;
use crate::radio::RadioPacket;

verus! {

/// What the radio link reports on the outcome of a connection attempt: a connection, or the
/// error.
pub fn connection_outcome(outcome: Result<(), String>) -> (r: MeshtasticEvent)
    ensures
        match outcome {
            Ok(()) => r is Connected,
            Err(e) => r matches MeshtasticEvent::ConnectionError(x) && x@ == e@,
        },
{
    match outcome {
        Ok(()) => MeshtasticEvent::Connected,
        Err(e) => MeshtasticEvent::ConnectionError(e),
    }
}

/// What the radio link does with what it reads from the radio: `None` means the radio stopped,
/// which ends the link (the second part of the result is false); a packet with a payload
/// becomes an incoming packet; one without is dropped.
pub fn handle_radio_packet(read: Option<Option<RadioPacket>>) -> (r: (Option<MeshtasticEvent>, bool))
    ensures
        match read {
            None => r.0 is None && !r.1,
            Some(None) => r.0 is None && r.1,
            Some(Some(p)) => (r.0 matches Some(MeshtasticEvent::IncomingPacket(x)) && x == p)
                && r.1,
        },
{
    match read {
        None => (None, false),
        Some(None) => (None, true),
        Some(Some(p)) => (Some(MeshtasticEvent::IncomingPacket(p)), true),
    }
}

} // verus!
