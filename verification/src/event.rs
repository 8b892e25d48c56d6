//! The bridge event: a fixed event name paired with the activation record
//! that triggered it, handed to the UI session's event bus.

use vstd::prelude::*;
use vstd::string::StringExecFns;

verus! {

/// The mathematical shape of a bridge event: an event name and a payload,
/// both character sequences.
#[verifier::ext_equal]
pub ghost struct EventModel {
    pub name: Seq<char>,
    pub payload: Seq<char>,
}

/// The fixed name under which callback events reach the UI session.
pub open spec fn event_name() -> Seq<char> {
    "oauth-callback"@
}

/// The event that routing a matching activation record publishes: the fixed
/// event name, and the record itself as payload, unmodified.
pub open spec fn event_model_of(record: Seq<char>) -> EventModel {
    EventModel { name: event_name(), payload: record }
}

/// A typed event carrying the raw activation string to the UI session.
#[derive(Debug, Clone)]
pub struct BridgeEvent {
    pub name: String,
    pub payload: String,
}

impl View for BridgeEvent {
    type V = EventModel;

    open spec fn view(&self) -> EventModel {
        EventModel { name: self.name@, payload: self.payload@ }
    }
}

impl BridgeEvent {
    /// Construct the bridge event for one activation record: fixed name,
    /// payload equal to the record.
    pub fn for_record(record: &str) -> (event: BridgeEvent)
        ensures
            event@ == event_model_of(record@),
    {
        let event = BridgeEvent {
            name: String::from_str("oauth-callback"),
            payload: String::from_str(record),
        };
        assert(event@ =~= event_model_of(record@));
        event
    }
}

} // verus!
