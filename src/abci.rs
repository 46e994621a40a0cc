//! Plain values exchanged with the consensus engine: events and validator
//! power updates.
use vstd::prelude::*;

verus! {

/// One key/value pair of an event; `index` asks the engine to index it.
pub struct EventAttribute {
    pub key: String,
    pub value: String,
    pub index: bool,
}

/// An event emitted while a block is processed.
pub struct Event {
    pub kind: String,
    pub attributes: Vec<EventAttribute>,
}

/// A validator's consensus key and its new voting power.
pub struct ValidatorUpdate {
    pub pub_key: Vec<u8>,
    pub power: u64,
}

impl EventAttribute {
    /// An attribute that the engine indexes.
    pub fn indexed(key: String, value: String) -> (r: EventAttribute)
        ensures
            r.key@ == key@,
            r.value@ == value@,
            r.index,
    {
        EventAttribute { key, value, index: true }
    }
}

impl Event {
    pub fn new(kind: String, attributes: Vec<EventAttribute>) -> (r: Event)
        ensures
            r.kind@ == kind@,
            r.attributes@ == attributes@,
    {
        Event { kind, attributes }
    }
}

} // verus!
