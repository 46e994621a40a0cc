//! Events that the shielded pool emits for its actions.
use vstd::prelude::*;

use crate::abci::{Event, EventAttribute};

verus! {

/// The event of a spend: an indexed `nullifier` attribute holding the
/// nullifier's textual form.
pub fn spend(nullifier: &str) -> (r: Event)
    ensures
        r.kind@ == "action_spend"@,
        r.attributes@.len() == 1,
        r.attributes@[0].key@ == "nullifier"@,
        r.attributes@[0].value@ == nullifier@,
        r.attributes@[0].index,
{
    let attribute = EventAttribute::indexed(String::from_str("nullifier"), String::from_str(nullifier));
    Event::new(String::from_str("action_spend"), vec![attribute])
}

/// The event of an output: an indexed `note_commitment` attribute holding the
/// textual form of the new note's commitment.
pub fn output(note_commitment: &str) -> (r: Event)
    ensures
        r.kind@ == "action_output"@,
        r.attributes@.len() == 1,
        r.attributes@[0].key@ == "note_commitment"@,
        r.attributes@[0].value@ == note_commitment@,
        r.attributes@[0].index,
{
    let attribute = EventAttribute::indexed(
        String::from_str("note_commitment"),
        String::from_str(note_commitment),
    );
    Event::new(String::from_str("action_output"), vec![attribute])
}

} // verus!
