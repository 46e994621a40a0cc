use pd::abci::{Event, EventAttribute};
use pd::event::{output, spend};

#[test]
fn spend_event_indexes_the_nullifier() {
    let e = spend("abc123");
    assert_eq!(e.kind, "action_spend");
    assert_eq!(e.attributes.len(), 1);
    assert_eq!(e.attributes[0].key, "nullifier");
    assert_eq!(e.attributes[0].value, "abc123");
    assert!(e.attributes[0].index);
}

#[test]
fn output_event_indexes_the_commitment() {
    let e = output("cm42");
    assert_eq!(e.kind, "action_output");
    assert_eq!(e.attributes.len(), 1);
    assert_eq!(e.attributes[0].key, "note_commitment");
    assert_eq!(e.attributes[0].value, "cm42");
    assert!(e.attributes[0].index);
}

#[test]
fn event_construction() {
    let a = EventAttribute::indexed("k".to_string(), "v".to_string());
    let e = Event::new("kind".to_string(), vec![a]);
    assert_eq!(e.kind, "kind");
    assert_eq!(e.attributes[0].key, "k");
    assert_eq!(e.attributes[0].value, "v");
}
