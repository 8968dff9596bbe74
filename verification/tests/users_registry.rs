//! The user registry: lookups, takeover on re-registration, and guarded
//! removal.

use exhibit::{User, Users};
use tokio::sync::mpsc::unbounded_channel;

type Frame = Result<warp::ws::Message, warp::Error>;

fn user(identity: &str) -> User {
    User::new(identity.to_string(), "p1".to_string())
}

#[test]
fn fresh_handles_are_drawn() {
    let a = user("bob");
    let b = user("bob");
    assert_eq!(a.guid.len(), 32);
    assert_eq!(b.guid.len(), 32);
    assert_ne!(a.guid, b.guid);
}

#[test]
fn insert_and_get_by_guid() {
    let mut users = Users::new();
    let bob = user("bob");
    let guid = bob.guid.clone();
    users.insert(bob);
    let found = users.get_by_guid(&guid).unwrap();
    assert_eq!(found.identity, "bob");
    assert_eq!(found.guid, guid);
    assert!(users.get_by_guid(&"absent".to_string()).is_none());
}

#[test]
fn takeover_fires_the_old_close_signal() {
    let mut users = Users::new();
    let mut old = user("bob");
    let (closer_tx, mut closer_rx) = unbounded_channel::<()>();
    let (sender_tx, _sender_rx) = unbounded_channel::<Frame>();
    old.closer = Some(closer_tx);
    old.sender = Some(sender_tx);
    let old_guid = old.guid.clone();
    users.insert(old);

    let replacement = user("bob");
    let new_guid = replacement.guid.clone();
    users.insert(replacement);

    // the prior connection was told to close and its rows are gone
    assert!(closer_rx.try_recv().is_ok());
    assert!(users.get_by_guid(&old_guid).is_none());
    assert!(users.get_by_guid(&new_guid).is_some());
    assert_eq!(users.guid_mapping.len(), 1);
    assert_eq!(users.client_mapping.len(), 1);
}

#[test]
fn distinct_identities_coexist() {
    let mut users = Users::new();
    users.insert(user("bob"));
    users.insert(user("eve"));
    assert_eq!(users.guid_mapping.len(), 2);
    assert_eq!(users.iter().len(), 2);
}

#[test]
fn removal_is_guarded_by_the_current_handle() {
    let mut users = Users::new();
    let stale = user("bob");
    users.insert(stale.clone());
    let replacement = user("bob");
    users.insert(replacement.clone());

    // the stale record's row was already replaced: removal declines
    assert!(!users.remove(&stale));
    assert_eq!(users.guid_mapping.len(), 1);

    // the current record removes both rows
    assert!(users.remove(&replacement));
    assert_eq!(users.guid_mapping.len(), 0);
    assert_eq!(users.client_mapping.len(), 0);

    // removing from an empty registry declines
    assert!(!users.remove(&replacement));
}
