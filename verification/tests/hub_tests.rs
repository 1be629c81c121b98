use chikachika::hub::{next_revision, HubError, HubState, PublishResult, MAX_SAFE_REVISION};
use chikachika::model::Overlay;

fn overlay() -> Overlay {
    Overlay::with_dimensions("Starting Soon", 1280, 720).unwrap()
}

fn changed(base: &Overlay, name: &str) -> Overlay {
    let mut changed = base.clone();
    changed.rename(name).unwrap();
    changed
}

#[test]
fn hub_session_revision_lifecycle() {
    let mut hub = HubState::new();
    let first = overlay();
    let id = first.id();
    hub.register(first.clone()).unwrap();
    assert_eq!(hub.revision(id), Some(0));
    let newer = changed(&first, "Next");
    assert_eq!(hub.publish(&newer), Ok(PublishResult::Published { revision: 1 }));
    hub.remove(id).unwrap();
    let restored =
        Overlay::from_parts(id, "Restored".into(), newer.canvas(), newer.widgets().to_vec()).unwrap();
    hub.register(restored).unwrap();
    assert_eq!(hub.revision(id), Some(2));
}

#[test]
fn hub_revision_exhaustion_is_atomic() {
    let mut hub = HubState::new();
    let first = overlay();
    let id = first.id();
    hub.register(first.clone()).unwrap();
    hub.set_high_water_for_test(id, MAX_SAFE_REVISION);
    let changed = changed(&first, "changed");
    assert!(matches!(
        hub.publish(&changed),
        Err(HubError::RevisionExhausted { current: MAX_SAFE_REVISION, .. })
    ));
    assert_eq!(hub.snapshot(id), Some(first.clone()));
    assert_eq!(hub.revision(id), Some(MAX_SAFE_REVISION));
    hub.remove(id).unwrap();
    hub.set_high_water_for_test(id, MAX_SAFE_REVISION);
    let replacement = Overlay::from_parts(id, "replacement".into(), first.canvas(), vec![]).unwrap();
    assert!(matches!(
        hub.register(replacement),
        Err(HubError::RevisionExhausted { current: MAX_SAFE_REVISION, .. })
    ));
    assert!(hub.snapshot(id).is_none());
}

#[test]
fn coordinator_noop_does_not_publish() {
    let mut hub = HubState::new();
    let initial = overlay();
    let id = initial.id();
    hub.register(initial.clone()).unwrap();
    let same = initial.clone();
    assert_eq!(hub.publish(&same), Ok(PublishResult::Unchanged));
    assert_eq!(hub.revision(id), Some(0));
}

#[test]
fn restart_resets_delivery_not_identity() {
    let first = overlay();
    let id = first.id();
    let mut hub = HubState::new();
    hub.register(first.clone()).unwrap();
    hub.publish(&changed(&first, "changed")).unwrap();
    let mut restarted = HubState::new();
    restarted.register(first).unwrap();
    assert_eq!(restarted.revision(id), Some(0));
}

#[test]
fn next_revision_stops_at_the_largest_safe_integer() {
    assert_eq!(next_revision(0), Some(1));
    assert_eq!(next_revision(MAX_SAFE_REVISION - 1), Some(MAX_SAFE_REVISION));
    assert_eq!(next_revision(MAX_SAFE_REVISION), None);
    assert_eq!(next_revision(u64::MAX), None);
    assert_eq!(MAX_SAFE_REVISION, 9_007_199_254_740_991);
}

#[test]
fn duplicate_and_unknown_registrations_are_refused() {
    let mut hub = HubState::new();
    let first = overlay();
    let id = first.id();
    assert_eq!(hub.publish(&first), Err(HubError::Unknown { id }));
    assert_eq!(hub.register(first.clone()), Ok(0));
    assert_eq!(hub.register(first.clone()), Err(HubError::Duplicate { id }));
    assert_eq!(hub.remove(id).map(|o| o.id()), Some(id));
    assert!(hub.remove(id).is_none());
    assert_eq!(hub.revision(id), None);
}

#[test]
fn page_lookup_parses_the_identity_text() {
    let mut hub = HubState::new();
    let first = overlay();
    let id = first.id();
    hub.register(first.clone()).unwrap();
    hub.publish(&changed(&first, "Live")).unwrap();
    let (page, revision) = hub.page_for(&id.to_string()).unwrap();
    assert_eq!(page.name(), "Live");
    assert_eq!(revision, 1);
    assert!(hub.page_for("not-a-uuid").is_none());
    assert!(hub.page_for("00000000-0000-0000-0000-000000000000").is_none());
    assert!(hub.page_for(&Overlay::with_dimensions("Other", 1, 1).unwrap().id().to_string()).is_none());
}

#[test]
fn hub_error_messages() {
    let id = chikachika::ids::OverlayId::from_u128(0x0123_4567_89ab_4cde_8f01_2345_6789_abcd);
    assert_eq!(
        HubError::RevisionExhausted { id, current: 42 }.message(),
        "overlay 01234567-89ab-4cde-8f01-23456789abcd delivery revision exhausted at 42"
    );
    assert_eq!(
        HubError::Duplicate { id }.message(),
        "overlay 01234567-89ab-4cde-8f01-23456789abcd is already registered"
    );
    assert_eq!(HubError::LockPoisoned.message(), "overlay hub lock is poisoned");
}
