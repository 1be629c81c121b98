use std::cell::RefCell;
use std::path::PathBuf;
use std::rc::Rc;

use chikachika::coordinator::{cleanup_failure, CoordinatorError, HeadlessCoordinator, HubOperations};
use chikachika::hub::{HubError, HubState, PublishResult};
use chikachika::ids::OverlayId;
use chikachika::model::{ModelError, Overlay, Position, TextWidget};
use chikachika::persistence::{encode_document, PersistenceError, Store};
use chikachika::server::{ServerAddress, ServerError};
use chikachika::startup::{bootstrap_from_load, BootstrapOutcome};

/// A hub double over the library's hub state.
#[derive(Clone)]
struct TestHub {
    state: Rc<RefCell<HubState>>,
    refuse_registration_after: Option<usize>,
    registrations: Rc<RefCell<usize>>,
    publications: Rc<RefCell<usize>>,
}

impl TestHub {
    fn new() -> Self {
        TestHub {
            state: Rc::new(RefCell::new(HubState::new())),
            refuse_registration_after: None,
            registrations: Rc::new(RefCell::new(0)),
            publications: Rc::new(RefCell::new(0)),
        }
    }

    fn refusing_after(count: usize) -> Self {
        TestHub { refuse_registration_after: Some(count), ..TestHub::new() }
    }

    fn snapshot(&self, id: OverlayId) -> Option<Overlay> {
        self.state.borrow().snapshot(id)
    }

    fn revision(&self, id: OverlayId) -> Option<u64> {
        self.state.borrow().revision(id)
    }
}

impl HubOperations for TestHub {
    fn register_overlay(&self, overlay: Overlay) -> Result<(), HubError> {
        let mut count = self.registrations.borrow_mut();
        if let Some(limit) = self.refuse_registration_after {
            if *count >= limit {
                return Err(HubError::LockPoisoned);
            }
        }
        *count += 1;
        self.state.borrow_mut().register(overlay).map(|_| ())
    }

    fn publish_overlay(&self, overlay: &Overlay) -> Result<PublishResult, HubError> {
        *self.publications.borrow_mut() += 1;
        self.state.borrow_mut().publish(overlay)
    }

    fn remove_overlay(&self, id: OverlayId) -> Result<Option<Overlay>, HubError> {
        Ok(self.state.borrow_mut().remove(id))
    }

    fn snapshot_overlay(&self, id: OverlayId) -> Result<Option<Overlay>, HubError> {
        Ok(self.state.borrow().snapshot(id))
    }
}

fn coordinator(path: &str) -> HeadlessCoordinator<TestHub> {
    bootstrap_from_load(Store::at(PathBuf::from(path)), Ok(Vec::new()), TestHub::new())
        .into_coordinator()
        .unwrap()
}

fn save(app: &mut HeadlessCoordinator<TestHub>) -> Result<(), CoordinatorError> {
    let written = encode_document(app.overlays()).map(|_| ());
    app.record_save(written)
}

fn position(x: f32, y: f32) -> Position {
    Position::from_bits(x.to_bits(), y.to_bits())
}

#[test]
fn widget_selection_lifecycle() {
    let mut app = coordinator("overlays.json");
    let overlay = app.create_overlay("Live", 320, 240).unwrap();
    assert_eq!(app.selected_widget_id(), None);
    let first = app.add_widget(overlay, TextWidget::new("first")).unwrap();
    let second = app.add_widget(overlay, TextWidget::new("second")).unwrap();
    assert_eq!(app.selected_widget_id(), Some(second));
    app.select_widget(first).unwrap();
    app.select_widget(first).unwrap();
    app.select_widget(second).unwrap();
    app.select_overlay(overlay).unwrap();
    assert_eq!(app.selected_widget_id(), Some(second));
    app.delete_widget(overlay, second).unwrap();
    assert_eq!(app.selected_widget_id(), Some(first));
}

#[test]
fn overlay_deletion_selection_fallback() {
    let mut app = coordinator("overlays.json");
    let first = app.create_overlay("First", 1, 1).unwrap();
    let second = app.create_overlay("Second", 1, 1).unwrap();
    let third = app.create_overlay("Third", 1, 1).unwrap();
    app.select_overlay(second).unwrap();
    app.delete_overlay(second, true).unwrap();
    assert_eq!(app.selected_overlay_id(), Some(third));
    app.delete_overlay(third, true).unwrap();
    assert_eq!(app.selected_overlay_id(), Some(first));
}

#[test]
fn generic_update_repairs_selection() {
    let mut app = coordinator("overlays.json");
    let id = app.create_overlay("Live", 100, 100).unwrap();
    let first = app.add_widget(id, TextWidget::new("first")).unwrap();
    let second = app.add_widget(id, TextWidget::new("second")).unwrap();
    app.select_widget(first).unwrap();
    app.update_overlay(id, |mut overlay| {
        overlay.delete_widget(first)?;
        Ok(overlay)
    })
    .unwrap();
    assert_eq!(app.selected_widget_id(), Some(second));
}

#[test]
fn rejected_mutation_preserves_workspace_and_selection() {
    let mut app = coordinator("overlays.json");
    let id = app.create_overlay("Live", 100, 100).unwrap();
    let widget = app.add_widget(id, TextWidget::new("x")).unwrap();
    app.select_widget(widget).unwrap();
    save(&mut app).unwrap();
    let before = app.overlays().to_vec();
    let baseline = app.saved_content().to_vec();
    let hub = app.hub();
    let revision = hub.revision(id);
    let publications = *hub.publications.borrow();

    assert!(app
        .update_overlay(id, |mut overlay| {
            overlay.set_widget_position(widget, position(101.0, 0.0))?;
            Ok(overlay)
        })
        .is_err());
    assert_eq!(app.overlays(), before);
    assert_eq!(app.saved_content(), baseline);
    assert!(!app.is_dirty());
    assert_eq!(app.selected_widget_id(), Some(widget));
    assert_eq!(hub.snapshot(id), Some(before[0].clone()));
    assert_eq!(hub.revision(id), revision);
    assert_eq!(*hub.publications.borrow(), publications);
}

#[test]
fn rejected_candidate_identity_and_collection_duplicates_are_atomic() {
    let mut app = coordinator("identity.json");
    let id = app.create_overlay("Target", 100, 100).unwrap();
    let first = app.add_widget(id, TextWidget::new("first")).unwrap();
    let other = app.create_overlay("Other", 100, 100).unwrap();
    let other_widget = app.add_widget(other, TextWidget::new("other")).unwrap();
    app.select_overlay(id).unwrap();
    app.select_widget(first).unwrap();
    save(&mut app).unwrap();
    let before = app.overlays().to_vec();
    let hub = app.hub();
    let revision = hub.revision(id);

    let replacement = Overlay::with_dimensions("Wrong ID", 100, 100).unwrap();
    let replacement_id = replacement.id();
    let identity_error = app.update_overlay(id, move |_| Ok(replacement)).unwrap_err();
    assert!(matches!(
        identity_error,
        CoordinatorError::Model(ModelError::OverlayIdentityChanged { expected, found })
            if expected == id && found == replacement_id
    ));
    assert_eq!(app.overlays(), before);
    assert!(!app.is_dirty());
    assert_eq!(app.selected_overlay_id(), Some(id));
    assert_eq!(app.selected_widget_id(), Some(first));
    assert_eq!(hub.snapshot(id), Some(before[0].clone()));
    assert_eq!(hub.revision(id), revision);

    let other_duplicate = app.overlay(other).unwrap().widget(other_widget).unwrap().clone();
    let duplicate_error = app
        .update_overlay(id, move |overlay| {
            Overlay::from_parts(id, "Target".to_owned(), overlay.canvas(), vec![other_duplicate])
        })
        .unwrap_err();
    assert!(matches!(
        duplicate_error,
        CoordinatorError::Model(ModelError::DuplicateWidgetId { id: duplicate })
            if duplicate == other_widget
    ));
    assert_eq!(app.overlays(), before);
    assert!(!app.is_dirty());
    assert_eq!(app.selected_overlay_id(), Some(id));
    assert_eq!(app.selected_widget_id(), Some(first));
    assert_eq!(hub.snapshot(id), Some(before[0].clone()));
    assert_eq!(hub.revision(id), revision);
}

#[test]
fn dirty_tracks_saved_content_not_delivery() {
    let mut app = coordinator("overlays.json");
    let id = app.create_overlay("Live", 100, 100).unwrap();
    save(&mut app).unwrap();
    assert!(!app.is_dirty());
    let widget = app.add_widget(id, TextWidget::new("x")).unwrap();
    save(&mut app).unwrap();
    app.update_overlay(id, |mut o| {
        o.set_widget_content(widget, "y")?;
        Ok(o)
    })
    .unwrap();
    assert!(app.is_dirty());
    app.update_overlay(id, |mut o| {
        o.set_widget_content(widget, "x")?;
        Ok(o)
    })
    .unwrap();
    assert!(!app.is_dirty());
}

#[test]
fn bootstrap_restores_empty_state_clean() {
    let app = coordinator("overlays.json");
    assert!(!app.is_dirty());
    assert!(app.selected_overlay_id().is_none());
    let mut original = Overlay::with_dimensions("Saved", 100, 100).unwrap();
    original.add_widget(TextWidget::new("x")).unwrap();
    assert!(encode_document(&[original]).is_ok());
}

#[test]
fn save_failure_preserves_content_and_dirty_baseline() {
    let mut app = coordinator("overlays.json");
    app.create_overlay("Live", 100, 100).unwrap();
    save(&mut app).unwrap();
    let before = app.overlays().to_vec();
    let failure = PersistenceError::Replace {
        path: "directory".to_owned(),
        source: "Is a directory".to_owned(),
    };
    assert!(app.record_save(Err(failure.clone())).is_err());
    assert_eq!(app.overlays(), before);
    assert!(!app.is_dirty());
    assert!(matches!(app.last_error(), Some(CoordinatorError::Persistence(e)) if *e == failure));
}

#[test]
fn blocked_bootstrap_preserves_incompatible_store() {
    let error = chikachika::persistence::check_format_version(1).unwrap_err();
    let outcome = bootstrap_from_load(
        Store::at(PathBuf::from("overlays.json")),
        Err(error),
        TestHub::new(),
    );
    assert!(outcome.failure().is_some());
    assert_eq!(
        outcome.failure().unwrap().store().map(|s| s.path().clone()),
        Some(PathBuf::from("overlays.json"))
    );
    assert!(matches!(
        outcome.failure().unwrap().persistence_error(),
        Some(PersistenceError::UnsupportedVersion { found: 1, supported: 2 })
    ));
    assert!(outcome.into_coordinator().is_none());
}

#[test]
fn invalid_collection_blocks_bootstrap() {
    let overlay = Overlay::with_dimensions("Twice", 10, 10).unwrap();
    let outcome = bootstrap_from_load(
        Store::at(PathBuf::from("overlays.json")),
        Ok(vec![overlay.clone(), overlay.clone()]),
        TestHub::new(),
    );
    match outcome {
        BootstrapOutcome::Blocked(failure) => assert!(matches!(
            failure.error(),
            CoordinatorError::Model(ModelError::DuplicateOverlayId { id }) if *id == overlay.id()
        )),
        BootstrapOutcome::Ready(_) => panic!("duplicate overlays must block startup"),
    }
}

#[test]
fn refused_registration_is_undone() {
    let a = Overlay::with_dimensions("A", 10, 10).unwrap();
    let b = Overlay::with_dimensions("B", 10, 10).unwrap();
    let hub = TestHub::refusing_after(1);
    let result = HeadlessCoordinator::from_overlays_with_hub(
        Store::at(PathBuf::from("overlays.json")),
        vec![a.clone(), b],
        hub.clone(),
    );
    assert!(matches!(result, Err(CoordinatorError::Hub(HubError::LockPoisoned))));
    assert!(hub.snapshot(a.id()).is_none());
}

#[test]
fn loaded_workspace_selects_first_overlay_and_is_clean() {
    let a = Overlay::with_dimensions("A", 10, 10).unwrap();
    let b = Overlay::with_dimensions("B", 10, 10).unwrap();
    let hub = TestHub::new();
    let app = HeadlessCoordinator::from_overlays_with_hub(
        Store::at(PathBuf::from("overlays.json")),
        vec![a.clone(), b.clone()],
        hub.clone(),
    )
    .unwrap();
    assert_eq!(app.selected_overlay_id(), Some(a.id()));
    assert!(!app.is_dirty());
    assert_eq!(hub.revision(b.id()), Some(0));
}

#[test]
fn operations_without_selection_are_refused() {
    let mut app = coordinator("overlays.json");
    assert!(matches!(app.rename_selected("x"), Err(CoordinatorError::NoOverlaySelected)));
    assert!(matches!(app.delete_selected(true), Err(CoordinatorError::NoOverlaySelected)));
    assert!(matches!(app.delete_selected_widget(), Err(CoordinatorError::NoOverlaySelected)));
    assert!(matches!(
        app.add_selected_widget(TextWidget::new("x")),
        Err(CoordinatorError::NoOverlaySelected)
    ));
    app.create_overlay("Live", 10, 10).unwrap();
    assert!(matches!(app.delete_selected_widget(), Err(CoordinatorError::NoWidgetSelected)));
    assert!(matches!(app.delete_selected(false), Err(CoordinatorError::ConfirmationRequired)));
    assert!(matches!(app.last_error(), Some(CoordinatorError::ConfirmationRequired)));
    app.clear_last_error();
    assert!(app.last_error().is_none());
}

#[test]
fn create_overlay_validates_name_and_canvas() {
    let mut app = coordinator("overlays.json");
    assert!(matches!(
        app.create_overlay("Live", 0, 10),
        Err(CoordinatorError::Model(ModelError::InvalidCanvasSize { width: 0, height: 10 }))
    ));
    assert!(matches!(
        app.create_overlay("   ", 10, 10),
        Err(CoordinatorError::Model(ModelError::EmptyName))
    ));
    assert!(app.overlays().is_empty());
    let id = app.create_overlay("Live", 10, 10).unwrap();
    assert_eq!(app.selected_overlay().unwrap().id(), id);
    assert!(app.is_dirty());
    app.rename_selected("Renamed").unwrap();
    assert_eq!(app.overlay(id).unwrap().name(), "Renamed");
}

#[test]
fn duplicate_and_move_keep_selection_on_the_widget() {
    let mut app = coordinator("overlays.json");
    let id = app.create_overlay("Live", 100, 100).unwrap();
    let first = app.add_widget(id, TextWidget::new("first")).unwrap();
    let copy = app.duplicate_widget(id, first).unwrap();
    assert_eq!(app.selected_widget_id(), Some(copy));
    assert_eq!(app.selected_widget().unwrap().name(), "first Copy");
    app.move_widget_backward(id, copy).unwrap();
    assert_eq!(app.overlay(id).unwrap().widgets()[1].id(), copy);
    app.move_widget_forward(id, copy).unwrap();
    assert_eq!(app.overlay(id).unwrap().widgets()[0].id(), copy);
    app.delete_selected_widget().unwrap();
    assert_eq!(app.selected_widget_id(), Some(first));
}

#[test]
fn unchanged_content_does_not_publish() {
    let mut app = coordinator("overlays.json");
    let id = app.create_overlay("Live", 100, 100).unwrap();
    let hub = app.hub();
    app.rename_overlay(id, "Live").unwrap();
    assert_eq!(hub.revision(id), Some(0));
    app.rename_overlay(id, "Next").unwrap();
    assert_eq!(hub.revision(id), Some(1));
}

#[test]
fn selected_url_needs_a_running_server_and_matching_hub_content() {
    let mut app = coordinator("overlays.json");
    let id = app.create_overlay("Live", 100, 100).unwrap();
    assert!(app.selected_url().is_none());
    app.record_server_start(Ok(ServerAddress::loopback(51737)));
    assert_eq!(app.selected_url(), Some(format!("http://127.0.0.1:51737/overlay/{}", uuid::Uuid::from_u128(id.as_u128()))));
    assert_eq!(app.browser_source_url(), app.selected_url());
    app.record_server_error(ServerError::Bind("occupied".to_owned()));
    assert!(matches!(app.last_error(), Some(CoordinatorError::Server(ServerError::Bind(m))) if m == "occupied"));
}

#[test]
fn deleting_an_overlay_the_hub_no_longer_hosts_is_refused() {
    let mut app = coordinator("overlays.json");
    let id = app.create_overlay("Live", 100, 100).unwrap();
    app.hub().remove_overlay(id).unwrap();
    assert!(matches!(
        app.delete_overlay(id, true),
        Err(CoordinatorError::HubWorkspaceDivergence { id: d }) if d == id
    ));
    assert_eq!(app.overlays().len(), 1);
    assert!(app.selected_url().is_none());
}

#[test]
fn coordinator_error_messages() {
    let id = OverlayId::from_u128(0x0123_4567_89ab_4cde_8f01_2345_6789_abcd);
    let other = OverlayId::from_u128(0x0fed_cba9_8765_4321_8fed_cba9_8765_4321);
    let cleanup = CoordinatorError::BootstrapCleanup {
        primary: HubError::Duplicate { id },
        cleanup: vec![HubError::Unknown { id: other }, HubError::LockPoisoned],
    };
    assert_eq!(
        cleanup.message("", ""),
        "could not restore overlays: overlay 01234567-89ab-4cde-8f01-23456789abcd is already \
         registered; cleanup failed: overlay 0fedcba9-8765-4321-8fed-cba987654321 is not \
         registered: overlay hub lock is poisoned"
    );
    let invalid = CoordinatorError::Persistence(PersistenceError::InvalidModel(ModelError::EmptyName));
    assert_eq!(
        invalid.message("", ""),
        "persisted overlay data is invalid: overlay name cannot be empty"
    );
    assert_eq!(
        CoordinatorError::Persistence(PersistenceError::DuplicateOverlayId { id }).message("", ""),
        "persisted overlays contain duplicate overlay ID 01234567-89ab-4cde-8f01-23456789abcd"
    );
    assert_eq!(
        CoordinatorError::Server(ServerError::ThreadPanicked).message("", ""),
        "the web-server thread panicked"
    );
    assert_eq!(
        CoordinatorError::HubWorkspaceDivergence { id }.message("", ""),
        "overlay 01234567-89ab-4cde-8f01-23456789abcd exists in the workspace but not in the \
         hosting hub"
    );
    assert_eq!(
        CoordinatorError::ConfirmationRequired.message("", ""),
        "overlay deletion requires confirmation"
    );
}

#[test]
fn cleanup_errors_follow_the_removal_answers_in_order() {
    let id = OverlayId::from_u128(0x0123_4567_89ab_4cde_8f01_2345_6789_abcd);
    let kept = Overlay::with_dimensions("Kept", 10, 10).unwrap();
    assert!(matches!(
        cleanup_failure(HubError::LockPoisoned, vec![Ok(Some(kept.clone())), Ok(None)]),
        CoordinatorError::Hub(HubError::LockPoisoned)
    ));
    match cleanup_failure(
        HubError::Duplicate { id },
        vec![Err(HubError::Unknown { id }), Ok(Some(kept)), Err(HubError::LockPoisoned)],
    ) {
        CoordinatorError::BootstrapCleanup { primary, cleanup } => {
            assert_eq!(primary, HubError::Duplicate { id });
            assert_eq!(cleanup, vec![HubError::Unknown { id }, HubError::LockPoisoned]);
        }
        other => panic!("unexpected error {other:?}"),
    }
}

#[test]
fn accepted_changes_are_hosted_and_make_a_saved_workspace_dirty() {
    let mut app = coordinator("overlays.json");
    let hub = app.hub();
    let overlay = app.create_overlay("Live", 320, 240).unwrap();
    save(&mut app).unwrap();
    assert!(!app.is_dirty());
    app.rename_overlay(overlay, "Renamed").unwrap();
    assert!(app.is_dirty());
    assert_eq!(hub.snapshot(overlay).unwrap().name(), "Renamed");
    assert_eq!(app.overlay(overlay).unwrap(), &hub.snapshot(overlay).unwrap());
}

#[test]
fn moving_back_then_forward_restores_the_overlay() {
    let mut app = coordinator("overlays.json");
    let overlay = app.create_overlay("Live", 320, 240).unwrap();
    let back = app.add_widget(overlay, TextWidget::new("back")).unwrap();
    let front = app.add_widget(overlay, TextWidget::new("front")).unwrap();
    let before = app.overlay(overlay).unwrap().clone();
    app.move_widget_backward(overlay, front).unwrap();
    assert_eq!(app.overlay(overlay).unwrap().widgets()[1].id(), front);
    app.move_widget_forward(overlay, front).unwrap();
    assert_eq!(app.overlay(overlay).unwrap(), &before);
    app.move_widget_forward(overlay, back).unwrap();
    app.move_widget_backward(overlay, back).unwrap();
    assert_eq!(app.overlay(overlay).unwrap(), &before);
}

#[test]
fn carried_model_errors_are_written_with_their_numbers() {
    let position = CoordinatorError::Persistence(PersistenceError::InvalidModel(
        ModelError::InvalidPosition { x: (-1.5f32).to_bits(), y: 2.0f32.to_bits() },
    ));
    assert_eq!(
        position.message("-1.5", "2"),
        "persisted overlay data is invalid: text position is invalid or outside the canvas (-1.5, 2)"
    );
    assert_eq!(
        CoordinatorError::Model(ModelError::InvalidCanvasSize { width: 0, height: 720 }).message("", ""),
        "canvas dimensions must be non-zero (got 0x720)"
    );
}
