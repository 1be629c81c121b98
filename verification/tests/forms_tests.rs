use std::cell::RefCell;
use std::path::PathBuf;
use std::rc::Rc;

use chikachika::coordinator::{CoordinatorError, HeadlessCoordinator, HubOperations};
use chikachika::forms::{
    apply_text_editor_values, duplicate_selected_widget, move_selected_widget, select_named,
    settings_panel_lines, FormError, FormState, TextEditorValues,
};
use chikachika::hub::{HubError, HubState, PublishResult};
use chikachika::ids::OverlayId;
use chikachika::model::{Alignment, FontFamily, ModelError, Overlay, Position, TextWidget};
use chikachika::persistence::Store;
use chikachika::settings::{Settings, SettingsError, SettingsState, Store as SettingsStore};

#[derive(Clone)]
struct LocalHub(Rc<RefCell<HubState>>);

impl HubOperations for LocalHub {
    fn register_overlay(&self, overlay: Overlay) -> Result<(), HubError> {
        self.0.borrow_mut().register(overlay).map(|_| ())
    }
    fn publish_overlay(&self, overlay: &Overlay) -> Result<PublishResult, HubError> {
        self.0.borrow_mut().publish(overlay)
    }
    fn remove_overlay(&self, id: OverlayId) -> Result<Option<Overlay>, HubError> {
        Ok(self.0.borrow_mut().remove(id))
    }
    fn snapshot_overlay(&self, id: OverlayId) -> Result<Option<Overlay>, HubError> {
        Ok(self.0.borrow().snapshot(id))
    }
}

fn workspace() -> HeadlessCoordinator<LocalHub> {
    HeadlessCoordinator::empty(
        Store::at(PathBuf::from("overlays.json")),
        LocalHub(Rc::new(RefCell::new(HubState::new()))),
    )
}

#[test]
fn create_dialog_validates_the_canvas_fields() {
    let mut app = workspace();
    let mut forms = FormState::new(51_737);
    assert_eq!(forms.port_input(), "51737");
    forms.begin_create();
    assert!(forms.is_create_open());
    forms.set_create_fields("Live", "0", "720");
    assert!(matches!(forms.create_overlay_from_form(&mut app), Err(FormError::InvalidCanvasInput)));
    assert!(matches!(forms.dialog_error(), Some(FormError::InvalidCanvasInput)));
    forms.set_create_fields("Live", "wide", "720");
    assert!(forms.create_overlay_from_form(&mut app).is_err());
    assert!(app.overlays().is_empty());
    forms.set_create_fields("  Live  ", " 1280 ", "720");
    let id = forms.create_overlay_from_form(&mut app).unwrap();
    assert!(!forms.is_create_open());
    assert!(forms.dialog_error().is_none());
    assert_eq!(app.overlay(id).unwrap().name(), "Live");
    forms.begin_create();
    forms.set_create_fields("   ", "1", "1");
    assert!(matches!(
        forms.create_overlay_from_form(&mut app),
        Err(FormError::Operation(CoordinatorError::Model(ModelError::EmptyName)))
    ));
    assert!(forms.is_create_open());
}

#[test]
fn rename_and_delete_dialogs_target_the_selected_overlay() {
    let mut app = workspace();
    let mut forms = FormState::new(51_737);
    assert!(matches!(forms.begin_rename(&app), Err(FormError::NoOverlaySelected)));
    assert!(matches!(forms.apply_rename(&mut app), Err(FormError::NoRenameTarget)));
    let first = app.create_overlay("First", 10, 10).unwrap();
    let second = app.create_overlay("Second", 10, 10).unwrap();
    forms.begin_rename(&app).unwrap();
    assert!(forms.is_rename_open());
    forms.set_rename_field("  Renamed ");
    forms.apply_rename(&mut app).unwrap();
    assert!(!forms.is_rename_open());
    assert_eq!(app.overlay(second).unwrap().name(), "Renamed");
    select_named(&mut app, "First").unwrap();
    assert_eq!(app.selected_overlay_id(), Some(first));
    assert!(matches!(select_named(&mut app, "Missing"), Err(FormError::UnknownOverlayName(n)) if n == "Missing"));
    forms.begin_delete(&app).unwrap();
    assert_eq!(forms.delete_target(), Some(first));
    forms.cancel_dialogs();
    assert!(matches!(forms.confirm_delete(&mut app), Err(FormError::NoDeleteTarget)));
    forms.begin_delete(&app).unwrap();
    forms.confirm_delete(&mut app).unwrap();
    assert_eq!(app.overlays().len(), 1);
    assert_eq!(app.selected_overlay_id(), Some(second));
}

#[test]
fn port_field_saves_only_valid_ports() {
    let mut forms = FormState::new(51_737);
    forms.set_port_field("0");
    assert!(matches!(forms.begin_port_save(), Err(FormError::PortInput(m)) if m == "Port must be a whole number from 1 to 65535."));
    assert!(forms.port_save_error().is_some());
    forms.set_port_field(" 42424 ");
    assert_eq!(forms.begin_port_save().unwrap(), 42_424);
    assert!(forms.port_save_error().is_none());
    forms.finish_port_save(Ok(())).unwrap();
    assert!(forms.port_save_succeeded());
    let failure = SettingsError::Replace { path: "settings.json".to_owned(), source: "denied".to_owned() };
    assert!(forms.finish_port_save(Err(failure.clone())).is_err());
    assert!(matches!(forms.port_save_error(), Some(FormError::PortSave(e)) if *e == failure));
}

#[test]
fn inspector_values_apply_as_one_change() {
    let mut app = workspace();
    let overlay = app.create_overlay("Live", 100, 100).unwrap();
    let widget = app.add_widget(overlay, TextWidget::new("hello")).unwrap();
    let mut values = TextEditorValues::from_widget(app.selected_widget().unwrap());
    values.name = "Greeting".to_owned();
    values.content = "hi".to_owned();
    values.font_family = FontFamily::JetBrainsMono;
    values.position = Position::from_bits(10.0f32.to_bits(), 20.0f32.to_bits());
    values.font_size = 24.0f32.to_bits();
    values.alignment = Alignment::Right;
    apply_text_editor_values(&mut app, overlay, values).unwrap();
    let edited = app.selected_widget().unwrap();
    assert_eq!(edited.id(), widget);
    assert_eq!(edited.name(), "Greeting");
    assert_eq!(edited.content(), "hi");
    assert_eq!(edited.font_family(), FontFamily::JetBrainsMono);
    assert_eq!(f32::from_bits(edited.font_size_bits()), 24.0);
    assert_eq!(edited.alignment(), Alignment::Right);

    let mut off_canvas = TextEditorValues::from_widget(app.selected_widget().unwrap());
    off_canvas.name = "Moved".to_owned();
    off_canvas.position = Position::from_bits(101.0f32.to_bits(), 0.0f32.to_bits());
    let before = app.overlays().to_vec();
    assert!(matches!(
        apply_text_editor_values(&mut app, overlay, off_canvas),
        Err(CoordinatorError::Model(ModelError::InvalidPosition { .. }))
    ));
    assert_eq!(app.overlays(), before);
}

#[test]
fn widget_commands_need_a_selected_widget() {
    let mut app = workspace();
    assert!(matches!(duplicate_selected_widget(&mut app), Err(FormError::NoOverlaySelected)));
    let overlay = app.create_overlay("Live", 100, 100).unwrap();
    assert!(matches!(move_selected_widget(&mut app, true), Err(FormError::NoWidgetSelected)));
    let first = app.add_widget(overlay, TextWidget::new("first")).unwrap();
    let copy = duplicate_selected_widget(&mut app).unwrap();
    assert_eq!(app.selected_widget_id(), Some(copy));
    move_selected_widget(&mut app, false).unwrap();
    assert_eq!(app.overlay(overlay).unwrap().widgets()[1].id(), copy);
    assert_eq!(app.overlay(overlay).unwrap().widgets()[0].id(), first);
    move_selected_widget(&mut app, true).unwrap();
    assert_eq!(app.overlay(overlay).unwrap().widgets()[0].id(), copy);
}

fn click_create(forms: &mut FormState, app: &mut HeadlessCoordinator<LocalHub>, name: &str, width: &str, height: &str) -> Result<(), FormError> {
    forms.begin_create();
    forms.set_create_fields(name, width, height);
    forms.create_overlay_from_form(app).map(|_| ())
}

#[test]
fn workspace_exposes_complete_lifecycle_controls() {
    let app = workspace();
    let forms = FormState::new(51_737);
    assert!(app.overlays().is_empty());
    assert!(!forms.is_create_open());
    assert!(!forms.is_rename_open());
}

#[test]
fn headless_harness_drives_create_validation_and_successful_creation() {
    let mut app = workspace();
    let mut forms = FormState::new(51_737);
    assert!(click_create(&mut forms, &mut app, "", "0", "720").is_err());
    assert!(matches!(forms.dialog_error(), Some(FormError::InvalidCanvasInput)));
    assert!(app.overlays().is_empty());
    forms.set_create_fields("Starting Soon", "1280", "720");
    forms.create_overlay_from_form(&mut app).unwrap();
    assert_eq!(app.overlays().len(), 1);
    assert_eq!(app.selected_overlay().unwrap().name(), "Starting Soon");
    assert!(app.is_dirty());
    assert!(app.selected_widget().is_none());
}

#[test]
fn headless_harness_drives_selection_and_rename() {
    let mut app = workspace();
    let mut forms = FormState::new(51_737);
    click_create(&mut forms, &mut app, "Starting Soon", "1280", "720").unwrap();
    let first_id = app.selected_overlay_id().unwrap();
    click_create(&mut forms, &mut app, "Be Right Back", "640", "360").unwrap();
    select_named(&mut app, "Starting Soon").unwrap();
    assert_eq!(app.selected_overlay_id(), Some(first_id));
    forms.begin_rename(&app).unwrap();
    forms.set_rename_field("Live Soon");
    forms.apply_rename(&mut app).unwrap();
    assert_eq!(app.selected_overlay_id(), Some(first_id));
    assert_eq!(app.selected_overlay().unwrap().name(), "Live Soon");
}

#[test]
fn delete_cancel_and_confirm_are_target_specific() {
    let mut app = workspace();
    let mut forms = FormState::new(51_737);
    click_create(&mut forms, &mut app, "First", "320", "240").unwrap();
    click_create(&mut forms, &mut app, "Second", "640", "480").unwrap();
    select_named(&mut app, "First").unwrap();
    let first_id = app.selected_overlay_id().unwrap();
    forms.begin_delete(&app).unwrap();
    forms.cancel_dialogs();
    assert!(app.overlay(first_id).is_some());
    forms.begin_delete(&app).unwrap();
    forms.confirm_delete(&mut app).unwrap();
    assert!(app.overlay(first_id).is_none());
    assert_eq!(app.selected_overlay().unwrap().name(), "Second");
}

#[test]
fn form_error_messages() {
    assert_eq!(
        FormError::InvalidCanvasInput.message("", ""),
        "Canvas width and height must be positive whole numbers."
    );
    assert_eq!(
        FormError::PortSave(SettingsError::Serialize("out of memory".to_owned())).message("", ""),
        "Could not save port for next launch: could not serialize settings: out of memory"
    );
    assert_eq!(
        FormError::Operation(CoordinatorError::Model(ModelError::EmptyName))
            .message("", ""),
        "overlay name cannot be empty"
    );
    assert_eq!(FormError::UnknownOverlayName("Intro".to_owned()).message("", ""), "unknown control: Intro");
}

/// The settings panel as the window shows it, for label checks.
fn panel(settings: &SettingsState, forms: &FormState, active_port: Option<u16>) -> Vec<String> {
    let path_text = settings.settings_path().map(|path| path.display().to_string());
    settings_panel_lines(settings, forms, path_text.as_deref(), active_port)
}

fn has_label(lines: &[String], label: &str) -> bool {
    lines.iter().any(|text| text == label || text.contains(label))
}

/// Saves the port field as the window's save button does, with `written` as
/// the outcome of writing the settings file.
fn save_port(
    settings: &mut SettingsState,
    forms: &mut FormState,
    written: Result<(), SettingsError>,
) -> Result<(), FormError> {
    let port = forms.begin_port_save()?;
    let written = match settings.save_request(port) {
        Ok(_) => written,
        Err(error) => Err(error),
    };
    let written = settings.finish_save_port(port, written);
    forms.finish_port_save(written)
}

fn settings_at_4000() -> (SettingsState, PathBuf) {
    let settings_path = PathBuf::from("config").join("settings.json");
    let settings = SettingsState::from_settings(
        SettingsStore::at(settings_path.clone()),
        Settings::new(4_000).expect("valid settings"),
    );
    (settings, settings_path)
}

#[test]
fn settings_controls_show_port_path_and_restart_semantics() {
    let (settings, settings_path) = settings_at_4000();
    let forms = FormState::new(settings.display_port());
    let lines = panel(&settings, &forms, None);

    assert!(has_label(&lines, "Local server settings"));
    assert!(has_label(&lines, "Current configured port: 4000"));
    assert!(has_label(&lines, "Next-launch port: 4000"));
    assert!(has_label(&lines, &format!("Settings path: {}", settings_path.display())));
    assert!(has_label(&lines, "Port for next launch (1\u{2013}65535)"));
    assert!(has_label(&lines, "Save port for next launch"));
    assert!(has_label(&lines, "Port changes take effect only after restarting Chikachika."));
}

#[test]
fn settings_save_is_separate_from_overlay_save_and_updates_only_settings() {
    let (mut settings, _) = settings_at_4000();
    let mut forms = FormState::new(settings.display_port());
    let mut app = workspace();
    forms.begin_create();
    forms.set_create_fields("Unsaved", "320", "240");
    forms.create_overlay_from_form(&mut app).expect("create overlay");
    assert!(app.is_dirty());

    forms.set_port_field("4_001");
    assert!(save_port(&mut settings, &mut forms, Ok(())).is_err());
    forms.set_port_field("4001");
    save_port(&mut settings, &mut forms, Ok(())).expect("save next-launch port");

    assert_eq!(settings.configured_port(), Some(4_001));
    assert!(settings.settings_error().is_none());
    assert!(app.is_dirty());
    let lines = panel(&settings, &forms, None);
    assert!(has_label(&lines, "Port saved for next launch."));
    assert!(has_label(&lines, "Changes take effect after restarting Chikachika."));
}

#[test]
fn failed_settings_save_preserves_previous_value_and_error() {
    let (mut settings, settings_path) = settings_at_4000();
    let mut forms = FormState::new(settings.display_port());
    forms.set_port_field("4001");
    let refused = SettingsError::Replace {
        path: settings_path.display().to_string(),
        source: "Is a directory (os error 21)".to_owned(),
    };
    assert!(save_port(&mut settings, &mut forms, Err(refused)).is_err());

    assert_eq!(settings.configured_port(), Some(4_000));
    assert!(settings.settings_error().is_none());
    let lines = panel(&settings, &forms, None);
    assert!(has_label(&lines, "Could not save port for next launch:"));
    assert!(has_label(&lines, "The previous configured port remains unchanged."));
    assert!(!has_label(&lines, "Port saved for next launch."));
}

#[test]
fn invalid_settings_show_recovery_guidance_and_can_be_repaired() {
    let settings_path = PathBuf::from("config").join("settings.json");
    let malformed = SettingsError::Malformed {
        path: settings_path.display().to_string(),
        source: "expected value at line 1 column 1".to_owned(),
    };
    let mut settings =
        SettingsState::from_load_result(SettingsStore::at(settings_path), Err(malformed));
    assert!(!settings.is_valid());
    let mut forms = FormState::new(settings.display_port());
    let lines = panel(&settings, &forms, None);

    assert!(has_label(&lines, "Current configured port: unavailable"));
    assert!(has_label(&lines, "Settings error:"));
    assert!(has_label(&lines, "First copy the exact settings source to a separate backup location."));
    assert!(has_label(&lines, "Then repair it or move it aside yourself, and restart Chikachika."));
    assert!(has_label(&lines, "No fallback port is used while settings are invalid."));
    assert!(!has_label(&lines, "remove the settings source"));

    forms.set_port_field("4001");
    save_port(&mut settings, &mut forms, Ok(())).expect("repair settings by saving a valid port");
    assert!(settings.is_valid());
    assert_eq!(settings.configured_port(), Some(4_001));
    assert!(settings.settings_error().is_none());
    assert!(has_label(&panel(&settings, &forms, None), "Port saved for next launch."));
}

#[test]
fn settings_panel_lists_every_line_in_order() {
    let unavailable = SettingsState::unavailable(SettingsError::AppLocalDirectoryUnavailable);
    let forms = FormState::new(unavailable.display_port());
    assert_eq!(
        panel(&unavailable, &forms, Some(51_737)),
        vec![
            "Local server settings",
            "Current configured port: unavailable",
            "Next-launch port: unavailable",
            "Display-only default: 51737 (not used while settings are invalid).",
            "Settings path: unavailable",
            "Running server remains on port 51737 until restart.",
            "Settings error: the platform app-local settings directory is unavailable",
            "First copy the exact settings source to a separate backup location. Then repair it or move it aside yourself, and restart Chikachika.",
            "No fallback port is used while settings are invalid.",
            "Port for next launch (1\u{2013}65535)",
            "Save port for next launch",
            "Port changes take effect only after restarting Chikachika.",
        ]
    );
}

#[test]
fn widget_mutations_use_ids_and_keep_inspector_target_stable() {
    let mut coordinator = workspace();
    let overlay_id = coordinator.create_overlay("Live", 320, 240).unwrap();
    let first = coordinator.add_widget(overlay_id, TextWidget::new("First")).unwrap();
    let second = coordinator.add_widget(overlay_id, TextWidget::new("Second")).unwrap();
    assert_eq!(coordinator.selected_widget_id(), Some(second));
    apply_text_editor_values(
        &mut coordinator,
        overlay_id,
        TextEditorValues {
            id: second,
            name: "Renamed".to_owned(),
            content: "Changed".to_owned(),
            font_family: FontFamily::JetBrainsMono,
            position: Position::from_bits(123.0f32.to_bits(), 45.0f32.to_bits()),
            font_size: 42.0f32.to_bits(),
            color: chikachika::model::Color::rgba(10, 20, 30, 128),
            alignment: Alignment::Center,
        },
    )
    .unwrap();
    assert_eq!(coordinator.overlay(overlay_id).unwrap().widget(second).unwrap().name(), "Renamed");
    assert_eq!(
        coordinator.overlay(overlay_id).unwrap().widget(second).unwrap().font_family(),
        FontFamily::JetBrainsMono
    );
    coordinator.move_widget_backward(overlay_id, second).unwrap();
    assert_eq!(coordinator.selected_widget_id(), Some(second));
    coordinator.delete_selected_widget().unwrap();
    assert_eq!(coordinator.selected_widget_id(), Some(first));
}

#[test]
fn save_if_dirty_writes_only_unsaved_changes() {
    let mut coordinator = workspace();
    let mut writes = 0;
    assert!(matches!(coordinator.save_if_dirty(|_, _| { writes += 1; Ok(()) }), Ok(false)));
    assert_eq!(writes, 0);
    let id = coordinator.create_overlay("Live", 320, 240).unwrap();
    assert!(coordinator.is_dirty());
    let refused = chikachika::persistence::PersistenceError::Replace {
        path: "overlays.json".to_owned(),
        source: "denied".to_owned(),
    };
    let failed = coordinator.save_if_dirty(|_, content| {
        assert_eq!(content.len(), 1);
        Err(refused.clone())
    });
    assert!(matches!(failed, Err(CoordinatorError::Persistence(_))));
    assert!(coordinator.is_dirty());
    let mut written = Vec::new();
    assert!(matches!(
        coordinator.save_if_dirty(|store, content| {
            assert_eq!(store.path(), &PathBuf::from("overlays.json"));
            written = content.iter().map(|o| o.id()).collect();
            Ok(())
        }),
        Ok(true)
    ));
    assert_eq!(written, vec![id]);
    assert!(!coordinator.is_dirty());
    assert!(coordinator.last_error().is_none());
}
