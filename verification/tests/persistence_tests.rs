use std::path::PathBuf;

use chikachika::ids::{OverlayId, TextWidgetId};
use chikachika::model::{Alignment, Color, FontFamily, ModelError, Overlay, Position, TextWidget};
use chikachika::persistence::{
    check_format_version, encode_document, read_overlays, to_document, PersistedAlignment,
    PersistedCanvasSize, PersistedColor, PersistedOverlay, PersistedPosition, PersistedTextWidget,
    PersistenceError, Store, FILE_NAME, FORMAT_VERSION,
};

fn sample_overlay() -> Overlay {
    let mut overlay = Overlay::with_dimensions("Live Soon", 1920, 1080).unwrap();
    let first = TextWidget::with_all_properties(
        "First",
        "Be right back",
        FontFamily::JetBrainsMono,
        Position::from_bits(123.5f32.to_bits(), 456.25f32.to_bits()),
        32.0f32.to_bits(),
        Color::rgba(10, 20, 30, 40),
        Alignment::Right,
    )
    .unwrap();
    let first_id = overlay.add_widget(first).unwrap();
    overlay.duplicate_widget(first_id).unwrap();
    overlay.rename("Saved").unwrap();
    overlay
}

fn stored_widget(id: u128, family: &str) -> PersistedTextWidget {
    PersistedTextWidget {
        id,
        name: "x".to_owned(),
        content: "x".to_owned(),
        font_family: family.to_owned(),
        position: PersistedPosition { x: 0.0f32.to_bits(), y: 0.0f32.to_bits() },
        font_size: 16.0f32.to_bits(),
        color: PersistedColor { red: 0, green: 0, blue: 0, alpha: 255 },
        alignment: PersistedAlignment::Left,
    }
}

fn stored_overlay(id: u128, widgets: Vec<PersistedTextWidget>) -> PersistedOverlay {
    PersistedOverlay {
        id,
        name: "x".to_owned(),
        canvas: PersistedCanvasSize { width: 1, height: 1 },
        widgets,
    }
}

#[test]
fn documents_round_trip_every_durable_property() {
    let original = sample_overlay();
    let doc = encode_document(std::slice::from_ref(&original)).unwrap();
    assert_eq!(doc.format_version, 2);
    assert_eq!(doc.overlays[0].widgets[0].font_family, "jetbrains-mono");
    assert_eq!(doc.overlays[0].widgets[1].alignment, PersistedAlignment::Right);
    let loaded = read_overlays(doc.overlays).unwrap();
    assert_eq!(loaded, vec![original]);
}

#[test]
fn only_format_two_is_read() {
    assert_eq!(FORMAT_VERSION, 2);
    assert_eq!(FILE_NAME, "overlays.json");
    assert!(check_format_version(2).is_ok());
    assert!(matches!(
        check_format_version(1),
        Err(PersistenceError::UnsupportedVersion { found: 1, supported: 2 })
    ));
    assert!(matches!(
        check_format_version(u64::MAX),
        Err(PersistenceError::UnsupportedVersion { found: u32::MAX, supported: 2 })
    ));
}

#[test]
fn invalid_stored_collections_are_rejected() {
    let nil = stored_overlay(0, vec![]);
    assert!(matches!(
        read_overlays(vec![nil]),
        Err(PersistenceError::InvalidModel(ModelError::InvalidOverlayId { .. }))
    ));
    let overlay_id = 0x0000_0000_0000_4000_8000_0000_0000_0001u128;
    let widget_id = 0x0000_0000_0000_4000_8000_0000_0000_0002u128;
    let bad_family = stored_overlay(overlay_id, vec![stored_widget(widget_id, "bad")]);
    assert!(matches!(
        read_overlays(vec![bad_family]),
        Err(PersistenceError::InvalidModel(ModelError::UnknownFontFamily { value })) if value == "bad"
    ));
    let twice = vec![stored_overlay(overlay_id, vec![]), stored_overlay(overlay_id, vec![])];
    assert!(matches!(
        read_overlays(twice),
        Err(PersistenceError::DuplicateOverlayId { id }) if id == OverlayId::from_u128(overlay_id)
    ));
    let shared = vec![
        stored_overlay(overlay_id, vec![stored_widget(widget_id, "noto-sans")]),
        stored_overlay(overlay_id + 2, vec![stored_widget(widget_id, "noto-sans")]),
    ];
    assert!(matches!(
        read_overlays(shared),
        Err(PersistenceError::InvalidModel(ModelError::DuplicateWidgetId { id }))
            if id == TextWidgetId::from_u128(widget_id)
    ));
    let good = vec![stored_overlay(overlay_id, vec![stored_widget(widget_id, "noto-sans")])];
    assert_eq!(read_overlays(good).unwrap().len(), 1);
}

#[test]
fn invalid_collections_are_not_written() {
    let overlay = Overlay::with_dimensions("Twice", 10, 10).unwrap();
    assert!(matches!(
        encode_document(&[overlay.clone(), overlay.clone()]),
        Err(PersistenceError::InvalidModel(ModelError::DuplicateOverlayId { .. }))
    ));
    assert_eq!(to_document(&[overlay.clone(), overlay]).overlays.len(), 2);
}

#[test]
fn stores_keep_their_exact_path() {
    let store = Store::at(PathBuf::from("nested").join(FILE_NAME));
    assert_eq!(store.path(), &PathBuf::from("nested/overlays.json"));
    assert_eq!(store.clone().path(), store.path());
}
