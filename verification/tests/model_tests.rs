use chikachika::ids::{OverlayId, TextWidgetId};
use chikachika::model::{
    validate_collection, Alignment, CanvasSize, Color, FontFamily, ModelError, Overlay, Position,
    TextWidget,
};

fn bits(value: f32) -> u32 {
    value.to_bits()
}

fn canvas() -> CanvasSize {
    CanvasSize::new(1920, 1080).unwrap()
}

fn overlay() -> Overlay {
    Overlay::new("Starting Soon", canvas()).unwrap()
}

fn position(x: f32, y: f32) -> Position {
    Position::from_bits(bits(x), bits(y))
}

#[test]
fn ordered_widget_mutations() {
    let mut overlay = overlay();
    let back = overlay.add_widget(TextWidget::new("back")).unwrap();
    let front = overlay.add_widget(TextWidget::new("front")).unwrap();
    assert_eq!(
        overlay.widgets().iter().map(TextWidget::id).collect::<Vec<_>>(),
        vec![front, back]
    );
    overlay.move_widget_backward(front).unwrap();
    assert_eq!(overlay.widgets()[1].id(), front);
    overlay.move_widget_forward(front).unwrap();
    assert_eq!(overlay.widgets()[0].id(), front);
    let copy = overlay.duplicate_widget(back).unwrap();
    assert_eq!(overlay.widgets()[0].id(), copy);
    assert_eq!(overlay.widget(copy).unwrap().name(), "back Copy");
    overlay.delete_widget(copy).unwrap();
    assert!(overlay.widget(copy).is_none());
}

#[test]
fn widget_names_and_duplicate_identity() {
    let mut overlay = overlay();
    let id = overlay.add_widget(TextWidget::new("  Hello  \nsecond")).unwrap();
    assert_eq!(overlay.widget(id).unwrap().name(), "Hello");
    let copy = overlay.duplicate_widget(id).unwrap();
    assert_ne!(id, copy);
    assert_eq!(overlay.widget(copy).unwrap().content(), "  Hello  \nsecond");
    assert_eq!(uuid::Uuid::from_u128(copy.as_u128()).get_version_num(), 4);
    assert_eq!(overlay.rename_widget(id, "  ").unwrap_err(), ModelError::EmptyName);
}

#[test]
fn widget_property_edits_and_bounds() {
    let mut overlay = overlay();
    let id = overlay
        .add_widget(
            TextWidget::with_all_properties(
                "Name",
                "text",
                FontFamily::JetBrainsMono,
                Position::origin(),
                bits(22.0),
                Color::rgb(1, 2, 3),
                Alignment::Center,
            )
            .unwrap(),
        )
        .unwrap();
    overlay.set_widget_font_family(id, FontFamily::NotoSans).unwrap();
    overlay.set_widget_position(id, position(1920.0, 1080.0)).unwrap();
    assert_eq!(
        overlay.set_widget_position(id, position(1921.0, 0.0)),
        Err(ModelError::InvalidPosition { x: bits(1921.0), y: bits(0.0) })
    );
    assert_eq!(
        overlay.set_widget_font_size(id, bits(f32::NAN)),
        Err(ModelError::InvalidFontSize { value: bits(f32::NAN) })
    );
    assert_eq!(overlay.widget(id).unwrap().font_family(), FontFamily::NotoSans);
}

#[test]
fn collection_identity_validation() {
    let overlay = overlay();
    assert_eq!(
        Overlay::from_parts(OverlayId::from_u128(0), "x".to_owned(), canvas(), vec![]),
        Err(ModelError::InvalidOverlayId { id: OverlayId::from_u128(0) })
    );
    assert!(validate_collection(&[overlay.clone(), overlay]).is_err());
    let invalid = TextWidget::from_parts(
        TextWidgetId::from_u128(0),
        "x".to_owned(),
        "x".to_owned(),
        FontFamily::DEFAULT,
        Position::origin(),
        bits(16.0),
        Color::white(),
        Alignment::Left,
    );
    assert!(invalid.is_err());
}

#[test]
fn equality_is_durable_content_only() {
    let mut first = overlay();
    let mut second = first.clone();
    assert_eq!(first, second);
    first.add_widget(TextWidget::new("hello")).unwrap();
    assert_ne!(first, second);
    second.add_widget(TextWidget::new("hello")).unwrap();
    assert_ne!(first, second);
    assert_eq!(first, first.clone());
    assert!(first.same_content(&first.clone()));
    assert!(!first.same_content(&second));
}

#[test]
fn canvas_dimensions_must_be_non_zero() {
    assert_eq!(
        CanvasSize::new(0, 10),
        Err(ModelError::InvalidCanvasSize { width: 0, height: 10 })
    );
    let c = CanvasSize::new(320, 240).unwrap();
    assert_eq!((c.width(), c.height()), (320, 240));
}

#[test]
fn font_family_identifiers_parse_back() {
    for family in [FontFamily::NotoSans, FontFamily::JetBrainsMono] {
        assert_eq!(FontFamily::parse(family.id()), Ok(family));
    }
    assert_eq!(FontFamily::NotoSans.id(), "noto-sans");
    assert_eq!(FontFamily::JetBrainsMono.display_name(), "JetBrains Mono");
    assert_eq!(
        FontFamily::parse("comic-sans"),
        Err(ModelError::UnknownFontFamily { value: "comic-sans".to_owned() })
    );
}

#[test]
fn colors_keep_their_channels() {
    let c = Color::rgba(4, 5, 6, 7);
    assert_eq!((c.red(), c.green(), c.blue(), c.alpha()), (4, 5, 6, 7));
    assert_eq!(Color::rgb(1, 2, 3).alpha(), 255);
    assert_eq!(Color::white(), Color::rgba(255, 255, 255, 255));
}

#[test]
fn negative_zero_position_equals_origin_and_nan_is_refused() {
    let mut overlay = overlay();
    let id = overlay.add_widget(TextWidget::new("x")).unwrap();
    let mut other = overlay.clone();
    other.set_widget_position(id, position(-0.0, 0.0)).unwrap();
    assert!(overlay.same_content(&other));
    assert!(overlay.set_widget_position(id, position(f32::NAN, 0.0)).is_err());
    assert!(overlay.set_widget_position(id, position(-1.0, 0.0)).is_err());
    assert!(overlay.set_widget_font_size(id, bits(0.0)).is_err());
    assert!(overlay.set_widget_font_size(id, bits(f32::INFINITY)).is_err());
    overlay.set_widget_font_size(id, bits(0.5)).unwrap();
}

#[test]
fn moving_forward_then_backward_restores_order() {
    let mut overlay = overlay();
    let a = overlay.add_widget(TextWidget::new("a")).unwrap();
    let b = overlay.add_widget(TextWidget::new("b")).unwrap();
    let c = overlay.add_widget(TextWidget::new("c")).unwrap();
    let before = overlay.clone();
    overlay.move_widget_forward(a).unwrap();
    assert_eq!(
        overlay.widgets().iter().map(TextWidget::id).collect::<Vec<_>>(),
        vec![c, a, b]
    );
    overlay.move_widget_backward(a).unwrap();
    assert_eq!(overlay, before);
    overlay.move_widget_forward(c).unwrap();
    assert_eq!(overlay, before);
}

#[test]
fn default_widget_name_is_first_non_blank_line() {
    assert_eq!(chikachika::text::default_widget_name("\n  \n  Title  \nrest"), "Title");
    assert_eq!(TextWidget::new("").name(), "Text");
}

#[test]
fn model_error_messages() {
    assert_eq!(
        ModelError::InvalidCanvasSize { width: 0, height: 720 }.message("", ""),
        "canvas dimensions must be non-zero (got 0x720)"
    );
    assert_eq!(
        ModelError::InvalidPosition { x: bits(-1.5), y: bits(2.0) }.message("-1.5", "2"),
        "text position is invalid or outside the canvas (-1.5, 2)"
    );
    assert_eq!(
        ModelError::InvalidFontSize { value: bits(0.0) }.message("0", ""),
        "font size must be finite and greater than zero (got 0)"
    );
    let id = TextWidgetId::from_u128(0x0123_4567_89ab_4cde_8f01_2345_6789_abcd);
    assert_eq!(
        ModelError::TextWidgetNotFound { id }.message("", ""),
        "text widget 01234567-89ab-4cde-8f01-23456789abcd was not found"
    );
    assert_eq!(
        ModelError::UnknownFontFamily { value: "Comic".to_owned() }.message("", ""),
        "unknown font family Comic"
    );
}

#[test]
fn positions_and_widgets_compare_as_binary32_values() {
    assert_eq!(position(0.0, 1.0), position(-0.0, 1.0));
    assert_ne!(position(f32::NAN, 1.0), position(f32::NAN, 1.0));
    let a = TextWidget::with_all_properties(
        "A", "a", FontFamily::NotoSans, position(0.0, 0.0), 10.0f32.to_bits(),
        Color::white(), Alignment::Left,
    )
    .unwrap();
    let mut b = a.clone();
    assert!(a == b);
    let mut o = overlay();
    o.add_widget(a.clone()).unwrap();
    let copy = o.clone();
    assert!(o == copy);
    b = TextWidget::with_all_properties(
        "B", "a", FontFamily::NotoSans, position(0.0, 0.0), 10.0f32.to_bits(),
        Color::white(), Alignment::Left,
    )
    .unwrap();
    assert!(a != b);
}
