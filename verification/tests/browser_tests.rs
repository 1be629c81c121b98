use chikachika::browser::{
    alignment_css, embedded_index_html, embedded_script, embedded_styles, font_css, project,
    render_page, render_text_widget, BrowserAlignment, BrowserTextWidget, WidgetNumbers,
};
use chikachika::model::{Alignment, CanvasSize, Color, FontFamily, Overlay, Position, TextWidget};

fn empty_overlay() -> Overlay {
    Overlay::new("Starting Soon", CanvasSize::new(1280, 720).unwrap()).unwrap()
}

fn position(x: f32, y: f32) -> Position {
    Position::from_bits(x.to_bits(), y.to_bits())
}

/// The numbers of a widget as the application writes them.
fn numbers(widget: &BrowserTextWidget) -> WidgetNumbers {
    WidgetNumbers {
        x: f32::from_bits(widget.position().x_bits()).to_string(),
        y: f32::from_bits(widget.position().y_bits()).to_string(),
        font_size: f32::from_bits(widget.font_size_bits()).to_string(),
        alpha: (widget.color().alpha() as f32 / 255.0).to_string(),
    }
}

fn render(overlay: &Overlay, revision: u64) -> String {
    let representation = project(overlay, revision);
    let numbers = representation.widgets().iter().map(numbers).collect::<Vec<_>>();
    render_page(&representation, &numbers)
}

#[test]
fn browser_multi_widget_projection_and_html() {
    let mut overlay = empty_overlay();
    let back = overlay
        .add_widget(
            TextWidget::with_all_properties(
                "Back",
                "safe <back>",
                FontFamily::NotoSans,
                position(12.5, 34.25),
                42.5f32.to_bits(),
                Color::rgba(10, 20, 30, 128),
                Alignment::Center,
            )
            .unwrap(),
        )
        .unwrap();
    let front = overlay
        .add_widget(
            TextWidget::with_all_properties(
                "Front",
                "front & safe",
                FontFamily::JetBrainsMono,
                Position::origin(),
                16.0f32.to_bits(),
                Color::white(),
                Alignment::Right,
            )
            .unwrap(),
        )
        .unwrap();
    let representation = project(&overlay, 37);
    assert_eq!(representation.revision(), 37);
    assert_eq!(
        representation.widgets().iter().map(|w| w.widget_id().to_owned()).collect::<Vec<_>>(),
        vec![front.to_string(), back.to_string()]
    );
    assert_eq!(representation.widgets()[0].font_family(), "jetbrains-mono");
    assert_eq!(font_css(representation.widgets()[0].font_family()), "'JetBrains Mono', monospace");
    let html = render(&overlay, 37);
    let front_position = html.find(&format!("data-widget-id=\"{}\"", front.to_string())).unwrap();
    let back_position = html.find(&format!("data-widget-id=\"{}\"", back.to_string())).unwrap();
    assert!(back_position < front_position);
    assert!(html.contains("safe &lt;back&gt;"));
    assert!(html.contains("font-family: 'JetBrains Mono', monospace;"));
    assert!(html.contains("background: transparent !important;"));
}

#[test]
fn widget_element_writes_every_property() {
    let mut overlay = empty_overlay();
    overlay
        .add_widget(
            TextWidget::with_all_properties(
                "Quote \"A\"",
                "a & b",
                FontFamily::NotoSans,
                position(12.5, 34.25),
                42.5f32.to_bits(),
                Color::rgba(10, 20, 30, 51),
                Alignment::Center,
            )
            .unwrap(),
        )
        .unwrap();
    let representation = project(&overlay, 1);
    let widget = &representation.widgets()[0];
    assert_eq!(
        render_text_widget(widget, &numbers(widget)),
        format!(
            "<span class=\"chikachika-text\" data-widget-id=\"{}\" data-widget-name=\"Quote &quot;A&quot;\" \
             style=\"left: 12.5px; top: 34.25px; font-size: 42.5px; font-family: 'Noto Sans', sans-serif; \
             color: rgba(10, 20, 30, 0.2); text-align: center;\">a &amp; b</span>",
            widget.widget_id()
        )
    );
}

#[test]
fn page_fills_every_placeholder() {
    let overlay = empty_overlay();
    let html = render(&overlay, 3);
    assert!(!html.contains("{{CHIKACHIKA_"));
    assert!(html.contains("style=\"width: 1280px; height: 720px;\"></div>"));
    assert!(html.contains("ChikachikaOverlay"));
}

#[test]
fn empty_projection_has_ordered_array_and_explicit_revision() {
    let overlay = empty_overlay();
    let representation = project(&overlay, 9);
    assert!(representation.widgets().is_empty());
    assert_eq!(representation.revision(), 9);
    assert_eq!(representation.overlay_id(), overlay.id().to_string());
    assert_eq!((representation.canvas().width(), representation.canvas().height()), (1280, 720));
}

#[test]
fn browser_projection_preserves_all_widget_fields() {
    let mut overlay = empty_overlay();
    let id = overlay
        .add_widget(
            TextWidget::with_all_properties(
                "Name",
                "hello",
                FontFamily::JetBrainsMono,
                position(1.0, 2.0),
                3.0f32.to_bits(),
                Color::rgba(4, 5, 6, 7),
                Alignment::Center,
            )
            .unwrap(),
        )
        .unwrap();
    let representation = project(&overlay, 1);
    let widget = &representation.widgets()[0];
    assert_eq!(widget.widget_id(), id.to_string());
    assert_eq!(widget.name(), "Name");
    assert_eq!(widget.content(), "hello");
    assert_eq!(
        (f32::from_bits(widget.position().x_bits()), f32::from_bits(widget.position().y_bits())),
        (1.0, 2.0)
    );
    assert_eq!(f32::from_bits(widget.font_size_bits()), 3.0);
    let color = widget.color();
    assert_eq!((color.red(), color.green(), color.blue(), color.alpha()), (4, 5, 6, 7));
    assert_eq!(widget.alignment(), BrowserAlignment::Center);
}

#[test]
fn embedded_assets_are_available_without_filesystem_lookup() {
    assert!(embedded_index_html().contains("{{CHIKACHIKA_TEXT_WIDGET}}"));
    assert!(embedded_styles().contains("background: transparent"));
    assert!(embedded_script().contains("ChikachikaOverlay"));
}

#[test]
fn css_values_follow_the_model() {
    assert_eq!(font_css("noto-sans"), "'Noto Sans', sans-serif");
    assert_eq!(font_css("unknown"), "'Noto Sans', sans-serif");
    assert_eq!(alignment_css(BrowserAlignment::Left), "left");
    assert_eq!(alignment_css(BrowserAlignment::Center), "center");
    assert_eq!(alignment_css(BrowserAlignment::Right), "right");
    for placeholder in [
        "{{CHIKACHIKA_STYLES}}",
        "{{CHIKACHIKA_SCRIPT}}",
        "{{CHIKACHIKA_CANVAS_WIDTH}}",
        "{{CHIKACHIKA_CANVAS_HEIGHT}}",
    ] {
        assert!(embedded_index_html().contains(placeholder));
    }
}

#[test]
fn html_escaping_covers_markup_characters() {
    assert_eq!(
        chikachika::text::escape_html("<a href=\"x\">'&'</a>"),
        "&lt;a href=&quot;x&quot;&gt;&#39;&amp;&#39;&lt;/a&gt;"
    );
    assert_eq!(chikachika::text::escape_html("plain ✓"), "plain ✓");
}
