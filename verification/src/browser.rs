//! The browser-source projection of an overlay.
//!
//! A projection carries the overlay's durable content in model order (index
//! zero frontmost) together with a delivery revision that is passed in
//! explicitly: revisions are never read from or stored in the model.
//! Coordinates and font sizes are binary32 bit patterns; the application
//! writes them as numbers when it renders HTML and JSON.

use vstd::prelude::*;
use crate::ids::hyphenated_uuid;
use crate::model::{
    same_binary32, same_value, Alignment, Color, Overlay, OverlayView, Position, TextWidget,
    TextWidgetView,
};
use vstd::string::StringExecFns;
use vstd::std_specs::cmp::PartialEqSpecImpl;
use crate::text::{
    decimal_digits, decimal_text, escape_html, push_decimal, replace_all, replace_text, same_text,
    spec_escape_html, string_from_str,
};

verus! {

/// The page template. The placeholders are replaced when a page is rendered.
pub const INDEX_HTML: &'static str = "<!DOCTYPE html>
<html lang=\"en\">
<head>
<meta charset=\"utf-8\">
<meta name=\"viewport\" content=\"width=device-width, initial-scale=1\">
<title>Chikachika overlay</title>
<style>{{CHIKACHIKA_STYLES}}</style>
</head>
<body>
<div id=\"chikachika-canvas\" class=\"chikachika-canvas\" style=\"width: {{CHIKACHIKA_CANVAS_WIDTH}}px; height: {{CHIKACHIKA_CANVAS_HEIGHT}}px;\">{{CHIKACHIKA_TEXT_WIDGET}}</div>
<script>{{CHIKACHIKA_SCRIPT}}</script>
</body>
</html>
";

/// The page style: a transparent page for compositing in a streaming tool.
pub const STYLES: &'static str = "html, body {
  margin: 0;
  padding: 0;
  overflow: hidden;
  background: transparent !important;
}
.chikachika-canvas {
  position: relative;
  overflow: hidden;
  background: transparent;
}
.chikachika-text {
  position: absolute;
  white-space: pre;
  line-height: 1.2;
  margin: 0;
}
";

/// The page script: it follows the overlay's event stream and applies each
/// complete snapshot that is well formed and not older than the one shown,
/// keeping one node per widget identity and painting back to front.
pub const SCRIPT: &'static str = "(function () {
  'use strict';
  var MAX_REVISION = 9007199254740991;
  function isText(value) { return typeof value === 'string'; }
  function isByte(value) { return Number.isInteger(value) && value >= 0 && value <= 255; }
  function isNumber(value) { return typeof value === 'number' && isFinite(value); }
  var ChikachikaOverlay = {
    revision: -1,
    nodes: {},
    fontCss: function (font) {
      return font === 'jetbrains-mono' ? \"'JetBrains Mono', monospace\" : \"'Noto Sans', sans-serif\";
    },
    isValidWidget: function (w) {
      return !!w && isText(w.widget_id) && isText(w.name) && isText(w.content) &&
        isText(w.font_family) && !!w.position && isNumber(w.position.x) &&
        isNumber(w.position.y) && isNumber(w.font_size) && !!w.color &&
        isByte(w.color.red) && isByte(w.color.green) && isByte(w.color.blue) &&
        isByte(w.color.alpha) &&
        (w.alignment === 'left' || w.alignment === 'center' || w.alignment === 'right');
    },
    isValid: function (snapshot) {
      return !!snapshot && Number.isSafeInteger(snapshot.revision) && snapshot.revision >= 0 &&
        snapshot.revision <= MAX_REVISION && !!snapshot.canvas &&
        Number.isInteger(snapshot.canvas.width) && Number.isInteger(snapshot.canvas.height) &&
        Array.isArray(snapshot.widgets) && snapshot.widgets.every(ChikachikaOverlay.isValidWidget);
    },
    style: function (span, widget) {
      span.setAttribute('data-widget-id', widget.widget_id);
      span.setAttribute('data-widget-name', widget.name);
      span.style.left = widget.position.x + 'px';
      span.style.top = widget.position.y + 'px';
      span.style.fontSize = widget.font_size + 'px';
      span.style.fontFamily = ChikachikaOverlay.fontCss(widget.font_family);
      span.style.color = 'rgba(' + widget.color.red + ', ' + widget.color.green + ', ' +
        widget.color.blue + ', ' + (widget.color.alpha / 255) + ')';
      span.style.textAlign = widget.alignment;
      span.textContent = widget.content;
    },
    adopt: function () {
      var canvas = document.getElementById('chikachika-canvas');
      if (!canvas) { return; }
      var spans = canvas.querySelectorAll('span.chikachika-text');
      for (var i = 0; i < spans.length; i++) {
        ChikachikaOverlay.nodes[spans[i].getAttribute('data-widget-id')] = spans[i];
      }
    },
    apply: function (snapshot) {
      var canvas = document.getElementById('chikachika-canvas');
      if (!canvas || !ChikachikaOverlay.isValid(snapshot) ||
          snapshot.revision < ChikachikaOverlay.revision) {
        return false;
      }
      canvas.style.width = snapshot.canvas.width + 'px';
      canvas.style.height = snapshot.canvas.height + 'px';
      var seen = {};
      for (var i = snapshot.widgets.length - 1; i >= 0; i--) {
        var widget = snapshot.widgets[i];
        var span = ChikachikaOverlay.nodes[widget.widget_id];
        if (!span) {
          span = document.createElement('span');
          span.className = 'chikachika-text';
          ChikachikaOverlay.nodes[widget.widget_id] = span;
        }
        ChikachikaOverlay.style(span, widget);
        canvas.appendChild(span);
        seen[widget.widget_id] = true;
      }
      for (var id in ChikachikaOverlay.nodes) {
        if (Object.prototype.hasOwnProperty.call(ChikachikaOverlay.nodes, id) && !seen[id]) {
          var stale = ChikachikaOverlay.nodes[id];
          if (stale.parentNode) { stale.parentNode.removeChild(stale); }
          delete ChikachikaOverlay.nodes[id];
        }
      }
      ChikachikaOverlay.revision = snapshot.revision;
      return true;
    },
    connect: function () {
      ChikachikaOverlay.adopt();
      if (!window.EventSource) { return; }
      var path = window.location.pathname.replace(/\\/$/, '');
      var source = new EventSource(path + '/events');
      source.addEventListener('snapshot', function (event) {
        try {
          ChikachikaOverlay.apply(JSON.parse(event.data));
        } catch (error) {
          return;
        }
      });
    }
  };
  window.ChikachikaOverlay = ChikachikaOverlay;
  ChikachikaOverlay.connect();
}());
";

/// The page template, built into the library.
pub fn embedded_index_html() -> (html: &'static str)
    ensures
        html@ == INDEX_HTML@,
{
    INDEX_HTML
}

/// The page style, built into the library.
pub fn embedded_styles() -> (styles: &'static str)
    ensures
        styles@ == STYLES@,
{
    STYLES
}

/// The page script, built into the library.
pub fn embedded_script() -> (script: &'static str)
    ensures
        script@ == SCRIPT@,
{
    SCRIPT
}

/// The canvas of a projection.
#[derive(Clone, Copy, Debug, Eq, PartialEq, Structural)]
pub struct BrowserCanvas {
    width: u32,
    height: u32,
}

impl BrowserCanvas {
    pub closed spec fn spec_width(self) -> u32 {
        self.width
    }

    pub closed spec fn spec_height(self) -> u32 {
        self.height
    }

    pub fn width(self) -> (width: u32)
        ensures
            width == self.spec_width(),
    {
        self.width
    }

    pub fn height(self) -> (height: u32)
        ensures
            height == self.spec_height(),
    {
        self.height
    }
}

/// A projected position (binary32 bit patterns).
#[derive(Clone, Copy, Debug)]
pub struct BrowserPosition {
    x: u32,
    y: u32,
}

impl BrowserPosition {
    pub closed spec fn spec_x(self) -> u32 {
        self.x
    }

    pub closed spec fn spec_y(self) -> u32 {
        self.y
    }

    pub fn x_bits(self) -> (x: u32)
        ensures
            x == self.spec_x(),
    {
        self.x
    }

    pub fn y_bits(self) -> (y: u32)
        ensures
            y == self.spec_y(),
    {
        self.y
    }
}

/// A projected RGBA color.
#[derive(Clone, Copy, Debug, Eq, PartialEq, Structural)]
pub struct BrowserColor {
    red: u8,
    green: u8,
    blue: u8,
    alpha: u8,
}

impl BrowserColor {
    pub closed spec fn spec_red(self) -> u8 {
        self.red
    }

    pub closed spec fn spec_green(self) -> u8 {
        self.green
    }

    pub closed spec fn spec_blue(self) -> u8 {
        self.blue
    }

    pub closed spec fn spec_alpha(self) -> u8 {
        self.alpha
    }

    pub fn red(self) -> (red: u8)
        ensures
            red == self.spec_red(),
    {
        self.red
    }

    pub fn green(self) -> (green: u8)
        ensures
            green == self.spec_green(),
    {
        self.green
    }

    pub fn blue(self) -> (blue: u8)
        ensures
            blue == self.spec_blue(),
    {
        self.blue
    }

    pub fn alpha(self) -> (alpha: u8)
        ensures
            alpha == self.spec_alpha(),
    {
        self.alpha
    }
}

/// A projected text alignment (`"left"`, `"center"`, `"right"`).
#[derive(Clone, Copy, Debug, Eq, PartialEq, Structural)]
pub enum BrowserAlignment {
    Left,
    Center,
    Right,
}

/// The projection of an alignment.
pub open spec fn browser_alignment(a: Alignment) -> BrowserAlignment {
    match a {
        Alignment::Left => BrowserAlignment::Left,
        Alignment::Center => BrowserAlignment::Center,
        Alignment::Right => BrowserAlignment::Right,
    }
}

/// The content of a projected widget.
pub struct BrowserWidgetView {
    pub widget_id: Seq<char>,
    pub name: Seq<char>,
    pub content: Seq<char>,
    pub font_family: Seq<char>,
    pub position: BrowserPosition,
    pub font_size: u32,
    pub color: BrowserColor,
    pub alignment: BrowserAlignment,
}

/// A projected text widget.
#[derive(Debug)]
pub struct BrowserTextWidget {
    widget_id: String,
    name: String,
    content: String,
    font_family: String,
    position: BrowserPosition,
    font_size: u32,
    color: BrowserColor,
    alignment: BrowserAlignment,
}

impl View for BrowserTextWidget {
    type V = BrowserWidgetView;

    closed spec fn view(&self) -> BrowserWidgetView {
        BrowserWidgetView {
            widget_id: self.widget_id@,
            name: self.name@,
            content: self.content@,
            font_family: self.font_family@,
            position: self.position,
            font_size: self.font_size,
            color: self.color,
            alignment: self.alignment,
        }
    }
}

/// `b` is the projection of the widget `w`: its identity as UUID text, its
/// texts, its family identifier, and every other property unchanged.
pub open spec fn widget_projects(b: BrowserWidgetView, w: TextWidgetView) -> bool {
    &&& b.widget_id == hyphenated_uuid(w.id.bits())
    &&& b.name == w.name
    &&& b.content == w.content
    &&& b.font_family == w.font_family.spec_id()
    &&& b.position.spec_x() == w.position.spec_x()
    &&& b.position.spec_y() == w.position.spec_y()
    &&& b.font_size == w.font_size
    &&& b.color.spec_red() == w.color.spec_red()
    &&& b.color.spec_green() == w.color.spec_green()
    &&& b.color.spec_blue() == w.color.spec_blue()
    &&& b.color.spec_alpha() == w.color.spec_alpha()
    &&& b.alignment == browser_alignment(w.alignment)
}

impl BrowserTextWidget {
    pub fn widget_id(&self) -> (id: &str)
        ensures
            id@ == self@.widget_id,
    {
        self.widget_id.as_str()
    }

    pub fn name(&self) -> (name: &str)
        ensures
            name@ == self@.name,
    {
        self.name.as_str()
    }

    pub fn content(&self) -> (content: &str)
        ensures
            content@ == self@.content,
    {
        self.content.as_str()
    }

    pub fn font_family(&self) -> (family: &str)
        ensures
            family@ == self@.font_family,
    {
        self.font_family.as_str()
    }

    pub fn position(&self) -> (position: BrowserPosition)
        ensures
            position == self@.position,
    {
        self.position
    }

    /// The font size as a binary32 bit pattern.
    pub fn font_size_bits(&self) -> (size: u32)
        ensures
            size == self@.font_size,
    {
        self.font_size
    }

    pub fn color(&self) -> (color: BrowserColor)
        ensures
            color == self@.color,
    {
        self.color
    }

    pub fn alignment(&self) -> (alignment: BrowserAlignment)
        ensures
            alignment == self@.alignment,
    {
        self.alignment
    }
}

/// The content of a projection.
pub struct BrowserRepresentationView {
    pub overlay_id: Seq<char>,
    pub revision: u64,
    pub canvas: BrowserCanvas,
    pub widgets: Seq<BrowserWidgetView>,
}

/// The browser-source projection of an overlay at a delivery revision.
#[derive(Debug)]
pub struct BrowserRepresentation {
    overlay_id: String,
    revision: u64,
    canvas: BrowserCanvas,
    widgets: Vec<BrowserTextWidget>,
}

impl View for BrowserRepresentation {
    type V = BrowserRepresentationView;

    closed spec fn view(&self) -> BrowserRepresentationView {
        BrowserRepresentationView {
            overlay_id: self.overlay_id@,
            revision: self.revision,
            canvas: self.canvas,
            widgets: self.widgets@.map_values(|w: BrowserTextWidget| w@),
        }
    }
}

impl BrowserRepresentation {
    pub fn canvas(&self) -> (canvas: BrowserCanvas)
        ensures
            canvas == self@.canvas,
    {
        self.canvas
    }

    pub fn overlay_id(&self) -> (id: &str)
        ensures
            id@ == self@.overlay_id,
    {
        self.overlay_id.as_str()
    }

    pub fn revision(&self) -> (revision: u64)
        ensures
            revision == self@.revision,
    {
        self.revision
    }

    /// The projected widgets in model order, frontmost first.
    pub fn widgets(&self) -> (widgets: &[BrowserTextWidget])
        ensures
            widgets@.map_values(|w: BrowserTextWidget| w@) == self@.widgets,
    {
        self.widgets.as_slice()
    }
}

fn project_position(position: Position) -> (projected: BrowserPosition)
    ensures
        projected.spec_x() == position.spec_x(),
        projected.spec_y() == position.spec_y(),
{
    BrowserPosition { x: position.x_bits(), y: position.y_bits() }
}

fn project_color(color: Color) -> (projected: BrowserColor)
    ensures
        projected.spec_red() == color.spec_red(),
        projected.spec_green() == color.spec_green(),
        projected.spec_blue() == color.spec_blue(),
        projected.spec_alpha() == color.spec_alpha(),
{
    BrowserColor {
        red: color.red(),
        green: color.green(),
        blue: color.blue(),
        alpha: color.alpha(),
    }
}

fn project_alignment(alignment: Alignment) -> (projected: BrowserAlignment)
    ensures
        projected == browser_alignment(alignment),
{
    match alignment {
        Alignment::Left => BrowserAlignment::Left,
        Alignment::Center => BrowserAlignment::Center,
        Alignment::Right => BrowserAlignment::Right,
    }
}

fn project_text_widget(widget: &TextWidget) -> (projected: BrowserTextWidget)
    ensures
        widget_projects(projected@, widget@),
{
    BrowserTextWidget {
        widget_id: widget.id().to_string(),
        name: string_from_str(widget.name()),
        content: string_from_str(widget.content()),
        font_family: string_from_str(widget.font_family().id()),
        position: project_position(widget.position()),
        font_size: widget.font_size_bits(),
        color: project_color(widget.color()),
        alignment: project_alignment(widget.alignment()),
    }
}

/// Projects an overlay with an explicit delivery revision: its identity as
/// UUID text, its canvas, and every widget in model order.
pub fn project(overlay: &Overlay, revision: u64) -> (projection: BrowserRepresentation)
    ensures
        projection@.overlay_id == hyphenated_uuid(overlay@.id.bits()),
        projection@.revision == revision,
        projection@.canvas.spec_width() == overlay@.canvas.spec_width(),
        projection@.canvas.spec_height() == overlay@.canvas.spec_height(),
        projection@.widgets.len() == overlay@.widgets.len(),
        forall|i: int|
            0 <= i < overlay@.widgets.len() ==> widget_projects(
                #[trigger] projection@.widgets[i],
                overlay@.widgets[i],
            ),
{
    let source = overlay.widgets();
    let mut widgets: Vec<BrowserTextWidget> = Vec::new();
    let mut i: usize = 0;
    while i < source.len()
        invariant
            0 <= i <= source@.len(),
            crate::model::widget_views(source@) == overlay@.widgets,
            widgets@.len() == i,
            forall|k: int| 0 <= k < i ==> widget_projects(#[trigger] widgets@[k]@, source@[k]@),
        decreases source@.len() - i,
    {
        widgets.push(project_text_widget(&source[i]));
        i = i + 1;
    }
    let canvas = overlay.canvas();
    let projection = BrowserRepresentation {
        overlay_id: overlay.id().to_string(),
        revision,
        canvas: BrowserCanvas { width: canvas.width(), height: canvas.height() },
        widgets,
    };
    assert forall|k: int| 0 <= k < overlay@.widgets.len() implies widget_projects(
        #[trigger] projection@.widgets[k],
        overlay@.widgets[k],
    ) by {
        assert(projection@.widgets[k] == widgets@[k]@);
        assert(overlay@.widgets[k] == source@[k]@);
    }
    projection
}

/// A projected widget is aligned as its source widget: the page's
/// `text-align` value of the projection names the widget's own alignment,
/// `left` for left, `center` for centre and `right` for right.
pub proof fn lemma_projection_keeps_alignment(b: BrowserWidgetView, w: TextWidgetView)
    requires
        widget_projects(b, w),
    ensures
        spec_alignment_css(b.alignment) == match w.alignment {
            Alignment::Left => "left"@,
            Alignment::Center => "center"@,
            Alignment::Right => "right"@,
        },
        w.alignment == Alignment::Left ==> b.alignment == BrowserAlignment::Left,
        w.alignment == Alignment::Center ==> b.alignment == BrowserAlignment::Center,
        w.alignment == Alignment::Right ==> b.alignment == BrowserAlignment::Right,
{
}

/// Every widget of a projected overlay keeps its alignment: the `text-align`
/// value written for the `i`-th projected widget names the alignment of the
/// overlay's `i`-th widget.
pub proof fn lemma_project_keeps_alignments(
    projection: BrowserRepresentationView,
    overlay: OverlayView,
)
    requires
        projection.widgets.len() == overlay.widgets.len(),
        forall|i: int|
            0 <= i < overlay.widgets.len() ==> widget_projects(
                #[trigger] projection.widgets[i],
                overlay.widgets[i],
            ),
    ensures
        forall|i: int|
            0 <= i < overlay.widgets.len() ==> #[trigger] spec_alignment_css(
                projection.widgets[i].alignment,
            ) == match overlay.widgets[i].alignment {
                Alignment::Left => "left"@,
                Alignment::Center => "center"@,
                Alignment::Right => "right"@,
            },
{
    assert forall|i: int| 0 <= i < overlay.widgets.len() implies #[trigger] spec_alignment_css(
        projection.widgets[i].alignment,
    ) == match overlay.widgets[i].alignment {
        Alignment::Left => "left"@,
        Alignment::Center => "center"@,
        Alignment::Right => "right"@,
    } by {
        lemma_projection_keeps_alignment(projection.widgets[i], overlay.widgets[i]);
    }
}

/// The CSS font stack of a family identifier.
pub open spec fn spec_font_css(font: Seq<char>) -> Seq<char> {
    if font == "jetbrains-mono"@ {
        "'JetBrains Mono', monospace"@
    } else {
        "'Noto Sans', sans-serif"@
    }
}

/// The CSS `text-align` value of an alignment.
pub open spec fn spec_alignment_css(alignment: BrowserAlignment) -> Seq<char> {
    match alignment {
        BrowserAlignment::Left => "left"@,
        BrowserAlignment::Center => "center"@,
        BrowserAlignment::Right => "right"@,
    }
}

/// The CSS font stack of a stored family identifier; unknown identifiers
/// fall back to the default family.
pub fn font_css(font: &str) -> (css: &'static str)
    ensures
        css@ == spec_font_css(font@),
{
    if same_text(font, "jetbrains-mono") {
        "'JetBrains Mono', monospace"
    } else {
        "'Noto Sans', sans-serif"
    }
}

/// The CSS `text-align` value of an alignment.
pub fn alignment_css(alignment: BrowserAlignment) -> (css: &'static str)
    ensures
        css@ == spec_alignment_css(alignment),
{
    match alignment {
        BrowserAlignment::Left => "left",
        BrowserAlignment::Center => "center",
        BrowserAlignment::Right => "right",
    }
}


/// The decimal text of a widget's binary32 numbers, as the page writes them:
/// its coordinates, its font size, and its alpha channel as a fraction of 255.
/// Writing a binary32 number in decimal is floating-point formatting, which
/// the caller does.
#[derive(Debug)]
pub struct WidgetNumbers {
    pub x: String,
    pub y: String,
    pub font_size: String,
    pub alpha: String,
}

/// The HTML element of a widget whose numbers are written as `numbers`.
pub open spec fn widget_html(w: BrowserWidgetView, numbers: WidgetNumbers) -> Seq<char> {
    "<span class=\"chikachika-text\" data-widget-id=\""@ + spec_escape_html(w.widget_id)
        + "\" data-widget-name=\""@ + spec_escape_html(w.name) + "\" style=\"left: "@
        + numbers.x@ + "px; top: "@ + numbers.y@ + "px; font-size: "@ + numbers.font_size@
        + "px; font-family: "@ + spec_font_css(w.font_family) + "; color: rgba("@
        + decimal_digits(w.color.spec_red() as nat) + ", "@ + decimal_digits(
        w.color.spec_green() as nat,
    ) + ", "@ + decimal_digits(w.color.spec_blue() as nat) + ", "@ + numbers.alpha@
        + "); text-align: "@ + spec_alignment_css(w.alignment) + ";\">"@ + spec_escape_html(
        w.content,
    ) + "</span>"@
}

/// The HTML element of one widget.
pub fn render_text_widget(widget: &BrowserTextWidget, numbers: &WidgetNumbers) -> (html: String)
    ensures
        html@ == widget_html(widget@, *numbers),
{
    let mut html = String::new();
    html.append("<span class=\"chikachika-text\" data-widget-id=\"");
    let id = escape_html(widget.widget_id.as_str());
    html.append(id.as_str());
    html.append("\" data-widget-name=\"");
    let name = escape_html(widget.name.as_str());
    html.append(name.as_str());
    html.append("\" style=\"left: ");
    html.append(numbers.x.as_str());
    html.append("px; top: ");
    html.append(numbers.y.as_str());
    html.append("px; font-size: ");
    html.append(numbers.font_size.as_str());
    html.append("px; font-family: ");
    html.append(font_css(widget.font_family.as_str()));
    html.append("; color: rgba(");
    push_decimal(&mut html, widget.color.red() as u64);
    html.append(", ");
    push_decimal(&mut html, widget.color.green() as u64);
    html.append(", ");
    push_decimal(&mut html, widget.color.blue() as u64);
    html.append(", ");
    html.append(numbers.alpha.as_str());
    html.append("); text-align: ");
    html.append(alignment_css(widget.alignment));
    html.append(";\">");
    let content = escape_html(widget.content.as_str());
    html.append(content.as_str());
    html.append("</span>");
    assert(html@ =~= widget_html(widget@, *numbers));
    html
}

/// The elements of the widgets from index `from` on, back to front: every
/// widget behind `ws[from]` first, so that the frontmost paints last.
pub open spec fn widgets_html(ws: Seq<BrowserWidgetView>, numbers: Seq<WidgetNumbers>, from: int) -> Seq<
    char,
>
    decreases ws.len() - from,
{
    if from < 0 || from >= ws.len() {
        Seq::empty()
    } else {
        widgets_html(ws, numbers, from + 1) + widget_html(ws[from], numbers[from])
    }
}

/// The page of a projection whose widgets' numbers are written as `numbers`:
/// the template with its styles, script, canvas size and widget elements
/// filled in, in that order.
pub open spec fn page_html(p: BrowserRepresentationView, numbers: Seq<WidgetNumbers>) -> Seq<char> {
    replace_all(
        replace_all(
            replace_all(
                replace_all(
                    replace_all(INDEX_HTML@, "{{CHIKACHIKA_STYLES}}"@, STYLES@),
                    "{{CHIKACHIKA_SCRIPT}}"@,
                    SCRIPT@,
                ),
                "{{CHIKACHIKA_CANVAS_WIDTH}}"@,
                decimal_digits(p.canvas.spec_width() as nat),
            ),
            "{{CHIKACHIKA_CANVAS_HEIGHT}}"@,
            decimal_digits(p.canvas.spec_height() as nat),
        ),
        "{{CHIKACHIKA_TEXT_WIDGET}}"@,
        widgets_html(p.widgets, numbers, 0),
    )
}

/// The initial HTML page of a projection; `numbers[i]` is the decimal text
/// of the numbers of the `i`-th widget.
pub fn render_page(projection: &BrowserRepresentation, numbers: &Vec<WidgetNumbers>) -> (html: String)
    requires
        numbers@.len() == projection@.widgets.len(),
    ensures
        html@ == page_html(projection@, numbers@),
{
    let ghost ws = projection@.widgets;
    let mut widgets = String::new();
    let mut j: usize = projection.widgets.len();
    while j > 0
        invariant
            ws == projection@.widgets,
            ws.len() == projection.widgets@.len(),
            numbers@.len() == ws.len(),
            0 <= j <= ws.len(),
            widgets@ == widgets_html(ws, numbers@, j as int),
        decreases j,
    {
        j = j - 1;
        let element = render_text_widget(&projection.widgets[j], &numbers[j]);
        assert(projection.widgets@[j as int]@ == ws[j as int]);
        widgets.append(element.as_str());
    }
    proof {
        reveal_strlit("{{CHIKACHIKA_STYLES}}");
        reveal_strlit("{{CHIKACHIKA_SCRIPT}}");
        reveal_strlit("{{CHIKACHIKA_CANVAS_WIDTH}}");
        reveal_strlit("{{CHIKACHIKA_CANVAS_HEIGHT}}");
        reveal_strlit("{{CHIKACHIKA_TEXT_WIDGET}}");
    }
    let page = replace_text(INDEX_HTML, "{{CHIKACHIKA_STYLES}}", STYLES);
    let page = replace_text(page.as_str(), "{{CHIKACHIKA_SCRIPT}}", SCRIPT);
    let width = decimal_text(projection.canvas.width() as u64);
    let page = replace_text(page.as_str(), "{{CHIKACHIKA_CANVAS_WIDTH}}", width.as_str());
    let height = decimal_text(projection.canvas.height() as u64);
    let page = replace_text(page.as_str(), "{{CHIKACHIKA_CANVAS_HEIGHT}}", height.as_str());
    replace_text(page.as_str(), "{{CHIKACHIKA_TEXT_WIDGET}}", widgets.as_str())
}


/// `==` on projected positions compares the coordinates as binary32 values.
impl PartialEq for BrowserPosition {
    fn eq(&self, other: &Self) -> (equal: bool) {
        same_value(self.x, other.x) && same_value(self.y, other.y)
    }
}

impl PartialEqSpecImpl for BrowserPosition {
    open spec fn obeys_eq_spec() -> bool {
        true
    }

    open spec fn eq_spec(&self, other: &Self) -> bool {
        same_binary32(self.spec_x(), other.spec_x()) && same_binary32(self.spec_y(), other.spec_y())
    }
}

} // verus!
