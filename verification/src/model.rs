//! Framework-independent ordered overlay document model.
//!
//! The model owns durable overlay content only. Selection, delivery revisions,
//! persistence, and rendering are kept elsewhere. Widgets are kept in
//! frontmost-first order: index zero is the frontmost layer.

use std::collections::HashSet;
use vstd::prelude::*;
use crate::binary32::{
    check_font_size, check_position, check_position_in_canvas, exponent_field, font_size_is_valid,
    fraction_field, is_zero, position_in_canvas, position_is_valid,
};
use crate::ids::{hyphenated_uuid, OverlayId, TextWidgetId};
use crate::text::{
    decimal_digits, default_widget_name, is_blank, is_blank_text, push_decimal, same_text,
    spec_default_widget_name, string_from_str,
};
use vstd::string::StringExecFns;
use vstd::std_specs::cmp::PartialEqSpecImpl;

verus! {

/// The fixed dimensions of an overlay canvas.
#[derive(Clone, Copy, Debug, Eq, PartialEq, Structural)]
pub struct CanvasSize {
    width: u32,
    height: u32,
}

impl CanvasSize {
    pub closed spec fn spec_width(self) -> u32 {
        self.width
    }

    pub closed spec fn spec_height(self) -> u32 {
        self.height
    }

    /// The canvas with the given dimensions.
    pub closed spec fn spec_new(width: u32, height: u32) -> CanvasSize {
        CanvasSize { width, height }
    }

    pub broadcast proof fn lemma_spec_new(width: u32, height: u32)
        ensures
            #[trigger] CanvasSize::spec_new(width, height).spec_width() == width,
            CanvasSize::spec_new(width, height).spec_height() == height,
    {
    }

    pub broadcast proof fn lemma_spec_new_of_parts(c: CanvasSize)
        ensures
            #[trigger] CanvasSize::spec_new(c.spec_width(), c.spec_height()) == c,
    {
    }

    /// Both dimensions are non-zero, as for every canvas `new` returns.
    pub open spec fn spec_is_valid(self) -> bool {
        self.spec_width() != 0 && self.spec_height() != 0
    }

    /// Every canvas has non-zero dimensions.
    #[verifier::type_invariant]
    closed spec fn nonzero(self) -> bool {
        self.width != 0 && self.height != 0
    }

    /// A canvas of the given size; both dimensions must be non-zero.
    pub fn new(width: u32, height: u32) -> (canvas: Result<Self, ModelError>)
        ensures
            match canvas {
                Ok(c) => width != 0 && height != 0 && c == CanvasSize::spec_new(width, height)
                    && c.spec_width() == width && c.spec_height() == height,
                Err(e) => (width == 0 || height == 0) && e == (ModelError::InvalidCanvasSize {
                    width,
                    height,
                }),
            },
    {
        if width == 0 || height == 0 {
            return Err(ModelError::InvalidCanvasSize { width, height });
        }
        Ok(CanvasSize { width, height })
    }

    pub fn width(self) -> (width: u32)
        ensures
            width == self.spec_width(),
    {
        self.width
    }

    pub fn height(self) -> (height: u32)
        ensures
            height == self.spec_height(),
    {
        self.height
    }
}

/// A text widget anchor position in canvas coordinates. Each coordinate is a
/// binary32 value held as its bit pattern (`f32::to_bits`).
#[derive(Clone, Copy, Debug)]
pub struct Position {
    x: u32,
    y: u32,
}

impl Position {
    pub closed spec fn spec_x(self) -> u32 {
        self.x
    }

    pub closed spec fn spec_y(self) -> u32 {
        self.y
    }

    /// The position with the given coordinate bit patterns.
    pub closed spec fn spec_new(x: u32, y: u32) -> Position {
        Position { x, y }
    }

    pub broadcast proof fn lemma_spec_new(x: u32, y: u32)
        ensures
            #[trigger] Position::spec_new(x, y).spec_x() == x,
            Position::spec_new(x, y).spec_y() == y,
    {
    }

    pub broadcast proof fn lemma_spec_new_of_parts(p: Position)
        ensures
            #[trigger] Position::spec_new(p.spec_x(), p.spec_y()) == p,
    {
    }

    /// The position with the given coordinate bit patterns.
    pub fn from_bits(x: u32, y: u32) -> (position: Self)
        ensures
            position == Position::spec_new(x, y),
            position.spec_x() == x,
            position.spec_y() == y,
    {
        Position { x, y }
    }

    /// The canvas origin (both coordinates `+0.0`).
    pub fn origin() -> (position: Self)
        ensures
            position.spec_x() == 0,
            position.spec_y() == 0,
    {
        Position { x: 0, y: 0 }
    }

    pub fn x_bits(self) -> (x: u32)
        ensures
            x == self.spec_x(),
    {
        self.x
    }

    pub fn y_bits(self) -> (y: u32)
        ensures
            y == self.spec_y(),
    {
        self.y
    }

    /// Both coordinates are finite and not less than zero.
    pub open spec fn spec_is_valid(self) -> bool {
        position_is_valid(self.spec_x(), self.spec_y())
    }

    /// The position lies on the given canvas.
    pub open spec fn spec_in_canvas(self, canvas: CanvasSize) -> bool {
        position_in_canvas(self.spec_x(), self.spec_y(), canvas.spec_width(), canvas.spec_height())
    }
}

/// An RGBA text color.
#[derive(Clone, Copy, Debug, Eq, PartialEq, Structural)]
pub struct Color {
    red: u8,
    green: u8,
    blue: u8,
    alpha: u8,
}

impl Color {
    pub closed spec fn spec_red(self) -> u8 {
        self.red
    }

    pub closed spec fn spec_green(self) -> u8 {
        self.green
    }

    pub closed spec fn spec_blue(self) -> u8 {
        self.blue
    }

    pub closed spec fn spec_alpha(self) -> u8 {
        self.alpha
    }

    /// An opaque color.
    pub fn rgb(red: u8, green: u8, blue: u8) -> (color: Self)
        ensures
            color.spec_red() == red,
            color.spec_green() == green,
            color.spec_blue() == blue,
            color.spec_alpha() == 255,
    {
        Self::rgba(red, green, blue, 255)
    }

    pub closed spec fn spec_new(red: u8, green: u8, blue: u8, alpha: u8) -> Color {
        Color { red, green, blue, alpha }
    }

    pub broadcast proof fn lemma_spec_new(red: u8, green: u8, blue: u8, alpha: u8)
        ensures
            #[trigger] Color::spec_new(red, green, blue, alpha).spec_red() == red,
            Color::spec_new(red, green, blue, alpha).spec_green() == green,
            Color::spec_new(red, green, blue, alpha).spec_blue() == blue,
            Color::spec_new(red, green, blue, alpha).spec_alpha() == alpha,
    {
    }

    pub broadcast proof fn lemma_spec_new_of_parts(c: Color)
        ensures
            #[trigger] Color::spec_new(c.spec_red(), c.spec_green(), c.spec_blue(), c.spec_alpha())
                == c,
    {
    }

    pub fn rgba(red: u8, green: u8, blue: u8, alpha: u8) -> (color: Self)
        ensures
            color == Color::spec_new(red, green, blue, alpha),
            color.spec_red() == red,
            color.spec_green() == green,
            color.spec_blue() == blue,
            color.spec_alpha() == alpha,
    {
        Color { red, green, blue, alpha }
    }

    /// Opaque white.
    pub fn white() -> (color: Self)
        ensures
            color.spec_red() == 255,
            color.spec_green() == 255,
            color.spec_blue() == 255,
            color.spec_alpha() == 255,
    {
        Self::rgb(255, 255, 255)
    }

    pub fn red(self) -> (red: u8)
        ensures
            red == self.spec_red(),
    {
        self.red
    }

    pub fn green(self) -> (green: u8)
        ensures
            green == self.spec_green(),
    {
        self.green
    }

    pub fn blue(self) -> (blue: u8)
        ensures
            blue == self.spec_blue(),
    {
        self.blue
    }

    pub open spec fn is_opaque_white(self) -> bool {
        self.spec_red() == 255 && self.spec_green() == 255 && self.spec_blue() == 255
            && self.spec_alpha() == 255
    }

    pub fn alpha(self) -> (alpha: u8)
        ensures
            alpha == self.spec_alpha(),
    {
        self.alpha
    }
}

/// Horizontal alignment for text rendering.
#[derive(Clone, Copy, Debug, Eq, PartialEq, Structural)]
pub enum Alignment {
    Left,
    Center,
    Right,
}

/// Stable font-family identifiers accepted by the document format.
#[derive(Clone, Copy, Debug, Eq, PartialEq, Structural)]
pub enum FontFamily {
    NotoSans,
    JetBrainsMono,
}

impl FontFamily {
    /// The family of new widgets.
    pub const DEFAULT: FontFamily = FontFamily::NotoSans;

    /// The stable identifier written to documents.
    pub open spec fn spec_id(self) -> Seq<char> {
        match self {
            FontFamily::NotoSans => "noto-sans"@,
            FontFamily::JetBrainsMono => "jetbrains-mono"@,
        }
    }

    /// The stable identifier written to documents.
    pub fn id(self) -> (id: &'static str)
        ensures
            id@ == self.spec_id(),
    {
        match self {
            FontFamily::NotoSans => "noto-sans",
            FontFamily::JetBrainsMono => "jetbrains-mono",
        }
    }

    pub open spec fn spec_display_name(self) -> Seq<char> {
        match self {
            FontFamily::NotoSans => "Noto Sans"@,
            FontFamily::JetBrainsMono => "JetBrains Mono"@,
        }
    }

    /// The human-readable family name.
    pub fn display_name(self) -> (name: &'static str)
        ensures
            name@ == self.spec_display_name(),
    {
        match self {
            FontFamily::NotoSans => "Noto Sans",
            FontFamily::JetBrainsMono => "JetBrains Mono",
        }
    }

    /// Parses a stable family identifier; anything else is an unknown family.
    pub fn parse(value: &str) -> (family: Result<Self, ModelError>)
        ensures
            match family {
                Ok(f) => f.spec_id() == value@,
                Err(e) => value@ != FontFamily::NotoSans.spec_id() && value@
                    != FontFamily::JetBrainsMono.spec_id() && (e matches ModelError::UnknownFontFamily {
                    value: v,
                } && v@ == value@),
            },
    {
        if same_text(value, "noto-sans") {
            Ok(FontFamily::NotoSans)
        } else if same_text(value, "jetbrains-mono") {
            Ok(FontFamily::JetBrainsMono)
        } else {
            Err(ModelError::UnknownFontFamily { value: string_from_str(value) })
        }
    }
}

/// An error constructing or mutating durable model content. Positions and
/// font sizes are reported as binary32 bit patterns.
#[derive(Debug, PartialEq)]
#[allow(inconsistent_fields)]
pub enum ModelError {
    EmptyName,
    InvalidCanvasSize { width: u32, height: u32 },
    InvalidPosition { x: u32, y: u32 },
    InvalidFontSize { value: u32 },
    InvalidOverlayId { id: OverlayId },
    OverlayIdentityChanged { expected: OverlayId, found: OverlayId },
    InvalidWidgetId { id: TextWidgetId },
    DuplicateOverlayId { id: OverlayId },
    DuplicateWidgetId { id: TextWidgetId },
    UnknownFontFamily { value: String },
    TextWidgetNotFound { id: TextWidgetId },
    WidgetAlreadyExists { id: TextWidgetId },
}

/// The user-facing text of a model error. `first` and `second` stand for the
/// decimal text of the binary32 numbers that a position or font-size error
/// carries: the x coordinate (or the font size) and the y coordinate.
pub open spec fn model_message(error: ModelError, first: Seq<char>, second: Seq<char>) -> Seq<char> {
    match error {
        ModelError::EmptyName => "overlay name cannot be empty"@,
        ModelError::InvalidCanvasSize { width, height } =>
            "canvas dimensions must be non-zero (got "@ + decimal_digits(width as nat) + "x"@
                + decimal_digits(height as nat) + ")"@,
        ModelError::InvalidPosition { .. } =>
            "text position is invalid or outside the canvas ("@ + first + ", "@ + second + ")"@,
        ModelError::InvalidFontSize { .. } =>
            "font size must be finite and greater than zero (got "@ + first + ")"@,
        ModelError::InvalidOverlayId { id } =>
            "overlay ID "@ + hyphenated_uuid(id.bits()) + " is not a non-nil UUID v4"@,
        ModelError::OverlayIdentityChanged { expected, found } =>
            "overlay mutation changed identity from "@ + hyphenated_uuid(expected.bits()) + " to "@
                + hyphenated_uuid(found.bits()),
        ModelError::InvalidWidgetId { id } =>
            "widget ID "@ + hyphenated_uuid(id.bits()) + " is not a non-nil UUID v4"@,
        ModelError::DuplicateOverlayId { id } => "duplicate overlay ID "@ + hyphenated_uuid(id.bits()),
        ModelError::DuplicateWidgetId { id } => "duplicate widget ID "@ + hyphenated_uuid(id.bits()),
        ModelError::UnknownFontFamily { value } => "unknown font family "@ + value@,
        ModelError::TextWidgetNotFound { id } =>
            "text widget "@ + hyphenated_uuid(id.bits()) + " was not found"@,
        ModelError::WidgetAlreadyExists { id } =>
            "text widget "@ + hyphenated_uuid(id.bits()) + " already exists"@,
    }
}

impl ModelError {
    /// The user-facing text of this error, as `Display` writes it. Positions
    /// and font sizes are binary32 numbers whose decimal text the caller
    /// writes: `first` is that of the x coordinate or of the font size,
    /// `second` that of the y coordinate. Other variants read neither.
    pub fn message(&self, first: &str, second: &str) -> (text: String)
        ensures
            text@ == model_message(*self, first@, second@),
    {
        let mut text = String::new();
        match self {
            ModelError::EmptyName => {
                text.append("overlay name cannot be empty");
            },
            ModelError::InvalidCanvasSize { width, height } => {
                text.append("canvas dimensions must be non-zero (got ");
                push_decimal(&mut text, *width as u64);
                text.append("x");
                push_decimal(&mut text, *height as u64);
                text.append(")");
            },
            ModelError::InvalidPosition { .. } => {
                text.append("text position is invalid or outside the canvas (");
                text.append(first);
                text.append(", ");
                text.append(second);
                text.append(")");
            },
            ModelError::InvalidFontSize { .. } => {
                text.append("font size must be finite and greater than zero (got ");
                text.append(first);
                text.append(")");
            },
            ModelError::InvalidOverlayId { id } => {
                text.append("overlay ID ");
                let id_text = id.to_string();
                text.append(id_text.as_str());
                text.append(" is not a non-nil UUID v4");
            },
            ModelError::OverlayIdentityChanged { expected, found } => {
                text.append("overlay mutation changed identity from ");
                let expected_text = expected.to_string();
                text.append(expected_text.as_str());
                text.append(" to ");
                let found_text = found.to_string();
                text.append(found_text.as_str());
            },
            ModelError::InvalidWidgetId { id } => {
                text.append("widget ID ");
                let id_text = id.to_string();
                text.append(id_text.as_str());
                text.append(" is not a non-nil UUID v4");
            },
            ModelError::DuplicateOverlayId { id } => {
                text.append("duplicate overlay ID ");
                let id_text = id.to_string();
                text.append(id_text.as_str());
            },
            ModelError::DuplicateWidgetId { id } => {
                text.append("duplicate widget ID ");
                let id_text = id.to_string();
                text.append(id_text.as_str());
            },
            ModelError::UnknownFontFamily { value } => {
                text.append("unknown font family ");
                text.append(value.as_str());
            },
            ModelError::TextWidgetNotFound { id } => {
                text.append("text widget ");
                let id_text = id.to_string();
                text.append(id_text.as_str());
                text.append(" was not found");
            },
            ModelError::WidgetAlreadyExists { id } => {
                text.append("text widget ");
                let id_text = id.to_string();
                text.append(id_text.as_str());
                text.append(" already exists");
            },
        }
        assert(text@ =~= model_message(*self, first@, second@));
        text
    }
}

impl Clone for ModelError {
    fn clone(&self) -> (copy: Self)
        ensures
            copy == *self,
    {
        match self {
            ModelError::EmptyName => ModelError::EmptyName,
            ModelError::InvalidCanvasSize { width, height } => ModelError::InvalidCanvasSize {
                width: *width,
                height: *height,
            },
            ModelError::InvalidPosition { x, y } => ModelError::InvalidPosition { x: *x, y: *y },
            ModelError::InvalidFontSize { value } => ModelError::InvalidFontSize { value: *value },
            ModelError::InvalidOverlayId { id } => ModelError::InvalidOverlayId { id: *id },
            ModelError::OverlayIdentityChanged { expected, found } =>
                ModelError::OverlayIdentityChanged { expected: *expected, found: *found },
            ModelError::InvalidWidgetId { id } => ModelError::InvalidWidgetId { id: *id },
            ModelError::DuplicateOverlayId { id } => ModelError::DuplicateOverlayId { id: *id },
            ModelError::DuplicateWidgetId { id } => ModelError::DuplicateWidgetId { id: *id },
            ModelError::UnknownFontFamily { value } => ModelError::UnknownFontFamily {
                value: value.clone(),
            },
            ModelError::TextWidgetNotFound { id } => ModelError::TextWidgetNotFound { id: *id },
            ModelError::WidgetAlreadyExists { id } => ModelError::WidgetAlreadyExists { id: *id },
        }
    }
}

/// The durable properties of a text widget.
pub struct TextWidgetView {
    pub id: TextWidgetId,
    pub name: Seq<char>,
    pub content: Seq<char>,
    pub font_family: FontFamily,
    pub position: Position,
    pub font_size: u32,
    pub color: Color,
    pub alignment: Alignment,
}

/// A durable text widget.
#[derive(Debug)]
pub struct TextWidget {
    id: TextWidgetId,
    name: String,
    content: String,
    font_family: FontFamily,
    position: Position,
    font_size: u32,
    color: Color,
    alignment: Alignment,
}

impl View for TextWidget {
    type V = TextWidgetView;

    closed spec fn view(&self) -> TextWidgetView {
        TextWidgetView {
            id: self.id,
            name: self.name@,
            content: self.content@,
            font_family: self.font_family,
            position: self.position,
            font_size: self.font_size,
            color: self.color,
            alignment: self.alignment,
        }
    }
}

impl Clone for TextWidget {
    fn clone(&self) -> (copy: Self)
        ensures
            copy == *self,
    {
        TextWidget {
            id: self.id,
            name: self.name.clone(),
            content: self.content.clone(),
            font_family: self.font_family,
            position: self.position,
            font_size: self.font_size,
            color: self.color,
            alignment: self.alignment,
        }
    }
}

/// The first failure among the checks every widget's own properties pass:
/// the name must not be blank, the position must be valid and the font size
/// must be valid (in that order).
pub open spec fn widget_properties_error(name: Seq<char>, position: Position, font_size: u32) -> Option<
    ModelError,
> {
    if is_blank(name) {
        Some(ModelError::EmptyName)
    } else if !position.spec_is_valid() {
        Some(ModelError::InvalidPosition { x: position.spec_x(), y: position.spec_y() })
    } else if !font_size_is_valid(font_size) {
        Some(ModelError::InvalidFontSize { value: font_size })
    } else {
        None
    }
}

fn check_widget_properties(name: &str, position: Position, font_size: u32) -> (r: Result<
    (),
    ModelError,
>)
    ensures
        match r {
            Ok(()) => widget_properties_error(name@, position, font_size).is_none(),
            Err(e) => widget_properties_error(name@, position, font_size) == Some(e),
        },
{
    if is_blank_text(name) {
        return Err(ModelError::EmptyName);
    }
    if !check_position(position.x, position.y) {
        return Err(ModelError::InvalidPosition { x: position.x, y: position.y });
    }
    if !check_font_size(font_size) {
        return Err(ModelError::InvalidFontSize { value: font_size });
    }
    Ok(())
}

impl TextWidget {
    /// Creates a widget with a fresh version-4 identity, the default name of
    /// its content, and default presentation: Noto Sans, the origin, size 16,
    /// opaque white, left-aligned.
    pub fn new(content: &str) -> (widget: Self)
        ensures
            widget@.id.spec_is_valid(),
            widget@.name == spec_default_widget_name(content@),
            widget@.content == content@,
            widget@.font_family == FontFamily::NotoSans,
            widget@.position.spec_x() == 0 && widget@.position.spec_y() == 0,
            widget@.font_size == 0x4180_0000,
            widget@.color.is_opaque_white(),
            widget@.alignment == Alignment::Left,
    {
        TextWidget {
            id: TextWidgetId::generate(),
            name: default_widget_name(content),
            content: string_from_str(content),
            font_family: FontFamily::DEFAULT,
            position: Position::origin(),
            font_size: 0x4180_0000,
            color: Color::white(),
            alignment: Alignment::Left,
        }
    }
}


impl TextWidget {
    /// Creates a widget with the baseline presentation properties: its name is
    /// the default name of its content and its family the default one.
    pub fn with_properties(
        content: &str,
        position: Position,
        font_size: u32,
        color: Color,
        alignment: Alignment,
    ) -> (widget: Result<Self, ModelError>)
        ensures
            match widget {
                Ok(w) => widget_properties_error(spec_default_widget_name(content@), position, font_size).is_none()
                    && w@.id.spec_is_valid() && w@.name == spec_default_widget_name(content@)
                    && w@.content == content@ && w@.font_family == FontFamily::NotoSans
                    && w@.position == position && w@.font_size == font_size && w@.color == color
                    && w@.alignment == alignment,
                Err(e) => widget_properties_error(spec_default_widget_name(content@), position, font_size)
                    == Some(e),
            },
    {
        let name = default_widget_name(content);
        Self::with_all_properties(
            name.as_str(),
            content,
            FontFamily::DEFAULT,
            position,
            font_size,
            color,
            alignment,
        )
    }

    /// Creates a widget with a fresh identity and every durable property
    /// chosen by the caller. The name must not be blank, the position must be
    /// finite and non-negative, and the font size finite and positive.
    pub fn with_all_properties(
        name: &str,
        content: &str,
        font_family: FontFamily,
        position: Position,
        font_size: u32,
        color: Color,
        alignment: Alignment,
    ) -> (widget: Result<Self, ModelError>)
        ensures
            match widget {
                Ok(w) => widget_properties_error(name@, position, font_size).is_none()
                    && w@.id.spec_is_valid() && w@.name == name@ && w@.content == content@
                    && w@.font_family == font_family && w@.position == position && w@.font_size
                    == font_size && w@.color == color && w@.alignment == alignment,
                Err(e) => widget_properties_error(name@, position, font_size) == Some(e),
            },
    {
        check_widget_properties(name, position, font_size)?;
        Ok(
            TextWidget {
                id: TextWidgetId::generate(),
                name: string_from_str(name),
                content: string_from_str(content),
                font_family,
                position,
                font_size,
                color,
                alignment,
            },
        )
    }

    /// Reassembles a widget from stored parts. The identity must be a
    /// non-nil version-4 UUID; the other properties follow the rules of
    /// [`TextWidget::with_all_properties`].
    pub fn from_parts(
        id: TextWidgetId,
        name: String,
        content: String,
        font_family: FontFamily,
        position: Position,
        font_size: u32,
        color: Color,
        alignment: Alignment,
    ) -> (widget: Result<Self, ModelError>)
        ensures
            match widget {
                Ok(w) => id.spec_is_valid() && widget_properties_error(name@, position, font_size).is_none()
                    && w@ == (TextWidgetView {
                    id,
                    name: name@,
                    content: content@,
                    font_family,
                    position,
                    font_size,
                    color,
                    alignment,
                }),
                Err(e) => if !id.spec_is_valid() {
                    e == (ModelError::InvalidWidgetId { id })
                } else {
                    widget_properties_error(name@, position, font_size) == Some(e)
                },
            },
    {
        if !id.is_valid() {
            return Err(ModelError::InvalidWidgetId { id });
        }
        check_widget_properties(name.as_str(), position, font_size)?;
        Ok(TextWidget { id, name, content, font_family, position, font_size, color, alignment })
    }

    pub fn id(&self) -> (id: TextWidgetId)
        ensures
            id == self@.id,
    {
        self.id
    }

    pub fn name(&self) -> (name: &str)
        ensures
            name@ == self@.name,
    {
        self.name.as_str()
    }

    pub fn content(&self) -> (content: &str)
        ensures
            content@ == self@.content,
    {
        self.content.as_str()
    }

    pub fn font_family(&self) -> (family: FontFamily)
        ensures
            family == self@.font_family,
    {
        self.font_family
    }

    pub fn position(&self) -> (position: Position)
        ensures
            position == self@.position,
    {
        self.position
    }

    /// The font size as a binary32 bit pattern.
    pub fn font_size_bits(&self) -> (size: u32)
        ensures
            size == self@.font_size,
    {
        self.font_size
    }

    pub fn color(&self) -> (color: Color)
        ensures
            color == self@.color,
    {
        self.color
    }

    pub fn alignment(&self) -> (alignment: Alignment)
        ensures
            alignment == self@.alignment,
    {
        self.alignment
    }

    /// Whether two widgets hold the same durable content (`==` on widgets,
    /// where coordinates and sizes compare as binary32 values).
    pub fn same_content(&self, other: &TextWidget) -> (same: bool)
        ensures
            same == self@.same_content(other@),
    {
        self.id == other.id && self.name == other.name && self.content == other.content
            && self.font_family == other.font_family && same_value(self.position.x, other.position.x)
            && same_value(self.position.y, other.position.y) && same_value(
            self.font_size,
            other.font_size,
        ) && self.color == other.color && self.alignment == other.alignment
    }
}

/// A NaN bit pattern.
pub open spec fn is_nan(bits: u32) -> bool {
    exponent_field(bits) == 0xff && fraction_field(bits) != 0
}

/// Binary32 equality (`==` on `f32`): no NaN equals anything, the two zeros
/// are equal, and other values are equal exactly when their bits are.
pub open spec fn same_binary32(a: u32, b: u32) -> bool {
    !is_nan(a) && !is_nan(b) && (a == b || (is_zero(a) && is_zero(b)))
}

/// `==` on two binary32 values given by their bit patterns.
pub(crate) fn same_value(a: u32, b: u32) -> (same: bool)
    ensures
        same == same_binary32(a, b),
{
    let a_nan = (a >> 23u32) & 0xffu32 == 0xff && a & 0x7f_ffffu32 != 0;
    let b_nan = (b >> 23u32) & 0xffu32 == 0xff && b & 0x7f_ffffu32 != 0;
    !a_nan && !b_nan && (a == b || (a & 0x7fff_ffffu32 == 0 && b & 0x7fff_ffffu32 == 0))
}

impl TextWidgetView {
    /// Equality of durable content, comparing binary32 properties as values.
    pub open spec fn same_content(self, other: TextWidgetView) -> bool {
        &&& self.id == other.id
        &&& self.name == other.name
        &&& self.content == other.content
        &&& self.font_family == other.font_family
        &&& same_binary32(self.position.spec_x(), other.position.spec_x())
        &&& same_binary32(self.position.spec_y(), other.position.spec_y())
        &&& same_binary32(self.font_size, other.font_size)
        &&& self.color == other.color
        &&& self.alignment == other.alignment
    }
}

/// Pairwise equality of durable content of two widget sequences.
pub open spec fn same_widgets(a: Seq<TextWidgetView>, b: Seq<TextWidgetView>) -> bool {
    a.len() == b.len() && forall|i: int| 0 <= i < a.len() ==> (#[trigger] a[i]).same_content(b[i])
}

/// The properties of each widget of a sequence.
pub open spec fn widget_views(ws: Seq<TextWidget>) -> Seq<TextWidgetView> {
    ws.map_values(|w: TextWidget| w@)
}

/// The index of the first widget with the given identity, or -1.
pub open spec fn widget_index(ws: Seq<TextWidgetView>, id: TextWidgetId) -> int
    decreases ws.len(),
{
    if ws.len() == 0 {
        -1
    } else if ws[0].id == id {
        0
    } else {
        let rest = widget_index(ws.drop_first(), id);
        if rest < 0 {
            -1
        } else {
            rest + 1
        }
    }
}

/// The sequence holds a widget with the given identity.
pub open spec fn has_widget(ws: Seq<TextWidgetView>, id: TextWidgetId) -> bool {
    exists|i: int| 0 <= i < ws.len() && (#[trigger] ws[i]).id == id
}

/// The identities of a widget sequence, in order.
pub open spec fn widget_ids(ws: Seq<TextWidgetView>) -> Seq<TextWidgetId> {
    ws.map_values(|w: TextWidgetView| w.id)
}

pub proof fn lemma_widget_index(ws: Seq<TextWidgetView>, id: TextWidgetId)
    ensures
        -1 <= widget_index(ws, id) < ws.len(),
        widget_index(ws, id) >= 0 <==> has_widget(ws, id),
        widget_index(ws, id) >= 0 ==> ws[widget_index(ws, id)].id == id,
        forall|j: int| 0 <= j < widget_index(ws, id) ==> (#[trigger] ws[j]).id != id,
        widget_index(ws, id) < 0 ==> forall|j: int| 0 <= j < ws.len() ==> (#[trigger] ws[j]).id
            != id,
    decreases ws.len(),
{
    if ws.len() > 0 {
        let rest = ws.drop_first();
        lemma_widget_index(rest, id);
        assert forall|j: int| 1 <= j < ws.len() implies ws[j] == rest[j - 1] by {}
        if ws[0].id != id {
            if widget_index(rest, id) >= 0 {
                let r = widget_index(rest, id);
                assert(ws[r + 1] == rest[r]);
                assert(has_widget(ws, id));
                assert forall|j: int| 0 <= j < r + 1 implies (#[trigger] ws[j]).id != id by {
                    if j > 0 {
                        assert(ws[j] == rest[j - 1]);
                    }
                }
            } else {
                assert forall|j: int| 0 <= j < ws.len() implies (#[trigger] ws[j]).id != id by {
                    if j > 0 {
                        assert(ws[j] == rest[j - 1]);
                    }
                }
            }
        } else {
            assert(has_widget(ws, id));
        }
    }
}

/// Finds the first widget with the given identity.
fn find_widget(ws: &Vec<TextWidget>, id: TextWidgetId) -> (index: Option<usize>)
    ensures
        match index {
            Some(i) => i == widget_index(widget_views(ws@), id) && i < ws@.len(),
            None => widget_index(widget_views(ws@), id) < 0,
        },
{
    let ghost vs = widget_views(ws@);
    let mut i: usize = 0;
    while i < ws.len()
        invariant
            vs == widget_views(ws@),
            0 <= i <= ws@.len(),
            forall|j: int| 0 <= j < i ==> (#[trigger] vs[j]).id != id,
        decreases ws@.len() - i,
    {
        if ws[i].id == id {
            proof {
                lemma_widget_index(vs, id);
                let r = widget_index(vs, id);
                assert(vs[i as int].id == id);
                assert(has_widget(vs, id));
                if r < i {
                    assert(vs[r].id == id);
                }
            }
            return Some(i);
        }
        assert(vs[i as int].id != id);
        i = i + 1;
    }
    proof {
        lemma_widget_index(vs, id);
        if widget_index(vs, id) >= 0 {
            let r = widget_index(vs, id);
            assert(vs[r].id == id);
        }
    }
    None
}

/// The durable content of an overlay.
pub struct OverlayView {
    pub id: OverlayId,
    pub name: Seq<char>,
    pub canvas: CanvasSize,
    pub widgets: Seq<TextWidgetView>,
}

impl OverlayView {
    /// Equality of durable content (`==` on overlays).
    pub open spec fn same_content(self, other: OverlayView) -> bool {
        &&& self.id == other.id
        &&& self.name == other.name
        &&& self.canvas == other.canvas
        &&& same_widgets(self.widgets, other.widgets)
    }
}

/// The authoritative ordered overlay document. Index zero is frontmost.
#[derive(Debug)]
pub struct Overlay {
    id: OverlayId,
    name: String,
    canvas: CanvasSize,
    widgets: Vec<TextWidget>,
}

impl View for Overlay {
    type V = OverlayView;

    closed spec fn view(&self) -> OverlayView {
        OverlayView {
            id: self.id,
            name: self.name@,
            canvas: self.canvas,
            widgets: widget_views(self.widgets@),
        }
    }
}

fn clone_widgets(ws: &Vec<TextWidget>) -> (copy: Vec<TextWidget>)
    ensures
        copy@ == ws@,
{
    let mut copy: Vec<TextWidget> = Vec::new();
    let mut i: usize = 0;
    while i < ws.len()
        invariant
            0 <= i <= ws@.len(),
            copy@ == ws@.take(i as int),
        decreases ws@.len() - i,
    {
        copy.push(ws[i].clone());
        assert(ws@.take(i + 1) == ws@.take(i as int).push(ws@[i as int]));
        i = i + 1;
    }
    assert(ws@.take(ws@.len() as int) == ws@);
    copy
}

impl Clone for Overlay {
    fn clone(&self) -> (copy: Self)
        ensures
            copy@ == self@,
    {
        let copy = Overlay {
            id: self.id,
            name: self.name.clone(),
            canvas: self.canvas,
            widgets: clone_widgets(&self.widgets),
        };
        copy
    }
}

/// The first failure when reassembling an overlay's widgets from stored
/// parts, scanning from index `j`: a widget whose identity already occurred
/// earlier in the list, or whose position is not on the canvas.
pub open spec fn parts_widget_error(ws: Seq<TextWidgetView>, canvas: CanvasSize, j: int) -> Option<
    ModelError,
>
    decreases ws.len() - j,
{
    if j < 0 || j >= ws.len() {
        None
    } else if widget_ids(ws.take(j)).contains(ws[j].id) {
        Some(ModelError::DuplicateWidgetId { id: ws[j].id })
    } else if !ws[j].position.spec_in_canvas(canvas) {
        Some(
            ModelError::InvalidPosition {
                x: ws[j].position.spec_x(),
                y: ws[j].position.spec_y(),
            },
        )
    } else {
        parts_widget_error(ws, canvas, j + 1)
    }
}

impl Overlay {
    /// Creates an empty overlay with a fresh version-4 identity.
    pub fn new(name: &str, canvas: CanvasSize) -> (overlay: Result<Self, ModelError>)
        ensures
            match overlay {
                Ok(o) => !is_blank(name@) && o@.id.spec_is_valid() && o@.name == name@ && o@.canvas
                    == canvas && o@.widgets.len() == 0,
                Err(e) => is_blank(name@) && e == ModelError::EmptyName,
            },
    {
        if is_blank_text(name) {
            return Err(ModelError::EmptyName);
        }
        Ok(
            Overlay {
                id: OverlayId::generate(),
                name: string_from_str(name),
                canvas,
                widgets: Vec::new(),
            },
        )
    }

    /// Creates an empty overlay on a canvas of the given size. The canvas is
    /// checked before the name.
    pub fn with_dimensions(name: &str, width: u32, height: u32) -> (overlay: Result<
        Self,
        ModelError,
    >)
        ensures
            match overlay {
                Ok(o) => width != 0 && height != 0 && !is_blank(name@) && o@.id.spec_is_valid()
                    && o@.name == name@ && o@.canvas.spec_width() == width
                    && o@.canvas.spec_height() == height && o@.widgets.len() == 0,
                Err(e) => if width == 0 || height == 0 {
                    e == (ModelError::InvalidCanvasSize { width, height })
                } else {
                    is_blank(name@) && e == ModelError::EmptyName
                },
            },
    {
        let canvas = CanvasSize::new(width, height)?;
        Self::new(name, canvas)
    }

    /// Reassembles an overlay from stored parts. The identity must be a
    /// non-nil version-4 UUID and the name must not be blank; then no widget
    /// identity may repeat an earlier one and every position must be on the
    /// canvas.
    pub fn from_parts(id: OverlayId, name: String, canvas: CanvasSize, widgets: Vec<TextWidget>) -> (overlay: Result<Self, ModelError>)
        ensures
            match overlay {
                Ok(o) => id.spec_is_valid() && !is_blank(name@) && parts_widget_error(
                    widget_views(widgets@),
                    canvas,
                    0,
                ).is_none() && o@ == (OverlayView {
                    id,
                    name: name@,
                    canvas,
                    widgets: widget_views(widgets@),
                }),
                Err(e) => if !id.spec_is_valid() {
                    e == (ModelError::InvalidOverlayId { id })
                } else if is_blank(name@) {
                    e == ModelError::EmptyName
                } else {
                    parts_widget_error(widget_views(widgets@), canvas, 0) == Some(e)
                },
            },
    {
        if !id.is_valid() {
            return Err(ModelError::InvalidOverlayId { id });
        }
        if is_blank_text(name.as_str()) {
            return Err(ModelError::EmptyName);
        }
        broadcast use vstd::std_specs::hash::group_hash_axioms;

        let ghost vs = widget_views(widgets@);
        let mut seen: HashSet<u128> = HashSet::new();
        let mut j: usize = 0;
        while j < widgets.len()
            invariant
                vs == widget_views(widgets@),
                0 <= j <= widgets@.len(),
                id.spec_is_valid(),
                !is_blank(name@),
                forall|b: u128|
                    #[trigger] seen@.contains(b) <==> widget_ids(vs.take(j as int)).contains(
                        TextWidgetId::spec_from_bits(b),
                    ),
                parts_widget_error(vs, canvas, 0) == parts_widget_error(vs, canvas, j as int),
            decreases widgets@.len() - j,
        {
            let wid = widgets[j].id;
            let wid_bits = wid.as_u128();
            let found = seen.contains(&wid_bits);
            assert(found == seen@.contains(wid_bits));
            proof {
                TextWidgetId::lemma_from_own_bits(wid);
            }
            if found {
                return Err(ModelError::DuplicateWidgetId { id: wid });
            }
            let position = widgets[j].position;
            if !check_position_in_canvas(position.x, position.y, canvas.width, canvas.height) {
                return Err(ModelError::InvalidPosition { x: position.x, y: position.y });
            }
            let ghost earlier = widget_ids(vs.take(j as int));
            let ghost old_seen = seen@;
            seen.insert(wid_bits);
            assert(vs.take(j + 1) == vs.take(j as int).push(vs[j as int]));
            assert(widget_ids(vs.take(j + 1)) == earlier.push(wid));
            assert forall|b: u128| #[trigger] seen@.contains(b) <==> earlier.push(wid).contains(
                TextWidgetId::spec_from_bits(b),
            ) by {
                TextWidgetId::lemma_from_bits(b);
                assert(old_seen.contains(b) <==> earlier.contains(TextWidgetId::spec_from_bits(b)));
                lemma_push_contains(earlier, wid, TextWidgetId::spec_from_bits(b));
            }
            j = j + 1;
        }
        Ok(Overlay { id, name, canvas, widgets })
    }

    pub fn id(&self) -> (id: OverlayId)
        ensures
            id == self@.id,
    {
        self.id
    }

    pub fn name(&self) -> (name: &str)
        ensures
            name@ == self@.name,
    {
        self.name.as_str()
    }

    pub fn canvas(&self) -> (canvas: CanvasSize)
        ensures
            canvas == self@.canvas,
            canvas.spec_is_valid(),
    {
        proof {
            use_type_invariant(&self.canvas);
        }
        self.canvas
    }

    /// The widgets, frontmost first.
    pub fn widgets(&self) -> (widgets: &[TextWidget])
        ensures
            widget_views(widgets@) == self@.widgets,
    {
        self.widgets.as_slice()
    }

    /// The first widget with the given identity.
    pub fn widget(&self, id: TextWidgetId) -> (widget: Option<&TextWidget>)
        ensures
            match widget {
                Some(w) => widget_index(self@.widgets, id) >= 0 && w@ == self@.widgets[widget_index(
                    self@.widgets,
                    id,
                )],
                None => widget_index(self@.widgets, id) < 0,
            },
    {
        match find_widget(&self.widgets, id) {
            Some(i) => Some(&self.widgets[i]),
            None => None,
        }
    }

    /// The index of the first widget with the given identity.
    pub fn widget_index(&self, id: TextWidgetId) -> (index: Option<usize>)
        ensures
            match index {
                Some(i) => i == widget_index(self@.widgets, id),
                None => widget_index(self@.widgets, id) < 0,
            },
    {
        find_widget(&self.widgets, id)
    }

    /// Whether two overlays hold the same durable content (`==`).
    pub fn same_content(&self, other: &Overlay) -> (same: bool)
        ensures
            same == self@.same_content(other@),
    {
        if self.id != other.id || self.name != other.name || self.canvas != other.canvas
            || self.widgets.len() != other.widgets.len() {
            return false;
        }
        let mut i: usize = 0;
        while i < self.widgets.len()
            invariant
                0 <= i <= self.widgets@.len(),
                self.widgets@.len() == other.widgets@.len(),
                forall|j: int| 0 <= j < i ==> (#[trigger] self@.widgets[j]).same_content(
                    other@.widgets[j],
                ),
            decreases self.widgets@.len() - i,
        {
            assert(self@.widgets[i as int] == self.widgets@[i as int]@);
            assert(other@.widgets[i as int] == other.widgets@[i as int]@);
            if !self.widgets[i].same_content(&other.widgets[i]) {
                return false;
            }
            i = i + 1;
        }
        true
    }

    /// Renames the overlay; a blank name is refused and nothing changes.
    pub fn rename(&mut self, name: &str) -> (result: Result<(), ModelError>)
        ensures
            match result {
                Ok(()) => !is_blank(name@) && final(self)@ == (OverlayView {
                    name: name@,
                    ..old(self)@
                }),
                Err(e) => is_blank(name@) && e == ModelError::EmptyName && final(self)@ == old(
                    self,
                )@,
            },
    {
        if is_blank_text(name) {
            return Err(ModelError::EmptyName);
        }
        self.name = string_from_str(name);
        Ok(())
    }

    /// Inserts a widget at index zero (frontmost) and returns its identity.
    /// Its position must be on the canvas and its identity new to the overlay.
    pub fn add_widget(&mut self, widget: TextWidget) -> (result: Result<TextWidgetId, ModelError>)
        ensures
            match result {
                Ok(id) => widget@.position.spec_in_canvas(old(self)@.canvas) && !has_widget(
                    old(self)@.widgets,
                    widget@.id,
                ) && id == widget@.id && final(self)@ == (OverlayView {
                    widgets: seq![widget@].add(old(self)@.widgets),
                    ..old(self)@
                }),
                Err(e) => final(self)@ == old(self)@ && if !widget@.position.spec_in_canvas(
                    old(self)@.canvas,
                ) {
                    e == (ModelError::InvalidPosition {
                        x: widget@.position.spec_x(),
                        y: widget@.position.spec_y(),
                    })
                } else {
                    has_widget(old(self)@.widgets, widget@.id) && e == (
                    ModelError::WidgetAlreadyExists { id: widget@.id })
                },
            },
    {
        let position = widget.position;
        if !check_position_in_canvas(position.x, position.y, self.canvas.width, self.canvas.height) {
            return Err(ModelError::InvalidPosition { x: position.x, y: position.y });
        }
        let id = widget.id;
        proof {
            lemma_widget_index(self@.widgets, id);
        }
        if find_widget(&self.widgets, id).is_some() {
            return Err(ModelError::WidgetAlreadyExists { id });
        }
        self.widgets.insert(0, widget);
        proof {
            assert(self@.widgets =~= seq![widget@].add(old(self)@.widgets));
        }
        Ok(id)
    }
}


/// The overlay content after widget `i` is replaced by a widget with the
/// given properties.
pub open spec fn with_widget_view(o: OverlayView, i: int, w: TextWidgetView, after: OverlayView) -> bool {
    &&& after.id == o.id
    &&& after.name == o.name
    &&& after.canvas == o.canvas
    &&& after.widgets.len() == o.widgets.len()
    &&& after.widgets[i] == w
    &&& forall|j: int| 0 <= j < o.widgets.len() && j != i ==> after.widgets[j] == o.widgets[j]
}

impl Overlay {
    /// Inserts a copy of a widget at index zero under a fresh version-4
    /// identity and the name `"<name> Copy"`, returning the new identity.
    pub fn duplicate_widget(&mut self, id: TextWidgetId) -> (result: Result<TextWidgetId, ModelError>)
        ensures
            match result {
                Ok(new_id) => has_widget(old(self)@.widgets, id) && new_id.spec_is_valid() && ({
                    let source = old(self)@.widgets[widget_index(old(self)@.widgets, id)];
                    &&& final(self)@.id == old(self)@.id
                    &&& final(self)@.name == old(self)@.name
                    &&& final(self)@.canvas == old(self)@.canvas
                    &&& final(self)@.widgets.len() == old(self)@.widgets.len() + 1
                    &&& final(self)@.widgets.drop_first() == old(self)@.widgets
                    &&& final(self)@.widgets[0] == (TextWidgetView {
                        id: new_id,
                        name: source.name + " Copy"@,
                        ..source
                    })
                }),
                Err(e) => !has_widget(old(self)@.widgets, id) && e == (
                ModelError::TextWidgetNotFound { id }) && final(self)@ == old(self)@,
            },
    {
        proof {
            lemma_widget_index(self@.widgets, id);
        }
        let index = match find_widget(&self.widgets, id) {
            Some(i) => i,
            None => return Err(ModelError::TextWidgetNotFound { id }),
        };
        let source = &self.widgets[index];
        let mut name = source.name.clone();
        name.append(" Copy");
        let duplicate = TextWidget {
            id: TextWidgetId::generate(),
            name,
            content: source.content.clone(),
            font_family: source.font_family,
            position: source.position,
            font_size: source.font_size,
            color: source.color,
            alignment: source.alignment,
        };
        let duplicate_id = duplicate.id;
        self.widgets.insert(0, duplicate);
        assert(self@.widgets.drop_first() =~= old(self)@.widgets);
        Ok(duplicate_id)
    }

    /// Removes the first widget with the given identity and returns it.
    pub fn delete_widget(&mut self, id: TextWidgetId) -> (result: Result<TextWidget, ModelError>)
        ensures
            match result {
                Ok(w) => has_widget(old(self)@.widgets, id) && w@ == old(self)@.widgets[widget_index(
                    old(self)@.widgets,
                    id,
                )] && final(self)@ == (OverlayView {
                    widgets: old(self)@.widgets.remove(widget_index(old(self)@.widgets, id)),
                    ..old(self)@
                }),
                Err(e) => !has_widget(old(self)@.widgets, id) && e == (
                ModelError::TextWidgetNotFound { id }) && final(self)@ == old(self)@,
            },
    {
        proof {
            lemma_widget_index(self@.widgets, id);
        }
        let index = match find_widget(&self.widgets, id) {
            Some(i) => i,
            None => return Err(ModelError::TextWidgetNotFound { id }),
        };
        let removed = self.widgets.remove(index);
        assert(self@.widgets =~= old(self)@.widgets.remove(index as int));
        Ok(removed)
    }

    /// Renames a widget. A blank name is refused before the widget is looked up.
    pub fn rename_widget(&mut self, id: TextWidgetId, name: &str) -> (result: Result<(), ModelError>)
        ensures
            match result {
                Ok(()) => !is_blank(name@) && has_widget(old(self)@.widgets, id) && with_widget_view(
                    old(self)@,
                    widget_index(old(self)@.widgets, id),
                    TextWidgetView {
                        name: name@,
                        ..old(self)@.widgets[widget_index(old(self)@.widgets, id)]
                    },
                    final(self)@,
                ),
                Err(e) => final(self)@ == old(self)@ && if is_blank(name@) {
                    e == ModelError::EmptyName
                } else {
                    !has_widget(old(self)@.widgets, id) && e == (ModelError::TextWidgetNotFound { id })
                },
            },
    {
        if is_blank_text(name) {
            return Err(ModelError::EmptyName);
        }
        proof {
            lemma_widget_index(self@.widgets, id);
        }
        let index = match find_widget(&self.widgets, id) {
            Some(i) => i,
            None => return Err(ModelError::TextWidgetNotFound { id }),
        };
        self.widgets[index].name = string_from_str(name);
        Ok(())
    }

    /// Replaces a widget's text content.
    pub fn set_widget_content(&mut self, id: TextWidgetId, content: &str) -> (result: Result<
        (),
        ModelError,
    >)
        ensures
            match result {
                Ok(()) => has_widget(old(self)@.widgets, id) && with_widget_view(
                    old(self)@,
                    widget_index(old(self)@.widgets, id),
                    TextWidgetView {
                        content: content@,
                        ..old(self)@.widgets[widget_index(old(self)@.widgets, id)]
                    },
                    final(self)@,
                ),
                Err(e) => final(self)@ == old(self)@ && !has_widget(old(self)@.widgets, id) && e == (
                ModelError::TextWidgetNotFound { id }),
            },
    {
        proof {
            lemma_widget_index(self@.widgets, id);
        }
        let index = match find_widget(&self.widgets, id) {
            Some(i) => i,
            None => return Err(ModelError::TextWidgetNotFound { id }),
        };
        self.widgets[index].content = string_from_str(content);
        Ok(())
    }

    /// Moves a widget. The position must lie on the canvas; it is checked
    /// before the widget is looked up.
    pub fn set_widget_position(&mut self, id: TextWidgetId, position: Position) -> (result: Result<
        (),
        ModelError,
    >)
        ensures
            match result {
                Ok(()) => position.spec_in_canvas(old(self)@.canvas) && has_widget(
                    old(self)@.widgets,
                    id,
                ) && with_widget_view(
                    old(self)@,
                    widget_index(old(self)@.widgets, id),
                    TextWidgetView {
                        position,
                        ..old(self)@.widgets[widget_index(old(self)@.widgets, id)]
                    },
                    final(self)@,
                ),
                Err(e) => final(self)@ == old(self)@ && if !position.spec_in_canvas(
                    old(self)@.canvas,
                ) {
                    e == (ModelError::InvalidPosition {
                        x: position.spec_x(),
                        y: position.spec_y(),
                    })
                } else {
                    !has_widget(old(self)@.widgets, id) && e == (ModelError::TextWidgetNotFound { id })
                },
            },
    {
        if !check_position_in_canvas(position.x, position.y, self.canvas.width, self.canvas.height) {
            return Err(ModelError::InvalidPosition { x: position.x, y: position.y });
        }
        proof {
            lemma_widget_index(self@.widgets, id);
        }
        let index = match find_widget(&self.widgets, id) {
            Some(i) => i,
            None => return Err(ModelError::TextWidgetNotFound { id }),
        };
        self.widgets[index].position = position;
        Ok(())
    }

    /// Changes a widget's font size (a binary32 bit pattern). The size must
    /// be finite and positive; it is checked before the widget is looked up.
    pub fn set_widget_font_size(&mut self, id: TextWidgetId, font_size: u32) -> (result: Result<
        (),
        ModelError,
    >)
        ensures
            match result {
                Ok(()) => font_size_is_valid(font_size) && has_widget(old(self)@.widgets, id)
                    && with_widget_view(
                    old(self)@,
                    widget_index(old(self)@.widgets, id),
                    TextWidgetView {
                        font_size,
                        ..old(self)@.widgets[widget_index(old(self)@.widgets, id)]
                    },
                    final(self)@,
                ),
                Err(e) => final(self)@ == old(self)@ && if !font_size_is_valid(font_size) {
                    e == (ModelError::InvalidFontSize { value: font_size })
                } else {
                    !has_widget(old(self)@.widgets, id) && e == (ModelError::TextWidgetNotFound { id })
                },
            },
    {
        if !check_font_size(font_size) {
            return Err(ModelError::InvalidFontSize { value: font_size });
        }
        proof {
            lemma_widget_index(self@.widgets, id);
        }
        let index = match find_widget(&self.widgets, id) {
            Some(i) => i,
            None => return Err(ModelError::TextWidgetNotFound { id }),
        };
        self.widgets[index].font_size = font_size;
        Ok(())
    }

    /// Changes a widget's color.
    pub fn set_widget_color(&mut self, id: TextWidgetId, color: Color) -> (result: Result<
        (),
        ModelError,
    >)
        ensures
            match result {
                Ok(()) => has_widget(old(self)@.widgets, id) && with_widget_view(
                    old(self)@,
                    widget_index(old(self)@.widgets, id),
                    TextWidgetView { color, ..old(self)@.widgets[widget_index(old(self)@.widgets, id)] },
                    final(self)@,
                ),
                Err(e) => final(self)@ == old(self)@ && !has_widget(old(self)@.widgets, id) && e == (
                ModelError::TextWidgetNotFound { id }),
            },
    {
        proof {
            lemma_widget_index(self@.widgets, id);
        }
        let index = match find_widget(&self.widgets, id) {
            Some(i) => i,
            None => return Err(ModelError::TextWidgetNotFound { id }),
        };
        self.widgets[index].color = color;
        Ok(())
    }

    /// Changes a widget's alignment.
    pub fn set_widget_alignment(&mut self, id: TextWidgetId, alignment: Alignment) -> (result: Result<
        (),
        ModelError,
    >)
        ensures
            match result {
                Ok(()) => has_widget(old(self)@.widgets, id) && with_widget_view(
                    old(self)@,
                    widget_index(old(self)@.widgets, id),
                    TextWidgetView {
                        alignment,
                        ..old(self)@.widgets[widget_index(old(self)@.widgets, id)]
                    },
                    final(self)@,
                ),
                Err(e) => final(self)@ == old(self)@ && !has_widget(old(self)@.widgets, id) && e == (
                ModelError::TextWidgetNotFound { id }),
            },
    {
        proof {
            lemma_widget_index(self@.widgets, id);
        }
        let index = match find_widget(&self.widgets, id) {
            Some(i) => i,
            None => return Err(ModelError::TextWidgetNotFound { id }),
        };
        self.widgets[index].alignment = alignment;
        Ok(())
    }

    /// Changes a widget's font family.
    pub fn set_widget_font_family(&mut self, id: TextWidgetId, font_family: FontFamily) -> (result:
        Result<(), ModelError>)
        ensures
            match result {
                Ok(()) => has_widget(old(self)@.widgets, id) && with_widget_view(
                    old(self)@,
                    widget_index(old(self)@.widgets, id),
                    TextWidgetView {
                        font_family,
                        ..old(self)@.widgets[widget_index(old(self)@.widgets, id)]
                    },
                    final(self)@,
                ),
                Err(e) => final(self)@ == old(self)@ && !has_widget(old(self)@.widgets, id) && e == (
                ModelError::TextWidgetNotFound { id }),
            },
    {
        proof {
            lemma_widget_index(self@.widgets, id);
        }
        let index = match find_widget(&self.widgets, id) {
            Some(i) => i,
            None => return Err(ModelError::TextWidgetNotFound { id }),
        };
        self.widgets[index].font_family = font_family;
        Ok(())
    }

    /// Moves a widget one layer toward the front (toward index zero). At the
    /// front this is a successful no-op.
    pub fn move_widget_forward(&mut self, id: TextWidgetId) -> (result: Result<(), ModelError>)
        ensures
            match result {
                Ok(()) => moved_forward(old(self)@, id) == Ok::<OverlayView, ModelError>(final(self)@),
                Err(e) => moved_forward(old(self)@, id) == Err::<OverlayView, ModelError>(e)
                    && final(self)@ == old(self)@,
            },
    {
        proof {
            lemma_widget_index(self@.widgets, id);
        }
        let index = match find_widget(&self.widgets, id) {
            Some(i) => i,
            None => return Err(ModelError::TextWidgetNotFound { id }),
        };
        if index > 0 {
            let ghost ws = self@.widgets;
            let moved = self.widgets.remove(index);
            self.widgets.insert(index - 1, moved);
            assert(self@.widgets =~= ws.update(index - 1, ws[index as int]).update(
                index as int,
                ws[index - 1],
            ));
        }
        Ok(())
    }

    /// Moves a widget one layer toward the back (away from index zero). At the
    /// back this is a successful no-op.
    pub fn move_widget_backward(&mut self, id: TextWidgetId) -> (result: Result<(), ModelError>)
        ensures
            match result {
                Ok(()) => moved_backward(old(self)@, id) == Ok::<OverlayView, ModelError>(final(self)@),
                Err(e) => moved_backward(old(self)@, id) == Err::<OverlayView, ModelError>(e)
                    && final(self)@ == old(self)@,
            },
    {
        proof {
            lemma_widget_index(self@.widgets, id);
        }
        let index = match find_widget(&self.widgets, id) {
            Some(i) => i,
            None => return Err(ModelError::TextWidgetNotFound { id }),
        };
        assert(index < self.widgets.len());
        if index + 1 < self.widgets.len() {
            let ghost ws = self@.widgets;
            let moved = self.widgets.remove(index);
            self.widgets.insert(index + 1, moved);
            assert(self@.widgets =~= ws.update(index as int, ws[index + 1]).update(
                index + 1,
                ws[index as int],
            ));
        }
        Ok(())
    }
}


/// The content of each overlay of a sequence.
pub open spec fn overlay_views(os: Seq<Overlay>) -> Seq<OverlayView> {
    os.map_values(|o: Overlay| o@)
}

/// The identities of a sequence of overlays, in order.
pub open spec fn overlay_ids(os: Seq<OverlayView>) -> Seq<OverlayId> {
    os.map_values(|o: OverlayView| o.id)
}

/// The widget identities of a sequence of overlays, overlay by overlay.
pub open spec fn all_widget_ids(os: Seq<OverlayView>) -> Seq<TextWidgetId>
    decreases os.len(),
{
    if os.len() == 0 {
        Seq::empty()
    } else {
        all_widget_ids(os.drop_last()) + widget_ids(os.last().widgets)
    }
}

/// The failure of overlay `i` itself: an invalid identity, an identity that
/// an earlier overlay has, or a blank name (checked in that order).
pub open spec fn overlay_header_error(os: Seq<OverlayView>, i: int) -> Option<ModelError> {
    let o = os[i];
    if !o.id.spec_is_valid() {
        Some(ModelError::InvalidOverlayId { id: o.id })
    } else if overlay_ids(os.take(i)).contains(o.id) {
        Some(ModelError::DuplicateOverlayId { id: o.id })
    } else if is_blank(o.name) {
        Some(ModelError::EmptyName)
    } else {
        None
    }
}

/// The failure of widget `j` of overlay `i`: an invalid identity, an identity
/// that occurs earlier anywhere in the collection, a position off the canvas,
/// an invalid font size, or a blank name (checked in that order).
pub open spec fn collection_widget_error(os: Seq<OverlayView>, i: int, j: int) -> Option<ModelError> {
    let o = os[i];
    let w = o.widgets[j];
    if !w.id.spec_is_valid() {
        Some(ModelError::InvalidWidgetId { id: w.id })
    } else if (all_widget_ids(os.take(i)) + widget_ids(o.widgets.take(j))).contains(w.id) {
        Some(ModelError::DuplicateWidgetId { id: w.id })
    } else if !w.position.spec_in_canvas(o.canvas) {
        Some(ModelError::InvalidPosition { x: w.position.spec_x(), y: w.position.spec_y() })
    } else if !font_size_is_valid(w.font_size) {
        Some(ModelError::InvalidFontSize { value: w.font_size })
    } else if is_blank(w.name) {
        Some(ModelError::EmptyName)
    } else {
        None
    }
}

/// The first failing widget of overlay `i` from index `j` on.
pub open spec fn first_widget_error(os: Seq<OverlayView>, i: int, j: int) -> Option<ModelError>
    decreases os[i].widgets.len() - j,
{
    if j < 0 || j >= os[i].widgets.len() {
        None
    } else {
        match collection_widget_error(os, i, j) {
            Some(e) => Some(e),
            None => first_widget_error(os, i, j + 1),
        }
    }
}

/// The first failure of a collection from overlay `i` on: each overlay's own
/// checks come before the checks of its widgets.
pub open spec fn first_collection_error(os: Seq<OverlayView>, i: int) -> Option<ModelError>
    decreases os.len() - i,
{
    if i < 0 || i >= os.len() {
        None
    } else {
        match overlay_header_error(os, i) {
            Some(e) => Some(e),
            None => match first_widget_error(os, i, 0) {
                Some(e) => Some(e),
                None => first_collection_error(os, i + 1),
            },
        }
    }
}

/// Every overlay from `i` on of a collection that passes its checks from
/// `i` on passes its own checks and its widgets' checks.
pub proof fn lemma_collection_valid_at(os: Seq<OverlayView>, i: int, k: int)
    requires
        0 <= i <= k < os.len(),
        first_collection_error(os, i).is_none(),
    ensures
        overlay_header_error(os, k).is_none(),
        first_widget_error(os, k, 0).is_none(),
    decreases k - i,
{
    if i < k {
        lemma_collection_valid_at(os, i + 1, k);
    }
}

/// Every widget from `j` on of overlay `k` passes its checks when they all
/// pass from `j` on.
pub proof fn lemma_widgets_valid_at(os: Seq<OverlayView>, k: int, j: int, m: int)
    requires
        0 <= k < os.len(),
        0 <= j <= m < os[k].widgets.len(),
        first_widget_error(os, k, j).is_none(),
    ensures
        collection_widget_error(os, k, m).is_none(),
    decreases m - j,
{
    if j < m {
        lemma_widgets_valid_at(os, k, j + 1, m);
    }
}

/// Checks a whole overlay collection: identities are valid and unique
/// (overlay identities among overlays, widget identities across the whole
/// collection), names are not blank, positions lie on their canvases and font
/// sizes are valid. The first failure in collection order is returned.
pub fn validate_collection(overlays: &[Overlay]) -> (result: Result<(), ModelError>)
    ensures
        match result {
            Ok(()) => first_collection_error(overlay_views(overlays@), 0).is_none(),
            Err(e) => first_collection_error(overlay_views(overlays@), 0) == Some(e),
        },
{
    broadcast use vstd::std_specs::hash::group_hash_axioms;

    let ghost os = overlay_views(overlays@);
    let mut overlay_seen: HashSet<u128> = HashSet::new();
    let mut widget_seen: HashSet<u128> = HashSet::new();
    let mut i: usize = 0;
    while i < overlays.len()
        invariant
            os == overlay_views(overlays@),
            0 <= i <= os.len(),
            forall|b: u128|
                #[trigger] overlay_seen@.contains(b) <==> overlay_ids(os.take(i as int)).contains(
                    OverlayId::spec_from_bits(b),
                ),
            forall|b: u128|
                #[trigger] widget_seen@.contains(b) <==> all_widget_ids(os.take(i as int)).contains(
                    TextWidgetId::spec_from_bits(b),
                ),
            first_collection_error(os, 0) == first_collection_error(os, i as int),
        decreases os.len() - i,
    {
        let overlay = &overlays[i];
        assert(overlay@ == os[i as int]);
        if !overlay.id.is_valid() {
            return Err(ModelError::InvalidOverlayId { id: overlay.id });
        }
        let overlay_bits = overlay.id.as_u128();
        let seen = overlay_seen.contains(&overlay_bits);
        assert(seen == overlay_seen@.contains(overlay_bits));
        proof {
            OverlayId::lemma_from_own_bits(overlay.id);
        }
        if seen {
            assert(overlay_ids(os.take(i as int)).contains(overlay.id));
            return Err(ModelError::DuplicateOverlayId { id: overlay.id });
        }
        assert(!overlay_ids(os.take(i as int)).contains(overlay.id));
        if is_blank_text(overlay.name.as_str()) {
            return Err(ModelError::EmptyName);
        }
        assert(overlay_header_error(os, i as int).is_none());
        let ghost before = all_widget_ids(os.take(i as int));
        let ws = &overlay.widgets;
        let mut j: usize = 0;
        while j < ws.len()
            invariant
                os == overlay_views(overlays@),
                0 <= i < os.len(),
                overlay@ == os[i as int],
                widget_views(ws@) == os[i as int].widgets,
                0 <= j <= ws@.len(),
                before == all_widget_ids(os.take(i as int)),
                forall|b: u128|
                    #[trigger] widget_seen@.contains(b) <==> (before + widget_ids(
                        os[i as int].widgets.take(j as int),
                    )).contains(TextWidgetId::spec_from_bits(b)),
                first_widget_error(os, i as int, 0) == first_widget_error(os, i as int, j as int),
                first_collection_error(os, 0) == first_collection_error(os, i as int),
                overlay_header_error(os, i as int).is_none(),
            decreases ws@.len() - j,
        {
            let widget = &ws[j];
            assert(widget@ == os[i as int].widgets[j as int]);
            if !widget.id.is_valid() {
                return Err(ModelError::InvalidWidgetId { id: widget.id });
            }
            let widget_bits = widget.id.as_u128();
            let ghost earlier = before + widget_ids(os[i as int].widgets.take(j as int));
            let seen = widget_seen.contains(&widget_bits);
            assert(seen == widget_seen@.contains(widget_bits));
            proof {
                TextWidgetId::lemma_from_own_bits(widget.id);
            }
            if seen {
                assert(earlier.contains(widget.id));
                return Err(ModelError::DuplicateWidgetId { id: widget.id });
            }
            assert(!earlier.contains(widget.id));
            let position = widget.position;
            if !check_position_in_canvas(
                position.x,
                position.y,
                overlay.canvas.width,
                overlay.canvas.height,
            ) {
                return Err(ModelError::InvalidPosition { x: position.x, y: position.y });
            }
            if !check_font_size(widget.font_size) {
                return Err(ModelError::InvalidFontSize { value: widget.font_size });
            }
            if is_blank_text(widget.name.as_str()) {
                return Err(ModelError::EmptyName);
            }
            assert(collection_widget_error(os, i as int, j as int).is_none());
            let ghost old_seen = widget_seen@;
            widget_seen.insert(widget_bits);
            let ghost vs = os[i as int].widgets;
            assert(vs.take(j + 1) == vs.take(j as int).push(vs[j as int]));
            assert(widget_ids(vs.take(j + 1)) == widget_ids(vs.take(j as int)).push(widget.id));
            assert(before + widget_ids(vs.take(j + 1)) == earlier.push(widget.id));
            assert forall|b: u128| #[trigger] widget_seen@.contains(b) <==> earlier.push(
                widget.id,
            ).contains(TextWidgetId::spec_from_bits(b)) by {
                TextWidgetId::lemma_from_bits(b);
                assert(old_seen.contains(b) <==> earlier.contains(TextWidgetId::spec_from_bits(b)));
                lemma_push_contains(earlier, widget.id, TextWidgetId::spec_from_bits(b));
            }
            j = j + 1;
        }
        assert(os[i as int].widgets.take(ws@.len() as int) == os[i as int].widgets);
        assert(os.take(i + 1).drop_last() == os.take(i as int));
        assert(os.take(i + 1).last() == os[i as int]);
        assert(all_widget_ids(os.take(i + 1)) == all_widget_ids(os.take(i as int)) + widget_ids(
            os[i as int].widgets,
        ));
        let ghost old_seen = overlay_seen@;
        let ghost ids = overlay_ids(os.take(i as int));
        overlay_seen.insert(overlay_bits);
        assert(os.take(i + 1) == os.take(i as int).push(os[i as int]));
        assert(overlay_ids(os.take(i + 1)) == ids.push(overlay.id));
        assert forall|b: u128| #[trigger] overlay_seen@.contains(b) <==> ids.push(overlay.id).contains(
            OverlayId::spec_from_bits(b),
        ) by {
            OverlayId::lemma_from_bits(b);
            assert(old_seen.contains(b) <==> ids.contains(OverlayId::spec_from_bits(b)));
            lemma_push_contains(ids, overlay.id, OverlayId::spec_from_bits(b));
        }
        i = i + 1;
    }
    Ok(())
}


/// Equality of durable content is symmetric.
pub broadcast proof fn lemma_same_content_symmetric(a: OverlayView, b: OverlayView)
    ensures
        #[trigger] a.same_content(b) == b.same_content(a),
{
    if a.same_content(b) {
        assert forall|i: int| 0 <= i < b.widgets.len() implies (#[trigger] b.widgets[i]).same_content(
            a.widgets[i],
        ) by {
            assert(a.widgets[i].same_content(b.widgets[i]));
        }
    }
    if b.same_content(a) {
        assert forall|i: int| 0 <= i < a.widgets.len() implies (#[trigger] a.widgets[i]).same_content(
            b.widgets[i],
        ) by {
            assert(b.widgets[i].same_content(a.widgets[i]));
        }
    }
}


/// Two overlays with the same content as a third have the same content.
pub proof fn lemma_same_content_transitive(a: OverlayView, b: OverlayView, c: OverlayView)
    requires
        a.same_content(b),
        b.same_content(c),
    ensures
        a.same_content(c),
{
    assert forall|i: int| 0 <= i < a.widgets.len() implies (#[trigger] a.widgets[i]).same_content(
        c.widgets[i],
    ) by {
        assert(a.widgets[i].same_content(b.widgets[i]));
        assert(b.widgets[i].same_content(c.widgets[i]));
    }
}


/// The outcome of moving a widget one layer toward the front.
pub open spec fn moved_forward(o: OverlayView, id: TextWidgetId) -> Result<OverlayView, ModelError> {
    if has_widget(o.widgets, id) {
        let i = widget_index(o.widgets, id);
        let ws = o.widgets;
        Ok(
            OverlayView {
                widgets: if i > 0 {
                    ws.update(i - 1, ws[i]).update(i, ws[i - 1])
                } else {
                    ws
                },
                ..o
            },
        )
    } else {
        Err(ModelError::TextWidgetNotFound { id })
    }
}

/// The outcome of moving a widget one layer toward the back.
pub open spec fn moved_backward(o: OverlayView, id: TextWidgetId) -> Result<OverlayView, ModelError> {
    if has_widget(o.widgets, id) {
        let i = widget_index(o.widgets, id);
        let ws = o.widgets;
        Ok(
            OverlayView {
                widgets: if i + 1 < ws.len() {
                    ws.update(i, ws[i + 1]).update(i + 1, ws[i])
                } else {
                    ws
                },
                ..o
            },
        )
    } else {
        Err(ModelError::TextWidgetNotFound { id })
    }
}

/// The widgets of an overlay have pairwise distinct identities.
pub open spec fn unique_widget_ids(ws: Seq<TextWidgetView>) -> bool {
    forall|i: int, j: int| 0 <= i < ws.len() && 0 <= j < ws.len() && i != j ==> ws[i].id != ws[j].id
}

proof fn lemma_index_of_unique(ws: Seq<TextWidgetView>, k: int)
    requires
        unique_widget_ids(ws),
        0 <= k < ws.len(),
    ensures
        widget_index(ws, ws[k].id) == k,
{
    lemma_widget_index(ws, ws[k].id);
    assert(has_widget(ws, ws[k].id));
}

/// Moving a widget that is not frontmost one layer toward the front and then
/// one layer toward the back restores the overlay.
pub proof fn lemma_forward_then_backward(o: OverlayView, id: TextWidgetId)
    requires
        has_widget(o.widgets, id),
        widget_index(o.widgets, id) > 0,
        unique_widget_ids(o.widgets),
    ensures
        moved_forward(o, id) matches Ok(f) && moved_backward(f, id) == Ok::<OverlayView, ModelError>(
            o,
        ),
{
    let ws = o.widgets;
    lemma_widget_index(ws, id);
    let i = widget_index(ws, id);
    let f = moved_forward(o, id)->Ok_0;
    let fs = f.widgets;
    assert(fs == ws.update(i - 1, ws[i]).update(i, ws[i - 1]));
    assert(unique_widget_ids(fs)) by {
        assert forall|a: int, b: int| 0 <= a < fs.len() && 0 <= b < fs.len() && a != b implies fs[a].id
            != fs[b].id by {
            let a0 = if a == i - 1 {
                i
            } else if a == i {
                i - 1
            } else {
                a
            };
            let b0 = if b == i - 1 {
                i
            } else if b == i {
                i - 1
            } else {
                b
            };
            assert(fs[a] == ws[a0]);
            assert(fs[b] == ws[b0]);
        }
    }
    assert(fs[i - 1].id == id);
    lemma_index_of_unique(fs, i - 1);
    assert(has_widget(fs, id));
    let back = fs.update(i - 1, fs[i]).update(i, fs[i - 1]);
    assert(back =~= ws);
}

/// Moving a widget that is not backmost one layer toward the back and then
/// one layer toward the front restores the overlay.
pub proof fn lemma_backward_then_forward(o: OverlayView, id: TextWidgetId)
    requires
        has_widget(o.widgets, id),
        widget_index(o.widgets, id) + 1 < o.widgets.len(),
        unique_widget_ids(o.widgets),
    ensures
        moved_backward(o, id) matches Ok(b) && moved_forward(b, id) == Ok::<OverlayView, ModelError>(
            o,
        ),
{
    let ws = o.widgets;
    lemma_widget_index(ws, id);
    let i = widget_index(ws, id);
    let b = moved_backward(o, id)->Ok_0;
    let bs = b.widgets;
    assert(bs == ws.update(i, ws[i + 1]).update(i + 1, ws[i]));
    assert(unique_widget_ids(bs)) by {
        assert forall|x: int, y: int| 0 <= x < bs.len() && 0 <= y < bs.len() && x != y implies bs[x].id
            != bs[y].id by {
            let x0 = if x == i {
                i + 1
            } else if x == i + 1 {
                i
            } else {
                x
            };
            let y0 = if y == i {
                i + 1
            } else if y == i + 1 {
                i
            } else {
                y
            };
            assert(bs[x] == ws[x0]);
            assert(bs[y] == ws[y0]);
        }
    }
    assert(bs[i + 1].id == id);
    lemma_index_of_unique(bs, i + 1);
    assert(has_widget(bs, id));
    let forward = bs.update(i, bs[i + 1]).update(i + 1, bs[i]);
    assert(forward =~= ws);
}


/// `==` on positions compares the coordinates as binary32 values: no NaN
/// equals anything, and the two zeros are equal.
impl PartialEq for Position {
    fn eq(&self, other: &Self) -> (equal: bool) {
        same_value(self.x, other.x) && same_value(self.y, other.y)
    }
}

impl PartialEqSpecImpl for Position {
    open spec fn obeys_eq_spec() -> bool {
        true
    }

    open spec fn eq_spec(&self, other: &Self) -> bool {
        same_binary32(self.spec_x(), other.spec_x()) && same_binary32(self.spec_y(), other.spec_y())
    }
}

/// `==` on widgets compares their durable content, with coordinates and
/// font sizes as binary32 values.
impl PartialEq for TextWidget {
    fn eq(&self, other: &Self) -> (equal: bool) {
        self.same_content(other)
    }
}

impl PartialEqSpecImpl for TextWidget {
    open spec fn obeys_eq_spec() -> bool {
        true
    }

    open spec fn eq_spec(&self, other: &Self) -> bool {
        self@.same_content(other@)
    }
}

/// `==` on overlays compares their durable content, with coordinates and
/// font sizes as binary32 values.
impl PartialEq for Overlay {
    fn eq(&self, other: &Self) -> (equal: bool) {
        self.same_content(other)
    }
}

impl PartialEqSpecImpl for Overlay {
    open spec fn obeys_eq_spec() -> bool {
        true
    }

    open spec fn eq_spec(&self, other: &Self) -> bool {
        self@.same_content(other@)
    }
}


/// An element of a sequence with one more element pushed is an element of
/// the sequence or the pushed one.
pub proof fn lemma_push_contains<A>(s: Seq<A>, x: A, y: A)
    ensures
        s.push(x).contains(y) <==> (s.contains(y) || y == x),
{
    if s.push(x).contains(y) {
        let k = choose|k: int| 0 <= k < s.push(x).len() && s.push(x)[k] == y;
        if k < s.len() {
            assert(s[k] == s.push(x)[k]);
        }
    }
    if s.contains(y) {
        let k = choose|k: int| 0 <= k < s.len() && s[k] == y;
        assert(s.push(x)[k] == s[k]);
    }
    if y == x {
        assert(s.push(x)[s.len() as int] == x);
    }
}

} // verus!
