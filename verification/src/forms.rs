//! The editing forms of the workspace window, apart from their drawing: the
//! create, rename and delete dialogs, the next-launch port field, the widget
//! commands, and the widget inspector's values. Every document change still
//! goes through the coordinator; the forms only hold what the user is typing
//! and which dialog is open.

use vstd::prelude::*;
use vstd::string::StringExecFns;
use crate::coordinator::{
    coordinator_message, creation_outcome, deletion_outcome, mutation_view, overlay_of, renamed, update_outcome,
    CoordinatorError, HeadlessCoordinator, HubOperations, WorkspaceView,
};
use crate::hub::HubError;
use crate::ids::{OverlayId, TextWidgetId};
use crate::binary32::font_size_is_valid;
use crate::model::{
    has_widget, lemma_widget_index, widget_index, with_widget_view, Alignment, CanvasSize, Color,
    FontFamily, ModelError, Overlay, OverlayView, Position, TextWidget, TextWidgetView,
};
use crate::settings::{
    parse_port_input, settings_message, spec_port_input, SettingsError, SettingsState,
    SettingsStateView, DEFAULT_PORT, PORT_INPUT_MESSAGE,
};
use crate::text::{
    chars_of, decimal_digits, decimal_text, is_blank, line_texts, parse_u32, push_decimal, push_line,
    push_literal, same_text, spec_parse_u32,
    string_from_str, trim_text, trimmed,
};

verus! {

/// Why a form action did nothing.
#[derive(Debug)]
pub enum FormError {
    /// No overlay is selected.
    NoOverlaySelected,
    /// No widget is selected.
    NoWidgetSelected,
    /// The rename dialog has no target.
    NoRenameTarget,
    /// The delete dialog has no target.
    NoDeleteTarget,
    /// The canvas fields are not positive whole numbers.
    InvalidCanvasInput,
    /// No overlay has the given name.
    UnknownOverlayName(String),
    /// The port field is not a valid port; the message to show.
    PortInput(String),
    /// The coordinator refused the operation.
    Operation(CoordinatorError),
    /// The port could not be saved for the next launch.
    PortSave(SettingsError),
}

/// The text shown for a form error. `first` and `second` stand for the
/// decimal text of the numbers of a model error that a refused operation
/// carries, as in `coordinator_message`.
pub open spec fn form_message(error: FormError, first: Seq<char>, second: Seq<char>) -> Seq<char> {
    match error {
        FormError::NoOverlaySelected => "no overlay is selected"@,
        FormError::NoWidgetSelected => "no widget is selected"@,
        FormError::NoRenameTarget => "no rename target is active"@,
        FormError::NoDeleteTarget => "no delete target is active"@,
        FormError::InvalidCanvasInput =>
            "Canvas width and height must be positive whole numbers."@,
        FormError::UnknownOverlayName(name) => "unknown control: "@ + name@,
        FormError::PortInput(message) => message@,
        FormError::Operation(e) => coordinator_message(e, first, second),
        FormError::PortSave(e) => "Could not save port for next launch: "@ + settings_message(e),
    }
}

impl FormError {
    /// The text shown for this error; `first` and `second` are passed on as
    /// `CoordinatorError::message` describes.
    pub fn message(&self, first: &str, second: &str) -> (text: String)
        ensures
            text@ == form_message(*self, first@, second@),
    {
        match self {
            FormError::NoOverlaySelected => string_from_str("no overlay is selected"),
            FormError::NoWidgetSelected => string_from_str("no widget is selected"),
            FormError::NoRenameTarget => string_from_str("no rename target is active"),
            FormError::NoDeleteTarget => string_from_str("no delete target is active"),
            FormError::InvalidCanvasInput =>
                string_from_str("Canvas width and height must be positive whole numbers."),
            FormError::UnknownOverlayName(name) => {
                let mut text = String::new();
                text.append("unknown control: ");
                text.append(name.as_str());
                assert(text@ =~= form_message(*self, first@, second@));
                text
            },
            FormError::PortInput(message) => string_from_str(message.as_str()),
            FormError::Operation(e) => e.message(first, second),
            FormError::PortSave(e) => {
                let mut text = String::new();
                text.append("Could not save port for next launch: ");
                let detail = e.message();
                text.append(detail.as_str());
                assert(text@ =~= form_message(*self, first@, second@));
                text
            },
        }
    }
}

impl Clone for FormError {
    fn clone(&self) -> (copy: Self)
        ensures
            !(*self matches FormError::Operation(e) && e is BootstrapCleanup) ==> copy == *self,
    {
        match self {
            FormError::NoOverlaySelected => FormError::NoOverlaySelected,
            FormError::NoWidgetSelected => FormError::NoWidgetSelected,
            FormError::NoRenameTarget => FormError::NoRenameTarget,
            FormError::NoDeleteTarget => FormError::NoDeleteTarget,
            FormError::InvalidCanvasInput => FormError::InvalidCanvasInput,
            FormError::UnknownOverlayName(name) => FormError::UnknownOverlayName(name.clone()),
            FormError::PortInput(message) => FormError::PortInput(message.clone()),
            FormError::Operation(e) => FormError::Operation(e.clone()),
            FormError::PortSave(e) => FormError::PortSave(e.clone()),
        }
    }
}

/// What the forms hold.
pub struct FormView {
    pub create_open: bool,
    pub create_name: Seq<char>,
    pub create_width: Seq<char>,
    pub create_height: Seq<char>,
    pub rename_open: bool,
    pub rename_id: Option<OverlayId>,
    pub rename_name: Seq<char>,
    pub delete_target: Option<OverlayId>,
    pub dialog_error: Option<FormError>,
    pub inspector_target: Option<(OverlayId, TextWidgetId)>,
    pub port_input: Seq<char>,
    pub port_save_error: Option<FormError>,
    pub port_save_succeeded: bool,
}

/// The state of the workspace window's forms.
pub struct FormState {
    create_open: bool,
    create_name: String,
    create_width: String,
    create_height: String,
    rename_open: bool,
    rename_id: Option<OverlayId>,
    rename_name: String,
    delete_target: Option<OverlayId>,
    dialog_error: Option<FormError>,
    inspector_target: Option<(OverlayId, TextWidgetId)>,
    port_input: String,
    port_save_error: Option<FormError>,
    port_save_succeeded: bool,
}

impl View for FormState {
    type V = FormView;

    closed spec fn view(&self) -> FormView {
        FormView {
            create_open: self.create_open,
            create_name: self.create_name@,
            create_width: self.create_width@,
            create_height: self.create_height@,
            rename_open: self.rename_open,
            rename_id: self.rename_id,
            rename_name: self.rename_name@,
            delete_target: self.delete_target,
            dialog_error: self.dialog_error,
            inspector_target: self.inspector_target,
            port_input: self.port_input@,
            port_save_error: self.port_save_error,
            port_save_succeeded: self.port_save_succeeded,
        }
    }
}

/// The canvas size the create dialog's fields name: both must be whole
/// numbers (surrounding whitespace ignored) greater than zero.
pub open spec fn canvas_input(width: Seq<char>, height: Seq<char>) -> Option<(u32, u32)> {
    match (spec_parse_u32(trimmed(width)), spec_parse_u32(trimmed(height))) {
        (Some(w), Some(h)) => if w > 0 && h > 0 {
            Some((w, h))
        } else {
            None
        },
        _ => None,
    }
}

/// The create dialog's width field gives the width and its height field the
/// height: the dialog names a canvas exactly when both trimmed fields are
/// positive whole numbers, and then it is the width field's number by the
/// height field's number.
pub proof fn lemma_canvas_input_reads_fields(width: Seq<char>, height: Seq<char>)
    ensures
        canvas_input(width, height) matches Some((w, h)) ==> spec_parse_u32(trimmed(width)) == Some(
            w,
        ) && spec_parse_u32(trimmed(height)) == Some(h) && w > 0 && h > 0,
        spec_parse_u32(trimmed(width)) matches Some(w) ==> (spec_parse_u32(trimmed(height)) matches Some(
            h,
        ) ==> (w > 0 && h > 0 ==> canvas_input(width, height) == Some((w, h)))),
{
}

/// An overlay created from the create dialog has the canvas the dialog's
/// fields name: its width is the number in the width field and its height
/// the number in the height field.
pub proof fn lemma_created_canvas_from_fields<H: HubOperations>(
    hub: H,
    old: WorkspaceView,
    name: Seq<char>,
    width_text: Seq<char>,
    height_text: Seq<char>,
    id: OverlayId,
    new: WorkspaceView,
)
    requires
        canvas_input(width_text, height_text) matches Some((w, h)) && creation_outcome(
            hub,
            old,
            name,
            w,
            h,
            Ok(id),
            new,
        ),
    ensures
        new.overlays.len() == old.overlays.len() + 1,
        new.overlays.last().id == id,
        new.overlays.last().name == name,
        spec_parse_u32(trimmed(width_text)) == Some(new.overlays.last().canvas.spec_width()),
        spec_parse_u32(trimmed(height_text)) == Some(new.overlays.last().canvas.spec_height()),
{
    let (w, h) = canvas_input(width_text, height_text)->Some_0;
    CanvasSize::lemma_spec_new(w, h);
    let canvas = CanvasSize::spec_new(w, h);
    let (handed, answer) = choose|handed: Overlay, answer: Result<(), HubError>|
        #![trigger call_ensures(H::register_overlay, (&hub, handed), answer)]
        handed@ == (OverlayView { id: handed@.id, name, canvas, widgets: Seq::empty() })
            && handed@.id.spec_is_valid() && call_ensures(
            H::register_overlay,
            (&hub, handed),
            answer,
        ) && match answer {
            Ok(()) => Ok::<OverlayId, CoordinatorError>(id) == Ok::<OverlayId, CoordinatorError>(
                handed@.id,
            ) && new == (WorkspaceView {
                overlays: old.overlays.push(handed@),
                selected: Some(handed@.id),
                selected_widget: None,
                operation_error: None,
                ..old
            }),
            Err(e) => Ok::<OverlayId, CoordinatorError>(id) == Err::<OverlayId, CoordinatorError>(
                CoordinatorError::Hub(e),
            ) && new == old.with_operation_error(Some(CoordinatorError::Hub(e))),
        };
    assert(new.overlays.last() == handed@);
}

fn parse_dimension(text: &str) -> (value: Option<u32>)
    ensures
        value == spec_parse_u32(trimmed(text@)),
{
    let trimmed_text = trim_text(text);
    let chars = chars_of(trimmed_text.as_str());
    parse_u32(&chars)
}

impl FormState {
    /// Closed forms, with the port field showing `display_port`.
    pub fn new(display_port: u16) -> (forms: Self)
        ensures
            !forms@.create_open,
            !forms@.rename_open,
            forms@.delete_target is None,
            forms@.dialog_error is None,
            forms@.inspector_target is None,
            forms@.port_input == decimal_digits(display_port as nat),
            forms@.port_save_error is None,
            !forms@.port_save_succeeded,
    {
        FormState {
            create_open: false,
            create_name: String::new(),
            create_width: String::new(),
            create_height: String::new(),
            rename_open: false,
            rename_id: None,
            rename_name: String::new(),
            delete_target: None,
            dialog_error: None,
            inspector_target: None,
            port_input: decimal_text(display_port as u64),
            port_save_error: None,
            port_save_succeeded: false,
        }
    }

    /// Types into the create dialog.
    pub fn set_create_fields(&mut self, name: &str, width: &str, height: &str)
        ensures
            final(self)@ == (FormView {
                create_name: name@,
                create_width: width@,
                create_height: height@,
                ..old(self)@
            }),
    {
        self.create_name = string_from_str(name);
        self.create_width = string_from_str(width);
        self.create_height = string_from_str(height);
    }

    /// Types into the rename dialog.
    pub fn set_rename_field(&mut self, name: &str)
        ensures
            final(self)@ == (FormView { rename_name: name@, ..old(self)@ }),
    {
        self.rename_name = string_from_str(name);
    }

    /// Types into the port field.
    pub fn set_port_field(&mut self, port: &str)
        ensures
            final(self)@ == (FormView { port_input: port@, ..old(self)@ }),
    {
        self.port_input = string_from_str(port);
    }

    /// The widget the inspector edits, if any.
    pub fn set_inspector_target(&mut self, target: Option<(OverlayId, TextWidgetId)>)
        ensures
            final(self)@ == (FormView { inspector_target: target, ..old(self)@ }),
    {
        self.inspector_target = target;
    }

    pub fn is_create_open(&self) -> (open: bool)
        ensures
            open == self@.create_open,
    {
        self.create_open
    }

    pub fn is_rename_open(&self) -> (open: bool)
        ensures
            open == self@.rename_open,
    {
        self.rename_open
    }

    pub fn delete_target(&self) -> (target: Option<OverlayId>)
        ensures
            target == self@.delete_target,
    {
        self.delete_target
    }

    pub fn inspector_target(&self) -> (target: Option<(OverlayId, TextWidgetId)>)
        ensures
            target == self@.inspector_target,
    {
        self.inspector_target
    }

    pub fn dialog_error(&self) -> (error: Option<&FormError>)
        ensures
            match self@.dialog_error {
                Some(e) => error == Some(&e),
                None => error is None,
            },
    {
        match &self.dialog_error {
            Some(e) => Some(e),
            None => None,
        }
    }

    pub fn port_input(&self) -> (input: &str)
        ensures
            input@ == self@.port_input,
    {
        self.port_input.as_str()
    }

    pub fn port_save_error(&self) -> (error: Option<&FormError>)
        ensures
            match self@.port_save_error {
                Some(e) => error == Some(&e),
                None => error is None,
            },
    {
        match &self.port_save_error {
            Some(e) => Some(e),
            None => None,
        }
    }

    pub fn port_save_succeeded(&self) -> (succeeded: bool)
        ensures
            succeeded == self@.port_save_succeeded,
    {
        self.port_save_succeeded
    }

    /// Opens an empty create dialog.
    pub fn begin_create(&mut self)
        ensures
            final(self)@ == (FormView {
                create_open: true,
                dialog_error: None,
                create_name: Seq::empty(),
                create_width: Seq::empty(),
                create_height: Seq::empty(),
                ..old(self)@
            }),
    {
        self.create_open = true;
        self.dialog_error = None;
        self.create_name = String::new();
        self.create_width = String::new();
        self.create_height = String::new();
    }

    /// Closes every dialog.
    pub fn cancel_dialogs(&mut self)
        ensures
            final(self)@ == (FormView {
                create_open: false,
                rename_open: false,
                delete_target: None,
                dialog_error: None,
                ..old(self)@
            }),
    {
        self.create_open = false;
        self.rename_open = false;
        self.delete_target = None;
        self.dialog_error = None;
    }

    /// Creates the overlay the create dialog describes. Fields that are not
    /// positive whole numbers are reported in the dialog and nothing is
    /// created; otherwise the trimmed name and the size go to the coordinator
    /// and the dialog closes once it accepts them.
    pub fn create_overlay_from_form<H: HubOperations>(
        &mut self,
        coordinator: &mut HeadlessCoordinator<H>,
    ) -> (result: Result<OverlayId, FormError>)
        requires
            old(coordinator).wf(),
        ensures
            final(coordinator).wf(),
            final(coordinator).spec_store() == old(coordinator).spec_store(),
            match canvas_input(old(self)@.create_width, old(self)@.create_height) {
                None => result == Err::<OverlayId, FormError>(FormError::InvalidCanvasInput)
                    && final(self)@ == (FormView {
                    dialog_error: Some(FormError::InvalidCanvasInput),
                    ..old(self)@
                }) && final(coordinator)@ == old(coordinator)@,
                Some((width, height)) => {
                    let name = trimmed(old(self)@.create_name);
                    match result {
                        Ok(id) => creation_outcome(
                            old(coordinator).spec_hub(),
                            old(coordinator)@,
                            name,
                            width,
                            height,
                            Ok(id),
                            final(coordinator)@,
                        ) && final(self)@ == (FormView {
                            create_open: false,
                            dialog_error: None,
                            inspector_target: None,
                            ..old(self)@
                        }),
                        Err(FormError::Operation(e)) => creation_outcome(
                            old(coordinator).spec_hub(),
                            old(coordinator)@,
                            name,
                            width,
                            height,
                            Err(e),
                            final(coordinator)@,
                        ) && final(self)@ == old(self)@,
                        Err(_) => false,
                    }
                },
            },
    {
        let width = parse_dimension(self.create_width.as_str());
        let height = parse_dimension(self.create_height.as_str());
        let (w, h) = match (width, height) {
            (Some(w), Some(h)) => if w > 0 && h > 0 {
                (w, h)
            } else {
                self.dialog_error = Some(FormError::InvalidCanvasInput);
                return Err(FormError::InvalidCanvasInput);
            },
            _ => {
                self.dialog_error = Some(FormError::InvalidCanvasInput);
                return Err(FormError::InvalidCanvasInput);
            },
        };
        let name = trim_text(self.create_name.as_str());
        match coordinator.create_overlay(name.as_str(), w, h) {
            Ok(id) => {
                self.create_open = false;
                self.dialog_error = None;
                self.inspector_target = None;
                Ok(id)
            },
            Err(e) => Err(FormError::Operation(e)),
        }
    }

    /// Opens the rename dialog for the selected overlay, filled with its name.
    pub fn begin_rename<H: HubOperations>(&mut self, coordinator: &HeadlessCoordinator<H>) -> (result:
        Result<(), FormError>)
        requires
            coordinator.wf(),
        ensures
            match coordinator@.selected {
                None => result == Err::<(), FormError>(FormError::NoOverlaySelected) && final(self)@
                    == old(self)@,
                Some(id) => result is Ok && final(self)@ == (FormView {
                    rename_open: true,
                    rename_id: Some(id),
                    rename_name: overlay_of(coordinator@, id).name,
                    dialog_error: None,
                    ..old(self)@
                }),
            },
    {
        let overlay = match coordinator.selected_overlay() {
            Some(o) => o,
            None => return Err(FormError::NoOverlaySelected),
        };
        proof {
            crate::coordinator::lemma_overlay_index(coordinator@.overlays, coordinator@.selected->0);
        }
        self.rename_open = true;
        self.rename_id = Some(overlay.id());
        self.rename_name = string_from_str(overlay.name());
        self.dialog_error = None;
        Ok(())
    }

    /// Renames the rename dialog's overlay to the trimmed name and closes the
    /// dialog once the coordinator accepts it.
    pub fn apply_rename<H: HubOperations>(&mut self, coordinator: &mut HeadlessCoordinator<H>) -> (result:
        Result<(), FormError>)
        requires
            old(coordinator).wf(),
        ensures
            final(coordinator).wf(),
            final(coordinator).spec_store() == old(coordinator).spec_store(),
            match old(self)@.rename_id {
                None => result == Err::<(), FormError>(FormError::NoRenameTarget) && final(self)@
                    == old(self)@ && final(coordinator)@ == old(coordinator)@,
                Some(id) => {
                    let mutated = renamed(
                        overlay_of(old(coordinator)@, id),
                        trimmed(old(self)@.rename_name),
                    );
                    match result {
                        Ok(()) => update_outcome(
                            old(coordinator).spec_hub(),
                            old(coordinator)@,
                            id,
                            mutated,
                            Ok(()),
                            final(coordinator)@,
                        ) && final(self)@ == (FormView {
                            rename_open: false,
                            dialog_error: None,
                            ..old(self)@
                        }),
                        Err(FormError::Operation(e)) => update_outcome(
                            old(coordinator).spec_hub(),
                            old(coordinator)@,
                            id,
                            mutated,
                            Err(e),
                            final(coordinator)@,
                        ) && final(self)@ == old(self)@,
                        Err(_) => false,
                    }
                },
            },
    {
        let id = match self.rename_id {
            Some(id) => id,
            None => return Err(FormError::NoRenameTarget),
        };
        let name = trim_text(self.rename_name.as_str());
        match coordinator.rename_overlay(id, name.as_str()) {
            Ok(()) => {
                self.rename_open = false;
                self.dialog_error = None;
                Ok(())
            },
            Err(e) => Err(FormError::Operation(e)),
        }
    }

    /// Opens the delete confirmation for the selected overlay.
    pub fn begin_delete<H: HubOperations>(&mut self, coordinator: &HeadlessCoordinator<H>) -> (result:
        Result<(), FormError>)
        ensures
            match coordinator@.selected {
                None => result == Err::<(), FormError>(FormError::NoOverlaySelected) && final(self)@
                    == old(self)@,
                Some(id) => result is Ok && final(self)@ == (FormView {
                    delete_target: Some(id),
                    dialog_error: None,
                    ..old(self)@
                }),
            },
    {
        let id = match coordinator.selected_overlay_id() {
            Some(id) => id,
            None => return Err(FormError::NoOverlaySelected),
        };
        self.delete_target = Some(id);
        self.dialog_error = None;
        Ok(())
    }

    /// Deletes the confirmed overlay, then clears the dialog and the
    /// inspector.
    pub fn confirm_delete<H: HubOperations>(&mut self, coordinator: &mut HeadlessCoordinator<H>) -> (result:
        Result<(), FormError>)
        requires
            old(coordinator).wf(),
        ensures
            final(coordinator).wf(),
            final(coordinator).spec_store() == old(coordinator).spec_store(),
            match old(self)@.delete_target {
                None => result == Err::<(), FormError>(FormError::NoDeleteTarget) && final(self)@
                    == old(self)@ && final(coordinator)@ == old(coordinator)@,
                Some(id) => match result {
                    Ok(()) => deletion_outcome(
                        old(coordinator).spec_hub(),
                        old(coordinator)@,
                        id,
                        true,
                        Ok(()),
                        final(coordinator)@,
                    ) && final(self)@ == (FormView {
                        delete_target: None,
                        dialog_error: None,
                        inspector_target: None,
                        ..old(self)@
                    }),
                    Err(FormError::Operation(e)) => deletion_outcome(
                        old(coordinator).spec_hub(),
                        old(coordinator)@,
                        id,
                        true,
                        Err(e),
                        final(coordinator)@,
                    ) && final(self)@ == old(self)@,
                    Err(_) => false,
                },
            },
    {
        let id = match self.delete_target {
            Some(id) => id,
            None => return Err(FormError::NoDeleteTarget),
        };
        match coordinator.delete_overlay(id, true) {
            Ok(()) => {
                self.delete_target = None;
                self.dialog_error = None;
                self.inspector_target = None;
                Ok(())
            },
            Err(e) => Err(FormError::Operation(e)),
        }
    }

    /// Starts saving the port field for the next launch: the earlier outcome
    /// is cleared and the field must name a valid port, which is returned
    /// for writing.
    pub fn begin_port_save(&mut self) -> (port: Result<u16, FormError>)
        ensures
            match spec_port_input(old(self)@.port_input) {
                Some(p) => port == Ok::<u16, FormError>(p) && final(self)@ == (FormView {
                    port_save_error: None,
                    port_save_succeeded: false,
                    ..old(self)@
                }),
                None => port matches Err(FormError::PortInput(m)) && m@ == PORT_INPUT_MESSAGE@
                    && final(self)@ == (FormView {
                    port_save_error: Some(FormError::PortInput(m)),
                    port_save_succeeded: false,
                    ..old(self)@
                }),
            },
    {
        self.port_save_error = None;
        self.port_save_succeeded = false;
        match parse_port_input(self.port_input.as_str()) {
            Ok(port) => Ok(port),
            Err(message) => {
                let shown = message.clone();
                self.port_save_error = Some(FormError::PortInput(shown));
                Err(FormError::PortInput(message))
            },
        }
    }

    /// Records the outcome of writing the port for the next launch.
    pub fn finish_port_save(&mut self, written: Result<(), SettingsError>) -> (result: Result<
        (),
        FormError,
    >)
        ensures
            match written {
                Ok(()) => result is Ok && final(self)@ == (FormView {
                    port_save_succeeded: true,
                    ..old(self)@
                }),
                Err(e) => result == Err::<(), FormError>(FormError::PortSave(e)) && final(self)@ == (
                FormView { port_save_error: Some(FormError::PortSave(e)), ..old(self)@ }),
            },
    {
        match written {
            Ok(()) => {
                self.port_save_succeeded = true;
                Ok(())
            },
            Err(e) => {
                self.port_save_error = Some(FormError::PortSave(e.clone()));
                Err(FormError::PortSave(e))
            },
        }
    }
}


/// The values the widget inspector edits: every durable property of one
/// widget, with the position and font size as binary32 bit patterns.
#[derive(Debug)]
pub struct TextEditorValues {
    pub id: TextWidgetId,
    pub name: String,
    pub content: String,
    pub font_family: FontFamily,
    pub position: Position,
    pub font_size: u32,
    pub color: Color,
    pub alignment: Alignment,
}

impl View for TextEditorValues {
    type V = TextWidgetView;

    open spec fn view(&self) -> TextWidgetView {
        TextWidgetView {
            id: self.id,
            name: self.name@,
            content: self.content@,
            font_family: self.font_family,
            position: self.position,
            font_size: self.font_size,
            color: self.color,
            alignment: self.alignment,
        }
    }
}

impl TextEditorValues {
    /// The values of a widget.
    pub fn from_widget(widget: &TextWidget) -> (values: Self)
        ensures
            values@ == widget@,
    {
        TextEditorValues {
            id: widget.id(),
            name: string_from_str(widget.name()),
            content: string_from_str(widget.content()),
            font_family: widget.font_family(),
            position: widget.position(),
            font_size: widget.font_size_bits(),
            color: widget.color(),
            alignment: widget.alignment(),
        }
    }
}

/// The outcome of giving widget `v.id` of `o` all the properties in `v`, in
/// the order the inspector applies them: a blank name, an unknown widget, a
/// position off the canvas and an invalid font size are refused (in that
/// order) and change nothing.
pub open spec fn edited(o: OverlayView, v: TextWidgetView) -> Result<OverlayView, ModelError> {
    if is_blank(v.name) {
        Err(ModelError::EmptyName)
    } else if !has_widget(o.widgets, v.id) {
        Err(ModelError::TextWidgetNotFound { id: v.id })
    } else if !v.position.spec_in_canvas(o.canvas) {
        Err(ModelError::InvalidPosition { x: v.position.spec_x(), y: v.position.spec_y() })
    } else if !font_size_is_valid(v.font_size) {
        Err(ModelError::InvalidFontSize { value: v.font_size })
    } else {
        Ok(OverlayView { widgets: o.widgets.update(widget_index(o.widgets, v.id), v), ..o })
    }
}

/// An inspector edit that succeeds gives the edited widget exactly the
/// inspector's values, every property included (name, content, family,
/// position, font size, color and alignment), and leaves the overlay's
/// identity, name, canvas and every other widget as they were. It succeeds
/// exactly when the name is not blank, the widget exists, the position is on
/// the canvas and the font size is valid.
pub proof fn lemma_edit_applies_every_value(o: OverlayView, v: TextWidgetView)
    ensures
        edited(o, v) is Ok <==> !is_blank(v.name) && has_widget(o.widgets, v.id)
            && v.position.spec_in_canvas(o.canvas) && font_size_is_valid(v.font_size),
        edited(o, v) matches Ok(r) ==> {
            let i = widget_index(o.widgets, v.id);
            &&& 0 <= i < o.widgets.len()
            &&& o.widgets[i].id == v.id
            &&& r.id == o.id
            &&& r.name == o.name
            &&& r.canvas == o.canvas
            &&& r.widgets.len() == o.widgets.len()
            &&& r.widgets[i] == v
            &&& r.widgets[i].name == v.name
            &&& r.widgets[i].content == v.content
            &&& r.widgets[i].font_family == v.font_family
            &&& r.widgets[i].position == v.position
            &&& r.widgets[i].font_size == v.font_size
            &&& r.widgets[i].color == v.color
            &&& r.widgets[i].alignment == v.alignment
            &&& forall|j: int| 0 <= j < o.widgets.len() && j != i ==> #[trigger] r.widgets[j] == o.widgets[j]
        },
{
    lemma_widget_index(o.widgets, v.id);
}

proof fn lemma_widget_index_same_ids(a: Seq<TextWidgetView>, b: Seq<TextWidgetView>, id: TextWidgetId)
    requires
        a.len() == b.len(),
        forall|i: int| 0 <= i < a.len() ==> (#[trigger] a[i]).id == b[i].id,
    ensures
        widget_index(a, id) == widget_index(b, id),
    decreases a.len(),
{
    if a.len() > 0 {
        assert(a[0].id == b[0].id);
        let ra = a.drop_first();
        let rb = b.drop_first();
        assert forall|i: int| 0 <= i < ra.len() implies (#[trigger] ra[i]).id == rb[i].id by {
            assert(ra[i] == a[i + 1]);
            assert(rb[i] == b[i + 1]);
        }
        lemma_widget_index_same_ids(ra, rb, id);
    }
}

/// One step of an edit keeps the widget identities, so the edited widget
/// stays where it is.
proof fn lemma_step_keeps_index(before: OverlayView, after: OverlayView, id: TextWidgetId, w: TextWidgetView)
    requires
        has_widget(before.widgets, id),
        w.id == id,
        with_widget_view(before, widget_index(before.widgets, id), w, after),
    ensures
        widget_index(after.widgets, id) == widget_index(before.widgets, id),
        has_widget(after.widgets, id),
        after.canvas == before.canvas,
{
    lemma_widget_index(before.widgets, id);
    let i = widget_index(before.widgets, id);
    assert forall|k: int| 0 <= k < after.widgets.len() implies (#[trigger] after.widgets[k]).id
        == before.widgets[k].id by {
        if k != i {
            assert(after.widgets[k] == before.widgets[k]);
        }
    }
    lemma_widget_index_same_ids(after.widgets, before.widgets, id);
    lemma_widget_index(after.widgets, id);
}

/// Gives a widget of an overlay all the inspector's values.
pub fn apply_values(overlay: Overlay, values: &TextEditorValues) -> (result: Result<Overlay, ModelError>)
    ensures
        mutation_view(result) == edited(overlay@, values@),
{
    let ghost o0 = overlay@;
    let id = values.id;
    let mut o = overlay;
    proof {
        lemma_widget_index(o0.widgets, id);
    }
    if let Err(e) = o.rename_widget(id, values.name.as_str()) {
        return Err(e);
    }
    let ghost i = widget_index(o0.widgets, id);
    let ghost o1 = o@;
    proof {
        lemma_step_keeps_index(o0, o1, id, TextWidgetView { name: values.name@, ..o0.widgets[i] });
    }
    if let Err(e) = o.set_widget_content(id, values.content.as_str()) {
        return Err(e);
    }
    let ghost o2 = o@;
    proof {
        lemma_step_keeps_index(o1, o2, id, TextWidgetView { content: values.content@, ..o1.widgets[i] });
    }
    if let Err(e) = o.set_widget_font_family(id, values.font_family) {
        return Err(e);
    }
    let ghost o3 = o@;
    proof {
        lemma_step_keeps_index(o2, o3, id, TextWidgetView { font_family: values.font_family, ..o2.widgets[i] });
    }
    if let Err(e) = o.set_widget_position(id, values.position) {
        return Err(e);
    }
    let ghost o4 = o@;
    proof {
        lemma_step_keeps_index(o3, o4, id, TextWidgetView { position: values.position, ..o3.widgets[i] });
    }
    if let Err(e) = o.set_widget_font_size(id, values.font_size) {
        return Err(e);
    }
    let ghost o5 = o@;
    proof {
        lemma_step_keeps_index(o4, o5, id, TextWidgetView { font_size: values.font_size, ..o4.widgets[i] });
    }
    if let Err(e) = o.set_widget_color(id, values.color) {
        return Err(e);
    }
    let ghost o6 = o@;
    proof {
        lemma_step_keeps_index(o5, o6, id, TextWidgetView { color: values.color, ..o5.widgets[i] });
    }
    if let Err(e) = o.set_widget_alignment(id, values.alignment) {
        return Err(e);
    }
    let ghost o7 = o@;
    proof {
        lemma_step_keeps_index(o6, o7, id, TextWidgetView { alignment: values.alignment, ..o6.widgets[i] });
        assert(o7.widgets[i] == values@);
        assert(o7.widgets =~= o0.widgets.update(i, values@));
    }
    Ok(o)
}

/// Applies the inspector's values to a widget through the coordinator, as
/// one change of its overlay (see `update_outcome`).
pub fn apply_text_editor_values<H: HubOperations>(
    coordinator: &mut HeadlessCoordinator<H>,
    overlay_id: OverlayId,
    values: TextEditorValues,
) -> (result: Result<(), CoordinatorError>)
    requires
        old(coordinator).wf(),
    ensures
        final(coordinator).wf(),
        final(coordinator).spec_store() == old(coordinator).spec_store(),
        update_outcome(
            old(coordinator).spec_hub(),
            old(coordinator)@,
            overlay_id,
            edited(overlay_of(old(coordinator)@, overlay_id), values@),
            result,
            final(coordinator)@,
        ),
{
    let ghost v = values@;
    let edit = move |o: Overlay| -> (r: Result<Overlay, ModelError>)
        ensures
            mutation_view(r) == edited(o@, v),
        { apply_values(o, &values) };
    coordinator.update_overlay(overlay_id, edit)
}

/// Duplicates the selected widget of the selected overlay.
pub fn duplicate_selected_widget<H: HubOperations>(coordinator: &mut HeadlessCoordinator<H>) -> (result:
    Result<TextWidgetId, FormError>)
    requires
        old(coordinator).wf(),
    ensures
        final(coordinator).wf(),
        final(coordinator).spec_store() == old(coordinator).spec_store(),
        match (old(coordinator)@.selected, old(coordinator)@.selected_widget) {
            (None, _) => result == Err::<TextWidgetId, FormError>(FormError::NoOverlaySelected)
                && final(coordinator)@ == old(coordinator)@,
            (Some(_), None) => result == Err::<TextWidgetId, FormError>(FormError::NoWidgetSelected)
                && final(coordinator)@ == old(coordinator)@,
            (Some(o), Some(w)) => match result {
                Ok(new_id) => crate::coordinator::duplication_outcome(
                    old(coordinator).spec_hub(),
                    old(coordinator)@,
                    o,
                    w,
                    Ok(new_id),
                    final(coordinator)@,
                ),
                Err(FormError::Operation(e)) => crate::coordinator::duplication_outcome(
                    old(coordinator).spec_hub(),
                    old(coordinator)@,
                    o,
                    w,
                    Err(e),
                    final(coordinator)@,
                ),
                Err(_) => false,
            },
        },
{
    let overlay_id = match coordinator.selected_overlay_id() {
        Some(id) => id,
        None => return Err(FormError::NoOverlaySelected),
    };
    let widget_id = match coordinator.selected_widget_id() {
        Some(id) => id,
        None => return Err(FormError::NoWidgetSelected),
    };
    match coordinator.duplicate_widget(overlay_id, widget_id) {
        Ok(id) => Ok(id),
        Err(e) => Err(FormError::Operation(e)),
    }
}

/// Moves the selected widget one layer toward the front or the back.
pub fn move_selected_widget<H: HubOperations>(coordinator: &mut HeadlessCoordinator<H>, forward: bool) -> (result:
    Result<(), FormError>)
    requires
        old(coordinator).wf(),
    ensures
        final(coordinator).wf(),
        final(coordinator).spec_store() == old(coordinator).spec_store(),
        match (old(coordinator)@.selected, old(coordinator)@.selected_widget) {
            (None, _) => result == Err::<(), FormError>(FormError::NoOverlaySelected) && final(coordinator)@ == old(coordinator)@,
            (Some(_), None) => result == Err::<(), FormError>(FormError::NoWidgetSelected) && final(coordinator)@ == old(coordinator)@,
            (Some(o), Some(w)) => {
                let mutated = if forward {
                    crate::model::moved_forward(overlay_of(old(coordinator)@, o), w)
                } else {
                    crate::model::moved_backward(overlay_of(old(coordinator)@, o), w)
                };
                match result {
                    Ok(()) => update_outcome(
                        old(coordinator).spec_hub(),
                        old(coordinator)@,
                        o,
                        mutated,
                        Ok(()),
                        final(coordinator)@,
                    ),
                    Err(FormError::Operation(e)) => update_outcome(
                        old(coordinator).spec_hub(),
                        old(coordinator)@,
                        o,
                        mutated,
                        Err(e),
                        final(coordinator)@,
                    ),
                    Err(_) => false,
                }
            },
        },
{
    let overlay_id = match coordinator.selected_overlay_id() {
        Some(id) => id,
        None => return Err(FormError::NoOverlaySelected),
    };
    let widget_id = match coordinator.selected_widget_id() {
        Some(id) => id,
        None => return Err(FormError::NoWidgetSelected),
    };
    let moved = if forward {
        coordinator.move_widget_forward(overlay_id, widget_id)
    } else {
        coordinator.move_widget_backward(overlay_id, widget_id)
    };
    match moved {
        Ok(()) => Ok(()),
        Err(e) => Err(FormError::Operation(e)),
    }
}

/// The index of the first overlay with the given name, or -1.
pub open spec fn named_index(os: Seq<OverlayView>, name: Seq<char>) -> int
    decreases os.len(),
{
    if os.len() == 0 {
        -1
    } else if os[0].name == name {
        0
    } else {
        let rest = named_index(os.drop_first(), name);
        if rest < 0 {
            -1
        } else {
            rest + 1
        }
    }
}

proof fn lemma_named_index(os: Seq<OverlayView>, name: Seq<char>)
    ensures
        -1 <= named_index(os, name) < os.len(),
        named_index(os, name) >= 0 ==> os[named_index(os, name)].name == name,
        forall|j: int| 0 <= j < named_index(os, name) ==> (#[trigger] os[j]).name != name,
        named_index(os, name) < 0 ==> forall|j: int| 0 <= j < os.len() ==> (#[trigger] os[j]).name
            != name,
    decreases os.len(),
{
    if os.len() > 0 {
        let rest = os.drop_first();
        lemma_named_index(rest, name);
        assert forall|j: int| 1 <= j < os.len() implies os[j] == rest[j - 1] by {}
        if os[0].name != name {
            if named_index(rest, name) >= 0 {
                let r = named_index(rest, name);
                assert(os[r + 1] == rest[r]);
                assert forall|j: int| 0 <= j < r + 1 implies (#[trigger] os[j]).name != name by {
                    if j > 0 {
                        assert(os[j] == rest[j - 1]);
                    }
                }
            } else {
                assert forall|j: int| 0 <= j < os.len() implies (#[trigger] os[j]).name != name by {
                    if j > 0 {
                        assert(os[j] == rest[j - 1]);
                    }
                }
            }
        }
    }
}

/// Selects the first overlay with the given name.
pub fn select_named<H: HubOperations>(coordinator: &mut HeadlessCoordinator<H>, name: &str) -> (result:
    Result<(), FormError>)
    requires
        old(coordinator).wf(),
    ensures
        final(coordinator).wf(),
        final(coordinator).spec_store() == old(coordinator).spec_store(),
        ({
            let k = named_index(old(coordinator)@.overlays, name@);
            if k < 0 {
                result matches Err(FormError::UnknownOverlayName(n)) && n@ == name@ && final(coordinator)@ == old(coordinator)@
            } else {
                let id = old(coordinator)@.overlays[k].id;
                result is Ok && final(coordinator)@ == (WorkspaceView {
                    selected: Some(id),
                    selected_widget: if old(coordinator)@.selected == Some(id) {
                        old(coordinator)@.selected_widget
                    } else {
                        None
                    },
                    operation_error: None,
                    ..old(coordinator)@
                })
            }
        }),
{
    let ghost os = coordinator@.overlays;
    proof {
        lemma_named_index(os, name@);
    }
    let overlays = coordinator.overlays();
    let mut i: usize = 0;
    while i < overlays.len()
        invariant
            0 <= i <= overlays@.len(),
            crate::model::overlay_views(overlays@) == os,
            os == old(coordinator)@.overlays,
            coordinator@ == old(coordinator)@,
            coordinator.wf(),
            coordinator.spec_store() == old(coordinator).spec_store(),
            forall|j: int| 0 <= j < i ==> (#[trigger] os[j]).name != name@,
        decreases overlays@.len() - i,
    {
        assert(os[i as int] == overlays@[i as int]@);
        if same_text(overlays[i].name(), name) {
            let id = overlays[i].id();
            proof {
                lemma_named_index(os, name@);
                let k = named_index(os, name@);
                if k >= 0 && k < i {
                    assert(os[k].name == name@);
                }
                assert(k == i);
                crate::coordinator::lemma_overlay_index(os, id);
                assert(crate::coordinator::has_overlay(os, id));
            }
            return match coordinator.select_overlay(id) {
                Ok(()) => Ok(()),
                Err(e) => Err(FormError::Operation(e)),
            };
        }
        i = i + 1;
    }
    Err(FormError::UnknownOverlayName(string_from_str(name)))
}


/// The panel's port lines.
pub open spec fn panel_ports(settings: SettingsStateView) -> Seq<Seq<char>> {
    match settings.configured_port {
        Some(port) => seq![
            "Current configured port: "@ + decimal_digits(port as nat),
            "Next-launch port: "@ + decimal_digits(port as nat),
        ],
        None => seq![
            "Current configured port: unavailable"@,
            "Next-launch port: unavailable"@,
            "Display-only default: "@ + decimal_digits(DEFAULT_PORT as nat)
                + " (not used while settings are invalid)."@,
        ],
    }
}

/// The panel's settings-path line.
pub open spec fn panel_path(path_text: Option<Seq<char>>) -> Seq<char> {
    match path_text {
        Some(text) => "Settings path: "@ + text,
        None => "Settings path: unavailable"@,
    }
}

/// The panel's line about the running server, if one runs.
pub open spec fn panel_running(active_port: Option<u16>) -> Seq<Seq<char>> {
    match active_port {
        Some(port) => seq![
            "Running server remains on port "@ + decimal_digits(port as nat) + " until restart."@,
        ],
        None => Seq::empty(),
    }
}

/// The panel's lines about a settings file that could not be loaded.
pub open spec fn panel_load_error(settings: SettingsStateView) -> Seq<Seq<char>> {
    match settings.error {
        Some(error) => seq![
            "Settings error: "@ + settings_message(error),
            SETTINGS_BACKUP_ADVICE@,
            NO_FALLBACK_NOTICE@,
        ],
        None => Seq::empty(),
    }
}

/// The panel's lines about a failed save.
pub open spec fn panel_save_error(forms: FormView) -> Seq<Seq<char>> {
    match forms.port_save_error {
        Some(error) => seq![form_message(error, Seq::empty(), Seq::empty()), SAVE_RETRY_ADVICE@],
        None => Seq::empty(),
    }
}

/// The panel's closing notice.
pub open spec fn panel_outcome(forms: FormView) -> Seq<char> {
    if forms.port_save_succeeded {
        PORT_SAVED_NOTICE@
    } else {
        RESTART_NOTICE@
    }
}

/// The lines of the local-server settings panel, top to bottom. `path_text`
/// is the display text of the settings path, when one could be resolved;
/// `active_port` is the port of the running server, if any.
pub open spec fn settings_panel(
    settings: SettingsStateView,
    forms: FormView,
    path_text: Option<Seq<char>>,
    active_port: Option<u16>,
) -> Seq<Seq<char>> {
    seq!["Local server settings"@] + panel_ports(settings) + seq![panel_path(path_text)]
        + panel_running(active_port) + panel_load_error(settings) + seq![
        PORT_FIELD_LABEL@,
        SAVE_PORT_LABEL@,
    ] + panel_save_error(forms) + seq![panel_outcome(forms)]
}

/// What to do before repairing an invalid settings file.
pub const SETTINGS_BACKUP_ADVICE: &'static str = "First copy the exact settings source to a separate backup location. Then repair it or move it aside yourself, and restart Chikachika.";

/// The notice that an invalid settings file blocks the server.
pub const NO_FALLBACK_NOTICE: &'static str = "No fallback port is used while settings are invalid.";

/// The label of the next-launch port field.
pub const PORT_FIELD_LABEL: &'static str = "Port for next launch (1\u{2013}65535)";

/// The label of the save button.
pub const SAVE_PORT_LABEL: &'static str = "Save port for next launch";

/// The advice after a failed save.
pub const SAVE_RETRY_ADVICE: &'static str = "Check the settings path and permissions, then try again. The previous configured port remains unchanged.";

/// The notice after a successful save.
pub const PORT_SAVED_NOTICE: &'static str = "Port saved for next launch. Changes take effect after restarting Chikachika.";

/// The standing notice that port changes wait for a restart.
pub const RESTART_NOTICE: &'static str = "Port changes take effect only after restarting Chikachika.";

fn push_port_lines(lines: &mut Vec<String>, settings: &SettingsState)
    ensures
        line_texts(final(lines)@) == line_texts(old(lines)@) + panel_ports(settings@),
{
    match settings.configured_port() {
        Some(port) => {
            let mut current = String::new();
            current.append("Current configured port: ");
            push_decimal(&mut current, port as u64);
            push_line(lines, current);
            let mut next = String::new();
            next.append("Next-launch port: ");
            push_decimal(&mut next, port as u64);
            push_line(lines, next);
        },
        None => {
            push_literal(lines, "Current configured port: unavailable");
            push_literal(lines, "Next-launch port: unavailable");
            let mut shown = String::new();
            shown.append("Display-only default: ");
            push_decimal(&mut shown, settings.display_port() as u64);
            shown.append(" (not used while settings are invalid).");
            push_line(lines, shown);
        },
    }
    assert(line_texts(final(lines)@) =~= line_texts(old(lines)@) + panel_ports(settings@));
}

fn push_path_and_server_lines(
    lines: &mut Vec<String>,
    path_text: Option<&str>,
    active_port: Option<u16>,
)
    ensures
        line_texts(final(lines)@) == line_texts(old(lines)@) + seq![
            panel_path(
                match path_text {
                    Some(text) => Some(text@),
                    None => None,
                },
            ),
        ] + panel_running(active_port),
{
    let ghost path_view = match path_text {
        Some(text) => Some(text@),
        None => None,
    };
    match path_text {
        Some(text) => {
            let mut path = String::new();
            path.append("Settings path: ");
            path.append(text);
            push_line(lines, path);
        },
        None => push_literal(lines, "Settings path: unavailable"),
    }
    let ghost middle = line_texts(lines@);
    assert(middle =~= line_texts(old(lines)@) + seq![panel_path(path_view)]);
    if let Some(port) = active_port {
        let mut running = String::new();
        running.append("Running server remains on port ");
        push_decimal(&mut running, port as u64);
        running.append(" until restart.");
        push_line(lines, running);
    }
    assert(line_texts(final(lines)@) =~= middle + panel_running(active_port));
}

fn push_load_error_lines(lines: &mut Vec<String>, settings: &SettingsState)
    ensures
        line_texts(final(lines)@) == line_texts(old(lines)@) + panel_load_error(settings@),
{
    if let Some(error) = settings.settings_error() {
        let mut shown = String::new();
        shown.append("Settings error: ");
        let detail = error.message();
        shown.append(detail.as_str());
        push_line(lines, shown);
        push_literal(lines, SETTINGS_BACKUP_ADVICE);
        push_literal(lines, NO_FALLBACK_NOTICE);
    }
    assert(line_texts(final(lines)@) =~= line_texts(old(lines)@) + panel_load_error(settings@));
}

fn push_save_lines(lines: &mut Vec<String>, forms: &FormState)
    ensures
        line_texts(final(lines)@) == line_texts(old(lines)@) + seq![
            PORT_FIELD_LABEL@,
            SAVE_PORT_LABEL@,
        ] + panel_save_error(forms@) + seq![panel_outcome(forms@)],
{
    push_literal(lines, PORT_FIELD_LABEL);
    push_literal(lines, SAVE_PORT_LABEL);
    let ghost labelled = line_texts(lines@);
    if let Some(error) = forms.port_save_error() {
        proof {
            reveal_strlit("");
            assert(""@ =~= Seq::<char>::empty());
        }
        push_line(lines, error.message("", ""));
        push_literal(lines, SAVE_RETRY_ADVICE);
    }
    let ghost reported = line_texts(lines@);
    assert(reported =~= labelled + panel_save_error(forms@));
    if forms.port_save_succeeded() {
        push_literal(lines, PORT_SAVED_NOTICE);
    } else {
        push_literal(lines, RESTART_NOTICE);
    }
    assert(line_texts(final(lines)@) =~= line_texts(old(lines)@) + seq![
        PORT_FIELD_LABEL@,
        SAVE_PORT_LABEL@,
    ] + panel_save_error(forms@) + seq![panel_outcome(forms@)]);
}

/// The lines of the local-server settings panel for `settings` and the
/// port field of `forms`.
pub fn settings_panel_lines(
    settings: &SettingsState,
    forms: &FormState,
    path_text: Option<&str>,
    active_port: Option<u16>,
) -> (lines: Vec<String>)
    ensures
        line_texts(lines@) == settings_panel(
            settings@,
            forms@,
            match path_text {
                Some(text) => Some(text@),
                None => None,
            },
            active_port,
        ),
{
    let mut lines: Vec<String> = Vec::new();
    push_literal(&mut lines, "Local server settings");
    push_port_lines(&mut lines, settings);
    push_path_and_server_lines(&mut lines, path_text, active_port);
    push_load_error_lines(&mut lines, settings);
    push_save_lines(&mut lines, forms);
    assert(line_texts(lines@) =~= settings_panel(
        settings@,
        forms@,
        match path_text {
            Some(text) => Some(text@),
            None => None,
        },
        active_port,
    ));
    lines
}

} // verus!
