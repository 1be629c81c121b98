//! Application startup and shutdown decisions: which workspace opens, whether
//! the server starts and on which port, and how the outcomes of the user
//! interface and of the server's shutdown combine.

use vstd::prelude::*;
use vstd::string::StringExecFns;
use crate::coordinator::{
    coordinator_message, fresh_workspace, opening_error, registered_all, CoordinatorError,
    HeadlessCoordinator, HubOperations,
};
use crate::model::{first_collection_error, overlay_views, Overlay};
use crate::persistence::{PersistenceError, Store};
use crate::settings::SettingsState;
use crate::text::{line_texts, push_line, push_literal};

verus! {

/// Why the application could not open a workspace, and the store it tried
/// (when its path could be resolved).
#[derive(Debug)]
pub struct BootstrapFailure {
    store: Option<Store>,
    error: CoordinatorError,
}

/// What to do before repairing a document that blocked startup.
pub const SOURCE_BACKUP_ADVICE: &'static str = "First copy the exact source file to a separate backup location. Then repair it or move it aside yourself, and restart Chikachika.";

/// What to do when no document path could be resolved.
pub const NO_SOURCE_PATH_ADVICE: &'static str = "No persistence path could be resolved. Fix the platform app-data configuration yourself, then restart Chikachika.";

/// The lines of the blocked-startup screen for an error whose text is
/// `error_text`: with a store, its path text `source_text` and the backup
/// advice; without one, the advice to fix the platform configuration.
pub open spec fn blocked_screen(error_text: Seq<char>, has_store: bool, source_text: Seq<char>) -> Seq<
    Seq<char>,
> {
    seq![
        "Chikachika cannot open this workspace"@,
        "Startup is blocked"@,
        "The saved overlay source was not changed."@,
        error_text,
    ] + if has_store {
        seq![
            "Source: "@ + source_text,
            SOURCE_BACKUP_ADVICE@,
            "No replacement Save action is available here."@,
        ]
    } else {
        seq![
            NO_SOURCE_PATH_ADVICE@,
            "No replacement Save action is available because no source path exists."@,
        ]
    }
}

impl BootstrapFailure {
    pub closed spec fn spec_store(&self) -> Option<Store> {
        self.store
    }

    pub closed spec fn spec_error(&self) -> CoordinatorError {
        self.error
    }

    /// A failure to resolve the document store at all.
    pub fn without_store(error: PersistenceError) -> (failure: Self)
        ensures
            failure.spec_store() is None,
            failure.spec_error() == CoordinatorError::Persistence(error),
    {
        BootstrapFailure { store: None, error: CoordinatorError::Persistence(error) }
    }

    /// A failure to open the workspace of `store`.
    pub fn with_store(store: Store, error: CoordinatorError) -> (failure: Self)
        ensures
            failure.spec_store() == Some(store),
            failure.spec_error() == error,
    {
        BootstrapFailure { store: Some(store), error }
    }

    /// The store that could not be opened, kept untouched for recovery.
    pub fn store(&self) -> (store: Option<&Store>)
        ensures
            match store {
                Some(s) => self.spec_store() == Some(*s),
                None => self.spec_store() is None,
            },
    {
        match &self.store {
            Some(s) => Some(s),
            None => None,
        }
    }

    pub fn error(&self) -> (error: &CoordinatorError)
        ensures
            *error == self.spec_error(),
    {
        &self.error
    }

    /// The user-facing text of this failure, as `Display` writes it;
    /// `first` and `second` are passed on as `CoordinatorError::message`
    /// describes.
    pub fn message(&self, first: &str, second: &str) -> (text: String)
        ensures
            text@ == "application startup is blocked: "@ + coordinator_message(
                self.spec_error(),
                first@,
                second@,
            ),
    {
        let mut text = String::new();
        text.append("application startup is blocked: ");
        let detail = self.error.message(first, second);
        text.append(detail.as_str());
        text
    }

    /// The lines of the blocked-startup screen, top to bottom; `first` and
    /// `second` are passed on as `CoordinatorError::message` describes, and
    /// `source_text` is the display text of the store's path, read only when
    /// there is a store.
    pub fn blocked_lines(&self, first: &str, second: &str, source_text: &str) -> (lines: Vec<String>)
        ensures
            line_texts(lines@) == blocked_screen(
                coordinator_message(self.spec_error(), first@, second@),
                self.spec_store() is Some,
                source_text@,
            ),
    {
        let mut lines: Vec<String> = Vec::new();
        push_literal(&mut lines, "Chikachika cannot open this workspace");
        push_literal(&mut lines, "Startup is blocked");
        push_literal(&mut lines, "The saved overlay source was not changed.");
        push_line(&mut lines, self.error.message(first, second));
        let ghost head = line_texts(lines@);
        match &self.store {
            Some(_) => {
                let mut source = String::new();
                source.append("Source: ");
                source.append(source_text);
                push_line(&mut lines, source);
                push_literal(&mut lines, SOURCE_BACKUP_ADVICE);
                push_literal(&mut lines, "No replacement Save action is available here.");
            },
            None => {
                push_literal(&mut lines, NO_SOURCE_PATH_ADVICE);
                push_literal(
                    &mut lines,
                    "No replacement Save action is available because no source path exists.",
                );
            },
        }
        assert(line_texts(lines@) =~= blocked_screen(
            coordinator_message(self.spec_error(), first@, second@),
            self.spec_store() is Some,
            source_text@,
        ));
        lines
    }

    /// The persistence error, when that is what blocked startup.
    pub fn persistence_error(&self) -> (error: Option<&PersistenceError>)
        ensures
            match self.spec_error() {
                CoordinatorError::Persistence(e) => error == Some(&e),
                _ => error is None,
            },
    {
        match &self.error {
            CoordinatorError::Persistence(e) => Some(e),
            _ => None,
        }
    }
}

/// The workspace the application opens with, or why it is blocked.
pub enum BootstrapOutcome<H: HubOperations> {
    Ready(HeadlessCoordinator<H>),
    Blocked(BootstrapFailure),
}

impl<H: HubOperations> BootstrapOutcome<H> {
    pub fn into_coordinator(self) -> (coordinator: Option<HeadlessCoordinator<H>>)
        ensures
            match self {
                BootstrapOutcome::Ready(c) => coordinator == Some(c),
                BootstrapOutcome::Blocked(_) => coordinator is None,
            },
    {
        match self {
            BootstrapOutcome::Ready(c) => Some(c),
            BootstrapOutcome::Blocked(_) => None,
        }
    }

    pub fn failure(&self) -> (failure: Option<&BootstrapFailure>)
        ensures
            match self {
                BootstrapOutcome::Ready(_) => failure is None,
                BootstrapOutcome::Blocked(f) => failure == Some(f),
            },
    {
        match self {
            BootstrapOutcome::Ready(_) => None,
            BootstrapOutcome::Blocked(f) => Some(f),
        }
    }

    pub fn with_settings(self, settings: SettingsState) -> (bootstrap: ApplicationBootstrap<H>)
        ensures
            bootstrap.spec_outcome() == self,
            bootstrap.spec_settings() == settings,
    {
        ApplicationBootstrap { outcome: self, settings }
    }
}

/// The workspace outcome together with the settings state.
pub struct ApplicationBootstrap<H: HubOperations> {
    outcome: BootstrapOutcome<H>,
    settings: SettingsState,
}

impl<H: HubOperations> ApplicationBootstrap<H> {
    pub closed spec fn spec_outcome(&self) -> BootstrapOutcome<H> {
        self.outcome
    }

    pub closed spec fn spec_settings(&self) -> SettingsState {
        self.settings
    }

    pub fn new(outcome: BootstrapOutcome<H>, settings: SettingsState) -> (bootstrap: Self)
        ensures
            bootstrap.spec_outcome() == outcome,
            bootstrap.spec_settings() == settings,
    {
        ApplicationBootstrap { outcome, settings }
    }

    pub fn outcome(&self) -> (outcome: &BootstrapOutcome<H>)
        ensures
            *outcome == self.spec_outcome(),
    {
        &self.outcome
    }

    pub fn settings(&self) -> (settings: &SettingsState)
        ensures
            *settings == self.spec_settings(),
    {
        &self.settings
    }

    pub fn into_parts(self) -> (parts: (BootstrapOutcome<H>, SettingsState))
        ensures
            parts.0 == self.spec_outcome(),
            parts.1 == self.spec_settings(),
    {
        (self.outcome, self.settings)
    }
}

/// Opens the workspace of `store` from what loading it gave. A load error or
/// a collection that cannot be opened blocks startup and keeps the store
/// untouched for recovery.
pub fn bootstrap_from_load<H: HubOperations>(
    store: Store,
    loaded: Result<Vec<Overlay>, PersistenceError>,
    hub: H,
) -> (outcome: BootstrapOutcome<H>)
    ensures
        match loaded {
            Ok(os) => match outcome {
                BootstrapOutcome::Ready(c) => {
                    &&& first_collection_error(overlay_views(os@), 0).is_none()
                    &&& registered_all(hub, overlay_views(os@))
                    &&& c.wf()
                    &&& c.spec_store() == store
                    &&& c.spec_hub() == hub
                    &&& c@ == fresh_workspace(overlay_views(os@))
                },
                BootstrapOutcome::Blocked(f) => f.spec_store() == Some(store) && opening_error(
                    hub,
                    overlay_views(os@),
                    f.spec_error(),
                ),
            },
            Err(e) => outcome matches BootstrapOutcome::Blocked(f) && f.spec_store() == Some(store)
                && f.spec_error() == CoordinatorError::Persistence(e),
        },
{
    let retained = store.clone();
    match loaded {
        Ok(overlays) => match HeadlessCoordinator::from_overlays_with_hub(store, overlays, hub) {
            Ok(c) => BootstrapOutcome::Ready(c),
            Err(error) => BootstrapOutcome::Blocked(BootstrapFailure::with_store(retained, error)),
        },
        Err(error) => BootstrapOutcome::Blocked(
            BootstrapFailure::with_store(retained, CoordinatorError::Persistence(error)),
        ),
    }
}

/// What startup does about the server.
#[derive(Clone, Copy, Debug, Eq, PartialEq, Structural)]
pub enum ServerPlan {
    /// The workspace is blocked, or there is no port and no error to show.
    NotStarted,
    /// Settings could not be loaded: the server stays off and the settings
    /// error is recorded with the workspace.
    SettingsUnavailable,
    /// Start the server on the loopback address at this port, with no
    /// fallback to another port.
    Start(u16),
}

/// Decides whether the server starts: only for a ready workspace, and only
/// on the configured port.
pub fn plan_server_start<H: HubOperations>(outcome: &BootstrapOutcome<H>, settings: &SettingsState) -> (plan: ServerPlan)
    ensures
        plan == match outcome {
            BootstrapOutcome::Blocked(_) => ServerPlan::NotStarted,
            BootstrapOutcome::Ready(_) => match settings@.configured_port {
                Some(port) => ServerPlan::Start(port),
                None => if settings@.error is Some {
                    ServerPlan::SettingsUnavailable
                } else {
                    ServerPlan::NotStarted
                },
            },
        },
{
    match outcome {
        BootstrapOutcome::Blocked(_) => ServerPlan::NotStarted,
        BootstrapOutcome::Ready(_) => match settings.configured_port() {
            Some(port) => ServerPlan::Start(port),
            None => if settings.settings_error().is_some() {
                ServerPlan::SettingsUnavailable
            } else {
                ServerPlan::NotStarted
            },
        },
    }
}

/// The message for a user interface and a server shutdown that both failed.
pub open spec fn spec_lifecycle_message(gui_error: Seq<char>, shutdown_error: Seq<char>) -> Seq<char> {
    "GUI failed ("@ + gui_error + ") and server shutdown failed ("@ + shutdown_error + ")"@
}

/// Combines the outcome of the user interface and of the server shutdown
/// that follows it: success only when both succeeded; a single failure is
/// returned as it is; when both failed, both stay visible in one message.
pub fn combine_lifecycle_results(gui_result: Result<(), String>, shutdown_result: Result<(), String>) -> (result: Result<(), String>)
    ensures
        match (gui_result, shutdown_result) {
            (Ok(()), Ok(())) => result is Ok,
            (Err(g), Ok(())) => result == Err::<(), String>(g),
            (Ok(()), Err(s)) => result == Err::<(), String>(s),
            (Err(g), Err(s)) => result matches Err(m) && m@ == spec_lifecycle_message(g@, s@),
        },
{
    match (gui_result, shutdown_result) {
        (Ok(()), Ok(())) => Ok(()),
        (Err(gui_error), Ok(())) => Err(gui_error),
        (Ok(()), Err(shutdown_error)) => Err(shutdown_error),
        (Err(gui_error), Err(shutdown_error)) => {
            let mut message = String::new();
            message.append("GUI failed (");
            message.append(gui_error.as_str());
            message.append(") and server shutdown failed (");
            message.append(shutdown_error.as_str());
            message.append(")");
            assert(message@ =~= spec_lifecycle_message(gui_error@, shutdown_error@));
            Err(message)
        },
    }
}

} // verus!
