//! The headless workspace coordinator.
//!
//! The coordinator owns the ordered overlay collection being edited, the
//! selection, the content of the last successful save, and the errors shown
//! to the user. Every change to an overlay is checked as a whole candidate
//! collection and published to the hosting hub before the workspace or the
//! selection changes, so a refused change leaves everything as it was.

use vstd::prelude::*;
use vstd::string::StringExecFns;
use crate::hub::{hub_message, HubError, PublishResult};
use crate::ids::{hyphenated_uuid, OverlayId, TextWidgetId};
use crate::model::{
    all_widget_ids, collection_widget_error, first_collection_error, has_widget, is_nan,
    lemma_collection_valid_at, lemma_same_content_symmetric, lemma_same_content_transitive,
    lemma_backward_then_forward, lemma_forward_then_backward, lemma_widget_index,
    lemma_widgets_valid_at, model_message, moved_backward, moved_forward, overlay_views,
    unique_widget_ids, validate_collection, widget_ids, widget_index, CanvasSize, ModelError,
    Overlay, OverlayView, TextWidget, TextWidgetView,
};
use crate::persistence::{persistence_message, PersistenceError, Store};
use crate::server::{overlay_url, server_message, spec_overlay_url, ServerAddress, ServerError};
use crate::settings::{settings_message, SettingsError};
use crate::text::{is_blank, string_from_str};

verus! {

/// The hosting boundary the coordinator publishes to. The application's
/// hub and test doubles implement it; the coordinator states what it does
/// with every answer the hub may give.
pub trait HubOperations: Clone {
    fn register_overlay(&self, overlay: Overlay) -> Result<(), HubError>;

    fn publish_overlay(&self, overlay: &Overlay) -> Result<PublishResult, HubError>;

    fn remove_overlay(&self, id: OverlayId) -> Result<Option<Overlay>, HubError>;

    fn snapshot_overlay(&self, id: OverlayId) -> Result<Option<Overlay>, HubError>;
}

/// A refused workspace operation.
#[derive(Debug)]
#[allow(inconsistent_fields)]
pub enum CoordinatorError {
    Persistence(PersistenceError),
    Model(ModelError),
    Hub(HubError),
    Server(ServerError),
    Settings(SettingsError),
    UnknownOverlay { id: OverlayId },
    NoOverlaySelected,
    UnknownWidget { id: TextWidgetId },
    NoWidgetSelected,
    ConfirmationRequired,
    BootstrapCleanup { primary: HubError, cleanup: Vec<HubError> },
    HubWorkspaceDivergence { id: OverlayId },
}

/// The text that follows a failed bootstrap's primary error: each cleanup
/// error in order, each after a colon.
pub open spec fn cleanup_text(errors: Seq<HubError>) -> Seq<char>
    decreases errors.len(),
{
    if errors.len() == 0 {
        Seq::empty()
    } else {
        cleanup_text(errors.drop_last()) + ": "@ + hub_message(errors.last())
    }
}

/// The user-facing text of a coordinator error. `first` and `second` stand
/// for the decimal text of the binary32 numbers of a model error that the
/// error carries, directly or inside a persistence error, as in
/// `model_message`.
pub open spec fn coordinator_message(
    error: CoordinatorError,
    first: Seq<char>,
    second: Seq<char>,
) -> Seq<char> {
    match error {
        CoordinatorError::Persistence(e) => persistence_message(e, first, second),
        CoordinatorError::Model(m) => model_message(m, first, second),
        CoordinatorError::Hub(e) => hub_message(e),
        CoordinatorError::Server(e) => server_message(e),
        CoordinatorError::Settings(e) =>
            "could not load application settings: "@ + settings_message(e),
        CoordinatorError::UnknownOverlay { id } =>
            "overlay "@ + hyphenated_uuid(id.bits()) + " was not found"@,
        CoordinatorError::NoOverlaySelected => "no overlay is selected"@,
        CoordinatorError::UnknownWidget { id } =>
            "widget "@ + hyphenated_uuid(id.bits()) + " was not found"@,
        CoordinatorError::NoWidgetSelected => "no widget is selected"@,
        CoordinatorError::ConfirmationRequired => "overlay deletion requires confirmation"@,
        CoordinatorError::BootstrapCleanup { primary, cleanup } =>
            "could not restore overlays: "@ + hub_message(primary) + "; cleanup failed"@
                + cleanup_text(cleanup@),
        CoordinatorError::HubWorkspaceDivergence { id } =>
            "overlay "@ + hyphenated_uuid(id.bits())
                + " exists in the workspace but not in the hosting hub"@,
    }
}

impl CoordinatorError {
    /// The user-facing text of this error, as `Display` writes it. A model
    /// error it carries, directly or inside a persistence error, holds binary32
    /// numbers whose decimal text the caller writes as `first` and `second`
    /// (see `ModelError::message`); every other part of the text is written
    /// here.
    pub fn message(&self, first: &str, second: &str) -> (text: String)
        ensures
            text@ == coordinator_message(*self, first@, second@),
    {
        match self {
            CoordinatorError::Persistence(e) => e.message(first, second),
            CoordinatorError::Model(m) => m.message(first, second),
            CoordinatorError::Hub(e) => e.message(),
            CoordinatorError::Server(e) => e.message(),
            CoordinatorError::Settings(e) => {
                let mut text = String::new();
                text.append("could not load application settings: ");
                let detail = e.message();
                text.append(detail.as_str());
                assert(text@ =~= coordinator_message(*self, first@, second@));
                text
            },
            CoordinatorError::UnknownOverlay { id } => {
                let mut text = String::new();
                text.append("overlay ");
                let id_text = id.to_string();
                text.append(id_text.as_str());
                text.append(" was not found");
                assert(text@ =~= coordinator_message(*self, first@, second@));
                text
            },
            CoordinatorError::NoOverlaySelected => string_from_str("no overlay is selected"),
            CoordinatorError::UnknownWidget { id } => {
                let mut text = String::new();
                text.append("widget ");
                let id_text = id.to_string();
                text.append(id_text.as_str());
                text.append(" was not found");
                assert(text@ =~= coordinator_message(*self, first@, second@));
                text
            },
            CoordinatorError::NoWidgetSelected => string_from_str("no widget is selected"),
            CoordinatorError::ConfirmationRequired =>
                string_from_str("overlay deletion requires confirmation"),
            CoordinatorError::BootstrapCleanup { primary, cleanup } => {
                let mut text = String::new();
                text.append("could not restore overlays: ");
                let primary_text = primary.message();
                text.append(primary_text.as_str());
                text.append("; cleanup failed");
                let ghost head = text@;
                let mut i: usize = 0;
                while i < cleanup.len()
                    invariant
                        0 <= i <= cleanup@.len(),
                        text@ == head + cleanup_text(cleanup@.take(i as int)),
                    decreases cleanup@.len() - i,
                {
                    text.append(": ");
                    let detail = cleanup[i].message();
                    text.append(detail.as_str());
                    assert(cleanup@.take(i + 1).drop_last() == cleanup@.take(i as int));
                    i = i + 1;
                }
                assert(cleanup@.take(cleanup@.len() as int) == cleanup@);
                assert(text@ =~= coordinator_message(*self, first@, second@));
                text
            },
            CoordinatorError::HubWorkspaceDivergence { id } => {
                let mut text = String::new();
                text.append("overlay ");
                let id_text = id.to_string();
                text.append(id_text.as_str());
                text.append(" exists in the workspace but not in the hosting hub");
                assert(text@ =~= coordinator_message(*self, first@, second@));
                text
            },
        }
    }
}

fn copy_hub_errors(errors: &Vec<HubError>) -> (copy: Vec<HubError>)
    ensures
        copy@ == errors@,
{
    let mut copy: Vec<HubError> = Vec::new();
    let mut i: usize = 0;
    while i < errors.len()
        invariant
            0 <= i <= errors@.len(),
            copy@ == errors@.take(i as int),
        decreases errors@.len() - i,
    {
        copy.push(errors[i]);
        assert(errors@.take(i + 1) == errors@.take(i as int).push(errors@[i as int]));
        i = i + 1;
    }
    assert(errors@.take(errors@.len() as int) == errors@);
    copy
}

impl Clone for CoordinatorError {
    fn clone(&self) -> (copy: Self)
        ensures
            !(*self is BootstrapCleanup) ==> copy == *self,
            *self is BootstrapCleanup ==> copy is BootstrapCleanup && copy->primary == self->primary
                && copy->cleanup@ == self->cleanup@,
    {
        match self {
            CoordinatorError::Persistence(e) => CoordinatorError::Persistence(e.clone()),
            CoordinatorError::Model(e) => CoordinatorError::Model(e.clone()),
            CoordinatorError::Hub(e) => CoordinatorError::Hub(*e),
            CoordinatorError::Server(e) => CoordinatorError::Server(e.clone()),
            CoordinatorError::Settings(e) => CoordinatorError::Settings(e.clone()),
            CoordinatorError::UnknownOverlay { id } => CoordinatorError::UnknownOverlay { id: *id },
            CoordinatorError::NoOverlaySelected => CoordinatorError::NoOverlaySelected,
            CoordinatorError::UnknownWidget { id } => CoordinatorError::UnknownWidget { id: *id },
            CoordinatorError::NoWidgetSelected => CoordinatorError::NoWidgetSelected,
            CoordinatorError::ConfirmationRequired => CoordinatorError::ConfirmationRequired,
            CoordinatorError::BootstrapCleanup { primary, cleanup } =>
                CoordinatorError::BootstrapCleanup {
                    primary: *primary,
                    cleanup: copy_hub_errors(cleanup),
                },
            CoordinatorError::HubWorkspaceDivergence { id } =>
                CoordinatorError::HubWorkspaceDivergence { id: *id },
        }
    }
}

/// The index of the first overlay with the given identity, or -1.
pub open spec fn overlay_index(os: Seq<OverlayView>, id: OverlayId) -> int
    decreases os.len(),
{
    if os.len() == 0 {
        -1
    } else if os[0].id == id {
        0
    } else {
        let rest = overlay_index(os.drop_first(), id);
        if rest < 0 {
            -1
        } else {
            rest + 1
        }
    }
}

/// The sequence holds an overlay with the given identity.
pub open spec fn has_overlay(os: Seq<OverlayView>, id: OverlayId) -> bool {
    exists|i: int| 0 <= i < os.len() && (#[trigger] os[i]).id == id
}

pub proof fn lemma_overlay_index(os: Seq<OverlayView>, id: OverlayId)
    ensures
        -1 <= overlay_index(os, id) < os.len(),
        overlay_index(os, id) >= 0 <==> has_overlay(os, id),
        overlay_index(os, id) >= 0 ==> os[overlay_index(os, id)].id == id,
        forall|j: int| 0 <= j < overlay_index(os, id) ==> (#[trigger] os[j]).id != id,
        overlay_index(os, id) < 0 ==> forall|j: int| 0 <= j < os.len() ==> (#[trigger] os[j]).id
            != id,
    decreases os.len(),
{
    if os.len() > 0 {
        let rest = os.drop_first();
        lemma_overlay_index(rest, id);
        assert forall|j: int| 1 <= j < os.len() implies os[j] == rest[j - 1] by {}
        if os[0].id != id {
            if overlay_index(rest, id) >= 0 {
                let r = overlay_index(rest, id);
                assert(os[r + 1] == rest[r]);
                assert(has_overlay(os, id));
                assert forall|j: int| 0 <= j < r + 1 implies (#[trigger] os[j]).id != id by {
                    if j > 0 {
                        assert(os[j] == rest[j - 1]);
                    }
                }
            } else {
                assert forall|j: int| 0 <= j < os.len() implies (#[trigger] os[j]).id != id by {
                    if j > 0 {
                        assert(os[j] == rest[j - 1]);
                    }
                }
            }
        } else {
            assert(has_overlay(os, id));
        }
    }
}

/// Whether two collections hold the same durable content, overlay by
/// overlay (`==` on overlay slices).
pub open spec fn same_collection(a: Seq<OverlayView>, b: Seq<OverlayView>) -> bool {
    a.len() == b.len() && forall|i: int| 0 <= i < a.len() ==> (#[trigger] a[i]).same_content(b[i])
}

/// Everything the coordinator knows besides its store and its hub.
pub struct WorkspaceView {
    pub overlays: Seq<OverlayView>,
    pub saved: Seq<OverlayView>,
    pub selected: Option<OverlayId>,
    pub selected_widget: Option<TextWidgetId>,
    pub server_address: Option<ServerAddress>,
    pub operation_error: Option<CoordinatorError>,
    pub server_error: Option<CoordinatorError>,
}

impl WorkspaceView {
    /// The selection is consistent with the workspace: a selected overlay is
    /// in the workspace, a non-empty workspace always has a selected overlay,
    /// and a selected widget belongs to the selected overlay.
    pub open spec fn selection_is_consistent(self) -> bool {
        &&& (self.selected matches Some(id) ==> overlay_index(self.overlays, id) >= 0)
        &&& (self.overlays.len() > 0 ==> self.selected is Some)
        &&& (self.selected_widget matches Some(w) ==> self.selected matches Some(id) && has_widget(
            self.overlays[overlay_index(self.overlays, id)].widgets,
            w,
        ))
    }

    /// The workspace differs from the content of the last successful save.
    pub open spec fn is_dirty(self) -> bool {
        !same_collection(self.overlays, self.saved)
    }

    /// The workspace with only the operation error replaced.
    pub open spec fn with_operation_error(self, error: Option<CoordinatorError>) -> WorkspaceView {
        WorkspaceView { operation_error: error, ..self }
    }
}

/// Owns the workspace, its selection and save baseline, and publishes
/// accepted changes to a hosting hub.
pub struct HeadlessCoordinator<H: HubOperations> {
    store: Store,
    overlays: Vec<Overlay>,
    saved_content: Vec<Overlay>,
    selected: Option<OverlayId>,
    selected_widget: Option<TextWidgetId>,
    hub: H,
    server_address: Option<ServerAddress>,
    operation_error: Option<CoordinatorError>,
    server_error: Option<CoordinatorError>,
}

impl<H: HubOperations> View for HeadlessCoordinator<H> {
    type V = WorkspaceView;

    closed spec fn view(&self) -> WorkspaceView {
        WorkspaceView {
            overlays: overlay_views(self.overlays@),
            saved: overlay_views(self.saved_content@),
            selected: self.selected,
            selected_widget: self.selected_widget,
            server_address: self.server_address,
            operation_error: self.operation_error,
            server_error: self.server_error,
        }
    }
}

fn find_overlay(os: &Vec<Overlay>, id: OverlayId) -> (index: Option<usize>)
    ensures
        match index {
            Some(i) => i == overlay_index(overlay_views(os@), id) && i < os@.len(),
            None => overlay_index(overlay_views(os@), id) < 0,
        },
{
    let ghost vs = overlay_views(os@);
    let mut i: usize = 0;
    while i < os.len()
        invariant
            vs == overlay_views(os@),
            0 <= i <= os@.len(),
            forall|j: int| 0 <= j < i ==> (#[trigger] vs[j]).id != id,
        decreases os@.len() - i,
    {
        if os[i].id() == id {
            proof {
                lemma_overlay_index(vs, id);
                let r = overlay_index(vs, id);
                assert(vs[i as int].id == id);
                assert(has_overlay(vs, id));
                if r < i {
                    assert(vs[r].id == id);
                }
            }
            return Some(i);
        }
        assert(vs[i as int].id != id);
        i = i + 1;
    }
    proof {
        lemma_overlay_index(vs, id);
        if overlay_index(vs, id) >= 0 {
            let r = overlay_index(vs, id);
            assert(vs[r].id == id);
        }
    }
    None
}

fn clone_overlays(os: &Vec<Overlay>) -> (copy: Vec<Overlay>)
    ensures
        overlay_views(copy@) == overlay_views(os@),
{
    let mut copy: Vec<Overlay> = Vec::new();
    let mut i: usize = 0;
    while i < os.len()
        invariant
            0 <= i <= os@.len(),
            copy@.len() == i,
            forall|j: int| 0 <= j < i ==> (#[trigger] copy@[j])@ == os@[j]@,
        decreases os@.len() - i,
    {
        copy.push(os[i].clone());
        i = i + 1;
    }
    assert(overlay_views(copy@) =~= overlay_views(os@));
    copy
}

/// No coordinate or font size of any widget is a NaN, as for every widget
/// the model constructs.
pub open spec fn numeric_widgets(os: Seq<OverlayView>) -> bool {
    forall|i: int, j: int|
        0 <= i < os.len() && 0 <= j < os[i].widgets.len() ==> {
            let w = #[trigger] os[i].widgets[j];
            !is_nan(w.position.spec_x()) && !is_nan(w.position.spec_y()) && !is_nan(w.font_size)
        }
}

/// The widgets of a collection that passes every collection rule hold no NaN.
pub proof fn lemma_valid_collection_is_numeric(os: Seq<OverlayView>)
    requires
        first_collection_error(os, 0).is_none(),
    ensures
        numeric_widgets(os),
{
    assert forall|i: int, j: int| 0 <= i < os.len() && 0 <= j < os[i].widgets.len() implies {
        let w = #[trigger] os[i].widgets[j];
        !is_nan(w.position.spec_x()) && !is_nan(w.position.spec_y()) && !is_nan(w.font_size)
    } by {
        lemma_collection_valid_at(os, 0, i);
        lemma_widgets_valid_at(os, i, 0, j);
        assert(collection_widget_error(os, i, j).is_none());
    }
}

/// The widgets of each overlay of `os` have pairwise distinct identities.
pub open spec fn distinct_widget_ids(os: Seq<OverlayView>) -> bool {
    forall|i: int| 0 <= i < os.len() ==> unique_widget_ids(#[trigger] os[i].widgets)
}

/// In a collection that passes every collection rule the widgets of each
/// overlay have distinct identities.
pub proof fn lemma_valid_collection_has_distinct_widgets(os: Seq<OverlayView>)
    requires
        first_collection_error(os, 0).is_none(),
    ensures
        distinct_widget_ids(os),
{
    assert forall|i: int| 0 <= i < os.len() implies unique_widget_ids(#[trigger] os[i].widgets) by {
        let ws = os[i].widgets;
        lemma_collection_valid_at(os, 0, i);
        assert forall|a: int, b: int| 0 <= a < ws.len() && 0 <= b < ws.len() && a != b implies ws[a].id
            != ws[b].id by {
            let (lo, hi) = if a < b { (a, b) } else { (b, a) };
            lemma_widgets_valid_at(os, i, 0, hi);
            assert(collection_widget_error(os, i, hi).is_none());
            let earlier = all_widget_ids(os.take(i)) + widget_ids(ws.take(hi));
            assert(widget_ids(ws.take(hi))[lo] == ws[lo].id);
            assert(earlier[all_widget_ids(os.take(i)).len() + lo] == ws[lo].id);
            assert(!earlier.contains(ws[hi].id));
        }
    }
}

/// A collection of numeric widgets holds the same content as itself.
pub proof fn lemma_same_collection_reflexive(os: Seq<OverlayView>)
    requires
        numeric_widgets(os),
    ensures
        same_collection(os, os),
{
    assert forall|i: int| 0 <= i < os.len() implies (#[trigger] os[i]).same_content(os[i]) by {
        assert forall|j: int| 0 <= j < os[i].widgets.len() implies (
        #[trigger] os[i].widgets[j]).same_content(os[i].widgets[j]) by {
            let w = os[i].widgets[j];
            assert(!is_nan(w.position.spec_x()) && !is_nan(w.position.spec_y()) && !is_nan(
                w.font_size,
            ));
        }
    }
}

impl<H: HubOperations> HeadlessCoordinator<H> {
    /// The coordinator's invariant: its selection is consistent, no widget of
    /// the workspace holds a NaN coordinate or font size, and the widgets of
    /// each overlay have distinct identities.
    pub open spec fn wf(&self) -> bool {
        &&& self@.selection_is_consistent()
        &&& numeric_widgets(self@.overlays)
        &&& distinct_widget_ids(self@.overlays)
    }

    pub closed spec fn spec_store(&self) -> Store {
        self.store
    }

    /// The hosting hub the workspace publishes to.
    pub closed spec fn spec_hub(&self) -> H {
        self.hub
    }

    /// An empty, clean workspace on a store and a hub.
    pub fn empty(store: Store, hub: H) -> (coordinator: Self)
        ensures
            coordinator.wf(),
            coordinator.spec_store() == store,
            coordinator@ == (WorkspaceView {
                overlays: Seq::empty(),
                saved: Seq::empty(),
                selected: None,
                selected_widget: None,
                server_address: None,
                operation_error: None,
                server_error: None,
            }),
    {
        let c = HeadlessCoordinator {
            store,
            overlays: Vec::new(),
            saved_content: Vec::new(),
            selected: None,
            selected_widget: None,
            hub,
            server_address: None,
            operation_error: None,
            server_error: None,
        };
        assert(c@.overlays =~= Seq::<OverlayView>::empty());
        assert(c@.saved =~= Seq::<OverlayView>::empty());
        c
    }

    /// The store the workspace is saved to.
    pub fn store(&self) -> (store: &Store)
        ensures
            *store == self.spec_store(),
    {
        &self.store
    }

    /// A handle to the hosting hub: a clone of it, as `H::clone` makes one.
    pub fn hub(&self) -> (hub: H)
        ensures
            cloned(self.spec_hub(), hub),
    {
        self.hub.clone()
    }

    /// The workspace overlays, in order.
    pub fn overlays(&self) -> (overlays: &[Overlay])
        ensures
            overlay_views(overlays@) == self@.overlays,
    {
        self.overlays.as_slice()
    }

    /// The content of the last successful save (or of the workspace as it
    /// was opened), which decides whether there are unsaved changes.
    pub fn saved_content(&self) -> (saved: &[Overlay])
        ensures
            overlay_views(saved@) == self@.saved,
    {
        self.saved_content.as_slice()
    }

    /// The first workspace overlay with the given identity.
    pub fn overlay(&self, id: OverlayId) -> (overlay: Option<&Overlay>)
        ensures
            match overlay {
                Some(o) => overlay_index(self@.overlays, id) >= 0 && o@ == self@.overlays[overlay_index(
                    self@.overlays,
                    id,
                )],
                None => overlay_index(self@.overlays, id) < 0,
            },
    {
        match find_overlay(&self.overlays, id) {
            Some(i) => Some(&self.overlays[i]),
            None => None,
        }
    }

    /// The selected overlay.
    pub fn selected_overlay(&self) -> (overlay: Option<&Overlay>)
        requires
            self.wf(),
        ensures
            match self@.selected {
                Some(id) => overlay matches Some(o) && o@ == self@.overlays[overlay_index(
                    self@.overlays,
                    id,
                )],
                None => overlay is None,
            },
    {
        match self.selected {
            Some(id) => self.overlay(id),
            None => None,
        }
    }

    pub fn selected_overlay_id(&self) -> (id: Option<OverlayId>)
        ensures
            id == self@.selected,
    {
        self.selected
    }

    pub fn selected_id(&self) -> (id: Option<OverlayId>)
        ensures
            id == self@.selected,
    {
        self.selected
    }

    /// The selected widget of the selected overlay.
    pub fn selected_widget(&self) -> (widget: Option<&TextWidget>)
        requires
            self.wf(),
        ensures
            match self@.selected_widget {
                Some(w) => widget matches Some(x) && self@.selected matches Some(id) && ({
                    let ws = self@.overlays[overlay_index(self@.overlays, id)].widgets;
                    x@ == ws[widget_index(ws, w)]
                }),
                None => widget is None,
            },
    {
        let id = match self.selected_widget {
            Some(id) => id,
            None => return None,
        };
        let overlay = match self.selected_overlay() {
            Some(o) => o,
            None => return None,
        };
        proof {
            lemma_widget_index(overlay@.widgets, id);
        }
        overlay.widget(id)
    }

    pub fn selected_widget_id(&self) -> (id: Option<TextWidgetId>)
        ensures
            id == self@.selected_widget,
    {
        self.selected_widget
    }

    /// Whether the workspace differs from the content of the last save.
    pub fn is_dirty(&self) -> (dirty: bool)
        ensures
            dirty == self@.is_dirty(),
    {
        if self.overlays.len() != self.saved_content.len() {
            return true;
        }
        let mut i: usize = 0;
        while i < self.overlays.len()
            invariant
                0 <= i <= self.overlays@.len(),
                self.overlays@.len() == self.saved_content@.len(),
                forall|j: int| 0 <= j < i ==> (#[trigger] self@.overlays[j]).same_content(
                    self@.saved[j],
                ),
            decreases self.overlays@.len() - i,
        {
            assert(self@.overlays[i as int] == self.overlays@[i as int]@);
            assert(self@.saved[i as int] == self.saved_content@[i as int]@);
            if !self.overlays[i].same_content(&self.saved_content[i]) {
                return true;
            }
            i = i + 1;
        }
        false
    }

    pub fn dirty(&self) -> (dirty: bool)
        ensures
            dirty == self@.is_dirty(),
    {
        self.is_dirty()
    }

    /// The error to show: the last refused operation, else the server's.
    pub fn last_error(&self) -> (error: Option<&CoordinatorError>)
        ensures
            match self@.operation_error {
                Some(e) => error == Some(&e),
                None => match self@.server_error {
                    Some(e) => error == Some(&e),
                    None => error is None,
                },
            },
    {
        match &self.operation_error {
            Some(e) => Some(e),
            None => match &self.server_error {
                Some(e) => Some(e),
                None => None,
            },
        }
    }

    pub fn server_error(&self) -> (error: Option<&CoordinatorError>)
        ensures
            match self@.server_error {
                Some(e) => error == Some(&e),
                None => error is None,
            },
    {
        match &self.server_error {
            Some(e) => Some(e),
            None => None,
        }
    }

    pub fn operation_error(&self) -> (error: Option<&CoordinatorError>)
        ensures
            match self@.operation_error {
                Some(e) => error == Some(&e),
                None => error is None,
            },
    {
        match &self.operation_error {
            Some(e) => Some(e),
            None => None,
        }
    }

    /// Dismisses the last operation error.
    pub fn clear_last_error(&mut self)
        requires
            old(self).wf(),
        ensures
            final(self).wf(),
            final(self)@ == old(self)@.with_operation_error(None),
            final(self).spec_store() == old(self).spec_store(),
            final(self).spec_hub() == old(self).spec_hub(),
    {
        self.operation_error = None;
    }

    /// Records that the server could not start or stopped with an error.
    pub fn record_server_error(&mut self, error: ServerError)
        requires
            old(self).wf(),
        ensures
            final(self).wf(),
            final(self)@ == (WorkspaceView {
                server_error: Some(CoordinatorError::Server(error)),
                ..old(self)@
            }),
            final(self).spec_store() == old(self).spec_store(),
            final(self).spec_hub() == old(self).spec_hub(),
    {
        self.server_error = Some(CoordinatorError::Server(error));
    }

    /// Records that settings could not be loaded, so no server was started.
    pub fn record_settings_error(&mut self, error: &SettingsError)
        requires
            old(self).wf(),
        ensures
            final(self).wf(),
            final(self)@ == (WorkspaceView {
                server_error: Some(CoordinatorError::Settings(*error)),
                ..old(self)@
            }),
            final(self).spec_store() == old(self).spec_store(),
            final(self).spec_hub() == old(self).spec_hub(),
    {
        self.server_error = Some(CoordinatorError::Settings(error.clone()));
    }

    /// Records the address the server is listening on; any server error is
    /// cleared.
    pub fn set_server_address(&mut self, address: ServerAddress)
        requires
            old(self).wf(),
        ensures
            final(self).wf(),
            final(self)@ == (WorkspaceView {
                server_address: Some(address),
                server_error: None,
                ..old(self)@
            }),
            final(self).spec_store() == old(self).spec_store(),
            final(self).spec_hub() == old(self).spec_hub(),
    {
        self.server_address = Some(address);
        self.server_error = None;
    }

    pub fn server_address(&self) -> (address: Option<ServerAddress>)
        ensures
            address == self@.server_address,
    {
        self.server_address
    }

    pub fn local_addr(&self) -> (address: Option<ServerAddress>)
        ensures
            address == self@.server_address,
    {
        self.server_address
    }

    /// Records a refused operation and returns its error.
    fn reject(&mut self, error: CoordinatorError) -> (returned: CoordinatorError)
        requires
            !(error is BootstrapCleanup),
        ensures
            returned == error,
            final(self)@ == old(self)@.with_operation_error(Some(error)),
            final(self).spec_store() == old(self).spec_store(),
            final(self).spec_hub() == old(self).spec_hub(),
    {
        let copy = error.clone();
        self.operation_error = Some(copy);
        error
    }
}


fn is_selected(selected: Option<OverlayId>, id: OverlayId) -> (same: bool)
    ensures
        same == (selected == Some(id)),
{
    match selected {
        Some(s) => s == id,
        None => false,
    }
}

/// The overlay selected after the selected one at `index` was removed,
/// leaving `rest`: the one that took its place, else the last one.
pub open spec fn fallback_selection(rest: Seq<OverlayView>, index: int) -> Option<OverlayId> {
    if 0 <= index < rest.len() {
        Some(rest[index].id)
    } else if rest.len() > 0 {
        Some(rest.last().id)
    } else {
        None
    }
}

/// The browser-source URL of `overlay` if the hub holds exactly its content.
pub open spec fn spec_published_url(address: ServerAddress, overlay: OverlayView, snapshot: Result<
    Option<Overlay>,
    HubError,
>) -> Option<Seq<char>> {
    match snapshot {
        Ok(Some(s)) => if s@.same_content(overlay) {
            Some(spec_overlay_url(address, overlay.id))
        } else {
            None
        },
        _ => None,
    }
}

/// The browser-source URL of the selected overlay of a workspace, given the
/// hub's snapshot of that overlay: none unless the server runs and an overlay
/// is selected.
pub open spec fn spec_selected_url(w: WorkspaceView, snapshot: Result<Option<Overlay>, HubError>) -> Option<
    Seq<char>,
> {
    match (w.server_address, w.selected) {
        (Some(address), Some(id)) => spec_published_url(
            address,
            w.overlays[overlay_index(w.overlays, id)],
            snapshot,
        ),
        _ => None,
    }
}

/// `url` holds exactly the text `expected`, or nothing when that is nothing.
pub open spec fn url_is(url: Option<String>, expected: Option<Seq<char>>) -> bool {
    match expected {
        Some(u) => url matches Some(x) && x@ == u,
        None => url is None,
    }
}

/// The browser-source URL of an overlay, given the hub's snapshot of it:
/// only an overlay whose hosted content is exactly the workspace content has
/// a URL to hand out.
pub fn published_url(address: ServerAddress, overlay: &Overlay, snapshot: Result<
    Option<Overlay>,
    HubError,
>) -> (url: Option<String>)
    ensures
        match spec_published_url(address, overlay@, snapshot) {
            Some(u) => url matches Some(x) && x@ == u,
            None => url is None,
        },
{
    match snapshot {
        Ok(Some(s)) => if s.same_content(overlay) {
            Some(overlay_url(address, overlay.id()))
        } else {
            None
        },
        _ => None,
    }
}

/// The verdict on the hub's answer to removing overlay `id`, which the
/// workspace holds: the hub must have hosted it.
pub open spec fn spec_removal_verdict(id: OverlayId, removed: Result<Option<Overlay>, HubError>) -> Result<
    (),
    CoordinatorError,
> {
    match removed {
        Ok(Some(_)) => Ok(()),
        Ok(None) => Err(CoordinatorError::HubWorkspaceDivergence { id }),
        Err(e) => Err(CoordinatorError::Hub(e)),
    }
}

/// The outcome of asking the hub to remove an overlay the workspace holds:
/// the hub must have hosted it.
pub fn removal_verdict(id: OverlayId, removed: Result<Option<Overlay>, HubError>) -> (verdict: Result<
    (),
    CoordinatorError,
>)
    ensures
        verdict == spec_removal_verdict(id, removed),
{
    match removed {
        Ok(Some(_)) => Ok(()),
        Ok(None) => Err(CoordinatorError::HubWorkspaceDivergence { id }),
        Err(e) => Err(CoordinatorError::Hub(e)),
    }
}

proof fn lemma_removed_index(os: Seq<OverlayView>, index: int, x: OverlayId)
    requires
        0 <= index < os.len(),
        os[index].id != x,
        overlay_index(os, x) >= 0,
    ensures
        overlay_index(os.remove(index), x) >= 0,
        os.remove(index)[overlay_index(os.remove(index), x)] == os[overlay_index(os, x)],
{
    let rest = os.remove(index);
    let k = overlay_index(os, x);
    lemma_overlay_index(os, x);
    lemma_overlay_index(rest, x);
    let k2 = if k < index {
        k
    } else {
        k - 1
    };
    assert(rest[k2] == os[k]);
    assert(has_overlay(rest, x));
    let r = overlay_index(rest, x);
    if r < k2 {
        let orig = if r < index {
            r
        } else {
            r + 1
        };
        assert(rest[r] == os[orig]);
        assert(os[orig].id == x);
    }
}

/// A freshly loaded, clean workspace over `os` with its first overlay
/// selected.
pub open spec fn fresh_workspace(os: Seq<OverlayView>) -> WorkspaceView {
    WorkspaceView {
        overlays: os,
        saved: os,
        selected: if os.len() > 0 {
            Some(os[0].id)
        } else {
            None
        },
        selected_widget: None,
        server_address: None,
        operation_error: None,
        server_error: None,
    }
}

/// `regs` are registrations made with `hub` for the first overlays of `os`,
/// in order: each hands the hub exactly that overlay, with the hub's answer.
pub open spec fn registered_in_order<H: HubOperations>(
    hub: H,
    os: Seq<OverlayView>,
    regs: Seq<(Overlay, Result<(), HubError>)>,
) -> bool {
    &&& regs.len() <= os.len()
    &&& forall|j: int|
        #![trigger regs[j]]
        0 <= j < regs.len() ==> regs[j].0@ == os[j] && call_ensures(
            H::register_overlay,
            (&hub, regs[j].0),
            regs[j].1,
        )
}

/// The errors among the answers to removals, in order.
pub open spec fn removal_errors(answers: Seq<Result<Option<Overlay>, HubError>>) -> Seq<HubError>
    decreases answers.len(),
{
    if answers.len() == 0 {
        Seq::empty()
    } else {
        removal_errors(answers.drop_last()) + match answers.last() {
            Err(e) => seq![e],
            Ok(_) => Seq::<HubError>::empty(),
        }
    }
}

/// `e` reports a refused registration `primary` whose cleanup failed with
/// `cleanup`: the hub's error alone when the cleanup succeeded.
pub open spec fn is_cleanup_error(e: CoordinatorError, primary: HubError, cleanup: Seq<HubError>) -> bool {
    if cleanup.len() == 0 {
        e == CoordinatorError::Hub(primary)
    } else {
        e matches CoordinatorError::BootstrapCleanup { primary: p, cleanup: c } && p == primary
            && c@ == cleanup
    }
}

/// Every overlay of `os` was handed to `hub`, in order, and accepted.
pub open spec fn registered_all<H: HubOperations>(hub: H, os: Seq<OverlayView>) -> bool {
    exists|regs: Seq<(Overlay, Result<(), HubError>)>|
        registered_in_order(hub, os, regs) && regs.len() == os.len() && forall|j: int|
            #![trigger regs[j]]
            0 <= j < regs.len() ==> regs[j].1 is Ok
}

/// Why a workspace over `os` could not be opened with `hub`: the first
/// collection rule it breaks, before the hub is asked; or else the overlays
/// were handed to the hub in order until it refused one, the ones registered
/// before it were removed again in order, and the error carries the hub's
/// refusal with every error of that cleanup.
pub open spec fn opening_error<H: HubOperations>(hub: H, os: Seq<OverlayView>, e: CoordinatorError) -> bool {
    match first_collection_error(os, 0) {
        Some(m) => e == CoordinatorError::Model(m),
        None => exists|
            regs: Seq<(Overlay, Result<(), HubError>)>,
            removals: Seq<Result<Option<Overlay>, HubError>>,
        |
            #![trigger registered_in_order(hub, os, regs), removal_errors(removals)]
            registered_in_order(hub, os, regs) && regs.len() >= 1 && (forall|j: int|
                #![trigger regs[j]]
                0 <= j < regs.len() - 1 ==> regs[j].1 is Ok) && regs.last().1 is Err
                && removals.len() == regs.len() - 1 && (forall|k: int|
                #![trigger removals[k]]
                0 <= k < removals.len() ==> call_ensures(
                    H::remove_overlay,
                    (&hub, os[k].id),
                    removals[k],
                )) && is_cleanup_error(e, regs.last().1->Err_0, removal_errors(removals)),
    }
}

/// The error of a refused registration `primary` after the earlier ones were
/// removed again with the answers `answers`.
pub fn cleanup_failure(primary: HubError, answers: Vec<Result<Option<Overlay>, HubError>>) -> (e: CoordinatorError)
    ensures
        is_cleanup_error(e, primary, removal_errors(answers@)),
{
    let mut cleanup: Vec<HubError> = Vec::new();
    let mut k: usize = 0;
    while k < answers.len()
        invariant
            0 <= k <= answers@.len(),
            cleanup@ == removal_errors(answers@.take(k as int)),
        decreases answers@.len() - k,
    {
        assert(answers@.take(k + 1).drop_last() == answers@.take(k as int));
        if let Err(e) = &answers[k] {
            cleanup.push(*e);
        }
        k = k + 1;
    }
    assert(answers@.take(answers@.len() as int) == answers@);
    if cleanup.len() == 0 {
        CoordinatorError::Hub(primary)
    } else {
        CoordinatorError::BootstrapCleanup { primary, cleanup }
    }
}

/// The workspace once overlay `id`, at `index`, has left it: if it was
/// selected, the overlay that takes its place is selected, else the last one,
/// and the widget selection clears.
pub open spec fn without_overlay(old: WorkspaceView, id: OverlayId, index: int) -> WorkspaceView {
    let rest = old.overlays.remove(index);
    WorkspaceView {
        overlays: rest,
        selected: if old.selected == Some(id) {
            fallback_selection(rest, index)
        } else {
            old.selected
        },
        selected_widget: if old.selected == Some(id) {
            None
        } else {
            old.selected_widget
        },
        operation_error: None,
        ..old
    }
}

/// The outcome of deleting overlay `id`: refused without confirmation or for
/// an unknown overlay before the hub is asked. Otherwise `hub` is asked to
/// remove exactly that overlay, and the overlay leaves the workspace only
/// when the hub gave it up.
pub open spec fn deletion_outcome<H: HubOperations>(
    hub: H,
    old: WorkspaceView,
    id: OverlayId,
    confirmed: bool,
    result: Result<(), CoordinatorError>,
    new: WorkspaceView,
) -> bool {
    let index = overlay_index(old.overlays, id);
    if !confirmed {
        refused(old, new, result, CoordinatorError::ConfirmationRequired)
    } else if index < 0 {
        refused(old, new, result, CoordinatorError::UnknownOverlay { id })
    } else {
        exists|answer: Result<Option<Overlay>, HubError>|
            #![trigger call_ensures(H::remove_overlay, (&hub, id), answer)]
            call_ensures(H::remove_overlay, (&hub, id), answer) && match spec_removal_verdict(
                id,
                answer,
            ) {
                Ok(()) => result is Ok && new == without_overlay(old, id, index),
                Err(e) => refused(old, new, result, e),
            }
    }
}

/// Where the selected overlay leaves the workspace, the selection falls back
/// to a neighbour: the overlay that came right after it, or, when it was the
/// last one, the overlay that came right before it (the last remaining one);
/// when it was the only overlay nothing is selected. The widget selection
/// clears and every other overlay stays, in order.
pub proof fn lemma_removed_selection_falls_back(old: WorkspaceView, id: OverlayId)
    requires
        old.selected == Some(id),
        has_overlay(old.overlays, id),
    ensures
        ({
            let index = overlay_index(old.overlays, id);
            let new = without_overlay(old, id, index);
            &&& 0 <= index < old.overlays.len()
            &&& old.overlays[index].id == id
            &&& new.overlays.len() == old.overlays.len() - 1
            &&& forall|j: int| 0 <= j < index ==> #[trigger] new.overlays[j] == old.overlays[j]
            &&& forall|j: int|
                index < j < old.overlays.len() ==> #[trigger] old.overlays[j] == new.overlays[j - 1]
            &&& index + 1 < old.overlays.len() ==> new.selected == Some(old.overlays[index + 1].id)
            &&& index + 1 == old.overlays.len() && index > 0 ==> new.selected == Some(
                old.overlays[index - 1].id,
            )
            &&& index + 1 == old.overlays.len() && index > 0 ==> new.selected == Some(
                new.overlays[new.overlays.len() - 1].id,
            )
            &&& old.overlays.len() == 1 ==> new.selected is None
            &&& new.selected_widget is None
        }),
{
    lemma_overlay_index(old.overlays, id);
}

/// A confirmed deletion of the selected overlay that succeeds selects the
/// overlay that came right after it, or, when it was the last one, the one
/// right before it (the last remaining one), or nothing when it was alone.
pub proof fn lemma_deleting_selected_falls_back<H: HubOperations>(
    hub: H,
    old: WorkspaceView,
    id: OverlayId,
    new: WorkspaceView,
)
    requires
        old.selected == Some(id),
        deletion_outcome(hub, old, id, true, Ok(()), new),
    ensures
        ({
            let index = overlay_index(old.overlays, id);
            &&& 0 <= index < old.overlays.len()
            &&& new.overlays == old.overlays.remove(index)
            &&& index + 1 < old.overlays.len() ==> new.selected == Some(old.overlays[index + 1].id)
            &&& index + 1 == old.overlays.len() && index > 0 ==> new.selected == Some(
                old.overlays[index - 1].id,
            )
            &&& old.overlays.len() == 1 ==> new.selected is None
            &&& new.selected_widget is None
        }),
{
    lemma_overlay_index(old.overlays, id);
    let index = overlay_index(old.overlays, id);
    let answer = choose|answer: Result<Option<Overlay>, HubError>|
        #![trigger call_ensures(H::remove_overlay, (&hub, id), answer)]
        call_ensures(H::remove_overlay, (&hub, id), answer) && match spec_removal_verdict(
            id,
            answer,
        ) {
            Ok(()) => Ok::<(), CoordinatorError>(()) is Ok && new == without_overlay(old, id, index),
            Err(e) => refused(old, new, Ok::<(), CoordinatorError>(()), e),
        };
    assert(new == without_overlay(old, id, index));
    lemma_removed_selection_falls_back(old, id);
}

/// The outcome of creating an overlay named `name` on `canvas`: a blank name
/// is refused before the hub is asked. Otherwise a new overlay with a fresh
/// durable identity, that name and canvas, and no widgets is handed to `hub`
/// to register; it joins the end of the workspace, selected, only when the
/// hub accepted it.
pub open spec fn creation_on_canvas<H: HubOperations>(
    hub: H,
    old: WorkspaceView,
    name: Seq<char>,
    canvas: CanvasSize,
    result: Result<OverlayId, CoordinatorError>,
    new: WorkspaceView,
) -> bool {
    if is_blank(name) {
        result == Err::<OverlayId, CoordinatorError>(CoordinatorError::Model(ModelError::EmptyName))
            && new == old.with_operation_error(Some(CoordinatorError::Model(ModelError::EmptyName)))
    } else {
        exists|handed: Overlay, answer: Result<(), HubError>|
            #![trigger call_ensures(H::register_overlay, (&hub, handed), answer)]
            handed@ == (OverlayView { id: handed@.id, name, canvas, widgets: Seq::empty() })
                && handed@.id.spec_is_valid() && call_ensures(
                H::register_overlay,
                (&hub, handed),
                answer,
            ) && match answer {
                Ok(()) => result == Ok::<OverlayId, CoordinatorError>(handed@.id) && new == (
                WorkspaceView {
                    overlays: old.overlays.push(handed@),
                    selected: Some(handed@.id),
                    selected_widget: None,
                    operation_error: None,
                    ..old
                }),
                Err(e) => result == Err::<OverlayId, CoordinatorError>(CoordinatorError::Hub(e))
                    && new == old.with_operation_error(Some(CoordinatorError::Hub(e))),
            }
    }
}

/// The outcome of creating an overlay named `name` on a `width` by `height`
/// canvas: a zero dimension is refused; otherwise as `creation_on_canvas`.
pub open spec fn creation_outcome<H: HubOperations>(
    hub: H,
    old: WorkspaceView,
    name: Seq<char>,
    width: u32,
    height: u32,
    result: Result<OverlayId, CoordinatorError>,
    new: WorkspaceView,
) -> bool {
    if width == 0 || height == 0 {
        let e = CoordinatorError::Model(ModelError::InvalidCanvasSize { width, height });
        result == Err::<OverlayId, CoordinatorError>(e) && new == old.with_operation_error(Some(e))
    } else {
        creation_on_canvas(hub, old, name, CanvasSize::spec_new(width, height), result, new)
    }
}

impl<H: HubOperations> HeadlessCoordinator<H> {
    /// A workspace over a collection that passes every collection rule. Each
    /// overlay is registered with the hub in order; if the hub refuses one,
    /// the ones registered before it are removed again and the hub's error is
    /// returned, with every error of that cleanup. The first overlay is
    /// selected and the workspace starts clean.
    pub fn from_overlays_with_hub(store: Store, overlays: Vec<Overlay>, hub: H) -> (result: Result<
        Self,
        CoordinatorError,
    >)
        ensures
            match result {
                Ok(c) => {
                    &&& first_collection_error(overlay_views(overlays@), 0).is_none()
                    &&& registered_all(hub, overlay_views(overlays@))
                    &&& c.wf()
                    &&& c.spec_store() == store
                    &&& c.spec_hub() == hub
                    &&& c@ == fresh_workspace(overlay_views(overlays@))
                },
                Err(e) => opening_error(hub, overlay_views(overlays@), e),
            },
    {
        if let Err(e) = validate_collection(overlays.as_slice()) {
            return Err(CoordinatorError::Model(e));
        }
        let ghost os = overlay_views(overlays@);
        let ghost mut regs: Seq<(Overlay, Result<(), HubError>)> = Seq::empty();
        let mut i: usize = 0;
        while i < overlays.len()
            invariant
                0 <= i <= overlays@.len(),
                os == overlay_views(overlays@),
                first_collection_error(os, 0).is_none(),
                registered_in_order(hub, os, regs),
                regs.len() == i,
                forall|j: int| #![trigger regs[j]] 0 <= j < regs.len() ==> regs[j].1 is Ok,
            decreases overlays@.len() - i,
        {
            let handed = overlays[i].clone();
            let ghost handed_value = handed;
            let answer = hub.register_overlay(handed);
            assert(call_ensures(H::register_overlay, (&hub, handed_value), answer));
            let ghost next = regs.push((handed_value, answer));
            assert(registered_in_order(hub, os, next)) by {
                assert forall|j: int| #![trigger next[j]] 0 <= j < next.len() implies next[j].0@ == os[j]
                    && call_ensures(H::register_overlay, (&hub, next[j].0), next[j].1) by {
                    if j < regs.len() {
                        assert(next[j] == regs[j]);
                    }
                }
            }
            if let Err(primary) = answer {
                let mut answers: Vec<Result<Option<Overlay>, HubError>> = Vec::new();
                let mut k: usize = 0;
                while k < i
                    invariant
                        0 <= k <= i,
                        i < overlays@.len(),
                        os == overlay_views(overlays@),
                        answers@.len() == k,
                        forall|m: int|
                            #![trigger answers@[m]]
                            0 <= m < k ==> call_ensures(
                                H::remove_overlay,
                                (&hub, os[m].id),
                                answers@[m],
                            ),
                    decreases i - k,
                {
                    let removed = hub.remove_overlay(overlays[k].id());
                    assert(call_ensures(H::remove_overlay, (&hub, os[k as int].id), removed));
                    answers.push(removed);
                    k = k + 1;
                }
                let ghost removals = answers@;
                let e = cleanup_failure(primary, answers);
                proof {
                    assert(next.last().1->Err_0 == primary);
                    assert(forall|j: int| #![trigger next[j]] 0 <= j < next.len() - 1 ==> next[j] == regs[j]);
                    assert(registered_in_order(hub, os, next) && next.len() >= 1 && (forall|j: int|
                        #![trigger next[j]]
                        0 <= j < next.len() - 1 ==> next[j].1 is Ok) && next.last().1 is Err
                        && removals.len() == next.len() - 1 && (forall|k: int|
                        #![trigger removals[k]]
                        0 <= k < removals.len() ==> call_ensures(
                            H::remove_overlay,
                            (&hub, os[k].id),
                            removals[k],
                        )) && is_cleanup_error(e, next.last().1->Err_0, removal_errors(removals)));
                }
                return Err(e);
            }
            proof {
                regs = next;
            }
            i = i + 1;
        }
        proof {
            assert(regs.len() == os.len());
        }
        let selected = if overlays.len() > 0 {
            Some(overlays[0].id())
        } else {
            None
        };
        let saved_content = clone_overlays(&overlays);
        let c = HeadlessCoordinator {
            store,
            overlays,
            saved_content,
            selected,
            selected_widget: None,
            hub,
            server_address: None,
            operation_error: None,
            server_error: None,
        };
        proof {
            lemma_valid_collection_is_numeric(c@.overlays);
            lemma_valid_collection_has_distinct_widgets(c@.overlays);
            if c@.overlays.len() > 0 {
                lemma_overlay_index(c@.overlays, c@.overlays[0].id);
            }
        }
        Ok(c)
    }

    /// Selects an overlay of the workspace. Selecting another overlay clears
    /// the widget selection; selecting the selected one keeps it.
    pub fn select_overlay(&mut self, id: OverlayId) -> (result: Result<(), CoordinatorError>)
        requires
            old(self).wf(),
        ensures
            final(self).wf(),
            final(self).spec_store() == old(self).spec_store(),
            final(self).spec_hub() == old(self).spec_hub(),
            match result {
                Ok(()) => overlay_index(old(self)@.overlays, id) >= 0 && final(self)@ == (
                WorkspaceView {
                    selected: Some(id),
                    selected_widget: if old(self)@.selected == Some(id) {
                        old(self)@.selected_widget
                    } else {
                        None
                    },
                    operation_error: None,
                    ..old(self)@
                }),
                Err(e) => overlay_index(old(self)@.overlays, id) < 0 && e == (
                CoordinatorError::UnknownOverlay { id }) && final(self)@ == old(
                    self,
                )@.with_operation_error(Some(e)),
            },
    {
        if self.overlay(id).is_none() {
            return Err(self.reject(CoordinatorError::UnknownOverlay { id }));
        }
        if !is_selected(self.selected, id) {
            self.selected_widget = None;
        }
        self.selected = Some(id);
        self.operation_error = None;
        Ok(())
    }

    /// The same as `select_overlay`.
    pub fn select(&mut self, id: OverlayId) -> (result: Result<(), CoordinatorError>)
        requires
            old(self).wf(),
        ensures
            final(self).wf(),
            final(self).spec_store() == old(self).spec_store(),
            final(self).spec_hub() == old(self).spec_hub(),
            match result {
                Ok(()) => overlay_index(old(self)@.overlays, id) >= 0 && final(self)@ == (
                WorkspaceView {
                    selected: Some(id),
                    selected_widget: if old(self)@.selected == Some(id) {
                        old(self)@.selected_widget
                    } else {
                        None
                    },
                    operation_error: None,
                    ..old(self)@
                }),
                Err(e) => overlay_index(old(self)@.overlays, id) < 0 && e == (
                CoordinatorError::UnknownOverlay { id }) && final(self)@ == old(
                    self,
                )@.with_operation_error(Some(e)),
            },
    {
        self.select_overlay(id)
    }

    /// Clears the widget selection.
    pub fn clear_widget_selection(&mut self)
        requires
            old(self).wf(),
        ensures
            final(self).wf(),
            final(self).spec_store() == old(self).spec_store(),
            final(self).spec_hub() == old(self).spec_hub(),
            final(self)@ == (WorkspaceView { selected_widget: None, ..old(self)@ }),
    {
        self.selected_widget = None;
    }

    /// Selects a widget of the selected overlay.
    pub fn select_widget(&mut self, id: TextWidgetId) -> (result: Result<(), CoordinatorError>)
        requires
            old(self).wf(),
        ensures
            final(self).wf(),
            final(self).spec_store() == old(self).spec_store(),
            final(self).spec_hub() == old(self).spec_hub(),
            match result {
                Ok(()) => old(self)@.selected matches Some(o) && has_widget(
                    old(self)@.overlays[overlay_index(old(self)@.overlays, o)].widgets,
                    id,
                ) && final(self)@ == (WorkspaceView {
                    selected_widget: Some(id),
                    operation_error: None,
                    ..old(self)@
                }),
                Err(e) => final(self)@ == old(self)@.with_operation_error(Some(e)) && match old(
                    self,
                )@.selected {
                    None => e == CoordinatorError::NoOverlaySelected,
                    Some(o) => !has_widget(
                        old(self)@.overlays[overlay_index(old(self)@.overlays, o)].widgets,
                        id,
                    ) && e == (CoordinatorError::UnknownWidget { id }),
                },
            },
    {
        let found = match self.selected_overlay() {
            Some(overlay) => {
                proof {
                    lemma_widget_index(overlay@.widgets, id);
                }
                overlay.widget(id).is_some()
            },
            None => return Err(self.reject(CoordinatorError::NoOverlaySelected)),
        };
        if !found {
            return Err(self.reject(CoordinatorError::UnknownWidget { id }));
        }
        self.selected_widget = Some(id);
        self.operation_error = None;
        Ok(())
    }

    /// Creates an overlay of the given size, registers it with the hub, adds
    /// it at the end of the workspace and selects it.
    pub fn create_overlay(&mut self, name: &str, width: u32, height: u32) -> (result: Result<
        OverlayId,
        CoordinatorError,
    >)
        requires
            old(self).wf(),
        ensures
            final(self).wf(),
            final(self).spec_store() == old(self).spec_store(),
            final(self).spec_hub() == old(self).spec_hub(),
            creation_outcome(old(self).spec_hub(), old(self)@, name@, width, height, result, final(self)@),
    {
        let canvas = match CanvasSize::new(width, height) {
            Ok(c) => c,
            Err(e) => return Err(self.reject(CoordinatorError::Model(e))),
        };
        self.create_overlay_with_canvas(name, canvas)
    }

    /// Creates an overlay on a canvas, registers it with the hub, adds it at
    /// the end of the workspace and selects it.
    pub fn create_overlay_with_canvas(&mut self, name: &str, canvas: CanvasSize) -> (result: Result<
        OverlayId,
        CoordinatorError,
    >)
        requires
            old(self).wf(),
        ensures
            final(self).wf(),
            final(self).spec_store() == old(self).spec_store(),
            final(self).spec_hub() == old(self).spec_hub(),
            creation_on_canvas(old(self).spec_hub(), old(self)@, name@, canvas, result, final(self)@),
    {
        let overlay = match Overlay::new(name, canvas) {
            Ok(o) => o,
            Err(e) => return Err(self.reject(CoordinatorError::Model(e))),
        };
        let id = overlay.id();
        assert(overlay@.widgets =~= Seq::<TextWidgetView>::empty());
        let ghost hub = self.spec_hub();
        let handed = overlay.clone();
        let ghost handed_value = handed;
        let answer = self.hub.register_overlay(handed);
        assert(call_ensures(H::register_overlay, (&hub, handed_value), answer));
        if let Err(e) = answer {
            let returned = self.reject(CoordinatorError::Hub(e));
            assert(call_ensures(H::register_overlay, (&hub, handed_value), answer));
            return Err(returned);
        }
        let ghost before = self@.overlays;
        self.overlays.push(overlay);
        self.selected = Some(id);
        self.selected_widget = None;
        self.operation_error = None;
        proof {
            assert(self@.overlays =~= before.push(overlay@));
            assert(self@.overlays[before.len() as int].id == id);
            lemma_overlay_index(self@.overlays, id);
            assert(call_ensures(H::register_overlay, (&hub, handed_value), answer));
        }
        Ok(id)
    }

    /// Deletes an overlay after confirmation. The hub must stop hosting it
    /// first. When the selected overlay is deleted, the one that takes its
    /// place is selected, else the last one, and the widget selection clears.
    pub fn delete_overlay(&mut self, id: OverlayId, confirmed: bool) -> (result: Result<
        (),
        CoordinatorError,
    >)
        requires
            old(self).wf(),
        ensures
            final(self).wf(),
            final(self).spec_store() == old(self).spec_store(),
            final(self).spec_hub() == old(self).spec_hub(),
            deletion_outcome(old(self).spec_hub(), old(self)@, id, confirmed, result, final(self)@),
    {
        if !confirmed {
            return Err(self.reject(CoordinatorError::ConfirmationRequired));
        }
        let index = match find_overlay(&self.overlays, id) {
            Some(i) => i,
            None => return Err(self.reject(CoordinatorError::UnknownOverlay { id })),
        };
        let ghost start = self@;
        let ghost hub = self.spec_hub();
        let removed = self.hub.remove_overlay(id);
        assert(call_ensures(H::remove_overlay, (&hub, id), removed));
        if let Err(e) = removal_verdict(id, removed) {
            let returned = self.reject(e);
            assert(call_ensures(H::remove_overlay, (&hub, id), removed));
            return Err(returned);
        }
        let ghost before = self@;
        proof {
            lemma_overlay_index(before.overlays, id);
        }
        self.overlays.remove(index);
        proof {
            assert(self@.overlays =~= before.overlays.remove(index as int));
        }
        if is_selected(self.selected, id) {
            self.selected = if index < self.overlays.len() {
                Some(self.overlays[index].id())
            } else if self.overlays.len() > 0 {
                Some(self.overlays[self.overlays.len() - 1].id())
            } else {
                None
            };
            self.selected_widget = None;
            proof {
                if let Some(x) = self.selected {
                    let k = if index < self@.overlays.len() {
                        index as int
                    } else {
                        self@.overlays.len() - 1
                    };
                    assert(self@.overlays[k].id == x);
                    lemma_overlay_index(self@.overlays, x);
                }
            }
        } else {
            proof {
                if let Some(x) = before.selected {
                    lemma_removed_index(before.overlays, index as int, x);
                }
            }
        }
        self.operation_error = None;
        proof {
            assert(self@ == without_overlay(before, id, index as int));
            assert(call_ensures(H::remove_overlay, (&hub, id), removed));
        }
        Ok(())
    }

    /// Deletes the selected overlay after confirmation.
    pub fn delete_selected(&mut self, confirmed: bool) -> (result: Result<(), CoordinatorError>)
        requires
            old(self).wf(),
        ensures
            final(self).wf(),
            final(self).spec_store() == old(self).spec_store(),
            final(self).spec_hub() == old(self).spec_hub(),
            old(self)@.selected is None ==> result == Err::<(), CoordinatorError>(
                CoordinatorError::NoOverlaySelected,
            ) && final(self)@ == old(self)@.with_operation_error(
                Some(CoordinatorError::NoOverlaySelected),
            ),
            old(self)@.selected matches Some(id) ==> deletion_outcome(
                old(self).spec_hub(),
                old(self)@,
                id,
                confirmed,
                result,
                final(self)@,
            ),
    {
        match self.selected {
            Some(id) => self.delete_overlay(id, confirmed),
            None => Err(self.reject(CoordinatorError::NoOverlaySelected)),
        }
    }

    /// Records the outcome of writing the workspace to its store. After a
    /// successful write the saved content is the workspace content; after a
    /// failed one only the error changes.
    pub fn record_save(&mut self, written: Result<(), PersistenceError>) -> (result: Result<
        (),
        CoordinatorError,
    >)
        requires
            old(self).wf(),
        ensures
            final(self).wf(),
            final(self).spec_store() == old(self).spec_store(),
            final(self).spec_hub() == old(self).spec_hub(),
            written is Ok ==> !final(self)@.is_dirty(),
            match written {
                Ok(()) => result is Ok && final(self)@ == (WorkspaceView {
                    saved: old(self)@.overlays,
                    operation_error: None,
                    ..old(self)@
                }),
                Err(e) => result == Err::<(), CoordinatorError>(CoordinatorError::Persistence(e))
                    && final(self)@ == old(self)@.with_operation_error(
                    Some(CoordinatorError::Persistence(e)),
                ),
            },
    {
        match written {
            Ok(()) => {
                self.saved_content = clone_overlays(&self.overlays);
                self.operation_error = None;
                proof {
                    lemma_saved_workspace_is_clean(self@);
                }
                Ok(())
            },
            Err(e) => Err(self.reject(CoordinatorError::Persistence(e))),
        }
    }

    /// Saves the workspace only when it has unsaved changes: `write` is asked
    /// to write exactly the workspace content to the workspace's store, and
    /// its outcome is recorded as `record_save` does. Returns whether a save
    /// was made; a clean workspace is left as it is and nothing is written.
    pub fn save_if_dirty<W>(&mut self, write: W) -> (result: Result<bool, CoordinatorError>) where
        W: FnOnce(&Store, &[Overlay]) -> Result<(), PersistenceError>,

        requires
            old(self).wf(),
            forall|store: &Store, content: &[Overlay]| call_requires(write, (store, content)),
        ensures
            final(self).wf(),
            final(self).spec_store() == old(self).spec_store(),
            final(self).spec_hub() == old(self).spec_hub(),
            result is Ok ==> !final(self)@.is_dirty(),
            !old(self)@.is_dirty() ==> result == Ok::<bool, CoordinatorError>(false)
                && final(self)@ == old(self)@,
            old(self)@.is_dirty() ==> exists|
                content: &[Overlay],
                written: Result<(), PersistenceError>,
            |
                #![trigger call_ensures(write, (&old(self).spec_store(), content), written)]
                overlay_views(content@) == old(self)@.overlays && call_ensures(
                    write,
                    (&old(self).spec_store(), content),
                    written,
                ) && match written {
                    Ok(()) => result == Ok::<bool, CoordinatorError>(true) && final(self)@ == (
                    WorkspaceView { saved: old(self)@.overlays, operation_error: None, ..old(self)@ }),
                    Err(e) => result == Err::<bool, CoordinatorError>(
                        CoordinatorError::Persistence(e),
                    ) && final(self)@ == old(self)@.with_operation_error(
                        Some(CoordinatorError::Persistence(e)),
                    ),
                },
    {
        if !self.is_dirty() {
            return Ok(false);
        }
        let content = self.overlays.as_slice();
        let written = write(&self.store, content);
        let ghost content_value = content;
        assert(call_ensures(write, (&self.spec_store(), content_value), written));
        match self.record_save(written) {
            Ok(()) => Ok(true),
            Err(e) => Err(e),
        }
    }

    /// The browser-source URL of the selected overlay, while the server runs
    /// and the hub hosts exactly the selected overlay's content.
    pub fn selected_url(&self) -> (url: Option<String>)
        requires
            self.wf(),
        ensures
            self@.server_address is None || self@.selected is None ==> url is None,
            self@.server_address is Some && self@.selected is Some ==> exists|
                answer: Result<Option<Overlay>, HubError>,
            |
                #![trigger call_ensures(H::snapshot_overlay, (&self.spec_hub(), self@.selected->0), answer)]
                call_ensures(H::snapshot_overlay, (&self.spec_hub(), self@.selected->0), answer)
                    && url_is(url, spec_selected_url(self@, answer)),
    {
        let address = match self.server_address {
            Some(a) => a,
            None => return None,
        };
        let id = match self.selected {
            Some(id) => id,
            None => return None,
        };
        let overlay = match self.overlay(id) {
            Some(o) => o,
            None => return None,
        };
        proof {
            lemma_overlay_index(self@.overlays, id);
        }
        let snapshot = self.hub.snapshot_overlay(id);
        let url = published_url(address, overlay, snapshot);
        assert(call_ensures(H::snapshot_overlay, (&self.spec_hub(), id), snapshot)
            && url_is(url, spec_selected_url(self@, snapshot)));
        url
    }

    /// The same as `selected_url`.
    pub fn browser_source_url(&self) -> (url: Option<String>)
        requires
            self.wf(),
        ensures
            self@.server_address is None || self@.selected is None ==> url is None,
            self@.server_address is Some && self@.selected is Some ==> exists|
                answer: Result<Option<Overlay>, HubError>,
            |
                #![trigger call_ensures(H::snapshot_overlay, (&self.spec_hub(), self@.selected->0), answer)]
                call_ensures(H::snapshot_overlay, (&self.spec_hub(), self@.selected->0), answer)
                    && url_is(url, spec_selected_url(self@, answer)),
    {
        self.selected_url()
    }
}


/// The widget selection after the selected overlay's widgets changed from
/// `before` to `after`: a selected widget that is still there stays selected;
/// otherwise the widget now at its old index is selected, else the last one.
pub open spec fn repaired_selection(
    before: Seq<TextWidgetView>,
    after: Seq<TextWidgetView>,
    selected: Option<TextWidgetId>,
) -> Option<TextWidgetId> {
    match selected {
        None => None,
        Some(w) => if has_widget(after, w) {
            Some(w)
        } else {
            let i = widget_index(before, w);
            if i < 0 {
                None
            } else if i < after.len() {
                Some(after[i].id)
            } else if after.len() > 0 {
                Some(after.last().id)
            } else {
                None
            }
        },
    }
}

fn repair_widget_selection(overlay: &Overlay, selected: Option<TextWidgetId>, old_index: Option<
    usize,
>) -> (repaired: Option<TextWidgetId>)
    ensures
        match selected {
            None => repaired is None,
            Some(w) => if has_widget(overlay@.widgets, w) {
                repaired == Some(w)
            } else {
                match old_index {
                    None => repaired is None,
                    Some(i) => if i < overlay@.widgets.len() {
                        repaired == Some(overlay@.widgets[i as int].id)
                    } else if overlay@.widgets.len() > 0 {
                        repaired == Some(overlay@.widgets.last().id)
                    } else {
                        repaired is None
                    },
                }
            },
        },
{
    let selected = match selected {
        Some(w) => w,
        None => return None,
    };
    proof {
        lemma_widget_index(overlay@.widgets, selected);
    }
    if overlay.widget(selected).is_some() {
        return Some(selected);
    }
    let index = match old_index {
        Some(i) => i,
        None => return None,
    };
    let widgets = overlay.widgets();
    if index < widgets.len() {
        Some(widgets[index].id())
    } else if widgets.len() > 0 {
        Some(widgets[widgets.len() - 1].id())
    } else {
        None
    }
}

/// The verdict on the hub's copy `snapshot` of overlay `id` after `published`
/// was published: the hub must hold exactly the published content.
pub open spec fn spec_snapshot_verdict(
    id: OverlayId,
    published: OverlayView,
    snapshot: Result<Option<Overlay>, HubError>,
) -> Result<(), CoordinatorError> {
    match snapshot {
        Ok(Some(s)) => if s@.same_content(published) {
            Ok(())
        } else {
            Err(CoordinatorError::HubWorkspaceDivergence { id })
        },
        Ok(None) => Err(CoordinatorError::HubWorkspaceDivergence { id }),
        Err(e) => Err(CoordinatorError::Hub(e)),
    }
}

/// The outcome of handing `updated`, the checked new content of the overlay
/// at `index`, to `hub`: the hub is given exactly that content; if it
/// accepts, it is asked for its copy of the overlay, and the change is
/// committed only when that copy is exactly the new content. Any refusal
/// leaves the workspace as it was.
pub open spec fn published_update<H: HubOperations>(
    hub: H,
    old: WorkspaceView,
    index: int,
    updated: OverlayView,
    result: Result<(), CoordinatorError>,
    new: WorkspaceView,
) -> bool {
    exists|handed: Overlay, answer: Result<PublishResult, HubError>|
        #![trigger call_ensures(H::publish_overlay, (&hub, &handed), answer)]
        handed@ == updated && call_ensures(H::publish_overlay, (&hub, &handed), answer) && match answer {
            Err(e) => refused(old, new, result, CoordinatorError::Hub(e)),
            Ok(_) => exists|snapshot: Result<Option<Overlay>, HubError>|
                #![trigger call_ensures(H::snapshot_overlay, (&hub, updated.id), snapshot)]
                call_ensures(H::snapshot_overlay, (&hub, updated.id), snapshot) && match spec_snapshot_verdict(
                    updated.id,
                    updated,
                    snapshot,
                ) {
                    Ok(()) => result is Ok && new == committed_update(old, index, updated),
                    Err(e) => refused(old, new, result, e),
                },
        }
}

/// After an accepted change of the overlay at `index`, the hub was handed
/// exactly the new content, accepted it, and then answered for that overlay
/// with a copy holding exactly the content the workspace now has.
pub proof fn lemma_accepted_change_is_hosted<H: HubOperations>(
    hub: H,
    old: WorkspaceView,
    index: int,
    updated: OverlayView,
    new: WorkspaceView,
)
    requires
        0 <= index < old.overlays.len(),
        published_update(hub, old, index, updated, Ok(()), new),
    ensures
        new.overlays[index] == updated,
        exists|handed: Overlay, answer: Result<PublishResult, HubError>|
            #![trigger call_ensures(H::publish_overlay, (&hub, &handed), answer)]
            handed@ == updated && answer is Ok && call_ensures(
                H::publish_overlay,
                (&hub, &handed),
                answer,
            ),
        exists|snapshot: Result<Option<Overlay>, HubError>|
            #![trigger call_ensures(H::snapshot_overlay, (&hub, updated.id), snapshot)]
            call_ensures(H::snapshot_overlay, (&hub, updated.id), snapshot) && (snapshot matches Ok(
                Some(copy),
            ) && copy@.same_content(new.overlays[index])),
{
    let (handed, answer) = choose|handed: Overlay, answer: Result<PublishResult, HubError>|
        handed@ == updated && call_ensures(H::publish_overlay, (&hub, &handed), answer) && match answer {
            Err(e) => refused(old, new, Ok(()), CoordinatorError::Hub(e)),
            Ok(_) => exists|snapshot: Result<Option<Overlay>, HubError>|
                #![trigger call_ensures(H::snapshot_overlay, (&hub, updated.id), snapshot)]
                call_ensures(H::snapshot_overlay, (&hub, updated.id), snapshot) && match spec_snapshot_verdict(
                    updated.id,
                    updated,
                    snapshot,
                ) {
                    Ok(()) => new == committed_update(old, index, updated),
                    Err(e) => refused(old, new, Ok(()), e),
                },
        };
    assert(answer is Ok);
    let snapshot = choose|snapshot: Result<Option<Overlay>, HubError>|
        call_ensures(H::snapshot_overlay, (&hub, updated.id), snapshot) && match spec_snapshot_verdict(
            updated.id,
            updated,
            snapshot,
        ) {
            Ok(()) => new == committed_update(old, index, updated),
            Err(e) => refused(old, new, Ok(()), e),
        };
    assert(new == committed_update(old, index, updated));
    assert(call_ensures(H::snapshot_overlay, (&hub, updated.id), snapshot));
    assert(call_ensures(H::publish_overlay, (&hub, &handed), answer));
}

/// The outcome of checking the hub's copy of an overlay after publishing it:
/// the hub must hold exactly the published content.
pub fn snapshot_verdict(id: OverlayId, published: &Overlay, snapshot: Result<Option<Overlay>, HubError>) -> (verdict: Result<
    (),
    CoordinatorError,
>)
    ensures
        verdict == spec_snapshot_verdict(id, published@, snapshot),
{
    match snapshot {
        Ok(Some(s)) => if s.same_content(published) {
            Ok(())
        } else {
            Err(CoordinatorError::HubWorkspaceDivergence { id })
        },
        Ok(None) => Err(CoordinatorError::HubWorkspaceDivergence { id }),
        Err(e) => Err(CoordinatorError::Hub(e)),
    }
}

/// A refused operation: it returns `e` and only the operation error changes.
pub open spec fn refused(
    old: WorkspaceView,
    new: WorkspaceView,
    result: Result<(), CoordinatorError>,
    e: CoordinatorError,
) -> bool {
    result == Err::<(), CoordinatorError>(e) && new == old.with_operation_error(Some(e))
}

/// The workspace after the hub accepted `updated` for the overlay at
/// `index`: the overlay is replaced, the widget selection of a selected
/// overlay is repaired, and the operation error clears.
pub open spec fn committed_update(old: WorkspaceView, index: int, updated: OverlayView) -> WorkspaceView {
    let id = old.overlays[index].id;
    WorkspaceView {
        overlays: old.overlays.update(index, updated),
        selected_widget: if old.selected == Some(id) {
            repaired_selection(old.overlays[index].widgets, updated.widgets, old.selected_widget)
        } else {
            old.selected_widget
        },
        operation_error: None,
        ..old
    }
}

/// The outcome of changing overlay `id` into `mutated`. An unknown overlay,
/// a refused mutation, a changed identity, or a candidate collection that
/// breaks a collection rule is refused before the hub is asked; content equal
/// to the current content changes nothing. Otherwise the candidate is handed
/// to the hub as `published_update` describes.
pub open spec fn update_outcome<H: HubOperations>(
    hub: H,
    old: WorkspaceView,
    id: OverlayId,
    mutated: Result<OverlayView, ModelError>,
    result: Result<(), CoordinatorError>,
    new: WorkspaceView,
) -> bool {
    let index = overlay_index(old.overlays, id);
    if index < 0 {
        refused(old, new, result, CoordinatorError::UnknownOverlay { id })
    } else {
        match mutated {
            Err(e) => refused(old, new, result, CoordinatorError::Model(e)),
            Ok(updated) => if updated.same_content(old.overlays[index]) {
                result is Ok && new == old.with_operation_error(None)
            } else if updated.id != id {
                refused(
                    old,
                    new,
                    result,
                    CoordinatorError::Model(
                        ModelError::OverlayIdentityChanged { expected: id, found: updated.id },
                    ),
                )
            } else {
                match first_collection_error(old.overlays.update(index, updated), 0) {
                    Some(e) => refused(old, new, result, CoordinatorError::Model(e)),
                    None => published_update(hub, old, index, updated, result, new),
                }
            },
        }
    }
}

/// The content a mutation produced, or its error.
pub open spec fn mutation_view(mutated: Result<Overlay, ModelError>) -> Result<OverlayView, ModelError> {
    match mutated {
        Ok(o) => Ok(o@),
        Err(e) => Err(e),
    }
}

proof fn lemma_overlay_index_same_ids(a: Seq<OverlayView>, b: Seq<OverlayView>, id: OverlayId)
    requires
        a.len() == b.len(),
        forall|i: int| 0 <= i < a.len() ==> (#[trigger] a[i]).id == b[i].id,
    ensures
        overlay_index(a, id) == overlay_index(b, id),
    decreases a.len(),
{
    if a.len() > 0 {
        assert(a[0].id == b[0].id);
        let ra = a.drop_first();
        let rb = b.drop_first();
        assert forall|i: int| 0 <= i < ra.len() implies (#[trigger] ra[i]).id == rb[i].id by {
            assert(ra[i] == a[i + 1]);
            assert(rb[i] == b[i + 1]);
        }
        lemma_overlay_index_same_ids(ra, rb, id);
    }
}

proof fn lemma_committed_consistent(old: WorkspaceView, index: int, updated: OverlayView)
    requires
        old.selection_is_consistent(),
        0 <= index < old.overlays.len(),
        index == overlay_index(old.overlays, old.overlays[index].id),
        updated.id == old.overlays[index].id,
    ensures
        committed_update(old, index, updated).selection_is_consistent(),
{
    let new = committed_update(old, index, updated);
    let id = old.overlays[index].id;
    assert forall|x: OverlayId| overlay_index(new.overlays, x) == overlay_index(old.overlays, x) by {
        lemma_overlay_index_same_ids(new.overlays, old.overlays, x);
    }
    lemma_overlay_index(old.overlays, id);
    if let Some(w) = new.selected_widget {
        let x = new.selected->0;
        if old.selected == Some(id) {
            let before = old.overlays[index].widgets;
            let after = updated.widgets;
            if !has_widget(after, w) {
                let i = widget_index(before, old.selected_widget->0);
                if i < after.len() {
                    assert(after[i].id == w);
                } else {
                    assert(after[after.len() - 1].id == w);
                }
            }
        } else {
            lemma_overlay_index(old.overlays, x);
            assert(overlay_index(old.overlays, x) != index);
        }
    }
}

impl<H: HubOperations> HeadlessCoordinator<H> {
    /// Checks and publishes `mutated` as the new content of overlay `id` at
    /// `index`, whose current content is `current`.
    fn apply_mutation(
        &mut self,
        id: OverlayId,
        index: usize,
        current: &Overlay,
        mutated: Result<Overlay, ModelError>,
    ) -> (result: Result<(), CoordinatorError>)
        requires
            old(self).wf(),
            index == overlay_index(old(self)@.overlays, id),
            current@ == old(self)@.overlays[index as int],
        ensures
            final(self).wf(),
            final(self).spec_store() == old(self).spec_store(),
            final(self).spec_hub() == old(self).spec_hub(),
            update_outcome(
                old(self).spec_hub(),
                old(self)@,
                id,
                mutation_view(mutated),
                result,
                final(self)@,
            ),
    {
        proof {
            lemma_overlay_index(self@.overlays, id);
        }
        let updated = match mutated {
            Ok(o) => o,
            Err(e) => return Err(self.reject(CoordinatorError::Model(e))),
        };
        if updated.same_content(current) {
            self.operation_error = None;
            return Ok(());
        }
        let found = updated.id();
        if found != id {
            return Err(
                self.reject(
                    CoordinatorError::Model(
                        ModelError::OverlayIdentityChanged { expected: id, found },
                    ),
                ),
            );
        }
        let mut candidate = clone_overlays(&self.overlays);
        let ghost before = overlay_views(candidate@);
        candidate.set(index, updated.clone());
        proof {
            assert(overlay_views(candidate@) =~= before.update(index as int, updated@));
        }
        if let Err(e) = validate_collection(candidate.as_slice()) {
            return Err(self.reject(CoordinatorError::Model(e)));
        }
        let selected_here = is_selected(self.selected, id);
        let selected_widget = if selected_here {
            self.selected_widget
        } else {
            None
        };
        let selected_index = match selected_widget {
            Some(w) => current.widget_index(w),
            None => None,
        };
        let ghost start = self@;
        let ghost hub = self.spec_hub();
        let published = self.hub.publish_overlay(&updated);
        assert(call_ensures(H::publish_overlay, (&hub, &updated), published));
        if let Err(e) = published {
            let returned = self.reject(CoordinatorError::Hub(e));
            assert(updated@ == updated@ && call_ensures(H::publish_overlay, (&hub, &updated), published));
            return Err(returned);
        }
        let snapshot = self.hub.snapshot_overlay(id);
        assert(call_ensures(H::snapshot_overlay, (&hub, updated@.id), snapshot));
        if let Err(e) = snapshot_verdict(id, &updated, snapshot) {
            let returned = self.reject(e);
            assert(published_update(hub, start, index as int, updated@, Err(returned), self@));
            return Err(returned);
        }
        let repaired = if selected_here {
            repair_widget_selection(&updated, selected_widget, selected_index)
        } else {
            self.selected_widget
        };
        let ghost old_view = self@;
        self.overlays.set(index, updated);
        self.selected_widget = repaired;
        self.operation_error = None;
        proof {
            assert(self@.overlays =~= old_view.overlays.update(index as int, updated@));
            if selected_here {
                if let Some(w) = old_view.selected_widget {
                    lemma_widget_index(current@.widgets, w);
                }
            }
            assert(self@ == committed_update(old_view, index as int, updated@));
            lemma_committed_consistent(old_view, index as int, updated@);
            lemma_valid_collection_is_numeric(self@.overlays);
            lemma_valid_collection_has_distinct_widgets(self@.overlays);
            assert(call_ensures(H::publish_overlay, (&hub, &updated), published));
            assert(call_ensures(H::snapshot_overlay, (&hub, updated@.id), snapshot));
            assert(published_update(hub, start, index as int, updated@, Ok(()), self@));
        }
        Ok(())
    }

    /// Changes an overlay through `mutate`, which receives a copy of its
    /// current content. The change is checked and published as described by
    /// `update_outcome`; whatever is refused leaves the workspace, the saved
    /// content and the selection unchanged.
    pub fn update_overlay<F>(&mut self, id: OverlayId, mutate: F) -> (result: Result<
        (),
        CoordinatorError,
    >) where F: FnOnce(Overlay) -> Result<Overlay, ModelError>
        requires
            old(self).wf(),
            forall|o: Overlay| call_requires(mutate, (o,)),
        ensures
            final(self).wf(),
            final(self).spec_store() == old(self).spec_store(),
            final(self).spec_hub() == old(self).spec_hub(),
            overlay_index(old(self)@.overlays, id) < 0 ==> refused(
                old(self)@,
                final(self)@,
                result,
                CoordinatorError::UnknownOverlay { id },
            ),
            overlay_index(old(self)@.overlays, id) >= 0 ==> exists|
                input: Overlay,
                output: Result<Overlay, ModelError>,
            |
                input@ == old(self)@.overlays[overlay_index(old(self)@.overlays, id)]
                    && call_ensures(mutate, (input,), output) && update_outcome(
                    old(self).spec_hub(),
                    old(self)@,
                    id,
                    mutation_view(output),
                    result,
                    final(self)@,
                ),
    {
        let index = match find_overlay(&self.overlays, id) {
            Some(i) => i,
            None => return Err(self.reject(CoordinatorError::UnknownOverlay { id })),
        };
        let current = self.overlays[index].clone();
        let input = current.clone();
        let ghost input_view = input;
        let mutated = mutate(input);
        let result = self.apply_mutation(id, index, &current, mutated);
        assert(input_view@ == old(self)@.overlays[overlay_index(old(self)@.overlays, id)]);
        result
    }
}


/// The outcome of renaming an overlay: a blank name is refused.
pub open spec fn renamed(o: OverlayView, name: Seq<char>) -> Result<OverlayView, ModelError> {
    if is_blank(name) {
        Err(ModelError::EmptyName)
    } else {
        Ok(OverlayView { name, ..o })
    }
}

/// The outcome of adding a widget at the front of an overlay: its position
/// must be on the canvas and its identity new to the overlay.
pub open spec fn with_widget_added(o: OverlayView, w: TextWidgetView) -> Result<OverlayView, ModelError> {
    if !w.position.spec_in_canvas(o.canvas) {
        Err(ModelError::InvalidPosition { x: w.position.spec_x(), y: w.position.spec_y() })
    } else if has_widget(o.widgets, w.id) {
        Err(ModelError::WidgetAlreadyExists { id: w.id })
    } else {
        Ok(OverlayView { widgets: seq![w].add(o.widgets), ..o })
    }
}

/// The outcome of deleting the first widget with the given identity.
pub open spec fn without_widget(o: OverlayView, id: TextWidgetId) -> Result<OverlayView, ModelError> {
    if has_widget(o.widgets, id) {
        Ok(OverlayView { widgets: o.widgets.remove(widget_index(o.widgets, id)), ..o })
    } else {
        Err(ModelError::TextWidgetNotFound { id })
    }
}


/// `after` is `o` with a copy of its widget `id` inserted at the front under
/// the fresh identity `new_id` and the name `"<name> Copy"`.
pub open spec fn duplicated(o: OverlayView, id: TextWidgetId, new_id: TextWidgetId, after: OverlayView) -> bool {
    let source = o.widgets[widget_index(o.widgets, id)];
    &&& has_widget(o.widgets, id)
    &&& new_id.spec_is_valid()
    &&& after.id == o.id
    &&& after.name == o.name
    &&& after.canvas == o.canvas
    &&& after.widgets.len() == o.widgets.len() + 1
    &&& after.widgets.drop_first() == o.widgets
    &&& after.widgets[0] == (TextWidgetView { id: new_id, name: source.name + " Copy"@, ..source })
}

/// The outcome of duplicating widget `widget_id` of overlay `overlay_id`:
/// refused for an unknown overlay or widget; otherwise the copy is placed at
/// the front under a fresh identity, and the new content goes through the
/// checks and the hub as `update_outcome` describes; once accepted, the copy
/// is selected.
pub open spec fn duplication_outcome<H: HubOperations>(
    hub: H,
    old: WorkspaceView,
    overlay_id: OverlayId,
    widget_id: TextWidgetId,
    result: Result<TextWidgetId, CoordinatorError>,
    new: WorkspaceView,
) -> bool {
    match result {
        Ok(new_id) => {
            let index = overlay_index(old.overlays, overlay_id);
            let u = new.overlays[index];
            &&& duplicated(overlay_of(old, overlay_id), widget_id, new_id, u)
            &&& accepted(old, overlay_id, u)
            &&& published_update(
                hub,
                old,
                index,
                u,
                Ok(()),
                committed_update(old, index, u),
            )
            &&& new == (WorkspaceView {
                selected: Some(overlay_id),
                selected_widget: Some(new_id),
                ..committed_update(old, index, u)
            })
        },
        Err(e) => new == old.with_operation_error(Some(e)) && if overlay_index(
            old.overlays,
            overlay_id,
        ) < 0 {
            e == (CoordinatorError::UnknownOverlay { id: overlay_id })
        } else if !has_widget(overlay_of(old, overlay_id).widgets, widget_id) {
            e == CoordinatorError::Model(ModelError::TextWidgetNotFound { id: widget_id })
        } else {
            exists|new_id: TextWidgetId, u: OverlayView|
                duplicated(overlay_of(old, overlay_id), widget_id, new_id, u)
                    && update_outcome(
                    hub,
                    old,
                    overlay_id,
                    Ok(u),
                    Err(e),
                    new,
                )
        },
    }
}

/// The checks before publication passed for new content `u` of overlay `id`:
/// it is in the workspace, the content differs, the identity is kept, and
/// the candidate collection passes every collection rule.
pub open spec fn accepted(old: WorkspaceView, id: OverlayId, u: OverlayView) -> bool {
    let index = overlay_index(old.overlays, id);
    &&& index >= 0
    &&& !u.same_content(old.overlays[index])
    &&& u.id == id
    &&& first_collection_error(old.overlays.update(index, u), 0).is_none()
}

/// The content of the overlay `id` in `ws`.
pub open spec fn overlay_of(ws: WorkspaceView, id: OverlayId) -> OverlayView {
    ws.overlays[overlay_index(ws.overlays, id)]
}

impl<H: HubOperations> HeadlessCoordinator<H> {
    /// Renames an overlay (see `update_outcome`).
    pub fn rename_overlay(&mut self, id: OverlayId, name: &str) -> (result: Result<
        (),
        CoordinatorError,
    >)
        requires
            old(self).wf(),
        ensures
            final(self).wf(),
            final(self).spec_store() == old(self).spec_store(),
            final(self).spec_hub() == old(self).spec_hub(),
            update_outcome(
                old(self).spec_hub(),
                old(self)@,
                id,
                renamed(overlay_of(old(self)@, id), name@),
                result,
                final(self)@,
            ),
    {
        let index = match find_overlay(&self.overlays, id) {
            Some(i) => i,
            None => return Err(self.reject(CoordinatorError::UnknownOverlay { id })),
        };
        let current = self.overlays[index].clone();
        let mut updated = current.clone();
        let mutated = match updated.rename(name) {
            Ok(()) => Ok(updated),
            Err(e) => Err(e),
        };
        self.apply_mutation(id, index, &current, mutated)
    }

    /// Renames the selected overlay.
    pub fn rename_selected(&mut self, name: &str) -> (result: Result<(), CoordinatorError>)
        requires
            old(self).wf(),
        ensures
            final(self).wf(),
            final(self).spec_store() == old(self).spec_store(),
            final(self).spec_hub() == old(self).spec_hub(),
            match old(self)@.selected {
                None => refused(
                    old(self)@,
                    final(self)@,
                    result,
                    CoordinatorError::NoOverlaySelected,
                ),
                Some(id) => update_outcome(
                    old(self).spec_hub(),
                    old(self)@,
                    id,
                    renamed(overlay_of(old(self)@, id), name@),
                    result,
                    final(self)@,
                ),
            },
    {
        match self.selected {
            Some(id) => self.rename_overlay(id, name),
            None => Err(self.reject(CoordinatorError::NoOverlaySelected)),
        }
    }

    /// Adds a widget at the front of an overlay and selects it.
    pub fn add_widget(&mut self, overlay_id: OverlayId, widget: TextWidget) -> (result: Result<
        TextWidgetId,
        CoordinatorError,
    >)
        requires
            old(self).wf(),
        ensures
            final(self).wf(),
            final(self).spec_store() == old(self).spec_store(),
            final(self).spec_hub() == old(self).spec_hub(),
            match result {
                Ok(id) => {
                    let index = overlay_index(old(self)@.overlays, overlay_id);
                    let u = final(self)@.overlays[index];
                    &&& id == widget@.id
                    &&& with_widget_added(overlay_of(old(self)@, overlay_id), widget@)
                        == Ok::<OverlayView, ModelError>(u)
                    &&& accepted(old(self)@, overlay_id, u)
                    &&& published_update(
                        old(self).spec_hub(),
                        old(self)@,
                        index,
                        u,
                        Ok(()),
                        committed_update(old(self)@, index, u),
                    )
                    &&& final(self)@ == (WorkspaceView {
                        selected: Some(overlay_id),
                        selected_widget: Some(id),
                        ..committed_update(old(self)@, index, u)
                    })
                },
                Err(e) => update_outcome(
                    old(self).spec_hub(),
                    old(self)@,
                    overlay_id,
                    with_widget_added(overlay_of(old(self)@, overlay_id), widget@),
                    Err(e),
                    final(self)@,
                ),
            },
    {
        let id = widget.id();
        let index = match find_overlay(&self.overlays, overlay_id) {
            Some(i) => i,
            None => return Err(self.reject(CoordinatorError::UnknownOverlay { id: overlay_id })),
        };
        let current = self.overlays[index].clone();
        let mut updated = current.clone();
        let mutated = match updated.add_widget(widget) {
            Ok(_) => Ok(updated),
            Err(e) => Err(e),
        };
        let ghost mutated_view = mutation_view(mutated);
        proof {
            lemma_overlay_index(self@.overlays, overlay_id);
        }
        match self.apply_mutation(overlay_id, index, &current, mutated) {
            Ok(()) => {
                let ghost committed = self@;
                proof {
                    lemma_overlay_index(committed.overlays, overlay_id);
                    let u = mutated_view->Ok_0;
                    assert(u.widgets[0].id == id);
                    assert(committed.overlays[index as int] == u);
                    assert(has_widget(u.widgets, id));
                }
                self.selected = Some(overlay_id);
                self.selected_widget = Some(id);
                Ok(id)
            },
            Err(e) => Err(e),
        }
    }

    /// Adds a widget at the front of the selected overlay and selects it.
    pub fn add_selected_widget(&mut self, widget: TextWidget) -> (result: Result<
        TextWidgetId,
        CoordinatorError,
    >)
        requires
            old(self).wf(),
        ensures
            final(self).wf(),
            final(self).spec_store() == old(self).spec_store(),
            final(self).spec_hub() == old(self).spec_hub(),
            match old(self)@.selected {
                None => result == Err::<TextWidgetId, CoordinatorError>(
                    CoordinatorError::NoOverlaySelected,
                ) && final(self)@ == old(self)@.with_operation_error(
                    Some(CoordinatorError::NoOverlaySelected),
                ),
                Some(overlay_id) => match result {
                    Ok(id) => {
                        let index = overlay_index(old(self)@.overlays, overlay_id);
                        let u = final(self)@.overlays[index];
                        &&& id == widget@.id
                        &&& with_widget_added(overlay_of(old(self)@, overlay_id), widget@)
                            == Ok::<OverlayView, ModelError>(u)
                        &&& accepted(old(self)@, overlay_id, u)
                        &&& published_update(
                            old(self).spec_hub(),
                            old(self)@,
                            index,
                            u,
                            Ok(()),
                            committed_update(old(self)@, index, u),
                        )
                        &&& final(self)@ == (WorkspaceView {
                            selected: Some(overlay_id),
                            selected_widget: Some(id),
                            ..committed_update(old(self)@, index, u)
                        })
                    },
                    Err(e) => update_outcome(
                        old(self).spec_hub(),
                        old(self)@,
                        overlay_id,
                        with_widget_added(overlay_of(old(self)@, overlay_id), widget@),
                        Err(e),
                        final(self)@,
                    ),
                },
            },
    {
        match self.selected {
            Some(overlay_id) => self.add_widget(overlay_id, widget),
            None => Err(self.reject(CoordinatorError::NoOverlaySelected)),
        }
    }

    /// Duplicates a widget of an overlay under a fresh identity at the front,
    /// and selects the copy.
    pub fn duplicate_widget(&mut self, overlay_id: OverlayId, widget_id: TextWidgetId) -> (result:
        Result<TextWidgetId, CoordinatorError>)
        requires
            old(self).wf(),
        ensures
            final(self).wf(),
            final(self).spec_store() == old(self).spec_store(),
            final(self).spec_hub() == old(self).spec_hub(),
            duplication_outcome(
                old(self).spec_hub(),
                old(self)@,
                overlay_id,
                widget_id,
                result,
                final(self)@,
            ),
    {
        let index = match find_overlay(&self.overlays, overlay_id) {
            Some(i) => i,
            None => return Err(self.reject(CoordinatorError::UnknownOverlay { id: overlay_id })),
        };
        let current = self.overlays[index].clone();
        let mut updated = current.clone();
        let (mutated, inserted) = match updated.duplicate_widget(widget_id) {
            Ok(new_id) => (Ok(updated), Some(new_id)),
            Err(e) => (Err(e), None),
        };
        let ghost mutated_view = mutation_view(mutated);
        proof {
            lemma_overlay_index(self@.overlays, overlay_id);
        }
        match self.apply_mutation(overlay_id, index, &current, mutated) {
            Ok(()) => {
                let new_id = match inserted {
                    Some(new_id) => new_id,
                    None => {
                        proof {
                            assert(false);
                        }
                        return Ok(widget_id);
                    },
                };
                let ghost committed = self@;
                proof {
                    lemma_overlay_index(committed.overlays, overlay_id);
                    let u = mutated_view->Ok_0;
                    assert(published_update(
                        old(self).spec_hub(),
                        old(self)@,
                        index as int,
                        u,
                        Ok(()),
                        committed,
                    ));
                    assert(committed == committed_update(old(self)@, index as int, u));
                    assert(u.widgets[0].id == new_id);
                    assert(committed.overlays[index as int] == u);
                    assert(has_widget(u.widgets, new_id));
                }
                self.selected = Some(overlay_id);
                self.selected_widget = Some(new_id);
                Ok(new_id)
            },
            Err(e) => {
                proof {
                    if let Some(nid) = inserted {
                        let u = mutated_view->Ok_0;
                        assert(duplicated(overlay_of(old(self)@, overlay_id), widget_id, nid, u));
                        assert(update_outcome(
                            old(self).spec_hub(),
                            old(self)@,
                            overlay_id,
                            Ok(u),
                            Err(e),
                            self@,
                        ));
                    }
                }
                Err(e)
            },
        }
    }

    /// Deletes a widget of an overlay (see `update_outcome`).
    pub fn delete_widget(&mut self, overlay_id: OverlayId, widget_id: TextWidgetId) -> (result:
        Result<(), CoordinatorError>)
        requires
            old(self).wf(),
        ensures
            final(self).wf(),
            final(self).spec_store() == old(self).spec_store(),
            final(self).spec_hub() == old(self).spec_hub(),
            update_outcome(
                old(self).spec_hub(),
                old(self)@,
                overlay_id,
                without_widget(overlay_of(old(self)@, overlay_id), widget_id),
                result,
                final(self)@,
            ),
    {
        let index = match find_overlay(&self.overlays, overlay_id) {
            Some(i) => i,
            None => return Err(self.reject(CoordinatorError::UnknownOverlay { id: overlay_id })),
        };
        let current = self.overlays[index].clone();
        let mut updated = current.clone();
        let mutated = match updated.delete_widget(widget_id) {
            Ok(_) => Ok(updated),
            Err(e) => Err(e),
        };
        self.apply_mutation(overlay_id, index, &current, mutated)
    }

    /// Deletes the selected widget of the selected overlay.
    pub fn delete_selected_widget(&mut self) -> (result: Result<(), CoordinatorError>)
        requires
            old(self).wf(),
        ensures
            final(self).wf(),
            final(self).spec_store() == old(self).spec_store(),
            final(self).spec_hub() == old(self).spec_hub(),
            match (old(self)@.selected, old(self)@.selected_widget) {
                (None, _) => refused(
                    old(self)@,
                    final(self)@,
                    result,
                    CoordinatorError::NoOverlaySelected,
                ),
                (Some(_), None) => refused(
                    old(self)@,
                    final(self)@,
                    result,
                    CoordinatorError::NoWidgetSelected,
                ),
                (Some(overlay_id), Some(widget_id)) => update_outcome(
                    old(self).spec_hub(),
                    old(self)@,
                    overlay_id,
                    without_widget(overlay_of(old(self)@, overlay_id), widget_id),
                    result,
                    final(self)@,
                ),
            },
    {
        let overlay_id = match self.selected {
            Some(id) => id,
            None => return Err(self.reject(CoordinatorError::NoOverlaySelected)),
        };
        let widget_id = match self.selected_widget {
            Some(id) => id,
            None => return Err(self.reject(CoordinatorError::NoWidgetSelected)),
        };
        self.delete_widget(overlay_id, widget_id)
    }

    /// Moves a widget one layer toward the front (see `update_outcome`).
    pub fn move_widget_forward(&mut self, overlay_id: OverlayId, widget_id: TextWidgetId) -> (result:
        Result<(), CoordinatorError>)
        requires
            old(self).wf(),
        ensures
            final(self).wf(),
            final(self).spec_store() == old(self).spec_store(),
            final(self).spec_hub() == old(self).spec_hub(),
            update_outcome(
                old(self).spec_hub(),
                old(self)@,
                overlay_id,
                moved_forward(overlay_of(old(self)@, overlay_id), widget_id),
                result,
                final(self)@,
            ),
    {
        let index = match find_overlay(&self.overlays, overlay_id) {
            Some(i) => i,
            None => return Err(self.reject(CoordinatorError::UnknownOverlay { id: overlay_id })),
        };
        let current = self.overlays[index].clone();
        let mut updated = current.clone();
        let mutated = match updated.move_widget_forward(widget_id) {
            Ok(()) => Ok(updated),
            Err(e) => Err(e),
        };
        self.apply_mutation(overlay_id, index, &current, mutated)
    }

    /// Moves a widget one layer toward the back (see `update_outcome`).
    pub fn move_widget_backward(&mut self, overlay_id: OverlayId, widget_id: TextWidgetId) -> (result:
        Result<(), CoordinatorError>)
        requires
            old(self).wf(),
        ensures
            final(self).wf(),
            final(self).spec_store() == old(self).spec_store(),
            final(self).spec_hub() == old(self).spec_hub(),
            update_outcome(
                old(self).spec_hub(),
                old(self)@,
                overlay_id,
                moved_backward(overlay_of(old(self)@, overlay_id), widget_id),
                result,
                final(self)@,
            ),
    {
        let index = match find_overlay(&self.overlays, overlay_id) {
            Some(i) => i,
            None => return Err(self.reject(CoordinatorError::UnknownOverlay { id: overlay_id })),
        };
        let current = self.overlays[index].clone();
        let mut updated = current.clone();
        let mutated = match updated.move_widget_backward(widget_id) {
            Ok(()) => Ok(updated),
            Err(e) => Err(e),
        };
        self.apply_mutation(overlay_id, index, &current, mutated)
    }
}


impl<H: HubOperations> HeadlessCoordinator<H> {
    /// Records the outcome of starting the server: its address, or its error.
    pub fn record_server_start(&mut self, started: Result<ServerAddress, ServerError>)
        requires
            old(self).wf(),
        ensures
            final(self).wf(),
            final(self).spec_store() == old(self).spec_store(),
            final(self).spec_hub() == old(self).spec_hub(),
            final(self)@ == match started {
                Ok(address) => WorkspaceView {
                    server_address: Some(address),
                    server_error: None,
                    ..old(self)@
                },
                Err(e) => WorkspaceView {
                    server_error: Some(CoordinatorError::Server(e)),
                    ..old(self)@
                },
            },
    {
        match started {
            Ok(address) => self.set_server_address(address),
            Err(e) => self.record_server_error(e),
        }
    }
}


/// After a successful save the workspace is clean: the saved content is the
/// workspace content, and widgets built by the model compare equal to
/// themselves.
pub proof fn lemma_saved_workspace_is_clean(v: WorkspaceView)
    requires
        v.saved == v.overlays,
        numeric_widgets(v.overlays),
    ensures
        !v.is_dirty(),
{
    lemma_same_collection_reflexive(v.overlays);
}


/// In every workspace the coordinator keeps, moving a widget one layer
/// toward the back and then one layer toward the front restores its overlay
/// when the widget was not backmost, and moving it toward the front and then
/// toward the back restores it when the widget was not frontmost.
pub proof fn lemma_workspace_move_round_trip(v: WorkspaceView, overlay_id: OverlayId, widget_id: TextWidgetId)
    requires
        distinct_widget_ids(v.overlays),
        overlay_index(v.overlays, overlay_id) >= 0,
        has_widget(overlay_of(v, overlay_id).widgets, widget_id),
    ensures
        ({
            let o = overlay_of(v, overlay_id);
            widget_index(o.widgets, widget_id) + 1 < o.widgets.len() ==> (moved_backward(o, widget_id)
                matches Ok(b) && moved_forward(b, widget_id) == Ok::<OverlayView, ModelError>(o))
        }),
        ({
            let o = overlay_of(v, overlay_id);
            widget_index(o.widgets, widget_id) > 0 ==> (moved_forward(o, widget_id) matches Ok(f)
                && moved_backward(f, widget_id) == Ok::<OverlayView, ModelError>(o))
        }),
{
    lemma_overlay_index(v.overlays, overlay_id);
    let o = overlay_of(v, overlay_id);
    assert(unique_widget_ids(o.widgets));
    if widget_index(o.widgets, widget_id) + 1 < o.widgets.len() {
        lemma_backward_then_forward(o, widget_id);
    }
    if widget_index(o.widgets, widget_id) > 0 {
        lemma_forward_then_backward(o, widget_id);
    }
}

/// An accepted change of a workspace without unsaved changes leaves it with
/// unsaved changes.
pub proof fn lemma_accepted_change_makes_dirty(old: WorkspaceView, index: int, updated: OverlayView)
    requires
        !old.is_dirty(),
        0 <= index < old.overlays.len(),
        !updated.same_content(old.overlays[index]),
    ensures
        committed_update(old, index, updated).is_dirty(),
{
    let new = committed_update(old, index, updated);
    if !new.is_dirty() {
        assert(new.overlays[index] == updated);
        assert(updated.same_content(old.saved[index]));
        assert(old.overlays[index].same_content(old.saved[index]));
        lemma_same_content_symmetric(old.overlays[index], old.saved[index]);
        lemma_same_content_transitive(updated, old.saved[index], old.overlays[index]);
    }
}

/// Whether a workspace has unsaved changes depends on its content and its
/// saved content alone: selecting, recording an error, a server address or a
/// server error never changes it.
pub proof fn lemma_dirty_depends_on_content(a: WorkspaceView, b: WorkspaceView)
    requires
        a.overlays == b.overlays,
        a.saved == b.saved,
    ensures
        a.is_dirty() == b.is_dirty(),
{
}

/// A refused operation leaves the workspace exactly as dirty or clean as it
/// was.
pub proof fn lemma_refusal_keeps_dirty(v: WorkspaceView, e: CoordinatorError)
    ensures
        v.with_operation_error(Some(e)).is_dirty() == v.is_dirty(),
{
}

/// Changing an overlay back to its saved content, while every other overlay
/// holds its saved content, leaves no unsaved changes.
pub proof fn lemma_edit_back_is_clean(old: WorkspaceView, index: int, updated: OverlayView)
    requires
        old.overlays.len() == old.saved.len(),
        0 <= index < old.overlays.len(),
        forall|j: int|
            0 <= j < old.overlays.len() && j != index ==> (#[trigger] old.overlays[j]).same_content(
                old.saved[j],
            ),
        updated.same_content(old.saved[index]),
    ensures
        !committed_update(old, index, updated).is_dirty(),
{
    let new = committed_update(old, index, updated);
    assert forall|j: int| 0 <= j < new.overlays.len() implies (#[trigger] new.overlays[j]).same_content(
        new.saved[j],
    ) by {
        if j != index {
            assert(new.overlays[j] == old.overlays[j]);
        }
    }
}

/// An update that is refused before the hub is asked (an unknown overlay, a
/// failed mutation, changed content with another identity, or changed
/// content that breaks a collection rule) changes nothing but the operation
/// error: the content, the saved content and the selection stay.
pub proof fn lemma_refused_update_keeps_workspace<H: HubOperations>(
    hub: H,
    old: WorkspaceView,
    id: OverlayId,
    mutated: Result<OverlayView, ModelError>,
    result: Result<(), CoordinatorError>,
    new: WorkspaceView,
)
    requires
        update_outcome(hub, old, id, mutated, result, new),
        overlay_index(old.overlays, id) < 0 || mutated is Err || ({
            let u = mutated->Ok_0;
            let index = overlay_index(old.overlays, id);
            &&& !u.same_content(old.overlays[index])
            &&& (u.id != id || first_collection_error(old.overlays.update(index, u), 0) is Some)
        }),
    ensures
        result is Err,
        new == old.with_operation_error(Some(result->Err_0)),
        new.overlays == old.overlays,
        new.saved == old.saved,
        new.selected == old.selected,
        new.selected_widget == old.selected_widget,
{
}

} // verus!
