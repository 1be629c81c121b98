//! The version-2 overlay document format.
//!
//! A document holds the complete ordered collection of overlays and the
//! durable properties of their widgets; selection, delivery revisions and
//! history are never stored. Reading a document checks its format version
//! first, then decodes every overlay and rejects the whole document on the
//! first invalid or duplicate item, so a failed load never replaces anything.
//! The JSON text itself and the file system are handled by the application.

use std::collections::HashSet;
use vstd::prelude::*;
use vstd::string::StringExecFns;
use crate::ids::{hyphenated_uuid, is_durable_identity, OverlayId, TextWidgetId};
use crate::model::{
    all_widget_ids, collection_widget_error, first_collection_error, first_widget_error,
    lemma_collection_valid_at, lemma_push_contains, lemma_widgets_valid_at, model_message, overlay_header_error,
    overlay_ids, overlay_views, parts_widget_error, validate_collection, widget_ids,
    widget_properties_error, widget_views, Alignment, CanvasSize, Color, FontFamily, ModelError, Overlay, OverlayView,
    Position, TextWidget, TextWidgetView,
};
use crate::text::{decimal_digits, is_blank, push_decimal, same_text, string_from_str};
use crate::paths::{clone_path, data_local_dir, data_local_of, join_path, joined_path, project_dirs};
use crate::settings::APPLICATION;

verus! {

broadcast use {
    Position::lemma_spec_new,
    Position::lemma_spec_new_of_parts,
    Color::lemma_spec_new,
    Color::lemma_spec_new_of_parts,
    CanvasSize::lemma_spec_new,
    CanvasSize::lemma_spec_new_of_parts,
    TextWidgetId::lemma_from_bits,
    TextWidgetId::lemma_from_own_bits,
    OverlayId::lemma_from_bits,
    OverlayId::lemma_from_own_bits,
};

/// The only document format version this library reads and writes.
pub const FORMAT_VERSION: u32 = 2;

/// The document file name below the platform's app-local data directory.
pub const FILE_NAME: &'static str = "overlays.json";

/// A document store for one file path.
#[derive(Debug)]
pub struct Store {
    path: std::path::PathBuf,
}

impl Clone for Store {
    fn clone(&self) -> (copy: Self)
        ensures
            copy == *self,
    {
        Store { path: clone_path(&self.path) }
    }
}

impl Store {
    pub closed spec fn spec_path(&self) -> std::path::PathBuf {
        self.path
    }

    /// A store at `path`; nothing is read or written.
    pub fn at(path: std::path::PathBuf) -> (store: Self)
        ensures
            store.spec_path() == path,
    {
        Store { path }
    }

    /// The exact document path of this store.
    pub fn path(&self) -> (path: &std::path::PathBuf)
        ensures
            *path == self.spec_path(),
    {
        &self.path
    }

    /// A store at `overlays.json` in the platform's app-local data directory
    /// for this application. Which directory that is depends on the platform
    /// and the environment.
    pub fn app_local() -> (store: Result<Self, PersistenceError>)
        ensures
            store is Err ==> store == Err::<Self, PersistenceError>(
                PersistenceError::AppLocalDirectoryUnavailable,
            ),
            store matches Ok(s) ==> exists|dirs: directories::ProjectDirs|
                s.spec_path() == joined_path(data_local_of(dirs), FILE_NAME@),
    {
        match project_dirs(APPLICATION) {
            Some(dirs) => Ok(Store::at(join_path(&data_local_dir(&dirs), FILE_NAME))),
            None => Err(PersistenceError::AppLocalDirectoryUnavailable),
        }
    }
}

/// An error reading, validating or writing the overlay document. Paths and
/// underlying I/O or JSON errors are carried as their display text.
#[derive(Debug, PartialEq)]
pub enum PersistenceError {
    AppLocalDirectoryUnavailable,
    NoParentDirectory { path: String },
    CreateDirectory { path: String, source: String },
    Read { path: String, source: String },
    Malformed { path: String, source: String },
    Serialize(String),
    UnsupportedVersion { found: u32, supported: u32 },
    InvalidModel(ModelError),
    DuplicateOverlayId { id: OverlayId },
    CreateTemporary { directory: String, source: String },
    WriteTemporary { path: String, source: String },
    Replace { path: String, source: String },
}

impl Clone for PersistenceError {
    fn clone(&self) -> (copy: Self)
        ensures
            copy == *self,
    {
        match self {
            PersistenceError::AppLocalDirectoryUnavailable =>
                PersistenceError::AppLocalDirectoryUnavailable,
            PersistenceError::NoParentDirectory { path } => PersistenceError::NoParentDirectory {
                path: path.clone(),
            },
            PersistenceError::CreateDirectory { path, source } =>
                PersistenceError::CreateDirectory { path: path.clone(), source: source.clone() },
            PersistenceError::Read { path, source } => PersistenceError::Read {
                path: path.clone(),
                source: source.clone(),
            },
            PersistenceError::Malformed { path, source } => PersistenceError::Malformed {
                path: path.clone(),
                source: source.clone(),
            },
            PersistenceError::Serialize(source) => PersistenceError::Serialize(source.clone()),
            PersistenceError::UnsupportedVersion { found, supported } =>
                PersistenceError::UnsupportedVersion { found: *found, supported: *supported },
            PersistenceError::InvalidModel(e) => PersistenceError::InvalidModel(e.clone()),
            PersistenceError::DuplicateOverlayId { id } => PersistenceError::DuplicateOverlayId {
                id: *id,
            },
            PersistenceError::CreateTemporary { directory, source } =>
                PersistenceError::CreateTemporary {
                    directory: directory.clone(),
                    source: source.clone(),
                },
            PersistenceError::WriteTemporary { path, source } => PersistenceError::WriteTemporary {
                path: path.clone(),
                source: source.clone(),
            },
            PersistenceError::Replace { path, source } => PersistenceError::Replace {
                path: path.clone(),
                source: source.clone(),
            },
        }
    }
}

/// The user-facing text of a persistence error. `first` and `second` stand
/// for the decimal text of the numbers of the model error that an
/// `InvalidModel` error carries, as in `model_message`.
pub open spec fn persistence_message(
    error: PersistenceError,
    first: Seq<char>,
    second: Seq<char>,
) -> Seq<char> {
    match error {
        PersistenceError::AppLocalDirectoryUnavailable =>
            "the platform app-local data directory is unavailable"@,
        PersistenceError::NoParentDirectory { path } =>
            "persistence path has no parent directory: "@ + path@,
        PersistenceError::CreateDirectory { path, source } =>
            "could not create persistence directory "@ + path@ + ": "@ + source@,
        PersistenceError::Read { path, source } =>
            "could not read persisted overlays "@ + path@ + ": "@ + source@,
        PersistenceError::Malformed { path, source } =>
            "persisted overlays "@ + path@ + " are malformed: "@ + source@,
        PersistenceError::Serialize(source) => "could not serialize overlays: "@ + source@,
        PersistenceError::UnsupportedVersion { found, supported } =>
            "persisted overlays use unsupported format version "@ + decimal_digits(found as nat)
                + "; supported version is "@ + decimal_digits(supported as nat),
        PersistenceError::InvalidModel(m) => "persisted overlay data is invalid: "@ + model_message(
            m,
            first,
            second,
        ),
        PersistenceError::DuplicateOverlayId { id } =>
            "persisted overlays contain duplicate overlay ID "@ + hyphenated_uuid(id.bits()),
        PersistenceError::CreateTemporary { directory, source } =>
            "could not create temporary persistence file in "@ + directory@ + ": "@ + source@,
        PersistenceError::WriteTemporary { path, source } =>
            "could not write temporary persistence file "@ + path@ + ": "@ + source@,
        PersistenceError::Replace { path, source } =>
            "could not atomically replace persisted overlays "@ + path@ + ": "@ + source@,
    }
}

impl PersistenceError {
    /// The user-facing text of this error, as `Display` writes it. The model
    /// error that an `InvalidModel` error carries holds binary32 numbers whose
    /// decimal text the caller writes as `first` and `second` (see
    /// `ModelError::message`); no other variant reads them.
    pub fn message(&self, first: &str, second: &str) -> (text: String)
        ensures
            text@ == persistence_message(*self, first@, second@),
    {
        let mut text = String::new();
        match self {
            PersistenceError::AppLocalDirectoryUnavailable => {
                text.append("the platform app-local data directory is unavailable");
            },
            PersistenceError::NoParentDirectory { path } => {
                text.append("persistence path has no parent directory: ");
                text.append(path.as_str());
            },
            PersistenceError::CreateDirectory { path, source } => {
                text.append("could not create persistence directory ");
                text.append(path.as_str());
                text.append(": ");
                text.append(source.as_str());
            },
            PersistenceError::Read { path, source } => {
                text.append("could not read persisted overlays ");
                text.append(path.as_str());
                text.append(": ");
                text.append(source.as_str());
            },
            PersistenceError::Malformed { path, source } => {
                text.append("persisted overlays ");
                text.append(path.as_str());
                text.append(" are malformed: ");
                text.append(source.as_str());
            },
            PersistenceError::Serialize(source) => {
                text.append("could not serialize overlays: ");
                text.append(source.as_str());
            },
            PersistenceError::UnsupportedVersion { found, supported } => {
                text.append("persisted overlays use unsupported format version ");
                push_decimal(&mut text, *found as u64);
                text.append("; supported version is ");
                push_decimal(&mut text, *supported as u64);
            },
            PersistenceError::InvalidModel(m) => {
                text.append("persisted overlay data is invalid: ");
                let detail = m.message(first, second);
                text.append(detail.as_str());
            },
            PersistenceError::DuplicateOverlayId { id } => {
                text.append("persisted overlays contain duplicate overlay ID ");
                let id_text = id.to_string();
                text.append(id_text.as_str());
            },
            PersistenceError::CreateTemporary { directory, source } => {
                text.append("could not create temporary persistence file in ");
                text.append(directory.as_str());
                text.append(": ");
                text.append(source.as_str());
            },
            PersistenceError::WriteTemporary { path, source } => {
                text.append("could not write temporary persistence file ");
                text.append(path.as_str());
                text.append(": ");
                text.append(source.as_str());
            },
            PersistenceError::Replace { path, source } => {
                text.append("could not atomically replace persisted overlays ");
                text.append(path.as_str());
                text.append(": ");
                text.append(source.as_str());
            },
        }
        assert(text@ =~= persistence_message(*self, first@, second@));
        text
    }
}

/// The stored form of a canvas.
pub struct PersistedCanvasSize {
    pub width: u32,
    pub height: u32,
}

/// The stored form of a position (binary32 bit patterns).
pub struct PersistedPosition {
    pub x: u32,
    pub y: u32,
}

/// The stored form of a color.
pub struct PersistedColor {
    pub red: u8,
    pub green: u8,
    pub blue: u8,
    pub alpha: u8,
}

/// The stored form of an alignment (`"left"`, `"center"`, `"right"`).
#[derive(Clone, Copy, Debug, Eq, PartialEq, Structural)]
pub enum PersistedAlignment {
    Left,
    Center,
    Right,
}

/// The stored form of a text widget. The identity is the UUID value and the
/// font family its stable identifier text.
pub struct PersistedTextWidget {
    pub id: u128,
    pub name: String,
    pub content: String,
    pub font_family: String,
    pub position: PersistedPosition,
    pub font_size: u32,
    pub color: PersistedColor,
    pub alignment: PersistedAlignment,
}

/// The stored form of an overlay.
pub struct PersistedOverlay {
    pub id: u128,
    pub name: String,
    pub canvas: PersistedCanvasSize,
    pub widgets: Vec<PersistedTextWidget>,
}

/// The stored document: its format version and the ordered collection.
pub struct PersistedDocument {
    pub format_version: u32,
    pub overlays: Vec<PersistedOverlay>,
}

pub open spec fn alignment_of(a: PersistedAlignment) -> Alignment {
    match a {
        PersistedAlignment::Left => Alignment::Left,
        PersistedAlignment::Center => Alignment::Center,
        PersistedAlignment::Right => Alignment::Right,
    }
}

pub open spec fn persisted_alignment_of(a: Alignment) -> PersistedAlignment {
    match a {
        Alignment::Left => PersistedAlignment::Left,
        Alignment::Center => PersistedAlignment::Center,
        Alignment::Right => PersistedAlignment::Right,
    }
}

/// The family named by a stored identifier (meaningful for known ones).
pub open spec fn family_of(id: Seq<char>) -> FontFamily {
    if id == FontFamily::JetBrainsMono.spec_id() {
        FontFamily::JetBrainsMono
    } else {
        FontFamily::NotoSans
    }
}

pub open spec fn is_known_family(id: Seq<char>) -> bool {
    id == FontFamily::NotoSans.spec_id() || id == FontFamily::JetBrainsMono.spec_id()
}

/// The widget a stored widget describes.
pub open spec fn persisted_widget_view(p: PersistedTextWidget) -> TextWidgetView {
    TextWidgetView {
        id: TextWidgetId::spec_from_bits(p.id),
        name: p.name@,
        content: p.content@,
        font_family: family_of(p.font_family@),
        position: Position::spec_new(p.position.x, p.position.y),
        font_size: p.font_size,
        color: Color::spec_new(p.color.red, p.color.green, p.color.blue, p.color.alpha),
        alignment: alignment_of(p.alignment),
    }
}

pub open spec fn persisted_widget_views(ps: Seq<PersistedTextWidget>) -> Seq<TextWidgetView> {
    ps.map_values(|p: PersistedTextWidget| persisted_widget_view(p))
}

/// The overlay a stored overlay describes.
pub open spec fn persisted_overlay_view(p: PersistedOverlay) -> OverlayView {
    OverlayView {
        id: OverlayId::spec_from_bits(p.id),
        name: p.name@,
        canvas: CanvasSize::spec_new(p.canvas.width, p.canvas.height),
        widgets: persisted_widget_views(p.widgets@),
    }
}

pub open spec fn document_views(ps: Seq<PersistedOverlay>) -> Seq<OverlayView> {
    ps.map_values(|p: PersistedOverlay| persisted_overlay_view(p))
}

/// Why a stored widget cannot be read: an unknown font family, an identity
/// that is not a durable one, or an invalid property (in that order).
pub open spec fn persisted_widget_error(p: PersistedTextWidget) -> Option<PersistenceError> {
    if !is_known_family(p.font_family@) {
        Some(
            PersistenceError::InvalidModel(ModelError::UnknownFontFamily { value: p.font_family }),
        )
    } else if !is_durable_identity(p.id) {
        Some(
            PersistenceError::InvalidModel(
                ModelError::InvalidWidgetId { id: TextWidgetId::spec_from_bits(p.id) },
            ),
        )
    } else {
        match widget_properties_error(
            p.name@,
            Position::spec_new(p.position.x, p.position.y),
            p.font_size,
        ) {
            Some(e) => Some(PersistenceError::InvalidModel(e)),
            None => None,
        }
    }
}

/// The first unreadable widget of a stored overlay from index `j` on.
pub open spec fn first_persisted_widget_error(ps: Seq<PersistedTextWidget>, j: int) -> Option<
    PersistenceError,
>
    decreases ps.len() - j,
{
    if j < 0 || j >= ps.len() {
        None
    } else {
        match persisted_widget_error(ps[j]) {
            Some(e) => Some(e),
            None => first_persisted_widget_error(ps, j + 1),
        }
    }
}

/// Why a stored overlay cannot be read: its widgets first, then a zero
/// canvas dimension, then the overlay's own identity, name and widget list.
pub open spec fn persisted_overlay_error(p: PersistedOverlay) -> Option<PersistenceError> {
    match first_persisted_widget_error(p.widgets@, 0) {
        Some(e) => Some(e),
        None => if p.canvas.width == 0 || p.canvas.height == 0 {
            Some(
                PersistenceError::InvalidModel(
                    ModelError::InvalidCanvasSize { width: p.canvas.width, height: p.canvas.height },
                ),
            )
        } else if !is_durable_identity(p.id) {
            Some(
                PersistenceError::InvalidModel(
                    ModelError::InvalidOverlayId { id: OverlayId::spec_from_bits(p.id) },
                ),
            )
        } else if is_blank(p.name@) {
            Some(PersistenceError::InvalidModel(ModelError::EmptyName))
        } else {
            match parts_widget_error(
                persisted_widget_views(p.widgets@),
                CanvasSize::spec_new(p.canvas.width, p.canvas.height),
                0,
            ) {
                Some(e) => Some(PersistenceError::InvalidModel(e)),
                None => None,
            }
        }
    }
}

pub open spec fn persisted_ids(ps: Seq<PersistedOverlay>) -> Seq<u128> {
    ps.map_values(|p: PersistedOverlay| p.id)
}

/// The first unreadable overlay from index `i` on: an identity that an
/// earlier stored overlay has, or an unreadable overlay.
pub open spec fn first_document_error(ps: Seq<PersistedOverlay>, i: int) -> Option<PersistenceError>
    decreases ps.len() - i,
{
    if i < 0 || i >= ps.len() {
        None
    } else if persisted_ids(ps.take(i)).contains(ps[i].id) {
        Some(PersistenceError::DuplicateOverlayId { id: OverlayId::spec_from_bits(ps[i].id) })
    } else {
        match persisted_overlay_error(ps[i]) {
            Some(e) => Some(e),
            None => first_document_error(ps, i + 1),
        }
    }
}

/// The outcome of reading the stored overlays `ps`: the first unreadable
/// item, then the collection rules over everything read.
pub open spec fn spec_read_overlays(ps: Seq<PersistedOverlay>) -> Result<Seq<OverlayView>, PersistenceError> {
    match first_document_error(ps, 0) {
        Some(e) => Err(e),
        None => match first_collection_error(document_views(ps), 0) {
            Some(e) => Err(PersistenceError::InvalidModel(e)),
            None => Ok(document_views(ps)),
        },
    }
}

/// Checks the format version of a document before anything else in it is
/// decoded. Versions that do not fit in a `u32` are reported as `u32::MAX`.
pub fn check_format_version(found: u64) -> (result: Result<(), PersistenceError>)
    ensures
        match result {
            Ok(()) => found == FORMAT_VERSION,
            Err(e) => found != FORMAT_VERSION && e == (PersistenceError::UnsupportedVersion {
                found: if found > u32::MAX {
                    u32::MAX
                } else {
                    found as u32
                },
                supported: FORMAT_VERSION,
            }),
        },
{
    if found > u32::MAX as u64 {
        return Err(
            PersistenceError::UnsupportedVersion { found: u32::MAX, supported: FORMAT_VERSION },
        );
    }
    if found as u32 != FORMAT_VERSION {
        return Err(
            PersistenceError::UnsupportedVersion { found: found as u32, supported: FORMAT_VERSION },
        );
    }
    Ok(())
}

fn read_widget(p: PersistedTextWidget) -> (result: Result<TextWidget, PersistenceError>)
    ensures
        match result {
            Ok(w) => persisted_widget_error(p).is_none() && w@ == persisted_widget_view(p),
            Err(e) => persisted_widget_error(p) == Some(e),
        },
{
    proof {
        reveal_strlit("noto-sans");
        reveal_strlit("jetbrains-mono");
    }
    let family = if same_text(p.font_family.as_str(), "noto-sans") {
        assert(p.font_family@ == "noto-sans"@);
        assert("noto-sans"@[0] != "jetbrains-mono"@[0]);
        FontFamily::NotoSans
    } else if same_text(p.font_family.as_str(), "jetbrains-mono") {
        assert(p.font_family@ == "jetbrains-mono"@);
        FontFamily::JetBrainsMono
    } else {
        return Err(
            PersistenceError::InvalidModel(ModelError::UnknownFontFamily { value: p.font_family }),
        );
    };
    assert(family == family_of(p.font_family@));
    let alignment = match p.alignment {
        PersistedAlignment::Left => Alignment::Left,
        PersistedAlignment::Center => Alignment::Center,
        PersistedAlignment::Right => Alignment::Right,
    };
    let result = TextWidget::from_parts(
        TextWidgetId::from_u128(p.id),
        p.name,
        p.content,
        family,
        Position::from_bits(p.position.x, p.position.y),
        p.font_size,
        Color::rgba(p.color.red, p.color.green, p.color.blue, p.color.alpha),
        alignment,
    );
    match result {
        Ok(w) => Ok(w),
        Err(e) => Err(PersistenceError::InvalidModel(e)),
    }
}

fn read_overlay(p: PersistedOverlay) -> (result: Result<Overlay, PersistenceError>)
    ensures
        match result {
            Ok(o) => persisted_overlay_error(p).is_none() && o@ == persisted_overlay_view(p),
            Err(e) => persisted_overlay_error(p) == Some(e),
        },
{
    let ghost ps = p.widgets@;
    let mut widgets: Vec<TextWidget> = Vec::new();
    let n = p.widgets.len();
    let mut source = p.widgets;
    let mut j: usize = 0;
    while j < n
        invariant
            n == ps.len(),
            0 <= j <= ps.len(),
            source@ == ps.skip(j as int),
            widgets@.len() == j,
            forall|k: int| 0 <= k < j ==> (#[trigger] widgets@[k])@ == persisted_widget_view(ps[k]),
            forall|k: int| 0 <= k < j ==> persisted_widget_error(#[trigger] ps[k]).is_none(),
            ps == p.widgets@,
            first_persisted_widget_error(ps, 0) == first_persisted_widget_error(ps, j as int),
        decreases ps.len() - j,
    {
        let item = source.remove(0);
        assert(item == ps[j as int]);
        assert(source@ =~= ps.skip(j + 1));
        match read_widget(item) {
            Ok(w) => widgets.push(w),
            Err(e) => {
                assert(first_persisted_widget_error(ps, j as int) == Some(e));
                return Err(e);
            },
        }
        j = j + 1;
    }
    let ghost views = persisted_widget_views(ps);
    assert(crate::model::widget_views(widgets@) =~= views);
    let canvas = match CanvasSize::new(p.canvas.width, p.canvas.height) {
        Ok(c) => c,
        Err(e) => return Err(PersistenceError::InvalidModel(e)),
    };
    match Overlay::from_parts(OverlayId::from_u128(p.id), p.name, canvas, widgets) {
        Ok(o) => Ok(o),
        Err(e) => Err(PersistenceError::InvalidModel(e)),
    }
}

/// Reads the stored overlays of a document whose version was accepted. The
/// whole collection is rejected on the first unreadable or duplicate item or
/// when what was read breaks a collection rule.
pub fn read_overlays(stored: Vec<PersistedOverlay>) -> (result: Result<Vec<Overlay>, PersistenceError>)
    ensures
        match result {
            Ok(os) => spec_read_overlays(stored@) == Ok::<Seq<OverlayView>, PersistenceError>(
                overlay_views(os@),
            ),
            Err(e) => spec_read_overlays(stored@) == Err::<Seq<OverlayView>, PersistenceError>(e),
        },
{
    broadcast use vstd::std_specs::hash::group_hash_axioms;

    let ghost ps = stored@;
    let n = stored.len();
    let mut source = stored;
    let mut ids: HashSet<u128> = HashSet::new();
    let mut overlays: Vec<Overlay> = Vec::new();
    let mut i: usize = 0;
    while i < n
        invariant
            n == ps.len(),
            ps == stored@,
            0 <= i <= ps.len(),
            source@ == ps.skip(i as int),
            forall|b: u128| #[trigger] ids@.contains(b) <==> persisted_ids(ps.take(i as int)).contains(b),
            overlays@.len() == i,
            forall|k: int| 0 <= k < i ==> (#[trigger] overlays@[k])@ == persisted_overlay_view(ps[k]),
            first_document_error(ps, 0) == first_document_error(ps, i as int),
        decreases ps.len() - i,
    {
        let item = source.remove(0);
        assert(item == ps[i as int]);
        assert(source@ =~= ps.skip(i + 1));
        let id = item.id;
        let seen = ids.contains(&id);
        assert(seen == ids@.contains(id));
        if seen {
            let e = PersistenceError::DuplicateOverlayId { id: OverlayId::from_u128(id) };
            assert(first_document_error(ps, i as int) == Some(e));
            return Err(e);
        }
        match read_overlay(item) {
            Ok(o) => overlays.push(o),
            Err(e) => {
                assert(first_document_error(ps, i as int) == Some(e));
                return Err(e);
            },
        }
        assert(ps.take(i + 1) == ps.take(i as int).push(ps[i as int]));
        assert(persisted_ids(ps.take(i + 1)) == persisted_ids(ps.take(i as int)).push(id));
        let ghost earlier = persisted_ids(ps.take(i as int));
        let ghost old_ids = ids@;
        ids.insert(id);
        assert forall|b: u128| #[trigger] ids@.contains(b) <==> earlier.push(id).contains(b) by {
            assert(old_ids.contains(b) <==> earlier.contains(b));
            lemma_push_contains(earlier, id, b);
        }
        i = i + 1;
    }
    assert(overlay_views(overlays@) =~= document_views(ps));
    match validate_collection(overlays.as_slice()) {
        Ok(()) => Ok(overlays),
        Err(e) => Err(PersistenceError::InvalidModel(e)),
    }
}


/// A family's stored identifier names that family.
pub proof fn lemma_family_of_id(f: FontFamily)
    ensures
        is_known_family(f.spec_id()),
        family_of(f.spec_id()) == f,
{
    reveal_strlit("noto-sans");
    reveal_strlit("jetbrains-mono");
    assert("noto-sans"@[0] != "jetbrains-mono"@[0]);
}

/// Whether every stored widget of every stored overlay names a known family.
pub open spec fn families_known(ps: Seq<PersistedOverlay>) -> bool {
    forall|i: int, j: int|
        0 <= i < ps.len() && 0 <= j < ps[i].widgets@.len() ==> is_known_family(
            #[trigger] ps[i].widgets@[j].font_family@,
        )
}

fn write_widget(w: &TextWidget) -> (p: PersistedTextWidget)
    ensures
        persisted_widget_view(p) == w@,
        is_known_family(p.font_family@),
{
    proof {
        lemma_family_of_id(w@.font_family);
    }
    let position = w.position();
    let color = w.color();
    let alignment = match w.alignment() {
        Alignment::Left => PersistedAlignment::Left,
        Alignment::Center => PersistedAlignment::Center,
        Alignment::Right => PersistedAlignment::Right,
    };
    PersistedTextWidget {
        id: w.id().as_u128(),
        name: string_from_str(w.name()),
        content: string_from_str(w.content()),
        font_family: string_from_str(w.font_family().id()),
        position: PersistedPosition { x: position.x_bits(), y: position.y_bits() },
        font_size: w.font_size_bits(),
        color: PersistedColor {
            red: color.red(),
            green: color.green(),
            blue: color.blue(),
            alpha: color.alpha(),
        },
        alignment,
    }
}

fn write_overlay(o: &Overlay) -> (p: PersistedOverlay)
    ensures
        persisted_overlay_view(p) == o@,
        o@.canvas.spec_is_valid(),
        forall|j: int|
            0 <= j < p.widgets@.len() ==> is_known_family(#[trigger] p.widgets@[j].font_family@),
{
    let source = o.widgets();
    let mut widgets: Vec<PersistedTextWidget> = Vec::new();
    let mut j: usize = 0;
    while j < source.len()
        invariant
            0 <= j <= source@.len(),
            widget_views(source@) == o@.widgets,
            widgets@.len() == j,
            forall|k: int| 0 <= k < j ==> persisted_widget_view(#[trigger] widgets@[k]) == source@[k]@,
            forall|k: int| 0 <= k < j ==> is_known_family(#[trigger] widgets@[k].font_family@),
        decreases source@.len() - j,
    {
        widgets.push(write_widget(&source[j]));
        j = j + 1;
    }
    assert(persisted_widget_views(widgets@) =~= o@.widgets);
    let canvas = o.canvas();
    PersistedOverlay {
        id: o.id().as_u128(),
        name: string_from_str(o.name()),
        canvas: PersistedCanvasSize { width: canvas.width(), height: canvas.height() },
        widgets,
    }
}

/// The document that stores the given overlays, in order.
pub fn to_document(overlays: &[Overlay]) -> (doc: PersistedDocument)
    ensures
        doc.format_version == FORMAT_VERSION,
        document_views(doc.overlays@) == overlay_views(overlays@),
        families_known(doc.overlays@),
        forall|k: int| 0 <= k < overlays@.len() ==> (#[trigger] overlays@[k])@.canvas.spec_is_valid(),
{
    let mut stored: Vec<PersistedOverlay> = Vec::new();
    let mut i: usize = 0;
    while i < overlays.len()
        invariant
            0 <= i <= overlays@.len(),
            stored@.len() == i,
            forall|k: int| 0 <= k < i ==> persisted_overlay_view(#[trigger] stored@[k]) == overlays@[k]@,
            forall|k: int| 0 <= k < i ==> (#[trigger] overlays@[k])@.canvas.spec_is_valid(),
            forall|k: int, j: int|
                0 <= k < i && 0 <= j < stored@[k].widgets@.len() ==> is_known_family(
                    #[trigger] stored@[k].widgets@[j].font_family@,
                ),
        decreases overlays@.len() - i,
    {
        stored.push(write_overlay(&overlays[i]));
        i = i + 1;
    }
    assert(document_views(stored@) =~= overlay_views(overlays@));
    PersistedDocument { format_version: FORMAT_VERSION, overlays: stored }
}

/// The document to write for a save: the collection is validated first and a
/// collection that breaks a rule is refused before anything is written.
pub fn encode_document(overlays: &[Overlay]) -> (result: Result<PersistedDocument, PersistenceError>)
    ensures
        match result {
            Ok(doc) => first_collection_error(overlay_views(overlays@), 0).is_none()
                && doc.format_version == FORMAT_VERSION && document_views(doc.overlays@)
                == overlay_views(overlays@) && families_known(doc.overlays@) && spec_read_overlays(
                doc.overlays@,
            ) == Ok::<Seq<OverlayView>, PersistenceError>(overlay_views(overlays@)),
            Err(e) => first_collection_error(overlay_views(overlays@), 0) matches Some(m) && e
                == PersistenceError::InvalidModel(m),
        },
{
    match validate_collection(overlays) {
        Ok(()) => {
            let doc = to_document(overlays);
            proof {
                let os = overlay_views(overlays@);
                assert forall|k: int| 0 <= k < os.len() implies (#[trigger] os[k]).canvas.spec_is_valid() by {
                    assert(os[k] == overlays@[k]@);
                }
                lemma_document_round_trip(os, doc.overlays@);
            }
            Ok(doc)
        },
        Err(e) => Err(PersistenceError::InvalidModel(e)),
    }
}


proof fn lemma_stored_widgets_readable(ps: Seq<PersistedTextWidget>, j: int)
    requires
        0 <= j <= ps.len(),
        forall|m: int| j <= m < ps.len() ==> persisted_widget_error(#[trigger] ps[m]).is_none(),
    ensures
        first_persisted_widget_error(ps, j).is_none(),
    decreases ps.len() - j,
{
    if j < ps.len() {
        lemma_stored_widgets_readable(ps, j + 1);
    }
}

proof fn lemma_parts_valid(ws: Seq<TextWidgetView>, canvas: CanvasSize, j: int)
    requires
        0 <= j <= ws.len(),
        forall|m: int|
            j <= m < ws.len() ==> !widget_ids(ws.take(m)).contains(#[trigger] ws[m].id)
                && ws[m].position.spec_in_canvas(canvas),
    ensures
        parts_widget_error(ws, canvas, j).is_none(),
    decreases ws.len() - j,
{
    if j < ws.len() {
        lemma_parts_valid(ws, canvas, j + 1);
    }
}

#[verifier::spinoff_prover]
proof fn lemma_stored_overlay_readable(p: PersistedOverlay, os: Seq<OverlayView>, k: int)
    requires
        0 <= k < os.len(),
        first_collection_error(os, 0).is_none(),
        persisted_overlay_view(p) == os[k],
        os[k].canvas.spec_is_valid(),
        forall|j: int|
            0 <= j < p.widgets@.len() ==> is_known_family(#[trigger] p.widgets@[j].font_family@),
    ensures
        persisted_overlay_error(p).is_none(),
{
    let o = os[k];
    let ws = o.widgets;
    lemma_collection_valid_at(os, 0, k);
    assert forall|m: int| 0 <= m < p.widgets@.len() implies persisted_widget_error(
        #[trigger] p.widgets@[m],
    ).is_none() by {
        lemma_widgets_valid_at(os, k, 0, m);
        assert(ws[m] == persisted_widget_view(p.widgets@[m]));
        assert(is_known_family(p.widgets@[m].font_family@));
    }
    lemma_stored_widgets_readable(p.widgets@, 0);
    assert forall|m: int| 0 <= m < ws.len() implies !widget_ids(ws.take(m)).contains(
        #[trigger] ws[m].id,
    ) && ws[m].position.spec_in_canvas(o.canvas) by {
        lemma_widgets_valid_at(os, k, 0, m);
        let before = all_widget_ids(os.take(k));
        let mine = widget_ids(ws.take(m));
        if mine.contains(ws[m].id) {
            let x = choose|x: int| 0 <= x < mine.len() && mine[x] == ws[m].id;
            assert((before + mine)[before.len() + x] == ws[m].id);
        }
    }
    lemma_parts_valid(ws, o.canvas, 0);
}

proof fn lemma_stored_document_readable(ps: Seq<PersistedOverlay>, os: Seq<OverlayView>, i: int)
    requires
        0 <= i <= ps.len(),
        first_collection_error(os, 0).is_none(),
        forall|k: int| 0 <= k < os.len() ==> (#[trigger] os[k]).canvas.spec_is_valid(),
        document_views(ps) == os,
        families_known(ps),
    ensures
        first_document_error(ps, i).is_none(),
    decreases ps.len() - i,
{
    if i < ps.len() {
        assert(os[i] == persisted_overlay_view(ps[i]));
        let earlier = persisted_ids(ps.take(i));
        if earlier.contains(ps[i].id) {
            let x = choose|x: int| 0 <= x < earlier.len() && earlier[x] == ps[i].id;
            assert(os[x] == persisted_overlay_view(ps[x]));
            assert(overlay_ids(os.take(i))[x] == os[i].id);
            lemma_collection_valid_at(os, 0, i);
        }
        assert forall|j: int| 0 <= j < ps[i].widgets@.len() implies is_known_family(
            #[trigger] ps[i].widgets@[j].font_family@,
        ) by {
            assert(families_known(ps));
        }
        lemma_stored_overlay_readable(ps[i], os, i);
        lemma_stored_document_readable(ps, os, i + 1);
    }
}

/// Reading back the document written for a valid collection gives exactly
/// that collection, in the same order: every overlay and widget keeps its
/// identity and every durable property.
pub proof fn lemma_document_round_trip(os: Seq<OverlayView>, ps: Seq<PersistedOverlay>)
    requires
        first_collection_error(os, 0).is_none(),
        forall|k: int| 0 <= k < os.len() ==> (#[trigger] os[k]).canvas.spec_is_valid(),
        document_views(ps) == os,
        families_known(ps),
    ensures
        spec_read_overlays(ps) == Ok::<Seq<OverlayView>, PersistenceError>(os),
{
    lemma_stored_document_readable(ps, os, 0);
}

/// A stored widget's color is read channel by channel: red from `red`,
/// green from `green`, blue from `blue` and alpha from `alpha`.
pub proof fn lemma_stored_color_channels(p: PersistedTextWidget)
    ensures
        persisted_widget_view(p).color.spec_red() == p.color.red,
        persisted_widget_view(p).color.spec_green() == p.color.green,
        persisted_widget_view(p).color.spec_blue() == p.color.blue,
        persisted_widget_view(p).color.spec_alpha() == p.color.alpha,
{
    Color::lemma_spec_new(p.color.red, p.color.green, p.color.blue, p.color.alpha);
}

/// A stored widget is read field by field: its identity from `id`, its name
/// and content texts, its family from the stored identifier, `x` and `y` as
/// the coordinates, the font size, each color channel from its own field,
/// and the stored alignment as the same alignment.
pub proof fn lemma_stored_widget_fields(p: PersistedTextWidget)
    ensures
        ({
            let w = persisted_widget_view(p);
            &&& w.id.bits() == p.id
            &&& w.name == p.name@
            &&& w.content == p.content@
            &&& is_known_family(p.font_family@) ==> w.font_family.spec_id() == p.font_family@
            &&& w.position.spec_x() == p.position.x
            &&& w.position.spec_y() == p.position.y
            &&& w.font_size == p.font_size
            &&& w.color.spec_red() == p.color.red
            &&& w.color.spec_green() == p.color.green
            &&& w.color.spec_blue() == p.color.blue
            &&& w.color.spec_alpha() == p.color.alpha
            &&& p.alignment == PersistedAlignment::Left ==> w.alignment == Alignment::Left
            &&& p.alignment == PersistedAlignment::Center ==> w.alignment == Alignment::Center
            &&& p.alignment == PersistedAlignment::Right ==> w.alignment == Alignment::Right
        }),
{
    lemma_family_of_id(FontFamily::NotoSans);
    lemma_family_of_id(FontFamily::JetBrainsMono);
    lemma_stored_color_channels(p);
}

/// A stored overlay is read field by field: its identity from `id`, its
/// name, `width` and `height` as the canvas, and its widgets in stored order.
pub proof fn lemma_stored_overlay_fields(p: PersistedOverlay)
    ensures
        ({
            let o = persisted_overlay_view(p);
            &&& o.id.bits() == p.id
            &&& o.name == p.name@
            &&& o.canvas.spec_width() == p.canvas.width
            &&& o.canvas.spec_height() == p.canvas.height
            &&& o.widgets.len() == p.widgets@.len()
            &&& forall|j: int|
                0 <= j < p.widgets@.len() ==> #[trigger] o.widgets[j] == persisted_widget_view(
                    p.widgets@[j],
                )
        }),
{
}

/// The stored document `ps` describes the overlays `os` with every widget
/// color field by field: the stored `red`, `green`, `blue` and `alpha` of
/// the `j`-th widget of the `i`-th overlay are that widget's channels.
pub proof fn lemma_document_color_channels(ps: Seq<PersistedOverlay>, os: Seq<OverlayView>)
    requires
        document_views(ps) == os,
    ensures
        os.len() == ps.len(),
        forall|i: int| 0 <= i < ps.len() ==> (#[trigger] os[i]).widgets.len() == ps[i].widgets@.len(),
        forall|i: int, j: int|
            #![trigger os[i].widgets[j], ps[i].widgets@[j]]
            0 <= i < ps.len() && 0 <= j < ps[i].widgets@.len() ==> {
                &&& os[i].widgets[j].color.spec_red() == ps[i].widgets@[j].color.red
                &&& os[i].widgets[j].color.spec_green() == ps[i].widgets@[j].color.green
                &&& os[i].widgets[j].color.spec_blue() == ps[i].widgets@[j].color.blue
                &&& os[i].widgets[j].color.spec_alpha() == ps[i].widgets@[j].color.alpha
            },
{
    assert forall|i: int, j: int|
        #![trigger os[i].widgets[j], ps[i].widgets@[j]]
        0 <= i < ps.len() && 0 <= j < ps[i].widgets@.len() implies {
            &&& os[i].widgets[j].color.spec_red() == ps[i].widgets@[j].color.red
            &&& os[i].widgets[j].color.spec_green() == ps[i].widgets@[j].color.green
            &&& os[i].widgets[j].color.spec_blue() == ps[i].widgets@[j].color.blue
            &&& os[i].widgets[j].color.spec_alpha() == ps[i].widgets@[j].color.alpha
        } by {
        assert(os[i] == persisted_overlay_view(ps[i]));
        assert(os[i].widgets[j] == persisted_widget_view(ps[i].widgets@[j]));
        lemma_stored_color_channels(ps[i].widgets@[j]);
    }
}

/// Reading stored overlays keeps every widget color field by field: where
/// the stored overlays `ps` are read as `os`, the `j`-th widget of the
/// `i`-th overlay has the stored `red`, `green`, `blue` and `alpha`.
pub proof fn lemma_read_keeps_color_channels(ps: Seq<PersistedOverlay>, os: Seq<OverlayView>)
    requires
        spec_read_overlays(ps) == Ok::<Seq<OverlayView>, PersistenceError>(os),
    ensures
        os.len() == ps.len(),
        forall|i: int| 0 <= i < ps.len() ==> (#[trigger] os[i]).widgets.len() == ps[i].widgets@.len(),
        forall|i: int, j: int|
            #![trigger os[i].widgets[j], ps[i].widgets@[j]]
            0 <= i < ps.len() && 0 <= j < ps[i].widgets@.len() ==> {
                &&& os[i].widgets[j].color.spec_red() == ps[i].widgets@[j].color.red
                &&& os[i].widgets[j].color.spec_green() == ps[i].widgets@[j].color.green
                &&& os[i].widgets[j].color.spec_blue() == ps[i].widgets@[j].color.blue
                &&& os[i].widgets[j].color.spec_alpha() == ps[i].widgets@[j].color.alpha
            },
{
    lemma_document_color_channels(ps, os);
}

/// Writing overlays stores every widget color field by field: where `ps`
/// is the stored form of the overlays `os`, the stored `red`, `green`,
/// `blue` and `alpha` of the `j`-th widget of the `i`-th overlay are that
/// widget's own channels.
pub proof fn lemma_write_keeps_color_channels(os: Seq<OverlayView>, ps: Seq<PersistedOverlay>)
    requires
        document_views(ps) == os,
    ensures
        ps.len() == os.len(),
        forall|i: int| 0 <= i < os.len() ==> (#[trigger] ps[i]).widgets@.len() == os[i].widgets.len(),
        forall|i: int, j: int|
            #![trigger os[i].widgets[j], ps[i].widgets@[j]]
            0 <= i < os.len() && 0 <= j < os[i].widgets.len() ==> {
                &&& ps[i].widgets@[j].color.red == os[i].widgets[j].color.spec_red()
                &&& ps[i].widgets@[j].color.green == os[i].widgets[j].color.spec_green()
                &&& ps[i].widgets@[j].color.blue == os[i].widgets[j].color.spec_blue()
                &&& ps[i].widgets@[j].color.alpha == os[i].widgets[j].color.spec_alpha()
            },
{
    lemma_document_color_channels(ps, os);
    assert forall|i: int| 0 <= i < os.len() implies (#[trigger] ps[i]).widgets@.len()
        == os[i].widgets.len() by {
        assert(os[i].widgets.len() == ps[i].widgets@.len());
    }
}

} // verus!
