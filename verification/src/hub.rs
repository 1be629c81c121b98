//! Delivery revisions of hosted overlays.
//!
//! The hub holds the overlays published to browser sources, each with a
//! running-session delivery revision that is separate from the durable
//! model. It keeps a per-identity high-water mark across removal, so an
//! identity registered again resumes above every revision it had before.
//! Revisions never exceed the largest integer a browser can hold exactly.

use std::collections::HashMap;
use vstd::prelude::*;
use vstd::string::StringExecFns;
use crate::ids::{hyphenated_uuid, parse_overlay_id, spec_parse_overlay_id, OverlayId};
use crate::text::{decimal_digits, push_decimal};
use crate::model::{Overlay, OverlayView};

verus! {

/// The largest accepted delivery revision (`Number.MAX_SAFE_INTEGER`).
pub const MAX_SAFE_REVISION: u64 = 9_007_199_254_740_991;

/// The revision after `current`, if it does not pass the largest safe one.
pub open spec fn spec_next_revision(current: u64) -> Option<u64> {
    if current < MAX_SAFE_REVISION {
        Some((current + 1) as u64)
    } else {
        None
    }
}

/// The revision after `current`, if it does not pass the largest safe one.
pub fn next_revision(current: u64) -> (next: Option<u64>)
    ensures
        next == spec_next_revision(current),
{
    match current.checked_add(1) {
        Some(next) => if next <= MAX_SAFE_REVISION {
            Some(next)
        } else {
            None
        },
        None => None,
    }
}

/// The outcome of a publication.
#[derive(Clone, Copy, Debug, Eq, PartialEq, Structural)]
pub enum PublishResult {
    Published { revision: u64 },
    Unchanged,
}

/// A refused hub operation.
#[derive(Clone, Copy, Debug, Eq, PartialEq, Structural)]
pub enum HubError {
    Duplicate { id: OverlayId },
    Unknown { id: OverlayId },
    LockPoisoned,
    RevisionExhausted { id: OverlayId, current: u64 },
}

/// The user-facing text of a hub error.
pub open spec fn hub_message(error: HubError) -> Seq<char> {
    match error {
        HubError::Duplicate { id } =>
            "overlay "@ + hyphenated_uuid(id.bits()) + " is already registered"@,
        HubError::Unknown { id } => "overlay "@ + hyphenated_uuid(id.bits()) + " is not registered"@,
        HubError::LockPoisoned => "overlay hub lock is poisoned"@,
        HubError::RevisionExhausted { id, current } =>
            "overlay "@ + hyphenated_uuid(id.bits()) + " delivery revision exhausted at "@
                + decimal_digits(current as nat),
    }
}

impl HubError {
    /// The user-facing text of this error, as `Display` writes it.
    pub fn message(&self) -> (text: String)
        ensures
            text@ == hub_message(*self),
    {
        let mut text = String::new();
        match self {
            HubError::Duplicate { id } => {
                text.append("overlay ");
                let id_text = id.to_string();
                text.append(id_text.as_str());
                text.append(" is already registered");
            },
            HubError::Unknown { id } => {
                text.append("overlay ");
                let id_text = id.to_string();
                text.append(id_text.as_str());
                text.append(" is not registered");
            },
            HubError::LockPoisoned => {
                text.append("overlay hub lock is poisoned");
            },
            HubError::RevisionExhausted { id, current } => {
                text.append("overlay ");
                let id_text = id.to_string();
                text.append(id_text.as_str());
                text.append(" delivery revision exhausted at ");
                push_decimal(&mut text, *current);
            },
        }
        assert(text@ =~= hub_message(*self));
        text
    }
}

/// A hosted overlay and its current delivery revision.
pub struct HubEntryView {
    pub overlay: OverlayView,
    pub revision: u64,
}

/// The hosted overlays by identity, and the high-water mark of every
/// identity ever hosted in this session.
pub struct HubView {
    pub entries: Map<OverlayId, HubEntryView>,
    pub high_water: Map<OverlayId, u64>,
}

struct HubEntry {
    overlay: Overlay,
    revision: u64,
}

/// The delivery state of a running session: the hosted overlays and the
/// high-water marks, each keyed by the identity's UUID value.
pub struct HubState {
    entries: HashMap<u128, HubEntry>,
    high_water: HashMap<u128, u64>,
}

/// The hosted overlays of a table keyed by UUID value, by identity.
spec fn entry_map(es: Map<u128, HubEntry>) -> Map<OverlayId, HubEntryView> {
    Map::new(
        |id: OverlayId| es.contains_key(id.bits()),
        |id: OverlayId|
            HubEntryView { overlay: es[id.bits()].overlay@, revision: es[id.bits()].revision },
    )
}

/// The high-water marks of a table keyed by UUID value, by identity.
spec fn mark_map(ms: Map<u128, u64>) -> Map<OverlayId, u64> {
    Map::new(|id: OverlayId| ms.contains_key(id.bits()), |id: OverlayId| ms[id.bits()])
}

impl View for HubState {
    type V = HubView;

    closed spec fn view(&self) -> HubView {
        HubView { entries: entry_map(self.entries@), high_water: mark_map(self.high_water@) }
    }
}

/// Inserting under an identity's UUID value inserts under the identity.
proof fn lemma_entry_map_insert(es: Map<u128, HubEntry>, id: OverlayId, e: HubEntry)
    ensures
        entry_map(es.insert(id.bits(), e)) == entry_map(es).insert(
            id,
            HubEntryView { overlay: e.overlay@, revision: e.revision },
        ),
{
    assert forall|x: OverlayId| #![auto] (x.bits() == id.bits()) == (x == id) by {
        OverlayId::lemma_bits_injective(x, id);
    }
    assert(entry_map(es.insert(id.bits(), e)) =~= entry_map(es).insert(
        id,
        HubEntryView { overlay: e.overlay@, revision: e.revision },
    ));
}

/// Removing an identity's UUID value removes the identity.
proof fn lemma_entry_map_remove(es: Map<u128, HubEntry>, id: OverlayId)
    ensures
        entry_map(es.remove(id.bits())) == entry_map(es).remove(id),
{
    assert forall|x: OverlayId| #![auto] (x.bits() == id.bits()) == (x == id) by {
        OverlayId::lemma_bits_injective(x, id);
    }
    assert(entry_map(es.remove(id.bits())) =~= entry_map(es).remove(id));
}

/// Inserting a mark under an identity's UUID value inserts it under the
/// identity.
proof fn lemma_mark_map_insert(ms: Map<u128, u64>, id: OverlayId, r: u64)
    ensures
        mark_map(ms.insert(id.bits(), r)) == mark_map(ms).insert(id, r),
{
    assert forall|x: OverlayId| #![auto] (x.bits() == id.bits()) == (x == id) by {
        OverlayId::lemma_bits_injective(x, id);
    }
    assert(mark_map(ms.insert(id.bits(), r)) =~= mark_map(ms).insert(id, r));
}

impl HubState {
    /// The state is consistent: every hosted overlay is keyed by its own
    /// identity, its revision equals its identity's high-water mark, and no
    /// mark exceeds the largest safe revision.
    pub closed spec fn wf(&self) -> bool {
        &&& forall|b: u128|
            #[trigger] self.entries@.contains_key(b) ==> {
                &&& self.entries@[b].overlay@.id.bits() == b
                &&& self.high_water@.contains_key(b)
                &&& self.high_water@[b] == self.entries@[b].revision
            }
        &&& forall|b: u128|
            #[trigger] self.high_water@.contains_key(b) ==> self.high_water@[b] <= MAX_SAFE_REVISION
    }

    /// An empty hub.
    pub fn new() -> (hub: Self)
        ensures
            hub.wf(),
            hub@.entries == Map::<OverlayId, HubEntryView>::empty(),
            hub@.high_water == Map::<OverlayId, u64>::empty(),
    {
        let hub = HubState { entries: HashMap::new(), high_water: HashMap::new() };
        assert(hub@.entries =~= Map::<OverlayId, HubEntryView>::empty());
        assert(hub@.high_water =~= Map::<OverlayId, u64>::empty());
        hub
    }

    /// Registers an overlay. A new identity starts at revision zero; an
    /// identity hosted before resumes one above its high-water mark. Refused,
    /// with nothing changed, for an identity already hosted or one whose mark
    /// is the largest safe revision.
    pub fn register(&mut self, overlay: Overlay) -> (result: Result<u64, HubError>)
        requires
            old(self).wf(),
        ensures
            final(self).wf(),
            match result {
                Ok(revision) => {
                    let id = overlay@.id;
                    &&& !old(self)@.entries.contains_key(id)
                    &&& revision == if old(self)@.high_water.contains_key(id) {
                        old(self)@.high_water[id] + 1
                    } else {
                        0
                    }
                    &&& final(self)@.entries == old(self)@.entries.insert(
                        id,
                        HubEntryView { overlay: overlay@, revision },
                    )
                    &&& final(self)@.high_water == old(self)@.high_water.insert(id, revision)
                },
                Err(e) => final(self)@ == old(self)@ && if old(self)@.entries.contains_key(
                    overlay@.id,
                ) {
                    e == (HubError::Duplicate { id: overlay@.id })
                } else {
                    old(self)@.high_water.contains_key(overlay@.id) && old(self)@.high_water[overlay@.id]
                        >= MAX_SAFE_REVISION && e == (HubError::RevisionExhausted {
                        id: overlay@.id,
                        current: old(self)@.high_water[overlay@.id],
                    })
                },
            },
    {
        broadcast use vstd::std_specs::hash::group_hash_axioms;

        let id = overlay.id();
        let key = id.as_u128();
        if self.entries.contains_key(&key) {
            return Err(HubError::Duplicate { id });
        }
        let revision = match self.high_water.get(&key) {
            None => 0,
            Some(current) => match next_revision(*current) {
                Some(next) => next,
                None => return Err(HubError::RevisionExhausted { id, current: *current }),
            },
        };
        let ghost es = self.entries@;
        let ghost ms = self.high_water@;
        let entry = HubEntry { overlay, revision };
        let ghost entry_value = entry;
        self.high_water.insert(key, revision);
        self.entries.insert(key, entry);
        proof {
            lemma_entry_map_insert(es, id, entry_value);
            lemma_mark_map_insert(ms, id, revision);
        }
        Ok(revision)
    }

    /// Publishes new content for a hosted overlay under the next revision.
    /// Content equal to the hosted content is `Unchanged` and changes
    /// nothing. Refused, with nothing changed, for an identity not hosted or
    /// when the hosted revision is the largest safe one.
    pub fn publish(&mut self, overlay: &Overlay) -> (result: Result<PublishResult, HubError>)
        requires
            old(self).wf(),
        ensures
            final(self).wf(),
            match result {
                Ok(PublishResult::Unchanged) => old(self)@.entries.contains_key(overlay@.id)
                    && old(self)@.entries[overlay@.id].overlay.same_content(overlay@) && final(self)@
                    == old(self)@,
                Ok(PublishResult::Published { revision }) => {
                    let id = overlay@.id;
                    &&& old(self)@.entries.contains_key(id)
                    &&& !old(self)@.entries[id].overlay.same_content(overlay@)
                    &&& spec_next_revision(old(self)@.entries[id].revision) == Some(revision)
                    &&& final(self)@.entries == old(self)@.entries.insert(
                        id,
                        HubEntryView { overlay: overlay@, revision },
                    )
                    &&& final(self)@.high_water == old(self)@.high_water.insert(id, revision)
                },
                Err(e) => final(self)@ == old(self)@ && if !old(self)@.entries.contains_key(
                    overlay@.id,
                ) {
                    e == (HubError::Unknown { id: overlay@.id })
                } else {
                    !old(self)@.entries[overlay@.id].overlay.same_content(overlay@)
                        && old(self)@.entries[overlay@.id].revision >= MAX_SAFE_REVISION && e == (
                    HubError::RevisionExhausted {
                        id: overlay@.id,
                        current: old(self)@.entries[overlay@.id].revision,
                    })
                },
            },
    {
        broadcast use vstd::std_specs::hash::group_hash_axioms;

        let id = overlay.id();
        let key = id.as_u128();
        let hosted = match self.entries.get(&key) {
            Some(entry) => entry,
            None => return Err(HubError::Unknown { id }),
        };
        if overlay.same_content(&hosted.overlay) {
            assert(hosted.overlay@.same_content(overlay@)) by {
                broadcast use crate::model::lemma_same_content_symmetric;
            }
            return Ok(PublishResult::Unchanged);
        }
        assert(!hosted.overlay@.same_content(overlay@)) by {
            broadcast use crate::model::lemma_same_content_symmetric;
        }
        let current = hosted.revision;
        let next = match next_revision(current) {
            Some(next) => next,
            None => return Err(HubError::RevisionExhausted { id, current }),
        };
        let ghost es = self.entries@;
        let ghost ms = self.high_water@;
        let entry = HubEntry { overlay: overlay.clone(), revision: next };
        let ghost entry_value = entry;
        self.high_water.insert(key, next);
        self.entries.insert(key, entry);
        proof {
            lemma_entry_map_insert(es, id, entry_value);
            lemma_mark_map_insert(ms, id, next);
        }
        Ok(PublishResult::Published { revision: next })
    }

    /// Stops hosting an overlay and returns its content. Its high-water mark
    /// is kept.
    pub fn remove(&mut self, id: OverlayId) -> (removed: Option<Overlay>)
        requires
            old(self).wf(),
        ensures
            final(self).wf(),
            final(self)@.entries == old(self)@.entries.remove(id),
            final(self)@.high_water == old(self)@.high_water,
            match removed {
                Some(o) => old(self)@.entries.contains_key(id) && o@ == old(self)@.entries[id].overlay,
                None => !old(self)@.entries.contains_key(id),
            },
    {
        broadcast use vstd::std_specs::hash::group_hash_axioms;

        let key = id.as_u128();
        let ghost es = self.entries@;
        let removed = self.entries.remove(&key);
        proof {
            lemma_entry_map_remove(es, id);
        }
        match removed {
            Some(entry) => Some(entry.overlay),
            None => None,
        }
    }

    /// A copy of the hosted content of an overlay.
    pub fn snapshot(&self, id: OverlayId) -> (snapshot: Option<Overlay>)
        requires
            self.wf(),
        ensures
            match snapshot {
                Some(o) => self@.entries.contains_key(id) && o@ == self@.entries[id].overlay,
                None => !self@.entries.contains_key(id),
            },
    {
        broadcast use vstd::std_specs::hash::group_hash_axioms;

        match self.entries.get(&id.as_u128()) {
            Some(entry) => Some(entry.overlay.clone()),
            None => None,
        }
    }

    /// The current delivery revision of a hosted overlay.
    pub fn revision(&self, id: OverlayId) -> (revision: Option<u64>)
        requires
            self.wf(),
        ensures
            match revision {
                Some(r) => self@.entries.contains_key(id) && r == self@.entries[id].revision,
                None => !self@.entries.contains_key(id),
            },
    {
        broadcast use vstd::std_specs::hash::group_hash_axioms;

        match self.entries.get(&id.as_u128()) {
            Some(entry) => Some(entry.revision),
            None => None,
        }
    }

    /// Sets an identity's high-water mark, and the revision of its hosted
    /// overlay if there is one (for exercising revision exhaustion).
    pub fn set_high_water_for_test(&mut self, id: OverlayId, revision: u64)
        requires
            old(self).wf(),
            revision <= MAX_SAFE_REVISION,
        ensures
            final(self).wf(),
            final(self)@.high_water == old(self)@.high_water.insert(id, revision),
            final(self)@.entries == if old(self)@.entries.contains_key(id) {
                old(self)@.entries.insert(
                    id,
                    HubEntryView { revision, ..old(self)@.entries[id] },
                )
            } else {
                old(self)@.entries
            },
    {
        broadcast use vstd::std_specs::hash::group_hash_axioms;

        let key = id.as_u128();
        let ghost es = self.entries@;
        let ghost ms = self.high_water@;
        self.high_water.insert(key, revision);
        proof {
            lemma_mark_map_insert(ms, id, revision);
        }
        let removed = self.entries.remove(&key);
        match removed {
            Some(hosted) => {
                let entry = HubEntry { overlay: hosted.overlay, revision };
                let ghost entry_value = entry;
                self.entries.insert(key, entry);
                proof {
                    assert(es.remove(key).insert(key, entry_value) =~= es.insert(key, entry_value));
                    lemma_entry_map_insert(es, id, entry_value);
                }
            },
            None => {
                assert(self.entries@ =~= es);
            },
        }
    }
}


impl HubState {
    /// What the overlay page at a URL path segment shows: the hosted content
    /// and its current revision. Nothing for text that is not a durable
    /// identity, or for an identity that is not hosted.
    pub fn page_for(&self, id_text: &str) -> (page: Option<(Overlay, u64)>)
        requires
            self.wf(),
        ensures
            match page {
                Some((overlay, revision)) => spec_parse_overlay_id(id_text@) matches Some(bits) && {
                    let id = OverlayId::spec_from_bits(bits);
                    &&& self@.entries.contains_key(id)
                    &&& overlay@ == self@.entries[id].overlay
                    &&& revision == self@.entries[id].revision
                },
                None => match spec_parse_overlay_id(id_text@) {
                    Some(bits) => !self@.entries.contains_key(OverlayId::spec_from_bits(bits)),
                    None => true,
                },
            },
    {
        let id = match parse_overlay_id(id_text) {
            Some(id) => id,
            None => return None,
        };
        proof {
            OverlayId::lemma_from_own_bits(id);
        }
        let overlay = match self.snapshot(id) {
            Some(o) => o,
            None => return None,
        };
        match self.revision(id) {
            Some(revision) => Some((overlay, revision)),
            None => None,
        }
    }
}

} // verus!
