//! One farm entry: a directory path and a size allocation, each a validated
//! field, plus the update protocol towards the owning collection.
//!
//! The collection owns the filesystem: it probes whether a directory is
//! writable and hands the result in as a plain flag, so the entry's state
//! transitions are pure. Aggregate validity is never cached; it is recomputed
//! from the two fields on demand, and a `ValidityUpdate` event is raised only
//! when it actually flips.

use crate::field::ValidatedField;
use crate::size::is_size_valid;
use crate::size::size_valid;
use vstd::prelude::*;

verus! {

/// Opaque identity token assigned once by the owning collection, stable
/// across reordering; used only to tag outbound events, never as a position.
#[derive(Clone, Copy, Debug, PartialEq, Eq, Structural)]
pub struct StableId {
    pub raw: u64,
}

/// Domain snapshot handed downstream: the directory path and the size kept
/// exactly as the user last entered it.
#[derive(Debug)]
pub struct Farm {
    pub path: String,
    pub size: String,
}

/// The initial path and size pair an entry is created from. A brand-new
/// entry starts from the explicit empty pair — nothing entered yet — which
/// validation then rejects until the user fills it in; an empty path is
/// never mistaken for a validated absence.
#[derive(Debug)]
pub struct FarmEntryInit {
    pub path: String,
    pub size: String,
}

impl FarmEntryInit {
    /// The "nothing entered yet" pair.
    pub fn empty() -> (r: FarmEntryInit)
        ensures
            r.path@ == Seq::<char>::empty(),
            r.size@ == Seq::<char>::empty(),
    {
        FarmEntryInit { path: String::new(), size: String::new() }
    }
}

/// Outbound event from an entry to its owning collection.
#[derive(Debug, PartialEq, Eq, Structural)]
pub enum FarmEntryEvent {
    /// Ask the host to present a directory chooser for this entry.
    OpenDirectory(StableId),
    /// This entry's aggregate validity changed; re-evaluate global state.
    ValidityUpdate,
    /// Ask the collection to remove this entry.
    Delete(StableId),
}

/// A farm entry: an identity token and two validated fields.
#[derive(Debug)]
pub struct FarmEntry {
    pub identity: StableId,
    pub path: ValidatedField<String>,
    pub size: ValidatedField<String>,
}

impl FarmEntry {
    /// Aggregate validity: the entry is valid iff both fields are.
    pub open spec fn spec_is_valid(self) -> bool {
        self.path.is_valid && self.size.is_valid
    }

    /// The entry construction builds, given the probe's verdict on the path.
    pub open spec fn spec_initialized(
        identity: StableId,
        path: String,
        size: String,
        path_writable: bool,
    ) -> FarmEntry {
        FarmEntry {
            identity,
            path: ValidatedField::spec_constructed(path, path_writable),
            size: ValidatedField::spec_constructed(size, size_valid(size@)),
        }
    }

    /// The entry after a directory was selected: both fields' change bits are
    /// reset first, then the path field is rebuilt from the new path and the
    /// probe's verdict, which sets its two bits again.
    pub open spec fn spec_after_path_selected(
        self,
        new_path: String,
        path_writable: bool,
    ) -> FarmEntry {
        FarmEntry {
            identity: self.identity,
            path: ValidatedField::spec_constructed(new_path, path_writable),
            size: self.size.spec_reset(),
        }
    }

    /// The entry after the size text changed: both fields' change bits are
    /// reset first, then the size field's validity is set from the parse and
    /// its value replaced with the new text, valid or not.
    pub open spec fn spec_after_size_text_changed(self, new_text: String) -> FarmEntry {
        FarmEntry {
            identity: self.identity,
            path: self.path.spec_reset(),
            size: self.size.spec_reset().spec_set_validity(size_valid(new_text@)).spec_replace_value(
                new_text,
            ),
        }
    }

    /// The event an update raises: `ValidityUpdate` exactly when aggregate
    /// validity flipped, nothing otherwise.
    pub open spec fn spec_update_event(self, updated: FarmEntry) -> Option<FarmEntryEvent> {
        if self.spec_is_valid() != updated.spec_is_valid() {
            Some(FarmEntryEvent::ValidityUpdate)
        } else {
            None
        }
    }

    /// Construction entrypoint. The caller probes whether `path` denotes a
    /// writable directory and passes the verdict as `path_writable`; the size
    /// text is validated here. A `ValidityUpdate` event is returned
    /// unconditionally, because construction resolves asynchronously and the
    /// collection's first render may have assumed the default.
    pub fn initialize(
        identity: StableId,
        path: String,
        size: String,
        path_writable: bool,
    ) -> (r: (FarmEntry, FarmEntryEvent))
        ensures
            r.0 == Self::spec_initialized(identity, path, size, path_writable),
            r.1 == FarmEntryEvent::ValidityUpdate,
    {
        let size_ok = is_size_valid(size.as_str());
        let entry = FarmEntry {
            identity,
            path: if path_writable {
                ValidatedField::construct_valid(path)
            } else {
                ValidatedField::construct_invalid(path)
            },
            size: if size_ok {
                ValidatedField::construct_valid(size)
            } else {
                ValidatedField::construct_invalid(size)
            },
        };
        (entry, FarmEntryEvent::ValidityUpdate)
    }

    /// A directory was selected for this entry. The caller probes whether it
    /// is writable and passes the verdict as `path_writable`. Returns
    /// `Some(ValidityUpdate)` exactly when aggregate validity flipped.
    pub fn handle_path_selected(
        &mut self,
        new_path: String,
        path_writable: bool,
    ) -> (r: Option<FarmEntryEvent>)
        ensures
            *final(self) == old(self).spec_after_path_selected(new_path, path_writable),
            r == old(self).spec_update_event(*final(self)),
    {
        self.path.reset_change_flags();
        self.size.reset_change_flags();
        let was_valid = self.is_valid();
        self.path = if path_writable {
            ValidatedField::construct_valid(new_path)
        } else {
            ValidatedField::construct_invalid(new_path)
        };
        let now_valid = self.is_valid();
        if was_valid != now_valid {
            Some(FarmEntryEvent::ValidityUpdate)
        } else {
            None
        }
    }

    /// The size text changed. The text replaces the field's value even when
    /// it is invalid, so the user can still see and correct it. Returns
    /// `Some(ValidityUpdate)` exactly when aggregate validity flipped.
    pub fn handle_size_text_changed(&mut self, new_text: String) -> (r: Option<FarmEntryEvent>)
        ensures
            *final(self) == old(self).spec_after_size_text_changed(new_text),
            r == old(self).spec_update_event(*final(self)),
    {
        self.path.reset_change_flags();
        self.size.reset_change_flags();
        let was_valid = self.is_valid();
        let size_ok = is_size_valid(new_text.as_str());
        self.size.set_validity(size_ok);
        self.size.replace_value(new_text);
        let now_valid = self.is_valid();
        if was_valid != now_valid {
            Some(FarmEntryEvent::ValidityUpdate)
        } else {
            None
        }
    }

    pub fn is_valid(&self) -> (r: bool)
        ensures
            r == self.spec_is_valid(),
    {
        self.path.is_valid && self.size.is_valid
    }

    /// Snapshot for persistence: the path, and the size exactly as last
    /// entered, even when that text is invalid.
    pub fn to_domain_value(&self) -> (r: Farm)
        ensures
            r.path@ == self.path.value@,
            r.size@ == self.size.value@,
    {
        Farm { path: self.path.value.clone(), size: self.size.value.clone() }
    }

    /// Ask the host to present a directory chooser; no local state changes.
    pub fn request_open_directory_picker(&self) -> (r: FarmEntryEvent)
        ensures
            r == FarmEntryEvent::OpenDirectory(self.identity),
    {
        FarmEntryEvent::OpenDirectory(self.identity)
    }

    /// Ask the collection to remove this entry; no local state changes.
    pub fn request_delete(&self) -> (r: FarmEntryEvent)
        ensures
            r == FarmEntryEvent::Delete(self.identity),
    {
        FarmEntryEvent::Delete(self.identity)
    }
}

/// Law: from an entry whose path is invalid and whose size is valid,
/// selecting a writable directory flips aggregate validity to true and raises
/// exactly one `ValidityUpdate`; selecting another writable directory
/// afterwards flips nothing and raises no event.
pub proof fn lemma_path_flip_raises_one_update(e: FarmEntry, first: String, second: String)
    requires
        !e.path.is_valid,
        e.size.is_valid,
    ensures
        ({
            let e1 = e.spec_after_path_selected(first, true);
            &&& e1.spec_is_valid()
            &&& e.spec_update_event(e1) == Some(FarmEntryEvent::ValidityUpdate)
            &&& e1.spec_update_event(e1.spec_after_path_selected(second, true)) is None
        }),
{
}

/// Law: a size-text update stores the text exactly as entered, valid or not,
/// and sets the field's validity from the parse alone.
pub proof fn lemma_size_text_kept_verbatim(e: FarmEntry, text: String)
    ensures
        e.spec_after_size_text_changed(text).size.value == text,
        e.spec_after_size_text_changed(text).size.is_valid == size_valid(text@),
{
}

} // verus!
